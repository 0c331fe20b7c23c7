use stream_mux::descriptor::{Format, StreamData, SubFormat, Subtitles, ThumbNailFormat};
use stream_mux::selector::{select_primary, select_streams, select_subtitle, select_thumbnail, stream_title};
use stream_mux::track::{MediaTrack, TrackKind};

fn s(text: &str) -> Option<String> {
    Some(text.to_string())
}

fn video(url: &str, height: u64, filesize: u64) -> Format {
    Format {
        url: s(url),
        height: Some(height),
        filesize: Some(filesize),
        asr: None,
        video_ext: s("mp4"),
        audio_ext: s("none"),
        language: s("en"),
    }
}

fn audio(url: &str, asr: u64) -> Format {
    Format {
        url: s(url),
        height: None,
        filesize: None,
        asr: Some(asr),
        video_ext: s("none"),
        audio_ext: s("m4a"),
        language: None,
    }
}

fn thumb(url: &str, height: u64) -> ThumbNailFormat {
    ThumbNailFormat { url: s(url), height: Some(height) }
}

fn data(formats: Vec<Format>) -> StreamData {
    StreamData {
        title: s("Title"),
        fulltitle: None,
        formats,
        subtitles: vec![],
        thumbnails: vec![],
    }
}

const MIB: u64 = 1024 * 1024;

#[test]
fn video_tallest_eligible_first_seen_wins() {
    let formats = vec![
        audio("a1", 44100),
        video("v480", 480, 10 * MIB),
        video("v1080", 1080, 10 * MIB),
        video("v720a", 720, 50 * MIB),
        video("v720big", 720, 101 * MIB),
        video("v720b", 720, 20 * MIB),
    ];
    let (primary, audio_only) = select_primary(&formats);
    let primary = primary.unwrap();
    assert_eq!(primary.kind, TrackKind::Video);
    assert_eq!(primary.source_url, "v720a");
    assert_eq!(primary.container_extension, s("mp4"));
    assert_eq!(primary.language, s("en"));
    assert!(!primary.fallible);
    assert!(!audio_only);
}

#[test]
fn video_limits_are_inclusive() {
    let formats = vec![video("edge", 720, 100 * MIB), video("over", 721, MIB)];
    let (primary, _) = select_primary(&formats);
    assert_eq!(primary.unwrap().source_url, "edge");
}

#[test]
fn video_without_filesize_is_not_eligible() {
    let mut f = video("nosize", 360, 0);
    f.filesize = None;
    let (primary, audio_only) = select_primary(&vec![f, audio("a", 22050)]);
    assert_eq!(primary.unwrap().source_url, "a");
    assert!(audio_only);
}

#[test]
fn audio_fallback_highest_rate_within_limit() {
    let formats = vec![
        audio("a44", 44100),
        audio("a96", 96000),
        audio("a48", 48000),
        audio("a48b", 48000),
        video("v1440", 1440, MIB),
    ];
    let (primary, audio_only) = select_primary(&formats);
    let primary = primary.unwrap();
    assert_eq!(primary.kind, TrackKind::Audio);
    assert_eq!(primary.source_url, "a48");
    assert_eq!(primary.container_extension, s("m4a"));
    assert!(audio_only);
}

#[test]
fn nothing_eligible_gives_no_primary() {
    let formats = vec![video("v1080", 1080, MIB), audio("a96", 96000)];
    let (primary, audio_only) = select_primary(&formats);
    assert!(primary.is_none());
    assert!(!audio_only);
}

#[test]
fn thumbnail_tie_prefers_non_webm() {
    let thumbs = vec![thumb("https://i/x.webm", 720), thumb("https://i/x.jpg", 720), thumb("https://i/s.jpg", 90)];
    let t = select_thumbnail(&thumbs).unwrap();
    assert_eq!(t.source_url, "https://i/x.jpg");
    assert_eq!(t.kind, TrackKind::Thumbnail);
    assert!(t.fallible);
}

#[test]
fn thumbnail_webm_only_when_strictly_taller() {
    let thumbs = vec![thumb("https://i/a.jpg", 480), thumb("https://i/b_webm.png", 1080)];
    assert_eq!(select_thumbnail(&thumbs).unwrap().source_url, "https://i/b_webm.png");
    let none: Vec<ThumbNailFormat> = vec![ThumbNailFormat { url: None, height: Some(10) }];
    assert!(select_thumbnail(&none).is_none());
}

#[test]
fn subtitle_first_language_with_known_extension() {
    let subtitles = vec![
        (s("de"), Subtitles { subs: vec![SubFormat { ext: None, url: s("de1"), name: s("Deutsch") }] }),
        (
            s("en"),
            Subtitles {
                subs: vec![
                    SubFormat { ext: s("vtt"), url: None, name: s("English") },
                    SubFormat { ext: s("vtt"), url: s("en2"), name: s("English") },
                    SubFormat { ext: s("srt"), url: s("en3"), name: None },
                ],
            },
        ),
        (s("fr"), Subtitles { subs: vec![SubFormat { ext: s("vtt"), url: s("fr1"), name: None }] }),
    ];
    let sub = select_subtitle(&subtitles).unwrap();
    assert_eq!(
        sub,
        MediaTrack {
            kind: TrackKind::Subtitle,
            source_url: "en2".to_string(),
            language: s("en"),
            container_extension: s("vtt"),
            display_name: s("English"),
            fallible: true,
        }
    );
    assert!(select_subtitle(&vec![]).is_none());
}

#[test]
fn title_falls_back() {
    let mut d = data(vec![]);
    d.fulltitle = s("Full");
    assert_eq!(stream_title(&d), "Full");
    d.fulltitle = None;
    assert_eq!(stream_title(&d), "Title");
    d.title = None;
    assert_eq!(stream_title(&d), "unknown");
}

#[test]
fn selection_is_idempotent() {
    let mut d = data(vec![video("v", 480, MIB), audio("a", 48000)]);
    d.thumbnails = vec![thumb("t.jpg", 100)];
    let first = select_streams(&d);
    let second = select_streams(&d);
    assert_eq!(first, second);
    assert!(!first.audio_only);
    assert_eq!(first.primary.unwrap().source_url, "v");
    assert_eq!(first.thumbnail.unwrap().source_url, "t.jpg");
    assert!(first.subtitle.is_none());
    assert_eq!(first.title, "Title");
}

#[test]
fn audio_only_stream_set() {
    let d = data(vec![audio("a32", 32000), audio("a44", 44100), video("v4k", 2160, MIB)]);
    let set = select_streams(&d);
    assert!(set.audio_only);
    let primary = set.primary.unwrap();
    assert_eq!(primary.kind, TrackKind::Audio);
    assert_eq!(primary.source_url, "a44");
}

#[test]
fn empty_descriptor_selects_nothing() {
    let mut d = data(vec![]);
    d.title = None;
    let set = select_streams(&d);
    assert!(set.primary.is_none());
    assert!(set.subtitle.is_none());
    assert!(set.thumbnail.is_none());
    assert!(!set.audio_only);
    assert_eq!(set.title, "unknown");
}
