use stream_mux::mux::{build_mux_command, mux_arguments, output_path, FetchResult, SlotMapping};
use stream_mux::track::{MediaTrack, TrackKind};
use stream_mux::language::three_letter_code;

fn s(text: &str) -> Option<String> {
    Some(text.to_string())
}

fn track(kind: TrackKind, language: Option<String>, ext: Option<String>, name: Option<String>) -> MediaTrack {
    MediaTrack {
        kind,
        source_url: "https://x".to_string(),
        language,
        container_extension: ext,
        display_name: name,
        fallible: kind == TrackKind::Subtitle || kind == TrackKind::Thumbnail,
    }
}

fn strings(v: &[&str]) -> Vec<String> {
    v.iter().map(|x| x.to_string()).collect()
}

#[test]
fn full_video_command() {
    let primary = FetchResult { slot: 7, track: track(TrackKind::Video, s("en"), s("mp4"), None) };
    let subtitle = Some(FetchResult {
        slot: 9,
        track: track(TrackKind::Subtitle, s("deu"), s("vtt"), s("Deutsch")),
    });
    let thumbnail = Some(FetchResult { slot: 11, track: track(TrackKind::Thumbnail, None, None, None) });
    let cmd = build_mux_command(&primary, &subtitle, &thumbnail, "My: Video/Clip?", false, "/data/out");
    assert_eq!(cmd.program, "ffmpeg");
    assert_eq!(cmd.output_path, "/data/out/My VideoClip.mkv");
    assert_eq!(
        cmd.args,
        strings(&[
            "-i", "pipe:7", "-map", "0:v", "-metadata:s:v:0", "language=eng",
            "-f", "vtt", "-i", "pipe:9", "-map", "1:s", "-metadata:s:s:0", "language=deu",
            "-metadata:s:s:0", "title=Deutsch",
            "-i", "pipe:11",
            "-r", "30",
            "/data/out/My VideoClip.mkv",
        ])
    );
    assert_eq!(
        cmd.fd_mappings,
        vec![
            SlotMapping { parent: 7, child: 7 },
            SlotMapping { parent: 9, child: 9 },
            SlotMapping { parent: 11, child: 11 },
        ]
    );
}

#[test]
fn audio_only_command_has_no_frame_rate() {
    let primary = FetchResult { slot: 3, track: track(TrackKind::Audio, None, s("m4a"), None) };
    let cmd = build_mux_command(&primary, &None, &None, "song", true, "dir/");
    assert_eq!(cmd.output_path, "dir/song.mka");
    assert_eq!(cmd.args, strings(&["-i", "pipe:3", "-map", "0:a", "dir/song.mka"]));
    assert_eq!(cmd.fd_mappings, vec![SlotMapping { parent: 3, child: 3 }]);
}

#[test]
fn subtitle_without_extension_or_known_language() {
    let primary = FetchResult { slot: 0, track: track(TrackKind::Video, None, None, None) };
    let subtitle = Some(FetchResult { slot: 120, track: track(TrackKind::Subtitle, s("xx-unknown"), None, None) });
    let args = mux_arguments(&primary, &None, &subtitle, &None, &None, false, "o.mkv");
    assert_eq!(
        args,
        strings(&["-i", "pipe:0", "-map", "0:v", "-i", "pipe:120", "-map", "1:s", "-r", "30", "o.mkv"])
    );
    let cmd = build_mux_command(&primary, &subtitle, &None, "t", false, "");
    assert_eq!(cmd.args, strings(&["-i", "pipe:0", "-map", "0:v", "-i", "pipe:120", "-map", "1:s", "-r", "30", "t.mkv"]));
}

#[test]
fn subtitle_failure_leaves_no_subtitle_arguments() {
    let primary = FetchResult { slot: 4, track: track(TrackKind::Video, None, None, None) };
    let args = mux_arguments(&primary, &s("eng"), &None, &s("deu"), &None, false, "x.mkv");
    assert_eq!(args, strings(&["-i", "pipe:4", "-map", "0:v", "-metadata:s:v:0", "language=eng", "-r", "30", "x.mkv"]));
    assert!(!args.iter().any(|a| a == "1:s"));
}

#[test]
fn language_codes() {
    assert_eq!(three_letter_code(&s("en")), s("eng"));
    assert_eq!(three_letter_code(&s("fra")), s("fra"));
    assert_eq!(three_letter_code(&s("de")), s("deu"));
    assert_eq!(three_letter_code(&s("zz")), None);
    assert_eq!(three_letter_code(&None), None);
}

#[test]
fn output_paths() {
    assert_eq!(output_path("/a/b", "c", false), "/a/b/c.mkv");
    assert_eq!(output_path("/a/b/", "c", true), "/a/b/c.mka");
    assert_eq!(output_path("", "c", true), "c.mka");
}
