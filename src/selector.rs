//! The stream selector: from a descriptor to the tracks of one job.

use vstd::prelude::*;

use crate::descriptor::{
    copy_text, opt_text, Format, FormatView, StreamData, StreamDataView, SubFormat, SubFormatView,
    Subtitles, ThumbNailFormat, ThumbView,
};
use crate::pick::{first_max, first_true, index_of, pick_first_max, pick_first_true};
use crate::text::{contains_text, has_infix};
use crate::track::{opt_track, MediaTrack, MediaTrackView, StreamSet, StreamSetView, TrackKind};

verus! {

/// Tallest video frame accepted.
pub const MAX_VIDEO_HEIGHT: u64 = 720;

/// Largest video file accepted, in bytes (100 MiB).
pub const MAX_VIDEO_FILESIZE: u64 = 100 * 1024 * 1024;

/// Highest audio sample rate accepted, in Hz.
pub const MAX_AUDIO_SAMPLE_RATE: u64 = 48000;

pub open spec fn none_word() -> Seq<char> {
    seq!['n', 'o', 'n', 'e']
}

pub open spec fn webm_word() -> Seq<char> {
    seq!['w', 'e', 'b', 'm']
}

pub open spec fn unknown_word() -> Seq<char> {
    seq!['u', 'n', 'k', 'n', 'o', 'w', 'n']
}

/// An extension field that announces a track (present and not `"none"`).
pub open spec fn names_track(ext: Option<Seq<char>>) -> bool {
    ext matches Some(e) && e != none_word()
}

pub open spec fn video_eligible(f: FormatView) -> bool {
    &&& names_track(f.video_ext)
    &&& f.url is Some
    &&& f.height matches Some(h) && h <= MAX_VIDEO_HEIGHT
    &&& f.filesize matches Some(s) && s <= MAX_VIDEO_FILESIZE
}

pub open spec fn audio_eligible(f: FormatView) -> bool {
    &&& names_track(f.audio_ext)
    &&& f.url is Some
    &&& f.asr matches Some(r) && r <= MAX_AUDIO_SAMPLE_RATE
}

/// The height by which an eligible video format competes.
pub open spec fn video_key(f: FormatView) -> Option<u64> {
    if video_eligible(f) {
        f.height
    } else {
        None
    }
}

/// The sample rate by which an eligible audio format competes.
pub open spec fn audio_key(f: FormatView) -> Option<u64> {
    if audio_eligible(f) {
        f.asr
    } else {
        None
    }
}

pub open spec fn video_keys(fs: Seq<FormatView>) -> Seq<Option<u64>> {
    fs.map_values(|f: FormatView| video_key(f))
}

pub open spec fn audio_keys(fs: Seq<FormatView>) -> Seq<Option<u64>> {
    fs.map_values(|f: FormatView| audio_key(f))
}

/// The first of the tallest eligible video formats.
pub open spec fn best_video(fs: Seq<FormatView>) -> Option<int> {
    first_max(video_keys(fs))
}

/// The first of the eligible audio formats with the highest sample rate.
pub open spec fn best_audio(fs: Seq<FormatView>) -> Option<int> {
    first_max(audio_keys(fs))
}

pub open spec fn primary_track(f: FormatView, kind: TrackKind) -> MediaTrackView {
    MediaTrackView {
        kind,
        source_url: f.url->0,
        language: f.language,
        container_extension: if kind == TrackKind::Video {
            f.video_ext
        } else {
            f.audio_ext
        },
        display_name: None,
        fallible: false,
    }
}

/// The best video stream, or else the best audio stream.
pub open spec fn primary_of(fs: Seq<FormatView>) -> Option<MediaTrackView> {
    match best_video(fs) {
        Some(i) => Some(primary_track(fs[i], TrackKind::Video)),
        None => match best_audio(fs) {
            Some(i) => Some(primary_track(fs[i], TrackKind::Audio)),
            None => None,
        },
    }
}

pub open spec fn audio_only_of(fs: Seq<FormatView>) -> bool {
    best_video(fs) is None && best_audio(fs) is Some
}

/// A subtitle encoding with a known extension that can be fetched.
pub open spec fn sub_eligible(s: SubFormatView) -> bool {
    s.ext is Some && s.url is Some
}

pub open spec fn sub_flags(subs: Seq<SubFormatView>) -> Seq<bool> {
    subs.map_values(|s: SubFormatView| sub_eligible(s))
}

/// The first eligible encoding among those of one language.
pub open spec fn first_sub(subs: Seq<SubFormatView>) -> Option<int> {
    first_true(sub_flags(subs))
}

pub open spec fn language_flags(langs: Seq<(Option<Seq<char>>, Seq<SubFormatView>)>) -> Seq<bool> {
    langs.map_values(|l: (Option<Seq<char>>, Seq<SubFormatView>)| first_sub(l.1) is Some)
}

/// The first language that has an eligible encoding.
pub open spec fn subtitle_language(langs: Seq<(Option<Seq<char>>, Seq<SubFormatView>)>) -> Option<
    int,
> {
    first_true(language_flags(langs))
}

pub open spec fn subtitle_track(lang: Option<Seq<char>>, s: SubFormatView) -> MediaTrackView {
    MediaTrackView {
        kind: TrackKind::Subtitle,
        source_url: s.url->0,
        language: lang,
        container_extension: s.ext,
        display_name: s.name,
        fallible: true,
    }
}

pub open spec fn subtitle_of(langs: Seq<(Option<Seq<char>>, Seq<SubFormatView>)>) -> Option<
    MediaTrackView,
> {
    match subtitle_language(langs) {
        Some(i) => Some(subtitle_track(langs[i].0, langs[i].1[first_sub(langs[i].1)->0])),
        None => None,
    }
}

/// The height by which a thumbnail competes within its series (webm-named
/// URLs or the others).
pub open spec fn thumb_key(t: ThumbView, webm: bool) -> Option<u64> {
    match t.url {
        Some(u) => if has_infix(u, webm_word()) == webm {
            t.height
        } else {
            None
        },
        None => None,
    }
}

pub open spec fn thumb_keys(ts: Seq<ThumbView>, webm: bool) -> Seq<Option<u64>> {
    ts.map_values(|t: ThumbView| thumb_key(t, webm))
}

/// The tallest thumbnail; a webm-named one only when it is strictly taller
/// than every other.
pub open spec fn best_thumb(ts: Seq<ThumbView>) -> Option<int> {
    let plain = first_max(thumb_keys(ts, false));
    let webm = first_max(thumb_keys(ts, true));
    match plain {
        Some(p) => match webm {
            Some(w) => if ts[p].height->0 >= ts[w].height->0 {
                plain
            } else {
                webm
            },
            None => plain,
        },
        None => webm,
    }
}

pub open spec fn thumbnail_track(t: ThumbView) -> MediaTrackView {
    MediaTrackView {
        kind: TrackKind::Thumbnail,
        source_url: t.url->0,
        language: None,
        container_extension: None,
        display_name: None,
        fallible: true,
    }
}

pub open spec fn thumbnail_of(ts: Seq<ThumbView>) -> Option<MediaTrackView> {
    match best_thumb(ts) {
        Some(i) => Some(thumbnail_track(ts[i])),
        None => None,
    }
}

/// The full title, else the title, else `"unknown"`.
pub open spec fn title_of(d: StreamDataView) -> Seq<char> {
    match d.fulltitle {
        Some(t) => t,
        None => match d.title {
            Some(t) => t,
            None => unknown_word(),
        },
    }
}

/// What selection yields for a descriptor.
pub open spec fn stream_set_of(d: StreamDataView) -> StreamSetView {
    StreamSetView {
        primary: primary_of(d.formats),
        subtitle: subtitle_of(d.subtitles),
        thumbnail: thumbnail_of(d.thumbnails),
        title: title_of(d),
        audio_only: audio_only_of(d.formats),
    }
}

/// Whether an extension field announces a track.
fn announces_track(ext: &Option<String>) -> (r: bool)
    ensures
        r == names_track(opt_text(*ext)),
{
    match ext {
        Some(e) => {
            let none = String::from_str("none");
            proof {
                reveal_strlit("none");
            }
            assert(none@ =~= none_word());
            !(*e == none)
        },
        None => false,
    }
}

/// The competing height of each format, `None` for ineligible ones.
pub fn video_heights(formats: &Vec<Format>) -> (r: Vec<Option<u64>>)
    ensures
        r@ == video_keys(formats@.map_values(|f: Format| f@)),
{
    let ghost fs = formats@.map_values(|f: Format| f@);
    let mut keys: Vec<Option<u64>> = Vec::new();
    let mut i: usize = 0;
    while i < formats.len()
        invariant
            i <= formats@.len(),
            fs == formats@.map_values(|f: Format| f@),
            keys@ =~= video_keys(fs).take(i as int),
        decreases formats@.len() - i,
    {
        let f = &formats[i];
        assert(fs[i as int] == f@);
        let mut key: Option<u64> = None;
        if announces_track(&f.video_ext) && f.url.is_some() {
            if let (Some(h), Some(s)) = (f.height, f.filesize) {
                if h <= MAX_VIDEO_HEIGHT && s <= MAX_VIDEO_FILESIZE {
                    key = Some(h);
                }
            }
        }
        keys.push(key);
        i = i + 1;
    }
    keys
}

/// The competing sample rate of each format, `None` for ineligible ones.
pub fn audio_rates(formats: &Vec<Format>) -> (r: Vec<Option<u64>>)
    ensures
        r@ == audio_keys(formats@.map_values(|f: Format| f@)),
{
    let ghost fs = formats@.map_values(|f: Format| f@);
    let mut keys: Vec<Option<u64>> = Vec::new();
    let mut i: usize = 0;
    while i < formats.len()
        invariant
            i <= formats@.len(),
            fs == formats@.map_values(|f: Format| f@),
            keys@ =~= audio_keys(fs).take(i as int),
        decreases formats@.len() - i,
    {
        let f = &formats[i];
        assert(fs[i as int] == f@);
        let mut key: Option<u64> = None;
        if announces_track(&f.audio_ext) && f.url.is_some() {
            if let Some(r) = f.asr {
                if r <= MAX_AUDIO_SAMPLE_RATE {
                    key = Some(r);
                }
            }
        }
        keys.push(key);
        i = i + 1;
    }
    keys
}

/// The competing height of each thumbnail within one series.
pub fn thumbnail_heights(thumbnails: &Vec<ThumbNailFormat>, webm: bool) -> (r: Vec<Option<u64>>)
    ensures
        r@ == thumb_keys(thumbnails@.map_values(|t: ThumbNailFormat| t@), webm),
{
    let ghost ts = thumbnails@.map_values(|t: ThumbNailFormat| t@);
    let mut keys: Vec<Option<u64>> = Vec::new();
    let mut i: usize = 0;
    while i < thumbnails.len()
        invariant
            i <= thumbnails@.len(),
            ts == thumbnails@.map_values(|t: ThumbNailFormat| t@),
            keys@ =~= thumb_keys(ts, webm).take(i as int),
        decreases thumbnails@.len() - i,
    {
        let t = &thumbnails[i];
        assert(ts[i as int] == t@);
        let mut key: Option<u64> = None;
        if let Some(u) = &t.url {
            let marker = "webm";
            proof {
                reveal_strlit("webm");
            }
            assert(marker@ =~= webm_word());
            if contains_text(u.as_str(), marker) == webm {
                key = t.height;
            }
        }
        keys.push(key);
        i = i + 1;
    }
    keys
}

/// Whether each encoding of one language is eligible.
pub fn subtitle_flags(subs: &Vec<SubFormat>) -> (r: Vec<bool>)
    ensures
        r@ == sub_flags(subs@.map_values(|s: SubFormat| s@)),
{
    let ghost ss = subs@.map_values(|s: SubFormat| s@);
    let mut flags: Vec<bool> = Vec::new();
    let mut i: usize = 0;
    while i < subs.len()
        invariant
            i <= subs@.len(),
            ss == subs@.map_values(|s: SubFormat| s@),
            flags@ =~= sub_flags(ss).take(i as int),
        decreases subs@.len() - i,
    {
        assert(ss[i as int] == subs@[i as int]@);
        flags.push(subs[i].ext.is_some() && subs[i].url.is_some());
        i = i + 1;
    }
    flags
}

/// The primary stream: the first of the tallest eligible video formats, or,
/// when there is none, the first of the eligible audio formats with the highest
/// sample rate. The flag tells that an audio stream was chosen.
pub fn select_primary(formats: &Vec<Format>) -> (r: (Option<MediaTrack>, bool))
    ensures
        opt_track(r.0) == primary_of(formats@.map_values(|f: Format| f@)),
        r.1 == audio_only_of(formats@.map_values(|f: Format| f@)),
{
    let ghost fs = formats@.map_values(|f: Format| f@);
    let heights = video_heights(formats);
    proof {
        crate::pick::lemma_first_max(video_keys(fs));
        crate::pick::lemma_first_max(audio_keys(fs));
    }
    match pick_first_max(&heights) {
        Some(i) => {
            let f = &formats[i];
            assert(fs[i as int] == f@);
            let track = MediaTrack {
                kind: TrackKind::Video,
                source_url: f.url.as_ref().unwrap().clone(),
                language: copy_text(&f.language),
                container_extension: copy_text(&f.video_ext),
                display_name: None,
                fallible: false,
            };
            (Some(track), false)
        },
        None => {
            let rates = audio_rates(formats);
            match pick_first_max(&rates) {
                Some(i) => {
                    let f = &formats[i];
                    assert(fs[i as int] == f@);
                    let track = MediaTrack {
                        kind: TrackKind::Audio,
                        source_url: f.url.as_ref().unwrap().clone(),
                        language: copy_text(&f.language),
                        container_extension: copy_text(&f.audio_ext),
                        display_name: None,
                        fallible: false,
                    };
                    (Some(track), true)
                },
                None => (None, false),
            }
        },
    }
}

/// The subtitle track: the first eligible encoding of the first language that
/// has one.
pub fn select_subtitle(subtitles: &Vec<(Option<String>, Subtitles)>) -> (r: Option<MediaTrack>)
    ensures
        opt_track(r) == subtitle_of(
            subtitles@.map_values(|p: (Option<String>, Subtitles)| (opt_text(p.0), p.1@)),
        ),
{
    let ghost langs = subtitles@.map_values(
        |p: (Option<String>, Subtitles)| (opt_text(p.0), p.1@),
    );
    let mut flags: Vec<bool> = Vec::new();
    let mut firsts: Vec<Option<usize>> = Vec::new();
    let mut i: usize = 0;
    while i < subtitles.len()
        invariant
            i <= subtitles@.len(),
            langs == subtitles@.map_values(
                |p: (Option<String>, Subtitles)| (opt_text(p.0), p.1@),
            ),
            flags@ =~= language_flags(langs).take(i as int),
            firsts@.len() == i,
            forall|k: int| 0 <= k < i ==> index_of(#[trigger] firsts@[k]) == first_sub(langs[k].1),
        decreases subtitles@.len() - i,
    {
        assert(langs[i as int] == (opt_text(subtitles@[i as int].0), subtitles@[i as int].1@));
        let first = pick_first_true(&subtitle_flags(&subtitles[i].1.subs));
        flags.push(first.is_some());
        firsts.push(first);
        i = i + 1;
    }
    assert(language_flags(langs).take(subtitles@.len() as int) =~= language_flags(langs));
    proof {
        crate::pick::lemma_first_true(language_flags(langs));
    }
    match pick_first_true(&flags) {
        Some(l) => {
            proof {
                crate::pick::lemma_first_true(sub_flags(langs[l as int].1));
            }
            let (lang, subs) = &subtitles[l];
            assert(langs[l as int] == (opt_text(*lang), subs@));
            let j = firsts[l].unwrap();
            let s = &subs.subs[j];
            assert(langs[l as int].1[j as int] == s@);
            Some(
                MediaTrack {
                    kind: TrackKind::Subtitle,
                    source_url: s.url.as_ref().unwrap().clone(),
                    language: copy_text(lang),
                    container_extension: copy_text(&s.ext),
                    display_name: copy_text(&s.name),
                    fallible: true,
                },
            )
        },
        None => None,
    }
}

/// The thumbnail track: the tallest thumbnail, preferring one whose URL does
/// not name webm unless a webm-named one is strictly taller.
pub fn select_thumbnail(thumbnails: &Vec<ThumbNailFormat>) -> (r: Option<MediaTrack>)
    ensures
        opt_track(r) == thumbnail_of(thumbnails@.map_values(|t: ThumbNailFormat| t@)),
{
    let ghost ts = thumbnails@.map_values(|t: ThumbNailFormat| t@);
    let plain = pick_first_max(&thumbnail_heights(thumbnails, false));
    let webm = pick_first_max(&thumbnail_heights(thumbnails, true));
    proof {
        crate::pick::lemma_first_max(thumb_keys(ts, false));
        crate::pick::lemma_first_max(thumb_keys(ts, true));
    }
    let chosen = match (plain, webm) {
        (Some(p), Some(w)) => {
            assert(ts[p as int] == thumbnails@[p as int]@);
            assert(ts[w as int] == thumbnails@[w as int]@);
            if thumbnails[p].height.unwrap() >= thumbnails[w].height.unwrap() {
                plain
            } else {
                webm
            }
        },
        (Some(_), None) => plain,
        (None, _) => webm,
    };
    match chosen {
        Some(i) => {
            assert(ts[i as int] == thumbnails@[i as int]@);
            Some(
                MediaTrack {
                    kind: TrackKind::Thumbnail,
                    source_url: thumbnails[i].url.as_ref().unwrap().clone(),
                    language: None,
                    container_extension: None,
                    display_name: None,
                    fallible: true,
                },
            )
        },
        None => None,
    }
}

/// The full title, else the title, else `"unknown"`.
pub fn stream_title(data: &StreamData) -> (r: String)
    ensures
        r@ == title_of(data@),
{
    match &data.fulltitle {
        Some(t) => t.clone(),
        None => match &data.title {
            Some(t) => t.clone(),
            None => {
                proof {
                    reveal_strlit("unknown");
                }
                let r = String::from_str("unknown");
                assert(r@ =~= unknown_word());
                r
            },
        },
    }
}

/// Runs selection on a descriptor.
pub fn select_streams(data: &StreamData) -> (r: StreamSet)
    ensures
        r@ == stream_set_of(data@),
{
    let (primary, audio_only) = select_primary(&data.formats);
    let subtitle = select_subtitle(&data.subtitles);
    let thumbnail = select_thumbnail(&data.thumbnails);
    let title = stream_title(data);
    StreamSet { primary, subtitle, thumbnail, title, audio_only }
}

/// When some format is an eligible video (height at most 720, file size at
/// most 100 MiB), the primary stream is a video stream taken from an eligible
/// format of the greatest eligible height, the first such one in descriptor
/// order, and the job is not audio-only.
pub proof fn lemma_video_preferred(d: StreamDataView)
    requires
        exists|k: int| 0 <= k < d.formats.len() && video_eligible(#[trigger] d.formats[k]),
    ensures
        best_video(d.formats) matches Some(i) && {
            let fs = d.formats;
            &&& 0 <= i < fs.len()
            &&& video_eligible(fs[i])
            &&& forall|j: int|
                0 <= j < fs.len() && video_eligible(#[trigger] fs[j]) ==> fs[j].height->0
                    <= fs[i].height->0
            &&& forall|j: int|
                0 <= j < i && video_eligible(#[trigger] fs[j]) ==> fs[j].height->0
                    < fs[i].height->0
            &&& stream_set_of(d).primary == Some(primary_track(fs[i], TrackKind::Video))
            &&& !stream_set_of(d).audio_only
        },
{
    let fs = d.formats;
    let keys = video_keys(fs);
    crate::pick::lemma_first_max(keys);
    assert(forall|j: int| 0 <= j < fs.len() ==> #[trigger] keys[j] == video_key(fs[j]));
    let k = choose|k: int| 0 <= k < fs.len() && video_eligible(#[trigger] fs[k]);
    assert(keys[k] is Some);
    let i = best_video(fs)->0;
    assert forall|j: int| 0 <= j < fs.len() && video_eligible(#[trigger] fs[j]) implies fs[j].height->0
        <= fs[i].height->0 by {
        assert(keys[j] is Some);
    }
    assert forall|j: int| 0 <= j < i && video_eligible(#[trigger] fs[j]) implies fs[j].height->0
        < fs[i].height->0 by {
        assert(keys[j] is Some);
    }
}

/// When no format is an eligible video but some is an eligible audio stream
/// (sample rate at most 48 kHz), the primary stream is an audio stream taken
/// from the first eligible format of the highest sample rate, and the job is
/// audio-only.
pub proof fn lemma_audio_fallback(d: StreamDataView)
    requires
        forall|k: int| 0 <= k < d.formats.len() ==> !video_eligible(#[trigger] d.formats[k]),
        exists|k: int| 0 <= k < d.formats.len() && audio_eligible(#[trigger] d.formats[k]),
    ensures
        best_audio(d.formats) matches Some(i) && {
            let fs = d.formats;
            &&& 0 <= i < fs.len()
            &&& audio_eligible(fs[i])
            &&& forall|j: int|
                0 <= j < fs.len() && audio_eligible(#[trigger] fs[j]) ==> fs[j].asr->0
                    <= fs[i].asr->0
            &&& forall|j: int|
                0 <= j < i && audio_eligible(#[trigger] fs[j]) ==> fs[j].asr->0 < fs[i].asr->0
            &&& stream_set_of(d).primary == Some(primary_track(fs[i], TrackKind::Audio))
            &&& stream_set_of(d).audio_only
        },
{
    let fs = d.formats;
    let vkeys = video_keys(fs);
    let akeys = audio_keys(fs);
    crate::pick::lemma_first_max(vkeys);
    crate::pick::lemma_first_max(akeys);
    assert(forall|j: int| 0 <= j < fs.len() ==> #[trigger] vkeys[j] == video_key(fs[j]));
    assert(forall|j: int| 0 <= j < fs.len() ==> #[trigger] akeys[j] == audio_key(fs[j]));
    let k = choose|k: int| 0 <= k < fs.len() && audio_eligible(#[trigger] fs[k]);
    assert(akeys[k] is Some);
    if best_video(fs) is Some {
        let v = best_video(fs)->0;
        assert(vkeys[v] is Some);
    }
    let i = best_audio(fs)->0;
    assert forall|j: int| 0 <= j < fs.len() && audio_eligible(#[trigger] fs[j]) implies fs[j].asr->0
        <= fs[i].asr->0 by {
        assert(akeys[j] is Some);
    }
    assert forall|j: int| 0 <= j < i && audio_eligible(#[trigger] fs[j]) implies fs[j].asr->0
        < fs[i].asr->0 by {
        assert(akeys[j] is Some);
    }
}

/// A thumbnail with a URL and a height takes part in the choice.
pub open spec fn thumb_usable(t: ThumbView) -> bool {
    t.url is Some && t.height is Some
}

/// When the greatest thumbnail height is shared by a thumbnail whose URL names
/// webm and one whose URL does not, the chosen thumbnail is one whose URL does
/// not name webm, of that height.
pub proof fn lemma_thumbnail_tie_prefers_plain(ts: Seq<ThumbView>, p: int, w: int)
    requires
        0 <= p < ts.len(),
        0 <= w < ts.len(),
        thumb_usable(ts[p]),
        thumb_usable(ts[w]),
        !has_infix(ts[p].url->0, webm_word()),
        has_infix(ts[w].url->0, webm_word()),
        ts[p].height == ts[w].height,
        forall|j: int|
            0 <= j < ts.len() && thumb_usable(#[trigger] ts[j]) ==> ts[j].height->0
                <= ts[p].height->0,
    ensures
        best_thumb(ts) matches Some(i) && {
            &&& 0 <= i < ts.len()
            &&& thumb_usable(ts[i])
            &&& !has_infix(ts[i].url->0, webm_word())
            &&& ts[i].height == ts[p].height
        },
{
    let plain = thumb_keys(ts, false);
    let webm = thumb_keys(ts, true);
    crate::pick::lemma_first_max(plain);
    crate::pick::lemma_first_max(webm);
    assert(forall|j: int| 0 <= j < ts.len() ==> #[trigger] plain[j] == thumb_key(ts[j], false));
    assert(forall|j: int| 0 <= j < ts.len() ==> #[trigger] webm[j] == thumb_key(ts[j], true));
    assert(plain[p] is Some);
    assert(webm[w] is Some);
}

/// Selection depends on the descriptor alone: two runs on one descriptor give
/// the same stream set.
pub proof fn lemma_selection_idempotent(d: StreamDataView, first: StreamSetView, second: StreamSetView)
    requires
        first == stream_set_of(d),
        second == stream_set_of(d),
    ensures
        first == second,
{
}

} // verus!
