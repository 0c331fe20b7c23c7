//! The mux process builder: the argument list, descriptor table and output
//! path of the process that mixes the fetched tracks into one container.

use vstd::prelude::*;

use crate::descriptor::opt_text;
use crate::language::{three_letter_code, track_code};
use crate::text::{concat, decimal, decimal_text, join_path, joined};
use crate::track::{MediaTrack, MediaTrackView};

verus! {

/// A fetched track as the mux process receives it: the descriptor number of
/// its pipe's read end, and the track.
pub struct FetchResult {
    pub slot: u32,
    pub track: MediaTrack,
}

/// One descriptor handed to the child: `parent` here is `child` there.
#[derive(Clone, Copy, Debug, PartialEq, Eq, Structural)]
pub struct SlotMapping {
    pub parent: u32,
    pub child: u32,
}

/// A complete invocation of the mux process.
pub struct MuxCommand {
    pub program: String,
    pub args: Vec<String>,
    pub fd_mappings: Vec<SlotMapping>,
    pub output_path: String,
}

/// Frame rate forced on outputs that carry video.
pub const OUTPUT_FRAME_RATE: u32 = 30;

/// The text of each string.
pub open spec fn texts(v: Seq<String>) -> Seq<Seq<char>> {
    v.map_values(|s: String| s@)
}

/// An input read from the pipe at descriptor `slot`.
pub open spec fn pipe_input(slot: u32) -> Seq<Seq<char>> {
    seq!["-i"@, "pipe:"@ + decimal(slot as nat)]
}

/// The stream letter of the primary stream.
pub open spec fn stream_letter(audio_only: bool) -> Seq<char> {
    if audio_only {
        "a"@
    } else {
        "v"@
    }
}

/// Arguments for the primary stream, input 0, with its three-letter language
/// code when there is one.
pub open spec fn primary_args(slot: u32, code: Option<Seq<char>>, audio_only: bool) -> Seq<
    Seq<char>,
> {
    pipe_input(slot) + seq!["-map"@, "0:"@ + stream_letter(audio_only)] + match code {
        Some(c) => seq!["-metadata:s:"@ + stream_letter(audio_only) + ":0"@, "language="@ + c],
        None => seq![],
    }
}

/// Arguments for the subtitle track, input 1: a format hint when its extension
/// is known, then its language code and display name as metadata.
pub open spec fn subtitle_args(
    slot: u32,
    ext: Option<Seq<char>>,
    code: Option<Seq<char>>,
    name: Option<Seq<char>>,
) -> Seq<Seq<char>> {
    (match ext {
        Some(e) => seq!["-f"@, e],
        None => seq![],
    }) + pipe_input(slot) + seq!["-map"@, "1:s"@] + (match code {
        Some(c) => seq!["-metadata:s:s:0"@, "language="@ + c],
        None => seq![],
    }) + (match name {
        Some(n) => seq!["-metadata:s:s:0"@, "title="@ + n],
        None => seq![],
    })
}

/// The forced frame rate, for outputs that carry video.
pub open spec fn frame_rate_args(audio_only: bool) -> Seq<Seq<char>> {
    if audio_only {
        seq![]
    } else {
        seq!["-r"@, "30"@]
    }
}

/// The whole argument list: primary stream, subtitle, thumbnail, frame rate,
/// output path.
pub open spec fn mux_args(
    primary_slot: u32,
    primary_code: Option<Seq<char>>,
    subtitle: Option<(u32, MediaTrackView)>,
    subtitle_code: Option<Seq<char>>,
    thumbnail_slot: Option<u32>,
    audio_only: bool,
    output: Seq<char>,
) -> Seq<Seq<char>> {
    primary_args(primary_slot, primary_code, audio_only) + (match subtitle {
        Some(s) => subtitle_args(s.0, s.1.container_extension, subtitle_code, s.1.display_name),
        None => seq![],
    }) + (match thumbnail_slot {
        Some(t) => pipe_input(t),
        None => seq![],
    }) + frame_rate_args(audio_only) + seq![output]
}

pub open spec fn slot_and_track(o: Option<FetchResult>) -> Option<(u32, MediaTrackView)> {
    match o {
        Some(f) => Some((f.slot, f.track@)),
        None => None,
    }
}

pub open spec fn slot_of(o: Option<FetchResult>) -> Option<u32> {
    match o {
        Some(f) => Some(f.slot),
        None => None,
    }
}

/// Each input's descriptor, passed to the child under the same number, in
/// input order.
pub open spec fn mappings(primary: u32, subtitle: Option<u32>, thumbnail: Option<u32>) -> Seq<
    SlotMapping,
> {
    seq![SlotMapping { parent: primary, child: primary }] + (match subtitle {
        Some(s) => seq![SlotMapping { parent: s, child: s }],
        None => seq![],
    }) + (match thumbnail {
        Some(t) => seq![SlotMapping { parent: t, child: t }],
        None => seq![],
    })
}

/// The container extension: audio-only or general.
pub open spec fn container_ext(audio_only: bool) -> Seq<char> {
    if audio_only {
        "mka"@
    } else {
        "mkv"@
    }
}

/// The output file `{stem}.{extension}` inside `dir`.
pub open spec fn output_file(dir: Seq<char>, stem: Seq<char>, audio_only: bool) -> Seq<char> {
    joined(dir, stem + "."@ + container_ext(audio_only))
}

/// Appends `more` to `out`.
fn extend(out: &mut Vec<String>, more: Vec<String>)
    ensures
        texts(final(out)@) == texts(old(out)@) + texts(more@),
{
    let mut more = more;
    let ghost added = more@;
    out.append(&mut more);
    assert(texts(final(out)@) =~= texts(old(out)@) + texts(added));
}

/// Two arguments.
fn pair(a: String, b: String) -> (r: Vec<String>)
    ensures
        texts(r@) == seq![a@, b@],
{
    let mut v: Vec<String> = Vec::new();
    v.push(a);
    v.push(b);
    assert(texts(v@) =~= seq![a@, b@]);
    v
}

fn pipe_input_args(slot: u32) -> (r: Vec<String>)
    ensures
        texts(r@) == pipe_input(slot),
{
    let digits = decimal_text(slot);
    pair(String::from_str("-i"), concat("pipe:", digits.as_str()))
}

fn letter(audio_only: bool) -> (r: &'static str)
    ensures
        r@ == stream_letter(audio_only),
{
    if audio_only {
        "a"
    } else {
        "v"
    }
}

/// Arguments for the primary stream.
pub fn primary_arguments(slot: u32, code: &Option<String>, audio_only: bool) -> (r: Vec<String>)
    ensures
        texts(r@) == primary_args(slot, opt_text(*code), audio_only),
{
    let mut out = pipe_input_args(slot);
    extend(&mut out, pair(String::from_str("-map"), concat("0:", letter(audio_only))));
    if let Some(c) = code {
        let mut key = concat("-metadata:s:", letter(audio_only));
        key.append(":0");
        extend(&mut out, pair(key, concat("language=", c.as_str())));
    }
    out
}

/// Arguments for the subtitle track.
pub fn subtitle_arguments(
    slot: u32,
    ext: &Option<String>,
    code: &Option<String>,
    name: &Option<String>,
) -> (r: Vec<String>)
    ensures
        texts(r@) == subtitle_args(slot, opt_text(*ext), opt_text(*code), opt_text(*name)),
{
    let mut out: Vec<String> = Vec::new();
    if let Some(e) = ext {
        extend(&mut out, pair(String::from_str("-f"), e.clone()));
    }
    extend(&mut out, pipe_input_args(slot));
    extend(&mut out, pair(String::from_str("-map"), String::from_str("1:s")));
    if let Some(c) = code {
        extend(
            &mut out,
            pair(String::from_str("-metadata:s:s:0"), concat("language=", c.as_str())),
        );
    }
    if let Some(n) = name {
        extend(&mut out, pair(String::from_str("-metadata:s:s:0"), concat("title=", n.as_str())));
    }
    assert(texts(out@) =~= subtitle_args(slot, opt_text(*ext), opt_text(*code), opt_text(*name)));
    out
}

/// The argument list of the mux process, given the three-letter language
/// codes of the primary stream and of the subtitle track.
pub fn mux_arguments(
    primary: &FetchResult,
    primary_code: &Option<String>,
    subtitle: &Option<FetchResult>,
    subtitle_code: &Option<String>,
    thumbnail: &Option<FetchResult>,
    audio_only: bool,
    output_path: &str,
) -> (r: Vec<String>)
    ensures
        texts(r@) == mux_args(
            primary.slot,
            opt_text(*primary_code),
            slot_and_track(*subtitle),
            opt_text(*subtitle_code),
            slot_of(*thumbnail),
            audio_only,
            output_path@,
        ),
{
    let mut out = primary_arguments(primary.slot, primary_code, audio_only);
    let ghost after_primary = texts(out@);
    if let Some(s) = subtitle {
        extend(
            &mut out,
            subtitle_arguments(
                s.slot,
                &s.track.container_extension,
                subtitle_code,
                &s.track.display_name,
            ),
        );
    }
    let ghost after_subtitle = texts(out@);
    if let Some(t) = thumbnail {
        extend(&mut out, pipe_input_args(t.slot));
    }
    let ghost after_thumbnail = texts(out@);
    if !audio_only {
        proof {
            reveal_strlit("30");
        }
        let rate = decimal_text(OUTPUT_FRAME_RATE);
        assert(rate@ =~= "30"@) by {
            reveal_with_fuel(decimal, 2);
        }
        extend(&mut out, pair(String::from_str("-r"), rate));
    }
    let ghost after_rate = texts(out@);
    let mut last: Vec<String> = Vec::new();
    last.push(String::from_str(output_path));
    assert(texts(last@) =~= seq![output_path@]);
    extend(&mut out, last);
    assert(texts(out@) =~= mux_args(
        primary.slot,
        opt_text(*primary_code),
        slot_and_track(*subtitle),
        opt_text(*subtitle_code),
        slot_of(*thumbnail),
        audio_only,
        output_path@,
    ));
    out
}

/// The descriptor table: every input's pipe keeps its number in the child.
pub fn slot_mappings(
    primary: &FetchResult,
    subtitle: &Option<FetchResult>,
    thumbnail: &Option<FetchResult>,
) -> (r: Vec<SlotMapping>)
    ensures
        r@ == mappings(primary.slot, slot_of(*subtitle), slot_of(*thumbnail)),
{
    let mut out: Vec<SlotMapping> = Vec::new();
    out.push(SlotMapping { parent: primary.slot, child: primary.slot });
    if let Some(s) = subtitle {
        out.push(SlotMapping { parent: s.slot, child: s.slot });
    }
    if let Some(t) = thumbnail {
        out.push(SlotMapping { parent: t.slot, child: t.slot });
    }
    assert(out@ =~= mappings(primary.slot, slot_of(*subtitle), slot_of(*thumbnail)));
    out
}

/// The output path `{stem}.{mka|mkv}` inside `storage_dir`.
pub fn output_path(storage_dir: &str, stem: &str, audio_only: bool) -> (r: String)
    ensures
        r@ == output_file(storage_dir@, stem@, audio_only),
{
    let mut name = concat(stem, ".");
    if audio_only {
        name.append("mka");
    } else {
        name.append("mkv");
    }
    join_path(storage_dir, name.as_str())
}

/// What `sanitize_filename` makes of `name`.
pub uninterp spec fn sanitized(name: Seq<char>) -> Seq<char>;

/// Relies on `sanitize_filename::sanitize_with_options`, with reserved Windows
/// names left alone, truncation on and an empty replacement: drops characters
/// that a file name cannot hold. The result depends on the name alone.
#[verifier::external_body]
fn sanitize_name(name: &str) -> (r: String)
    ensures
        r@ == sanitized(name@),
{
    let options = sanitize_filename::Options { windows: false, truncate: true, replacement: "" };
    sanitize_filename::sanitize_with_options(name, options)
}

/// The language code passed for an optional input.
pub open spec fn input_code(o: Option<FetchResult>) -> Option<Seq<char>> {
    match o {
        Some(f) => track_code(f.track@.language),
        None => None,
    }
}

/// The mux invocation for the fetched tracks of one job: the primary stream,
/// then the subtitle track and the thumbnail when present. The output goes to
/// `{sanitized title}.{mka|mkv}` inside `storage_dir`.
pub fn build_mux_command(
    primary: &FetchResult,
    subtitle: &Option<FetchResult>,
    thumbnail: &Option<FetchResult>,
    title: &str,
    audio_only: bool,
    storage_dir: &str,
) -> (r: MuxCommand)
    ensures
        r.program@ == "ffmpeg"@,
        r.output_path@ == output_file(storage_dir@, sanitized(title@), audio_only),
        texts(r.args@) == mux_args(
            primary.slot,
            track_code(primary.track@.language),
            slot_and_track(*subtitle),
            input_code(*subtitle),
            slot_of(*thumbnail),
            audio_only,
            r.output_path@,
        ),
        r.fd_mappings@ == mappings(primary.slot, slot_of(*subtitle), slot_of(*thumbnail)),
{
    let stem = sanitize_name(title);
    let path = output_path(storage_dir, stem.as_str(), audio_only);
    let primary_code = three_letter_code(&primary.track.language);
    let subtitle_code = match subtitle {
        Some(s) => three_letter_code(&s.track.language),
        None => None,
    };
    let args = mux_arguments(
        primary,
        &primary_code,
        subtitle,
        &subtitle_code,
        thumbnail,
        audio_only,
        path.as_str(),
    );
    MuxCommand {
        program: String::from_str("ffmpeg"),
        args,
        fd_mappings: slot_mappings(primary, subtitle, thumbnail),
        output_path: path,
    }
}

} // verus!
