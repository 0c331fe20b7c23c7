//! The stream descriptor: what the metadata step reports about one media asset.
//! It is read, never changed, by the pipeline.

use vstd::prelude::*;

verus! {

/// The text of an optional string.
pub open spec fn opt_text(o: Option<String>) -> Option<Seq<char>> {
    match o {
        Some(s) => Some(s@),
        None => None,
    }
}

/// A copy of an optional string.
pub fn copy_text(o: &Option<String>) -> (r: Option<String>)
    ensures
        r == *o,
{
    match o {
        Some(s) => Some(s.clone()),
        None => None,
    }
}

/// One candidate audio and/or video format.
pub struct Format {
    pub url: Option<String>,
    pub height: Option<u64>,
    pub filesize: Option<u64>,
    /// Audio sample rate in Hz.
    pub asr: Option<u64>,
    /// Container extension of the video part, `"none"` when there is none.
    pub video_ext: Option<String>,
    /// Container extension of the audio part, `"none"` when there is none.
    pub audio_ext: Option<String>,
    /// Language tag of the format.
    pub language: Option<String>,
}

pub struct FormatView {
    pub url: Option<Seq<char>>,
    pub height: Option<u64>,
    pub filesize: Option<u64>,
    pub asr: Option<u64>,
    pub video_ext: Option<Seq<char>>,
    pub audio_ext: Option<Seq<char>>,
    pub language: Option<Seq<char>>,
}

impl View for Format {
    type V = FormatView;

    open spec fn view(&self) -> FormatView {
        FormatView {
            url: opt_text(self.url),
            height: self.height,
            filesize: self.filesize,
            asr: self.asr,
            video_ext: opt_text(self.video_ext),
            audio_ext: opt_text(self.audio_ext),
            language: opt_text(self.language),
        }
    }
}

/// One encoding of a subtitle track.
pub struct SubFormat {
    pub ext: Option<String>,
    pub url: Option<String>,
    pub name: Option<String>,
}

pub struct SubFormatView {
    pub ext: Option<Seq<char>>,
    pub url: Option<Seq<char>>,
    pub name: Option<Seq<char>>,
}

impl View for SubFormat {
    type V = SubFormatView;

    open spec fn view(&self) -> SubFormatView {
        SubFormatView { ext: opt_text(self.ext), url: opt_text(self.url), name: opt_text(self.name) }
    }
}

/// The encodings offered for the subtitles of one language.
pub struct Subtitles {
    pub subs: Vec<SubFormat>,
}

impl View for Subtitles {
    type V = Seq<SubFormatView>;

    open spec fn view(&self) -> Seq<SubFormatView> {
        self.subs@.map_values(|s: SubFormat| s@)
    }
}

/// One thumbnail image.
pub struct ThumbNailFormat {
    pub url: Option<String>,
    pub height: Option<u64>,
}

pub struct ThumbView {
    pub url: Option<Seq<char>>,
    pub height: Option<u64>,
}

impl View for ThumbNailFormat {
    type V = ThumbView;

    open spec fn view(&self) -> ThumbView {
        ThumbView { url: opt_text(self.url), height: self.height }
    }
}

/// The descriptor of one media asset.
pub struct StreamData {
    pub title: Option<String>,
    pub fulltitle: Option<String>,
    pub formats: Vec<Format>,
    /// Subtitles by language tag, in descriptor order.
    pub subtitles: Vec<(Option<String>, Subtitles)>,
    pub thumbnails: Vec<ThumbNailFormat>,
}

pub struct StreamDataView {
    pub title: Option<Seq<char>>,
    pub fulltitle: Option<Seq<char>>,
    pub formats: Seq<FormatView>,
    pub subtitles: Seq<(Option<Seq<char>>, Seq<SubFormatView>)>,
    pub thumbnails: Seq<ThumbView>,
}

impl View for StreamData {
    type V = StreamDataView;

    open spec fn view(&self) -> StreamDataView {
        StreamDataView {
            title: opt_text(self.title),
            fulltitle: opt_text(self.fulltitle),
            formats: self.formats@.map_values(|f: Format| f@),
            subtitles: self.subtitles@.map_values(
                |p: (Option<String>, Subtitles)| (opt_text(p.0), p.1@),
            ),
            thumbnails: self.thumbnails@.map_values(|t: ThumbNailFormat| t@),
        }
    }
}

} // verus!
