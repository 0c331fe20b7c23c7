//! The tracks chosen for one job.

use vstd::prelude::*;

use crate::descriptor::{copy_text, opt_text};

verus! {

/// What a track carries.
#[derive(Clone, Copy, Debug, PartialEq, Eq, Structural)]
pub enum TrackKind {
    Video,
    Audio,
    Subtitle,
    Thumbnail,
}

/// One selected unit to fetch and multiplex.
#[derive(Debug, PartialEq, Eq)]
pub struct MediaTrack {
    pub kind: TrackKind,
    pub source_url: String,
    /// Language tag as the descriptor gives it.
    pub language: Option<String>,
    pub container_extension: Option<String>,
    /// Human-readable name; only subtitles have one.
    pub display_name: Option<String>,
    /// A track whose fetch may fail without aborting the job.
    pub fallible: bool,
}

pub struct MediaTrackView {
    pub kind: TrackKind,
    pub source_url: Seq<char>,
    pub language: Option<Seq<char>>,
    pub container_extension: Option<Seq<char>>,
    pub display_name: Option<Seq<char>>,
    pub fallible: bool,
}

impl View for MediaTrack {
    type V = MediaTrackView;

    open spec fn view(&self) -> MediaTrackView {
        MediaTrackView {
            kind: self.kind,
            source_url: self.source_url@,
            language: opt_text(self.language),
            container_extension: opt_text(self.container_extension),
            display_name: opt_text(self.display_name),
            fallible: self.fallible,
        }
    }
}

/// The view of an optional track.
pub open spec fn opt_track(o: Option<MediaTrack>) -> Option<MediaTrackView> {
    match o {
        Some(t) => Some(t@),
        None => None,
    }
}

impl MediaTrack {
    /// A copy of this track.
    pub fn copy(&self) -> (r: MediaTrack)
        ensures
            r == *self,
    {
        MediaTrack {
            kind: self.kind,
            source_url: self.source_url.clone(),
            language: copy_text(&self.language),
            container_extension: copy_text(&self.container_extension),
            display_name: copy_text(&self.display_name),
            fallible: self.fallible,
        }
    }
}

/// The outcome of selection for one job.
#[derive(Debug, PartialEq, Eq)]
pub struct StreamSet {
    /// The single video or audio stream.
    pub primary: Option<MediaTrack>,
    pub subtitle: Option<MediaTrack>,
    pub thumbnail: Option<MediaTrack>,
    pub title: String,
    /// An audio stream was chosen and no video stream.
    pub audio_only: bool,
}

pub struct StreamSetView {
    pub primary: Option<MediaTrackView>,
    pub subtitle: Option<MediaTrackView>,
    pub thumbnail: Option<MediaTrackView>,
    pub title: Seq<char>,
    pub audio_only: bool,
}

impl View for StreamSet {
    type V = StreamSetView;

    open spec fn view(&self) -> StreamSetView {
        StreamSetView {
            primary: opt_track(self.primary),
            subtitle: opt_track(self.subtitle),
            thumbnail: opt_track(self.thumbnail),
            title: self.title@,
            audio_only: self.audio_only,
        }
    }
}

} // verus!
