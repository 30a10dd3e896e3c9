//! One queued audio file and what playing it has revealed about it.

use vstd::prelude::*;

verus! {

/// A track of the playlist.
///
/// Only the path is known when the track is queued. The duration and the
/// cover are filled in once the track has become the current one and the
/// decoder has read its stream.
pub struct Track {
    /// Where the audio file lies. Never changes once the track is queued.
    pub path: String,
    /// The playable length in milliseconds, once the decoder has reported it.
    pub duration: Option<u128>,
    /// The embedded cover image, if the stream holds one and it has been read.
    pub cover: Option<Vec<u8>>,
}

/// A [`Track`] as plain mathematics.
pub struct TrackView {
    pub path: Seq<char>,
    pub duration: Option<nat>,
    pub cover: Option<Seq<u8>>,
}

impl TrackView {
    /// A track as it is when queued: nothing known but its path.
    pub open spec fn queued(path: Seq<char>) -> TrackView {
        TrackView { path, duration: None, cover: None }
    }
}

impl View for Track {
    type V = TrackView;

    open spec fn view(&self) -> TrackView {
        TrackView {
            path: self.path@,
            duration: match self.duration {
                Some(d) => Some(d as nat),
                None => None,
            },
            cover: bytes_view(self.cover),
        }
    }
}

/// The bytes of an optional image.
pub open spec fn bytes_view(bytes: Option<Vec<u8>>) -> Option<Seq<u8>> {
    match bytes {
        Some(b) => Some(b@),
        None => None,
    }
}

/// The views of the tracks of `tracks`, in order.
pub open spec fn tracks_view(tracks: Seq<Track>) -> Seq<TrackView> {
    Seq::new(tracks.len(), |i: int| tracks[i]@)
}

/// The paths of `tracks`, in order.
pub open spec fn paths_of(tracks: Seq<TrackView>) -> Seq<Seq<char>> {
    Seq::new(tracks.len(), |i: int| tracks[i].path)
}

/// A copy of an image's bytes.
pub(crate) fn copy_bytes(bytes: &Vec<u8>) -> (copy: Vec<u8>)
    ensures
        copy@ == bytes@,
{
    let mut copy: Vec<u8> = Vec::with_capacity(bytes.len());
    let mut i: usize = 0;
    while i < bytes.len()
        invariant
            i <= bytes.len(),
            copy@ == bytes@.take(i as int),
        decreases bytes.len() - i,
    {
        copy.push(bytes[i]);
        i += 1;
    }
    copy
}

/// A copy of an optional image.
pub(crate) fn copy_cover(cover: &Option<Vec<u8>>) -> (copy: Option<Vec<u8>>)
    ensures
        bytes_view(copy) == bytes_view(*cover),
{
    match cover {
        Some(bytes) => Some(copy_bytes(bytes)),
        None => None,
    }
}

impl Track {
    /// A track for the file at `path`, with nothing else known yet. The file
    /// is not touched: whether it can be played shows when it is opened.
    pub fn new(path: String) -> (track: Track)
        ensures
            track@ == TrackView::queued(path@),
    {
        Track { path, duration: None, cover: None }
    }
}

} // verus!
