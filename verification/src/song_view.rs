//! The view of a track for editing.

use vstd::prelude::*;
use crate::track::Track;

verus! {

/// A track as it is shown for editing.
pub struct TrackView {
    pub track: Track,
}

impl TrackView {
    /// The view of `track`.
    pub fn new(track: Track) -> (view: TrackView)
        ensures
            view.track == track,
    {
        TrackView { track }
    }
}

} // verus!
