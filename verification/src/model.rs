//! The data model: video records, load errors, and the load status flag.

use vstd::prelude::*;

verus! {

/// A single video record as delivered by the remote endpoint.
///
/// Immutable once received; equality is structural (all fields equal).
/// The identifier is an opaque non-negative integer, stable for the
/// session; the locator is carried along but only ever used for
/// placeholder rendering.
#[derive(Debug)]
pub struct Video {
    pub id: usize,
    pub title: String,
    pub speaker: String,
    pub url: String,
}

impl Clone for Video {
    fn clone(&self) -> (res: Self)
        ensures
            res == *self,
    {
        Video {
            id: self.id,
            title: self.title.clone(),
            speaker: self.speaker.clone(),
            url: self.url.clone(),
        }
    }
}

impl PartialEq for Video {
    fn eq(&self, other: &Self) -> (r: bool) {
        self.id == other.id && self.title == other.title && self.speaker == other.speaker
            && self.url == other.url
    }
}

impl vstd::std_specs::cmp::PartialEqSpecImpl for Video {
    open spec fn obeys_eq_spec() -> bool {
        true
    }

    open spec fn eq_spec(&self, other: &Self) -> bool {
        self.id == other.id && self.title@ == other.title@ && self.speaker@ == other.speaker@
            && self.url@ == other.url@
    }
}

/// Why a load did not complete: the transport failed (network error,
/// timeout, non-success status), or the body could not be decoded into
/// video records (invalid JSON, or a field missing or wrong-typed).
#[derive(Clone, Copy, Debug, PartialEq, Eq, Structural)]
pub enum LoadError {
    Transport,
    Decode,
}

/// Where the one-shot load stands: still pending, completed and the
/// collection replaced, or failed for the recorded reason.
#[derive(Clone, Copy, Debug, PartialEq, Eq, Structural)]
pub enum LoadStatus {
    Pending,
    Ready,
    Failed(LoadError),
}

} // verus!
