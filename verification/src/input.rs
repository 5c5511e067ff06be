//! The reading end: a reader for a media source, and its frame count.

use vstd::prelude::*;
use crate::error::VideoError;

verus! {

/// A reader for a media source, which a path or URI identifies.
#[derive(Debug)]
pub struct VideoInput {
    path: String,
}

impl View for VideoInput {
    type V = Seq<char>;

    /// The path that the reader was made with.
    closed spec fn view(&self) -> Seq<char> {
        self.path@
    }
}

impl VideoInput {
    /// Makes a reader for the source at `path`. Nothing is opened or read, so
    /// every path is accepted, and it is kept as given.
    pub fn new(path: &str) -> (reader: Result<Self, VideoError>)
        ensures
            reader is Ok,
            reader->Ok_0@ == path@,
    {
        Ok(VideoInput { path: path.to_string() })
    }

    /// The number of frames that the reader reports, which is zero whatever
    /// the source holds.
    pub fn frame_count(&self) -> (count: Result<i64, VideoError>)
        ensures
            count == Ok::<i64, VideoError>(0),
    {
        Ok(0)
    }
}

} // verus!
