//! The writing end: a writer for a media sink.

use vstd::prelude::*;
use crate::error::VideoError;

verus! {

/// A writer for a media sink, which its destination path identifies.
#[derive(Debug)]
pub struct VideoOutput {
    path: String,
}

impl View for VideoOutput {
    type V = Seq<char>;

    /// The path that the writer was made with.
    closed spec fn view(&self) -> Seq<char> {
        self.path@
    }
}

impl VideoOutput {
    /// Makes a writer for the sink at `path`. Nothing is opened or created, so
    /// every path is accepted, and it is kept as given.
    pub fn new(path: &str) -> (writer: Result<Self, VideoError>)
        ensures
            writer is Ok,
            writer->Ok_0@ == path@,
    {
        Ok(VideoOutput { path: path.to_string() })
    }

    /// Takes a number of frames to write. Every number is accepted, a negative
    /// one too, and nothing is written: the writer stays as it was.
    pub fn write_placeholder(&self, _frames: i64) -> (written: Result<(), VideoError>)
        ensures
            written == Ok::<(), VideoError>(()),
    {
        Ok(())
    }
}

} // verus!
