//! The commands of the command-line tool and the text each one prints.

use vstd::prelude::*;

verus! {

/// The line that reports the tool's version: the tool's name, one space, and
/// the version string.
pub open spec fn version_line(version: Seq<char>) -> Seq<char> {
    "video_ai "@ + version
}

/// A command that the tool can be asked to run.
#[derive(Clone, Copy, Debug, PartialEq, Eq, Structural)]
pub enum Command {
    /// Report the tool's version.
    Version,
}

impl Command {
    /// The line that the command prints to standard output, without its line
    /// end, when the tool was built as version `version`.
    pub open spec fn output_text(self, version: Seq<char>) -> Seq<char> {
        match self {
            Command::Version => version_line(version),
        }
    }

    /// Builds the line that the command prints to standard output, without
    /// its line end. `version` is the version that the tool was built as.
    pub fn output(self, version: &str) -> (text: String)
        ensures
            text@ == self.output_text(version@),
    {
        match self {
            Command::Version => {
                let mut text = "video_ai ".to_string();
                text.append(version);
                text
            },
        }
    }
}

/// What the version command prints is the version line, and that line starts
/// with the name `video_ai`, has one space after it, and ends with the
/// version string, unchanged.
pub proof fn lemma_version_line_shape(version: Seq<char>)
    ensures
        Command::Version.output_text(version) == version_line(version),
        version_line(version).len() == 9 + version.len(),
        version_line(version).take(8) == "video_ai"@,
        version_line(version)[8] == ' ',
        version_line(version).skip(9) == version,
{
    reveal_strlit("video_ai ");
    reveal_strlit("video_ai");
}

} // verus!
