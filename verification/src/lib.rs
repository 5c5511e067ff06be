//! Readers and writers for video sources and sinks, and the text that the
//! command-line tool prints.

pub mod command;
pub mod error;
pub mod input;
pub mod output;

pub use command::Command;
pub use error::VideoError;
pub use input::VideoInput;
pub use output::VideoOutput;
