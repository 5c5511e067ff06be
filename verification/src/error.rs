//! The failures that a reader or a writer can report.

use vstd::prelude::*;

verus! {

/// A failure of a reader or a writer.
///
/// None of their operations fails, so the type has no value: a result that
/// carries it is always `Ok`.
pub type VideoError = core::convert::Infallible;

} // verus!
