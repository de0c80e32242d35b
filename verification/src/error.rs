//! The one error that sealing and opening report.

use vstd::prelude::*;

verus! {

/// Failure of a seal or an open.
///
/// A tag that does not match and a length that does not fit the length block
/// are reported alike, so that a caller cannot learn from the error which of
/// the two checks failed.
#[derive(Clone, Copy, Debug, PartialEq, Eq, Structural)]
pub struct Error;

} // verus!
