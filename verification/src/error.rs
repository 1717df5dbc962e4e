//! Defects of the surrounding logic that the library detects and reports
//! instead of proceeding.

use vstd::prelude::*;

verus! {

/// What went wrong.
#[derive(Clone, Copy, Debug, PartialEq, Eq, Structural)]
pub enum BioError {
    /// A handle was built from an absent request.
    NullHandle,
    /// The device a request targets is not a nexus.
    TypeMismatch,
    /// A child completion arrived although none was outstanding.
    DoubleCompletion,
    /// The I/O vector of a request does not have the length it declares.
    IovCountMismatch,
}

} // verus!
