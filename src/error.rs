//! Errors of the mapping operations.
use vstd::prelude::*;

verus! {

/// Why a mapping operation failed.
#[derive(Clone, Copy, Debug, PartialEq, Eq, Hash, Structural)]
pub enum MmapError {
    /// The call that creates the mapping failed; carries the OS error code.
    OsMappingFailed(i32),
    /// A flush or protection call failed; carries the OS error code.
    OsCallFailed(i32),
    /// A mapping of zero bytes was asked for; no call was made.
    ZeroLengthMapping,
    /// A mutable mapping was asked for with a protection that does not allow
    /// writes; no call was made.
    NotWritable,
    /// The protection cannot be reached in place from the mapping's current
    /// state; no call was made.
    InvalidProtectionTransition,
    /// A length or an offset does not fit the type that the call takes.
    Overflow,
}

} // verus!
