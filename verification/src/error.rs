//! The ways in which installing or removing a hook can fail.

use vstd::prelude::*;

verus! {

/// Why a hook operation was refused or aborted.
///
/// `TooSmall` and `InvalidTarget` are raised while the request is validated,
/// before the platform has been asked to do anything. `PlatformFailure` is
/// raised when the platform reports that a protection change, an allocation,
/// a copy or a release did not succeed; by then part of the operation may
/// already have taken effect.
#[derive(Debug, Clone, Copy, PartialEq, Eq, Structural)]
pub enum Error {
    /// The patch region is shorter than the jump that has to be written into it.
    TooSmall,
    /// The pointer width is neither 32 nor 64 bits.
    InvalidTarget,
    /// The platform reported a failure; `code` is the error code it gave.
    PlatformFailure { code: i32 },
}

} // verus!
