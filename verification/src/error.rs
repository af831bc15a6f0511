//! The ways in which a boot attempt ends without reaching the kernel.

use vstd::prelude::*;

verus! {

/// Why a boot attempt was given up. Every one of these is final: nothing is
/// retried and nothing is undone.
#[derive(Clone, Copy, Debug, PartialEq, Eq, Hash, Structural)]
pub enum LoadError {
    /// The kernel file is not on the boot volume.
    ImageNotFound,
    /// Reading the kernel file failed or came up short.
    IoError,
    /// The image's headers cannot be read, or describe a segment that cannot
    /// be what they say.
    MalformedImage,
    /// The pages for a segment could not be had at the address the kernel is
    /// linked for.
    AllocationFailed,
    /// There is no display surface to describe to the kernel.
    NoDisplaySurface,
    /// The firmware refused to end its boot-time services.
    FinalizeFailed,
}

} // verus!
