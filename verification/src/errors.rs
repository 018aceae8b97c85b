//! Error kinds raised while constructing and registering guest memory.

use vstd::prelude::*;

verus! {

/// Failure kinds of guest-memory construction and registration.
///
/// Construction is all-or-nothing: any of these aborts manager construction,
/// and no partial manager is ever returned.
#[derive(Clone, Copy, Debug, PartialEq, Eq, Structural)]
pub enum Error {
    /// Failed to create or open the shared backing file.
    SharedFileCreate,
    /// Failed to set the shared backing file's length.
    SharedFileSetLen,
    /// Failed to build or register the mmap-backed guest memory.
    GuestMemory,
    /// Failed to allocate an address range for a memory region.
    MemoryRangeAllocation,
}

} // verus!
