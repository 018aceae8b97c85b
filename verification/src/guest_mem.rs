//! The mapped guest-memory object and its atomically swappable handle.
//!
//! The object itself is `vm_memory`'s mmap-backed region collection; its
//! contents are modelled here as the sequence of (address, size) pairs of
//! its regions, and every call into the outside crate stands behind a
//! trusted item whose contract speaks over that model.

use crate::errors::Error;
use crate::regions::RamRegion;
use arc_swap::ArcSwap;
use std::sync::Arc;
use vm_memory::Address;
use vm_memory::GuestMemoryBackend;
use vstd::prelude::*;

verus! {

#[verifier::external_type_specification]
#[verifier::external_body]
#[verifier::reject_recursive_types(B)]
pub struct ExGuestRegionMmap<B>(vm_memory::GuestRegionMmap<B>);

#[verifier::external_type_specification]
#[verifier::external_body]
#[verifier::reject_recursive_types(R)]
pub struct ExGuestRegionCollection<R>(vm_memory::GuestRegionCollection<R>);

/// The regions a mapped guest-memory object holds, in order, as
/// (guest address, length) pairs.
pub uninterp spec fn mem_regions(m: vm_memory::GuestMemoryMmap) -> Seq<(u64, usize)>;

/// The last byte address of one region.
pub open spec fn region_end(r: (u64, usize)) -> int {
    r.0 + r.1 - 1
}

/// The highest mapped address of a region sequence, or zero when it is
/// empty: the maximum of zero and every region's last byte address.
pub open spec fn spec_mem_end(regions: Seq<(u64, usize)>) -> int
    decreases regions.len(),
{
    if regions.len() == 0 {
        0
    } else {
        let rest = spec_mem_end(regions.drop_last());
        if region_end(regions.last()) > rest {
            region_end(regions.last())
        } else {
            rest
        }
    }
}

/// The (address, size) view of a RAM region list.
pub open spec fn ram_pairs(ram: Seq<RamRegion>) -> Seq<(u64, usize)> {
    ram.map_values(|r: RamRegion| (r.start, r.size))
}

/// The highest mapped address bounds every region: no region's last byte
/// lies above it.
pub proof fn lemma_mem_end_is_max(regions: Seq<(u64, usize)>)
    ensures
        spec_mem_end(regions) >= 0,
        forall|i: int|
            0 <= i < regions.len() ==> region_end(#[trigger] regions[i]) <= spec_mem_end(regions),
    decreases regions.len(),
{
    if regions.len() > 0 {
        lemma_mem_end_is_max(regions.drop_last());
        assert forall|i: int|
            0 <= i < regions.len() implies region_end(#[trigger] regions[i]) <= spec_mem_end(
            regions,
        ) by {
            if i < regions.len() - 1 {
                assert(regions.drop_last()[i] == regions[i]);
            }
        }
    }
}

/// Relies on `vm_memory::GuestMemoryMmap::from_ranges`: on success the
/// returned object holds exactly one anonymous mapped region per requested
/// (address, size) pair, each of nonzero length and with its end address
/// checked against overflow at construction.
#[verifier::external_body]
pub(crate) fn mmap_anonymous_regions(ram: &Vec<RamRegion>) -> (r: Result<
    vm_memory::GuestMemoryMmap,
    Error,
>)
    ensures
        r matches Ok(m) ==> mem_regions(m) == ram_pairs(ram@),
        r matches Ok(m) ==> forall|i: int|
            0 <= i < ram@.len() ==> 1 <= #[trigger] ram@[i].size && ram@[i].start + ram@[i].size
                <= u64::MAX,
        r matches Err(e) ==> e == Error::GuestMemory,
{
    let ranges: Vec<(vm_memory::GuestAddress, usize)> = ram.iter().map(
        |r| (vm_memory::GuestAddress(r.start), r.size),
    ).collect();
    vm_memory::GuestMemoryMmap::from_ranges(&ranges).map_err(|_| Error::GuestMemory)
}

/// Relies on `vm_memory::GuestMemoryBackend::last_addr`: the maximum of zero
/// and every region's last byte address. Region ends stay below `u64::MAX`
/// because each region's (address + length) is checked to fit at
/// construction.
#[verifier::external_body]
pub(crate) fn guest_memory_last_addr(m: &vm_memory::GuestMemoryMmap) -> (r: u64)
    ensures
        r == spec_mem_end(mem_regions(*m)),
        r < u64::MAX,
{
    m.last_addr().raw_value()
}

/// Atomically swappable handle to the current guest-memory snapshot: many
/// concurrent readers each load a snapshot without blocking, and a future
/// whole-object replacement is one atomic pointer swap, never a mutation a
/// reader could observe half-done.
#[verifier::external_body]
pub struct GuestMemoryHandle {
    inner: Arc<ArcSwap<vm_memory::GuestMemoryMmap>>,
}

/// The regions of the guest-memory snapshot a handle currently holds.
pub uninterp spec fn handle_regions(h: GuestMemoryHandle) -> Seq<(u64, usize)>;

impl GuestMemoryHandle {
    /// Relies on `arc_swap::ArcSwap::new`: the handle initially holds
    /// exactly the given memory object.
    #[verifier::external_body]
    pub(crate) fn new(m: vm_memory::GuestMemoryMmap) -> (h: GuestMemoryHandle)
        ensures
            handle_regions(h) == mem_regions(m),
    {
        GuestMemoryHandle { inner: Arc::new(ArcSwap::new(Arc::new(m))) }
    }

    /// Relies on `std::sync::Arc::clone`: the clone refers to the same
    /// atomically swapped slot, so it holds the same snapshot.
    #[verifier::external_body]
    pub(crate) fn clone_handle(&self) -> (h: GuestMemoryHandle)
        ensures
            handle_regions(h) == handle_regions(*self),
    {
        GuestMemoryHandle { inner: Arc::clone(&self.inner) }
    }

    /// Relies on `arc_swap::ArcSwapAny::load_full`: returns the snapshot the
    /// handle currently holds. This is the readers' side of the handle: a
    /// load never blocks, and the snapshot stays valid across a concurrent
    /// whole-object replacement.
    #[verifier::external_body]
    pub fn load_full(&self) -> (m: Arc<vm_memory::GuestMemoryMmap>)
        ensures
            mem_regions(*m) == handle_regions(*self),
    {
        self.inner.load_full()
    }
}

} // verus!
