//! The memory manager: owns the guest-memory handle, the hypervisor
//! memory-slot counter, and the device-area boundaries for the lifetime of
//! the virtual machine.
//!
//! The manager mints every slot identifier itself, strictly monotonically,
//! starting at the number of initial RAM regions; the hypervisor
//! registration call and the merge advisory are performed by the caller
//! from the exact request records built here.

use crate::errors::Error;
use crate::guest_mem::{
    guest_memory_last_addr, handle_regions, lemma_mem_end_is_max, mem_regions,
    mmap_anonymous_regions, ram_pairs, region_end, spec_mem_end, GuestMemoryHandle,
};
use crate::layout::{
    end_of_device_area_for, spec_end_of_device_area, spec_start_of_device_area,
    start_of_device_area_for,
};
use crate::regions::{filter_ram_regions, spec_ram_regions, ArchRegion};
use std::sync::Arc;
use vstd::prelude::*;

verus! {

#[verifier::external_type_specification]
pub struct ExKvmUserspaceMemoryRegion(kvm_bindings::kvm_userspace_memory_region);

/// The regions the manager's guest memory holds: the regions of an
/// already-built (file-backed) memory object when one is handed in, and one
/// anonymous region per RAM region of the architecture layout otherwise.
pub open spec fn spec_initial_regions(
    arch: Seq<ArchRegion>,
    backing_memory: Option<vm_memory::GuestMemoryMmap>,
) -> Seq<(u64, usize)> {
    match backing_memory {
        Some(m) => mem_regions(m),
        None => ram_pairs(spec_ram_regions(arch)),
    }
}

/// Owns the guest-memory handle, the next hypervisor memory-slot
/// identifier, and the device-area boundaries.
pub struct MemoryManager {
    pub guest_memory: GuestMemoryHandle,
    pub next_kvm_memory_slot: u32,
    pub start_of_device_area: u64,
    pub end_of_device_area: u64,
}

impl MemoryManager {
    /// Builds the manager for a virtual machine: wraps the guest memory in
    /// the atomically swappable handle, computes the device-area
    /// boundaries, and seeds the slot counter with the RAM region count, so
    /// the initial regions occupy slots `[0, N)` by construction order and
    /// the first dynamically allocated slot is `N`.
    ///
    /// `backing_memory` is the file-backed memory object when the caller
    /// built one from the backing plan; with none, every RAM region of the
    /// architecture layout is mapped here as private anonymous memory.
    pub fn new(
        arch_mem_regions: &Vec<ArchRegion>,
        backing_memory: Option<vm_memory::GuestMemoryMmap>,
        mem_32bit_reserved_start: u64,
        ram_64bit_start: u64,
        phys_bits: u8,
    ) -> (r: Result<MemoryManager, Error>)
        requires
            0 < phys_bits < 64,
            spec_ram_regions(arch_mem_regions@).len() <= u32::MAX,
        ensures
            r matches Ok(m) ==> {
                &&& handle_regions(m.guest_memory) == spec_initial_regions(
                    arch_mem_regions@,
                    backing_memory,
                )
                &&& m.next_kvm_memory_slot == spec_ram_regions(arch_mem_regions@).len()
                &&& m.end_of_device_area == spec_end_of_device_area(phys_bits)
                &&& m.start_of_device_area == spec_start_of_device_area(
                    spec_mem_end(spec_initial_regions(arch_mem_regions@, backing_memory)),
                    mem_32bit_reserved_start,
                    ram_64bit_start,
                )
            },
            backing_memory is Some ==> r is Ok,
            r matches Err(e) ==> e == Error::GuestMemory && backing_memory is None,
    {
        let ram = filter_ram_regions(arch_mem_regions);

        let guest_memory_obj = match backing_memory {
            Some(m) => m,
            None => match mmap_anonymous_regions(&ram) {
                Ok(m) => m,
                Err(e) => {
                    return Err(e);
                },
            },
        };

        let end_of_device_area = end_of_device_area_for(phys_bits);
        let mem_end = guest_memory_last_addr(&guest_memory_obj);
        let start_of_device_area = start_of_device_area_for(
            mem_end,
            mem_32bit_reserved_start,
            ram_64bit_start,
        );

        let guest_memory = GuestMemoryHandle::new(guest_memory_obj);

        Ok(
            MemoryManager {
                guest_memory,
                next_kvm_memory_slot: ram.len() as u32,
                start_of_device_area,
                end_of_device_area,
            },
        )
    }

    /// A fresh handle to the current guest memory: it reads the same
    /// atomically swapped snapshot as the manager's own.
    pub fn guest_memory(&self) -> (h: GuestMemoryHandle)
        ensures
            handle_regions(h) == handle_regions(self.guest_memory),
    {
        self.guest_memory.clone_handle()
    }

    /// The snapshot of the mapped guest memory the manager currently holds.
    pub fn current_memory(&self) -> (m: Arc<vm_memory::GuestMemoryMmap>)
        ensures
            mem_regions(*m) == handle_regions(self.guest_memory),
    {
        self.guest_memory.load_full()
    }

    /// Where the device area begins.
    pub fn start_of_device_area(&self) -> (r: u64)
        ensures
            r == self.start_of_device_area,
    {
        self.start_of_device_area
    }

    /// Where the device area ends (inclusive).
    pub fn end_of_device_area(&self) -> (r: u64)
        ensures
            r == self.end_of_device_area,
    {
        self.end_of_device_area
    }

    /// Mints the next hypervisor memory-slot identifier: returns the
    /// counter and advances it by one. Identifiers are never reused, and no
    /// other component may mint one.
    pub fn allocate_kvm_memory_slot(&mut self) -> (slot: u32)
        requires
            old(self).next_kvm_memory_slot < u32::MAX,
        ensures
            slot == old(self).next_kvm_memory_slot,
            final(self).next_kvm_memory_slot == old(self).next_kvm_memory_slot + 1,
            final(self).guest_memory == old(self).guest_memory,
            final(self).start_of_device_area == old(self).start_of_device_area,
            final(self).end_of_device_area == old(self).end_of_device_area,
    {
        let slot_id = self.next_kvm_memory_slot;
        self.next_kvm_memory_slot = self.next_kvm_memory_slot + 1;
        slot_id
    }

    /// Builds the hypervisor registration record for one userspace mapping:
    /// a freshly minted slot bound to the (guest address, length, host
    /// address) triple, with no special flags. The caller issues the
    /// hypervisor call with exactly this record and reports its outcome to
    /// [`complete_userspace_mapping`].
    pub fn create_userspace_mapping(
        &mut self,
        guest_phys_addr: u64,
        memory_size: u64,
        userspace_addr: u64,
    ) -> (req: kvm_bindings::kvm_userspace_memory_region)
        requires
            old(self).next_kvm_memory_slot < u32::MAX,
        ensures
            req.slot == old(self).next_kvm_memory_slot,
            req.guest_phys_addr == guest_phys_addr,
            req.memory_size == memory_size,
            req.userspace_addr == userspace_addr,
            req.flags == 0,
            final(self).next_kvm_memory_slot == old(self).next_kvm_memory_slot + 1,
            final(self).guest_memory == old(self).guest_memory,
            final(self).start_of_device_area == old(self).start_of_device_area,
            final(self).end_of_device_area == old(self).end_of_device_area,
    {
        let slot = self.allocate_kvm_memory_slot();
        kvm_bindings::kvm_userspace_memory_region {
            slot,
            flags: 0,
            guest_phys_addr,
            memory_size,
            userspace_addr,
        }
    }
}

/// Builds the hypervisor registration record for one initial RAM region.
/// The initial regions occupy slots `[0, N)` implicitly by construction
/// order: their identifiers are the construction indices, minted by no
/// counter, so the manager's counter stays at `N`, ready for the first
/// dynamic registration.
pub fn initial_mapping_request(
    index: u32,
    guest_phys_addr: u64,
    memory_size: u64,
    userspace_addr: u64,
) -> (req: kvm_bindings::kvm_userspace_memory_region)
    ensures
        req.slot == index,
        req.guest_phys_addr == guest_phys_addr,
        req.memory_size == memory_size,
        req.userspace_addr == userspace_addr,
        req.flags == 0,
{
    kvm_bindings::kvm_userspace_memory_region {
        slot: index,
        flags: 0,
        guest_phys_addr,
        memory_size,
        userspace_addr,
    }
}

/// Decides the outcome of one userspace-mapping registration. A rejected
/// hypervisor call is the one failure; when the call succeeded, the result
/// is the slot, and the host kernel is to be advised that the pages are
/// merge candidates exactly when the caller asked for mergeable pages.
/// Whether that best-effort advisory later fails cannot change the result:
/// it is decided here, before the advisory runs.
pub fn complete_userspace_mapping(slot: u32, registered: bool, mergeable: bool) -> (r: (
    Result<u32, Error>,
    bool,
))
    ensures
        registered ==> r.0 == Ok::<u32, Error>(slot) && r.1 == mergeable,
        !registered ==> r.0 == Err::<u32, Error>(Error::GuestMemory) && r.1 == false,
{
    if registered {
        (Ok(slot), mergeable)
    } else {
        (Err(Error::GuestMemory), false)
    }
}

/// Decides the outcome of one address-range reservation in the external
/// general-purpose allocator: a declined reservation is fatal.
pub fn range_allocation_result(allocated: Option<u64>) -> (r: Result<u64, Error>)
    ensures
        allocated matches Some(a) ==> r == Ok::<u64, Error>(a),
        allocated is None ==> r == Err::<u64, Error>(Error::MemoryRangeAllocation),
{
    match allocated {
        Some(a) => Ok(a),
        None => Err(Error::MemoryRangeAllocation),
    }
}

/// Law: slot allocations never repeat. In any chain of counter states where
/// each allocation returns the counter and advances it by one, the i-th
/// returned identifier is the initial counter plus i, so K allocations
/// return K distinct identifiers forming exactly the range
/// [initial, initial + K).
pub proof fn lemma_slot_sequence(counters: Seq<u32>)
    requires
        forall|k: int| 0 <= k < counters.len() - 1 ==> #[trigger] counters[k + 1] == counters[k] + 1,
    ensures
        forall|i: int| 0 <= i < counters.len() ==> #[trigger] counters[i] == counters[0] + i,
        forall|i: int, j: int|
            0 <= i < counters.len() && 0 <= j < counters.len() && i != j ==> counters[i]
                != counters[j],
{
    assert forall|i: int| 0 <= i < counters.len() implies #[trigger] counters[i] == counters[0] + i by {
        lemma_slot_sequence_index(counters, i);
    }
}

/// Law: the device area never overlaps guest RAM. For a manager whose
/// device-area start was planned from the highest address of its mapped
/// regions, that start lies strictly above every region's last byte —
/// either because it is one past the highest mapped address, or because RAM
/// ends below the 32-bit reserved boundary and the area starts at the fixed
/// 64-bit RAM start, which lies at or above that boundary.
pub proof fn lemma_manager_device_area_above_ram(
    m: MemoryManager,
    regions: Seq<(u64, usize)>,
    mem_32bit_reserved_start: u64,
    ram_64bit_start: u64,
)
    requires
        mem_32bit_reserved_start <= ram_64bit_start,
        m.start_of_device_area == spec_start_of_device_area(
            spec_mem_end(regions),
            mem_32bit_reserved_start,
            ram_64bit_start,
        ),
    ensures
        forall|i: int|
            0 <= i < regions.len() ==> m.start_of_device_area > region_end(#[trigger] regions[i]),
{
    lemma_mem_end_is_max(regions);
}

proof fn lemma_slot_sequence_index(counters: Seq<u32>, i: int)
    requires
        forall|k: int| 0 <= k < counters.len() - 1 ==> #[trigger] counters[k + 1] == counters[k] + 1,
        0 <= i < counters.len(),
    ensures
        counters[i] == counters[0] + i,
    decreases i,
{
    if i > 0 {
        lemma_slot_sequence_index(counters, i - 1);
        assert(counters[(i - 1) + 1] == counters[i - 1] + 1);
    }
}

} // verus!
