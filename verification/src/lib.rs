//! Guest-memory manager for a virtual-machine monitor: plans the guest
//! physical address space, backs RAM regions with host memory, registers
//! that backing with the hypervisor control interface, and tracks the
//! hypervisor memory-slot counter.
//!
//! The side-effecting edges — reading `cpuid`, file creation, the
//! hypervisor registration call, and the kernel merge advisory — are
//! performed by the surrounding program; every decision about them is made
//! and verified here.

pub mod cpu;
pub mod errors;
pub mod guest_mem;
pub mod layout;
pub mod manager;
pub mod regions;

pub use cpu::{get_host_cpu_phys_bits, CpuidLeaf};
pub use errors::Error;
pub use guest_mem::GuestMemoryHandle;
pub use manager::{
    complete_userspace_mapping, initial_mapping_request, range_allocation_result, MemoryManager,
};
pub use regions::{
    filter_ram_regions, plan_backing, ArchRegion, BackingKind, BackingStatus, PlannedRegion,
    RamRegion, RegionType,
};
