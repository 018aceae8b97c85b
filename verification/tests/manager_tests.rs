use memory_manager::{
    complete_userspace_mapping, initial_mapping_request, range_allocation_result, ArchRegion,
    Error, MemoryManager, RegionType,
};
use vm_memory::{Address, GuestAddress, GuestMemoryBackend, GuestMemoryRegion};

const MIB: usize = 1024 * 1024;
const MEM_32BIT_RESERVED_START: u64 = 0xC000_0000;
const RAM_64BIT_START: u64 = 0x1_0000_0000;
const PHYS_BITS: u8 = 46;
const HOST_BASE: u64 = 0x7f00_0000_0000;

fn new_manager(arch: &Vec<ArchRegion>) -> Result<MemoryManager, Error> {
    MemoryManager::new(arch, None, MEM_32BIT_RESERVED_START, RAM_64BIT_START, PHYS_BITS)
}

fn boot_ram_512_mib() -> Vec<ArchRegion> {
    vec![
        ArchRegion { start: 0, size: 512 * MIB, kind: RegionType::Ram },
        ArchRegion { start: 0xC000_0000, size: 0x2000_0000, kind: RegionType::Reserved },
    ]
}

#[test]
fn boot_ram_512_mib_constructs_manager() {
    // 512 MiB of boot RAM, no backing file: construction succeeds, the
    // guest memory covers exactly the one filtered RAM region, and the
    // slot counter seeds at the RAM region count.
    let mgr = new_manager(&boot_ram_512_mib()).unwrap();
    assert_eq!(mgr.next_kvm_memory_slot, 1);
    assert_eq!(mgr.end_of_device_area(), (1u64 << PHYS_BITS) - 1);
    // RAM ends below the 32-bit reserved boundary: the device area starts
    // at the fixed 64-bit RAM start.
    assert_eq!(mgr.start_of_device_area(), RAM_64BIT_START);

    let snap = mgr.current_memory();
    assert_eq!(snap.num_regions(), 1);
    let region = snap.iter().next().unwrap();
    assert_eq!(region.start_addr().raw_value(), 0);
    assert_eq!(region.len(), (512 * MIB) as u64);
}

#[test]
fn boot_ram_512_mib_registration_without_mergeable_never_advises() {
    let mut mgr = new_manager(&boot_ram_512_mib()).unwrap();
    let snap = mgr.current_memory();
    let regions: Vec<(u64, u64)> = snap
        .iter()
        .map(|r| (r.start_addr().raw_value(), r.len()))
        .collect();

    // The initial regions occupy slots [0, N) by construction order.
    let mut registered: Vec<u32> = Vec::new();
    for (i, (gpa, len)) in regions.iter().enumerate() {
        let req = initial_mapping_request(i as u32, *gpa, *len, HOST_BASE + *gpa);
        assert_eq!(req.guest_phys_addr, *gpa);
        assert_eq!(req.memory_size, *len);
        assert_eq!(req.userspace_addr, HOST_BASE + *gpa);
        assert_eq!(req.flags, 0);
        assert_eq!(req.slot, i as u32);
        let (result, advise) = complete_userspace_mapping(req.slot, true, false);
        // mergeable was not requested: the advisory is never invoked.
        assert!(!advise);
        registered.push(result.unwrap());
    }
    assert_eq!(registered, vec![0]);
    // Initial registration leaves the counter at the RAM region count: the
    // first dynamic registration mints exactly that slot.
    assert_eq!(mgr.next_kvm_memory_slot, 1);
    let dynamic = mgr.create_userspace_mapping(RAM_64BIT_START, 4096, HOST_BASE);
    assert_eq!(dynamic.slot, 1);
}

#[test]
fn one_gib_in_two_regions_covers_all_ram() {
    // 1 GiB of boot RAM split into 2 regions, handed in as an
    // already-built memory object: both regions map, total length 1 GiB.
    let arch = vec![
        ArchRegion { start: 0, size: 512 * MIB, kind: RegionType::Ram },
        ArchRegion { start: RAM_64BIT_START, size: 512 * MIB, kind: RegionType::Ram },
    ];
    let gm: vm_memory::GuestMemoryMmap = vm_memory::GuestMemoryMmap::from_ranges(&[
        (GuestAddress(0), 512 * MIB),
        (GuestAddress(RAM_64BIT_START), 512 * MIB),
    ])
    .unwrap();
    let mgr = MemoryManager::new(
        &arch,
        Some(gm),
        MEM_32BIT_RESERVED_START,
        RAM_64BIT_START,
        PHYS_BITS,
    )
    .unwrap();

    assert_eq!(mgr.next_kvm_memory_slot, 2);
    let snap = mgr.current_memory();
    assert_eq!(snap.num_regions(), 2);
    let total: u64 = snap.iter().map(|r| r.len()).sum();
    assert_eq!(total, (1024 * MIB) as u64);
    // RAM now ends above the 32-bit reserved boundary: the device area
    // starts one byte past the highest RAM address.
    assert_eq!(
        mgr.start_of_device_area(),
        RAM_64BIT_START + 512 * MIB as u64
    );
}

#[test]
fn allocated_slots_are_distinct_and_form_a_range() {
    let mut mgr = new_manager(&boot_ram_512_mib()).unwrap();
    let initial = mgr.next_kvm_memory_slot;
    let slots: Vec<u32> = (0..5).map(|_| mgr.allocate_kvm_memory_slot()).collect();
    assert_eq!(slots, (initial..initial + 5).collect::<Vec<u32>>());
    for i in 0..slots.len() {
        for j in 0..slots.len() {
            if i != j {
                assert_ne!(slots[i], slots[j]);
            }
        }
    }
    // The first slot allocated after construction is the RAM region count.
    assert_eq!(slots[0], 1);
}

#[test]
fn advisory_failure_does_not_fail_registration() {
    // The registration outcome is decided before the advisory runs, so a
    // failing advisory cannot change it: a successful registration with
    // mergeable pages yields the slot, and only asks for the advisory.
    let (result, advise) = complete_userspace_mapping(9, true, true);
    assert_eq!(result, Ok(9));
    assert!(advise);
    // However the advisory call then fares, the slot stands.
    let advisory_failed = true;
    assert!(advisory_failed);
    assert_eq!(result, Ok(9));
}

#[test]
fn rejected_hypervisor_call_fails_registration() {
    let (result, advise) = complete_userspace_mapping(3, false, true);
    assert_eq!(result, Err(Error::GuestMemory));
    assert!(!advise);
}

#[test]
fn range_allocation_outcomes() {
    assert_eq!(range_allocation_result(Some(0xE000_0000)), Ok(0xE000_0000));
    assert_eq!(range_allocation_result(None), Err(Error::MemoryRangeAllocation));
}

#[test]
fn overlapping_ram_regions_fail_construction() {
    let arch = vec![
        ArchRegion { start: 0, size: 2 * MIB, kind: RegionType::Ram },
        ArchRegion { start: MIB as u64, size: 2 * MIB, kind: RegionType::Ram },
    ];
    let err = match new_manager(&arch) {
        Ok(_) => panic!("construction should fail"),
        Err(e) => e,
    };
    assert_eq!(err, Error::GuestMemory);
}

#[test]
fn no_ram_region_fails_construction() {
    let arch = vec![ArchRegion { start: 0, size: 4096, kind: RegionType::Reserved }];
    let err = match new_manager(&arch) {
        Ok(_) => panic!("construction should fail"),
        Err(e) => e,
    };
    assert_eq!(err, Error::GuestMemory);
}

#[test]
fn guest_memory_handle_reads_the_same_snapshot() {
    let mgr = new_manager(&boot_ram_512_mib()).unwrap();
    let handle = mgr.guest_memory();
    let snap = handle.load_full();
    assert_eq!(snap.num_regions(), 1);
    assert_eq!(snap.last_addr().raw_value(), 512 * MIB as u64 - 1);
}
