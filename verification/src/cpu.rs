//! Physical-address-width probe.
//!
//! The host CPU is queried through its `cpuid` instruction by the caller
//! (reading a hardware register is outside what this library performs); the
//! interpretation of the returned leaves, including the AMD
//! memory-encryption correction, is decided and verified here.

use vstd::prelude::*;

verus! {

/// One `cpuid` leaf as returned by the host CPU.
#[derive(Clone, Copy, Debug, PartialEq, Eq, Structural)]
pub struct CpuidLeaf {
    pub eax: u32,
    pub ebx: u32,
    pub ecx: u32,
    pub edx: u32,
}

/// The vendor registers of the maximum-extended-leaf query spell the AMD
/// vendor identification string.
pub open spec fn is_amd_vendor(max_leaf: CpuidLeaf) -> bool {
    &&& max_leaf.ebx == 0x6874_7541u32
    &&& max_leaf.ecx == 0x444d_4163u32
    &&& max_leaf.edx == 0x6974_6e65u32
}

/// The CPU exposes the memory-encryption feature leaf.
pub open spec fn supports_encryption_leaf(max_leaf: CpuidLeaf) -> bool {
    max_leaf.eax >= 0x8000_001fu32
}

/// The CPU exposes the address-size leaf.
pub open spec fn supports_address_size_leaf(max_leaf: CpuidLeaf) -> bool {
    max_leaf.eax >= 0x8000_0008u32
}

/// The memory-encryption feature is reported as enabled.
pub open spec fn encryption_enabled(encryption_leaf: CpuidLeaf) -> bool {
    encryption_leaf.eax & 1u32 != 0u32
}

/// The reduction field of the memory-encryption leaf: the number of physical
/// address bits the feature reserves for itself (bits 6..=11 of `ebx`).
pub open spec fn reduction_field(encryption_leaf: CpuidLeaf) -> u32 {
    (encryption_leaf.ebx >> 6u32) & 0x3fu32
}

/// How many address bits are lost to memory encryption: the reduction field
/// on an AMD CPU with the feature leaf present and the feature enabled,
/// zero otherwise.
pub open spec fn spec_encryption_reduction(max_leaf: CpuidLeaf, encryption_leaf: CpuidLeaf) -> u32 {
    if supports_encryption_leaf(max_leaf) && is_amd_vendor(max_leaf)
        && encryption_enabled(encryption_leaf) {
        reduction_field(encryption_leaf)
    } else {
        0u32
    }
}

/// The raw physical-address-bit count reported by the address-size leaf.
pub open spec fn raw_phys_bits(address_size_leaf: CpuidLeaf) -> u32 {
    address_size_leaf.eax & 0xffu32
}

/// The number of usable physical address bits: the raw count corrected by
/// the memory-encryption reduction, or the conservative default of 36 when
/// the CPU does not expose the address-size leaf.
pub open spec fn spec_phys_bits(
    max_leaf: CpuidLeaf,
    encryption_leaf: CpuidLeaf,
    address_size_leaf: CpuidLeaf,
) -> int {
    if supports_address_size_leaf(max_leaf) {
        raw_phys_bits(address_size_leaf) - spec_encryption_reduction(max_leaf, encryption_leaf)
    } else {
        36
    }
}

/// Returns the number of physical address bits the host CPU exposes.
///
/// `max_leaf` is the maximum-extended-leaf query result, `encryption_leaf`
/// the memory-encryption feature leaf, and `address_size_leaf` the
/// address-size leaf. The probe cannot fail: an unsupported address-size
/// leaf only degrades the answer to the 36-bit default.
pub fn get_host_cpu_phys_bits(
    max_leaf: CpuidLeaf,
    encryption_leaf: CpuidLeaf,
    address_size_leaf: CpuidLeaf,
) -> (bits: u8)
    requires
        supports_address_size_leaf(max_leaf) ==> spec_encryption_reduction(
            max_leaf,
            encryption_leaf,
        ) <= raw_phys_bits(address_size_leaf),
    ensures
        bits == spec_phys_bits(max_leaf, encryption_leaf, address_size_leaf),
{
    let reduced: u32 = if max_leaf.eax >= 0x8000_001f
        && max_leaf.ebx == 0x6874_7541
        && max_leaf.ecx == 0x444d_4163
        && max_leaf.edx == 0x6974_6e65
        && encryption_leaf.eax & 0x1 != 0
    {
        (encryption_leaf.ebx >> 6) & 0x3f
    } else {
        0
    };

    if max_leaf.eax >= 0x8000_0008 {
        let eax: u32 = address_size_leaf.eax;
        let raw: u32 = eax & 0xff;
        proof {
            assert(eax & 0xffu32 <= 0xffu32) by (bit_vector);
        }
        (raw - reduced) as u8
    } else {
        36
    }
}

/// Law: an AMD CPU with the memory-encryption feature enabled yields the raw
/// bit count minus the reduction field; a non-AMD CPU or a disabled feature
/// yields the raw count unchanged; a CPU without the address-size leaf
/// yields the 36-bit default.
pub proof fn lemma_phys_bits_cases(
    max_leaf: CpuidLeaf,
    encryption_leaf: CpuidLeaf,
    address_size_leaf: CpuidLeaf,
)
    ensures
        supports_address_size_leaf(max_leaf) && supports_encryption_leaf(max_leaf)
            && is_amd_vendor(max_leaf) && encryption_enabled(encryption_leaf)
            ==> spec_phys_bits(max_leaf, encryption_leaf, address_size_leaf)
                == raw_phys_bits(address_size_leaf) - reduction_field(encryption_leaf),
        supports_address_size_leaf(max_leaf) && !(supports_encryption_leaf(max_leaf)
            && is_amd_vendor(max_leaf) && encryption_enabled(encryption_leaf))
            ==> spec_phys_bits(max_leaf, encryption_leaf, address_size_leaf)
                == raw_phys_bits(address_size_leaf),
        !supports_address_size_leaf(max_leaf)
            ==> spec_phys_bits(max_leaf, encryption_leaf, address_size_leaf) == 36,
{
}

} // verus!
