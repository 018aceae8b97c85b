//! Address-space layout planner: places the device area (the MMIO / non-RAM
//! guest-physical range) so it never overlaps guest RAM, bounded above by
//! what the host CPU can physically address.

use vstd::arithmetic::power2::pow2;
use vstd::bits::{lemma_u64_pow2_no_overflow, lemma_u64_shl_is_mul};
use vstd::prelude::*;

verus! {

/// The last guest-physical address the host CPU can address: one below the
/// power of two given by the probed physical address width.
pub open spec fn spec_end_of_device_area(phys_bits: u8) -> int {
    (1u64 << phys_bits) - 1
}

/// Where the device area begins: the fixed 64-bit RAM start when guest RAM
/// ends below the 32-bit reserved boundary (leaving the 32-bit hole to be
/// managed elsewhere), and exactly one byte past the highest RAM address
/// otherwise.
pub open spec fn spec_start_of_device_area(
    mem_end: int,
    mem_32bit_reserved_start: u64,
    ram_64bit_start: u64,
) -> int {
    if mem_end < mem_32bit_reserved_start {
        ram_64bit_start as int
    } else {
        mem_end + 1
    }
}

/// Computes the last addressable guest-physical address for a probed
/// physical address width. The width must be a valid nonzero shift amount
/// for a 64-bit address.
pub fn end_of_device_area_for(phys_bits: u8) -> (end: u64)
    requires
        0 < phys_bits < 64,
    ensures
        end == spec_end_of_device_area(phys_bits),
{
    proof {
        assert(1u64 << phys_bits >= 1u64) by (bit_vector)
            requires
                0 < phys_bits < 64u8,
        ;
    }
    (1u64 << phys_bits) - 1
}

/// Computes where the device area begins, one byte past the end of RAM or
/// at the fixed 64-bit RAM start. RAM must not have consumed the entire
/// address space: that would be an invariant violation, not a recoverable
/// error.
pub fn start_of_device_area_for(
    mem_end: u64,
    mem_32bit_reserved_start: u64,
    ram_64bit_start: u64,
) -> (start: u64)
    requires
        mem_end < mem_32bit_reserved_start || mem_end < u64::MAX,
    ensures
        start == spec_start_of_device_area(
            mem_end as int,
            mem_32bit_reserved_start,
            ram_64bit_start,
        ),
{
    if mem_end < mem_32bit_reserved_start {
        ram_64bit_start
    } else {
        mem_end + 1
    }
}

/// Law: one past the end of the device area is exactly the power of two
/// given by the probed physical address width.
pub proof fn lemma_end_of_device_area_power_of_two(phys_bits: u8)
    requires
        0 < phys_bits < 64,
    ensures
        spec_end_of_device_area(phys_bits) + 1 == pow2(phys_bits as nat),
{
    lemma_u64_pow2_no_overflow(phys_bits as nat);
    lemma_u64_shl_is_mul(1u64, phys_bits as u64);
}

/// Law: the device area never overlaps RAM. For any highest RAM address,
/// the device area either starts strictly above it, or starts at the fixed
/// 64-bit RAM start, which itself lies at or above the 32-bit reserved
/// boundary that RAM ends below in that case.
pub proof fn lemma_device_area_above_ram(
    mem_end: u64,
    mem_32bit_reserved_start: u64,
    ram_64bit_start: u64,
)
    requires
        mem_32bit_reserved_start <= ram_64bit_start,
        mem_end < mem_32bit_reserved_start || mem_end < u64::MAX,
    ensures
        spec_start_of_device_area(mem_end as int, mem_32bit_reserved_start, ram_64bit_start)
            > mem_end,
{
}

} // verus!
