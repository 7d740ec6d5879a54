//! Software generated interrupts of the GICv3: the value written to
//! `ICC_SGI1R_EL1` to send one.

use vstd::prelude::*;

verus! {

/// The `ICC_SGI1R_EL1` value that sends SGI `vector` (its low four bits) to
/// the CPU `target` of the affinity group `aff3.aff2.aff1`, or, with
/// `to_all`, to every CPU but the sender: the INTID in bits 24..28, the
/// target list from bit 0, the affinities at bits 16, 32 and 48, and the
/// routing mode at bit 40.
pub open spec fn sgi1r_spec(aff3: u8, aff2: u8, aff1: u8, target: u8, vector: usize, to_all: bool) -> u64 {
    ((vector as u64 & 0xf) << 24u64) | (1u64 << target) | ((aff1 as u64) << 16u64) | ((aff2 as u64)
        << 32u64) | ((aff3 as u64) << 48u64) | ((if to_all {
        1u64
    } else {
        0u64
    }) << 40u64)
}

/// The `ICC_SGI1R_EL1` value of the given fields. The target is a bit
/// position of the 64-bit register: a larger one overflows the shift.
pub fn sgi1r_value(aff3: u8, aff2: u8, aff1: u8, target: u8, vector: usize, to_all: bool) -> (value:
    u64)
    requires
        target < 64,
    ensures
        value == sgi1r_spec(aff3, aff2, aff1, target, vector, to_all),
{
    let routing: u64 = if to_all {
        1
    } else {
        0
    };
    ((vector as u64 & 0xf) << 24u64) | (1u64 << target) | ((aff1 as u64) << 16u64) | ((aff2 as u64)
        << 32u64) | ((aff3 as u64) << 48u64) | (routing << 40u64)
}

/// The value that sends SGI `vector` to CPU `dest` under the default
/// affinity scheme 0.0.0.x. `dest` is taken modulo 256, and must then name a
/// bit of the register.
pub fn sgi_one_value(dest: usize, vector: usize) -> (value: u64)
    requires
        (dest as u8) < 64,
    ensures
        value == sgi1r_spec(0, 0, 0, dest as u8, vector, false),
{
    sgi1r_value(0, 0, 0, dest as u8, vector, false)
}

/// The value that broadcasts SGI `vector` to all CPUs.
pub fn sgi_all_value(vector: usize) -> (value: u64)
    ensures
        value == sgi1r_spec(0, 0, 0, 0, vector, true),
{
    sgi1r_value(0, 0, 0, 0, vector, true)
}

/// The fields of an SGI value read back as they were written, as long as the
/// target stays within the target list (bits 0..16): the target list holds
/// just the target's bit, the INTID is the vector's low four bits, each
/// affinity and the routing mode sit in their fields, and the reserved bits
/// are clear.
pub proof fn law_sgi_fields(aff3: u8, aff2: u8, aff1: u8, target: u8, vector: usize, to_all: bool)
    requires
        target < 16,
    ensures
        ({
            let v = sgi1r_spec(aff3, aff2, aff1, target, vector, to_all);
            &&& v & 0xffff == 1u64 << target
            &&& (v >> 16u64) & 0xff == aff1 as u64
            &&& (v >> 24u64) & 0xf == vector as u64 & 0xf
            &&& (v >> 28u64) & 0xf == 0
            &&& (v >> 32u64) & 0xff == aff2 as u64
            &&& (v >> 40u64) & 1 == (if to_all {
                1u64
            } else {
                0u64
            })
            &&& (v >> 41u64) & 0x7f == 0
            &&& (v >> 48u64) & 0xff == aff3 as u64
            &&& v >> 56u64 == 0
        }),
{
    let a3 = aff3 as u64;
    let a2 = aff2 as u64;
    let a1 = aff1 as u64;
    let t = target as u64;
    let vec = vector as u64;
    let r: u64 = if to_all {
        1u64
    } else {
        0u64
    };
    assert({
        let v = ((vec & 0xf) << 24u64) | (1u64 << t) | (a1 << 16u64) | (a2 << 32u64) | (a3 << 48u64)
            | (r << 40u64);
        &&& v & 0xffff == 1u64 << t
        &&& (v >> 16u64) & 0xff == a1
        &&& (v >> 24u64) & 0xf == vec & 0xf
        &&& (v >> 28u64) & 0xf == 0
        &&& (v >> 32u64) & 0xff == a2
        &&& (v >> 40u64) & 1 == r
        &&& (v >> 41u64) & 0x7f == 0
        &&& (v >> 48u64) & 0xff == a3
        &&& v >> 56u64 == 0
    }) by (bit_vector)
        requires
            t < 16,
            a1 < 256,
            a2 < 256,
            a3 < 256,
            r < 2,
    ;
}

} // verus!
