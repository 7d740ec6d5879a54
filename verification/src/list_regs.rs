//! Injection of virtual interrupts through the GICv3 list registers
//! (`ICH_LR<n>_EL2`): which list register takes the interrupt, and the value
//! written to it.

use vstd::prelude::*;

verus! {

/// The number of list registers that `ICH_VTR_EL2` announces: its field
/// `ListRegs` (bits 0..4) plus one.
pub open spec fn lr_count(vtr: u64) -> nat {
    ((vtr & 0xf) + 1) as nat
}

/// Whether list register `i` is free by `ICH_ELRSR_EL2`: its bit `i` is set.
pub open spec fn lr_is_free(elsr: u64, i: nat) -> bool {
    (elsr >> i) & 1 == 1
}

/// The list register that takes a new virtual interrupt: the lowest free
/// one among those that `vtr` announces, if any is free.
pub open spec fn first_free_lr(elsr: u64, vtr: u64) -> Option<nat> {
    if exists|i: nat| i < lr_count(vtr) && lr_is_free(elsr, i) {
        Some(choose|i: nat| i < lr_count(vtr) && lr_is_free(elsr, i) && forall|j: nat| j < i ==> !lr_is_free(elsr, j))
    } else {
        None
    }
}

/// The list register value that makes `vector` a pending group 1 virtual
/// interrupt: the INTID in the low bits, `Group` (bit 60) and the pending
/// `State` (bit 62) set.
pub open spec fn pending_lr_spec(vector: usize) -> u64 {
    vector as u64 | (1u64 << 60u64) | (1u64 << 62u64)
}

/// The mask of the virtual INTID field of a list register.
pub const LR_VIRTIRQ_MASK: u64 = 0xffff_ffff;

/// A value written for a vector that fits the INTID field reads back as that
/// vector, in group 1, pending and not active, and not linked to a hardware
/// interrupt.
pub proof fn law_pending_lr_fields(vector: usize)
    requires
        vector <= LR_VIRTIRQ_MASK,
    ensures
        ({
            let v = pending_lr_spec(vector);
            &&& v & LR_VIRTIRQ_MASK == vector as u64
            &&& (v >> 60u64) & 1 == 1
            &&& (v >> 61u64) & 1 == 0
            &&& v >> 62u64 == 1
        }),
{
    let x = vector as u64;
    assert({
        let v = x | (1u64 << 60u64) | (1u64 << 62u64);
        &&& v & 0xffff_ffff == x
        &&& (v >> 60u64) & 1 == 1
        &&& (v >> 61u64) & 1 == 0
        &&& v >> 62u64 == 1
    }) by (bit_vector)
        requires
            x <= 0xffff_ffff,
    ;
}

/// A plan is made exactly when some list register that `vtr` announces is
/// free, and the register it names is one of the (at most sixteen) list
/// registers.
pub proof fn law_first_free_lr(elsr: u64, vtr: u64)
    ensures
        first_free_lr(elsr, vtr) is Some <==> exists|i: nat| i < lr_count(vtr) && lr_is_free(elsr, i),
        lr_count(vtr) <= 16,
        first_free_lr(elsr, vtr) matches Some(i) ==> i < lr_count(vtr) && lr_is_free(elsr, i),
{
    assert(vtr & 0xf <= 0xf) by (bit_vector);
    if exists|i: nat| i < lr_count(vtr) && lr_is_free(elsr, i) {
        let w = choose|i: nat| i < lr_count(vtr) && lr_is_free(elsr, i);
        let m = lemma_least_free(elsr, vtr, w);
        lemma_first_free_unique(elsr, vtr, m);
    }
}

/// Below any free list register lies a least one.
proof fn lemma_least_free(elsr: u64, vtr: u64, w: nat) -> (m: nat)
    requires
        w < lr_count(vtr),
        lr_is_free(elsr, w),
    ensures
        m <= w,
        lr_is_free(elsr, m),
        forall|j: nat| j < m ==> !lr_is_free(elsr, j),
    decreases w,
{
    if exists|j: nat| j < w && lr_is_free(elsr, j) {
        let j = choose|j: nat| j < w && lr_is_free(elsr, j);
        lemma_least_free(elsr, vtr, j)
    } else {
        w
    }
}

/// Bit `i` of `elsr` tested by a mask, as the free-register scan tests it.
proof fn lemma_bit_test(elsr: u64, i: u64)
    requires
        i < 64,
    ensures
        ((1u64 << i) & elsr > 0) == ((elsr >> i) & 1 == 1),
{
    assert(((1u64 << i) & elsr > 0) == ((elsr >> i) & 1 == 1)) by (bit_vector)
        requires
            i < 64,
    ;
}

/// The lowest free list register among those that `vtr` announces, by the
/// empty-register status `elsr`; `None` when every one is in use.
pub fn free_list_register(elsr: u64, vtr: u64) -> (lr: Option<usize>)
    ensures
        match lr {
            Some(i) => i < lr_count(vtr) && lr_is_free(elsr, i as nat) && forall|j: nat|
                j < i ==> !lr_is_free(elsr, j),
            None => forall|j: nat| j < lr_count(vtr) ==> !lr_is_free(elsr, j),
        },
{
    let field: u64 = vtr & 0xf;
    assert(field <= 0xf) by (bit_vector)
        requires
            field == vtr & 0xf,
    ;
    let lr_num: usize = (field + 1) as usize;
    let mut i: usize = 0;
    while i < lr_num
        invariant
            lr_num == lr_count(vtr),
            lr_num <= 16,
            i <= lr_num,
            forall|j: nat| j < i ==> !lr_is_free(elsr, j),
        decreases lr_num - i,
    {
        proof {
            lemma_bit_test(elsr, i as u64);
        }
        if (1u64 << (i as u64)) & elsr > 0 {
            return Some(i);
        }
        i = i + 1;
    }
    None
}

/// The list register value that injects `vector` as a pending group 1
/// virtual interrupt (hardware interrupts are not linked).
pub fn pending_lr_value(vector: usize) -> (value: u64)
    ensures
        value == pending_lr_spec(vector),
        value & 0x5000_0000_0000_0000 == 0x5000_0000_0000_0000,
        value & !0x5000_0000_0000_0000u64 == vector as u64 & !0x5000_0000_0000_0000u64,
{
    proof {
        law_pending_lr_sets_only_group_and_pending(vector);
    }
    let mut value: u64 = vector as u64;
    value = value | (1u64 << 60u64);
    value = value | (1u64 << 62u64);
    value
}

/// The value sets the group bit (60) and the pending bit (62) and, apart
/// from them, holds exactly the bits of the vector: no other bit (no
/// maintenance request, priority, hardware link or physical INTID) is set
/// that the vector does not set. For a vector that fits the INTID field it
/// is the vector plus the two bits, with bits 32..60 clear.
pub proof fn law_pending_lr_sets_only_group_and_pending(vector: usize)
    ensures
        ({
            let v = pending_lr_spec(vector);
            &&& v & 0x5000_0000_0000_0000 == 0x5000_0000_0000_0000
            &&& v & !0x5000_0000_0000_0000u64 == vector as u64 & !0x5000_0000_0000_0000u64
            &&& vector <= LR_VIRTIRQ_MASK ==> {
                &&& v == vector as u64 + 0x5000_0000_0000_0000
                &&& (v >> 32u64) & 0xfff_ffff == 0
            }
        }),
{
    let x = vector as u64;
    assert({
        let v = x | (1u64 << 60u64) | (1u64 << 62u64);
        &&& v & 0x5000_0000_0000_0000 == 0x5000_0000_0000_0000
        &&& v & !0x5000_0000_0000_0000u64 == x & !0x5000_0000_0000_0000u64
        &&& x <= 0xffff_ffff ==> {
            &&& v == x + 0x5000_0000_0000_0000
            &&& (v >> 32u64) & 0xfff_ffff == 0
        }
    }) by (bit_vector);
}

/// Where and what to write to inject `vector`: the lowest free list
/// register and the pending value; `None` when no list register is free,
/// on which injection fails.
pub fn inject_plan(vector: usize, elsr: u64, vtr: u64) -> (plan: Option<(usize, u64)>)
    ensures
        match plan {
            Some((i, value)) => {
                &&& first_free_lr(elsr, vtr) == Some(i as nat)
                &&& value == pending_lr_spec(vector)
                &&& value & 0x5000_0000_0000_0000 == 0x5000_0000_0000_0000
                &&& value & !0x5000_0000_0000_0000u64 == vector as u64 & !0x5000_0000_0000_0000u64
            },
            None => first_free_lr(elsr, vtr) is None,
        },
{
    match free_list_register(elsr, vtr) {
        Some(i) => {
            proof {
                lemma_first_free_unique(elsr, vtr, i as nat);
            }
            Some((i, pending_lr_value(vector)))
        },
        None => None,
    }
}

/// The lowest free list register is the one that `first_free_lr` names.
proof fn lemma_first_free_unique(elsr: u64, vtr: u64, i: nat)
    requires
        i < lr_count(vtr),
        lr_is_free(elsr, i),
        forall|j: nat| j < i ==> !lr_is_free(elsr, j),
    ensures
        first_free_lr(elsr, vtr) == Some(i),
{
    let k = choose|k: nat| k < lr_count(vtr) && lr_is_free(elsr, k) && forall|j: nat| j < k ==> !lr_is_free(elsr, j);
    assert(k < lr_count(vtr) && lr_is_free(elsr, k) && forall|j: nat| j < k ==> !lr_is_free(elsr, j));
    if k < i {
        assert(!lr_is_free(elsr, k));
    } else if i < k {
        assert(!lr_is_free(elsr, i));
    }
}

} // verus!
