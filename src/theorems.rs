//! Facts about running instructions, stated over the cycle function `next`.
use vstd::prelude::*;
use crate::bits::sign_extended;
use crate::engine::{fetched, next};
use crate::instr::{decoded, lemma_decoded_in_range, Instr};
use crate::machine::{flag_of, MachineView, FLAG_N, FLAG_P, FLAG_Z, KBDR, KBSR};

verus! {

/// The register that an instruction writes and sets the condition code
/// from, for the instructions that set it.
pub open spec fn flag_target(i: Instr) -> Option<u16> {
    match i {
        Instr::Add { dr, .. }
        | Instr::And { dr, .. }
        | Instr::Not { dr, .. }
        | Instr::Ld { dr, .. }
        | Instr::Ldr { dr, .. }
        | Instr::Ldi { dr, .. }
        | Instr::Lea { dr, .. } => Some(dr),
        _ => None,
    }
}

/// After an instruction that sets the condition code, exactly one of N, Z
/// and P is set, and it describes the new value of the destination
/// register: N when bit 15 is one, Z when the value is zero, P otherwise.
pub proof fn condition_code_after_flag_setting(s: MachineView, key: Option<u8>, dr: u16)
    requires
        s.wf(),
        flag_target(decoded(fetched(s, key))) == Some(dr),
    ensures
        ({
            let t = next(s, key).0;
            &&& t.cc == flag_of(t.r(dr))
            &&& t.cc == FLAG_N || t.cc == FLAG_Z || t.cc == FLAG_P
            &&& (t.cc == FLAG_N <==> t.r(dr) >= 0x8000)
            &&& (t.cc == FLAG_Z <==> t.r(dr) == 0)
            &&& (t.cc == FLAG_P <==> (t.r(dr) != 0 && t.r(dr) < 0x8000))
        }),
{
    lemma_decoded_in_range(fetched(s, key));
}

/// An instruction that does not set the condition code leaves it as it was.
pub proof fn condition_code_kept(s: MachineView, key: Option<u8>)
    requires
        s.wf(),
        flag_target(decoded(fetched(s, key))) is None,
    ensures
        next(s, key).0.cc == s.cc,
{
}

/// Whether an instruction writes to memory.
pub open spec fn is_store(i: Instr) -> bool {
    i is St || i is Str || i is Sti
}

/// Outside the two keyboard registers, only the store instructions change
/// memory.
pub proof fn memory_kept_by_non_stores(s: MachineView, key: Option<u8>, a: u16)
    requires
        s.wf(),
        !is_store(decoded(fetched(s, key))),
        a != KBSR,
        a != KBDR,
    ensures
        next(s, key).0.word(a) == s.word(a),
{
}

/// A fetch from the keyboard status register yields `0x8000` (a reserved
/// opcode) or zero (a branch that never jumps).
proof fn lemma_fetch_at_status(s: MachineView, key: Option<u8>)
    requires
        s.wf(),
        s.pc == KBSR,
    ensures
        decoded(fetched(s, key)) is Reserved || decoded(fetched(s, key)) == (Instr::Br { mask: 0, offset: 0 }),
{
    assert(0x8000u16 >> 12 == 8 && 0u16 >> 12 == 0 && (0u16 >> 9) & 7 == 0) by (bit_vector);
    assert(0u16 & 0x1FF == 0 && sign_extended(0, 9) == 0) by (bit_vector);
}

/// A word stored by `St` is read back by a following `Ld` that resolves the
/// same address, unless that address is the keyboard status register,
/// whose reads poll the console.
pub proof fn store_then_load(
    s: MachineView,
    k1: Option<u8>,
    k2: Option<u8>,
    sr: u16,
    o1: u16,
    dr: u16,
    o2: u16,
)
    requires
        s.wf(),
        decoded(fetched(s, k1)) == (Instr::St { sr, offset: o1 }),
        decoded(fetched(next(s, k1).0, k2)) == (Instr::Ld { dr, offset: o2 }),
        s.pc.wrapping_add(1).wrapping_add(o1) == next(s, k1).0.pc.wrapping_add(1).wrapping_add(o2),
        s.pc.wrapping_add(1).wrapping_add(o1) != KBSR,
    ensures
        next(s, k1).0.pc == s.pc.wrapping_add(1),
        next(next(s, k1).0, k2).0.r(dr) == s.r(sr),
{
    lemma_decoded_in_range(fetched(s, k1));
    lemma_decoded_in_range(fetched(next(s, k1).0, k2));
    if s.pc == KBSR {
        lemma_fetch_at_status(s, k1);
    }
    if next(s, k1).0.pc == KBSR {
        lemma_fetch_at_status(next(s, k1).0, k2);
    }
}

/// With a pointer `p` written at `a` and a word `x` written at `p`, an `Ldi`
/// whose offset resolves to `a` loads `x`, unless the two addresses are one
/// or either is the keyboard status register.
pub proof fn load_indirect(
    s: MachineView,
    key: Option<u8>,
    a: u16,
    p: u16,
    x: u16,
    dr: u16,
    offset: u16,
)
    requires
        s.wf(),
        a != p,
        a != KBSR,
        p != KBSR,
        decoded(fetched(s.with_mem(a, p).with_mem(p, x), key)) == (Instr::Ldi { dr, offset }),
        s.pc.wrapping_add(1).wrapping_add(offset) == a,
    ensures
        next(s.with_mem(a, p).with_mem(p, x), key).0.r(dr) == x,
{
    lemma_decoded_in_range(fetched(s.with_mem(a, p).with_mem(p, x), key));
    if s.pc == KBSR {
        lemma_fetch_at_status(s.with_mem(a, p).with_mem(p, x), key);
    }
}

/// With the condition code at Z, a branch whose mask holds Z moves the
/// program counter by its offset from the following word; one whose mask
/// does not leaves it at the following word.
pub proof fn branch_on_zero(s: MachineView, key: Option<u8>, mask: u16, offset: u16)
    requires
        s.wf(),
        s.cc == FLAG_Z,
        decoded(fetched(s, key)) == (Instr::Br { mask, offset }),
    ensures
        mask & FLAG_Z != 0 ==> next(s, key).0.pc == s.pc.wrapping_add(1).wrapping_add(offset),
        mask & FLAG_Z == 0 ==> next(s, key).0.pc == s.pc.wrapping_add(1),
{
}

/// A subroutine call saves the address of the word after it in R7, and a
/// jump through R7 then comes back to that address.
pub proof fn call_then_return(s: MachineView, k1: Option<u8>, k2: Option<u8>)
    requires
        s.wf(),
        decoded(fetched(s, k1)) is Jsr || decoded(fetched(s, k1)) is Jsrr,
        decoded(fetched(next(s, k1).0, k2)) == (Instr::Jmp { base: 7 }),
    ensures
        next(s, k1).0.r(7) == s.pc.wrapping_add(1),
        next(next(s, k1).0, k2).0.pc == s.pc.wrapping_add(1),
{
    lemma_decoded_in_range(fetched(s, k1));
}

} // verus!
