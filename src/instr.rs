//! Instruction words and their decoding.
use vstd::prelude::*;
use crate::bits::{sext, sign_extended};

verus! {

/// The second operand of `Add` and `And`.
#[derive(Clone, Copy, Debug, PartialEq, Eq, Structural)]
pub enum Operand {
    /// A register number.
    Reg(u16),
    /// A sign-extended 5-bit immediate.
    Imm(u16),
}

/// A decoded instruction. Register fields hold register numbers below 8;
/// offset fields hold the sign-extended offset as a 16-bit word.
#[derive(Clone, Copy, Debug, PartialEq, Eq, Structural)]
pub enum Instr {
    /// Branch by `offset` when `mask` shares a bit with the condition code.
    Br { mask: u16, offset: u16 },
    Add { dr: u16, sr1: u16, src: Operand },
    Ld { dr: u16, offset: u16 },
    St { sr: u16, offset: u16 },
    /// Call relative to the program counter.
    Jsr { offset: u16 },
    /// Call through a base register.
    Jsrr { base: u16 },
    And { dr: u16, sr1: u16, src: Operand },
    Ldr { dr: u16, base: u16, offset: u16 },
    Str { sr: u16, base: u16, offset: u16 },
    Not { dr: u16, sr: u16 },
    Ldi { dr: u16, offset: u16 },
    Sti { sr: u16, offset: u16 },
    Jmp { base: u16 },
    Lea { dr: u16, offset: u16 },
    /// A console service, selected by the low 8 bits of the word.
    Trap { vector: u16 },
    /// Opcodes `0b1000` and `0b1101`, which have no meaning.
    Reserved,
}

/// Operation code: the top 4 bits.
pub open spec fn opcode(w: u16) -> u16 {
    w >> 12
}

/// Register field at bits 11..9.
pub open spec fn field_hi(w: u16) -> u16 {
    (w >> 9) & 7
}

/// Register field at bits 8..6.
pub open spec fn field_mid(w: u16) -> u16 {
    (w >> 6) & 7
}

/// Register field at bits 2..0.
pub open spec fn field_lo(w: u16) -> u16 {
    w & 7
}

/// Offset of `Br`, `Ld`, `St`, `Ldi`, `Sti` and `Lea`: bits 8..0.
pub open spec fn offset9(w: u16) -> u16 {
    sign_extended(w & 0x1FF, 9)
}

/// Offset of `Ldr` and `Str`: bits 5..0.
pub open spec fn offset6(w: u16) -> u16 {
    sign_extended(w & 0x3F, 6)
}

/// Offset of `Jsr`: bits 10..0.
pub open spec fn offset11(w: u16) -> u16 {
    sign_extended(w & 0x7FF, 11)
}

/// Second operand of `Add` and `And`: an immediate when bit 5 is set.
pub open spec fn operand_of(w: u16) -> Operand {
    if (w >> 5) & 1 == 1 {
        Operand::Imm(sign_extended(w & 0x1F, 5))
    } else {
        Operand::Reg(field_lo(w))
    }
}

/// The instruction that the word `w` encodes.
pub open spec fn decoded(w: u16) -> Instr {
    let op = opcode(w);
    if op == 0 {
        Instr::Br { mask: field_hi(w), offset: offset9(w) }
    } else if op == 1 {
        Instr::Add { dr: field_hi(w), sr1: field_mid(w), src: operand_of(w) }
    } else if op == 2 {
        Instr::Ld { dr: field_hi(w), offset: offset9(w) }
    } else if op == 3 {
        Instr::St { sr: field_hi(w), offset: offset9(w) }
    } else if op == 4 {
        if (w >> 11) & 1 == 1 {
            Instr::Jsr { offset: offset11(w) }
        } else {
            Instr::Jsrr { base: field_mid(w) }
        }
    } else if op == 5 {
        Instr::And { dr: field_hi(w), sr1: field_mid(w), src: operand_of(w) }
    } else if op == 6 {
        Instr::Ldr { dr: field_hi(w), base: field_mid(w), offset: offset6(w) }
    } else if op == 7 {
        Instr::Str { sr: field_hi(w), base: field_mid(w), offset: offset6(w) }
    } else if op == 9 {
        Instr::Not { dr: field_hi(w), sr: field_mid(w) }
    } else if op == 10 {
        Instr::Ldi { dr: field_hi(w), offset: offset9(w) }
    } else if op == 11 {
        Instr::Sti { sr: field_hi(w), offset: offset9(w) }
    } else if op == 12 {
        Instr::Jmp { base: field_mid(w) }
    } else if op == 14 {
        Instr::Lea { dr: field_hi(w), offset: offset9(w) }
    } else if op == 15 {
        Instr::Trap { vector: w & 0xFF }
    } else {
        Instr::Reserved
    }
}

/// Every register number in `i` is below 8.
pub open spec fn registers_in_range(i: Instr) -> bool {
    match i {
        Instr::Add { dr, sr1, src } | Instr::And { dr, sr1, src } => {
            dr < 8 && sr1 < 8 && match src {
                Operand::Reg(r) => r < 8,
                Operand::Imm(_) => true,
            }
        },
        Instr::Ld { dr, .. } | Instr::Ldi { dr, .. } | Instr::Lea { dr, .. } => dr < 8,
        Instr::St { sr, .. } | Instr::Sti { sr, .. } => sr < 8,
        Instr::Jsrr { base } | Instr::Jmp { base } => base < 8,
        Instr::Ldr { dr, base, .. } => dr < 8 && base < 8,
        Instr::Str { sr, base, .. } => sr < 8 && base < 8,
        Instr::Not { dr, sr } => dr < 8 && sr < 8,
        _ => true,
    }
}

proof fn lemma_fields_in_range(w: u16)
    ensures
        field_hi(w) < 8,
        field_mid(w) < 8,
        field_lo(w) < 8,
        opcode(w) < 16,
{
    assert(field_hi(w) < 8 && field_mid(w) < 8 && field_lo(w) < 8 && opcode(w) < 16)
        by (bit_vector);
}

/// Every register number that decoding yields is below 8.
pub proof fn lemma_decoded_in_range(w: u16)
    ensures
        registers_in_range(decoded(w)),
{
    lemma_fields_in_range(w);
}

/// Decodes one instruction word.
pub fn decode(w: u16) -> (i: Instr)
    ensures
        i == decoded(w),
        registers_in_range(i),
{
    proof {
        lemma_fields_in_range(w);
    }
    let op = w >> 12;
    let hi = (w >> 9) & 7;
    let mid = (w >> 6) & 7;
    let imm = (w >> 5) & 1 == 1;
    let src = if imm {
        Operand::Imm(sext(w & 0x1F, 5))
    } else {
        Operand::Reg(w & 7)
    };
    match op {
        0 => Instr::Br { mask: hi, offset: sext(w & 0x1FF, 9) },
        1 => Instr::Add { dr: hi, sr1: mid, src },
        2 => Instr::Ld { dr: hi, offset: sext(w & 0x1FF, 9) },
        3 => Instr::St { sr: hi, offset: sext(w & 0x1FF, 9) },
        4 => {
            if (w >> 11) & 1 == 1 {
                Instr::Jsr { offset: sext(w & 0x7FF, 11) }
            } else {
                Instr::Jsrr { base: mid }
            }
        },
        5 => Instr::And { dr: hi, sr1: mid, src },
        6 => Instr::Ldr { dr: hi, base: mid, offset: sext(w & 0x3F, 6) },
        7 => Instr::Str { sr: hi, base: mid, offset: sext(w & 0x3F, 6) },
        9 => Instr::Not { dr: hi, sr: mid },
        10 => Instr::Ldi { dr: hi, offset: sext(w & 0x1FF, 9) },
        11 => Instr::Sti { sr: hi, offset: sext(w & 0x1FF, 9) },
        12 => Instr::Jmp { base: mid },
        14 => Instr::Lea { dr: hi, offset: sext(w & 0x1FF, 9) },
        15 => Instr::Trap { vector: w & 0xFF },
        _ => Instr::Reserved,
    }
}

} // verus!
