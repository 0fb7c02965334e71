//! Bit fields of 16-bit words.
use vstd::prelude::*;
use vstd::arithmetic::power2::{lemma2_to64, pow2};
use vstd::bits::lemma_u32_shl_is_mul;

verus! {

/// Bit `i` of `v`.
pub open spec fn bit(v: u16, i: u16) -> bool {
    (v >> i) & 1 == 1
}

/// The word whose low `w` bits are set and whose other bits are clear.
pub open spec fn low_mask(w: u16) -> u16 {
    (0xFFFFu16 >> (16 - w) as u16) as u16
}

/// Two's-complement sign extension of the low `w` bits of `x` to 16 bits:
/// the bits below `w` are those of `x`, and every bit from `w` up is a copy
/// of bit `w - 1`.
pub open spec fn sign_extended(x: u16, w: u16) -> u16 {
    if bit(x, (w - 1) as u16) {
        x | !low_mask(w)
    } else {
        x & low_mask(w)
    }
}

/// Sign-extends the `w`-bit field at the bottom of `x` to a 16-bit word.
/// Bits of `x` at position `w` and above are ignored.
pub fn sext(x: u16, w: u16) -> (r: u16)
    requires
        1 <= w <= 16,
    ensures
        r == sign_extended(x, w),
{
    let mask: u16 = 0xFFFFu16 >> (16 - w);
    if (x >> (w - 1)) & 1 == 1 {
        x | !mask
    } else {
        x & mask
    }
}

/// Sign extension keeps the low `w` bits of `v`, and above them holds only
/// ones when bit `w - 1` of `v` is set, only zeros when it is clear.
pub proof fn sign_extend_low_bits(v: u16, w: u16)
    requires
        1 <= w <= 16,
    ensures
        sign_extended(v, w) & low_mask(w) == v & low_mask(w),
        bit(v, (w - 1) as u16) ==> sign_extended(v, w) | low_mask(w) == 0xFFFF,
        !bit(v, (w - 1) as u16) ==> sign_extended(v, w) & !low_mask(w) == 0,
{
    assert(sign_extended(v, w) & low_mask(w) == v & low_mask(w)) by (bit_vector)
        requires 1 <= w <= 16;
    assert(bit(v, (w - 1) as u16) ==> sign_extended(v, w) | low_mask(w) == 0xFFFF) by (bit_vector)
        requires 1 <= w <= 16;
    assert(!bit(v, (w - 1) as u16) ==> sign_extended(v, w) & !low_mask(w) == 0) by (bit_vector)
        requires 1 <= w <= 16;
}

/// The low `w` bits of `x` read as a two's-complement number.
pub open spec fn field_value(x: u16, w: u16) -> int {
    let m = pow2(w as nat) as int;
    let low = x as int % m;
    if 2 * low >= m {
        low - m
    } else {
        low
    }
}

/// Sign extension yields the two's-complement value of the field, as a
/// 16-bit word: negative values wrap to `value + 2^16`.
pub proof fn sign_extended_value(x: u16, w: u16)
    requires
        1 <= w <= 16,
    ensures
        field_value(x, w) >= 0 ==> sign_extended(x, w) as int == field_value(x, w),
        field_value(x, w) < 0 ==> sign_extended(x, w) as int == field_value(x, w) + 0x10000,
{
    lemma2_to64();
    let w32 = w as u32;
    lemma_u32_shl_is_mul(1, w32);
    let m: u32 = 1u32 << w32;
    assert(m == pow2(w as nat));
    let r = sign_extended(x, w);
    assert(r as int == if 2 * ((x as u32) % m) >= m {
        (x as u32) % m + 0x10000 - m
    } else {
        ((x as u32) % m) as int
    }) by (bit_vector)
        requires
            1 <= w <= 16,
            w32 == w,
            m == 1u32 << w32,
            r == sign_extended(x, w),
    ;
}

} // verus!
