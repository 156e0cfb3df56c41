use vstd::prelude::*;

verus! {

// Operand values are held in a u16; in 8-bit width only the low byte is used.

/// The number of distinct values of the width.
pub open spec fn modulus(wide: bool) -> int {
    if wide { 0x10000 } else { 0x100 }
}

/// A value fits the width.
pub open spec fn fits(v: u16, wide: bool) -> bool {
    wide || v < 0x100
}

/// Reduction modulo the width.
pub open spec fn wrap(x: int, wide: bool) -> int {
    if wide { x % 0x10000 } else { x % 0x100 }
}

pub open spec fn sign_bit(wide: bool) -> u16 {
    if wide { 0x8000 } else { 0x80 }
}

pub open spec fn is_negative(v: u16, wide: bool) -> bool {
    v & sign_bit(wide) != 0
}

/// Bit 6 of a byte, bit 14 of a word.
pub open spec fn is_overflow(v: u16, wide: bool) -> bool {
    v & (if wide { 0x4000u16 } else { 0x40u16 }) != 0
}

pub open spec fn bit(b: bool) -> int {
    if b { 1 } else { 0 }
}

/// Binary add with carry: result, carry out, signed overflow.
#[verifier::opaque]
pub open spec fn adc(l: u16, r: u16, c: bool, wide: bool) -> (u16, bool, bool) {
    let sum = l as int + r as int + bit(c);
    let res = wrap(sum, wide) as u16;
    (res, sum >= modulus(wide), is_negative(!(l ^ r) & (r ^ res), wide))
}

/// Binary subtract with borrow (carry set means no borrow): result, carry out, signed overflow.
#[verifier::opaque]
pub open spec fn sbc(l: u16, r: u16, c: bool, wide: bool) -> (u16, bool, bool) {
    let diff = l as int - r as int - (1 - bit(c));
    let res = wrap(diff + modulus(wide), wide) as u16;
    (res, diff >= 0, is_negative((l ^ r) & (l ^ res), wide))
}

/// Wrapping addition in the width.
pub open spec fn add_w(l: u16, r: int, wide: bool) -> u16 {
    wrap(l as int + r + modulus(wide), wide) as u16
}

pub fn mask_of(wide: bool) -> (r: u16)
    ensures
        r as int == modulus(wide) - 1,
{
    if wide { 0xFFFF } else { 0xFF }
}

pub fn negative(v: u16, wide: bool) -> (r: bool)
    ensures
        r == is_negative(v, wide),
{
    if wide { v & 0x8000 != 0 } else { v & 0x80 != 0 }
}

pub fn overflow_bit(v: u16, wide: bool) -> (r: bool)
    ensures
        r == is_overflow(v, wide),
{
    v & (if wide { 0x4000u16 } else { 0x40u16 }) != 0
}

pub fn add_with_carry(l: u16, r: u16, c: bool, wide: bool) -> (out: (u16, bool, bool))
    requires
        fits(l, wide),
        fits(r, wide),
    ensures
        out == adc(l, r, c, wide),
        fits(out.0, wide),
{
    reveal(adc);
    let sum: u32 = l as u32 + r as u32 + if c { 1u32 } else { 0u32 };
    let m: u32 = mask_of(wide) as u32 + 1;
    let res: u16 = (sum % m) as u16;
    (res, sum >= m, negative(!(l ^ r) & (r ^ res), wide))
}

pub fn subtract_with_carry(l: u16, r: u16, c: bool, wide: bool) -> (out: (u16, bool, bool))
    requires
        fits(l, wide),
        fits(r, wide),
    ensures
        out == sbc(l, r, c, wide),
        fits(out.0, wide),
{
    reveal(sbc);
    let m: u32 = mask_of(wide) as u32 + 1;
    let sub: u32 = r as u32 + if c { 0u32 } else { 1u32 };
    let ok = l as u32 >= sub;
    let res: u16 = ((l as u32 + m - sub) % m) as u16;
    (res, ok, negative((l ^ r) & (l ^ res), wide))
}

/// Wrapping increment or decrement by one in the width.
pub fn step(v: u16, up: bool, wide: bool) -> (r: u16)
    requires
        fits(v, wide),
    ensures
        r == add_w(v, if up { 1 } else { -1 }, wide),
        fits(r, wide),
{
    let m: u32 = mask_of(wide) as u32 + 1;
    if up {
        ((v as u32 + 1) % m) as u16
    } else {
        ((v as u32 + m - 1) % m) as u16
    }
}

/// Shift left by one: result and the bit shifted out.
pub open spec fn shl(v: u16, fill: bool, wide: bool) -> (u16, bool) {
    (wrap((v as int) * 2 + bit(fill), wide) as u16, is_negative(v, wide))
}

/// Shift right by one: result and the bit shifted out.
pub open spec fn shr(v: u16, fill: bool, wide: bool) -> (u16, bool) {
    (((v as int) / 2 + bit(fill) * (modulus(wide) / 2)) as u16, v as int % 2 == 1)
}

pub fn shift_left(v: u16, fill: bool, wide: bool) -> (out: (u16, bool))
    requires
        fits(v, wide),
    ensures
        out == shl(v, fill, wide),
        fits(out.0, wide),
{
    let m: u32 = mask_of(wide) as u32 + 1;
    let res: u16 = ((v as u32 * 2 + if fill { 1u32 } else { 0u32 }) % m) as u16;
    (res, negative(v, wide))
}

pub fn shift_right(v: u16, fill: bool, wide: bool) -> (out: (u16, bool))
    requires
        fits(v, wide),
    ensures
        out == shr(v, fill, wide),
        fits(out.0, wide),
{
    let half: u16 = if wide { 0x8000 } else { 0x80 };
    let res: u16 = v / 2 + if fill { half } else { 0 };
    (res, v % 2 == 1)
}

/// Binary add then subtract of the same operand gives the first operand back;
/// the second carry is the complement of the first and the overflow flags agree.
pub proof fn lemma_adc_sbc_round_trip(a: u16, b: u16, wide: bool)
    requires
        fits(a, wide),
        fits(b, wide),
    ensures
        sbc(adc(a, b, false, wide).0, b, true, wide).0 == a,
        sbc(adc(a, b, false, wide).0, b, true, wide).1 == !adc(a, b, false, wide).1,
        sbc(adc(a, b, false, wide).0, b, true, wide).2 == adc(a, b, false, wide).2,
{
    reveal(adc);
    reveal(sbc);
    let r = adc(a, b, false, wide).0;
    if wide {
        assert(((!(a ^ b) & (b ^ r)) & 0x8000 != 0) == (((r ^ b) & (r ^ a)) & 0x8000 != 0))
            by (bit_vector);
    } else {
        assert(((!(a ^ b) & (b ^ r)) & 0x80 != 0) == (((r ^ b) & (r ^ a)) & 0x80 != 0))
            by (bit_vector);
    }
}

} // verus!
