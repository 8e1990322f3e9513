//! Add and subtract with carry, binary and decimal, at 8 and 16 bits.
//!
//! Decimal arithmetic works one 4-bit digit group at a time, least significant
//! first: each group is folded onto the corrected sum of the groups below it,
//! and a group that left the decimal range is corrected by six before the next
//! one is folded in. The overflow flag comes from the sum before the final
//! correction of the top group, as on the hardware.
use vstd::prelude::*;

verus! {

/// Outcome of an 8-bit add or subtract.
#[derive(Clone, Copy, Debug, PartialEq, Eq)]
pub struct Sum8 {
    pub value: u8,
    pub carry: bool,
    pub overflow: bool,
}

/// Outcome of a 16-bit add or subtract.
#[derive(Clone, Copy, Debug, PartialEq, Eq)]
pub struct Sum16 {
    pub value: u16,
    pub carry: bool,
    pub overflow: bool,
}

pub open spec fn carry_in(c: bool) -> int {
    if c {
        1
    } else {
        0
    }
}

/// The digit group of `x` whose lowest place is `unit` (1, 0x10, 0x100 or 0x1000),
/// left in place: `x & (0xf * unit)`.
#[verifier::inline]
pub open spec fn digit_group(x: int, unit: int) -> int {
    x % (16 * unit) - x % unit
}

/// Adds digit group `unit` of both operands to `below`, the corrected sum of the
/// groups under it: a carry out of `below` moves up, its digits stay.
#[verifier::inline]
pub open spec fn fold_group(a: int, b: int, below: int, unit: int) -> int {
    digit_group(a, unit) + digit_group(b, unit) + (if below >= unit {
        unit
    } else {
        0
    }) + below % unit
}

/// Correction after adding: a group sum past nine skips the six codes that are no digit.
#[verifier::inline]
pub open spec fn carry_fix(s: int, unit: int) -> int {
    if s >= 10 * unit {
        s + 6 * unit
    } else {
        s
    }
}

/// Correction after subtracting: a group that borrowed (did not carry out) drops
/// six codes, wrapping around `modulus`, the size of the register that holds the sum.
#[verifier::inline]
pub open spec fn borrow_fix(s: int, unit: int, modulus: int) -> int {
    if s >= 16 * unit {
        s
    } else if s >= 6 * unit {
        s - 6 * unit
    } else {
        s - 6 * unit + modulus
    }
}

pub open spec fn sign8(x: int) -> bool {
    x % 0x100 >= 0x80
}

pub open spec fn sign16(x: int) -> bool {
    x % 0x10000 >= 0x8000
}

/// Signed overflow: both operands have one sign and the result has the other.
pub open spec fn overflow8(a: int, b: int, result: int) -> bool {
    sign8(a) == sign8(b) && sign8(a) != sign8(result)
}

pub open spec fn overflow16(a: int, b: int, result: int) -> bool {
    sign16(a) == sign16(b) && sign16(a) != sign16(result)
}

/// 8-bit add-with-carry before the final decimal correction.
pub open spec fn adc8_raw(a: u8, b: u8, c: bool, decimal: bool) -> int {
    if decimal {
        let low = carry_fix(fold_group(a as int, b as int, carry_in(c), 1), 1);
        fold_group(a as int, b as int, low, 0x10)
    } else {
        a + b + carry_in(c)
    }
}

pub open spec fn adc8_spec(a: u8, b: u8, c: bool, decimal: bool) -> Sum8 {
    let raw = adc8_raw(a, b, c, decimal);
    let full = if decimal {
        carry_fix(raw, 0x10)
    } else {
        raw
    };
    Sum8 {
        value: (full % 0x100) as u8,
        carry: full > 0xff,
        overflow: overflow8(a as int, b as int, raw),
    }
}

/// 16-bit add-with-carry before the final decimal correction.
pub open spec fn adc16_raw(a: u16, b: u16, c: bool, decimal: bool) -> int {
    if decimal {
        let d0 = carry_fix(fold_group(a as int, b as int, carry_in(c), 1), 1);
        let d1 = carry_fix(fold_group(a as int, b as int, d0, 0x10), 0x10);
        let d2 = carry_fix(fold_group(a as int, b as int, d1, 0x100), 0x100);
        fold_group(a as int, b as int, d2, 0x1000)
    } else {
        a + b + carry_in(c)
    }
}

pub open spec fn adc16_spec(a: u16, b: u16, c: bool, decimal: bool) -> Sum16 {
    let raw = adc16_raw(a, b, c, decimal);
    let full = if decimal {
        carry_fix(raw, 0x1000)
    } else {
        raw
    };
    Sum16 {
        value: (full % 0x10000) as u16,
        carry: full > 0xffff,
        overflow: overflow16(a as int, b as int, raw),
    }
}

/// The bitwise complement of a byte.
pub open spec fn complement8(b: u8) -> int {
    0xff - b
}

/// The bitwise complement of a 16-bit word.
pub open spec fn complement16(b: u16) -> int {
    0xffff - b
}

/// 8-bit subtract-with-carry before the final decimal correction: the complement
/// of `b` is added, and groups that borrowed are corrected.
pub open spec fn sbc8_raw(a: u8, b: u8, c: bool, decimal: bool) -> int {
    let nb = complement8(b);
    if decimal {
        let low = borrow_fix(fold_group(a as int, nb, carry_in(c), 1), 1, 0x10000);
        fold_group(a as int, nb, low, 0x10)
    } else {
        a + nb + carry_in(c)
    }
}

pub open spec fn sbc8_spec(a: u8, b: u8, c: bool, decimal: bool) -> Sum8 {
    let raw = sbc8_raw(a, b, c, decimal);
    let full = if decimal {
        borrow_fix(raw, 0x10, 0x10000)
    } else {
        raw
    };
    Sum8 {
        value: (full % 0x100) as u8,
        carry: full > 0xff,
        overflow: overflow8(a as int, complement8(b), raw),
    }
}

/// 16-bit subtract-with-carry before the final decimal correction.
pub open spec fn sbc16_raw(a: u16, b: u16, c: bool, decimal: bool) -> int {
    let nb = complement16(b);
    if decimal {
        let d0 = borrow_fix(fold_group(a as int, nb, carry_in(c), 1), 1, 0x1_0000_0000);
        let d1 = borrow_fix(fold_group(a as int, nb, d0, 0x10), 0x10, 0x1_0000_0000);
        let d2 = borrow_fix(fold_group(a as int, nb, d1, 0x100), 0x100, 0x1_0000_0000);
        fold_group(a as int, nb, d2, 0x1000)
    } else {
        a + nb + carry_in(c)
    }
}

pub open spec fn sbc16_spec(a: u16, b: u16, c: bool, decimal: bool) -> Sum16 {
    let raw = sbc16_raw(a, b, c, decimal);
    let full = if decimal {
        borrow_fix(raw, 0x1000, 0x1_0000_0000)
    } else {
        raw
    };
    Sum16 {
        value: (full % 0x10000) as u16,
        carry: full > 0xffff,
        overflow: overflow16(a as int, complement16(b), raw),
    }
}

proof fn lemma_complement8(b: u8)
    ensures
        !b == complement8(b),
{
    assert(!b == 0xff - b) by (bit_vector);
}

proof fn lemma_complement16(b: u16)
    ensures
        !b == complement16(b),
{
    assert(!b == 0xffff - b) by (bit_vector);
}

proof fn lemma_masks16(x: u16)
    ensures
        x & 0x0f == x % 0x10,
        x & 0xf0 == x % 0x100 - x % 0x10,
        x & 0xff == x % 0x100,
{
    assert(x & 0x0f == x % 0x10 && x & 0xf0 == x % 0x100 - x % 0x10 && x & 0xff == x % 0x100)
        by (bit_vector);
}

proof fn lemma_masks32(x: u32)
    ensures
        x & 0x0f == x % 0x10,
        x & 0xf0 == x % 0x100 - x % 0x10,
        x & 0xf00 == x % 0x1000 - x % 0x100,
        x & 0xf000 == x % 0x10000 - x % 0x1000,
        x & 0xff == x % 0x100,
        x & 0xfff == x % 0x1000,
        x & 0xffff == x % 0x10000,
{
    assert(x & 0x0f == x % 0x10 && x & 0xf0 == x % 0x100 - x % 0x10 && x & 0xf00 == x % 0x1000
        - x % 0x100 && x & 0xf000 == x % 0x10000 - x % 0x1000 && x & 0xff == x % 0x100 && x
        & 0xfff == x % 0x1000 && x & 0xffff == x % 0x10000) by (bit_vector);
}

/// 8-bit add-with-carry.
pub fn add_with_carry8(a: u8, b: u8, carry: bool, decimal: bool) -> (r: Sum8)
    ensures
        r == adc8_spec(a, b, carry, decimal),
{
    let x = a as u16;
    let y = b as u16;
    let c: u16 = if carry {
        1
    } else {
        0
    };
    proof {
        lemma_masks16(x);
        lemma_masks16(y);
    }
    let mut result: u16;
    if decimal {
        result = (x & 0x0f) + (y & 0x0f) + c;
        if result > 0x09 {
            result += 0x06;
        }
        proof {
            lemma_masks16(result);
        }
        result = (x & 0xf0) + (y & 0xf0) + (if result > 0x0f {
            0x10
        } else {
            0
        }) + (result & 0x0f);
    } else {
        result = x + y + c;
    }
    proof {
        lemma_masks16(result);
    }
    let overflow = (a >= 0x80) == (b >= 0x80) && (a >= 0x80) != ((result & 0xff) >= 0x80);
    if decimal && result > 0x9f {
        result += 0x60;
    }
    proof {
        lemma_masks16(result);
    }
    Sum8 { value: (result & 0xff) as u8, carry: result > 0xff, overflow }
}

/// 16-bit add-with-carry.
pub fn add_with_carry16(a: u16, b: u16, carry: bool, decimal: bool) -> (r: Sum16)
    ensures
        r == adc16_spec(a, b, carry, decimal),
{
    let x = a as u32;
    let y = b as u32;
    let c: u32 = if carry {
        1
    } else {
        0
    };
    proof {
        lemma_masks32(x);
        lemma_masks32(y);
    }
    let mut result: u32;
    if decimal {
        result = (x & 0x0f) + (y & 0x0f) + c;
        if result > 0x09 {
            result += 0x06;
        }
        let ghost d0 = carry_fix(fold_group(x as int, y as int, carry_in(carry), 1), 1);
        assert(result == d0);
        proof {
            lemma_masks32(result);
        }
        result = (x & 0xf0) + (y & 0xf0) + (if result > 0x0f {
            0x10
        } else {
            0
        }) + (result & 0x0f);
        if result > 0x9f {
            result += 0x60;
        }
        let ghost d1 = carry_fix(fold_group(x as int, y as int, d0, 0x10), 0x10);
        assert(result == d1);
        proof {
            lemma_masks32(result);
        }
        result = (x & 0xf00) + (y & 0xf00) + (if result > 0xff {
            0x100
        } else {
            0
        }) + (result & 0xff);
        if result > 0x9ff {
            result += 0x600;
        }
        let ghost d2 = carry_fix(fold_group(x as int, y as int, d1, 0x100), 0x100);
        assert(result == d2);
        proof {
            lemma_masks32(result);
        }
        result = (x & 0xf000) + (y & 0xf000) + (if result > 0xfff {
            0x1000
        } else {
            0
        }) + (result & 0xfff);
        assert(result == fold_group(x as int, y as int, d2, 0x1000));
    } else {
        result = x + y + c;
    }
    proof {
        lemma_masks32(result);
    }
    let overflow = (a >= 0x8000) == (b >= 0x8000) && (a >= 0x8000) != ((result & 0xffff)
        >= 0x8000);
    if decimal && result > 0x9fff {
        result += 0x6000;
    }
    proof {
        lemma_masks32(result);
    }
    Sum16 { value: (result & 0xffff) as u16, carry: result > 0xffff, overflow }
}

/// 8-bit subtract-with-carry: adds the complement of `b`; `carry` set means no borrow.
pub fn sub_with_carry8(a: u8, b: u8, carry: bool, decimal: bool) -> (r: Sum8)
    ensures
        r == sbc8_spec(a, b, carry, decimal),
{
    let nb = !b;
    proof {
        lemma_complement8(b);
    }
    let x = a as u16;
    let y = nb as u16;
    let c: u16 = if carry {
        1
    } else {
        0
    };
    proof {
        lemma_masks16(x);
        lemma_masks16(y);
    }
    let mut result: u16;
    if decimal {
        result = (x & 0x0f) + (y & 0x0f) + c;
        if result <= 0x0f {
            result = result.wrapping_sub(0x06);
        }
        proof {
            lemma_masks16(result);
        }
        result = (x & 0xf0) + (y & 0xf0) + (if result > 0x0f {
            0x10
        } else {
            0
        }) + (result & 0x0f);
    } else {
        result = x + y + c;
    }
    proof {
        lemma_masks16(result);
    }
    let overflow = (a >= 0x80) == (nb >= 0x80) && (a >= 0x80) != ((result & 0xff) >= 0x80);
    if decimal && result <= 0xff {
        result = result.wrapping_sub(0x60);
    }
    proof {
        lemma_masks16(result);
    }
    Sum8 { value: (result & 0xff) as u8, carry: result > 0xff, overflow }
}

/// 16-bit subtract-with-carry: adds the complement of `b`; `carry` set means no borrow.
#[verifier::rlimit(40)]
pub fn sub_with_carry16(a: u16, b: u16, carry: bool, decimal: bool) -> (r: Sum16)
    ensures
        r == sbc16_spec(a, b, carry, decimal),
{
    let nb = !b;
    proof {
        lemma_complement16(b);
    }
    let x = a as u32;
    let y = nb as u32;
    let c: u32 = if carry {
        1
    } else {
        0
    };
    proof {
        lemma_masks32(x);
        lemma_masks32(y);
    }
    let mut result: u32;
    if decimal {
        result = (x & 0x0f) + (y & 0x0f) + c;
        if result <= 0x0f {
            result = result.wrapping_sub(0x06);
        }
        let ghost d0 = borrow_fix(fold_group(x as int, y as int, carry_in(carry), 1), 1, 0x1_0000_0000);
        assert(result == d0);
        proof {
            lemma_masks32(result);
        }
        result = (x & 0xf0) + (y & 0xf0) + (if result > 0x0f {
            0x10
        } else {
            0
        }) + (result & 0x0f);
        if result <= 0xff {
            result = result.wrapping_sub(0x60);
        }
        let ghost d1 = borrow_fix(fold_group(x as int, y as int, d0, 0x10), 0x10, 0x1_0000_0000);
        assert(result == d1);
        proof {
            lemma_masks32(result);
        }
        result = (x & 0xf00) + (y & 0xf00) + (if result > 0xff {
            0x100
        } else {
            0
        }) + (result & 0xff);
        if result <= 0xfff {
            result = result.wrapping_sub(0x600);
        }
        let ghost d2 = borrow_fix(fold_group(x as int, y as int, d1, 0x100), 0x100, 0x1_0000_0000);
        assert(result == d2);
        proof {
            lemma_masks32(result);
        }
        result = (x & 0xf000) + (y & 0xf000) + (if result > 0xfff {
            0x1000
        } else {
            0
        }) + (result & 0xfff);
        assert(result == fold_group(x as int, y as int, d2, 0x1000));
    } else {
        result = x + y + c;
    }
    proof {
        lemma_masks32(result);
    }
    let overflow = (a >= 0x8000) == (nb >= 0x8000) && (a >= 0x8000) != ((result & 0xffff)
        >= 0x8000);
    if decimal && result <= 0xffff {
        result = result.wrapping_sub(0x6000);
    }
    proof {
        lemma_masks32(result);
    }
    Sum16 { value: (result & 0xffff) as u16, carry: result > 0xffff, overflow }
}

/// Binary add-with-carry gives the same value, carry and overflow with its
/// operands swapped.
pub proof fn lemma_adc8_binary_commutative(a: u8, b: u8, c: bool)
    ensures
        adc8_spec(a, b, c, false) == adc8_spec(b, a, c, false),
{
}

/// Binary add-with-carry gives the same value, carry and overflow with its
/// operands swapped.
pub proof fn lemma_adc16_binary_commutative(a: u16, b: u16, c: bool)
    ensures
        adc16_spec(a, b, c, false) == adc16_spec(b, a, c, false),
{
}

/// In binary mode, subtract-with-carry is add-with-carry of the operand's
/// bitwise complement, with the same carry in.
pub proof fn lemma_sbc8_is_adc8_of_complement(a: u8, b: u8, c: bool)
    ensures
        sbc8_spec(a, b, c, false) == adc8_spec(a, !b, c, false),
{
    lemma_complement8(b);
}

/// In binary mode, subtract-with-carry is add-with-carry of the operand's
/// bitwise complement, with the same carry in.
pub proof fn lemma_sbc16_is_adc16_of_complement(a: u16, b: u16, c: bool)
    ensures
        sbc16_spec(a, b, c, false) == adc16_spec(a, !b, c, false),
{
    lemma_complement16(b);
}

} // verus!
