//! Decimal add-with-carry on valid BCD operands is decimal addition.
use vstd::prelude::*;

use crate::alu::{adc16_spec, adc8_spec, carry_fix, carry_in, digit_group, fold_group};

verus! {

/// Both digits of the byte `x` are decimal digits.
pub open spec fn is_bcd8(x: int) -> bool {
    x % 0x10 < 10 && x / 0x10 % 0x10 < 10
}

/// The number that the two decimal digits of `x` spell.
pub open spec fn bcd8_value(x: int) -> int {
    x / 0x10 % 0x10 * 10 + x % 0x10
}

/// All four digits of the 16-bit `x` are decimal digits.
pub open spec fn is_bcd16(x: int) -> bool {
    x % 0x10 < 10 && x / 0x10 % 0x10 < 10 && x / 0x100 % 0x10 < 10 && x / 0x1000 % 0x10 < 10
}

/// The number that the four decimal digits of `x` spell.
pub open spec fn bcd16_value(x: int) -> int {
    x / 0x1000 % 0x10 * 1000 + x / 0x100 % 0x10 * 100 + x / 0x10 % 0x10 * 10 + x % 0x10
}

/// Decimal add-with-carry of two valid BCD bytes yields the valid BCD of their
/// decimal sum modulo 100, and sets carry exactly when that sum reaches 100.
pub proof fn lemma_adc8_decimal(a: u8, b: u8, c: bool)
    requires
        is_bcd8(a as int),
        is_bcd8(b as int),
    ensures
        ({
            let s = adc8_spec(a, b, c, true);
            let total = bcd8_value(a as int) + bcd8_value(b as int) + carry_in(c);
            is_bcd8(s.value as int) && bcd8_value(s.value as int) == total % 100 && s.carry == (
            total >= 100)
        }),
{
    let (x, y) = (a as int, b as int);
    let t0 = x % 0x10 + y % 0x10 + carry_in(c);
    let t1 = x / 0x10 % 0x10 + y / 0x10 % 0x10 + if t0 >= 10 {
        1int
    } else {
        0
    };
    lemma_adc8_decimal_groups(a, b, c);
    lemma_spell_digits(0, 0, t1 % 10, t0 % 10);
    lemma_decimal_tens(x / 0x10 % 0x10 + y / 0x10 % 0x10, x % 0x10 + y % 0x10, carry_in(c));
}

/// The two corrected digit groups of a decimal 8-bit add, digit by digit.
proof fn lemma_adc8_decimal_groups(a: u8, b: u8, c: bool)
    requires
        is_bcd8(a as int),
        is_bcd8(b as int),
    ensures
        ({
            let (x, y) = (a as int, b as int);
            let t0 = x % 0x10 + y % 0x10 + carry_in(c);
            let t1 = x / 0x10 % 0x10 + y / 0x10 % 0x10 + if t0 >= 10 {
                1int
            } else {
                0
            };
            let s = adc8_spec(a, b, c, true);
            &&& s.value == t1 % 10 * 0x10 + t0 % 10
            &&& s.carry == (t1 >= 10)
        }),
{
    let (x, y) = (a as int, b as int);
    lemma_digit_groups(a as u16);
    lemma_digit_groups(b as u16);
    lemma_decimal_group(x, y, carry_in(c), 1, x % 0x10, y % 0x10);
    let d0 = carry_fix(fold_group(x, y, carry_in(c), 1), 1);
    lemma_decimal_group(x, y, d0, 0x10, x / 0x10 % 0x10, y / 0x10 % 0x10);
}

/// Column addition in base ten over two columns with digit sums `e1` and `e0`
/// and a carry in `c`.
proof fn lemma_decimal_tens(e1: int, e0: int, c: int)
    requires
        0 <= e1 <= 18,
        0 <= e0 <= 18,
        0 <= c <= 1,
    ensures
        ({
            let t0 = e0 + c;
            let t1 = e1 + if t0 >= 10 {
                1int
            } else {
                0
            };
            let total = 10 * e1 + e0 + c;
            &&& total % 100 == 10 * (t1 % 10) + t0 % 10
            &&& (total >= 100) == (t1 >= 10)
        }),
{
    let t0 = e0 + c;
    let k1 = if t0 >= 10 {
        1int
    } else {
        0
    };
    let t1 = e1 + k1;
    let k2 = if t1 >= 10 {
        1int
    } else {
        0
    };
    assert(t0 % 10 == t0 - 10 * k1);
    assert(t1 % 10 == t1 - 10 * k2);
    let low = 10 * (t1 % 10) + t0 % 10;
    assert(10 * e1 + e0 + c == 100 * k2 + low);
    assert((100 * k2 + low) % 100 == low);
}

/// Decimal add-with-carry of two valid 4-digit BCD words yields the valid BCD
/// of their decimal sum modulo 10000, and sets carry exactly when that sum
/// reaches 10000.
pub proof fn lemma_adc16_decimal(a: u16, b: u16, c: bool)
    requires
        is_bcd16(a as int),
        is_bcd16(b as int),
    ensures
        ({
            let s = adc16_spec(a, b, c, true);
            let total = bcd16_value(a as int) + bcd16_value(b as int) + carry_in(c);
            is_bcd16(s.value as int) && bcd16_value(s.value as int) == total % 10000 && s.carry
                == (total >= 10000)
        }),
{
    let (x, y) = (a as int, b as int);
    let e0 = x % 0x10 + y % 0x10;
    let e1 = x / 0x10 % 0x10 + y / 0x10 % 0x10;
    let e2 = x / 0x100 % 0x10 + y / 0x100 % 0x10;
    let e3 = x / 0x1000 % 0x10 + y / 0x1000 % 0x10;
    let t0 = e0 + carry_in(c);
    let t1 = e1 + if t0 >= 10 {
        1int
    } else {
        0
    };
    let t2 = e2 + if t1 >= 10 {
        1int
    } else {
        0
    };
    let t3 = e3 + if t2 >= 10 {
        1int
    } else {
        0
    };
    lemma_adc16_decimal_groups(a, b, c);
    lemma_spell_digits(t3 % 10, t2 % 10, t1 % 10, t0 % 10);
    lemma_decimal_carry_chain(e3, e2, e1, e0, carry_in(c));
    let v = adc16_spec(a, b, c, true).value as int;
    assert(bcd16_value(v) == t3 % 10 * 1000 + t2 % 10 * 100 + t1 % 10 * 10 + t0 % 10);
    assert(bcd16_value(x) + bcd16_value(y) + carry_in(c) == 1000 * e3 + 100 * e2 + 10 * e1 + e0
        + carry_in(c));
}

/// The four corrected digit groups of a decimal 16-bit add, digit by digit.
proof fn lemma_adc16_decimal_groups(a: u16, b: u16, c: bool)
    requires
        is_bcd16(a as int),
        is_bcd16(b as int),
    ensures
        ({
            let (x, y) = (a as int, b as int);
            let t0 = x % 0x10 + y % 0x10 + carry_in(c);
            let t1 = x / 0x10 % 0x10 + y / 0x10 % 0x10 + if t0 >= 10 {
                1int
            } else {
                0
            };
            let t2 = x / 0x100 % 0x10 + y / 0x100 % 0x10 + if t1 >= 10 {
                1int
            } else {
                0
            };
            let t3 = x / 0x1000 % 0x10 + y / 0x1000 % 0x10 + if t2 >= 10 {
                1int
            } else {
                0
            };
            let s = adc16_spec(a, b, c, true);
            &&& s.value == t3 % 10 * 0x1000 + t2 % 10 * 0x100 + t1 % 10 * 0x10 + t0 % 10
            &&& s.carry == (t3 >= 10)
        }),
{
    let (x, y) = (a as int, b as int);
    lemma_digit_groups(a);
    lemma_digit_groups(b);
    lemma_decimal_group(x, y, carry_in(c), 1, x % 0x10, y % 0x10);
    let d0 = carry_fix(fold_group(x, y, carry_in(c), 1), 1);
    lemma_decimal_group(x, y, d0, 0x10, x / 0x10 % 0x10, y / 0x10 % 0x10);
    let d1 = carry_fix(fold_group(x, y, d0, 0x10), 0x10);
    lemma_decimal_group(x, y, d1, 0x100, x / 0x100 % 0x10, y / 0x100 % 0x10);
    let d2 = carry_fix(fold_group(x, y, d1, 0x100), 0x100);
    lemma_decimal_group(x, y, d2, 0x1000, x / 0x1000 % 0x10, y / 0x1000 % 0x10);
}

/// One digit group of a decimal add: with decimal digits `ad` and `bd` in group
/// `unit` and `below` under twice that place, the corrected sum keeps the digits
/// of `below`, holds digit `(ad + bd + k) % 10` in group `unit`, and carries out
/// exactly when `ad + bd + k` reaches ten, where `k` is the carry out of `below`.
proof fn lemma_decimal_group(a: int, b: int, below: int, unit: int, ad: int, bd: int)
    requires
        unit == 1 || unit == 0x10 || unit == 0x100 || unit == 0x1000,
        0 <= ad < 10,
        0 <= bd < 10,
        digit_group(a, unit) == ad * unit,
        digit_group(b, unit) == bd * unit,
        0 <= below < 2 * unit,
    ensures
        ({
            let k = if below >= unit {
                1int
            } else {
                0
            };
            let s = carry_fix(fold_group(a, b, below, unit), unit);
            &&& 0 <= s < 32 * unit
            &&& s % (16 * unit) == (ad + bd + k) % 10 * unit + below % unit
            &&& (s >= 16 * unit) == (ad + bd + k >= 10)
        }),
{
    let k = if below >= unit {
        1int
    } else {
        0
    };
    let r = below % unit;
    let t = ad + bd + k;
    let x = fold_group(a, b, below, unit);
    assert(below == k * unit + r && 0 <= r < unit) by (nonlinear_arith)
        requires
            unit == 1 || unit == 0x10 || unit == 0x100 || unit == 0x1000,
            0 <= below < 2 * unit,
            k == (if below >= unit {
                1int
            } else {
                0
            }),
            r == below % unit,
    ;
    assert(x == t * unit + r) by (nonlinear_arith)
        requires
            x == ad * unit + bd * unit + k * unit + r,
            t == ad + bd + k,
    ;
    let s = carry_fix(x, unit);
    assert(s == if t >= 10 {
        16 * unit + (t - 10) * unit + r
    } else {
        t * unit + r
    }) by (nonlinear_arith)
        requires
            s == (if x >= 10 * unit {
                x + 6 * unit
            } else {
                x
            }),
            x == t * unit + r,
            0 <= r < unit,
            0 <= t < 20,
    ;
    assert(s % (16 * unit) == t % 10 * unit + r && (s >= 16 * unit) == (t >= 10))
        by (nonlinear_arith)
        requires
            s == (if t >= 10 {
                16 * unit + (t - 10) * unit + r
            } else {
                t * unit + r
            }),
            0 <= r < unit,
            0 <= t < 20,
            unit >= 1,
    ;
}

/// The digit groups of a 16-bit value are its hexadecimal digits, in place.
proof fn lemma_digit_groups(x: u16)
    ensures
        digit_group(x as int, 1) == x % 0x10,
        digit_group(x as int, 0x10) == x / 0x10 % 0x10 * 0x10,
        digit_group(x as int, 0x100) == x / 0x100 % 0x10 * 0x100,
        digit_group(x as int, 0x1000) == x / 0x1000 % 0x10 * 0x1000,
{
    assert(x % 0x10 - x % 1 == x % 0x10 && x % 0x100 - x % 0x10 == x / 0x10 % 0x10 * 0x10 && x
        % 0x1000 - x % 0x100 == x / 0x100 % 0x10 * 0x100 && x - x % 0x1000 == x / 0x1000 % 0x10
        * 0x1000) by (bit_vector);
    assert(x as int % 0x10000 == x);
}

/// Four hexadecimal digits, put in place, read back as themselves.
proof fn lemma_spell_digits(d3: int, d2: int, d1: int, d0: int)
    requires
        0 <= d3 < 16,
        0 <= d2 < 16,
        0 <= d1 < 16,
        0 <= d0 < 16,
    ensures
        ({
            let x = d3 * 0x1000 + d2 * 0x100 + d1 * 0x10 + d0;
            x % 0x10 == d0 && x / 0x10 % 0x10 == d1 && x / 0x100 % 0x10 == d2 && x / 0x1000 % 0x10
                == d3
        }),
{
}

/// Column addition in base ten: four digit sums `e3..e0` and a carry in `c`,
/// each column keeping its last digit and passing a carry up.
proof fn lemma_decimal_carry_chain(e3: int, e2: int, e1: int, e0: int, c: int)
    requires
        0 <= e3 <= 18,
        0 <= e2 <= 18,
        0 <= e1 <= 18,
        0 <= e0 <= 18,
        0 <= c <= 1,
    ensures
        ({
            let t0 = e0 + c;
            let t1 = e1 + if t0 >= 10 {
                1int
            } else {
                0
            };
            let t2 = e2 + if t1 >= 10 {
                1int
            } else {
                0
            };
            let t3 = e3 + if t2 >= 10 {
                1int
            } else {
                0
            };
            let total = 1000 * e3 + 100 * e2 + 10 * e1 + e0 + c;
            &&& total % 10000 == 1000 * (t3 % 10) + 100 * (t2 % 10) + 10 * (t1 % 10) + t0 % 10
            &&& (total >= 10000) == (t3 >= 10)
        }),
{
    let t0 = e0 + c;
    let k1 = if t0 >= 10 {
        1int
    } else {
        0
    };
    let t1 = e1 + k1;
    let k2 = if t1 >= 10 {
        1int
    } else {
        0
    };
    let t2 = e2 + k2;
    let k3 = if t2 >= 10 {
        1int
    } else {
        0
    };
    let t3 = e3 + k3;
    let k4 = if t3 >= 10 {
        1int
    } else {
        0
    };
    assert(t0 % 10 == t0 - 10 * k1);
    assert(t1 % 10 == t1 - 10 * k2);
    assert(t2 % 10 == t2 - 10 * k3);
    assert(t3 % 10 == t3 - 10 * k4);
    let low = 1000 * (t3 % 10) + 100 * (t2 % 10) + 10 * (t1 % 10) + t0 % 10;
    assert(1000 * e3 + 100 * e2 + 10 * e1 + e0 + c == 10000 * k4 + low);
    assert((10000 * k4 + low) % 10000 == low);
}

} // verus!
