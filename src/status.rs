//! The processor status register: one byte, one bit per flag.

use vstd::prelude::*;

verus! {

pub const CARRY: u8 = 0x01;

pub const ZERO: u8 = 0x02;

pub const IRQ_DISABLE: u8 = 0x04;

pub const DECIMAL: u8 = 0x08;

pub const INDEX_MODE_8: u8 = 0x10;

pub const MEMORY_MODE_8: u8 = 0x20;

pub const OVERFLOW: u8 = 0x40;

pub const NEGATIVE: u8 = 0x80;

/// `mask` selects exactly one of the eight status bits.
pub open spec fn is_flag_bit(mask: u8) -> bool {
    mask == CARRY || mask == ZERO || mask == IRQ_DISABLE || mask == DECIMAL || mask
        == INDEX_MODE_8 || mask == MEMORY_MODE_8 || mask == OVERFLOW || mask == NEGATIVE
}

/// Whether the bits of `mask` are set in `ps`.
pub open spec fn flag(ps: u8, mask: u8) -> bool {
    ps & mask != 0
}

/// `ps` with the bits of `mask` set (`on`) or cleared.
pub open spec fn with_flag(ps: u8, mask: u8, on: bool) -> u8 {
    if on {
        ps | mask
    } else {
        ps & !mask
    }
}

/// Setting or clearing one flag changes that flag and no other.
pub proof fn lemma_with_flag(ps: u8, mask: u8, on: bool, other: u8)
    requires
        is_flag_bit(mask),
        is_flag_bit(other),
    ensures
        flag(with_flag(ps, mask, on), other) == if other == mask {
            on
        } else {
            flag(ps, other)
        },
{
    if on {
        assert(((ps | mask) & other != 0) == if other == mask {
            true
        } else {
            ps & other != 0
        }) by (bit_vector)
            requires
                is_flag_bit(mask),
                is_flag_bit(other),
        ;
    } else {
        assert(((ps & !mask) & other != 0) == if other == mask {
            false
        } else {
            ps & other != 0
        }) by (bit_vector)
            requires
                is_flag_bit(mask),
                is_flag_bit(other),
        ;
    }
}

} // verus!
