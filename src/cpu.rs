//! The CPU core: register file, status flags and the instruction set.
use vstd::prelude::*;

use crate::alu::{
    add_with_carry16, add_with_carry8, adc16_spec, adc8_spec, sbc16_spec, sbc8_spec,
    sub_with_carry16, sub_with_carry8, Sum16, Sum8,
};
use crate::mem::{BusFault, Mem};
use crate::status::{
    flag, lemma_with_flag, with_flag, CARRY, DECIMAL, INDEX_MODE_8, IRQ_DISABLE, MEMORY_MODE_8,
    NEGATIVE, OVERFLOW, ZERO,
};

verus! {

/// Address of the little-endian reset vector, in bank 0.
pub const RESET_VECTOR: u32 = 0xfffc;

/// The register file.
#[derive(Clone, Copy, Debug, PartialEq, Eq)]
pub struct Registers {
    /// Accumulator.
    pub a: u16,
    pub x: u16,
    pub y: u16,
    /// Stack pointer.
    pub sp: u16,
    /// Direct-page register.
    pub d: u16,
    /// Program counter.
    pub pc: u16,
    /// Program bank.
    pub k: u8,
    /// Data bank.
    pub dbr: u8,
    /// Processor status, one bit per flag (see `status`).
    pub ps: u8,
    pub emulation_mode: bool,
}

/// Why execution stopped.
#[derive(Clone, Copy, Debug, PartialEq, Eq)]
pub enum Fault {
    /// A bus access failed.
    Bus(BusFault),
    /// The byte fetched at `address` is no instruction that the core executes.
    UnimplementedOpcode { opcode: u8, address: u32 },
}

/// The CPU with the bus it exclusively owns.
pub struct Cpu {
    pub regs: Registers,
    pub mem: Mem,
}

/// The low byte of `x`.
pub open spec fn low_byte(x: u16) -> u8 {
    (x % 0x100) as u8
}

/// `x` with its low byte replaced by `lo`; the high byte is kept.
pub open spec fn with_low_byte(x: u16, lo: u8) -> u16 {
    (x / 0x100 * 0x100 + lo) as u16
}

/// `ps` with zero and negative set from the 8-bit result `v`.
pub open spec fn zero_negative8(ps: u8, v: u8) -> u8 {
    with_flag(with_flag(ps, ZERO, v == 0), NEGATIVE, v >= 0x80)
}

/// `ps` with zero and negative set from the 16-bit result `v`.
pub open spec fn zero_negative16(ps: u8, v: u16) -> u8 {
    with_flag(with_flag(ps, ZERO, v == 0), NEGATIVE, v >= 0x8000)
}

/// The registers after an 8-bit add or subtract with outcome `s`: the value
/// goes to the low byte of the accumulator, and overflow, zero, negative and
/// carry follow the outcome.
pub open spec fn after_sum8(r: Registers, s: Sum8) -> Registers {
    Registers {
        a: with_low_byte(r.a, s.value),
        ps: with_flag(
            zero_negative8(with_flag(r.ps, OVERFLOW, s.overflow), s.value),
            CARRY,
            s.carry,
        ),
        ..r
    }
}

/// The registers after a 16-bit add or subtract with outcome `s`.
pub open spec fn after_sum16(r: Registers, s: Sum16) -> Registers {
    Registers {
        a: s.value,
        ps: with_flag(
            zero_negative16(with_flag(r.ps, OVERFLOW, s.overflow), s.value),
            CARRY,
            s.carry,
        ),
        ..r
    }
}

/// The 8-bit value `d` read as a two's-complement number.
pub open spec fn sign_extend8(d: u8) -> int {
    if d >= 0x80 {
        d - 0x100
    } else {
        d as int
    }
}

/// The 16-bit value `d` read as a two's-complement number.
pub open spec fn sign_extend16(d: u16) -> int {
    if d >= 0x8000 {
        d - 0x10000
    } else {
        d as int
    }
}

/// `pc` moved by the signed displacement `disp`, wrapping within the bank.
pub open spec fn displaced(pc: u16, disp: int) -> u16 {
    ((pc + disp) % 0x10000) as u16
}

/// The address of the next opcode: program bank and program counter.
pub open spec fn fetch_address(r: Registers) -> u32 {
    (r.k as int * 0x10000 + r.pc as int) as u32
}

fn set_low_byte(x: u16, lo: u8) -> (r: u16)
    ensures
        r == with_low_byte(x, lo),
{
    assert((x & 0xff00) | (lo as u16) == x / 0x100 * 0x100 + lo) by (bit_vector);
    (x & 0xff00) | lo as u16
}

impl Cpu {
    /// Whether the carry flag is set.
    pub fn carry(&self) -> (on: bool)
        ensures
            on == flag(self.regs.ps, CARRY),
    {
        self.regs.ps & CARRY != 0
    }

    /// Sets (`true`) or clears the carry flag; nothing else changes.
    pub fn set_carry(&mut self, carry: bool)
        ensures
            final(self).regs == (Registers {
                ps: with_flag(old(self).regs.ps, CARRY, carry),
                ..old(self).regs
            }),
            final(self).mem == old(self).mem,
    {
        if carry {
            self.regs.ps = self.regs.ps | CARRY;
        } else {
            self.regs.ps = self.regs.ps & !CARRY;
        }
    }

    /// Whether the zero flag is set.
    pub fn zero(&self) -> (on: bool)
        ensures
            on == flag(self.regs.ps, ZERO),
    {
        self.regs.ps & ZERO != 0
    }

    /// Sets (`true`) or clears the zero flag; nothing else changes.
    pub fn set_zero(&mut self, zero: bool)
        ensures
            final(self).regs == (Registers {
                ps: with_flag(old(self).regs.ps, ZERO, zero),
                ..old(self).regs
            }),
            final(self).mem == old(self).mem,
    {
        if zero {
            self.regs.ps = self.regs.ps | ZERO;
        } else {
            self.regs.ps = self.regs.ps & !ZERO;
        }
    }

    /// Whether the interrupt-disable flag is set.
    pub fn irq_disable(&self) -> (on: bool)
        ensures
            on == flag(self.regs.ps, IRQ_DISABLE),
    {
        self.regs.ps & IRQ_DISABLE != 0
    }

    /// Sets (`true`) or clears the interrupt-disable flag; nothing else changes.
    pub fn set_irq_disable(&mut self, irq_disable: bool)
        ensures
            final(self).regs == (Registers {
                ps: with_flag(old(self).regs.ps, IRQ_DISABLE, irq_disable),
                ..old(self).regs
            }),
            final(self).mem == old(self).mem,
    {
        if irq_disable {
            self.regs.ps = self.regs.ps | IRQ_DISABLE;
        } else {
            self.regs.ps = self.regs.ps & !IRQ_DISABLE;
        }
    }

    /// Whether the decimal flag is set.
    pub fn decimal(&self) -> (on: bool)
        ensures
            on == flag(self.regs.ps, DECIMAL),
    {
        self.regs.ps & DECIMAL != 0
    }

    /// Sets (`true`) or clears the decimal flag; nothing else changes.
    pub fn set_decimal(&mut self, decimal: bool)
        ensures
            final(self).regs == (Registers {
                ps: with_flag(old(self).regs.ps, DECIMAL, decimal),
                ..old(self).regs
            }),
            final(self).mem == old(self).mem,
    {
        if decimal {
            self.regs.ps = self.regs.ps | DECIMAL;
        } else {
            self.regs.ps = self.regs.ps & !DECIMAL;
        }
    }

    /// Whether the 8-bit index flag is set.
    pub fn index_mode_8(&self) -> (on: bool)
        ensures
            on == flag(self.regs.ps, INDEX_MODE_8),
    {
        self.regs.ps & INDEX_MODE_8 != 0
    }

    /// Sets (`true`) or clears the 8-bit index flag; nothing else changes.
    pub fn set_index_mode_8(&mut self, index_mode_8: bool)
        ensures
            final(self).regs == (Registers {
                ps: with_flag(old(self).regs.ps, INDEX_MODE_8, index_mode_8),
                ..old(self).regs
            }),
            final(self).mem == old(self).mem,
    {
        if index_mode_8 {
            self.regs.ps = self.regs.ps | INDEX_MODE_8;
        } else {
            self.regs.ps = self.regs.ps & !INDEX_MODE_8;
        }
    }

    /// Whether the 8-bit accumulator/memory flag is set.
    pub fn memory_mode_8(&self) -> (on: bool)
        ensures
            on == flag(self.regs.ps, MEMORY_MODE_8),
    {
        self.regs.ps & MEMORY_MODE_8 != 0
    }

    /// Sets (`true`) or clears the 8-bit accumulator/memory flag; nothing else changes.
    pub fn set_memory_mode_8(&mut self, memory_mode_8: bool)
        ensures
            final(self).regs == (Registers {
                ps: with_flag(old(self).regs.ps, MEMORY_MODE_8, memory_mode_8),
                ..old(self).regs
            }),
            final(self).mem == old(self).mem,
    {
        if memory_mode_8 {
            self.regs.ps = self.regs.ps | MEMORY_MODE_8;
        } else {
            self.regs.ps = self.regs.ps & !MEMORY_MODE_8;
        }
    }

    /// Whether the overflow flag is set.
    pub fn overflow(&self) -> (on: bool)
        ensures
            on == flag(self.regs.ps, OVERFLOW),
    {
        self.regs.ps & OVERFLOW != 0
    }

    /// Sets (`true`) or clears the overflow flag; nothing else changes.
    pub fn set_overflow(&mut self, overflow: bool)
        ensures
            final(self).regs == (Registers {
                ps: with_flag(old(self).regs.ps, OVERFLOW, overflow),
                ..old(self).regs
            }),
            final(self).mem == old(self).mem,
    {
        if overflow {
            self.regs.ps = self.regs.ps | OVERFLOW;
        } else {
            self.regs.ps = self.regs.ps & !OVERFLOW;
        }
    }

    /// Whether the negative flag is set.
    pub fn negative(&self) -> (on: bool)
        ensures
            on == flag(self.regs.ps, NEGATIVE),
    {
        self.regs.ps & NEGATIVE != 0
    }

    /// Sets (`true`) or clears the negative flag; nothing else changes.
    pub fn set_negative(&mut self, negative: bool)
        ensures
            final(self).regs == (Registers {
                ps: with_flag(old(self).regs.ps, NEGATIVE, negative),
                ..old(self).regs
            }),
            final(self).mem == old(self).mem,
    {
        if negative {
            self.regs.ps = self.regs.ps | NEGATIVE;
        } else {
            self.regs.ps = self.regs.ps & !NEGATIVE;
        }
    }

    /// What one step of execution does to a CPU in state `self`: no opcode has
    /// a handler, so the step ends in the fetch fault or in an unimplemented opcode.
    pub open spec fn step_outcome(&self) -> Fault {
        match self.mem.read_spec(fetch_address(self.regs)) {
            Err(e) => Fault::Bus(e),
            Ok(opcode) => Fault::UnimplementedOpcode { opcode, address: fetch_address(self.regs) },
        }
    }

    /// Resets a CPU onto `mem`: the program counter comes from the reset vector,
    /// interrupts are disabled, the stack sits at 0x01ff, the CPU is in emulation
    /// mode and every other register is zero.
    pub fn new(mem: Mem) -> (cpu: Cpu)
        ensures
            cpu.mem == mem,
            cpu.regs == (Registers {
                a: 0,
                x: 0,
                y: 0,
                sp: 0x1ff,
                d: 0,
                pc: (mem.rom()[0x7ffd] as int * 0x100 + mem.rom()[0x7ffc] as int) as u16,
                k: 0,
                dbr: 0,
                ps: IRQ_DISABLE,
                emulation_mode: true,
            }),
    {
        let vector = mem.read16(RESET_VECTOR);
        // The vector lies in bank 0 above 0x8000, which always decodes to ROM.
        let pc = match vector {
            Ok(pc) => pc,
            Err(_) => 0,
        };
        Cpu {
            regs: Registers {
                a: 0,
                x: 0,
                y: 0,
                sp: 0x1ff,
                d: 0,
                pc,
                k: 0,
                dbr: 0,
                ps: IRQ_DISABLE,
                emulation_mode: true,
            },
            mem,
        }
    }

    /// Fetches the opcode at the program bank and counter and dispatches on it.
    /// No opcode has a handler yet, so each step reports the byte it fetched as
    /// unimplemented, or the fault that the fetch ran into; the state is left as it was.
    pub fn exec(&mut self) -> (r: Result<(), Fault>)
        ensures
            r == Err::<(), Fault>(old(self).step_outcome()),
            final(self).regs == old(self).regs,
            final(self).mem == old(self).mem,
    {
        let address = self.regs.k as u32 * 0x10000 + self.regs.pc as u32;
        match self.mem.read(address) {
            Err(e) => Err(Fault::Bus(e)),
            Ok(opcode) => Err(Fault::UnimplementedOpcode { opcode, address }),
        }
    }

    /// Runs the fetch-decode-execute loop until a fault stops it, and returns
    /// that fault.
    pub fn run(&mut self) -> (fault: Fault)
        ensures
            fault == old(self).step_outcome(),
            final(self).regs == old(self).regs,
            final(self).mem == old(self).mem,
    {
        loop
            invariant
                self.regs == old(self).regs,
                self.mem == old(self).mem,
            // Every step faults, so the loop never comes round a second time.
            decreases 0nat,
        {
            match self.exec() {
                Ok(()) => {},
                Err(fault) => return fault,
            }
        }
    }

    /// 8-bit add-with-carry into the low byte of the accumulator.
    pub fn adc8(&mut self, rhs: u8)
        ensures
            final(self).regs == after_sum8(
                old(self).regs,
                adc8_spec(
                    low_byte(old(self).regs.a),
                    rhs,
                    flag(old(self).regs.ps, CARRY),
                    flag(old(self).regs.ps, DECIMAL),
                ),
            ),
            final(self).mem == old(self).mem,
    {
        let sum = add_with_carry8((self.regs.a % 0x100) as u8, rhs, self.carry(), self.decimal());
        self.set_overflow(sum.overflow);
        self.set_zero_negative8(sum.value);
        self.set_carry(sum.carry);
        self.regs.a = set_low_byte(self.regs.a, sum.value);
    }

    /// 16-bit add-with-carry into the accumulator.
    pub fn adc16(&mut self, rhs: u16)
        ensures
            final(self).regs == after_sum16(
                old(self).regs,
                adc16_spec(
                    old(self).regs.a,
                    rhs,
                    flag(old(self).regs.ps, CARRY),
                    flag(old(self).regs.ps, DECIMAL),
                ),
            ),
            final(self).mem == old(self).mem,
    {
        let sum = add_with_carry16(self.regs.a, rhs, self.carry(), self.decimal());
        self.set_overflow(sum.overflow);
        self.set_zero_negative16(sum.value);
        self.set_carry(sum.carry);
        self.regs.a = sum.value;
    }

    /// Add-with-carry at the accumulator's width.
    pub fn adc(&mut self, rhs: u16)
        ensures
            ({
                let r = old(self).regs;
                let (c, d) = (flag(r.ps, CARRY), flag(r.ps, DECIMAL));
                final(self).regs == if flag(r.ps, MEMORY_MODE_8) {
                    after_sum8(r, adc8_spec(low_byte(r.a), low_byte(rhs), c, d))
                } else {
                    after_sum16(r, adc16_spec(r.a, rhs, c, d))
                }
            }),
            final(self).mem == old(self).mem,
    {
        if self.memory_mode_8() {
            self.adc8((rhs % 0x100) as u8)
        } else {
            self.adc16(rhs)
        }
    }

    /// 8-bit subtract-with-carry from the low byte of the accumulator.
    pub fn sbc8(&mut self, rhs: u8)
        ensures
            final(self).regs == after_sum8(
                old(self).regs,
                sbc8_spec(
                    low_byte(old(self).regs.a),
                    rhs,
                    flag(old(self).regs.ps, CARRY),
                    flag(old(self).regs.ps, DECIMAL),
                ),
            ),
            final(self).mem == old(self).mem,
    {
        let diff = sub_with_carry8((self.regs.a % 0x100) as u8, rhs, self.carry(), self.decimal());
        self.set_overflow(diff.overflow);
        self.set_zero_negative8(diff.value);
        self.set_carry(diff.carry);
        self.regs.a = set_low_byte(self.regs.a, diff.value);
    }

    /// 16-bit subtract-with-carry from the accumulator.
    pub fn sbc16(&mut self, rhs: u16)
        ensures
            final(self).regs == after_sum16(
                old(self).regs,
                sbc16_spec(
                    old(self).regs.a,
                    rhs,
                    flag(old(self).regs.ps, CARRY),
                    flag(old(self).regs.ps, DECIMAL),
                ),
            ),
            final(self).mem == old(self).mem,
    {
        let diff = sub_with_carry16(self.regs.a, rhs, self.carry(), self.decimal());
        self.set_overflow(diff.overflow);
        self.set_zero_negative16(diff.value);
        self.set_carry(diff.carry);
        self.regs.a = diff.value;
    }

    /// Subtract-with-carry at the accumulator's width.
    pub fn sbc(&mut self, rhs: u16)
        ensures
            ({
                let r = old(self).regs;
                let (c, d) = (flag(r.ps, CARRY), flag(r.ps, DECIMAL));
                final(self).regs == if flag(r.ps, MEMORY_MODE_8) {
                    after_sum8(r, sbc8_spec(low_byte(r.a), low_byte(rhs), c, d))
                } else {
                    after_sum16(r, sbc16_spec(r.a, rhs, c, d))
                }
            }),
            final(self).mem == old(self).mem,
    {
        if self.memory_mode_8() {
            self.sbc8((rhs % 0x100) as u8)
        } else {
            self.sbc16(rhs)
        }
    }

    /// Sets zero and negative from an 8-bit result.
    pub fn set_zero_negative8(&mut self, value: u8)
        ensures
            final(self).regs == (Registers {
                ps: zero_negative8(old(self).regs.ps, value),
                ..old(self).regs
            }),
            final(self).mem == old(self).mem,
    {
        self.set_zero(value == 0);
        self.set_negative(value >= 0x80);
    }

    /// Sets zero and negative from a 16-bit result.
    pub fn set_zero_negative16(&mut self, value: u16)
        ensures
            final(self).regs == (Registers {
                ps: zero_negative16(old(self).regs.ps, value),
                ..old(self).regs
            }),
            final(self).mem == old(self).mem,
    {
        self.set_zero(value == 0);
        self.set_negative(value >= 0x8000);
    }
    /// Branch always: moves the program counter by the signed displacement `rhs`.
    pub fn bra(&mut self, rhs: u8)
        ensures
            final(self).regs == (Registers {
                pc: displaced(old(self).regs.pc, sign_extend8(rhs)),
                ..old(self).regs
            }),
            final(self).mem == old(self).mem,
    {
        let disp: u16 = if rhs >= 0x80 {
            rhs as u16 + 0xff00
        } else {
            rhs as u16
        };
        self.regs.pc = self.regs.pc.wrapping_add(disp);
    }

    /// Long branch always: moves the program counter by the signed 16-bit displacement `rhs`.
    pub fn brl(&mut self, rhs: u16)
        ensures
            final(self).regs == (Registers {
                pc: displaced(old(self).regs.pc, sign_extend16(rhs)),
                ..old(self).regs
            }),
            final(self).mem == old(self).mem,
    {
        self.regs.pc = self.regs.pc.wrapping_add(rhs);
    }

    /// Branches by `rhs` when carry is clear.
    pub fn bcc(&mut self, rhs: u8)
        ensures
            final(self).regs == (Registers {
                pc: if !flag(old(self).regs.ps, CARRY) {
                    displaced(old(self).regs.pc, sign_extend8(rhs))
                } else {
                    old(self).regs.pc
                },
                ..old(self).regs
            }),
            final(self).mem == old(self).mem,
    {
        if !self.carry() {
            self.bra(rhs)
        }
    }

    /// Branches by `rhs` when carry is set.
    pub fn bcs(&mut self, rhs: u8)
        ensures
            final(self).regs == (Registers {
                pc: if flag(old(self).regs.ps, CARRY) {
                    displaced(old(self).regs.pc, sign_extend8(rhs))
                } else {
                    old(self).regs.pc
                },
                ..old(self).regs
            }),
            final(self).mem == old(self).mem,
    {
        if self.carry() {
            self.bra(rhs)
        }
    }

    /// Branches by `rhs` when zero is set.
    pub fn beq(&mut self, rhs: u8)
        ensures
            final(self).regs == (Registers {
                pc: if flag(old(self).regs.ps, ZERO) {
                    displaced(old(self).regs.pc, sign_extend8(rhs))
                } else {
                    old(self).regs.pc
                },
                ..old(self).regs
            }),
            final(self).mem == old(self).mem,
    {
        if self.zero() {
            self.bra(rhs)
        }
    }

    /// Branches by `rhs` when negative is set.
    pub fn bmi(&mut self, rhs: u8)
        ensures
            final(self).regs == (Registers {
                pc: if flag(old(self).regs.ps, NEGATIVE) {
                    displaced(old(self).regs.pc, sign_extend8(rhs))
                } else {
                    old(self).regs.pc
                },
                ..old(self).regs
            }),
            final(self).mem == old(self).mem,
    {
        if self.negative() {
            self.bra(rhs)
        }
    }

    /// Branches by `rhs` when zero is clear.
    pub fn bne(&mut self, rhs: u8)
        ensures
            final(self).regs == (Registers {
                pc: if !flag(old(self).regs.ps, ZERO) {
                    displaced(old(self).regs.pc, sign_extend8(rhs))
                } else {
                    old(self).regs.pc
                },
                ..old(self).regs
            }),
            final(self).mem == old(self).mem,
    {
        if !self.zero() {
            self.bra(rhs)
        }
    }

    /// Branches by `rhs` when negative is clear.
    pub fn bpl(&mut self, rhs: u8)
        ensures
            final(self).regs == (Registers {
                pc: if !flag(old(self).regs.ps, NEGATIVE) {
                    displaced(old(self).regs.pc, sign_extend8(rhs))
                } else {
                    old(self).regs.pc
                },
                ..old(self).regs
            }),
            final(self).mem == old(self).mem,
    {
        if !self.negative() {
            self.bra(rhs)
        }
    }

    /// Branches by `rhs` when overflow is clear.
    pub fn bvc(&mut self, rhs: u8)
        ensures
            final(self).regs == (Registers {
                pc: if !flag(old(self).regs.ps, OVERFLOW) {
                    displaced(old(self).regs.pc, sign_extend8(rhs))
                } else {
                    old(self).regs.pc
                },
                ..old(self).regs
            }),
            final(self).mem == old(self).mem,
    {
        if !self.overflow() {
            self.bra(rhs)
        }
    }

    /// Branches by `rhs` when overflow is set.
    pub fn bvs(&mut self, rhs: u8)
        ensures
            final(self).regs == (Registers {
                pc: if flag(old(self).regs.ps, OVERFLOW) {
                    displaced(old(self).regs.pc, sign_extend8(rhs))
                } else {
                    old(self).regs.pc
                },
                ..old(self).regs
            }),
            final(self).mem == old(self).mem,
    {
        if self.overflow() {
            self.bra(rhs)
        }
    }

    /// Clears carry.
    pub fn clc(&mut self)
        ensures
            final(self).regs == (Registers {
                ps: with_flag(old(self).regs.ps, CARRY, false),
                ..old(self).regs
            }),
            final(self).mem == old(self).mem,
    {
        self.set_carry(false)
    }

    /// Clears decimal mode.
    pub fn cld(&mut self)
        ensures
            final(self).regs == (Registers {
                ps: with_flag(old(self).regs.ps, DECIMAL, false),
                ..old(self).regs
            }),
            final(self).mem == old(self).mem,
    {
        self.set_decimal(false)
    }

    /// Clears interrupt-disable.
    pub fn cli(&mut self)
        ensures
            final(self).regs == (Registers {
                ps: with_flag(old(self).regs.ps, IRQ_DISABLE, false),
                ..old(self).regs
            }),
            final(self).mem == old(self).mem,
    {
        self.set_irq_disable(false)
    }

    /// Clears overflow.
    pub fn clv(&mut self)
        ensures
            final(self).regs == (Registers {
                ps: with_flag(old(self).regs.ps, OVERFLOW, false),
                ..old(self).regs
            }),
            final(self).mem == old(self).mem,
    {
        self.set_overflow(false)
    }

    /// Sets carry.
    pub fn sec(&mut self)
        ensures
            final(self).regs == (Registers {
                ps: with_flag(old(self).regs.ps, CARRY, true),
                ..old(self).regs
            }),
            final(self).mem == old(self).mem,
    {
        self.set_carry(true)
    }

    /// Sets decimal mode.
    pub fn sed(&mut self)
        ensures
            final(self).regs == (Registers {
                ps: with_flag(old(self).regs.ps, DECIMAL, true),
                ..old(self).regs
            }),
            final(self).mem == old(self).mem,
    {
        self.set_decimal(true)
    }

    /// Sets interrupt-disable.
    pub fn sei(&mut self)
        ensures
            final(self).regs == (Registers {
                ps: with_flag(old(self).regs.ps, IRQ_DISABLE, true),
                ..old(self).regs
            }),
            final(self).mem == old(self).mem,
    {
        self.set_irq_disable(true)
    }

    /// Clears the status bits selected by `rhs`. In emulation mode the
    /// registers cannot widen, so both width flags are set again.
    pub fn rep(&mut self, rhs: u8)
        ensures
            final(self).regs == (Registers {
                ps: if old(self).regs.emulation_mode {
                    with_flag(
                        with_flag(old(self).regs.ps & !rhs, MEMORY_MODE_8, true),
                        INDEX_MODE_8,
                        true,
                    )
                } else {
                    old(self).regs.ps & !rhs
                },
                ..old(self).regs
            }),
            final(self).mem == old(self).mem,
            old(self).regs.emulation_mode ==> flag(final(self).regs.ps, INDEX_MODE_8) && flag(
                final(self).regs.ps,
                MEMORY_MODE_8,
            ),
    {
        self.regs.ps = self.regs.ps & !rhs;
        if self.regs.emulation_mode {
            self.set_memory_mode_8(true);
            self.set_index_mode_8(true);
            proof {
                let p = old(self).regs.ps & !rhs;
                lemma_with_flag(
                    with_flag(p, MEMORY_MODE_8, true),
                    INDEX_MODE_8,
                    true,
                    INDEX_MODE_8,
                );
                lemma_with_flag(
                    with_flag(p, MEMORY_MODE_8, true),
                    INDEX_MODE_8,
                    true,
                    MEMORY_MODE_8,
                );
                lemma_with_flag(p, MEMORY_MODE_8, true, MEMORY_MODE_8);
            }
        }
    }

    /// Sets the status bits selected by `rhs`. Once the index registers are
    /// 8 bits wide, X and Y keep only their low byte.
    pub fn sep(&mut self, rhs: u8)
        ensures
            ({
                let r = old(self).regs;
                let ps = r.ps | rhs;
                final(self).regs == Registers {
                    ps,
                    x: if flag(ps, INDEX_MODE_8) {
                        low_byte(r.x) as u16
                    } else {
                        r.x
                    },
                    y: if flag(ps, INDEX_MODE_8) {
                        low_byte(r.y) as u16
                    } else {
                        r.y
                    },
                    ..r
                }
            }),
            final(self).mem == old(self).mem,
            flag(rhs, INDEX_MODE_8) ==> final(self).regs.x < 0x100 && final(self).regs.y < 0x100,
    {
        self.regs.ps = self.regs.ps | rhs;
        if self.index_mode_8() {
            self.regs.x = self.regs.x % 0x100;
            self.regs.y = self.regs.y % 0x100;
        }
        proof {
            let (p, m) = (old(self).regs.ps, rhs);
            assert(m & 0x10 != 0 ==> (p | m) & 0x10 != 0) by (bit_vector);
        }
    }

    /// Decrements an 8-bit value, wrapping, and sets zero and negative from the result.
    pub fn dec8(&mut self, rhs: u8) -> (r: u8)
        ensures
            r == ((rhs - 1) % 0x100) as u8,
            final(self).regs == (Registers {
                ps: zero_negative8(old(self).regs.ps, r),
                ..old(self).regs
            }),
            final(self).mem == old(self).mem,
    {
        let result = rhs.wrapping_sub(1);
        self.set_zero_negative8(result);
        result
    }

    /// Decrements a 16-bit value, wrapping, and sets zero and negative from the result.
    pub fn dec16(&mut self, rhs: u16) -> (r: u16)
        ensures
            r == ((rhs - 1) % 0x10000) as u16,
            final(self).regs == (Registers {
                ps: zero_negative16(old(self).regs.ps, r),
                ..old(self).regs
            }),
            final(self).mem == old(self).mem,
    {
        let result = rhs.wrapping_sub(1);
        self.set_zero_negative16(result);
        result
    }

    /// Increments an 8-bit value, wrapping, and sets zero and negative from the result.
    pub fn inc8(&mut self, rhs: u8) -> (r: u8)
        ensures
            r == ((rhs + 1) % 0x100) as u8,
            final(self).regs == (Registers {
                ps: zero_negative8(old(self).regs.ps, r),
                ..old(self).regs
            }),
            final(self).mem == old(self).mem,
    {
        let result = rhs.wrapping_add(1);
        self.set_zero_negative8(result);
        result
    }

    /// Increments a 16-bit value, wrapping, and sets zero and negative from the result.
    pub fn inc16(&mut self, rhs: u16) -> (r: u16)
        ensures
            r == ((rhs + 1) % 0x10000) as u16,
            final(self).regs == (Registers {
                ps: zero_negative16(old(self).regs.ps, r),
                ..old(self).regs
            }),
            final(self).mem == old(self).mem,
    {
        let result = rhs.wrapping_add(1);
        self.set_zero_negative16(result);
        result
    }

    /// Decrements X at its width; at 8 bits its high byte is kept.
    pub fn dex(&mut self)
        ensures
            ({
                let r = old(self).regs;
                if flag(r.ps, INDEX_MODE_8) {
                    let v = ((low_byte(r.x) - 1) % 0x100) as u8;
                    final(self).regs == Registers {
                        x: with_low_byte(r.x, v),
                        ps: zero_negative8(r.ps, v),
                        ..r
                    }
                } else {
                    let v = ((r.x - 1) % 0x10000) as u16;
                    final(self).regs == Registers { x: v, ps: zero_negative16(r.ps, v), ..r }
                }
            }),
            final(self).mem == old(self).mem,
    {
        if self.index_mode_8() {
            let v = self.dec8((self.regs.x % 0x100) as u8);
            self.regs.x = set_low_byte(self.regs.x, v);
        } else {
            let v = self.dec16(self.regs.x);
            self.regs.x = v;
        }
    }

    /// Decrements Y at its width; at 8 bits its high byte is kept.
    pub fn dey(&mut self)
        ensures
            ({
                let r = old(self).regs;
                if flag(r.ps, INDEX_MODE_8) {
                    let v = ((low_byte(r.y) - 1) % 0x100) as u8;
                    final(self).regs == Registers {
                        y: with_low_byte(r.y, v),
                        ps: zero_negative8(r.ps, v),
                        ..r
                    }
                } else {
                    let v = ((r.y - 1) % 0x10000) as u16;
                    final(self).regs == Registers { y: v, ps: zero_negative16(r.ps, v), ..r }
                }
            }),
            final(self).mem == old(self).mem,
    {
        if self.index_mode_8() {
            let v = self.dec8((self.regs.y % 0x100) as u8);
            self.regs.y = set_low_byte(self.regs.y, v);
        } else {
            let v = self.dec16(self.regs.y);
            self.regs.y = v;
        }
    }

    /// Increments X at its width; at 8 bits its high byte is kept.
    pub fn inx(&mut self)
        ensures
            ({
                let r = old(self).regs;
                if flag(r.ps, INDEX_MODE_8) {
                    let v = ((low_byte(r.x) + 1) % 0x100) as u8;
                    final(self).regs == Registers {
                        x: with_low_byte(r.x, v),
                        ps: zero_negative8(r.ps, v),
                        ..r
                    }
                } else {
                    let v = ((r.x + 1) % 0x10000) as u16;
                    final(self).regs == Registers { x: v, ps: zero_negative16(r.ps, v), ..r }
                }
            }),
            final(self).mem == old(self).mem,
    {
        if self.index_mode_8() {
            let v = self.inc8((self.regs.x % 0x100) as u8);
            self.regs.x = set_low_byte(self.regs.x, v);
        } else {
            let v = self.inc16(self.regs.x);
            self.regs.x = v;
        }
    }

    /// Increments Y at its width; at 8 bits its high byte is kept.
    pub fn iny(&mut self)
        ensures
            ({
                let r = old(self).regs;
                if flag(r.ps, INDEX_MODE_8) {
                    let v = ((low_byte(r.y) + 1) % 0x100) as u8;
                    final(self).regs == Registers {
                        y: with_low_byte(r.y, v),
                        ps: zero_negative8(r.ps, v),
                        ..r
                    }
                } else {
                    let v = ((r.y + 1) % 0x10000) as u16;
                    final(self).regs == Registers { y: v, ps: zero_negative16(r.ps, v), ..r }
                }
            }),
            final(self).mem == old(self).mem,
    {
        if self.index_mode_8() {
            let v = self.inc8((self.regs.y % 0x100) as u8);
            self.regs.y = set_low_byte(self.regs.y, v);
        } else {
            let v = self.inc16(self.regs.y);
            self.regs.y = v;
        }
    }

    /// Decrements A at its width; at 8 bits its high byte is kept.
    pub fn dec_a(&mut self)
        ensures
            ({
                let r = old(self).regs;
                if flag(r.ps, MEMORY_MODE_8) {
                    let v = ((low_byte(r.a) - 1) % 0x100) as u8;
                    final(self).regs == Registers {
                        a: with_low_byte(r.a, v),
                        ps: zero_negative8(r.ps, v),
                        ..r
                    }
                } else {
                    let v = ((r.a - 1) % 0x10000) as u16;
                    final(self).regs == Registers { a: v, ps: zero_negative16(r.ps, v), ..r }
                }
            }),
            final(self).mem == old(self).mem,
    {
        if self.memory_mode_8() {
            let v = self.dec8((self.regs.a % 0x100) as u8);
            self.regs.a = set_low_byte(self.regs.a, v);
        } else {
            let v = self.dec16(self.regs.a);
            self.regs.a = v;
        }
    }

    /// Increments A at its width; at 8 bits its high byte is kept.
    pub fn inc_a(&mut self)
        ensures
            ({
                let r = old(self).regs;
                if flag(r.ps, MEMORY_MODE_8) {
                    let v = ((low_byte(r.a) + 1) % 0x100) as u8;
                    final(self).regs == Registers {
                        a: with_low_byte(r.a, v),
                        ps: zero_negative8(r.ps, v),
                        ..r
                    }
                } else {
                    let v = ((r.a + 1) % 0x10000) as u16;
                    final(self).regs == Registers { a: v, ps: zero_negative16(r.ps, v), ..r }
                }
            }),
            final(self).mem == old(self).mem,
    {
        if self.memory_mode_8() {
            let v = self.inc8((self.regs.a % 0x100) as u8);
            self.regs.a = set_low_byte(self.regs.a, v);
        } else {
            let v = self.inc16(self.regs.a);
            self.regs.a = v;
        }
    }

    /// Compares A with `rhs` at A's width: carry is set iff A >= `rhs`
    /// (unsigned), zero and negative come from the wrapping difference. Only
    /// the status register changes.
    pub fn cmp(&mut self, rhs: u16)
        ensures
            ({
                let r = old(self).regs;
                final(self).regs == Registers {
                    ps: if flag(r.ps, MEMORY_MODE_8) {
                        zero_negative8(
                            with_flag(r.ps, CARRY, low_byte(r.a) >= low_byte(rhs)),
                            ((low_byte(r.a) - low_byte(rhs)) % 0x100) as u8,
                        )
                    } else {
                        zero_negative16(
                            with_flag(r.ps, CARRY, r.a >= rhs),
                            ((r.a - rhs) % 0x10000) as u16,
                        )
                    },
                    ..r
                }
            }),
            final(self).mem == old(self).mem,
    {
        if self.memory_mode_8() {
            let (lhs, rhs) = ((self.regs.a % 0x100) as u8, (rhs % 0x100) as u8);
            self.set_carry(lhs >= rhs);
            self.set_zero_negative8(lhs.wrapping_sub(rhs));
        } else {
            let lhs = self.regs.a;
            self.set_carry(lhs >= rhs);
            self.set_zero_negative16(lhs.wrapping_sub(rhs));
        }
    }

    /// Compares X with `rhs` at X's width: carry is set iff X >= `rhs`
    /// (unsigned), zero and negative come from the wrapping difference. Only
    /// the status register changes.
    pub fn cpx(&mut self, rhs: u16)
        ensures
            ({
                let r = old(self).regs;
                final(self).regs == Registers {
                    ps: if flag(r.ps, INDEX_MODE_8) {
                        zero_negative8(
                            with_flag(r.ps, CARRY, low_byte(r.x) >= low_byte(rhs)),
                            ((low_byte(r.x) - low_byte(rhs)) % 0x100) as u8,
                        )
                    } else {
                        zero_negative16(
                            with_flag(r.ps, CARRY, r.x >= rhs),
                            ((r.x - rhs) % 0x10000) as u16,
                        )
                    },
                    ..r
                }
            }),
            final(self).mem == old(self).mem,
    {
        if self.index_mode_8() {
            let (lhs, rhs) = ((self.regs.x % 0x100) as u8, (rhs % 0x100) as u8);
            self.set_carry(lhs >= rhs);
            self.set_zero_negative8(lhs.wrapping_sub(rhs));
        } else {
            let lhs = self.regs.x;
            self.set_carry(lhs >= rhs);
            self.set_zero_negative16(lhs.wrapping_sub(rhs));
        }
    }

    /// Compares Y with `rhs` at Y's width: carry is set iff Y >= `rhs`
    /// (unsigned), zero and negative come from the wrapping difference. Only
    /// the status register changes.
    pub fn cpy(&mut self, rhs: u16)
        ensures
            ({
                let r = old(self).regs;
                final(self).regs == Registers {
                    ps: if flag(r.ps, INDEX_MODE_8) {
                        zero_negative8(
                            with_flag(r.ps, CARRY, low_byte(r.y) >= low_byte(rhs)),
                            ((low_byte(r.y) - low_byte(rhs)) % 0x100) as u8,
                        )
                    } else {
                        zero_negative16(
                            with_flag(r.ps, CARRY, r.y >= rhs),
                            ((r.y - rhs) % 0x10000) as u16,
                        )
                    },
                    ..r
                }
            }),
            final(self).mem == old(self).mem,
    {
        if self.index_mode_8() {
            let (lhs, rhs) = ((self.regs.y % 0x100) as u8, (rhs % 0x100) as u8);
            self.set_carry(lhs >= rhs);
            self.set_zero_negative8(lhs.wrapping_sub(rhs));
        } else {
            let lhs = self.regs.y;
            self.set_carry(lhs >= rhs);
            self.set_zero_negative16(lhs.wrapping_sub(rhs));
        }
    }

    /// Long jump: the program bank comes from bits 16 to 23 of `rhs`, the
    /// program counter from its low 16 bits.
    pub fn jml(&mut self, rhs: u32)
        ensures
            final(self).regs == (Registers {
                k: (rhs / 0x10000 % 0x100) as u8,
                pc: (rhs % 0x10000) as u16,
                ..old(self).regs
            }),
            final(self).mem == old(self).mem,
    {
        self.regs.k = (rhs / 0x10000 % 0x100) as u8;
        self.regs.pc = (rhs % 0x10000) as u16;
    }

    /// Jump within the program bank.
    pub fn jmp(&mut self, rhs: u16)
        ensures
            final(self).regs == (Registers { pc: rhs, ..old(self).regs }),
            final(self).mem == old(self).mem,
    {
        self.regs.pc = rhs;
    }
}

} // verus!
