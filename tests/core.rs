use smw::cpu::{Cpu, Fault, Registers};
use smw::mem::{BusFault, Mem};
use smw::rom::{reference_digest_bytes, Rom};
use smw::status::{CARRY, DECIMAL, INDEX_MODE_8, IRQ_DISABLE, MEMORY_MODE_8, NEGATIVE, OVERFLOW, ZERO};

fn cpu_with_vector(lo: u8, hi: u8) -> Cpu {
    let mut data = vec![0xeau8; 0x80000];
    data[0x7ffc] = lo;
    data[0x7ffd] = hi;
    let rom = Rom::with_digest(&data, &reference_digest_bytes()).unwrap();
    Cpu::new(Mem::new(rom))
}

fn cpu() -> Cpu {
    cpu_with_vector(0x00, 0x80)
}

#[test]
fn reset_vector_seeds_pc() {
    let c = cpu_with_vector(0x34, 0x12);
    assert_eq!(
        c.regs,
        Registers {
            a: 0,
            x: 0,
            y: 0,
            sp: 0x01ff,
            d: 0,
            pc: 0x1234,
            k: 0,
            dbr: 0,
            ps: IRQ_DISABLE,
            emulation_mode: true,
        }
    );
    assert!(c.irq_disable());
    assert!(!c.carry());
}

#[test]
fn branch_wraps_backwards_past_zero() {
    let mut c = cpu();
    c.regs.pc = 0xfffe;
    c.set_carry(false);
    c.bcc(0xfc);
    assert_eq!(c.regs.pc, 0xfffa);
    c.regs.pc = 0x0002;
    c.bra(0xfe);
    assert_eq!(c.regs.pc, 0x0000);
    c.regs.pc = 0xfffe;
    c.bra(0x04);
    assert_eq!(c.regs.pc, 0x0002);
}

#[test]
fn conditional_branches_test_one_flag() {
    let mut c = cpu();
    c.regs.pc = 0x1000;
    c.regs.ps = 0;
    c.bcs(0x10);
    c.beq(0x10);
    c.bmi(0x10);
    c.bvs(0x10);
    assert_eq!(c.regs.pc, 0x1000);
    c.bcc(0x01);
    c.bne(0x01);
    c.bpl(0x01);
    c.bvc(0x01);
    assert_eq!(c.regs.pc, 0x1004);
    c.regs.ps = CARRY | ZERO | NEGATIVE | OVERFLOW;
    c.bcc(0x10);
    c.bne(0x10);
    c.bpl(0x10);
    c.bvc(0x10);
    assert_eq!(c.regs.pc, 0x1004);
    c.bcs(0xff);
    c.beq(0xff);
    c.bmi(0xff);
    c.bvs(0xff);
    assert_eq!(c.regs.pc, 0x1000);
}

#[test]
fn long_branch_and_jumps() {
    let mut c = cpu();
    c.regs.pc = 0x0010;
    c.brl(0xfff0);
    assert_eq!(c.regs.pc, 0x0000);
    c.brl(0x8000);
    assert_eq!(c.regs.pc, 0x8000);
    c.jmp(0x4321);
    assert_eq!((c.regs.k, c.regs.pc), (0, 0x4321));
    c.jml(0x123456);
    assert_eq!((c.regs.k, c.regs.pc), (0x12, 0x3456));
}

#[test]
fn decimal_adc_through_the_accumulator() {
    let mut c = cpu();
    c.sed();
    c.clc();
    c.set_memory_mode_8(true);
    c.regs.a = 0xab09;
    c.adc(0x0001);
    assert_eq!(c.regs.a, 0xab10);
    assert!(!c.carry());
    c.regs.a = 0x0099;
    c.adc8(0x01);
    assert_eq!(c.regs.a, 0x0000);
    assert!(c.carry());
    assert!(c.zero());
}

#[test]
fn sixteen_bit_adc_and_sbc() {
    let mut c = cpu();
    c.regs.ps = 0;
    c.regs.a = 0x7fff;
    c.adc(0x0001);
    assert_eq!(c.regs.a, 0x8000);
    assert!(c.overflow() && c.negative() && !c.carry() && !c.zero());
    c.sec();
    c.sbc(0x8000);
    assert_eq!(c.regs.a, 0x0000);
    assert!(c.carry() && c.zero() && !c.negative() && !c.overflow());
    c.regs.a = 0x1000;
    c.sed();
    c.sec();
    c.sbc16(0x0001);
    assert_eq!(c.regs.a, 0x0999);
    assert!(c.carry());
}

#[test]
fn eight_bit_sbc_keeps_high_byte() {
    let mut c = cpu();
    c.regs.ps = MEMORY_MODE_8 | CARRY;
    c.regs.a = 0x5510;
    c.sbc(0x0001);
    assert_eq!(c.regs.a, 0x550f);
    assert!(c.carry());
    c.sbc8(0x10);
    assert_eq!(c.regs.a, 0x55ff);
    assert!(!c.carry() && c.negative());
}

#[test]
fn compare_changes_only_flags() {
    let mut c = cpu();
    c.regs.ps = 0;
    c.regs.a = 0x1234;
    c.regs.x = 0x0005;
    c.regs.y = 0xff80;
    let before = c.regs;
    c.cmp(0x1234);
    assert_eq!(c.regs.a, 0x1234);
    assert!(c.carry() && c.zero() && !c.negative());
    c.cmp(0x1235);
    assert!(!c.carry() && !c.zero() && c.negative());
    c.cpx(0x0004);
    assert!(c.carry() && !c.zero() && !c.negative());
    c.regs.ps = INDEX_MODE_8;
    c.cpy(0x1281);
    assert!(!c.carry() && c.negative());
    assert_eq!(Registers { ps: before.ps, ..c.regs }, before);
}

#[test]
fn rep_in_emulation_keeps_8_bit_widths() {
    let mut c = cpu();
    c.regs.ps = 0xff;
    c.rep(0xff);
    assert_eq!(c.regs.ps, INDEX_MODE_8 | MEMORY_MODE_8);
    c.regs.emulation_mode = false;
    c.rep(INDEX_MODE_8 | MEMORY_MODE_8 | CARRY);
    assert_eq!(c.regs.ps, 0);
}

#[test]
fn sep_truncates_index_registers() {
    let mut c = cpu();
    c.regs.ps = 0;
    c.regs.x = 0x1234;
    c.regs.y = 0xabcd;
    c.sep(CARRY);
    assert_eq!((c.regs.x, c.regs.y), (0x1234, 0xabcd));
    c.sep(INDEX_MODE_8 | DECIMAL);
    assert_eq!(c.regs.ps, CARRY | INDEX_MODE_8 | DECIMAL);
    assert_eq!((c.regs.x, c.regs.y), (0x0034, 0x00cd));
    c.regs.emulation_mode = false;
    c.rep(INDEX_MODE_8);
    c.inx();
    assert_eq!(c.regs.x, 0x0035);
}

#[test]
fn increments_and_decrements_by_width() {
    let mut c = cpu();
    c.regs.ps = INDEX_MODE_8 | MEMORY_MODE_8;
    c.regs.x = 0x1200;
    c.dex();
    assert_eq!(c.regs.x, 0x12ff);
    assert!(c.negative() && !c.zero());
    c.regs.y = 0x34ff;
    c.iny();
    assert_eq!(c.regs.y, 0x3400);
    assert!(c.zero() && !c.negative());
    c.regs.a = 0xaa7f;
    c.inc_a();
    assert_eq!(c.regs.a, 0xaa80);
    c.dec_a();
    assert_eq!(c.regs.a, 0xaa7f);
    c.regs.ps = 0;
    c.regs.x = 0xffff;
    c.inx();
    assert_eq!(c.regs.x, 0x0000);
    assert!(c.zero());
    c.dey();
    assert_eq!(c.regs.y, 0x33ff);
    c.regs.a = 0x0000;
    c.dec_a();
    assert_eq!(c.regs.a, 0xffff);
    assert!(c.negative());
    assert_eq!(c.inc8(0xff), 0x00);
    assert_eq!(c.dec16(0x0000), 0xffff);
    assert_eq!(c.inc16(0x7fff), 0x8000);
    assert_eq!(c.dec8(0x01), 0x00);
    assert!(c.zero());
}

#[test]
fn flag_instructions_touch_one_bit() {
    let mut c = cpu();
    c.regs.ps = 0;
    c.sec();
    c.sed();
    c.sei();
    assert_eq!(c.regs.ps, CARRY | DECIMAL | IRQ_DISABLE);
    c.set_overflow(true);
    c.clv();
    c.cli();
    assert_eq!(c.regs.ps, CARRY | DECIMAL);
    c.cld();
    c.clc();
    assert_eq!(c.regs.ps, 0);
    c.set_index_mode_8(true);
    c.set_memory_mode_8(true);
    c.set_negative(true);
    c.set_zero(true);
    assert!(c.index_mode_8() && c.memory_mode_8() && c.negative() && c.zero());
    c.set_zero_negative8(0x80);
    assert!(!c.zero() && c.negative());
    c.set_zero_negative16(0x0000);
    assert!(c.zero() && !c.negative());
    c.set_decimal(true);
    c.set_irq_disable(true);
    assert!(c.decimal() && c.irq_disable());
}

#[test]
fn step_reports_unimplemented_opcode() {
    let mut c = cpu();
    let before = c.regs;
    assert_eq!(c.exec(), Err(Fault::UnimplementedOpcode { opcode: 0xea, address: 0x008000 }));
    assert_eq!(c.regs, before);
    c.regs.pc = 0x1234;
    assert_eq!(c.run(), Fault::UnimplementedOpcode { opcode: 0x00, address: 0x001234 });
}

#[test]
fn step_reports_fetch_fault() {
    let mut c = cpu();
    c.regs.k = 0x40;
    c.regs.pc = 0x0000;
    assert_eq!(c.exec(), Err(Fault::Bus(BusFault::Unmapped { address: 0x400000 })));
    c.regs.k = 0x00;
    c.regs.pc = 0x2100;
    assert_eq!(c.run(), Fault::Bus(BusFault::Reserved { address: 0x002100 }));
}
