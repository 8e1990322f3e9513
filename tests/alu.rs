use smw::alu::{add_with_carry16, add_with_carry8, sub_with_carry16, sub_with_carry8, Sum16, Sum8};

#[test]
fn binary_adc8_is_commutative_for_all_operands() {
    for a in 0..=255u8 {
        for b in 0..=255u8 {
            for c in [false, true] {
                assert_eq!(add_with_carry8(a, b, c, false), add_with_carry8(b, a, c, false));
            }
        }
    }
}

#[test]
fn binary_adc16_is_commutative_on_samples() {
    let samples = [0u16, 1, 0x7f, 0x80, 0xff, 0x100, 0x7fff, 0x8000, 0x8001, 0xfffe, 0xffff, 0x1234];
    for &a in &samples {
        for &b in &samples {
            for c in [false, true] {
                assert_eq!(add_with_carry16(a, b, c, false), add_with_carry16(b, a, c, false));
            }
        }
    }
}

#[test]
fn binary_sbc8_is_adc8_of_complement() {
    for a in 0..=255u8 {
        for b in 0..=255u8 {
            for c in [false, true] {
                assert_eq!(sub_with_carry8(a, b, c, false), add_with_carry8(a, !b, c, false));
            }
        }
    }
}

#[test]
fn binary_sbc16_is_adc16_of_complement() {
    let samples = [0u16, 1, 0x7f, 0x80, 0xff, 0x100, 0x7fff, 0x8000, 0xffff, 0x1234];
    for &a in &samples {
        for &b in &samples {
            for c in [false, true] {
                assert_eq!(sub_with_carry16(a, b, c, false), add_with_carry16(a, !b, c, false));
            }
        }
    }
}

#[test]
fn decimal_sbc8_differs_from_adc8_of_complement() {
    // 00 - 01 borrows to 99 in decimal; adding the complement does not.
    assert_eq!(sub_with_carry8(0x00, 0x01, true, true), Sum8 { value: 0x99, carry: false, overflow: false });
    assert_ne!(sub_with_carry8(0x00, 0x01, true, true), add_with_carry8(0x00, !0x01, true, true));
}

#[test]
fn binary_adc8_values() {
    assert_eq!(add_with_carry8(0x7f, 0x01, false, false), Sum8 { value: 0x80, carry: false, overflow: true });
    assert_eq!(add_with_carry8(0xff, 0x01, false, false), Sum8 { value: 0x00, carry: true, overflow: false });
    assert_eq!(add_with_carry8(0x80, 0x80, true, false), Sum8 { value: 0x01, carry: true, overflow: true });
    assert_eq!(add_with_carry8(0x12, 0x34, true, false), Sum8 { value: 0x47, carry: false, overflow: false });
}

#[test]
fn binary_adc16_values() {
    assert_eq!(add_with_carry16(0x7fff, 0x0001, false, false), Sum16 { value: 0x8000, carry: false, overflow: true });
    assert_eq!(add_with_carry16(0xffff, 0x0000, true, false), Sum16 { value: 0x0000, carry: true, overflow: false });
    assert_eq!(add_with_carry16(0x1234, 0x4321, false, false), Sum16 { value: 0x5555, carry: false, overflow: false });
}

#[test]
fn binary_sbc_values() {
    assert_eq!(sub_with_carry8(0x10, 0x01, true, false), Sum8 { value: 0x0f, carry: true, overflow: false });
    assert_eq!(sub_with_carry8(0x00, 0x01, true, false), Sum8 { value: 0xff, carry: false, overflow: false });
    assert_eq!(sub_with_carry8(0x80, 0x01, true, false), Sum8 { value: 0x7f, carry: true, overflow: true });
    assert_eq!(sub_with_carry16(0x0000, 0x0001, true, false), Sum16 { value: 0xffff, carry: false, overflow: false });
    assert_eq!(sub_with_carry16(0x1000, 0x0001, false, false), Sum16 { value: 0x0ffe, carry: true, overflow: false });
}

#[test]
fn decimal_adc8_examples() {
    assert_eq!(add_with_carry8(0x09, 0x01, false, true).value, 0x10);
    assert!(!add_with_carry8(0x09, 0x01, false, true).carry);
    assert_eq!(add_with_carry8(0x99, 0x01, false, true).value, 0x00);
    assert!(add_with_carry8(0x99, 0x01, false, true).carry);
    assert_eq!(add_with_carry8(0x45, 0x38, true, true).value, 0x84);
}

#[test]
fn decimal_adc8_is_decimal_addition_on_bcd() {
    let bcd = |n: u32| ((n / 10) * 16 + n % 10) as u8;
    for x in 0..100u32 {
        for y in 0..100u32 {
            for c in [false, true] {
                let total = x + y + c as u32;
                let s = add_with_carry8(bcd(x), bcd(y), c, true);
                assert_eq!(s.value, bcd(total % 100));
                assert_eq!(s.carry, total >= 100);
            }
        }
    }
}

#[test]
fn decimal_adc16_examples() {
    assert_eq!(add_with_carry16(0x0999, 0x0001, false, true).value, 0x1000);
    let s = add_with_carry16(0x9999, 0x0001, false, true);
    assert_eq!(s.value, 0x0000);
    assert!(s.carry);
    let s = add_with_carry16(0x1234, 0x8765, true, true);
    assert_eq!(s.value, 0x0000);
    assert!(s.carry);
    assert_eq!(add_with_carry16(0x2500, 0x2500, false, true).value, 0x5000);
}

#[test]
fn decimal_sbc_examples() {
    assert_eq!(sub_with_carry8(0x10, 0x01, true, true), Sum8 { value: 0x09, carry: true, overflow: false });
    assert_eq!(sub_with_carry8(0x50, 0x25, true, true).value, 0x25);
    let s = sub_with_carry16(0x1000, 0x0001, true, true);
    assert_eq!(s.value, 0x0999);
    assert!(s.carry);
    let s = sub_with_carry16(0x0000, 0x0001, true, true);
    assert_eq!(s.value, 0x9999);
    assert!(!s.carry);
}
