use gb_registers::flags::Condition;
use gb_registers::registers::Registers;

#[test]
fn reset_state() {
    let r = Registers::new();
    assert_eq!(r.a, 0);
    assert_eq!(r.b, 0);
    assert_eq!(r.c, 0);
    assert_eq!(r.d, 0);
    assert_eq!(r.e, 0);
    assert_eq!(r.h, 0);
    assert_eq!(r.l, 0);
    assert_eq!(r.f.to_byte(), 0x00);
    assert_eq!(r.sp, 0xFFFE);
    assert_eq!(r.pc, 0x0100);
}

#[test]
fn bc_round_trip() {
    let mut r = Registers::new();
    for v in [0x0000u16, 0x0001, 0x00FF, 0x0100, 0x1234, 0xFF00, 0xFFFF] {
        r.set_bc(v);
        assert_eq!(r.get_bc(), v);
    }
}

#[test]
fn de_round_trip() {
    let mut r = Registers::new();
    for v in [0x0000u16, 0x00FF, 0xABCD, 0xFF00, 0xFFFF] {
        r.set_de(v);
        assert_eq!(r.get_de(), v);
    }
}

#[test]
fn hl_round_trip() {
    let mut r = Registers::new();
    for v in [0x0000u16, 0x00FF, 0x8001, 0xFF00, 0xFFFF] {
        r.set_hl(v);
        assert_eq!(r.get_hl(), v);
    }
}

#[test]
fn af_masks_low_nibble() {
    let mut r = Registers::new();
    r.set_af(0x1234);
    assert_eq!(r.get_af(), 0x1230);
    assert_eq!(r.a, 0x12);
    assert_eq!(r.f.to_byte(), 0x30);
}

#[test]
fn af_masking_formula() {
    let mut r = Registers::new();
    for v in [0x0000u16, 0x000F, 0x00FF, 0x1234, 0xFFFF, 0xAB0F, 0xABF0] {
        r.set_af(v);
        assert_eq!(r.get_af(), (v & 0xFF00) | (v & 0x00F0));
    }
}

#[test]
fn af_write_sets_flag_conditions() {
    let mut r = Registers::new();
    r.set_af(0x0090);
    assert!(r.f.contains(Condition::Zero));
    assert!(!r.f.contains(Condition::Subtraction));
    assert!(!r.f.contains(Condition::HalfCarry));
    assert!(r.f.contains(Condition::Carry));
}

#[test]
fn hl_composes_from_parts() {
    let mut r = Registers::new();
    r.h = 0x12;
    r.l = 0x34;
    assert_eq!(r.get_hl(), 0x1234);
}

#[test]
fn hl_decomposes_into_parts() {
    let mut r = Registers::new();
    r.set_hl(0x1234);
    assert_eq!(r.h, 0x12);
    assert_eq!(r.l, 0x34);
}

#[test]
fn bc_decomposes_into_parts() {
    let mut r = Registers::new();
    r.set_bc(0xA5C3);
    assert_eq!(r.b, 0xA5);
    assert_eq!(r.c, 0xC3);
}

#[test]
fn get_pair_idempotent() {
    let mut r = Registers::new();
    r.set_bc(0x4242);
    r.set_af(0x77FF);
    assert_eq!(r.get_bc(), r.get_bc());
    assert_eq!(r.get_de(), r.get_de());
    assert_eq!(r.get_hl(), r.get_hl());
    assert_eq!(r.get_af(), r.get_af());
}

#[test]
fn pair_writes_leave_other_registers() {
    let mut r = Registers::new();
    r.set_af(0x11F0);
    r.set_bc(0x2233);
    r.set_de(0x4455);
    r.set_hl(0x6677);
    assert_eq!(r.a, 0x11);
    assert_eq!(r.f.to_byte(), 0xF0);
    assert_eq!(r.get_bc(), 0x2233);
    assert_eq!(r.get_de(), 0x4455);
    assert_eq!(r.get_hl(), 0x6677);
    assert_eq!(r.sp, 0xFFFE);
    assert_eq!(r.pc, 0x0100);
    r.set_hl(0x8899);
    assert_eq!(r.get_bc(), 0x2233);
    assert_eq!(r.get_de(), 0x4455);
    assert_eq!(r.get_af(), 0x11F0);
}
