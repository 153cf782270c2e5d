use gameboyo::Platform;
use gameboyo::registers::{Flags, Register16, Register8, Registers};

#[test]
fn power_on_values_dmg() {
    let regs = Registers::new(&Platform::DMG);
    assert_eq!(regs.get16(Register16::AF), 0x01B0);
    assert_eq!(regs.get16(Register16::BC), 0x0013);
    assert_eq!(regs.get16(Register16::DE), 0x00D8);
    assert_eq!(regs.get16(Register16::HL), 0x014D);
}

#[test]
fn power_on_values_gbc() {
    let regs = Registers::new(&Platform::GBC);
    assert_eq!(regs.get16(Register16::AF), 0x1180);
    assert_eq!(regs.get16(Register16::DE), 0xFF56);
}

#[test]
fn set8_get8_roundtrip_all_registers() {
    let mut regs = Registers::new(&Platform::DMG);
    let all = [
        Register8::A,
        Register8::B,
        Register8::C,
        Register8::D,
        Register8::E,
        Register8::H,
        Register8::L,
    ];
    for (k, r) in all.iter().enumerate() {
        regs.set8(*r, 0x11 * (k as u8 + 1));
        assert_eq!(regs.get8(*r), 0x11 * (k as u8 + 1));
    }
}

#[test]
fn f_low_nibble_reads_zero() {
    let mut regs = Registers::new(&Platform::DMG);
    regs.set8(Register8::F, 0xAB);
    assert_eq!(regs.get8(Register8::F), 0xA0);
}

#[test]
fn set16_get16_roundtrip_and_halves() {
    let mut regs = Registers::new(&Platform::DMG);
    regs.set16(Register16::BC, 0x1234);
    assert_eq!(regs.get16(Register16::BC), 0x1234);
    assert_eq!(regs.get8(Register8::B), 0x12);
    assert_eq!(regs.get8(Register8::C), 0x34);
    regs.set16(Register16::HL, 0xBEEF);
    assert_eq!(regs.get16(Register16::HL), 0xBEEF);
    assert_eq!(regs.get8(Register8::H), 0xBE);
    assert_eq!(regs.get8(Register8::L), 0xEF);
    // AF keeps the low nibble of F clear
    regs.set16(Register16::AF, 0x12FF);
    assert_eq!(regs.get16(Register16::AF), 0x12F0);
}

#[test]
fn flag_bits_set_and_unset() {
    let mut regs = Registers::new(&Platform::DMG);
    regs.set8(Register8::F, 0);
    regs.set_flag(Flags::Z);
    regs.set_flag(Flags::C);
    assert!(regs.get_flag(Flags::Z));
    assert!(!regs.get_flag(Flags::N));
    assert!(!regs.get_flag(Flags::H));
    assert!(regs.get_flag(Flags::C));
    assert_eq!(regs.get8(Register8::F), 0x90);
    regs.unset_flag(Flags::Z);
    assert!(!regs.get_flag(Flags::Z));
    assert_eq!(regs.get8(Register8::F), 0x10);
}

#[test]
fn rotate_left_circular_wraps_bit7_into_bit0_and_carry() {
    let mut regs = Registers::new(&Platform::DMG);
    regs.set8(Register8::B, 0x85);
    regs.rotate_left_circular8(Register8::B);
    assert_eq!(regs.get8(Register8::B), 0x0B);
    assert!(regs.get_flag(Flags::C));
    assert!(!regs.get_flag(Flags::Z));
    assert!(!regs.get_flag(Flags::N));
    assert!(!regs.get_flag(Flags::H));
}

#[test]
fn rotate_left_through_carry_uses_old_carry() {
    let mut regs = Registers::new(&Platform::DMG);
    regs.set8(Register8::F, 0);
    regs.set_flag(Flags::C);
    regs.set8(Register8::D, 0x40);
    regs.rotate_left8(Register8::D);
    assert_eq!(regs.get8(Register8::D), 0x81);
    assert!(!regs.get_flag(Flags::C));
}

#[test]
fn rotate_right_circular_wraps_bit0_into_bit7_and_carry() {
    let mut regs = Registers::new(&Platform::DMG);
    regs.set8(Register8::E, 0x01);
    regs.rotate_right_circular8(Register8::E);
    assert_eq!(regs.get8(Register8::E), 0x80);
    assert!(regs.get_flag(Flags::C));
}

#[test]
fn rotate_right_through_carry_uses_old_carry() {
    let mut regs = Registers::new(&Platform::DMG);
    regs.set8(Register8::F, 0);
    regs.set_flag(Flags::C);
    regs.set8(Register8::L, 0x02);
    regs.rotate_right8(Register8::L);
    assert_eq!(regs.get8(Register8::L), 0x81);
    assert!(!regs.get_flag(Flags::C));
}
