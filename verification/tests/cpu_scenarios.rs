use gameboyo::Platform;
use gameboyo::cpu::CpuState;
use gameboyo::emulator::Emulator;
use gameboyo::registers::{Flags, Register16, Register8};

fn emulator_with(code: &[u8]) -> Emulator {
    let mut rom = vec![0u8; 0x8000];
    rom[0x147] = 0x00;
    for (i, b) in code.iter().enumerate() {
        rom[0x100 + i] = *b;
    }
    Emulator::new(&Platform::DMG, &rom).unwrap()
}

#[test]
fn nop_then_jp_lands_only_on_the_fourth_tick() {
    // NOP; JP 0x0150
    let mut e = emulator_with(&[0x00, 0xC3, 0x50, 0x01]);
    assert_eq!(e.cpu_state(), CpuState::Ready);
    e.tick();
    // after the NOP's single tick: PC advanced by one, CPU Ready again
    assert_eq!(e.cpu.pc, 0x0101);
    assert_eq!(e.cpu_state(), CpuState::Ready);
    // JP takes 4 machine cycles; PC is 0x0150 only after the 4th
    e.tick();
    assert_ne!(e.cpu.pc, 0x0150);
    e.tick();
    assert_ne!(e.cpu.pc, 0x0150);
    e.tick();
    assert_ne!(e.cpu.pc, 0x0150);
    e.tick();
    assert_eq!(e.cpu.pc, 0x0150);
    assert_eq!(e.cpu_state(), CpuState::Ready);
}

#[test]
fn add_a_u8_half_carry() {
    // ADD A,0x01 with A = 0x0F
    let mut e = emulator_with(&[0xC6, 0x01]);
    e.cpu.registers.a = 0x0F;
    e.tick();
    e.tick();
    assert_eq!(e.cpu.registers.a, 0x10);
    assert!(e.cpu.registers.get_flag(Flags::H));
    assert!(!e.cpu.registers.get_flag(Flags::Z));
    assert!(!e.cpu.registers.get_flag(Flags::N));
    assert!(!e.cpu.registers.get_flag(Flags::C));
}

#[test]
fn sub_a_b_borrows() {
    // SUB A,B with A = 0x00, B = 0x01
    let mut e = emulator_with(&[0x90]);
    e.cpu.registers.a = 0x00;
    e.cpu.registers.b = 0x01;
    e.tick();
    assert_eq!(e.cpu.registers.a, 0xFF);
    assert!(!e.cpu.registers.get_flag(Flags::Z));
    assert!(e.cpu.registers.get_flag(Flags::N));
    assert!(e.cpu.registers.get_flag(Flags::H));
    assert!(e.cpu.registers.get_flag(Flags::C));
}

#[test]
fn inc_then_dec_restores_the_register_with_fresh_flags() {
    // INC B; DEC B
    let mut e = emulator_with(&[0x04, 0x05]);
    e.cpu.registers.b = 0x42;
    e.tick();
    assert_eq!(e.cpu.registers.b, 0x43);
    assert!(!e.cpu.registers.get_flag(Flags::N));
    e.tick();
    assert_eq!(e.cpu.registers.b, 0x42);
    assert!(e.cpu.registers.get_flag(Flags::N));
}

#[test]
fn daa_after_bcd_add() {
    // ADD A,0x27 with A = 0x15; DAA => 0x42
    let mut e = emulator_with(&[0xC6, 0x27, 0x27]);
    e.cpu.registers.a = 0x15;
    e.tick();
    e.tick();
    assert_eq!(e.cpu.registers.a, 0x3C);
    e.tick();
    assert_eq!(e.cpu.registers.a, 0x42);
    assert!(!e.cpu.registers.get_flag(Flags::C));
    assert!(!e.cpu.registers.get_flag(Flags::H));
}

#[test]
fn ld_r_r_and_ld_r_u8() {
    // LD B,0x7E; LD C,B
    let mut e = emulator_with(&[0x06, 0x7E, 0x48]);
    e.tick();
    e.tick();
    assert_eq!(e.cpu.registers.b, 0x7E);
    e.tick();
    assert_eq!(e.cpu.registers.c, 0x7E);
}

#[test]
fn ld_through_hl_reads_and_writes_memory() {
    // LD (HL),A ; LD D,(HL)
    let mut e = emulator_with(&[0x77, 0x56]);
    e.cpu.registers.set16(Register16::HL, 0xC040);
    e.cpu.registers.a = 0x9A;
    e.tick();
    e.tick();
    assert_eq!(e.read(0xC040), 0x9A);
    e.tick();
    e.tick();
    assert_eq!(e.cpu.registers.d, 0x9A);
}

#[test]
fn ld_hl_plus_and_minus_move_the_pointer() {
    // LD (HL+),A ; LD (HL-),A
    let mut e = emulator_with(&[0x22, 0x32]);
    e.cpu.registers.set16(Register16::HL, 0xC000);
    e.cpu.registers.a = 0x31;
    e.tick();
    e.tick();
    assert_eq!(e.read(0xC000), 0x31);
    assert_eq!(e.cpu.registers.get16(Register16::HL), 0xC001);
    e.tick();
    e.tick();
    assert_eq!(e.read(0xC001), 0x31);
    assert_eq!(e.cpu.registers.get16(Register16::HL), 0xC000);
}

#[test]
fn inc_rr_updates_low_half_first_and_keeps_flags() {
    // INC BC from 0x00FF
    let mut e = emulator_with(&[0x03]);
    e.cpu.registers.set16(Register16::BC, 0x00FF);
    e.cpu.registers.f = 0xF0;
    e.tick();
    // first cycle: only the low half is updated
    assert_eq!(e.cpu.registers.c, 0x00);
    assert_eq!(e.cpu.registers.b, 0x00);
    assert_eq!(e.cpu_state(), CpuState::InFlight);
    e.tick();
    assert_eq!(e.cpu.registers.get16(Register16::BC), 0x0100);
    // 16-bit INC/DEC never touch the flags
    assert_eq!(e.cpu.registers.f, 0xF0);
}

#[test]
fn add_hl_rr_sets_half_carry_from_bit_11() {
    // ADD HL,BC with HL = 0x0FFF, BC = 0x0001
    let mut e = emulator_with(&[0x09]);
    e.cpu.registers.set16(Register16::HL, 0x0FFF);
    e.cpu.registers.set16(Register16::BC, 0x0001);
    e.tick();
    e.tick();
    assert_eq!(e.cpu.registers.get16(Register16::HL), 0x1000);
    assert!(e.cpu.registers.get_flag(Flags::H));
    assert!(!e.cpu.registers.get_flag(Flags::C));
    assert!(!e.cpu.registers.get_flag(Flags::N));
}

#[test]
fn jr_takes_a_negative_displacement() {
    // JR -2 jumps back onto itself
    let mut e = emulator_with(&[0x18, 0xFE]);
    e.tick();
    e.tick();
    e.tick();
    assert_eq!(e.cpu.pc, 0x0100);
    assert_eq!(e.cpu_state(), CpuState::Ready);
}

#[test]
fn jr_conditional_is_shorter_when_not_taken() {
    // JR NZ,+2 with Z set: two cycles, no jump
    let mut e = emulator_with(&[0x20, 0x02, 0x00]);
    e.cpu.registers.f = 0x80;
    e.tick();
    e.tick();
    assert_eq!(e.cpu.pc, 0x0102);
    assert_eq!(e.cpu_state(), CpuState::Ready);
}

#[test]
fn call_pushes_the_return_address_and_ret_pops_it() {
    // CALL 0x0140; at 0x0140 a RET
    let mut e = emulator_with(&[0xCD, 0x40, 0x01]);
    e.write(0x0140, 0xC9);
    let sp0 = e.cpu.sp;
    for _ in 0..6 {
        e.tick();
    }
    assert_eq!(e.cpu.pc, 0x0140);
    assert_eq!(e.cpu.sp, sp0 - 2);
    // return address 0x0103, pushed high byte first
    assert_eq!(e.read(sp0 - 1), 0x01);
    assert_eq!(e.read(sp0 - 2), 0x03);
    for _ in 0..4 {
        e.tick();
    }
    assert_eq!(e.cpu.pc, 0x0103);
    assert_eq!(e.cpu.sp, sp0);
}

#[test]
fn push_then_pop_moves_a_pair() {
    // PUSH BC; POP DE
    let mut e = emulator_with(&[0xC5, 0xD1]);
    e.cpu.registers.set16(Register16::BC, 0x1234);
    for _ in 0..4 {
        e.tick();
    }
    for _ in 0..3 {
        e.tick();
    }
    assert_eq!(e.cpu.registers.get16(Register16::DE), 0x1234);
}

#[test]
fn rst_jumps_to_its_fixed_vector() {
    let mut e = emulator_with(&[0xFF]);
    let sp0 = e.cpu.sp;
    for _ in 0..4 {
        e.tick();
    }
    assert_eq!(e.cpu.pc, 0x0038);
    assert_eq!(e.read(sp0 - 1), 0x01);
    assert_eq!(e.read(sp0 - 2), 0x01);
}

#[test]
fn ldh_writes_through_the_extended_window() {
    // LD (FF00+0x80),A then LD A,(FF00+0x80) into a cleared A
    let mut e = emulator_with(&[0xE0, 0x80, 0x3E, 0x00, 0xF0, 0x80]);
    e.cpu.registers.a = 0x5A;
    e.tick();
    e.tick();
    e.tick();
    assert_eq!(e.read(0xFF80), 0x5A);
    e.tick();
    e.tick();
    assert_eq!(e.cpu.registers.a, 0x00);
    e.tick();
    e.tick();
    e.tick();
    assert_eq!(e.cpu.registers.a, 0x5A);
}

#[test]
fn ld_u16_sp_stores_both_bytes() {
    // LD (0xC000),SP
    let mut e = emulator_with(&[0x08, 0x00, 0xC0]);
    for _ in 0..5 {
        e.tick();
    }
    assert_eq!(e.read(0xC000), 0xFE);
    assert_eq!(e.read(0xC001), 0xFF);
}

#[test]
fn add_sp_i8_takes_a_negative_offset() {
    // ADD SP,-2
    let mut e = emulator_with(&[0xE8, 0xFE]);
    for _ in 0..4 {
        e.tick();
    }
    assert_eq!(e.cpu.sp, 0xFFFC);
    assert!(e.cpu.registers.get_flag(Flags::H));
    assert!(e.cpu.registers.get_flag(Flags::C));
    assert!(!e.cpu.registers.get_flag(Flags::Z));
}

#[test]
fn cb_swap_exchanges_the_nibbles() {
    // SWAP A
    let mut e = emulator_with(&[0xCB, 0x37]);
    e.cpu.registers.a = 0xF1;
    e.tick();
    e.tick();
    assert_eq!(e.cpu.registers.a, 0x1F);
    assert_eq!(e.cpu_state(), CpuState::Ready);
}

#[test]
fn cb_bit_tests_a_register_bit() {
    // BIT 7,H with bit set: Z clear, H flag set
    let mut e = emulator_with(&[0xCB, 0x7C]);
    e.cpu.registers.h = 0x80;
    e.tick();
    e.tick();
    assert!(!e.cpu.registers.get_flag(Flags::Z));
    assert!(e.cpu.registers.get_flag(Flags::H));
    assert!(!e.cpu.registers.get_flag(Flags::N));
}

#[test]
fn cb_set_on_memory_takes_four_cycles() {
    // SET 0,(HL)
    let mut e = emulator_with(&[0xCB, 0xC6]);
    e.cpu.registers.set16(Register16::HL, 0xC000);
    e.tick();
    e.tick();
    e.tick();
    assert_eq!(e.cpu_state(), CpuState::InFlight);
    e.tick();
    assert_eq!(e.cpu_state(), CpuState::Ready);
    assert_eq!(e.read(0xC000), 0x01);
}

#[test]
fn cb_res_clears_a_register_bit() {
    // RES 3,B
    let mut e = emulator_with(&[0xCB, 0x98]);
    e.cpu.registers.b = 0xFF;
    e.tick();
    e.tick();
    assert_eq!(e.cpu.registers.b, 0xF7);
}

#[test]
fn undefined_opcode_is_a_one_cycle_no_op() {
    let mut e = emulator_with(&[0xD3, 0x00]);
    e.tick();
    assert_eq!(e.cpu.pc, 0x0101);
    assert_eq!(e.cpu_state(), CpuState::Ready);
}

#[test]
fn halt_suspends_until_an_interrupt_is_pending() {
    let mut e = emulator_with(&[0x76, 0x00]);
    e.cpu.interrupts.reset_ime();
    e.cpu.interrupts.enable.set(2); // enable the Timer kind in IE
    e.tick();
    assert_eq!(e.cpu_state(), CpuState::Halted);
    e.tick();
    e.tick();
    assert_eq!(e.cpu_state(), CpuState::Halted);
    assert_eq!(e.cpu.pc, 0x0101);
    e.request_interrupt(gameboyo::interrupts::Interrupt::Timer);
    e.tick();
    assert_eq!(e.cpu_state(), CpuState::Ready);
}

#[test]
fn ei_lands_only_after_the_next_instruction() {
    // EI; NOP; NOP
    let mut e = emulator_with(&[0xFB, 0x00, 0x00]);
    e.cpu.interrupts.reset_ime();
    e.tick();
    assert!(!e.cpu.interrupts.get_ime());
    e.tick();
    assert!(e.cpu.interrupts.get_ime());
}

#[test]
fn di_clears_ime_at_once() {
    let mut e = emulator_with(&[0xF3]);
    e.tick();
    assert!(!e.cpu.interrupts.get_ime());
}

#[test]
fn jp_conditional_not_taken_is_three_cycles() {
    // JP Z,0x0150 with Z clear: three cycles, fall through
    let mut e = emulator_with(&[0xCA, 0x50, 0x01, 0x00]);
    e.cpu.registers.f = 0x00;
    e.tick();
    e.tick();
    e.tick();
    assert_eq!(e.cpu.pc, 0x0103);
    assert_eq!(e.cpu_state(), CpuState::Ready);
}

#[test]
fn jp_conditional_taken_is_four_cycles() {
    let mut e = emulator_with(&[0xCA, 0x50, 0x01]);
    e.cpu.registers.f = 0x80;
    for _ in 0..4 {
        e.tick();
    }
    assert_eq!(e.cpu.pc, 0x0150);
    assert_eq!(e.cpu_state(), CpuState::Ready);
}

#[test]
fn call_conditional_not_taken_is_three_cycles() {
    // CALL NC with C set: three cycles, nothing pushed
    let mut e = emulator_with(&[0xD4, 0x40, 0x01]);
    e.cpu.registers.f = 0x10;
    let sp0 = e.cpu.sp;
    e.tick();
    e.tick();
    e.tick();
    assert_eq!(e.cpu.pc, 0x0103);
    assert_eq!(e.cpu.sp, sp0);
    assert_eq!(e.cpu_state(), CpuState::Ready);
}

#[test]
fn ret_conditional_not_taken_is_two_cycles() {
    // RET Z with Z clear
    let mut e = emulator_with(&[0xC8, 0x00]);
    e.cpu.registers.f = 0x00;
    e.tick();
    e.tick();
    assert_eq!(e.cpu.pc, 0x0101);
    assert_eq!(e.cpu_state(), CpuState::Ready);
}

#[test]
fn ld_a_through_an_absolute_address() {
    // LD (0xC777),A then LD A,(0xC777) after clearing A
    let mut e = emulator_with(&[0xEA, 0x77, 0xC7, 0x3E, 0x00, 0xFA, 0x77, 0xC7]);
    e.cpu.registers.a = 0x6B;
    for _ in 0..4 {
        e.tick();
    }
    assert_eq!(e.read(0xC777), 0x6B);
    e.tick();
    e.tick();
    assert_eq!(e.cpu.registers.a, 0x00);
    for _ in 0..4 {
        e.tick();
    }
    assert_eq!(e.cpu.registers.a, 0x6B);
}

#[test]
fn ld_hl_sp_plus_offset_sets_flags_from_the_low_byte() {
    // LD HL,SP+0x02 with SP = 0xFFFE
    let mut e = emulator_with(&[0xF8, 0x02]);
    e.tick();
    e.tick();
    e.tick();
    assert_eq!(e.cpu.registers.get16(Register16::HL), 0x0000);
    assert!(e.cpu.registers.get_flag(Flags::H));
    assert!(e.cpu.registers.get_flag(Flags::C));
    assert!(!e.cpu.registers.get_flag(Flags::Z));
}

#[test]
fn ld_sp_hl_copies_the_pair() {
    let mut e = emulator_with(&[0xF9]);
    e.cpu.registers.set16(Register16::HL, 0xD123);
    e.tick();
    e.tick();
    assert_eq!(e.cpu.sp, 0xD123);
}

#[test]
fn dec_rr_wraps_to_all_ones() {
    // DEC DE from 0x0000
    let mut e = emulator_with(&[0x1B]);
    e.cpu.registers.set16(Register16::DE, 0x0000);
    e.tick();
    e.tick();
    assert_eq!(e.cpu.registers.get16(Register16::DE), 0xFFFF);
}

#[test]
fn inc_hl_memory_form_takes_three_cycles() {
    // INC (HL)
    let mut e = emulator_with(&[0x34]);
    e.cpu.registers.set16(Register16::HL, 0xC010);
    e.write(0xC010, 0x0F);
    e.tick();
    e.tick();
    assert_eq!(e.cpu_state(), CpuState::InFlight);
    e.tick();
    assert_eq!(e.cpu_state(), CpuState::Ready);
    assert_eq!(e.read(0xC010), 0x10);
    assert!(e.cpu.registers.get_flag(Flags::H));
}

#[test]
fn cpl_complements_a_and_sets_n_h() {
    let mut e = emulator_with(&[0x2F]);
    e.cpu.registers.a = 0x35;
    e.tick();
    assert_eq!(e.cpu.registers.a, 0xCA);
    assert!(e.cpu.registers.get_flag(Flags::N));
    assert!(e.cpu.registers.get_flag(Flags::H));
}

#[test]
fn scf_and_ccf_drive_the_carry() {
    let mut e = emulator_with(&[0x37, 0x3F]);
    e.cpu.registers.f = 0x00;
    e.tick();
    assert!(e.cpu.registers.get_flag(Flags::C));
    e.tick();
    assert!(!e.cpu.registers.get_flag(Flags::C));
}
