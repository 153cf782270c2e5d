use gameboyo::Platform;
use gameboyo::emulator::Emulator;
use gameboyo::interrupts::{Interrupt, InterruptEnable, InterruptFlags, InterruptRegisters};

fn emulator_with(code: &[u8]) -> Emulator {
    let mut rom = vec![0u8; 0x8000];
    rom[0x147] = 0x00;
    for (i, b) in code.iter().enumerate() {
        rom[0x100 + i] = *b;
    }
    Emulator::new(&Platform::DMG, &rom).unwrap()
}

#[test]
fn dispatch_takes_five_cycles_and_pushes_pc_high_first() {
    let mut e = emulator_with(&[0x00; 4]);
    // IE = 0x01, IF bit 0 set, IME = 1
    e.cpu.interrupts.enable(Interrupt::VerticalBlanking);
    e.cpu.interrupts.set_flag(Interrupt::VerticalBlanking);
    assert!(e.cpu.interrupts.get_ime());
    let sp0 = e.cpu.sp;
    for k in 0..5 {
        assert_ne!(e.cpu.pc, 0x0040, "vector reached early, after {} cycles", k);
        e.tick();
    }
    assert_eq!(e.cpu.pc, 0x0040);
    assert!(!e.cpu.interrupts.get_flag(Interrupt::VerticalBlanking));
    assert!(!e.cpu.interrupts.get_ime());
    // the pre-interrupt PC 0x0100, high byte pushed first
    assert_eq!(e.cpu.sp, sp0 - 2);
    assert_eq!(e.read(sp0 - 1), 0x01);
    assert_eq!(e.read(sp0 - 2), 0x00);
}

#[test]
fn no_dispatch_with_ime_clear() {
    let mut e = emulator_with(&[0x00; 8]);
    e.cpu.interrupts.reset_ime();
    e.cpu.interrupts.enable(Interrupt::VerticalBlanking);
    e.cpu.interrupts.set_flag(Interrupt::VerticalBlanking);
    for _ in 0..6 {
        e.tick();
    }
    assert_ne!(e.cpu.pc, 0x0040);
    assert!(e.cpu.interrupts.get_flag(Interrupt::VerticalBlanking));
}

#[test]
fn highest_priority_interrupt_wins() {
    let mut e = emulator_with(&[0x00; 8]);
    e.cpu.interrupts.enable(Interrupt::LcdStat);
    e.cpu.interrupts.enable(Interrupt::Joypad);
    e.cpu.interrupts.set_flag(Interrupt::Joypad);
    e.cpu.interrupts.set_flag(Interrupt::LcdStat);
    for _ in 0..5 {
        e.tick();
    }
    assert_eq!(e.cpu.pc, 0x0048);
    assert!(!e.cpu.interrupts.get_flag(Interrupt::LcdStat));
    assert!(e.cpu.interrupts.get_flag(Interrupt::Joypad));
}

#[test]
fn dispatch_never_interrupts_a_mid_flight_instruction() {
    // a 4-cycle JP is in flight when the request arrives
    let mut e = emulator_with(&[0xC3, 0x50, 0x01]);
    e.cpu.interrupts.enable(Interrupt::VerticalBlanking);
    e.tick();
    e.cpu.interrupts.set_flag(Interrupt::VerticalBlanking);
    e.tick();
    e.tick();
    e.tick();
    // the instruction ran to completion first
    assert_eq!(e.cpu.pc, 0x0150);
    // dispatch starts only now
    for _ in 0..5 {
        e.tick();
    }
    assert_eq!(e.cpu.pc, 0x0040);
}

#[test]
fn reti_restores_ime_and_returns() {
    let mut e = emulator_with(&[0x00; 4]);
    e.cpu.interrupts.enable(Interrupt::VerticalBlanking);
    e.cpu.interrupts.set_flag(Interrupt::VerticalBlanking);
    // RETI at the vector
    e.write(0x0040, 0xD9);
    for _ in 0..5 {
        e.tick();
    }
    assert_eq!(e.cpu.pc, 0x0040);
    assert!(!e.cpu.interrupts.get_ime());
    for _ in 0..4 {
        e.tick();
    }
    assert_eq!(e.cpu.pc, 0x0100);
    assert!(e.cpu.interrupts.get_ime());
}

#[test]
fn request_and_acknowledge_accessors() {
    let mut e = emulator_with(&[0x00]);
    e.request_interrupt(Interrupt::Serial);
    assert!(e.cpu.interrupts.get_flag(Interrupt::Serial));
    e.acknowledge_interrupt(Interrupt::Serial);
    assert!(!e.cpu.interrupts.get_flag(Interrupt::Serial));
}

#[test]
fn interrupt_enable_register_bits() {
    let mut ie = InterruptEnable::new();
    ie.set(0);
    ie.set(4);
    assert_eq!(ie.read(), 0b0001_0001);
    assert_eq!(ie.read_bit(0), 1);
    assert_eq!(ie.read_bit(1), 0);
    assert_eq!(ie.read_bit(4), 1);
    ie.reset(0);
    assert_eq!(ie.read(), 0b0001_0000);
    // bits past the top byte are ignored
    ie.set(9);
    assert_eq!(ie.read(), 0b0001_0000);
}

#[test]
fn interrupt_flags_unused_bits_read_as_one() {
    let mut iflags = InterruptFlags::new();
    assert_eq!(iflags.read(), 0xE0);
    assert_eq!(iflags.read_bit(5), 1);
    assert_eq!(iflags.read_bit(7), 1);
    iflags.set(2);
    assert_eq!(iflags.read(), 0xE4);
    assert_eq!(iflags.read_bit(2), 1);
    iflags.reset(2);
    assert_eq!(iflags.read_bit(2), 0);
    // requests past the five real bits are dropped
    iflags.set(6);
    assert_eq!(iflags.read(), 0xE0);
}

#[test]
fn check_interrupt_needs_all_three_gates() {
    let mut ir = InterruptRegisters::new();
    assert!(!ir.check_interrupt(Interrupt::Timer));
    ir.enable(Interrupt::Timer);
    assert!(!ir.check_interrupt(Interrupt::Timer));
    ir.set_flag(Interrupt::Timer);
    assert!(ir.check_interrupt(Interrupt::Timer));
    ir.reset_ime();
    assert!(!ir.check_interrupt(Interrupt::Timer));
    ir.set_ime();
    ir.disable(Interrupt::Timer);
    assert!(!ir.check_interrupt(Interrupt::Timer));
}

#[test]
fn enabled_any_reports_pending_request_bits() {
    let mut ir = InterruptRegisters::new();
    assert!(!ir.enabled_any());
    ir.set_flag(Interrupt::Joypad);
    assert!(ir.enabled_any());
    ir.reset_flag(Interrupt::Joypad);
    assert!(!ir.enabled_any());
}

#[test]
fn timer_overflow_requests_the_timer_interrupt_through_the_driver() {
    let mut e = emulator_with(&[0x00; 64]);
    e.cpu.interrupts.reset_ime();
    // enable the timer at the fastest rate, one increment per 16 clock ticks
    e.timer.tac = 0b101;
    e.timer.counter = 0;
    e.timer.tima = 0xFF;
    // one machine cycle is four clock ticks; the 16th tick overflows and the
    // 17th reloads and requests, so five machine cycles are enough
    for _ in 0..5 {
        e.tick();
    }
    assert!(e.cpu.interrupts.get_flag(Interrupt::Timer));
}
