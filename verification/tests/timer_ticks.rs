use gameboyo::Platform;
use gameboyo::timer::Timer;

fn fresh_timer(tac: u8) -> Timer {
    let mut t = Timer::new(&Platform::DMG);
    t.counter = 0;
    t.tima = 0;
    t.tma = 0;
    t.tac = tac;
    t
}

#[test]
fn div_is_the_top_byte_of_the_counter() {
    let mut t = Timer::new(&Platform::DMG);
    assert_eq!(t.div(), 0xAB);
    t.write_counter();
    assert_eq!(t.div(), 0x00);
}

#[test]
fn disabled_timer_never_increments_tima() {
    let mut t = fresh_timer(0b000);
    for _ in 0..4096 {
        assert!(!t.tick());
    }
    assert_eq!(t.tima, 0);
}

#[test]
fn period_16_increments_tima_every_16_ticks() {
    // TAC frequency select 1 watches counter bit 3: 2^(3+1) ticks per step
    let mut t = fresh_timer(0b101);
    for _ in 0..15 {
        t.tick();
    }
    assert_eq!(t.tima, 0);
    t.tick();
    assert_eq!(t.tima, 1);
    for _ in 0..16 {
        t.tick();
    }
    assert_eq!(t.tima, 2);
}

#[test]
fn period_64_and_256_and_1024() {
    let mut t = fresh_timer(0b110); // bit 5: 64 ticks
    for _ in 0..64 {
        t.tick();
    }
    assert_eq!(t.tima, 1);
    let mut t = fresh_timer(0b111); // bit 7: 256 ticks
    for _ in 0..256 {
        t.tick();
    }
    assert_eq!(t.tima, 1);
    let mut t = fresh_timer(0b100); // bit 9: 1024 ticks
    for _ in 0..1024 {
        t.tick();
    }
    assert_eq!(t.tima, 1);
}

#[test]
fn misaligned_start_still_gives_one_increment_per_period() {
    let mut t = fresh_timer(0b101);
    t.counter = 7;
    for _ in 0..16 {
        t.tick();
    }
    assert_eq!(t.tima, 1);
}

#[test]
fn overflow_reloads_from_tma_one_tick_late() {
    let mut t = fresh_timer(0b101);
    t.tima = 0xFF;
    t.tma = 0xAB;
    // ticks 1..=15: no boundary yet
    for _ in 0..15 {
        assert!(!t.tick());
    }
    assert_eq!(t.tima, 0xFF);
    // tick 16: overflow; TIMA reads 0, no interrupt request yet
    assert!(!t.tick());
    assert_eq!(t.tima, 0x00);
    // tick 17: the reload from TMA and the interrupt request
    assert!(t.tick());
    assert_eq!(t.tima, 0xAB);
    // and nothing more on the next tick
    assert!(!t.tick());
}

#[test]
fn two_hundred_fifty_six_increments_make_exactly_one_overflow() {
    let mut t = fresh_timer(0b101);
    t.tma = 0x10;
    let mut fires = 0u32;
    // 256 increments, then one more tick for the delayed reload
    for _ in 0..(256 * 16 + 1) {
        if t.tick() {
            fires += 1;
        }
    }
    assert_eq!(fires, 1);
    assert_eq!(t.tima, 0x10);
}

#[test]
fn set_tima_reloads_from_tma() {
    let mut t = fresh_timer(0);
    t.tma = 0x42;
    t.set_tima();
    assert_eq!(t.tima, 0x42);
}
