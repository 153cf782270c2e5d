//! Laws of the core, stated over the same spec functions the executable
//! contracts use: register round-trips, INC/DEC inversion, DAA's decimal
//! correctness, the echo-RAM alias, and the timer's period behaviour.
use vstd::prelude::*;

use crate::alu::spec_add;
use crate::alu::spec_daa;
use crate::alu::spec_dec;
use crate::alu::spec_inc;
use crate::alu::spec_sub;
use crate::memory::MemoryView;
use crate::memory::mem_read;
use crate::memory::mem_wf;
use crate::memory::mem_write;
use crate::registers::Register16;
use crate::registers::Register8;
use crate::registers::Registers;
use crate::timer::Timer;
use crate::timer::spec_period;
use crate::timer::spec_timer_enabled;
use vstd::arithmetic::div_mod::lemma_add_mod_noop;
use vstd::arithmetic::div_mod::lemma_mod_mod;
use vstd::arithmetic::div_mod::lemma_mod_multiples_vanish;
use vstd::arithmetic::div_mod::lemma_small_mod;

verus! {

/// The low-order register cell of a pair.
pub open spec fn pair_low(rr: Register16) -> Register8 {
    match rr {
        Register16::AF => Register8::F,
        Register16::BC => Register8::C,
        Register16::DE => Register8::E,
        Register16::HL => Register8::L,
    }
}

/// The high-order register cell of a pair.
pub open spec fn pair_high(rr: Register16) -> Register8 {
    match rr {
        Register16::AF => Register8::A,
        Register16::BC => Register8::B,
        Register16::DE => Register8::D,
        Register16::HL => Register8::H,
    }
}

/// Writing an 8-bit register and reading it back returns the value written.
/// F is the one exception in general: its low nibble is wired to zero, so
/// the law holds for every value whose low nibble is clear.
pub proof fn lemma_set8_get8(regs: Registers, r: Register8, v: u8)
    requires
        r is F ==> v & 0x0F == 0,
    ensures
        regs.spec_set8(r, v).spec_get8(r) == v,
{
    if let Register8::F = r {
        assert(v & 0x0F == 0 ==> v & 0xF0 == v) by (bit_vector);
    }
}

/// Writing a 16-bit pair and reading it back returns the value written, and
/// the two underlying cells independently hold its high and low bytes. For
/// AF the value's low nibble must be clear, F's low nibble being wired to
/// zero.
pub proof fn lemma_set16_get16(regs: Registers, rr: Register16, v: u16)
    requires
        rr is AF ==> v & 0x0F == 0,
    ensures
        regs.spec_set16(rr, v).spec_get16(rr) == v,
        regs.spec_set16(rr, v).spec_get8(pair_high(rr)) == (v as int / 256) as u8,
        regs.spec_set16(rr, v).spec_get8(pair_low(rr)) == (v as int % 256) as u8,
{
    let lo = (v as int % 256) as u8;
    if let Register16::AF = rr {
        assert(v & 0x0F == 0 ==> ((v as int % 256) as u8) & 0xF0 == (v as int % 256) as u8)
            by (bit_vector);
        assert(regs.spec_set16(rr, v).spec_get8(pair_low(rr)) == lo);
    }
    assert((v as int / 256) * 256 + v as int % 256 == v as int) by {
        vstd::arithmetic::div_mod::lemma_fundamental_div_mod(v as int, 256);
    };
}

/// INC then DEC returns a register value to what it was (including across
/// the 8-bit wrap), while each of the two operations reports its own Z, N
/// and H flags rather than a net no-op: INC clears N, DEC sets it, and each
/// computes Z and H from its own operand.
pub proof fn lemma_inc_dec_restores(v: u8, f: u8)
    ensures
        spec_dec(spec_inc(v, f).val, spec_inc(v, f).f).val == v,
        spec_inc(v, f).f & 0x40 == 0,
        (spec_inc(v, f).f & 0x80 != 0) == (v == 255),
        (spec_inc(v, f).f & 0x20 != 0) == (v as int % 16 == 15),
        spec_dec(spec_inc(v, f).val, spec_inc(v, f).f).f & 0x40 != 0,
        (spec_dec(spec_inc(v, f).val, spec_inc(v, f).f).f & 0x80 != 0) == (v == 0),
        (spec_dec(spec_inc(v, f).val, spec_inc(v, f).f).f & 0x20 != 0) == (v as int % 16 == 15),
{
    let i = spec_inc(v, f);
    let d = spec_dec(i.val, i.f);
    assert(i.val == ((v as int + 1) % 256) as u8);
    assert(d.val == v);
    crate::alu::lemma_flags_f(i.val == 0, false, v as int % 16 == 15, f & 0x10 != 0);
    crate::alu::lemma_flags_f(d.val == 0, true, i.val as int % 16 == 0, i.f & 0x10 != 0);
    vstd::arithmetic::div_mod::lemma_mod_mod(v as int + 1, 16, 16);
    assert((i.val as int % 16 == 0) == (v as int % 16 == 15));
    assert((d.val == 0) == (v == 0));
}

/// The decimal value a packed-BCD byte encodes.
pub open spec fn bcd_val(v: u8) -> int {
    (v as int / 16) * 10 + v as int % 16
}

/// A byte is valid packed BCD when both nibbles are decimal digits.
pub open spec fn is_bcd(v: u8) -> bool {
    v as int / 16 <= 9 && v as int % 16 <= 9
}

/// DAA after a binary ADD of two BCD-valid bytes yields the two-digit
/// decimal sum modulo 100, again BCD-valid, with C reporting the decimal
/// carry.
pub proof fn lemma_daa_add(a: u8, b: u8)
    requires
        is_bcd(a),
        is_bcd(b),
    ensures
        bcd_val(spec_daa(spec_add(a, b, false).val, spec_add(a, b, false).f).val) == (bcd_val(a)
            + bcd_val(b)) % 100,
        is_bcd(spec_daa(spec_add(a, b, false).val, spec_add(a, b, false).f).val),
        (spec_daa(spec_add(a, b, false).val, spec_add(a, b, false).f).f & 0x10 != 0) == (bcd_val(a)
            + bcd_val(b) >= 100),
{
    let s = spec_add(a, b, false);
    let sval = s.val;
    let h = (a as int % 16) + (b as int % 16) > 15;
    let c = a as int + b as int > 255;
    crate::alu::lemma_flags_f(sval == 0, false, h, c);
    let d = spec_daa(sval, s.f);
    let dval = d.val;
    let carry_out = c || sval > 0x99;
    let adj = (if h || sval as int % 16 > 9 {
        0x06int
    } else {
        0int
    }) + (if carry_out {
        0x60int
    } else {
        0int
    });
    assert(dval == ((sval as int + adj) % 256) as u8);
    crate::alu::lemma_flags_f(dval == 0, false, false, carry_out);
    assert(dval / 16 * 10 + dval % 16 == (a / 16 * 10 + a % 16 + b / 16 * 10 + b % 16) % 100
        && dval / 16 <= 9 && dval % 16 <= 9 && carry_out == (a / 16 * 10 + a % 16 + b / 16 * 10 + b
        % 16 >= 100)) by (bit_vector)
        requires
            a / 16 <= 9,
            a % 16 <= 9,
            b / 16 <= 9,
            b % 16 <= 9,
            sval == ((a + b) % 256) as u8,
            h == (a % 16 + b % 16 > 15),
            c == (a + b > 255),
            carry_out == (c || sval > 0x99),
            dval == ((sval + (if h || sval % 16 > 9 {
                0x06int
            } else {
                0int
            }) + (if carry_out {
                0x60int
            } else {
                0int
            })) % 256) as u8,
    ;
}

/// DAA after a binary SUB of two BCD-valid bytes yields the two-digit
/// decimal difference modulo 100, again BCD-valid, with C reporting the
/// decimal borrow.
pub proof fn lemma_daa_sub(a: u8, b: u8)
    requires
        is_bcd(a),
        is_bcd(b),
    ensures
        bcd_val(spec_daa(spec_sub(a, b, false).val, spec_sub(a, b, false).f).val) == (bcd_val(a)
            - bcd_val(b) + 100) % 100,
        is_bcd(spec_daa(spec_sub(a, b, false).val, spec_sub(a, b, false).f).val),
        (spec_daa(spec_sub(a, b, false).val, spec_sub(a, b, false).f).f & 0x10 != 0) == (bcd_val(a)
            < bcd_val(b)),
{
    let s = spec_sub(a, b, false);
    let sval = s.val;
    let h = (a as int % 16) - (b as int % 16) < 0;
    let c = a < b;
    assert(c == (a as int - b as int - 0 < 0));
    crate::alu::lemma_flags_f(sval == 0, true, h, c);
    let d = spec_daa(sval, s.f);
    let dval = d.val;
    let adj = (if h {
        0x06int
    } else {
        0int
    }) + (if c {
        0x60int
    } else {
        0int
    });
    assert(dval == ((sval as int - adj + 256) % 256) as u8);
    crate::alu::lemma_flags_f(dval == 0, true, false, c);
    assert(dval / 16 * 10 + dval % 16 == (a / 16 * 10 + a % 16 - (b / 16 * 10 + b % 16) + 100) % 100
        && dval / 16 <= 9 && dval % 16 <= 9 && c == (a / 16 * 10 + a % 16 < b / 16 * 10 + b % 16))
        by (bit_vector)
        requires
            a / 16 <= 9,
            a % 16 <= 9,
            b / 16 <= 9,
            b % 16 <= 9,
            sval == ((a - b + 256) % 256) as u8,
            h == (a % 16 < b % 16),
            c == (a < b),
            dval == ((sval - (if h {
                0x06int
            } else {
                0int
            }) - (if c {
                0x60int
            } else {
                0int
            }) + 256) % 256) as u8,
    ;
}

/// Echo RAM aliases WRAM: a write through 0xE000+k is read back through
/// 0xC000+k, and a write through 0xC000+k is read back through 0xE000+k,
/// for every offset the echo window covers.
pub proof fn lemma_echo_alias(m: MemoryView, k: u16, v: u8)
    requires
        mem_wf(m),
        k <= 0x1DFF,
    ensures
        mem_read(mem_write(m, (0xE000 + k) as u16, v), (0xC000 + k) as u16) == v,
        mem_read(mem_write(m, (0xC000 + k) as u16, v), (0xE000 + k) as u16) == v,
{
}

/// The timer state after `n` clock ticks.
pub open spec fn spec_timer_run(t: Timer, n: nat) -> Timer
    decreases n,
{
    if n == 0 {
        t
    } else {
        spec_timer_run(t, (n - 1) as nat).spec_tick().0
    }
}

/// Induction workhorse for the period law: across any prefix of one period,
/// the counter advances tick for tick and TIMA has grown by one exactly
/// when the window has crossed the single period boundary it contains.
proof fn lemma_timer_window(t: Timer, n: nat)
    requires
        !t.reload_pending,
        spec_timer_enabled(t.tac),
        t.tima < 255,
        n <= spec_period(t.tac),
    ensures
        ({
            let p = spec_period(t.tac) as int;
            let r = t.counter as int % p;
            let tr = spec_timer_run(t, n);
            &&& tr.counter as int == (t.counter as int + n) % 65536
            &&& tr.tac == t.tac
            &&& tr.tma == t.tma
            &&& !tr.reload_pending
            &&& tr.tima as int == t.tima as int + (if n >= p - r {
                1int
            } else {
                0int
            })
        }),
    decreases n,
{
    let p = spec_period(t.tac) as int;
    let q: int = if p == 16 {
        4096int
    } else if p == 64 {
        1024int
    } else if p == 256 {
        256int
    } else {
        64int
    };
    assert(p * q == 65536);
    let c = t.counter as int;
    let r = c % p;
    if n == 0 {
        lemma_small_mod(t.counter as nat, 65536);
    } else {
        lemma_timer_window(t, (n - 1) as nat);
        let prev = spec_timer_run(t, (n - 1) as nat);
        let stepped = prev.spec_tick();
        assert(spec_timer_run(t, n) == stepped.0);
        // the counter advances by one more tick
        lemma_small_mod(1nat, 65536);
        lemma_add_mod_noop(c + n - 1, 1, 65536);
        assert(stepped.0.counter as int == (c + n) % 65536);
        // the increment condition is crossing the one period boundary
        lemma_mod_mod(c + n, p, q);
        lemma_add_mod_noop(c, n as int, p);
        lemma_small_mod(r as nat, p as nat);
        if n < p {
            lemma_small_mod(n, p as nat);
            if r + n < p {
                lemma_small_mod((r + n) as nat, p as nat);
            } else {
                lemma_mod_multiples_vanish(1, r + n - p, p);
                lemma_small_mod((r + n - p) as nat, p as nat);
            }
        } else {
            lemma_mod_multiples_vanish(1, 0, p);
            lemma_small_mod(0nat, p as nat);
            lemma_small_mod(r as nat, p as nat);
        }
        assert(((c + n) % 65536) % p == (r + (n as int) % p) % p);
    }
}

/// With TAC enabled at a frequency whose period is P clock ticks (counter
/// bit N, P = 2^(N+1)), running exactly one full period of P ticks
/// increments TIMA by exactly one, wherever in the period the counter
/// started; the counter itself advances tick for tick. (Window chosen so
/// that TIMA does not overflow: the reload behaviour is stated by
/// `Timer::spec_tick` and `lemma_timer_overflow_delay`.)
pub proof fn lemma_timer_period(t: Timer)
    requires
        !t.reload_pending,
        spec_timer_enabled(t.tac),
        t.tima < 255,
    ensures
        spec_timer_run(t, spec_period(t.tac) as nat).tima == t.tima + 1,
        spec_timer_run(t, spec_period(t.tac) as nat).counter as int == (t.counter as int
            + spec_period(t.tac) as int) % 65536,
        !spec_timer_run(t, spec_period(t.tac) as nat).reload_pending,
{
    lemma_timer_window(t, spec_period(t.tac) as nat);
}

/// When TIMA overflows, the reload from TMA and the interrupt request come
/// one tick after the overflow, not on it: the overflow tick leaves TIMA at
/// zero without firing, the next tick loads TMA and fires.
pub proof fn lemma_timer_overflow_delay(t: Timer)
    requires
        !t.reload_pending,
        spec_timer_enabled(t.tac),
        t.tima == 255,
        ((t.counter as int + 1) % 65536) % spec_period(t.tac) as int == 0,
    ensures
        t.spec_tick().1 == false,
        t.spec_tick().0.tima == 0,
        t.spec_tick().0.reload_pending,
        t.spec_tick().0.spec_tick().0.tima == t.tma,
        t.spec_tick().0.spec_tick().1 == true,
{
}


} // verus!
