//! The hardware timer: the free-running divider and the TIMA/TMA/TAC
//! overflow counter with its one-tick reload delay.
use vstd::prelude::*;

use crate::Platform;

verus! {

// Power-on value of the internal divider counter, fixed per platform.
pub const DMG_DIV: u16 = 0xABCC;
pub const GBC_DIV: u16 = 0x1EA0;

/// Number of clock ticks between TIMA increments for the frequency selected
/// by TAC's low two bits: counter bit 9, 3, 5 or 7, so period 2^(N+1).
pub open spec fn spec_period(tac: u8) -> u16 {
    if tac as int % 4 == 0 {
        1024
    } else if tac as int % 4 == 1 {
        16
    } else if tac as int % 4 == 2 {
        64
    } else {
        256
    }
}

/// TAC bit 2 is the enable bit.
pub open spec fn spec_timer_enabled(tac: u8) -> bool {
    (tac as int / 4) % 2 == 1
}

/// The hardware timer: a free-running 16-bit divider (DIV is its top byte)
/// and the TIMA/TMA/TAC overflow counter. `reload_pending` records that TIMA
/// overflowed on the previous tick: the reload from TMA and the interrupt
/// request land one tick later, as the hardware does.
pub struct Timer {
    pub counter: u16,
    pub tima: u8,
    pub tma: u8,
    pub tac: u8,
    pub reload_pending: bool,
}

impl Timer {
    /// Power-on state for the selected platform.
    pub open spec fn power_on(platform: Platform) -> Timer {
        Timer {
            counter: match platform {
                Platform::DMG => DMG_DIV,
                Platform::GBC => GBC_DIV,
            },
            tima: 0,
            tma: 0,
            tac: 0,
            reload_pending: false,
        }
    }

    /// One clock tick. The counter always advances. The selected counter bit
    /// falls exactly when the new counter is a multiple of the period, and
    /// that transition increments TIMA when the timer is enabled.
    pub open spec fn spec_tick(self) -> (Timer, bool) {
        let newc = ((self.counter as int + 1) % 65536) as u16;
        if self.reload_pending {
            (Timer { counter: newc, tima: self.tma, reload_pending: false, ..self }, true)
        } else if spec_timer_enabled(self.tac) && newc as int % spec_period(self.tac) as int
            == 0 {
            if self.tima == 255 {
                (Timer { counter: newc, tima: 0, reload_pending: true, ..self }, false)
            } else {
                (Timer { counter: newc, tima: (self.tima + 1) as u8, ..self }, false)
            }
        } else {
            (Timer { counter: newc, ..self }, false)
        }
    }

    pub fn new(platform: &Platform) -> (t: Timer)
        ensures
            t == Timer::power_on(*platform),
    {
        let counter: u16 = match platform {
            Platform::DMG => DMG_DIV,
            Platform::GBC => GBC_DIV,
        };
        Timer { counter, tima: 0, tma: 0, tac: 0, reload_pending: false }
    }

    /// Advances the timer by one clock tick; returns true exactly when the
    /// delayed TIMA reload happens, which is when the Timer interrupt must
    /// be requested.
    pub fn tick(&mut self) -> (fired: bool)
        ensures
            *final(self) == old(self).spec_tick().0,
            fired == old(self).spec_tick().1,
    {
        let newc = if self.counter == 0xFFFF {
            0u16
        } else {
            self.counter + 1
        };
        self.counter = newc;
        if self.reload_pending {
            self.tima = self.tma;
            self.reload_pending = false;
            return true;
        }
        let period: u16 = match self.tac % 4 {
            0 => 1024,
            1 => 16,
            2 => 64,
            _ => 256,
        };
        let enabled = (self.tac / 4) % 2 == 1;
        if enabled && newc % period == 0 {
            if self.tima == 255 {
                self.tima = 0;
                self.reload_pending = true;
            } else {
                self.tima = self.tima + 1;
            }
        }
        false
    }

    /// Reloads TIMA from TMA.
    pub fn set_tima(&mut self)
        ensures
            *final(self) == (Timer { tima: old(self).tma, ..*old(self) }),
    {
        self.tima = self.tma;
    }

    /// Any write to DIV clears the whole internal counter.
    pub fn write_counter(&mut self)
        ensures
            *final(self) == (Timer { counter: 0, ..*old(self) }),
    {
        self.counter = 0;
    }

    /// DIV: the upper byte of the internal counter.
    pub fn div(&self) -> (d: u8)
        ensures
            d == (self.counter as int / 256) as u8,
    {
        (self.counter / 256) as u8
    }
}

} // verus!
