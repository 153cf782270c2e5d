//! The interrupt registers: IE, IF (with its wired-high upper bits), the
//! master enable IME, and EI's one-instruction latency.
use vstd::prelude::*;

verus! {

// Fixed dispatch vectors, in priority order (lowest address = highest priority).
pub const INT_VBL: u16 = 0x0040;
pub const INT_STAT: u16 = 0x0048;
pub const INT_TIMER: u16 = 0x0050;
pub const INT_SERIAL: u16 = 0x0058;
pub const INT_JOYPAD: u16 = 0x0060;

/// The five interrupt kinds, in priority order.
#[derive(Clone, Copy)]
pub enum Interrupt {
    VerticalBlanking,
    LcdStat,
    Timer,
    Serial,
    Joypad,
}

/// Bit of an interrupt kind within IE and IF.
pub open spec fn int_mask(i: Interrupt) -> u8 {
    match i {
        Interrupt::VerticalBlanking => 0x01,
        Interrupt::LcdStat => 0x02,
        Interrupt::Timer => 0x04,
        Interrupt::Serial => 0x08,
        Interrupt::Joypad => 0x10,
    }
}

/// Dispatch vector of an interrupt kind.
pub open spec fn int_vector(i: Interrupt) -> u16 {
    match i {
        Interrupt::VerticalBlanking => INT_VBL,
        Interrupt::LcdStat => INT_STAT,
        Interrupt::Timer => INT_TIMER,
        Interrupt::Serial => INT_SERIAL,
        Interrupt::Joypad => INT_JOYPAD,
    }
}

/// The IE register: all eight bits are stored, only the low five are used.
pub struct InterruptEnable {
    pub bits: u8,
}

impl InterruptEnable {
    pub fn new() -> (ie: InterruptEnable)
        ensures
            ie.bits == 0,
    {
        InterruptEnable { bits: 0 }
    }

    pub open spec fn spec_set(self, bit: u8) -> InterruptEnable {
        if bit <= 7 {
            InterruptEnable { bits: self.bits | (1u8 << bit) }
        } else {
            self
        }
    }

    pub fn set(&mut self, bit: u8)
        ensures
            *final(self) == old(self).spec_set(bit),
    {
        if bit <= 7 {
            self.bits = self.bits | (1u8 << bit);
        }
    }

    pub open spec fn spec_reset(self, bit: u8) -> InterruptEnable {
        if bit <= 7 {
            InterruptEnable { bits: self.bits & !(1u8 << bit) }
        } else {
            self
        }
    }

    pub fn reset(&mut self, bit: u8)
        ensures
            *final(self) == old(self).spec_reset(bit),
    {
        if bit <= 7 {
            self.bits = self.bits & !(1u8 << bit);
        }
    }

    pub fn read(&self) -> (val: u8)
        ensures
            val == self.bits,
    {
        self.bits
    }

    /// 1 if the selected bit is set, 0 otherwise (0 for bits past the top).
    pub fn read_bit(&self, bit: u8) -> (val: u8)
        ensures
            bit <= 7 ==> val == (self.bits >> bit) & 1,
            bit > 7 ==> val == 0,
    {
        if bit <= 7 {
            (self.bits >> bit) & 1
        } else {
            0
        }
    }
}

/// The IF register: five request bits; the unused top three always read as 1.
pub struct InterruptFlags {
    pub bits: u8,
}

impl InterruptFlags {
    /// The unused top three bits are wired to 1.
    pub open spec fn wf(self) -> bool {
        self.bits & 0xE0 == 0xE0
    }

    pub fn new() -> (iflags: InterruptFlags)
        ensures
            iflags.bits == 0xE0,
            iflags.wf(),
    {
        let iflags = InterruptFlags { bits: 0xE0 };
        proof {
            assert(0xE0u8 & 0xE0 == 0xE0) by (bit_vector);
        }
        iflags
    }

    pub open spec fn spec_set(self, bit: u8) -> InterruptFlags {
        if bit <= 4 {
            InterruptFlags { bits: self.bits | (1u8 << bit) }
        } else {
            self
        }
    }

    pub fn set(&mut self, bit: u8)
        ensures
            *final(self) == old(self).spec_set(bit),
            old(self).wf() ==> final(self).wf(),
    {
        if bit <= 4 {
            self.bits = self.bits | (1u8 << bit);
            proof {
                let b0 = old(self).bits;
                let b1 = self.bits;
                assert(b0 & 0xE0 == 0xE0 ==> b1 & 0xE0 == 0xE0) by (bit_vector)
                    requires
                        b1 == b0 | (1u8 << bit),
                        bit <= 4,
                ;
            }
        }
    }

    pub open spec fn spec_reset(self, bit: u8) -> InterruptFlags {
        if bit <= 4 {
            InterruptFlags { bits: self.bits & !(1u8 << bit) }
        } else {
            self
        }
    }

    pub fn reset(&mut self, bit: u8)
        ensures
            *final(self) == old(self).spec_reset(bit),
            old(self).wf() ==> final(self).wf(),
    {
        if bit <= 4 {
            self.bits = self.bits & !(1u8 << bit);
            proof {
                let b0 = old(self).bits;
                let b1 = self.bits;
                assert(b0 & 0xE0 == 0xE0 ==> b1 & 0xE0 == 0xE0) by (bit_vector)
                    requires
                        b1 == b0 & !(1u8 << bit),
                        bit <= 4,
                ;
            }
        }
    }

    pub fn read(&self) -> (val: u8)
        ensures
            val == self.bits,
    {
        self.bits
    }

    /// 1 if the selected request bit is set, 0 otherwise; unused bits read as 1.
    pub fn read_bit(&self, bit: u8) -> (val: u8)
        ensures
            bit <= 4 ==> val == (self.bits >> bit) & 1,
            bit > 4 ==> val == 1,
    {
        if bit <= 4 {
            (self.bits >> bit) & 1
        } else {
            1
        }
    }
}

/// Master-enable bookkeeping: EI has a one-instruction latency, modelled by
/// the `Pending` counter stepped at each instruction boundary.
#[derive(Clone, Copy)]
pub enum InterruptState {
    Disabled,
    Enabled,
    Pending(u32),
}

/// IE, IF and IME together, with the EI-latency state.
pub struct InterruptRegisters {
    pub enable: InterruptEnable,
    pub flags: InterruptFlags,
    pub ime: bool,
    pub state: InterruptState,
}

impl InterruptRegisters {
    pub open spec fn wf(self) -> bool {
        self.flags.wf()
    }

    pub fn new() -> (ir: InterruptRegisters)
        ensures
            ir.enable.bits == 0,
            ir.flags.bits == 0xE0,
            ir.ime,
            ir.state is Enabled,
            ir.wf(),
    {
        InterruptRegisters {
            enable: InterruptEnable::new(),
            flags: InterruptFlags::new(),
            ime: true,
            state: InterruptState::Enabled,
        }
    }

    pub open spec fn spec_enabled(self, i: Interrupt) -> bool {
        self.enable.bits & int_mask(i) != 0
    }

    /// True when the interrupt's IE bit is set.
    pub fn enabled(&self, i: Interrupt) -> (r: bool)
        ensures
            r == self.spec_enabled(i),
    {
        let mask: u8 = match i {
            Interrupt::VerticalBlanking => 0x01,
            Interrupt::LcdStat => 0x02,
            Interrupt::Timer => 0x04,
            Interrupt::Serial => 0x08,
            Interrupt::Joypad => 0x10,
        };
        self.enable.bits & mask != 0
    }

    pub open spec fn spec_enable(self, i: Interrupt) -> InterruptRegisters {
        InterruptRegisters {
            enable: InterruptEnable { bits: self.enable.bits | int_mask(i) },
            ..self
        }
    }

    pub fn enable(&mut self, i: Interrupt)
        ensures
            *final(self) == old(self).spec_enable(i),
            old(self).wf() ==> final(self).wf(),
    {
        let mask: u8 = match i {
            Interrupt::VerticalBlanking => 0x01,
            Interrupt::LcdStat => 0x02,
            Interrupt::Timer => 0x04,
            Interrupt::Serial => 0x08,
            Interrupt::Joypad => 0x10,
        };
        self.enable.bits = self.enable.bits | mask;
    }

    pub open spec fn spec_disable(self, i: Interrupt) -> InterruptRegisters {
        InterruptRegisters {
            enable: InterruptEnable { bits: self.enable.bits & !int_mask(i) },
            ..self
        }
    }

    pub fn disable(&mut self, i: Interrupt)
        ensures
            *final(self) == old(self).spec_disable(i),
            old(self).wf() ==> final(self).wf(),
    {
        let mask: u8 = match i {
            Interrupt::VerticalBlanking => 0x01,
            Interrupt::LcdStat => 0x02,
            Interrupt::Timer => 0x04,
            Interrupt::Serial => 0x08,
            Interrupt::Joypad => 0x10,
        };
        self.enable.bits = self.enable.bits & !mask;
    }

    pub open spec fn spec_get_flag(self, i: Interrupt) -> bool {
        self.flags.bits & int_mask(i) != 0
    }

    /// True when the interrupt's IF request bit is set.
    pub fn get_flag(&self, i: Interrupt) -> (r: bool)
        ensures
            r == self.spec_get_flag(i),
    {
        let mask: u8 = match i {
            Interrupt::VerticalBlanking => 0x01,
            Interrupt::LcdStat => 0x02,
            Interrupt::Timer => 0x04,
            Interrupt::Serial => 0x08,
            Interrupt::Joypad => 0x10,
        };
        self.flags.bits & mask != 0
    }

    pub open spec fn spec_set_flag(self, i: Interrupt) -> InterruptRegisters {
        InterruptRegisters { flags: InterruptFlags { bits: self.flags.bits | int_mask(i) }, ..self }
    }

    pub fn set_flag(&mut self, i: Interrupt)
        ensures
            *final(self) == old(self).spec_set_flag(i),
            old(self).wf() ==> final(self).wf(),
    {
        let mask: u8 = match i {
            Interrupt::VerticalBlanking => 0x01,
            Interrupt::LcdStat => 0x02,
            Interrupt::Timer => 0x04,
            Interrupt::Serial => 0x08,
            Interrupt::Joypad => 0x10,
        };
        self.flags.bits = self.flags.bits | mask;
        proof {
            let b0 = old(self).flags.bits;
            let b1 = self.flags.bits;
            assert(b0 & 0xE0 == 0xE0 ==> b1 & 0xE0 == 0xE0) by (bit_vector)
                requires
                    b1 == b0 | mask,
                    mask == 0x01 || mask == 0x02 || mask == 0x04 || mask == 0x08 || mask == 0x10,
            ;
        }
    }

    pub open spec fn spec_reset_flag(self, i: Interrupt) -> InterruptRegisters {
        InterruptRegisters {
            flags: InterruptFlags { bits: self.flags.bits & !int_mask(i) },
            ..self
        }
    }

    pub fn reset_flag(&mut self, i: Interrupt)
        ensures
            *final(self) == old(self).spec_reset_flag(i),
            old(self).wf() ==> final(self).wf(),
    {
        let mask: u8 = match i {
            Interrupt::VerticalBlanking => 0x01,
            Interrupt::LcdStat => 0x02,
            Interrupt::Timer => 0x04,
            Interrupt::Serial => 0x08,
            Interrupt::Joypad => 0x10,
        };
        self.flags.bits = self.flags.bits & !mask;
        proof {
            let b0 = old(self).flags.bits;
            let b1 = self.flags.bits;
            assert(b0 & 0xE0 == 0xE0 ==> b1 & 0xE0 == 0xE0) by (bit_vector)
                requires
                    b1 == b0 & !mask,
                    mask == 0x01 || mask == 0x02 || mask == 0x04 || mask == 0x08 || mask == 0x10,
            ;
        }
    }

    /// True when any of the five request bits is set.
    pub fn enabled_any(&self) -> (r: bool)
        ensures
            r == (self.flags.bits & 0x1F != 0),
    {
        self.flags.bits & 0x1F != 0
    }

    pub fn get_ime(&self) -> (r: bool)
        ensures
            r == self.ime,
    {
        self.ime
    }

    pub open spec fn spec_set_ime(self) -> InterruptRegisters {
        InterruptRegisters { ime: true, state: InterruptState::Enabled, ..self }
    }

    pub fn set_ime(&mut self)
        ensures
            *final(self) == old(self).spec_set_ime(),
    {
        self.ime = true;
        self.state = InterruptState::Enabled;
    }

    pub open spec fn spec_reset_ime(self) -> InterruptRegisters {
        InterruptRegisters { ime: false, state: InterruptState::Disabled, ..self }
    }

    pub fn reset_ime(&mut self)
        ensures
            *final(self) == old(self).spec_reset_ime(),
    {
        self.ime = false;
        self.state = InterruptState::Disabled;
    }

    pub open spec fn spec_check_interrupt(self, i: Interrupt) -> bool {
        self.ime && self.spec_enabled(i) && self.spec_get_flag(i)
    }

    /// Ready to dispatch: master enable plus the kind's IE and IF bits.
    pub fn check_interrupt(&self, i: Interrupt) -> (r: bool)
        ensures
            r == self.spec_check_interrupt(i),
    {
        self.ime && self.enabled(i) && self.get_flag(i)
    }

    pub open spec fn spec_highest_ready(self) -> Option<Interrupt> {
        if self.spec_check_interrupt(Interrupt::VerticalBlanking) {
            Some(Interrupt::VerticalBlanking)
        } else if self.spec_check_interrupt(Interrupt::LcdStat) {
            Some(Interrupt::LcdStat)
        } else if self.spec_check_interrupt(Interrupt::Timer) {
            Some(Interrupt::Timer)
        } else if self.spec_check_interrupt(Interrupt::Serial) {
            Some(Interrupt::Serial)
        } else if self.spec_check_interrupt(Interrupt::Joypad) {
            Some(Interrupt::Joypad)
        } else {
            None
        }
    }

    pub open spec fn spec_ei(self) -> InterruptRegisters {
        InterruptRegisters { state: InterruptState::Pending(0), ..self }
    }

    /// EI: request the master enable; it lands only after the next
    /// instruction completes.
    pub fn ei(&mut self)
        ensures
            *final(self) == old(self).spec_ei(),
    {
        self.state = InterruptState::Pending(0);
    }

    pub open spec fn spec_check_ei(self) -> InterruptRegisters {
        match self.state {
            InterruptState::Pending(x) => if x == 0 {
                InterruptRegisters { state: InterruptState::Pending(1), ..self }
            } else {
                self.spec_set_ime()
            },
            _ => self,
        }
    }

    /// Stepped once at each instruction boundary to realise EI's latency.
    pub fn check_ei(&mut self)
        ensures
            *final(self) == old(self).spec_check_ei(),
    {
        match self.state {
            InterruptState::Pending(x) => {
                if x == 0 {
                    self.state = InterruptState::Pending(1);
                } else {
                    self.set_ime();
                }
            },
            _ => {},
        }
    }
}

} // verus!
