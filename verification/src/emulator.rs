//! The driver: each external tick advances the timer by four clock ticks,
//! runs the interrupt dispatch sequence when one is due, and steps the CPU
//! by one machine cycle.
use vstd::prelude::*;

use crate::Platform;
use crate::cpu::CPU;
use crate::cpu::CpuState;
use crate::cpu::spec_tick;
use crate::cpu::wrap16;
use crate::cpu::wsub16;
use crate::interrupts::Interrupt;
use crate::interrupts::int_vector;
use crate::memory::LoadError;
use crate::memory::Memory;
use crate::memory::MemoryView;
use crate::memory::mem_read;
use crate::memory::mem_wf;
use crate::memory::mem_write;
use crate::timer::Timer;

verus! {

/// Where the five-cycle interrupt dispatch sequence currently stands. The
/// first cycle (selection, clearing the IF bit and IME) moves from `Idle` to
/// `Wait`; one more internal cycle follows; then the two PC-byte pushes,
/// high byte first; then the jump to the vector.
#[derive(Clone, Copy)]
pub enum DispatchState {
    Idle,
    Wait(Interrupt),
    PushHigh(Interrupt),
    PushLow(Interrupt),
    Vector(Interrupt),
}

/// Mathematical model of the whole core.
pub struct EmulatorView {
    pub cpu: CPU,
    pub mem: MemoryView,
    pub timer: Timer,
    pub dispatch: DispatchState,
}

/// The emulator driver: one `tick` call advances timer, interrupt dispatch
/// and CPU by exactly one machine cycle.
pub struct Emulator {
    pub cpu: CPU,
    pub memory: Memory,
    pub timer: Timer,
    pub dispatch: DispatchState,
}

impl View for Emulator {
    type V = EmulatorView;

    open spec fn view(&self) -> EmulatorView {
        EmulatorView { cpu: self.cpu, mem: self.memory@, timer: self.timer, dispatch: self.dispatch }
    }
}

/// Four clock ticks of the timer (one machine cycle) and whether any of
/// them raised the Timer interrupt request.
pub open spec fn spec_timer4(t: Timer) -> (Timer, bool) {
    let r1 = t.spec_tick();
    let r2 = r1.0.spec_tick();
    let r3 = r2.0.spec_tick();
    let r4 = r3.0.spec_tick();
    (r4.0, r1.1 || r2.1 || r3.1 || r4.1)
}

/// An ordinary CPU machine cycle within the driver.
pub open spec fn spec_cpu_cycle(e: EmulatorView) -> EmulatorView {
    let r = spec_tick(e.cpu, e.mem);
    EmulatorView { cpu: r.0, mem: r.1, ..e }
}

/// One machine cycle of the whole core: the timer advances four clock
/// ticks (requesting the Timer interrupt on the delayed reload); then, with
/// the CPU between instructions, the interrupt dispatch sequence runs if an
/// interrupt is ready or already being dispatched; otherwise the CPU runs
/// its own cycle.
pub open spec fn spec_emu_tick(e: EmulatorView) -> EmulatorView {
    let tr = spec_timer4(e.timer);
    let cpu0 = if tr.1 {
        CPU { interrupts: e.cpu.interrupts.spec_set_flag(Interrupt::Timer), ..e.cpu }
    } else {
        e.cpu
    };
    let e1 = EmulatorView { cpu: cpu0, timer: tr.0, ..e };
    if cpu0.instr is None && !cpu0.halted {
        match e.dispatch {
            DispatchState::Idle => match cpu0.interrupts.spec_highest_ready() {
                Some(i) => EmulatorView {
                    cpu: CPU {
                        interrupts: cpu0.interrupts.spec_reset_flag(i).spec_reset_ime(),
                        ..cpu0
                    },
                    dispatch: DispatchState::Wait(i),
                    ..e1
                },
                None => spec_cpu_cycle(e1),
            },
            DispatchState::Wait(i) => EmulatorView { dispatch: DispatchState::PushHigh(i), ..e1 },
            DispatchState::PushHigh(i) => {
                let sp1 = wrap16(cpu0.sp as int - 1);
                EmulatorView {
                    cpu: CPU { sp: sp1, ..cpu0 },
                    mem: mem_write(e1.mem, sp1, (cpu0.pc as int / 256) as u8),
                    dispatch: DispatchState::PushLow(i),
                    ..e1
                }
            },
            DispatchState::PushLow(i) => {
                let sp1 = wrap16(cpu0.sp as int - 1);
                EmulatorView {
                    cpu: CPU { sp: sp1, ..cpu0 },
                    mem: mem_write(e1.mem, sp1, (cpu0.pc as int % 256) as u8),
                    dispatch: DispatchState::Vector(i),
                    ..e1
                }
            },
            DispatchState::Vector(i) => EmulatorView {
                cpu: CPU { pc: int_vector(i), ..cpu0 },
                dispatch: DispatchState::Idle,
                ..e1
            },
        }
    } else {
        spec_cpu_cycle(e1)
    }
}

impl Emulator {
    pub open spec fn wf(self) -> bool {
        &&& self.cpu.wf()
        &&& mem_wf(self.memory@)
    }

    /// Builds the whole core from a ROM image for the selected platform:
    /// every component seeded with its power-on constants. Fails exactly
    /// when the ROM image is rejected (truncated header, or a cartridge
    /// type this core does not bank).
    pub fn new(platform: &Platform, rom_data: &Vec<u8>) -> (r: Result<Emulator, LoadError>)
        ensures
            rom_data@.len() < 0x150 ==> r == Result::<Emulator, LoadError>::Err(
                LoadError::TruncatedHeader,
            ),
            rom_data@.len() >= 0x150 && rom_data@[0x147] != 0 ==> r == Result::<
                Emulator,
                LoadError,
            >::Err(LoadError::UnsupportedCartridgeType),
            rom_data@.len() >= 0x150 && rom_data@[0x147] == 0 ==> r is Ok,
            r is Ok ==> {
                let e = r->Ok_0;
                &&& e.wf()
                &&& e.cpu == CPU::power_on(*platform)
                &&& e.timer == Timer::power_on(*platform)
                &&& e.dispatch is Idle
                &&& forall|i: int|
                    0 <= i < 0x4000 ==> e.memory@.rom0[i] == crate::memory::load_byte(rom_data@, i)
                &&& forall|i: int|
                    0 <= i < 0x4000 ==> e.memory@.mbc_rom[i] == crate::memory::load_byte(
                        rom_data@,
                        0x4000 + i,
                    )
            },
    {
        let memory = match Memory::new(rom_data) {
            Ok(m) => m,
            Err(err) => {
                return Err(err);
            },
        };
        let e = Emulator {
            cpu: CPU::new(platform),
            memory,
            timer: Timer::new(platform),
            dispatch: DispatchState::Idle,
        };
        Ok(e)
    }

    /// One machine cycle of the whole core.
    pub fn tick(&mut self)
        requires
            old(self).wf(),
        ensures
            final(self).wf(),
            final(self)@ == spec_emu_tick(old(self)@),
    {
        let f1 = self.timer.tick();
        let f2 = self.timer.tick();
        let f3 = self.timer.tick();
        let f4 = self.timer.tick();
        if f1 || f2 || f3 || f4 {
            self.cpu.interrupts.set_flag(Interrupt::Timer);
        }
        let ready = self.cpu.instr.is_none() && !self.cpu.halted;
        if ready {
            match self.dispatch {
                DispatchState::Idle => {
                    match self.cpu.get_interrupt() {
                        Some(i) => {
                            self.cpu.interrupts.reset_flag(i);
                            self.cpu.interrupts.reset_ime();
                            self.dispatch = DispatchState::Wait(i);
                        },
                        None => {
                            self.cpu.tick(&mut self.memory);
                        },
                    }
                },
                DispatchState::Wait(i) => {
                    self.dispatch = DispatchState::PushHigh(i);
                },
                DispatchState::PushHigh(i) => {
                    self.cpu.sp = wsub16(self.cpu.sp, 1);
                    self.memory.write(self.cpu.sp, (self.cpu.pc / 256) as u8);
                    self.dispatch = DispatchState::PushLow(i);
                },
                DispatchState::PushLow(i) => {
                    self.cpu.sp = wsub16(self.cpu.sp, 1);
                    self.memory.write(self.cpu.sp, (self.cpu.pc % 256) as u8);
                    self.dispatch = DispatchState::Vector(i);
                },
                DispatchState::Vector(i) => {
                    self.cpu.load_vector(i);
                    self.dispatch = DispatchState::Idle;
                },
            }
        } else {
            self.cpu.tick(&mut self.memory);
        }
    }

    /// Peripheral access to the routed address space.
    pub fn read(&self, addr: u16) -> (data: u8)
        requires
            self.wf(),
        ensures
            data == mem_read(self@.mem, addr),
    {
        self.memory.read(addr)
    }

    /// Peripheral access to the routed address space.
    pub fn write(&mut self, addr: u16, data: u8)
        requires
            old(self).wf(),
        ensures
            final(self).wf(),
            final(self)@ == (EmulatorView { mem: mem_write(old(self)@.mem, addr, data), ..old(
                self,
            )@ }),
    {
        self.memory.write(addr, data);
    }

    /// Requests an interrupt of the given kind (sets its IF bit).
    pub fn request_interrupt(&mut self, i: Interrupt)
        requires
            old(self).wf(),
        ensures
            final(self).wf(),
            final(self)@ == (EmulatorView {
                cpu: CPU {
                    interrupts: old(self).cpu.interrupts.spec_set_flag(i),
                    ..old(self).cpu
                },
                ..old(self)@
            }),
    {
        self.cpu.interrupts.set_flag(i);
    }

    /// Acknowledges an interrupt of the given kind (clears its IF bit).
    pub fn acknowledge_interrupt(&mut self, i: Interrupt)
        requires
            old(self).wf(),
        ensures
            final(self).wf(),
            final(self)@ == (EmulatorView {
                cpu: CPU {
                    interrupts: old(self).cpu.interrupts.spec_reset_flag(i),
                    ..old(self).cpu
                },
                ..old(self)@
            }),
    {
        self.cpu.interrupts.reset_flag(i);
    }

    /// Externally visible CPU state.
    pub fn cpu_state(&self) -> (s: CpuState)
        ensures
            s == (if self.cpu.halted {
                CpuState::Halted
            } else if self.cpu.instr is Some {
                CpuState::InFlight
            } else {
                CpuState::Ready
            }),
    {
        self.cpu.state()
    }
}

} // verus!
