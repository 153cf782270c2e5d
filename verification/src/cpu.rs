//! The CPU execution engine: the per-machine-cycle instruction state
//! machine over the full unprefixed and 0xCB-prefixed opcode tables. The
//! spec functions in this module give every (opcode, cycle) pair its exact
//! meaning, and `CPU::tick` is proved to follow them.
use vstd::prelude::*;

use crate::Platform;
use crate::alu::Alu8;
use crate::alu::alu_add;
use crate::alu::alu_and;
use crate::alu::alu_daa;
use crate::alu::alu_dec;
use crate::alu::alu_inc;
use crate::alu::alu_or;
use crate::alu::alu_sub;
use crate::alu::alu_xor;
use crate::alu::exec_add16;
use crate::alu::exec_add_sp;
use crate::alu::exec_rel_target;
use crate::alu::exec_rl;
use crate::alu::exec_rlc;
use crate::alu::exec_rr;
use crate::alu::exec_rrc;
use crate::alu::exec_sla;
use crate::alu::exec_sra;
use crate::alu::exec_srl;
use crate::alu::exec_swap;
use crate::alu::flags_to_f;
use crate::alu::pack_flags;
use crate::alu::spec_add;
use crate::alu::spec_add16;
use crate::alu::spec_add_sp;
use crate::alu::spec_and;
use crate::alu::spec_daa;
use crate::alu::spec_dec;
use crate::alu::spec_inc;
use crate::alu::spec_or;
use crate::alu::spec_rel_target;
use crate::alu::spec_rl;
use crate::alu::spec_rlc;
use crate::alu::spec_rr;
use crate::alu::spec_rrc;
use crate::alu::spec_sla;
use crate::alu::spec_sra;
use crate::alu::spec_srl;
use crate::alu::spec_sub;
use crate::alu::spec_swap;
use crate::alu::spec_xor;
use crate::interrupts::INT_JOYPAD;
use crate::interrupts::INT_SERIAL;
use crate::interrupts::INT_STAT;
use crate::interrupts::INT_TIMER;
use crate::interrupts::INT_VBL;
use crate::interrupts::Interrupt;
use crate::interrupts::InterruptRegisters;
use crate::interrupts::int_vector;
use crate::memory::Memory;
use crate::memory::MemoryView;
use crate::memory::mem_read;
use crate::memory::mem_write;
use crate::registers::Register16;
use crate::registers::Register8;
use crate::registers::Registers;

verus! {

// Power-on values of the pointer registers, fixed per platform.
pub const DMG_SP: u16 = 0xFFFE;
pub const DMG_PC: u16 = 0x0100;
pub const GBC_SP: u16 = 0xFFFE;
pub const GBC_PC: u16 = 0x0100;

/// 16-bit wrap-around.
pub open spec fn wrap16(x: int) -> u16 {
    ((x % 65536 + 65536) % 65536) as u16
}

pub fn wadd16(a: u16, b: u16) -> (r: u16)
    ensures
        r == wrap16(a as int + b as int),
{
    ((a as u32 + b as u32) % 65536) as u16
}

pub fn wsub16(a: u16, b: u16) -> (r: u16)
    ensures
        r == wrap16(a as int - b as int),
{
    ((a as u32 + 65536 - b as u32) % 65536) as u16
}

/// The in-flight instruction record: the opcode being executed, how many
/// machine cycles of it have elapsed (the fetch cycle is cycle 1), one
/// 16-bit and one 8-bit scratch value, and whether the opcode came from the
/// 0xCB-prefixed table.
#[derive(Clone, Copy)]
pub struct InstructionState {
    pub opcode: u8,
    pub elapsed: u8,
    pub addr: u16,
    pub data: u8,
    pub prefixed: bool,
}

/// Externally visible execution state of the CPU.
#[derive(Clone, Copy, Debug, PartialEq, Eq, Structural)]
pub enum CpuState {
    Ready,
    InFlight,
    Halted,
}

/// The CPU: register file, pointer registers, interrupt registers, and the
/// optional in-flight instruction record (absent between instructions).
pub struct CPU {
    pub registers: Registers,
    pub sp: u16,
    pub pc: u16,
    pub interrupts: InterruptRegisters,
    pub instr: Option<InstructionState>,
    pub halted: bool,
}

// ---------------------------------------------------------------------------
// Spec-level decode helpers
// ---------------------------------------------------------------------------
/// Register selected by a 3-bit code of the instruction encoding
/// (code 6, the memory operand, is handled separately by every user).
pub open spec fn spec_code_reg(c: int) -> Register8 {
    if c == 0 {
        Register8::B
    } else if c == 1 {
        Register8::C
    } else if c == 2 {
        Register8::D
    } else if c == 3 {
        Register8::E
    } else if c == 4 {
        Register8::H
    } else if c == 5 {
        Register8::L
    } else {
        Register8::A
    }
}

/// Branch condition selected by a 2-bit code: NZ, Z, NC, C.
pub open spec fn spec_cond(y: int, f: u8) -> bool {
    if y == 0 {
        f & 0x80 == 0
    } else if y == 1 {
        f & 0x80 != 0
    } else if y == 2 {
        f & 0x10 == 0
    } else {
        f & 0x10 != 0
    }
}

/// 2^y for a 3-bit code.
pub open spec fn spec_bit_val(y: int) -> u8 {
    if y == 0 {
        1
    } else if y == 1 {
        2
    } else if y == 2 {
        4
    } else if y == 3 {
        8
    } else if y == 4 {
        16
    } else if y == 5 {
        32
    } else if y == 6 {
        64
    } else {
        128
    }
}

/// Result (value, new flag byte) of a prefixed rotate/shift/swap, selected
/// by the 3-bit operation code.
pub open spec fn spec_cb_rot(y: int, v: u8, cin: bool) -> (u8, u8) {
    let r = if y == 0 {
        spec_rlc(v)
    } else if y == 1 {
        spec_rrc(v)
    } else if y == 2 {
        spec_rl(v, cin)
    } else if y == 3 {
        spec_rr(v, cin)
    } else if y == 4 {
        spec_sla(v)
    } else if y == 5 {
        spec_sra(v)
    } else if y == 6 {
        (spec_swap(v), false)
    } else {
        spec_srl(v)
    };
    (r.0, flags_to_f(r.0 == 0, false, false, r.1))
}

/// RES: clear bit y of v.
pub open spec fn spec_res_bit(y: int, v: u8) -> u8 {
    if (v as int / spec_bit_val(y) as int) % 2 == 1 {
        (v - spec_bit_val(y)) as u8
    } else {
        v
    }
}

/// SET: set bit y of v.
pub open spec fn spec_set_bit(y: int, v: u8) -> u8 {
    if (v as int / spec_bit_val(y) as int) % 2 == 0 {
        (v + spec_bit_val(y)) as u8
    } else {
        v
    }
}

/// Flag byte after BIT y: Z reports the tested bit being clear, N clear,
/// H set, C preserved.
pub open spec fn spec_bit_flags(y: int, v: u8, f: u8) -> u8 {
    flags_to_f((v as int / spec_bit_val(y) as int) % 2 == 0, false, true, f & 0x10 != 0)
}

/// The unprefixed ALU operation selected by a 3-bit code, applied to A and
/// an operand: ADD, ADC, SUB, SBC, AND, XOR, OR, CP.
pub open spec fn spec_alu(idx: int, a: u8, b: u8, f: u8) -> Alu8 {
    if idx == 0 {
        spec_add(a, b, false)
    } else if idx == 1 {
        spec_add(a, b, f & 0x10 != 0)
    } else if idx == 2 {
        spec_sub(a, b, false)
    } else if idx == 3 {
        spec_sub(a, b, f & 0x10 != 0)
    } else if idx == 4 {
        spec_and(a, b)
    } else if idx == 5 {
        spec_xor(a, b)
    } else if idx == 6 {
        spec_or(a, b)
    } else {
        spec_sub(a, b, false)
    }
}

// ---------------------------------------------------------------------------
// Spec-level CPU state editing helpers
// ---------------------------------------------------------------------------
impl CPU {
    pub open spec fn wf(self) -> bool {
        &&& self.registers.wf()
        &&& self.interrupts.wf()
        &&& match self.instr {
            Some(st) => 1 <= st.elapsed <= 8 && (st.opcode == 0xCB && !st.prefixed
                ==> st.elapsed <= 2),
            None => true,
        }
    }

    pub open spec fn with_r8(self, r: Register8, v: u8) -> CPU {
        CPU { registers: self.registers.spec_set8(r, v), ..self }
    }

    pub open spec fn with_af(self, a: u8, f: u8) -> CPU {
        CPU { registers: Registers { a, f, ..self.registers }, ..self }
    }

    pub open spec fn with_f(self, f: u8) -> CPU {
        CPU { registers: Registers { f, ..self.registers }, ..self }
    }

    pub open spec fn with_pc(self, pc: u16) -> CPU {
        CPU { pc, ..self }
    }

    pub open spec fn with_sp(self, sp: u16) -> CPU {
        CPU { sp, ..self }
    }

    pub open spec fn with_addr(self, st: InstructionState, addr: u16) -> CPU {
        CPU { instr: Some(InstructionState { addr, ..st }), ..self }
    }

    pub open spec fn with_data(self, st: InstructionState, data: u8) -> CPU {
        CPU { instr: Some(InstructionState { data, ..st }), ..self }
    }

    /// Reads the byte at PC and advances PC: the immediate-operand fetch.
    pub open spec fn spec_imm(self, mem: MemoryView) -> (CPU, u8) {
        let d = mem_read(mem, self.pc);
        (CPU { pc: wrap16(self.pc as int + 1), ..self }, d)
    }

    pub open spec fn with_r16(self, rr: crate::registers::Register16, v: u16) -> CPU {
        CPU { registers: self.registers.spec_set16(rr, v), ..self }
    }

    pub open spec fn spec_r16(self, rr: crate::registers::Register16) -> u16 {
        self.registers.spec_get16(rr)
    }
}

// ---------------------------------------------------------------------------
// Per-cycle semantics, one group of the opcode table at a time. Each function
// takes the CPU after the elapsed-cycle counter has been advanced, performs
// the work of exactly that machine cycle, and says whether the instruction
// has now finished.
// ---------------------------------------------------------------------------
/// Opcodes 0x00-0x3F.
pub open spec fn spec_step_low(cpu: CPU, st: InstructionState, mem: MemoryView) -> (
    CPU,
    MemoryView,
    bool,
) {
    let op = st.opcode;
    let e = st.elapsed;
    let f = cpu.registers.f;
    let hl = cpu.spec_r16(crate::registers::Register16::HL);
    if op == 0x00 || op == 0x10 {
        // NOP; STOP is treated as a one-cycle no-op (documented policy)
        (cpu, mem, true)
    } else if op == 0x01 || op == 0x11 || op == 0x21 {
        // LD rr,u16: low byte on cycle 2, high byte on cycle 3
        let hi = if op == 0x01 {
            Register8::B
        } else if op == 0x11 {
            Register8::D
        } else {
            Register8::H
        };
        let lo = if op == 0x01 {
            Register8::C
        } else if op == 0x11 {
            Register8::E
        } else {
            Register8::L
        };
        let r = cpu.spec_imm(mem);
        if e == 2 {
            (r.0.with_r8(lo, r.1), mem, false)
        } else {
            (r.0.with_r8(hi, r.1), mem, true)
        }
    } else if op == 0x31 {
        // LD SP,u16
        let r = cpu.spec_imm(mem);
        if e == 2 {
            (r.0.with_sp(((cpu.sp as int / 256) * 256 + r.1 as int) as u16), mem, false)
        } else {
            (r.0.with_sp((cpu.sp as int % 256 + r.1 as int * 256) as u16), mem, true)
        }
    } else if op == 0x02 || op == 0x12 {
        // LD (BC),A / LD (DE),A
        let rr = if op == 0x02 {
            crate::registers::Register16::BC
        } else {
            crate::registers::Register16::DE
        };
        (cpu, mem_write(mem, cpu.spec_r16(rr), cpu.registers.a), true)
    } else if op == 0x0A || op == 0x1A {
        // LD A,(BC) / LD A,(DE)
        let rr = if op == 0x0A {
            crate::registers::Register16::BC
        } else {
            crate::registers::Register16::DE
        };
        (cpu.with_r8(Register8::A, mem_read(mem, cpu.spec_r16(rr))), mem, true)
    } else if op == 0x22 {
        // LD (HL+),A
        (cpu.with_r16(crate::registers::Register16::HL, wrap16(hl as int + 1)), mem_write(
            mem,
            hl,
            cpu.registers.a,
        ), true)
    } else if op == 0x32 {
        // LD (HL-),A
        (cpu.with_r16(crate::registers::Register16::HL, wrap16(hl as int - 1)), mem_write(
            mem,
            hl,
            cpu.registers.a,
        ), true)
    } else if op == 0x2A {
        // LD A,(HL+)
        (cpu.with_r8(Register8::A, mem_read(mem, hl)).with_r16(
            crate::registers::Register16::HL,
            wrap16(hl as int + 1),
        ), mem, true)
    } else if op == 0x3A {
        // LD A,(HL-)
        (cpu.with_r8(Register8::A, mem_read(mem, hl)).with_r16(
            crate::registers::Register16::HL,
            wrap16(hl as int - 1),
        ), mem, true)
    } else if op == 0x03 || op == 0x13 || op == 0x23 || op == 0x0B || op == 0x1B || op == 0x2B {
        // INC rr / DEC rr: two 8-bit half-register updates, flags untouched
        let hi = if op == 0x03 || op == 0x0B {
            Register8::B
        } else if op == 0x13 || op == 0x1B {
            Register8::D
        } else {
            Register8::H
        };
        let lo = if op == 0x03 || op == 0x0B {
            Register8::C
        } else if op == 0x13 || op == 0x1B {
            Register8::E
        } else {
            Register8::L
        };
        if e == 1 {
            let cur = cpu.registers.spec_get8(hi) as int * 256 + cpu.registers.spec_get8(lo) as int;
            let full = wrap16(cur + if op == 0x03 || op == 0x13 || op == 0x23 {
                1int
            } else {
                -1int
            });
            (cpu.with_r8(lo, (full as int % 256) as u8).with_addr(st, full), mem, false)
        } else {
            (cpu.with_r8(hi, (st.addr as int / 256) as u8), mem, true)
        }
    } else if op == 0x33 || op == 0x3B {
        // INC SP / DEC SP: low byte first, then the full value
        if e == 1 {
            let full = wrap16(cpu.sp as int + if op == 0x33 {
                1int
            } else {
                -1int
            });
            (cpu.with_sp(
                ((cpu.sp as int / 256) * 256 + full as int % 256) as u16,
            ).with_addr(st, full), mem, false)
        } else {
            (cpu.with_sp(st.addr), mem, true)
        }
    } else if op == 0x09 || op == 0x19 || op == 0x29 || op == 0x39 {
        // ADD HL,rr: L on the first cycle, H on the second; Z preserved
        if e == 1 {
            let rhs = if op == 0x09 {
                cpu.spec_r16(crate::registers::Register16::BC)
            } else if op == 0x19 {
                cpu.spec_r16(crate::registers::Register16::DE)
            } else if op == 0x29 {
                hl
            } else {
                cpu.sp
            };
            let r = spec_add16(hl, rhs);
            let f1 = flags_to_f(f & 0x80 != 0, false, r.1, r.2);
            (cpu.with_r8(Register8::L, (r.0 as int % 256) as u8).with_f(f1).with_addr(st, r.0),
            mem, false)
        } else {
            (cpu.with_r8(Register8::H, (st.addr as int / 256) as u8), mem, true)
        }
    } else if op == 0x08 {
        // LD (u16),SP: operand fetch, then both SP bytes, little-endian
        if e == 2 {
            let r = cpu.spec_imm(mem);
            (r.0.with_addr(st, r.1 as u16), mem, false)
        } else if e == 3 {
            let r = cpu.spec_imm(mem);
            (r.0.with_addr(st, wrap16(st.addr as int + r.1 as int * 256)), mem, false)
        } else if e == 4 {
            (cpu, mem_write(mem, st.addr, (cpu.sp as int % 256) as u8), false)
        } else {
            (cpu, mem_write(mem, wrap16(st.addr as int + 1), (cpu.sp as int / 256) as u8), true)
        }
    } else if op == 0x18 {
        // JR i8
        if e == 2 {
            let r = cpu.spec_imm(mem);
            (r.0.with_data(st, r.1), mem, false)
        } else {
            (cpu.with_pc(spec_rel_target(cpu.pc, st.data)), mem, true)
        }
    } else if op == 0x20 || op == 0x28 || op == 0x30 || op == 0x38 {
        // JR cc,i8: the displacement add is skipped when the condition fails
        if e == 2 {
            let r = cpu.spec_imm(mem);
            (r.0.with_data(st, r.1), mem, !spec_cond((op - 0x20) as int / 8, f))
        } else {
            (cpu.with_pc(spec_rel_target(cpu.pc, st.data)), mem, true)
        }
    } else if op == 0x07 {
        // RLCA: Z, N, H cleared
        let r = spec_rlc(cpu.registers.a);
        (cpu.with_af(r.0, flags_to_f(false, false, false, r.1)), mem, true)
    } else if op == 0x0F {
        // RRCA
        let r = spec_rrc(cpu.registers.a);
        (cpu.with_af(r.0, flags_to_f(false, false, false, r.1)), mem, true)
    } else if op == 0x17 {
        // RLA
        let r = spec_rl(cpu.registers.a, f & 0x10 != 0);
        (cpu.with_af(r.0, flags_to_f(false, false, false, r.1)), mem, true)
    } else if op == 0x1F {
        // RRA
        let r = spec_rr(cpu.registers.a, f & 0x10 != 0);
        (cpu.with_af(r.0, flags_to_f(false, false, false, r.1)), mem, true)
    } else if op == 0x27 {
        // DAA
        let r = spec_daa(cpu.registers.a, f);
        (cpu.with_af(r.val, r.f), mem, true)
    } else if op == 0x2F {
        // CPL: complement A, set N and H
        (cpu.with_af(
            (255 - cpu.registers.a as int) as u8,
            flags_to_f(f & 0x80 != 0, true, true, f & 0x10 != 0),
        ), mem, true)
    } else if op == 0x37 {
        // SCF
        (cpu.with_f(flags_to_f(f & 0x80 != 0, false, false, true)), mem, true)
    } else if op == 0x3F {
        // CCF
        (cpu.with_f(flags_to_f(f & 0x80 != 0, false, false, !(f & 0x10 != 0))), mem, true)
    } else if op as int % 8 == 4 || op as int % 8 == 5 {
        // INC r / DEC r (and the three-cycle (HL) forms)
        let inc = op as int % 8 == 4;
        let code = op as int / 8;
        if code == 6 {
            if e == 2 {
                (cpu.with_data(st, mem_read(mem, hl)), mem, false)
            } else {
                let r = if inc {
                    spec_inc(st.data, f)
                } else {
                    spec_dec(st.data, f)
                };
                (cpu.with_f(r.f), mem_write(mem, hl, r.val), true)
            }
        } else {
            let reg = spec_code_reg(code);
            let r = if inc {
                spec_inc(cpu.registers.spec_get8(reg), f)
            } else {
                spec_dec(cpu.registers.spec_get8(reg), f)
            };
            (cpu.with_r8(reg, r.val).with_f(r.f), mem, true)
        }
    } else if op as int % 8 == 6 {
        // LD r,u8 (and the three-cycle LD (HL),u8)
        let code = op as int / 8;
        if code == 6 {
            if e == 2 {
                let r = cpu.spec_imm(mem);
                (r.0.with_data(st, r.1), mem, false)
            } else {
                (cpu, mem_write(mem, hl, st.data), true)
            }
        } else {
            let r = cpu.spec_imm(mem);
            (r.0.with_r8(spec_code_reg(code), r.1), mem, true)
        }
    } else {
        (cpu, mem, true)
    }
}

/// Opcodes 0x40-0x7F except HALT: the register-to-register load block.
pub open spec fn spec_step_ld(cpu: CPU, st: InstructionState, mem: MemoryView) -> (
    CPU,
    MemoryView,
    bool,
) {
    let op = st.opcode;
    let hl = cpu.spec_r16(crate::registers::Register16::HL);
    let dst = (op - 0x40) as int / 8;
    let src = op as int % 8;
    if dst == 6 {
        (cpu, mem_write(mem, hl, cpu.registers.spec_get8(spec_code_reg(src))), true)
    } else if src == 6 {
        (cpu.with_r8(spec_code_reg(dst), mem_read(mem, hl)), mem, true)
    } else {
        (cpu.with_r8(spec_code_reg(dst), cpu.registers.spec_get8(spec_code_reg(src))), mem, true)
    }
}

/// What an ALU-block result does to the CPU: CP discards the value.
pub open spec fn spec_alu_commit(cpu: CPU, idx: int, r: Alu8) -> CPU {
    if idx == 7 {
        cpu.with_f(r.f)
    } else {
        cpu.with_af(r.val, r.f)
    }
}

/// Opcodes 0x80-0xBF: the ALU block over A and a register or (HL).
pub open spec fn spec_step_alu(cpu: CPU, st: InstructionState, mem: MemoryView) -> (
    CPU,
    MemoryView,
    bool,
) {
    let op = st.opcode;
    let hl = cpu.spec_r16(crate::registers::Register16::HL);
    let idx = (op - 0x80) as int / 8;
    let src = op as int % 8;
    let b = if src == 6 {
        mem_read(mem, hl)
    } else {
        cpu.registers.spec_get8(spec_code_reg(src))
    };
    let r = spec_alu(idx, cpu.registers.a, b, cpu.registers.f);
    (spec_alu_commit(cpu, idx, r), mem, true)
}

/// Opcodes 0xC0-0xFF: control flow, stack, extended I/O, interrupt toggles.
pub open spec fn spec_step_ctrl(cpu: CPU, st: InstructionState, mem: MemoryView) -> (
    CPU,
    MemoryView,
    bool,
) {
    let op = st.opcode;
    let e = st.elapsed;
    let f = cpu.registers.f;
    if op == 0xC0 || op == 0xC8 || op == 0xD0 || op == 0xD8 {
        // RET cc: condition tested on an internal cycle, then the pop
        if e == 2 {
            (cpu, mem, !spec_cond((op - 0xC0) as int / 8, f))
        } else if e == 3 {
            (cpu.with_addr(st, mem_read(mem, cpu.sp) as u16).with_sp(wrap16(cpu.sp as int + 1)),
            mem, false)
        } else if e == 4 {
            (cpu.with_addr(st, wrap16(st.addr as int + 256 * mem_read(mem, cpu.sp) as int)).with_sp(
                wrap16(cpu.sp as int + 1),
            ), mem, false)
        } else {
            (cpu.with_pc(st.addr), mem, true)
        }
    } else if op == 0xC9 || op == 0xD9 {
        // RET / RETI: pop low then high; RETI re-enables IME at the end
        if e == 2 {
            (cpu.with_addr(st, mem_read(mem, cpu.sp) as u16).with_sp(wrap16(cpu.sp as int + 1)),
            mem, false)
        } else if e == 3 {
            (cpu.with_addr(st, wrap16(st.addr as int + 256 * mem_read(mem, cpu.sp) as int)).with_sp(
                wrap16(cpu.sp as int + 1),
            ), mem, false)
        } else if op == 0xD9 {
            (CPU { interrupts: cpu.interrupts.spec_set_ime(), ..cpu.with_pc(st.addr) }, mem, true)
        } else {
            (cpu.with_pc(st.addr), mem, true)
        }
    } else if op == 0xC1 || op == 0xD1 || op == 0xE1 || op == 0xF1 {
        // POP rr: low byte then high byte, SP incremented after each read
        let hi = if op == 0xC1 {
            Register8::B
        } else if op == 0xD1 {
            Register8::D
        } else if op == 0xE1 {
            Register8::H
        } else {
            Register8::A
        };
        let lo = if op == 0xC1 {
            Register8::C
        } else if op == 0xD1 {
            Register8::E
        } else if op == 0xE1 {
            Register8::L
        } else {
            Register8::F
        };
        if e == 2 {
            (cpu.with_r8(lo, mem_read(mem, cpu.sp)).with_sp(wrap16(cpu.sp as int + 1)), mem, false)
        } else {
            (cpu.with_r8(hi, mem_read(mem, cpu.sp)).with_sp(wrap16(cpu.sp as int + 1)), mem, true)
        }
    } else if op == 0xC5 || op == 0xD5 || op == 0xE5 || op == 0xF5 {
        // PUSH rr: internal cycle, then high byte, then low byte
        let rr = if op == 0xC5 {
            crate::registers::Register16::BC
        } else if op == 0xD5 {
            crate::registers::Register16::DE
        } else if op == 0xE5 {
            crate::registers::Register16::HL
        } else {
            crate::registers::Register16::AF
        };
        let v = cpu.spec_r16(rr);
        if e == 2 {
            (cpu, mem, false)
        } else if e == 3 {
            let sp1 = wrap16(cpu.sp as int - 1);
            (cpu.with_sp(sp1), mem_write(mem, sp1, (v as int / 256) as u8), false)
        } else {
            let sp1 = wrap16(cpu.sp as int - 1);
            (cpu.with_sp(sp1), mem_write(mem, sp1, (v as int % 256) as u8), true)
        }
    } else if op == 0xC3 || op == 0xC2 || op == 0xCA || op == 0xD2 || op == 0xDA {
        // JP u16 / JP cc,u16
        if e == 2 {
            let r = cpu.spec_imm(mem);
            (r.0.with_addr(st, r.1 as u16), mem, false)
        } else if e == 3 {
            let r = cpu.spec_imm(mem);
            let done = op != 0xC3 && !spec_cond((op - 0xC0) as int / 8, f);
            (r.0.with_addr(st, wrap16(st.addr as int + r.1 as int * 256)), mem, done)
        } else {
            (cpu.with_pc(st.addr), mem, true)
        }
    } else if op == 0xCD || op == 0xC4 || op == 0xCC || op == 0xD4 || op == 0xDC {
        // CALL u16 / CALL cc,u16: push the return address high byte first
        if e == 2 {
            let r = cpu.spec_imm(mem);
            (r.0.with_addr(st, r.1 as u16), mem, false)
        } else if e == 3 {
            let r = cpu.spec_imm(mem);
            let done = op != 0xCD && !spec_cond((op - 0xC0) as int / 8, f);
            (r.0.with_addr(st, wrap16(st.addr as int + r.1 as int * 256)), mem, done)
        } else if e == 4 {
            (cpu, mem, false)
        } else if e == 5 {
            let sp1 = wrap16(cpu.sp as int - 1);
            (cpu.with_sp(sp1), mem_write(mem, sp1, (cpu.pc as int / 256) as u8), false)
        } else {
            let sp1 = wrap16(cpu.sp as int - 1);
            (cpu.with_sp(sp1).with_pc(st.addr), mem_write(mem, sp1, (cpu.pc as int % 256) as u8),
            true)
        }
    } else if op as int % 8 == 7 {
        // RST: push PC, then jump to the fixed vector op - 0xC7
        if e == 2 {
            (cpu, mem, false)
        } else if e == 3 {
            let sp1 = wrap16(cpu.sp as int - 1);
            (cpu.with_sp(sp1), mem_write(mem, sp1, (cpu.pc as int / 256) as u8), false)
        } else {
            let sp1 = wrap16(cpu.sp as int - 1);
            (cpu.with_sp(sp1).with_pc((op - 0xC7) as u16), mem_write(
                mem,
                sp1,
                (cpu.pc as int % 256) as u8,
            ), true)
        }
    } else if op as int % 8 == 6 {
        // ALU A,u8
        let idx = (op - 0xC0) as int / 8;
        let r = cpu.spec_imm(mem);
        let res = spec_alu(idx, cpu.registers.a, r.1, f);
        (spec_alu_commit(r.0, idx, res), mem, true)
    } else if op == 0xE0 {
        // LDH (u8),A
        if e == 2 {
            let r = cpu.spec_imm(mem);
            (r.0.with_data(st, r.1), mem, false)
        } else {
            (cpu, mem_write(mem, (0xFF00 + st.data as int) as u16, cpu.registers.a), true)
        }
    } else if op == 0xF0 {
        // LDH A,(u8)
        if e == 2 {
            let r = cpu.spec_imm(mem);
            (r.0.with_data(st, r.1), mem, false)
        } else {
            (cpu.with_r8(Register8::A, mem_read(mem, (0xFF00 + st.data as int) as u16)), mem, true)
        }
    } else if op == 0xE2 {
        // LDH (C),A
        (cpu, mem_write(mem, (0xFF00 + cpu.registers.c as int) as u16, cpu.registers.a), true)
    } else if op == 0xF2 {
        // LDH A,(C)
        (cpu.with_r8(Register8::A, mem_read(mem, (0xFF00 + cpu.registers.c as int) as u16)), mem,
        true)
    } else if op == 0xE8 {
        // ADD SP,i8: two internal cycles after the operand
        if e == 2 {
            let r = cpu.spec_imm(mem);
            (r.0.with_data(st, r.1), mem, false)
        } else if e == 3 {
            (cpu, mem, false)
        } else {
            let r = spec_add_sp(cpu.sp, st.data);
            (cpu.with_sp(r.0).with_f(flags_to_f(false, false, r.1, r.2)), mem, true)
        }
    } else if op == 0xF8 {
        // LD HL,SP+i8
        if e == 2 {
            let r = cpu.spec_imm(mem);
            (r.0.with_data(st, r.1), mem, false)
        } else {
            let r = spec_add_sp(cpu.sp, st.data);
            (cpu.with_r16(crate::registers::Register16::HL, r.0).with_f(
                flags_to_f(false, false, r.1, r.2),
            ), mem, true)
        }
    } else if op == 0xF9 {
        // LD SP,HL
        (cpu.with_sp(cpu.spec_r16(crate::registers::Register16::HL)), mem, true)
    } else if op == 0xE9 {
        // JP HL
        (cpu.with_pc(cpu.spec_r16(crate::registers::Register16::HL)), mem, true)
    } else if op == 0xEA || op == 0xFA {
        // LD (u16),A / LD A,(u16)
        if e == 2 {
            let r = cpu.spec_imm(mem);
            (r.0.with_addr(st, r.1 as u16), mem, false)
        } else if e == 3 {
            let r = cpu.spec_imm(mem);
            (r.0.with_addr(st, wrap16(st.addr as int + r.1 as int * 256)), mem, false)
        } else if op == 0xEA {
            (cpu, mem_write(mem, st.addr, cpu.registers.a), true)
        } else {
            (cpu.with_r8(Register8::A, mem_read(mem, st.addr)), mem, true)
        }
    } else if op == 0xF3 {
        // DI
        (CPU { interrupts: cpu.interrupts.spec_reset_ime(), ..cpu }, mem, true)
    } else if op == 0xFB {
        // EI: takes effect only after the next instruction completes
        (CPU { interrupts: cpu.interrupts.spec_ei(), ..cpu }, mem, true)
    } else {
        // undefined opcodes: fixed-cost one-cycle no-op (documented policy)
        (cpu, mem, true)
    }
}

/// First work cycle of a prefixed opcode, right after it was fetched:
/// register operands finish here; (HL) operands go on to cycle 3.
pub open spec fn spec_cb_start(cpu: CPU, op2: u8) -> (CPU, bool) {
    let x = op2 as int / 64;
    let y = (op2 as int / 8) % 8;
    let z = op2 as int % 8;
    if z == 6 {
        (cpu, false)
    } else {
        let reg = spec_code_reg(z);
        let v = cpu.registers.spec_get8(reg);
        if x == 0 {
            let r = spec_cb_rot(y, v, cpu.registers.f & 0x10 != 0);
            (cpu.with_r8(reg, r.0).with_f(r.1), true)
        } else if x == 1 {
            (cpu.with_f(spec_bit_flags(y, v, cpu.registers.f)), true)
        } else if x == 2 {
            (cpu.with_r8(reg, spec_res_bit(y, v)), true)
        } else {
            (cpu.with_r8(reg, spec_set_bit(y, v)), true)
        }
    }
}

/// Cycles 3 and 4 of a prefixed opcode on (HL): BIT only reads; the others
/// read on cycle 3 and write the result back on cycle 4.
pub open spec fn spec_step_cb(cpu: CPU, st: InstructionState, mem: MemoryView) -> (
    CPU,
    MemoryView,
    bool,
) {
    let op2 = st.opcode;
    let e = st.elapsed;
    let x = op2 as int / 64;
    let y = (op2 as int / 8) % 8;
    let hl = cpu.spec_r16(crate::registers::Register16::HL);
    if e == 3 {
        if x == 1 {
            (cpu.with_f(spec_bit_flags(y, mem_read(mem, hl), cpu.registers.f)), mem, true)
        } else {
            (cpu.with_data(st, mem_read(mem, hl)), mem, false)
        }
    } else {
        if x == 0 {
            let r = spec_cb_rot(y, st.data, cpu.registers.f & 0x10 != 0);
            (cpu.with_f(r.1), mem_write(mem, hl, r.0), true)
        } else if x == 2 {
            (cpu, mem_write(mem, hl, spec_res_bit(y, st.data)), true)
        } else if x == 3 {
            (cpu, mem_write(mem, hl, spec_set_bit(y, st.data)), true)
        } else {
            (cpu, mem, true)
        }
    }
}

/// Whether an opcode does work on its fetch cycle itself: the one-cycle
/// instructions, and the 16-bit INC/DEC and ADD HL forms whose first
/// half-register update happens on the fetch cycle. Every other instruction
/// idles on cycle 1 and starts work on cycle 2.
pub open spec fn spec_works_on_fetch(op: u8) -> bool {
    ||| op == 0x00 || op == 0x10 || op == 0x76
    ||| op == 0x07 || op == 0x0F || op == 0x17 || op == 0x1F
    ||| op == 0x27 || op == 0x2F || op == 0x37 || op == 0x3F
    ||| op < 0x40 && op as int % 8 == 3
    ||| op < 0x40 && op as int % 16 == 9
    ||| op < 0x40 && (op as int % 8 == 4 || op as int % 8 == 5) && op as int / 8 != 6
    ||| 0x40 <= op && op < 0x80 && op != 0x76 && op as int % 8 != 6 && (op - 0x40) as int / 8 != 6
    ||| 0x80 <= op && op < 0xC0 && op as int % 8 != 6
    ||| op == 0xE9 || op == 0xF3 || op == 0xFB
    ||| op == 0xD3 || op == 0xDB || op == 0xDD || op == 0xE3 || op == 0xE4
    ||| op == 0xEB || op == 0xEC || op == 0xED || op == 0xF4 || op == 0xFC || op == 0xFD
}

/// One work cycle of an unprefixed in-flight instruction.
pub open spec fn spec_step_main(cpu: CPU, st: InstructionState, mem: MemoryView) -> (
    CPU,
    MemoryView,
    bool,
) {
    let op = st.opcode;
    if st.elapsed == 1 && !spec_works_on_fetch(op) {
        (cpu, mem, false)
    } else if op == 0x76 {
        // HALT: suspend fetch/execute until an enabled interrupt is pending.
        // The hardware's IME=0 double-fetch quirk is not modelled.
        (CPU { halted: true, ..cpu }, mem, true)
    } else if op == 0xCB {
        // fetch the prefixed opcode, then run its first work cycle
        let r = cpu.spec_imm(mem);
        let c2 = CPU { instr: Some(InstructionState { opcode: r.1, prefixed: true, ..st }), ..r.0 };
        let cb = spec_cb_start(c2, r.1);
        (cb.0, mem, cb.1)
    } else if op < 0x40 {
        spec_step_low(cpu, st, mem)
    } else if op < 0x80 {
        spec_step_ld(cpu, st, mem)
    } else if op < 0xC0 {
        spec_step_alu(cpu, st, mem)
    } else {
        spec_step_ctrl(cpu, st, mem)
    }
}

/// One work cycle of the in-flight instruction (the elapsed counter has
/// already been advanced for this cycle).
pub open spec fn spec_step(cpu: CPU, mem: MemoryView) -> (CPU, MemoryView, bool) {
    match cpu.instr {
        None => (cpu, mem, true),
        Some(st) => if st.prefixed {
            spec_step_cb(cpu, st, mem)
        } else {
            spec_step_main(cpu, st, mem)
        },
    }
}

/// What a step function may assume: sane register and interrupt state, and
/// an in-flight record whose cycle counter was just advanced.
pub open spec fn step_pre(cpu: CPU) -> bool {
    &&& cpu.registers.wf()
    &&& cpu.interrupts.wf()
    &&& match cpu.instr {
        Some(st) => 1 <= st.elapsed <= 9 && (st.opcode == 0xCB && !st.prefixed ==> st.elapsed
            <= 3),
        None => false,
    }
}

/// What a step function guarantees: sane register and interrupt state, and,
/// when the instruction continues, an in-flight record that the next tick
/// can still advance.
pub open spec fn step_post(cpu: CPU, done: bool) -> bool {
    &&& cpu.registers.wf()
    &&& cpu.interrupts.wf()
    &&& (!done ==> match cpu.instr {
        Some(st) => 1 <= st.elapsed <= 8 && (st.opcode == 0xCB && !st.prefixed ==> st.elapsed
            <= 2),
        None => false,
    })
}

/// One machine cycle of the CPU: wake-up check when halted; otherwise fetch
/// (creating the in-flight record, the fetch being cycle 1) or advance the
/// in-flight record, do that cycle's work, and on the final cycle clear the
/// record and step the EI-latency state.
pub open spec fn spec_tick(cpu: CPU, mem: MemoryView) -> (CPU, MemoryView) {
    if cpu.halted {
        if cpu.interrupts.flags.bits & cpu.interrupts.enable.bits & 0x1F != 0 {
            (CPU { halted: false, ..cpu }, mem)
        } else {
            (cpu, mem)
        }
    } else {
        let cpu1 = match cpu.instr {
            None => {
                let op = mem_read(mem, cpu.pc);
                CPU {
                    pc: wrap16(cpu.pc as int + 1),
                    instr: Some(
                        InstructionState {
                            opcode: op,
                            elapsed: 1,
                            addr: 0,
                            data: 0,
                            prefixed: false,
                        },
                    ),
                    ..cpu
                }
            },
            Some(st) => CPU {
                instr: Some(
                    InstructionState { elapsed: ((st.elapsed as int + 1) % 256) as u8, ..st },
                ),
                ..cpu
            },
        };
        let r = spec_step(cpu1, mem);
        if r.2 {
            (CPU { instr: None, interrupts: r.0.interrupts.spec_check_ei(), ..r.0 }, r.1)
        } else {
            (r.0, r.1)
        }
    }
}

// ---------------------------------------------------------------------------
// Executable decode helpers
// ---------------------------------------------------------------------------
pub fn code_reg(c: u8) -> (r: Register8)
    requires
        c <= 7,
        c != 6,
    ensures
        r == spec_code_reg(c as int),
{
    if c == 0 {
        Register8::B
    } else if c == 1 {
        Register8::C
    } else if c == 2 {
        Register8::D
    } else if c == 3 {
        Register8::E
    } else if c == 4 {
        Register8::H
    } else if c == 5 {
        Register8::L
    } else {
        Register8::A
    }
}

pub fn works_on_fetch(op: u8) -> (r: bool)
    ensures
        r == spec_works_on_fetch(op),
{
    op == 0x00 || op == 0x10 || op == 0x76 || op == 0x07 || op == 0x0F || op == 0x17 || op == 0x1F
        || op == 0x27 || op == 0x2F || op == 0x37 || op == 0x3F || (op < 0x40 && op % 8 == 3) || (
    op < 0x40 && op % 16 == 9) || (op < 0x40 && (op % 8 == 4 || op % 8 == 5) && op / 8 != 6) || (
    0x40 <= op && op < 0x80 && op != 0x76 && op % 8 != 6 && (op - 0x40) / 8 != 6) || (0x80 <= op
        && op < 0xC0 && op % 8 != 6) || op == 0xE9 || op == 0xF3 || op == 0xFB || op == 0xD3 || op
        == 0xDB || op == 0xDD || op == 0xE3 || op == 0xE4 || op == 0xEB || op == 0xEC || op == 0xED
        || op == 0xF4 || op == 0xFC || op == 0xFD
}

pub fn cond_check(y: u8, f: u8) -> (r: bool)
    ensures
        r == spec_cond(y as int, f),
{
    if y == 0 {
        f & 0x80 == 0
    } else if y == 1 {
        f & 0x80 != 0
    } else if y == 2 {
        f & 0x10 == 0
    } else {
        f & 0x10 != 0
    }
}

pub fn bit_val(y: u8) -> (r: u8)
    ensures
        r == spec_bit_val(y as int),
{
    if y == 0 {
        1
    } else if y == 1 {
        2
    } else if y == 2 {
        4
    } else if y == 3 {
        8
    } else if y == 4 {
        16
    } else if y == 5 {
        32
    } else if y == 6 {
        64
    } else {
        128
    }
}

pub fn cb_rot(y: u8, v: u8, cin: bool) -> (r: (u8, u8))
    ensures
        r == spec_cb_rot(y as int, v, cin),
        r.1 & 0x0F == 0,
{
    let t: (u8, bool) = if y == 0 {
        exec_rlc(v)
    } else if y == 1 {
        exec_rrc(v)
    } else if y == 2 {
        exec_rl(v, cin)
    } else if y == 3 {
        exec_rr(v, cin)
    } else if y == 4 {
        exec_sla(v)
    } else if y == 5 {
        exec_sra(v)
    } else if y == 6 {
        (exec_swap(v), false)
    } else {
        exec_srl(v)
    };
    (t.0, pack_flags(t.0 == 0, false, false, t.1))
}

pub fn cb_res(y: u8, v: u8) -> (r: u8)
    requires
        y <= 7,
    ensures
        r == spec_res_bit(y as int, v),
{
    let p = bit_val(y);
    if (v / p) % 2 == 1 {
        proof {
            assert(v >= p) by (bit_vector)
                requires
                    (v / p) % 2 == 1,
                    p == 1 || p == 2 || p == 4 || p == 8 || p == 16 || p == 32 || p == 64 || p
                        == 128,
            ;
        }
        v - p
    } else {
        v
    }
}

pub fn cb_set(y: u8, v: u8) -> (r: u8)
    requires
        y <= 7,
    ensures
        r == spec_set_bit(y as int, v),
{
    let p = bit_val(y);
    if (v / p) % 2 == 0 {
        proof {
            assert(v + p < 256) by (bit_vector)
                requires
                    (v / p) % 2 == 0,
                    p == 1 || p == 2 || p == 4 || p == 8 || p == 16 || p == 32 || p == 64 || p
                        == 128,
            ;
        }
        v + p
    } else {
        v
    }
}

pub fn cb_bit_flags(y: u8, v: u8, f: u8) -> (r: u8)
    requires
        y <= 7,
    ensures
        r == spec_bit_flags(y as int, v, f),
        r & 0x0F == 0,
{
    let p = bit_val(y);
    pack_flags((v / p) % 2 == 0, false, true, f & 0x10 != 0)
}

pub fn alu_apply(idx: u8, a: u8, b: u8, f: u8) -> (r: Alu8)
    ensures
        r == spec_alu(idx as int, a, b, f),
        r.f & 0x0F == 0,
{
    if idx == 0 {
        alu_add(a, b, false)
    } else if idx == 1 {
        alu_add(a, b, f & 0x10 != 0)
    } else if idx == 2 {
        alu_sub(a, b, false)
    } else if idx == 3 {
        alu_sub(a, b, f & 0x10 != 0)
    } else if idx == 4 {
        alu_and(a, b)
    } else if idx == 5 {
        alu_xor(a, b)
    } else if idx == 6 {
        alu_or(a, b)
    } else {
        alu_sub(a, b, false)
    }
}

impl CPU {
    /// Power-on state for the selected platform.
    pub open spec fn power_on(platform: Platform) -> CPU {
        CPU {
            registers: Registers::spec_new(platform),
            sp: 0xFFFE,
            pc: 0x0100,
            interrupts: InterruptRegisters {
                enable: crate::interrupts::InterruptEnable { bits: 0 },
                flags: crate::interrupts::InterruptFlags { bits: 0xE0 },
                ime: true,
                state: crate::interrupts::InterruptState::Enabled,
            },
            instr: None,
            halted: false,
        }
    }

    pub fn new(platform: &Platform) -> (cpu: CPU)
        ensures
            cpu == CPU::power_on(*platform),
            cpu.wf(),
    {
        let sp: u16 = match platform {
            Platform::DMG => DMG_SP,
            Platform::GBC => GBC_SP,
        };
        let pc: u16 = match platform {
            Platform::DMG => DMG_PC,
            Platform::GBC => GBC_PC,
        };
        CPU {
            registers: Registers::new(platform),
            sp,
            pc,
            interrupts: InterruptRegisters::new(),
            instr: None,
            halted: false,
        }
    }

    /// Externally visible state: between instructions, mid-instruction,
    /// or halted.
    pub fn state(&self) -> (s: CpuState)
        ensures
            s == (if self.halted {
                CpuState::Halted
            } else if self.instr is Some {
                CpuState::InFlight
            } else {
                CpuState::Ready
            }),
    {
        if self.halted {
            CpuState::Halted
        } else if self.instr.is_some() {
            CpuState::InFlight
        } else {
            CpuState::Ready
        }
    }

    pub fn set_pc(&mut self, val: u16)
        ensures
            *final(self) == old(self).with_pc(val),
    {
        self.pc = val;
    }

    /// The highest-priority interrupt that is ready to dispatch, if any.
    pub fn get_interrupt(&self) -> (r: Option<Interrupt>)
        ensures
            r == self.interrupts.spec_highest_ready(),
    {
        if self.interrupts.check_interrupt(Interrupt::VerticalBlanking) {
            Some(Interrupt::VerticalBlanking)
        } else if self.interrupts.check_interrupt(Interrupt::LcdStat) {
            Some(Interrupt::LcdStat)
        } else if self.interrupts.check_interrupt(Interrupt::Timer) {
            Some(Interrupt::Timer)
        } else if self.interrupts.check_interrupt(Interrupt::Serial) {
            Some(Interrupt::Serial)
        } else if self.interrupts.check_interrupt(Interrupt::Joypad) {
            Some(Interrupt::Joypad)
        } else {
            None
        }
    }

    /// Jump to an interrupt's fixed vector.
    pub fn load_vector(&mut self, i: Interrupt)
        ensures
            *final(self) == old(self).with_pc(int_vector(i)),
    {
        match i {
            Interrupt::VerticalBlanking => self.pc = INT_VBL,
            Interrupt::LcdStat => self.pc = INT_STAT,
            Interrupt::Timer => self.pc = INT_TIMER,
            Interrupt::Serial => self.pc = INT_SERIAL,
            Interrupt::Joypad => self.pc = INT_JOYPAD,
        }
    }

    /// Reads the byte at PC and advances PC past it.
    fn imm_fetch(&mut self, mem: &Memory) -> (d: u8)
        requires
            mem.wf(),
        ensures
            *final(self) == old(self).spec_imm(mem@).0,
            d == old(self).spec_imm(mem@).1,
    {
        let d = mem.read(self.pc);
        self.pc = wadd16(self.pc, 1);
        d
    }

    #[verifier::rlimit(100)]
    fn step_low(&mut self, mem: &mut Memory, st: InstructionState) -> (done: bool)
        requires
            old(self).instr == Some(st),
            !st.prefixed,
            st.opcode < 0x40,
            step_pre(*old(self)),
            old(mem).wf(),
        ensures
            *final(self) == spec_step_low(*old(self), st, old(mem)@).0,
            final(mem)@ == spec_step_low(*old(self), st, old(mem)@).1,
            done == spec_step_low(*old(self), st, old(mem)@).2,
            step_post(*final(self), done),
            final(mem).wf(),
    {
        let op = st.opcode;
        let e = st.elapsed;
        let f = self.registers.f;
        let hl = self.registers.get16(Register16::HL);
        if op == 0x00 || op == 0x10 {
            true
        } else if op == 0x01 || op == 0x11 || op == 0x21 {
            let hi = if op == 0x01 {
                Register8::B
            } else if op == 0x11 {
                Register8::D
            } else {
                Register8::H
            };
            let lo = if op == 0x01 {
                Register8::C
            } else if op == 0x11 {
                Register8::E
            } else {
                Register8::L
            };
            let d = self.imm_fetch(mem);
            if e == 2 {
                self.registers.set8(lo, d);
                false
            } else {
                self.registers.set8(hi, d);
                true
            }
        } else if op == 0x31 {
            let d = self.imm_fetch(mem);
            if e == 2 {
                self.sp = (self.sp / 256) * 256 + d as u16;
                false
            } else {
                self.sp = self.sp % 256 + d as u16 * 256;
                true
            }
        } else if op == 0x02 || op == 0x12 {
            let rr = if op == 0x02 {
                Register16::BC
            } else {
                Register16::DE
            };
            let addr = self.registers.get16(rr);
            mem.write(addr, self.registers.a);
            true
        } else if op == 0x0A || op == 0x1A {
            let rr = if op == 0x0A {
                Register16::BC
            } else {
                Register16::DE
            };
            let addr = self.registers.get16(rr);
            let v = mem.read(addr);
            self.registers.set8(Register8::A, v);
            true
        } else if op == 0x22 {
            mem.write(hl, self.registers.a);
            let nhl = wadd16(hl, 1);
            self.registers.set16(Register16::HL, nhl);
            true
        } else if op == 0x32 {
            mem.write(hl, self.registers.a);
            let nhl = wsub16(hl, 1);
            self.registers.set16(Register16::HL, nhl);
            true
        } else if op == 0x2A {
            let v = mem.read(hl);
            self.registers.set8(Register8::A, v);
            let nhl = wadd16(hl, 1);
            self.registers.set16(Register16::HL, nhl);
            true
        } else if op == 0x3A {
            let v = mem.read(hl);
            self.registers.set8(Register8::A, v);
            let nhl = wsub16(hl, 1);
            self.registers.set16(Register16::HL, nhl);
            true
        } else if op == 0x03 || op == 0x13 || op == 0x23 || op == 0x0B || op == 0x1B || op
            == 0x2B {
            let hi = if op == 0x03 || op == 0x0B {
                Register8::B
            } else if op == 0x13 || op == 0x1B {
                Register8::D
            } else {
                Register8::H
            };
            let lo = if op == 0x03 || op == 0x0B {
                Register8::C
            } else if op == 0x13 || op == 0x1B {
                Register8::E
            } else {
                Register8::L
            };
            if e == 1 {
                let cur = self.registers.get8(hi) as u16 * 256 + self.registers.get8(lo) as u16;
                let full = if op == 0x03 || op == 0x13 || op == 0x23 {
                    wadd16(cur, 1)
                } else {
                    wsub16(cur, 1)
                };
                self.registers.set8(lo, (full % 256) as u8);
                self.instr = Some(InstructionState { addr: full, ..st });
                false
            } else {
                self.registers.set8(hi, (st.addr / 256) as u8);
                true
            }
        } else if op == 0x33 || op == 0x3B {
            if e == 1 {
                let full = if op == 0x33 {
                    wadd16(self.sp, 1)
                } else {
                    wsub16(self.sp, 1)
                };
                self.sp = (self.sp / 256) * 256 + full % 256;
                self.instr = Some(InstructionState { addr: full, ..st });
                false
            } else {
                self.sp = st.addr;
                true
            }
        } else if op == 0x09 || op == 0x19 || op == 0x29 || op == 0x39 {
            if e == 1 {
                let rhs = if op == 0x09 {
                    self.registers.get16(Register16::BC)
                } else if op == 0x19 {
                    self.registers.get16(Register16::DE)
                } else if op == 0x29 {
                    hl
                } else {
                    self.sp
                };
                let r = exec_add16(hl, rhs);
                let f1 = pack_flags(f & 0x80 != 0, false, r.1, r.2);
                self.registers.set8(Register8::L, (r.0 % 256) as u8);
                self.registers.f = f1;
                self.instr = Some(InstructionState { addr: r.0, ..st });
                false
            } else {
                self.registers.set8(Register8::H, (st.addr / 256) as u8);
                true
            }
        } else if op == 0x08 {
            if e == 2 {
                let d = self.imm_fetch(mem);
                self.instr = Some(InstructionState { addr: d as u16, ..st });
                false
            } else if e == 3 {
                let d = self.imm_fetch(mem);
                let a2 = wadd16(st.addr, d as u16 * 256);
                self.instr = Some(InstructionState { addr: a2, ..st });
                false
            } else if e == 4 {
                mem.write(st.addr, (self.sp % 256) as u8);
                false
            } else {
                let a2 = wadd16(st.addr, 1);
                mem.write(a2, (self.sp / 256) as u8);
                true
            }
        } else if op == 0x18 {
            if e == 2 {
                let d = self.imm_fetch(mem);
                self.instr = Some(InstructionState { data: d, ..st });
                false
            } else {
                self.pc = exec_rel_target(self.pc, st.data);
                true
            }
        } else if op == 0x20 || op == 0x28 || op == 0x30 || op == 0x38 {
            if e == 2 {
                let d = self.imm_fetch(mem);
                self.instr = Some(InstructionState { data: d, ..st });
                !cond_check((op - 0x20) / 8, f)
            } else {
                self.pc = exec_rel_target(self.pc, st.data);
                true
            }
        } else if op == 0x07 {
            let r = exec_rlc(self.registers.a);
            self.registers.a = r.0;
            self.registers.f = pack_flags(false, false, false, r.1);
            true
        } else if op == 0x0F {
            let r = exec_rrc(self.registers.a);
            self.registers.a = r.0;
            self.registers.f = pack_flags(false, false, false, r.1);
            true
        } else if op == 0x17 {
            let r = exec_rl(self.registers.a, f & 0x10 != 0);
            self.registers.a = r.0;
            self.registers.f = pack_flags(false, false, false, r.1);
            true
        } else if op == 0x1F {
            let r = exec_rr(self.registers.a, f & 0x10 != 0);
            self.registers.a = r.0;
            self.registers.f = pack_flags(false, false, false, r.1);
            true
        } else if op == 0x27 {
            let r = alu_daa(self.registers.a, f);
            self.registers.a = r.val;
            self.registers.f = r.f;
            true
        } else if op == 0x2F {
            self.registers.a = 255 - self.registers.a;
            self.registers.f = pack_flags(f & 0x80 != 0, true, true, f & 0x10 != 0);
            true
        } else if op == 0x37 {
            self.registers.f = pack_flags(f & 0x80 != 0, false, false, true);
            true
        } else if op == 0x3F {
            self.registers.f = pack_flags(f & 0x80 != 0, false, false, !(f & 0x10 != 0));
            true
        } else if op % 8 == 4 || op % 8 == 5 {
            let inc = op % 8 == 4;
            let code = op / 8;
            if code == 6 {
                if e == 2 {
                    let v = mem.read(hl);
                    self.instr = Some(InstructionState { data: v, ..st });
                    false
                } else {
                    let r = if inc {
                        alu_inc(st.data, f)
                    } else {
                        alu_dec(st.data, f)
                    };
                    self.registers.f = r.f;
                    mem.write(hl, r.val);
                    true
                }
            } else {
                let reg = code_reg(code);
                let v = self.registers.get8(reg);
                let r = if inc {
                    alu_inc(v, f)
                } else {
                    alu_dec(v, f)
                };
                self.registers.set8(reg, r.val);
                self.registers.f = r.f;
                true
            }
        } else if op % 8 == 6 {
            let code = op / 8;
            if code == 6 {
                if e == 2 {
                    let d = self.imm_fetch(mem);
                    self.instr = Some(InstructionState { data: d, ..st });
                    false
                } else {
                    mem.write(hl, st.data);
                    true
                }
            } else {
                let d = self.imm_fetch(mem);
                self.registers.set8(code_reg(code), d);
                true
            }
        } else {
            true
        }
    }

    fn step_ld(&mut self, mem: &mut Memory, st: InstructionState) -> (done: bool)
        requires
            old(self).instr == Some(st),
            !st.prefixed,
            0x40 <= st.opcode < 0x80,
            st.opcode != 0x76,
            step_pre(*old(self)),
            old(mem).wf(),
        ensures
            *final(self) == spec_step_ld(*old(self), st, old(mem)@).0,
            final(mem)@ == spec_step_ld(*old(self), st, old(mem)@).1,
            done == spec_step_ld(*old(self), st, old(mem)@).2,
            step_post(*final(self), done),
            final(mem).wf(),
    {
        let op = st.opcode;
        let hl = self.registers.get16(Register16::HL);
        let dst = (op - 0x40) / 8;
        let src = op % 8;
        if dst == 6 {
            let v = self.registers.get8(code_reg(src));
            mem.write(hl, v);
            true
        } else if src == 6 {
            let v = mem.read(hl);
            self.registers.set8(code_reg(dst), v);
            true
        } else {
            let v = self.registers.get8(code_reg(src));
            self.registers.set8(code_reg(dst), v);
            true
        }
    }

    fn step_alu(&mut self, mem: &mut Memory, st: InstructionState) -> (done: bool)
        requires
            old(self).instr == Some(st),
            !st.prefixed,
            0x80 <= st.opcode < 0xC0,
            step_pre(*old(self)),
            old(mem).wf(),
        ensures
            *final(self) == spec_step_alu(*old(self), st, old(mem)@).0,
            final(mem)@ == spec_step_alu(*old(self), st, old(mem)@).1,
            done == spec_step_alu(*old(self), st, old(mem)@).2,
            step_post(*final(self), done),
            final(mem).wf(),
    {
        let op = st.opcode;
        let hl = self.registers.get16(Register16::HL);
        let idx = (op - 0x80) / 8;
        let src = op % 8;
        let b = if src == 6 {
            mem.read(hl)
        } else {
            self.registers.get8(code_reg(src))
        };
        let r = alu_apply(idx, self.registers.a, b, self.registers.f);
        if idx == 7 {
            self.registers.f = r.f;
        } else {
            self.registers.a = r.val;
            self.registers.f = r.f;
        }
        true
    }

    #[verifier::rlimit(100)]
    fn step_ctrl(&mut self, mem: &mut Memory, st: InstructionState) -> (done: bool)
        requires
            old(self).instr == Some(st),
            !st.prefixed,
            0xC0 <= st.opcode,
            st.opcode != 0xCB,
            step_pre(*old(self)),
            old(mem).wf(),
        ensures
            *final(self) == spec_step_ctrl(*old(self), st, old(mem)@).0,
            final(mem)@ == spec_step_ctrl(*old(self), st, old(mem)@).1,
            done == spec_step_ctrl(*old(self), st, old(mem)@).2,
            step_post(*final(self), done),
            final(mem).wf(),
    {
        let op = st.opcode;
        let e = st.elapsed;
        let f = self.registers.f;
        if op == 0xC0 || op == 0xC8 || op == 0xD0 || op == 0xD8 {
            if e == 2 {
                !cond_check((op - 0xC0) / 8, f)
            } else if e == 3 {
                let v = mem.read(self.sp);
                self.instr = Some(InstructionState { addr: v as u16, ..st });
                self.sp = wadd16(self.sp, 1);
                false
            } else if e == 4 {
                let v = mem.read(self.sp);
                let a2 = wadd16(st.addr, v as u16 * 256);
                self.instr = Some(InstructionState { addr: a2, ..st });
                self.sp = wadd16(self.sp, 1);
                false
            } else {
                self.pc = st.addr;
                true
            }
        } else if op == 0xC9 || op == 0xD9 {
            if e == 2 {
                let v = mem.read(self.sp);
                self.instr = Some(InstructionState { addr: v as u16, ..st });
                self.sp = wadd16(self.sp, 1);
                false
            } else if e == 3 {
                let v = mem.read(self.sp);
                let a2 = wadd16(st.addr, v as u16 * 256);
                self.instr = Some(InstructionState { addr: a2, ..st });
                self.sp = wadd16(self.sp, 1);
                false
            } else if op == 0xD9 {
                self.pc = st.addr;
                self.interrupts.set_ime();
                true
            } else {
                self.pc = st.addr;
                true
            }
        } else if op == 0xC1 || op == 0xD1 || op == 0xE1 || op == 0xF1 {
            let hi = if op == 0xC1 {
                Register8::B
            } else if op == 0xD1 {
                Register8::D
            } else if op == 0xE1 {
                Register8::H
            } else {
                Register8::A
            };
            let lo = if op == 0xC1 {
                Register8::C
            } else if op == 0xD1 {
                Register8::E
            } else if op == 0xE1 {
                Register8::L
            } else {
                Register8::F
            };
            let v = mem.read(self.sp);
            self.sp = wadd16(self.sp, 1);
            if e == 2 {
                self.registers.set8(lo, v);
                false
            } else {
                self.registers.set8(hi, v);
                true
            }
        } else if op == 0xC5 || op == 0xD5 || op == 0xE5 || op == 0xF5 {
            let rr = if op == 0xC5 {
                Register16::BC
            } else if op == 0xD5 {
                Register16::DE
            } else if op == 0xE5 {
                Register16::HL
            } else {
                Register16::AF
            };
            let v = self.registers.get16(rr);
            if e == 2 {
                false
            } else if e == 3 {
                self.sp = wsub16(self.sp, 1);
                mem.write(self.sp, (v / 256) as u8);
                false
            } else {
                self.sp = wsub16(self.sp, 1);
                mem.write(self.sp, (v % 256) as u8);
                true
            }
        } else if op == 0xC3 || op == 0xC2 || op == 0xCA || op == 0xD2 || op == 0xDA {
            if e == 2 {
                let d = self.imm_fetch(mem);
                self.instr = Some(InstructionState { addr: d as u16, ..st });
                false
            } else if e == 3 {
                let d = self.imm_fetch(mem);
                let a2 = wadd16(st.addr, d as u16 * 256);
                self.instr = Some(InstructionState { addr: a2, ..st });
                op != 0xC3 && !cond_check((op - 0xC0) / 8, f)
            } else {
                self.pc = st.addr;
                true
            }
        } else if op == 0xCD || op == 0xC4 || op == 0xCC || op == 0xD4 || op == 0xDC {
            if e == 2 {
                let d = self.imm_fetch(mem);
                self.instr = Some(InstructionState { addr: d as u16, ..st });
                false
            } else if e == 3 {
                let d = self.imm_fetch(mem);
                let a2 = wadd16(st.addr, d as u16 * 256);
                self.instr = Some(InstructionState { addr: a2, ..st });
                op != 0xCD && !cond_check((op - 0xC0) / 8, f)
            } else if e == 4 {
                false
            } else if e == 5 {
                self.sp = wsub16(self.sp, 1);
                mem.write(self.sp, (self.pc / 256) as u8);
                false
            } else {
                self.sp = wsub16(self.sp, 1);
                mem.write(self.sp, (self.pc % 256) as u8);
                self.pc = st.addr;
                true
            }
        } else if op % 8 == 7 {
            if e == 2 {
                false
            } else if e == 3 {
                self.sp = wsub16(self.sp, 1);
                mem.write(self.sp, (self.pc / 256) as u8);
                false
            } else {
                self.sp = wsub16(self.sp, 1);
                mem.write(self.sp, (self.pc % 256) as u8);
                self.pc = (op - 0xC7) as u16;
                true
            }
        } else if op % 8 == 6 {
            let idx = (op - 0xC0) / 8;
            let a = self.registers.a;
            let d = self.imm_fetch(mem);
            let r = alu_apply(idx, a, d, f);
            if idx == 7 {
                self.registers.f = r.f;
            } else {
                self.registers.a = r.val;
                self.registers.f = r.f;
            }
            true
        } else if op == 0xE0 {
            if e == 2 {
                let d = self.imm_fetch(mem);
                self.instr = Some(InstructionState { data: d, ..st });
                false
            } else {
                mem.write(0xFF00 + st.data as u16, self.registers.a);
                true
            }
        } else if op == 0xF0 {
            if e == 2 {
                let d = self.imm_fetch(mem);
                self.instr = Some(InstructionState { data: d, ..st });
                false
            } else {
                let v = mem.read(0xFF00 + st.data as u16);
                self.registers.set8(Register8::A, v);
                true
            }
        } else if op == 0xE2 {
            mem.write(0xFF00 + self.registers.c as u16, self.registers.a);
            true
        } else if op == 0xF2 {
            let v = mem.read(0xFF00 + self.registers.c as u16);
            self.registers.set8(Register8::A, v);
            true
        } else if op == 0xE8 {
            if e == 2 {
                let d = self.imm_fetch(mem);
                self.instr = Some(InstructionState { data: d, ..st });
                false
            } else if e == 3 {
                false
            } else {
                let r = exec_add_sp(self.sp, st.data);
                self.sp = r.0;
                self.registers.f = pack_flags(false, false, r.1, r.2);
                true
            }
        } else if op == 0xF8 {
            if e == 2 {
                let d = self.imm_fetch(mem);
                self.instr = Some(InstructionState { data: d, ..st });
                false
            } else {
                let r = exec_add_sp(self.sp, st.data);
                self.registers.set16(Register16::HL, r.0);
                self.registers.f = pack_flags(false, false, r.1, r.2);
                true
            }
        } else if op == 0xF9 {
            self.sp = self.registers.get16(Register16::HL);
            true
        } else if op == 0xE9 {
            self.pc = self.registers.get16(Register16::HL);
            true
        } else if op == 0xEA || op == 0xFA {
            if e == 2 {
                let d = self.imm_fetch(mem);
                self.instr = Some(InstructionState { addr: d as u16, ..st });
                false
            } else if e == 3 {
                let d = self.imm_fetch(mem);
                let a2 = wadd16(st.addr, d as u16 * 256);
                self.instr = Some(InstructionState { addr: a2, ..st });
                false
            } else if op == 0xEA {
                mem.write(st.addr, self.registers.a);
                true
            } else {
                let v = mem.read(st.addr);
                self.registers.set8(Register8::A, v);
                true
            }
        } else if op == 0xF3 {
            self.interrupts.reset_ime();
            true
        } else if op == 0xFB {
            self.interrupts.ei();
            true
        } else {
            true
        }
    }

    fn cb_start(&mut self, op2: u8) -> (done: bool)
        requires
            step_pre(*old(self)),
            match old(self).instr {
                Some(st) => st.elapsed <= 8 && st.prefixed,
                None => false,
            },
        ensures
            *final(self) == spec_cb_start(*old(self), op2).0,
            done == spec_cb_start(*old(self), op2).1,
            step_post(*final(self), done),
    {
        let z = op2 % 8;
        if z == 6 {
            return false;
        }
        let x = op2 / 64;
        let y = (op2 / 8) % 8;
        let reg = code_reg(z);
        let v = self.registers.get8(reg);
        if x == 0 {
            let r = cb_rot(y, v, self.registers.f & 0x10 != 0);
            self.registers.set8(reg, r.0);
            self.registers.f = r.1;
            true
        } else if x == 1 {
            let f1 = cb_bit_flags(y, v, self.registers.f);
            self.registers.f = f1;
            true
        } else if x == 2 {
            let r = cb_res(y, v);
            self.registers.set8(reg, r);
            true
        } else {
            let r = cb_set(y, v);
            self.registers.set8(reg, r);
            true
        }
    }

    fn step_cb(&mut self, mem: &mut Memory, st: InstructionState) -> (done: bool)
        requires
            old(self).instr == Some(st),
            st.prefixed,
            step_pre(*old(self)),
            old(mem).wf(),
        ensures
            *final(self) == spec_step_cb(*old(self), st, old(mem)@).0,
            final(mem)@ == spec_step_cb(*old(self), st, old(mem)@).1,
            done == spec_step_cb(*old(self), st, old(mem)@).2,
            step_post(*final(self), done),
            final(mem).wf(),
    {
        let op2 = st.opcode;
        let e = st.elapsed;
        let x = op2 / 64;
        let y = (op2 / 8) % 8;
        let hl = self.registers.get16(Register16::HL);
        if e == 3 {
            if x == 1 {
                let v = mem.read(hl);
                let f1 = cb_bit_flags(y, v, self.registers.f);
                self.registers.f = f1;
                true
            } else {
                let v = mem.read(hl);
                self.instr = Some(InstructionState { data: v, ..st });
                false
            }
        } else {
            if x == 0 {
                let r = cb_rot(y, st.data, self.registers.f & 0x10 != 0);
                self.registers.f = r.1;
                mem.write(hl, r.0);
                true
            } else if x == 2 {
                let r = cb_res(y, st.data);
                mem.write(hl, r);
                true
            } else if x == 3 {
                let r = cb_set(y, st.data);
                mem.write(hl, r);
                true
            } else {
                true
            }
        }
    }

    fn step_main(&mut self, mem: &mut Memory, st: InstructionState) -> (done: bool)
        requires
            old(self).instr == Some(st),
            !st.prefixed,
            step_pre(*old(self)),
            old(mem).wf(),
        ensures
            *final(self) == spec_step_main(*old(self), st, old(mem)@).0,
            final(mem)@ == spec_step_main(*old(self), st, old(mem)@).1,
            done == spec_step_main(*old(self), st, old(mem)@).2,
            step_post(*final(self), done),
            final(mem).wf(),
    {
        let op = st.opcode;
        if st.elapsed == 1 && !works_on_fetch(op) {
            false
        } else if op == 0x76 {
            self.halted = true;
            true
        } else if op == 0xCB {
            let op2 = mem.read(self.pc);
            self.pc = wadd16(self.pc, 1);
            self.instr = Some(InstructionState { opcode: op2, prefixed: true, ..st });
            self.cb_start(op2)
        } else if op < 0x40 {
            self.step_low(mem, st)
        } else if op < 0x80 {
            self.step_ld(mem, st)
        } else if op < 0xC0 {
            self.step_alu(mem, st)
        } else {
            self.step_ctrl(mem, st)
        }
    }

    fn step(&mut self, mem: &mut Memory) -> (done: bool)
        requires
            step_pre(*old(self)),
            old(mem).wf(),
        ensures
            *final(self) == spec_step(*old(self), old(mem)@).0,
            final(mem)@ == spec_step(*old(self), old(mem)@).1,
            done == spec_step(*old(self), old(mem)@).2,
            step_post(*final(self), done),
            final(mem).wf(),
    {
        match self.instr {
            Some(st) => {
                if st.prefixed {
                    self.step_cb(mem, st)
                } else {
                    self.step_main(mem, st)
                }
            },
            None => {
                proof {
                    assert(false);
                }
                true
            },
        }
    }

    /// One machine cycle: fetch, or the next work cycle of the in-flight
    /// instruction; when halted, only the wake-up condition is checked.
    pub fn tick(&mut self, mem: &mut Memory)
        requires
            old(self).wf(),
            old(mem).wf(),
        ensures
            final(self).wf(),
            final(mem).wf(),
            *final(self) == spec_tick(*old(self), old(mem)@).0,
            final(mem)@ == spec_tick(*old(self), old(mem)@).1,
    {
        if self.halted {
            if self.interrupts.flags.bits & self.interrupts.enable.bits & 0x1F != 0 {
                self.halted = false;
            }
            return;
        }
        match self.instr {
            None => {
                let op = mem.read(self.pc);
                self.pc = wadd16(self.pc, 1);
                self.instr = Some(
                    InstructionState { opcode: op, elapsed: 1, addr: 0, data: 0, prefixed: false },
                );
            },
            Some(st) => {
                self.instr = Some(
                    InstructionState { elapsed: ((st.elapsed as u16 + 1) % 256) as u8, ..st },
                );
            },
        }
        let done = self.step(mem);
        if done {
            self.instr = None;
            self.interrupts.check_ei();
        }
    }
}


} // verus!
