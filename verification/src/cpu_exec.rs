//! The instruction executor: one function per fetched opcode byte, with
//! a functional description of the processor, the bus and the T-cycle
//! cost of every defined instruction.

use vstd::prelude::*;

verus! {

use crate::alu::{
    spec_alu_adc,
    spec_alu_add,
    spec_alu_add_hl,
    spec_alu_and,
    spec_alu_cp,
    spec_alu_dec,
    spec_alu_inc,
    spec_alu_or,
    spec_alu_sbc,
    spec_alu_sub,
    spec_alu_xor,
};
use crate::cb_ops::spec_execute_cb;
use crate::cpu::{
    Cpu,
    Flags,
    spec_a,
    spec_condition,
    spec_imm16,
    spec_imm8,
    spec_pop16,
    spec_push16,
    spec_read_r16,
    spec_read_r16_stack,
    spec_read_r8,
    spec_sign_extend,
    spec_split,
    spec_write_r16,
    spec_write_r16_stack,
    spec_write_r8,
    with_a,
};
use crate::interconnect::{BusView, bus_wf, Interconnect, spec_bus_read, spec_bus_write};
use crate::opcode::spec_opcode_defined;
use crate::operands::{
    ConditionCode,
    Reg16,
    Reg16Stack,
    Reg8,
    spec_condition_from_bits,
    spec_reg16_from_bits,
    spec_reg16_stack_from_bits,
    spec_reg8_from_bits,
};
use crate::register::pair_value;

/// What one instruction leaves behind: the processor, the bus, and the
/// T-cycles it consumed.
pub struct StepRes {
    pub cpu: Cpu,
    pub bus: BusView,
    pub cycles: int,
}

/// The HL pair of a processor.
pub open spec fn spec_hl(c: Cpu) -> u16 {
    pair_value(c.regs_hl.hi, c.regs_hl.lo)
}

/// RLCA: A rotated left, bit 7 into both ends' carry; Z cleared.
pub open spec fn spec_rlca(c: Cpu) -> Cpu {
    let a = spec_a(c);
    let cbit = (a >> 7) & 1;
    let result = (a << 1) | cbit;
    with_a(Cpu { flags: Flags { z: false, n: false, h: false, c: cbit == 1 }, ..c }, result)
}

/// RRCA: A rotated right, bit 0 into both ends' carry; Z cleared.
pub open spec fn spec_rrca(c: Cpu) -> Cpu {
    let a = spec_a(c);
    let cbit = a & 1;
    let result = (a >> 1) | (cbit << 7);
    with_a(Cpu { flags: Flags { z: false, n: false, h: false, c: cbit == 1 }, ..c }, result)
}

/// RLA: A rotated left through the carry; Z cleared.
pub open spec fn spec_rla(c: Cpu) -> Cpu {
    let a = spec_a(c);
    let old_c: u8 = if c.flags.c {
        1u8
    } else {
        0u8
    };
    let new_c = (a >> 7) & 1;
    let result = (a << 1) | old_c;
    with_a(Cpu { flags: Flags { z: false, n: false, h: false, c: new_c == 1 }, ..c }, result)
}

/// RRA: A rotated right through the carry; Z cleared.
pub open spec fn spec_rra(c: Cpu) -> Cpu {
    let a = spec_a(c);
    let old_c: u8 = if c.flags.c {
        0x80u8
    } else {
        0u8
    };
    let new_c = a & 1;
    let result = (a >> 1) | old_c;
    with_a(Cpu { flags: Flags { z: false, n: false, h: false, c: new_c == 1 }, ..c }, result)
}

/// DAA: the accumulator adjusted to packed decimal after an addition
/// (N clear) or subtraction (N set); Z follows the result, H clears, C
/// latches a decimal carry on the addition path.
pub open spec fn spec_daa(c: Cpu) -> Cpu {
    let a0 = spec_a(c);
    if !c.flags.n {
        let carry1 = c.flags.c || a0 > 0x99;
        let a1 = if carry1 {
            a0.wrapping_add(0x60)
        } else {
            a0
        };
        let cf = if carry1 {
            true
        } else {
            c.flags.c
        };
        let a2 = if c.flags.h || (a1 & 0x0F) > 0x09 {
            a1.wrapping_add(0x06)
        } else {
            a1
        };
        with_a(Cpu { flags: Flags { z: a2 == 0, n: c.flags.n, h: false, c: cf }, ..c }, a2)
    } else {
        let a1 = if c.flags.c {
            a0.wrapping_sub(0x60)
        } else {
            a0
        };
        let a2 = if c.flags.h {
            a1.wrapping_sub(0x06)
        } else {
            a1
        };
        with_a(Cpu { flags: Flags { z: a2 == 0, n: c.flags.n, h: false, c: c.flags.c }, ..c }, a2)
    }
}

/// The accumulator operation an opcode's bits 3-5 name, applied to `v`.
pub open spec fn spec_alu_by_kind(c: Cpu, kind: u8, v: u8) -> Cpu {
    match kind {
        0u8 => spec_alu_add(c, v),
        1u8 => spec_alu_adc(c, v),
        2u8 => spec_alu_sub(c, v),
        3u8 => spec_alu_sbc(c, v),
        4u8 => spec_alu_and(c, v),
        5u8 => spec_alu_xor(c, v),
        6u8 => spec_alu_or(c, v),
        _ => spec_alu_cp(c, v),
    }
}

/// The 16-bit loads and arithmetic of the low quarter, with NOP and STOP.
pub open spec fn spec_step_base16(c: Cpu, b: BusView, op: u8) -> StepRes {
    if op == 0x01 || op == 0x11 || op == 0x21 || op == 0x31 {
        let reg = spec_reg16_from_bits((op >> 4) & 0x03);
        let f = spec_imm16(c, b);
        StepRes { cpu: spec_write_r16(f.0, reg, f.1), bus: b, cycles: 12 }
    } else if op == 0x03 || op == 0x13 || op == 0x23 || op == 0x33 {
        let reg = spec_reg16_from_bits((op >> 4) & 0x03);
        StepRes {
            cpu: spec_write_r16(c, reg, spec_read_r16(c, reg).wrapping_add(1)),
            bus: b,
            cycles: 8,
        }
    } else if op == 0x08 {
        let f = spec_imm16(c, b);
        let b1 = spec_bus_write(b, f.1, (c.reg_sp & 0xFF) as u8);
        let b2 = spec_bus_write(b1, f.1.wrapping_add(1), (c.reg_sp >> 8) as u8);
        StepRes { cpu: f.0, bus: b2, cycles: 20 }
    } else if op == 0x09 || op == 0x19 || op == 0x29 || op == 0x39 {
        let reg = spec_reg16_from_bits((op >> 4) & 0x03);
        StepRes { cpu: spec_alu_add_hl(c, spec_read_r16(c, reg)), bus: b, cycles: 8 }
    } else if op == 0x0B || op == 0x1B || op == 0x2B || op == 0x3B {
        let reg = spec_reg16_from_bits((op >> 4) & 0x03);
        StepRes {
            cpu: spec_write_r16(c, reg, spec_read_r16(c, reg).wrapping_sub(1)),
            bus: b,
            cycles: 8,
        }
    } else {
        StepRes { cpu: c, bus: b, cycles: 0 }
    }
}

/// The 8-bit INC, DEC and immediate loads of the low quarter.
pub open spec fn spec_step_base_incdec(c: Cpu, b: BusView, op: u8) -> StepRes {
    if op == 0x04 || op == 0x0C || op == 0x14 || op == 0x1C || op == 0x24 || op == 0x2C
        || op == 0x34 || op == 0x3C {
        let reg = spec_reg8_from_bits((op >> 3) & 0x07);
        let v = spec_read_r8(c, b, reg);
        let t = spec_alu_inc(c, v);
        let w = spec_write_r8(t.0, b, reg, t.1);
        StepRes {
            cpu: w.0,
            bus: w.1,
            cycles: if reg == Reg8::HLRef {
                12
            } else {
                4
            },
        }
    } else if op == 0x05 || op == 0x0D || op == 0x15 || op == 0x1D || op == 0x25 || op == 0x2D
        || op == 0x35 || op == 0x3D {
        let reg = spec_reg8_from_bits((op >> 3) & 0x07);
        let v = spec_read_r8(c, b, reg);
        let t = spec_alu_dec(c, v);
        let w = spec_write_r8(t.0, b, reg, t.1);
        StepRes {
            cpu: w.0,
            bus: w.1,
            cycles: if reg == Reg8::HLRef {
                12
            } else {
                4
            },
        }
    } else if op == 0x06 || op == 0x0E || op == 0x16 || op == 0x1E || op == 0x26 || op == 0x2E
        || op == 0x36 || op == 0x3E {
        let reg = spec_reg8_from_bits((op >> 3) & 0x07);
        let f = spec_imm8(c, b);
        let w = spec_write_r8(f.0, b, reg, f.1);
        StepRes {
            cpu: w.0,
            bus: w.1,
            cycles: if reg == Reg8::HLRef {
                12
            } else {
                8
            },
        }
    } else {
        StepRes { cpu: c, bus: b, cycles: 0 }
    }
}

/// The accumulator loads through BC, DE and HL of the low quarter.
pub open spec fn spec_step_base_mem(c: Cpu, b: BusView, op: u8) -> StepRes {
    if op == 0x02 {
        StepRes {
            cpu: c,
            bus: spec_bus_write(b, pair_value(c.regs_bc.hi, c.regs_bc.lo), spec_a(c)),
            cycles: 8,
        }
    } else if op == 0x0A {
        StepRes {
            cpu: with_a(c, spec_bus_read(b, pair_value(c.regs_bc.hi, c.regs_bc.lo))),
            bus: b,
            cycles: 8,
        }
    } else if op == 0x12 {
        StepRes {
            cpu: c,
            bus: spec_bus_write(b, pair_value(c.regs_de.hi, c.regs_de.lo), spec_a(c)),
            cycles: 8,
        }
    } else if op == 0x1A {
        StepRes {
            cpu: with_a(c, spec_bus_read(b, pair_value(c.regs_de.hi, c.regs_de.lo))),
            bus: b,
            cycles: 8,
        }
    } else if op == 0x22 {
        StepRes {
            cpu: Cpu { regs_hl: spec_split(spec_hl(c).wrapping_add(1)), ..c },
            bus: spec_bus_write(b, spec_hl(c), spec_a(c)),
            cycles: 8,
        }
    } else if op == 0x2A {
        StepRes {
            cpu: Cpu {
                regs_hl: spec_split(spec_hl(c).wrapping_add(1)),
                ..with_a(c, spec_bus_read(b, spec_hl(c)))
            },
            bus: b,
            cycles: 8,
        }
    } else if op == 0x32 {
        StepRes {
            cpu: Cpu { regs_hl: spec_split(spec_hl(c).wrapping_sub(1)), ..c },
            bus: spec_bus_write(b, spec_hl(c), spec_a(c)),
            cycles: 8,
        }
    } else if op == 0x3A {
        StepRes {
            cpu: Cpu {
                regs_hl: spec_split(spec_hl(c).wrapping_sub(1)),
                ..with_a(c, spec_bus_read(b, spec_hl(c)))
            },
            bus: b,
            cycles: 8,
        }
    } else {
        StepRes { cpu: c, bus: b, cycles: 0 }
    }
}

/// The rotates, decimal adjust, flag operations, relative jumps, NOP
/// and STOP of the low quarter.
pub open spec fn spec_step_base_acc(c: Cpu, b: BusView, op: u8) -> StepRes {
    if op == 0x00 || op == 0x10 {
        StepRes { cpu: c, bus: b, cycles: 4 }
    } else if op == 0x07 {
        StepRes { cpu: spec_rlca(c), bus: b, cycles: 4 }
    } else if op == 0x0F {
        StepRes { cpu: spec_rrca(c), bus: b, cycles: 4 }
    } else if op == 0x17 {
        StepRes { cpu: spec_rla(c), bus: b, cycles: 4 }
    } else if op == 0x18 {
        let f = spec_imm8(c, b);
        StepRes {
            cpu: Cpu { reg_pc: f.0.reg_pc.wrapping_add(spec_sign_extend(f.1)), ..f.0 },
            bus: b,
            cycles: 12,
        }
    } else if op == 0x1F {
        StepRes { cpu: spec_rra(c), bus: b, cycles: 4 }
    } else if op == 0x20 || op == 0x28 || op == 0x30 || op == 0x38 {
        let cond = spec_condition_from_bits((op >> 3) & 0x03);
        let f = spec_imm8(c, b);
        if spec_condition(f.0, cond) {
            StepRes {
                cpu: Cpu { reg_pc: f.0.reg_pc.wrapping_add(spec_sign_extend(f.1)), ..f.0 },
                bus: b,
                cycles: 12,
            }
        } else {
            StepRes { cpu: f.0, bus: b, cycles: 8 }
        }
    } else if op == 0x27 {
        StepRes { cpu: spec_daa(c), bus: b, cycles: 4 }
    } else if op == 0x2F {
        StepRes {
            cpu: with_a(
                Cpu {
                    flags: Flags { z: c.flags.z, n: true, h: true, c: c.flags.c },
                    ..c
                },
                !spec_a(c),
            ),
            bus: b,
            cycles: 4,
        }
    } else if op == 0x37 {
        StepRes {
            cpu: Cpu { flags: Flags { z: c.flags.z, n: false, h: false, c: true }, ..c },
            bus: b,
            cycles: 4,
        }
    } else if op == 0x3F {
        StepRes {
            cpu: Cpu { flags: Flags { z: c.flags.z, n: false, h: false, c: !c.flags.c }, ..c },
            bus: b,
            cycles: 4,
        }
    } else {
        StepRes { cpu: c, bus: b, cycles: 0 }
    }
}

/// Instructions of the low quarter of the table (0x00-0x3F): loads,
/// 16-bit arithmetic, accumulator rotates, decimal adjust and flag ops.
pub open spec fn spec_step_base(c: Cpu, b: BusView, op: u8) -> StepRes {
    if (op == 0x01 || op == 0x11 || op == 0x21 || op == 0x31) || (op == 0x03 || op == 0x13 || op == 0x23 || op == 0x33) || (op == 0x08) || (op == 0x09 || op == 0x19 || op == 0x29 || op == 0x39) || (op == 0x0B || op == 0x1B || op == 0x2B || op == 0x3B) {
        spec_step_base16(c, b, op)
    } else if (op == 0x04 || op == 0x0C || op == 0x14 || op == 0x1C || op == 0x24 || op == 0x2C
        || op == 0x34 || op == 0x3C) || (op == 0x05 || op == 0x0D || op == 0x15 || op == 0x1D || op == 0x25 || op == 0x2D
        || op == 0x35 || op == 0x3D) || (op == 0x06 || op == 0x0E || op == 0x16 || op == 0x1E || op == 0x26 || op == 0x2E
        || op == 0x36 || op == 0x3E) {
        spec_step_base_incdec(c, b, op)
    } else if (op == 0x02) || (op == 0x0A) || (op == 0x12) || (op == 0x1A) || (op == 0x22) || (op == 0x2A) || (op == 0x32) || (op == 0x3A) {
        spec_step_base_mem(c, b, op)
    } else {
        spec_step_base_acc(c, b, op)
    }
}

/// Instructions of the register-move quarter (0x40-0x7F): LD r,r' and
/// HALT.
pub open spec fn spec_step_ld(c: Cpu, b: BusView, op: u8) -> StepRes {    if op == 0x76 {
        StepRes { cpu: Cpu { halted: true, ..c }, bus: b, cycles: 4 }
    } else if 0x40 <= op && op <= 0x7F {
        let dst = spec_reg8_from_bits((op >> 3) & 0x07);
        let src = spec_reg8_from_bits(op & 0x07);
        let v = spec_read_r8(c, b, src);
        let w = spec_write_r8(c, b, dst, v);
        StepRes {
            cpu: w.0,
            bus: w.1,
            cycles: if dst == Reg8::HLRef || src == Reg8::HLRef {
                8
            } else {
                4
            },
        }
    } else {
        StepRes { cpu: c, bus: b, cycles: 0 }
    }
}

/// Instructions of the accumulator quarter (0x80-0xBF): the eight
/// arithmetic and logic operations over every 8-bit operand.
pub open spec fn spec_step_alu(c: Cpu, b: BusView, op: u8) -> StepRes {    if 0x80 <= op && op <= 0xBF {
        let src = spec_reg8_from_bits(op & 0x07);
        let v = spec_read_r8(c, b, src);
        StepRes {
            cpu: spec_alu_by_kind(c, (op >> 3) & 0x07, v),
            bus: b,
            cycles: if src == Reg8::HLRef {
                8
            } else {
                4
            },
        }
    } else {
        StepRes { cpu: c, bus: b, cycles: 0 }
    }
}

/// Instructions of the control quarter (0xC0-0xFF): jumps, calls,
/// returns, the stack, immediate arithmetic, the high-page loads and the
/// interrupt switches.
pub open spec fn spec_step_ctl(c: Cpu, b: BusView, op: u8) -> StepRes {    if op == 0xC0 || op == 0xC8 || op == 0xD0 || op == 0xD8 {
        let cond = spec_condition_from_bits((op >> 3) & 0x03);
        if spec_condition(c, cond) {
            let p = spec_pop16(c, b);
            StepRes { cpu: Cpu { reg_pc: p.1, ..p.0 }, bus: b, cycles: 20 }
        } else {
            StepRes { cpu: c, bus: b, cycles: 8 }
        }
    } else if op == 0xC1 || op == 0xD1 || op == 0xE1 || op == 0xF1 {
        let reg = spec_reg16_stack_from_bits((op >> 4) & 0x03);
        let p = spec_pop16(c, b);
        StepRes { cpu: spec_write_r16_stack(p.0, reg, p.1), bus: b, cycles: 12 }
    } else if op == 0xC2 || op == 0xCA || op == 0xD2 || op == 0xDA {
        let cond = spec_condition_from_bits((op >> 3) & 0x03);
        let f = spec_imm16(c, b);
        if spec_condition(f.0, cond) {
            StepRes { cpu: Cpu { reg_pc: f.1, ..f.0 }, bus: b, cycles: 16 }
        } else {
            StepRes { cpu: f.0, bus: b, cycles: 12 }
        }
    } else if op == 0xC3 {
        let f = spec_imm16(c, b);
        StepRes { cpu: Cpu { reg_pc: f.1, ..f.0 }, bus: b, cycles: 16 }
    } else if op == 0xC4 || op == 0xCC || op == 0xD4 || op == 0xDC {
        let cond = spec_condition_from_bits((op >> 3) & 0x03);
        let f = spec_imm16(c, b);
        if spec_condition(f.0, cond) {
            let p = spec_push16(f.0, b, f.0.reg_pc);
            StepRes { cpu: Cpu { reg_pc: f.1, ..p.0 }, bus: p.1, cycles: 24 }
        } else {
            StepRes { cpu: f.0, bus: b, cycles: 12 }
        }
    } else if op == 0xC5 || op == 0xD5 || op == 0xE5 || op == 0xF5 {
        let reg = spec_reg16_stack_from_bits((op >> 4) & 0x03);
        let p = spec_push16(c, b, spec_read_r16_stack(c, reg));
        StepRes { cpu: p.0, bus: p.1, cycles: 16 }
    } else if op == 0xC6 || op == 0xCE || op == 0xD6 || op == 0xDE || op == 0xE6 || op == 0xEE
        || op == 0xF6 || op == 0xFE {
        let f = spec_imm8(c, b);
        StepRes { cpu: spec_alu_by_kind(f.0, (op >> 3) & 0x07, f.1), bus: b, cycles: 8 }
    } else if op == 0xC7 || op == 0xCF || op == 0xD7 || op == 0xDF || op == 0xE7 || op == 0xEF
        || op == 0xF7 || op == 0xFF {
        let p = spec_push16(c, b, c.reg_pc);
        StepRes { cpu: Cpu { reg_pc: (op & 0x38) as u16, ..p.0 }, bus: p.1, cycles: 16 }
    } else if op == 0xC9 {
        let p = spec_pop16(c, b);
        StepRes { cpu: Cpu { reg_pc: p.1, ..p.0 }, bus: b, cycles: 16 }
    } else if op == 0xCB {
        let r = spec_execute_cb(c, b);
        StepRes { cpu: r.0, bus: r.1, cycles: r.2 }
    } else if op == 0xCD {
        let f = spec_imm16(c, b);
        let p = spec_push16(f.0, b, f.0.reg_pc);
        StepRes { cpu: Cpu { reg_pc: f.1, ..p.0 }, bus: p.1, cycles: 24 }
    } else if op == 0xD9 {
        let p = spec_pop16(Cpu { ime: true, ..c }, b);
        StepRes { cpu: Cpu { reg_pc: p.1, ..p.0 }, bus: b, cycles: 16 }
    } else if op == 0xE0 {
        let f = spec_imm8(c, b);
        StepRes {
            cpu: f.0,
            bus: spec_bus_write(b, (0xFF00 + f.1 as int) as u16, spec_a(c)),
            cycles: 12,
        }
    } else if op == 0xE2 {
        StepRes {
            cpu: c,
            bus: spec_bus_write(b, (0xFF00 + c.regs_bc.lo as int) as u16, spec_a(c)),
            cycles: 8,
        }
    } else if op == 0xE8 {
        let f = spec_imm8(c, b);
        let ext = spec_sign_extend(f.1);
        let sp = f.0.reg_sp;
        StepRes {
            cpu: Cpu {
                reg_sp: sp.wrapping_add(ext),
                flags: Flags {
                    z: false,
                    n: false,
                    h: (sp & 0x0F) + (ext & 0x0F) > 0x0F,
                    c: (sp & 0xFF) + (ext & 0xFF) > 0xFF,
                },
                ..f.0
            },
            bus: b,
            cycles: 16,
        }
    } else if op == 0xE9 {
        StepRes { cpu: Cpu { reg_pc: spec_hl(c), ..c }, bus: b, cycles: 4 }
    } else if op == 0xEA {
        let f = spec_imm16(c, b);
        StepRes { cpu: f.0, bus: spec_bus_write(b, f.1, spec_a(c)), cycles: 16 }
    } else if op == 0xF0 {
        let f = spec_imm8(c, b);
        StepRes {
            cpu: with_a(f.0, spec_bus_read(b, (0xFF00 + f.1 as int) as u16)),
            bus: b,
            cycles: 12,
        }
    } else if op == 0xF2 {
        StepRes {
            cpu: with_a(c, spec_bus_read(b, (0xFF00 + c.regs_bc.lo as int) as u16)),
            bus: b,
            cycles: 8,
        }
    } else if op == 0xF3 {
        StepRes { cpu: Cpu { ime: false, ime_pending: false, ..c }, bus: b, cycles: 4 }
    } else if op == 0xF8 {
        let f = spec_imm8(c, b);
        let ext = spec_sign_extend(f.1);
        let sp = f.0.reg_sp;
        StepRes {
            cpu: Cpu {
                regs_hl: spec_split(sp.wrapping_add(ext)),
                flags: Flags {
                    z: false,
                    n: false,
                    h: (sp & 0x0F) + (ext & 0x0F) > 0x0F,
                    c: (sp & 0xFF) + (ext & 0xFF) > 0xFF,
                },
                ..f.0
            },
            bus: b,
            cycles: 12,
        }
    } else if op == 0xF9 {
        StepRes { cpu: Cpu { reg_sp: spec_hl(c), ..c }, bus: b, cycles: 8 }
    } else if op == 0xFA {
        let f = spec_imm16(c, b);
        StepRes { cpu: with_a(f.0, spec_bus_read(b, f.1)), bus: b, cycles: 16 }
    } else if op == 0xFB {
        StepRes { cpu: Cpu { ime_pending: true, ..c }, bus: b, cycles: 4 }
    } else {
        StepRes { cpu: c, bus: b, cycles: 0 }
    }
}

/// One whole instruction, given the already-fetched opcode byte: the
/// processor, the bus and the T-cycle cost it leaves. Defined for every
/// byte the opcode table names.
pub open spec fn spec_step(c: Cpu, b: BusView, op: u8) -> StepRes {
    if op <= 0x3F {
        spec_step_base(c, b, op)
    } else if op <= 0x7F {
        spec_step_ld(c, b, op)
    } else if op <= 0xBF {
        spec_step_alu(c, b, op)
    } else {
        spec_step_ctl(c, b, op)
    }
}

/// One whole fetch-and-execute: the opcode byte at the program counter,
/// which moves past it, then that instruction.
pub open spec fn spec_step_at_pc(c: Cpu, b: BusView) -> StepRes {
    spec_step(
        Cpu { reg_pc: c.reg_pc.wrapping_add(1), ..c },
        b,
        spec_bus_read(b, c.reg_pc),
    )
}

impl Cpu {
    /// The 16-bit loads and arithmetic of the low quarter.
    #[verifier::rlimit(100)]
    fn exec_base16(&mut self, inter: &mut Interconnect, opcode: u8) -> (cycles: usize)
        requires
            bus_wf(old(inter)@),
            spec_opcode_defined(opcode),
        ensures
            *final(self) == spec_step_base16(*old(self), old(inter)@, opcode).cpu,
            final(inter)@ == spec_step_base16(*old(self), old(inter)@, opcode).bus,
            cycles as int == spec_step_base16(*old(self), old(inter)@, opcode).cycles,
            bus_wf(final(inter)@),
    {
        match opcode {
            0x01 | 0x11 | 0x21 | 0x31 => {
                let reg = Reg16::from_bits((opcode >> 4) & 0x03);
                let val = self.read_imm16(inter);
                self.write_r16(reg, val);
                12
            },
            0x03 | 0x13 | 0x23 | 0x33 => {
                let reg = Reg16::from_bits((opcode >> 4) & 0x03);
                let val = self.read_r16(reg).wrapping_add(1);
                self.write_r16(reg, val);
                8
            },
            0x08 => {
                let addr = self.read_imm16(inter);
                let sp = self.reg_sp;
                inter.write(addr, (sp & 0xFF) as u8);
                inter.write(addr.wrapping_add(1), (sp >> 8) as u8);
                20
            },
            0x09 | 0x19 | 0x29 | 0x39 => {
                let reg = Reg16::from_bits((opcode >> 4) & 0x03);
                let v = self.read_r16(reg);
                self.alu_add_hl(v);
                8
            },
            0x0B | 0x1B | 0x2B | 0x3B => {
                let reg = Reg16::from_bits((opcode >> 4) & 0x03);
                let val = self.read_r16(reg).wrapping_sub(1);
                self.write_r16(reg, val);
                8
            },
            _ => 0,
        }
    }

    /// The 8-bit INC, DEC and immediate loads of the low quarter.
    #[verifier::rlimit(100)]
    fn exec_base_incdec(&mut self, inter: &mut Interconnect, opcode: u8) -> (cycles: usize)
        requires
            bus_wf(old(inter)@),
            spec_opcode_defined(opcode),
        ensures
            *final(self) == spec_step_base_incdec(*old(self), old(inter)@, opcode).cpu,
            final(inter)@ == spec_step_base_incdec(*old(self), old(inter)@, opcode).bus,
            cycles as int == spec_step_base_incdec(*old(self), old(inter)@, opcode).cycles,
            bus_wf(final(inter)@),
    {
        match opcode {
            0x04 | 0x0C | 0x14 | 0x1C | 0x24 | 0x2C | 0x34 | 0x3C => {
                let reg = Reg8::from_bits((opcode >> 3) & 0x07);
                let v = self.read_r8(inter, reg);
                let r = self.alu_inc(v);
                self.write_r8(inter, reg, r);
                if reg == Reg8::HLRef {
                    12
                } else {
                    4
                }
            },
            0x05 | 0x0D | 0x15 | 0x1D | 0x25 | 0x2D | 0x35 | 0x3D => {
                let reg = Reg8::from_bits((opcode >> 3) & 0x07);
                let v = self.read_r8(inter, reg);
                let r = self.alu_dec(v);
                self.write_r8(inter, reg, r);
                if reg == Reg8::HLRef {
                    12
                } else {
                    4
                }
            },
            0x06 | 0x0E | 0x16 | 0x1E | 0x26 | 0x2E | 0x36 | 0x3E => {
                let reg = Reg8::from_bits((opcode >> 3) & 0x07);
                let val = self.read_imm8(inter);
                self.write_r8(inter, reg, val);
                if reg == Reg8::HLRef {
                    12
                } else {
                    8
                }
            },
            _ => 0,
        }
    }

    /// The accumulator loads through BC, DE and HL of the low quarter.
    #[verifier::rlimit(100)]
    fn exec_base_mem(&mut self, inter: &mut Interconnect, opcode: u8) -> (cycles: usize)
        requires
            bus_wf(old(inter)@),
            spec_opcode_defined(opcode),
        ensures
            *final(self) == spec_step_base_mem(*old(self), old(inter)@, opcode).cpu,
            final(inter)@ == spec_step_base_mem(*old(self), old(inter)@, opcode).bus,
            cycles as int == spec_step_base_mem(*old(self), old(inter)@, opcode).cycles,
            bus_wf(final(inter)@),
    {
        match opcode {
            0x02 => {
                inter.write(self.regs_bc.get(), self.get_reg_a());
                8
            },
            0x0A => {
                let v = inter.read(self.regs_bc.get());
                self.set_reg_a(v);
                8
            },
            0x12 => {
                inter.write(self.regs_de.get(), self.get_reg_a());
                8
            },
            0x1A => {
                let v = inter.read(self.regs_de.get());
                self.set_reg_a(v);
                8
            },
            0x22 => {
                inter.write(self.regs_hl.get(), self.get_reg_a());
                let hl = self.regs_hl.get();
                self.regs_hl.set(hl.wrapping_add(1));
                8
            },
            0x2A => {
                let v = inter.read(self.regs_hl.get());
                self.set_reg_a(v);
                let hl = self.regs_hl.get();
                self.regs_hl.set(hl.wrapping_add(1));
                8
            },
            0x32 => {
                inter.write(self.regs_hl.get(), self.get_reg_a());
                let hl = self.regs_hl.get();
                self.regs_hl.set(hl.wrapping_sub(1));
                8
            },
            0x3A => {
                let v = inter.read(self.regs_hl.get());
                self.set_reg_a(v);
                let hl = self.regs_hl.get();
                self.regs_hl.set(hl.wrapping_sub(1));
                8
            },
            _ => 0,
        }
    }

    /// The rotates, decimal adjust, flag operations, relative jumps, NOP and STOP of the low quarter.
    #[verifier::rlimit(100)]
    fn exec_base_acc(&mut self, inter: &mut Interconnect, opcode: u8) -> (cycles: usize)
        requires
            bus_wf(old(inter)@),
            spec_opcode_defined(opcode),
        ensures
            *final(self) == spec_step_base_acc(*old(self), old(inter)@, opcode).cpu,
            final(inter)@ == spec_step_base_acc(*old(self), old(inter)@, opcode).bus,
            cycles as int == spec_step_base_acc(*old(self), old(inter)@, opcode).cycles,
            bus_wf(final(inter)@),
    {
        match opcode {
            0x00 | 0x10 => 4,
            0x07 => {
                let a = self.get_reg_a();
                let cbit = (a >> 7) & 1;
                let result = (a << 1) | cbit;
                self.flags.z = false;
                self.flags.n = false;
                self.flags.h = false;
                self.flags.c = cbit == 1;
                self.set_reg_a(result);
                4
            },
            0x0F => {
                let a = self.get_reg_a();
                let cbit = a & 1;
                let result = (a >> 1) | (cbit << 7);
                self.flags.z = false;
                self.flags.n = false;
                self.flags.h = false;
                self.flags.c = cbit == 1;
                self.set_reg_a(result);
                4
            },
            0x17 => {
                let a = self.get_reg_a();
                let old_c: u8 = if self.flags.c {
                    1
                } else {
                    0
                };
                let new_c = (a >> 7) & 1;
                let result = (a << 1) | old_c;
                self.flags.z = false;
                self.flags.n = false;
                self.flags.h = false;
                self.flags.c = new_c == 1;
                self.set_reg_a(result);
                4
            },
            0x18 => {
                let off = self.read_imm8(inter);
                let ext = self.sign_extend(off);
                self.reg_pc = self.reg_pc.wrapping_add(ext);
                12
            },
            0x1F => {
                let a = self.get_reg_a();
                let old_c: u8 = if self.flags.c {
                    0x80
                } else {
                    0
                };
                let new_c = a & 1;
                let result = (a >> 1) | old_c;
                self.flags.z = false;
                self.flags.n = false;
                self.flags.h = false;
                self.flags.c = new_c == 1;
                self.set_reg_a(result);
                4
            },
            0x20 | 0x28 | 0x30 | 0x38 => {
                let cond = ConditionCode::from_bits((opcode >> 3) & 0x03);
                let off = self.read_imm8(inter);
                if self.check_condition(cond) {
                    let ext = self.sign_extend(off);
                    self.reg_pc = self.reg_pc.wrapping_add(ext);
                    12
                } else {
                    8
                }
            },
            0x27 => {
                let mut a = self.get_reg_a();
                if !self.flags.n {
                    if self.flags.c || a > 0x99 {
                        a = a.wrapping_add(0x60);
                        self.flags.c = true;
                    }
                    if self.flags.h || (a & 0x0F) > 0x09 {
                        a = a.wrapping_add(0x06);
                    }
                } else {
                    if self.flags.c {
                        a = a.wrapping_sub(0x60);
                    }
                    if self.flags.h {
                        a = a.wrapping_sub(0x06);
                    }
                }
                self.flags.z = a == 0;
                self.flags.h = false;
                self.set_reg_a(a);
                4
            },
            0x2F => {
                let a = self.get_reg_a();
                self.set_reg_a(!a);
                self.flags.n = true;
                self.flags.h = true;
                4
            },
            0x37 => {
                self.flags.n = false;
                self.flags.h = false;
                self.flags.c = true;
                4
            },
            0x3F => {
                self.flags.n = false;
                self.flags.h = false;
                self.flags.c = !self.flags.c;
                4
            },
            _ => 0,
        }
    }

    /// The low quarter of the table (0x00-0x3F).
    #[verifier::rlimit(100)]
    fn exec_base(&mut self, inter: &mut Interconnect, opcode: u8) -> (cycles: usize)
        requires
            bus_wf(old(inter)@),
            spec_opcode_defined(opcode),
        ensures
            *final(self) == spec_step_base(*old(self), old(inter)@, opcode).cpu,
            final(inter)@ == spec_step_base(*old(self), old(inter)@, opcode).bus,
            cycles as int == spec_step_base(*old(self), old(inter)@, opcode).cycles,
            bus_wf(final(inter)@),
    {
        if (opcode == 0x01 || opcode == 0x11 || opcode == 0x21 || opcode == 0x31) || (opcode == 0x03 || opcode == 0x13 || opcode == 0x23 || opcode == 0x33) || (opcode == 0x08) || (opcode == 0x09 || opcode == 0x19 || opcode == 0x29 || opcode == 0x39) || (opcode == 0x0B || opcode == 0x1B || opcode == 0x2B || opcode == 0x3B) {
            self.exec_base16(inter, opcode)
        } else if (opcode == 0x04 || opcode == 0x0C || opcode == 0x14 || opcode == 0x1C || opcode == 0x24 || opcode == 0x2C
        || opcode == 0x34 || opcode == 0x3C) || (opcode == 0x05 || opcode == 0x0D || opcode == 0x15 || opcode == 0x1D || opcode == 0x25 || opcode == 0x2D
        || opcode == 0x35 || opcode == 0x3D) || (opcode == 0x06 || opcode == 0x0E || opcode == 0x16 || opcode == 0x1E || opcode == 0x26 || opcode == 0x2E
        || opcode == 0x36 || opcode == 0x3E) {
            self.exec_base_incdec(inter, opcode)
        } else if (opcode == 0x02) || (opcode == 0x0A) || (opcode == 0x12) || (opcode == 0x1A) || (opcode == 0x22) || (opcode == 0x2A) || (opcode == 0x32) || (opcode == 0x3A) {
            self.exec_base_mem(inter, opcode)
        } else {
            self.exec_base_acc(inter, opcode)
        }
    }

    /// The register-move quarter (0x40-0x7F).
    #[verifier::rlimit(100)]
    fn exec_ld(&mut self, inter: &mut Interconnect, opcode: u8) -> (cycles: usize)
        requires
            bus_wf(old(inter)@),
            spec_opcode_defined(opcode),
        ensures
            *final(self) == spec_step_ld(*old(self), old(inter)@, opcode).cpu,
            final(inter)@ == spec_step_ld(*old(self), old(inter)@, opcode).bus,
            cycles as int == spec_step_ld(*old(self), old(inter)@, opcode).cycles,
            bus_wf(final(inter)@),
    {
        match opcode {
            0x76 => {
                self.halted = true;
                4
            },
            0x40..=0x7F => {
                let dst = Reg8::from_bits((opcode >> 3) & 0x07);
                let src = Reg8::from_bits(opcode & 0x07);
                let v = self.read_r8(inter, src);
                self.write_r8(inter, dst, v);
                if dst == Reg8::HLRef || src == Reg8::HLRef {
                    8
                } else {
                    4
                }
            },
            _ => 0,
        }
    }

    /// The accumulator quarter (0x80-0xBF).
    #[verifier::rlimit(100)]
    fn exec_alu(&mut self, inter: &mut Interconnect, opcode: u8) -> (cycles: usize)
        requires
            bus_wf(old(inter)@),
            spec_opcode_defined(opcode),
        ensures
            *final(self) == spec_step_alu(*old(self), old(inter)@, opcode).cpu,
            final(inter)@ == spec_step_alu(*old(self), old(inter)@, opcode).bus,
            cycles as int == spec_step_alu(*old(self), old(inter)@, opcode).cycles,
            bus_wf(final(inter)@),
    {
        match opcode {
            0x80..=0xBF => {
                let src = Reg8::from_bits(opcode & 0x07);
                let v = self.read_r8(inter, src);
                self.alu_by_kind((opcode >> 3) & 0x07, v);
                if src == Reg8::HLRef {
                    8
                } else {
                    4
                }
            },
            _ => 0,
        }
    }

    /// The control quarter (0xC0-0xFF).
    #[verifier::rlimit(100)]
    fn exec_ctl(&mut self, inter: &mut Interconnect, opcode: u8) -> (cycles: usize)
        requires
            bus_wf(old(inter)@),
            spec_opcode_defined(opcode),
        ensures
            *final(self) == spec_step_ctl(*old(self), old(inter)@, opcode).cpu,
            final(inter)@ == spec_step_ctl(*old(self), old(inter)@, opcode).bus,
            cycles as int == spec_step_ctl(*old(self), old(inter)@, opcode).cycles,
            bus_wf(final(inter)@),
    {
        match opcode {
            0xC0 | 0xC8 | 0xD0 | 0xD8 => {
                let cond = ConditionCode::from_bits((opcode >> 3) & 0x03);
                if self.check_condition(cond) {
                    let pc = self.pop_16(inter);
                    self.reg_pc = pc;
                    20
                } else {
                    8
                }
            },
            0xC1 | 0xD1 | 0xE1 | 0xF1 => {
                let reg = Reg16Stack::from_bits((opcode >> 4) & 0x03);
                let val = self.pop_16(inter);
                self.write_r16_stack(reg, val);
                12
            },
            0xC2 | 0xCA | 0xD2 | 0xDA => {
                let cond = ConditionCode::from_bits((opcode >> 3) & 0x03);
                let addr = self.read_imm16(inter);
                if self.check_condition(cond) {
                    self.reg_pc = addr;
                    16
                } else {
                    12
                }
            },
            0xC3 => {
                let addr = self.read_imm16(inter);
                self.reg_pc = addr;
                16
            },
            0xC4 | 0xCC | 0xD4 | 0xDC => {
                let cond = ConditionCode::from_bits((opcode >> 3) & 0x03);
                let addr = self.read_imm16(inter);
                if self.check_condition(cond) {
                    let pc = self.reg_pc;
                    self.push_16(inter, pc);
                    self.reg_pc = addr;
                    24
                } else {
                    12
                }
            },
            0xC5 | 0xD5 | 0xE5 | 0xF5 => {
                let reg = Reg16Stack::from_bits((opcode >> 4) & 0x03);
                let v = self.read_r16_stack(reg);
                self.push_16(inter, v);
                16
            },
            0xC6 | 0xCE | 0xD6 | 0xDE | 0xE6 | 0xEE | 0xF6 | 0xFE => {
                let val = self.read_imm8(inter);
                self.alu_by_kind((opcode >> 3) & 0x07, val);
                8
            },
            0xC7 | 0xCF | 0xD7 | 0xDF | 0xE7 | 0xEF | 0xF7 | 0xFF => {
                let pc = self.reg_pc;
                self.push_16(inter, pc);
                self.reg_pc = (opcode & 0x38) as u16;
                16
            },
            0xC9 => {
                let pc = self.pop_16(inter);
                self.reg_pc = pc;
                16
            },
            0xCB => self.execute_cb(inter),
            0xCD => {
                let addr = self.read_imm16(inter);
                let pc = self.reg_pc;
                self.push_16(inter, pc);
                self.reg_pc = addr;
                24
            },
            0xD9 => {
                self.ime = true;
                let pc = self.pop_16(inter);
                self.reg_pc = pc;
                16
            },
            0xE0 => {
                let off = self.read_imm8(inter);
                inter.write(0xFF00 + off as u16, self.get_reg_a());
                12
            },
            0xE2 => {
                inter.write(0xFF00 + self.get_reg_c() as u16, self.get_reg_a());
                8
            },
            0xE8 => {
                let off = self.read_imm8(inter);
                let ext = self.sign_extend(off);
                let sp = self.reg_sp;
                self.flags.z = false;
                self.flags.n = false;
                self.flags.h = ((sp & 0x0F) as u32) + ((ext & 0x0F) as u32) > 0x0F;
                self.flags.c = ((sp & 0xFF) as u32) + ((ext & 0xFF) as u32) > 0xFF;
                self.reg_sp = sp.wrapping_add(ext);
                16
            },
            0xE9 => {
                self.reg_pc = self.regs_hl.get();
                4
            },
            0xEA => {
                let addr = self.read_imm16(inter);
                inter.write(addr, self.get_reg_a());
                16
            },
            0xF0 => {
                let off = self.read_imm8(inter);
                let v = inter.read(0xFF00 + off as u16);
                self.set_reg_a(v);
                12
            },
            0xF2 => {
                let v = inter.read(0xFF00 + self.get_reg_c() as u16);
                self.set_reg_a(v);
                8
            },
            0xF3 => {
                self.ime = false;
                self.ime_pending = false;
                4
            },
            0xF8 => {
                let off = self.read_imm8(inter);
                let ext = self.sign_extend(off);
                let sp = self.reg_sp;
                self.flags.z = false;
                self.flags.n = false;
                self.flags.h = ((sp & 0x0F) as u32) + ((ext & 0x0F) as u32) > 0x0F;
                self.flags.c = ((sp & 0xFF) as u32) + ((ext & 0xFF) as u32) > 0xFF;
                self.regs_hl.set(sp.wrapping_add(ext));
                12
            },
            0xF9 => {
                self.reg_sp = self.regs_hl.get();
                8
            },
            0xFA => {
                let addr = self.read_imm16(inter);
                let v = inter.read(addr);
                self.set_reg_a(v);
                16
            },
            0xFB => {
                self.ime_pending = true;
                4
            },
            _ => 0,
        }
    }

    /// Execute the instruction the fetched opcode byte names. The byte
    /// must be one the opcode table defines.
    #[verifier::rlimit(100)]
    pub fn execute_opcode(&mut self, inter: &mut Interconnect, opcode: u8) -> (cycles: usize)
        requires
            bus_wf(old(inter)@),
            spec_opcode_defined(opcode),
        ensures
            *final(self) == spec_step(*old(self), old(inter)@, opcode).cpu,
            final(inter)@ == spec_step(*old(self), old(inter)@, opcode).bus,
            cycles as int == spec_step(*old(self), old(inter)@, opcode).cycles,
            bus_wf(final(inter)@),
    {
        if opcode <= 0x3F {
            self.exec_base(inter, opcode)
        } else if opcode <= 0x7F {
            self.exec_ld(inter, opcode)
        } else if opcode <= 0xBF {
            self.exec_alu(inter, opcode)
        } else {
            self.exec_ctl(inter, opcode)
        }
    }

    /// The accumulator operation an opcode's bits 3-5 name, applied to
    /// `v`.
    fn alu_by_kind(&mut self, kind: u8, v: u8)
        ensures
            *final(self) == spec_alu_by_kind(*old(self), kind, v),
    {
        match kind {
            0 => self.alu_add(v),
            1 => self.alu_adc(v),
            2 => self.alu_sub(v),
            3 => self.alu_sbc(v),
            4 => self.alu_and(v),
            5 => self.alu_xor(v),
            6 => self.alu_or(v),
            _ => self.alu_cp(v),
        }
    }

    /// Fetch the opcode byte at the program counter, move past it, and
    /// execute the instruction it names. The byte there must be one the
    /// opcode table defines.
    pub fn execute_next_opcode(&mut self, inter: &mut Interconnect) -> (cycles: usize)
        requires
            bus_wf(old(inter)@),
            spec_opcode_defined(spec_bus_read(old(inter)@, old(self).reg_pc)),
        ensures
            *final(self) == spec_step_at_pc(*old(self), old(inter)@).cpu,
            final(inter)@ == spec_step_at_pc(*old(self), old(inter)@).bus,
            cycles as int == spec_step_at_pc(*old(self), old(inter)@).cycles,
            bus_wf(final(inter)@),
    {
        let op = inter.read(self.reg_pc);
        self.reg_pc = self.reg_pc.wrapping_add(1);
        self.execute_opcode(inter, op)
    }
}

} // verus!
