//! The 0xCB-prefixed operations: rotates, shifts, the nibble swap, and
//! single-bit test, clear and set, over any 8-bit operand.

use vstd::prelude::*;

verus! {

use crate::cpu::{
    Cpu,
    Flags,
    spec_imm8,
    spec_read_r8,
    spec_write_r8,
};
use crate::interconnect::{BusView, bus_wf, Interconnect};
use crate::operands::{Reg8, spec_reg8_from_bits};

/// RLC: rotate left, bit 7 into both bit 0 and the carry; Z on zero.
pub open spec fn spec_cb_rlc(c: Cpu, v: u8) -> (Cpu, u8) {
    let carry = (v >> 7) & 1;
    let result = (v << 1) | carry;
    (
        Cpu { flags: Flags { z: result == 0, n: false, h: false, c: carry == 1 }, ..c },
        result,
    )
}

/// RRC: rotate right, bit 0 into both bit 7 and the carry; Z on zero.
pub open spec fn spec_cb_rrc(c: Cpu, v: u8) -> (Cpu, u8) {
    let carry = v & 1;
    let result = (v >> 1) | (carry << 7);
    (
        Cpu { flags: Flags { z: result == 0, n: false, h: false, c: carry == 1 }, ..c },
        result,
    )
}

/// RL: rotate left through the carry; Z on zero.
pub open spec fn spec_cb_rl(c: Cpu, v: u8) -> (Cpu, u8) {
    let old_carry: u8 = if c.flags.c {
        1u8
    } else {
        0u8
    };
    let new_carry = (v >> 7) & 1;
    let result = (v << 1) | old_carry;
    (
        Cpu { flags: Flags { z: result == 0, n: false, h: false, c: new_carry == 1 }, ..c },
        result,
    )
}

/// RR: rotate right through the carry; Z on zero.
pub open spec fn spec_cb_rr(c: Cpu, v: u8) -> (Cpu, u8) {
    let old_carry: u8 = if c.flags.c {
        0x80u8
    } else {
        0u8
    };
    let new_carry = v & 1;
    let result = (v >> 1) | old_carry;
    (
        Cpu { flags: Flags { z: result == 0, n: false, h: false, c: new_carry == 1 }, ..c },
        result,
    )
}

/// SLA: shift left, zero into bit 0, bit 7 into the carry; Z on zero.
pub open spec fn spec_cb_sla(c: Cpu, v: u8) -> (Cpu, u8) {
    let carry = (v >> 7) & 1;
    let result = v << 1;
    (
        Cpu { flags: Flags { z: result == 0, n: false, h: false, c: carry == 1 }, ..c },
        result,
    )
}

/// SRA: shift right keeping bit 7, bit 0 into the carry; Z on zero.
pub open spec fn spec_cb_sra(c: Cpu, v: u8) -> (Cpu, u8) {
    let carry = v & 1;
    let result = (v >> 1) | (v & 0x80);
    (
        Cpu { flags: Flags { z: result == 0, n: false, h: false, c: carry == 1 }, ..c },
        result,
    )
}

/// SWAP: exchange the nibbles; Z on zero, every other flag clear.
pub open spec fn spec_cb_swap(c: Cpu, v: u8) -> (Cpu, u8) {
    let result = (v >> 4) | (v << 4);
    (
        Cpu { flags: Flags { z: result == 0, n: false, h: false, c: false }, ..c },
        result,
    )
}

/// SRL: shift right, zero into bit 7, bit 0 into the carry; Z on zero.
pub open spec fn spec_cb_srl(c: Cpu, v: u8) -> (Cpu, u8) {
    let carry = v & 1;
    let result = v >> 1;
    (
        Cpu { flags: Flags { z: result == 0, n: false, h: false, c: carry == 1 }, ..c },
        result,
    )
}

/// BIT n: Z set exactly when the named bit is clear; N clear, H set, C
/// untouched.
pub open spec fn spec_cb_bit(c: Cpu, bit: u8, v: u8) -> Cpu {
    Cpu {
        flags: Flags {
            z: v & ((1u8 << (bit & 0x07)) as u8) == 0,
            n: false,
            h: true,
            c: c.flags.c,
        },
        ..c
    }
}

/// RES n: the value with the named bit cleared; no flag moves.
pub open spec fn spec_cb_res(bit: u8, v: u8) -> u8 {
    v & !((1u8 << (bit & 0x07)) as u8)
}

/// SET n: the value with the named bit set; no flag moves.
pub open spec fn spec_cb_set(bit: u8, v: u8) -> u8 {
    v | ((1u8 << (bit & 0x07)) as u8)
}

/// A three-bit mask leaves at most seven.
proof fn lemma_and7_le7(x: u8)
    ensures
        x & 0x07 <= 7,
{
    assert(x & 0x07 <= 7) by (bit_vector);
}

/// One whole 0xCB-prefixed instruction: the operation byte read at the
/// program counter selects the operation in its high bits and the
/// operand in its low three; `(HL)` operands go through the bus. The
/// result holds the processor, the bus, and the T-cycles consumed.
pub open spec fn spec_execute_cb(c: Cpu, b: BusView) -> (Cpu, BusView, int) {
    let fetched = spec_imm8(c, b);
    let c1 = fetched.0;
    let cb_op = fetched.1;
    let reg = spec_reg8_from_bits(cb_op & 0x07);
    let bit = (cb_op >> 3) & 0x07;
    let slow: int = if reg == Reg8::HLRef {
        16
    } else {
        8
    };
    let v = spec_read_r8(c1, b, reg);
    if cb_op < 0x40 {
        let done = if cb_op < 0x08 {
            spec_cb_rlc(c1, v)
        } else if cb_op < 0x10 {
            spec_cb_rrc(c1, v)
        } else if cb_op < 0x18 {
            spec_cb_rl(c1, v)
        } else if cb_op < 0x20 {
            spec_cb_rr(c1, v)
        } else if cb_op < 0x28 {
            spec_cb_sla(c1, v)
        } else if cb_op < 0x30 {
            spec_cb_sra(c1, v)
        } else if cb_op < 0x38 {
            spec_cb_swap(c1, v)
        } else {
            spec_cb_srl(c1, v)
        };
        let written = spec_write_r8(done.0, b, reg, done.1);
        (written.0, written.1, slow)
    } else if cb_op < 0x80 {
        (
            spec_cb_bit(c1, bit, v),
            b,
            if reg == Reg8::HLRef {
                12
            } else {
                8
            },
        )
    } else if cb_op < 0xC0 {
        let written = spec_write_r8(c1, b, reg, spec_cb_res(bit, v));
        (written.0, written.1, slow)
    } else {
        let written = spec_write_r8(c1, b, reg, spec_cb_set(bit, v));
        (written.0, written.1, slow)
    }
}

impl Cpu {
    /// RLC: rotate left, bit 7 into both bit 0 and the carry.
    pub fn cb_rlc(&mut self, value: u8) -> (r: u8)
        ensures
            (*final(self), r) == spec_cb_rlc(*old(self), value),
    {
        let carry = (value >> 7) & 1;
        let result = (value << 1) | carry;
        self.flags.z = result == 0;
        self.flags.n = false;
        self.flags.h = false;
        self.flags.c = carry == 1;
        result
    }

    /// RRC: rotate right, bit 0 into both bit 7 and the carry.
    pub fn cb_rrc(&mut self, value: u8) -> (r: u8)
        ensures
            (*final(self), r) == spec_cb_rrc(*old(self), value),
    {
        let carry = value & 1;
        let result = (value >> 1) | (carry << 7);
        self.flags.z = result == 0;
        self.flags.n = false;
        self.flags.h = false;
        self.flags.c = carry == 1;
        result
    }

    /// RL: rotate left through the carry.
    pub fn cb_rl(&mut self, value: u8) -> (r: u8)
        ensures
            (*final(self), r) == spec_cb_rl(*old(self), value),
    {
        let old_carry: u8 = if self.flags.c {
            1
        } else {
            0
        };
        let new_carry = (value >> 7) & 1;
        let result = (value << 1) | old_carry;
        self.flags.z = result == 0;
        self.flags.n = false;
        self.flags.h = false;
        self.flags.c = new_carry == 1;
        result
    }

    /// RR: rotate right through the carry.
    pub fn cb_rr(&mut self, value: u8) -> (r: u8)
        ensures
            (*final(self), r) == spec_cb_rr(*old(self), value),
    {
        let old_carry: u8 = if self.flags.c {
            0x80
        } else {
            0
        };
        let new_carry = value & 1;
        let result = (value >> 1) | old_carry;
        self.flags.z = result == 0;
        self.flags.n = false;
        self.flags.h = false;
        self.flags.c = new_carry == 1;
        result
    }

    /// SLA: shift left, zero into bit 0.
    pub fn cb_sla(&mut self, value: u8) -> (r: u8)
        ensures
            (*final(self), r) == spec_cb_sla(*old(self), value),
    {
        let carry = (value >> 7) & 1;
        let result = value << 1;
        self.flags.z = result == 0;
        self.flags.n = false;
        self.flags.h = false;
        self.flags.c = carry == 1;
        result
    }

    /// SRA: shift right keeping bit 7.
    pub fn cb_sra(&mut self, value: u8) -> (r: u8)
        ensures
            (*final(self), r) == spec_cb_sra(*old(self), value),
    {
        let carry = value & 1;
        let result = (value >> 1) | (value & 0x80);
        self.flags.z = result == 0;
        self.flags.n = false;
        self.flags.h = false;
        self.flags.c = carry == 1;
        result
    }

    /// SWAP: exchange the nibbles.
    pub fn cb_swap(&mut self, value: u8) -> (r: u8)
        ensures
            (*final(self), r) == spec_cb_swap(*old(self), value),
    {
        let result = (value >> 4) | (value << 4);
        self.flags.z = result == 0;
        self.flags.n = false;
        self.flags.h = false;
        self.flags.c = false;
        result
    }

    /// SRL: shift right, zero into bit 7.
    pub fn cb_srl(&mut self, value: u8) -> (r: u8)
        ensures
            (*final(self), r) == spec_cb_srl(*old(self), value),
    {
        let carry = value & 1;
        let result = value >> 1;
        self.flags.z = result == 0;
        self.flags.n = false;
        self.flags.h = false;
        self.flags.c = carry == 1;
        result
    }

    /// BIT n: Z set exactly when the named bit is clear; C untouched.
    pub fn cb_bit(&mut self, bit: u8, value: u8)
        ensures
            *final(self) == spec_cb_bit(*old(self), bit, value),
    {
        proof {
            lemma_and7_le7(bit);
        }
        self.flags.z = (value & (1 << (bit & 0x07))) == 0;
        self.flags.n = false;
        self.flags.h = true;
    }

    /// RES n: clear the named bit; no flag moves.
    pub fn cb_res(&self, bit: u8, value: u8) -> (r: u8)
        ensures
            r == spec_cb_res(bit, value),
    {
        proof {
            lemma_and7_le7(bit);
        }
        value & !(1 << (bit & 0x07))
    }

    /// SET n: set the named bit; no flag moves.
    pub fn cb_set(&self, bit: u8, value: u8) -> (r: u8)
        ensures
            r == spec_cb_set(bit, value),
    {
        proof {
            lemma_and7_le7(bit);
        }
        value | (1 << (bit & 0x07))
    }

    /// Execute one 0xCB-prefixed instruction: fetch the operation byte,
    /// apply the operation to the operand its low bits name, and report
    /// the T-cycles consumed.
    pub fn execute_cb(&mut self, inter: &mut Interconnect) -> (cycles: usize)
        requires
            bus_wf(old(inter)@),
        ensures
            (*final(self), final(inter)@, cycles as int) == spec_execute_cb(
                *old(self),
                old(inter)@,
            ),
            bus_wf(final(inter)@),
    {
        let cb_op = self.read_imm8(inter);
        let reg = Reg8::from_bits(cb_op & 0x07);
        let is_hl_ref = reg == Reg8::HLRef;
        let bit = (cb_op >> 3) & 0x07;
        let val = self.read_r8(inter, reg);
        match cb_op {
            0x00..=0x07 => {
                let result = self.cb_rlc(val);
                self.write_r8(inter, reg, result);
                if is_hl_ref {
                    16
                } else {
                    8
                }
            },
            0x08..=0x0F => {
                let result = self.cb_rrc(val);
                self.write_r8(inter, reg, result);
                if is_hl_ref {
                    16
                } else {
                    8
                }
            },
            0x10..=0x17 => {
                let result = self.cb_rl(val);
                self.write_r8(inter, reg, result);
                if is_hl_ref {
                    16
                } else {
                    8
                }
            },
            0x18..=0x1F => {
                let result = self.cb_rr(val);
                self.write_r8(inter, reg, result);
                if is_hl_ref {
                    16
                } else {
                    8
                }
            },
            0x20..=0x27 => {
                let result = self.cb_sla(val);
                self.write_r8(inter, reg, result);
                if is_hl_ref {
                    16
                } else {
                    8
                }
            },
            0x28..=0x2F => {
                let result = self.cb_sra(val);
                self.write_r8(inter, reg, result);
                if is_hl_ref {
                    16
                } else {
                    8
                }
            },
            0x30..=0x37 => {
                let result = self.cb_swap(val);
                self.write_r8(inter, reg, result);
                if is_hl_ref {
                    16
                } else {
                    8
                }
            },
            0x38..=0x3F => {
                let result = self.cb_srl(val);
                self.write_r8(inter, reg, result);
                if is_hl_ref {
                    16
                } else {
                    8
                }
            },
            0x40..=0x7F => {
                self.cb_bit(bit, val);
                if is_hl_ref {
                    12
                } else {
                    8
                }
            },
            0x80..=0xBF => {
                let result = self.cb_res(bit, val);
                self.write_r8(inter, reg, result);
                if is_hl_ref {
                    16
                } else {
                    8
                }
            },
            0xC0..=0xFF => {
                let result = self.cb_set(bit, val);
                self.write_r8(inter, reg, result);
                if is_hl_ref {
                    16
                } else {
                    8
                }
            },
        }
    }
}

} // verus!
