//! The processor: registers, flags, the interrupt machinery, and the
//! fetch/execute entry points. The instruction semantics live beside it
//! in the decoder and executor modules.

use vstd::prelude::*;

verus! {

use crate::interconnect::{BusView, bus_wf, Interconnect, spec_bus_read, spec_bus_write};
use crate::operands::{ConditionCode, Reg16, Reg16Stack, Reg8};
use crate::register::{pair_value, Register};
use crate::text::{push_char, push_hex_byte, push_hex_word, push_str_piece, spec_hex_byte, spec_hex_word};

/// The four arithmetic flags: zero, subtract, half carry and carry.
#[derive(Clone, Copy, Debug, PartialEq, Eq, Structural)]
pub struct Flags {
    pub z: bool,
    pub n: bool,
    pub h: bool,
    pub c: bool,
}

/// Processor state: the program counter, the stack pointer, the four
/// register pairs, the flags, and the interrupt and halt latches.
#[derive(Clone, Copy, Debug, PartialEq, Eq, Structural)]
pub struct Cpu {
    /// Program counter.
    pub reg_pc: u16,
    /// Stack pointer.
    pub reg_sp: u16,
    /// The A register (high byte); the low byte shadows F.
    pub regs_af: Register,
    /// The B and C registers.
    pub regs_bc: Register,
    /// The D and E registers.
    pub regs_de: Register,
    /// The H and L registers.
    pub regs_hl: Register,
    /// The four arithmetic flags.
    pub flags: Flags,
    /// Interrupt master enable: interrupts dispatch only when set.
    pub ime: bool,
    /// Set by EI; becomes `ime` at the top of the following fetch.
    pub ime_pending: bool,
    /// Set by HALT; cleared by any pending interrupt.
    pub halted: bool,
}

/// The A register.
pub open spec fn spec_a(c: Cpu) -> u8 {
    c.regs_af.hi
}

/// A processor with the A register replaced.
pub open spec fn with_a(c: Cpu, v: u8) -> Cpu {
    Cpu { regs_af: Register { hi: v, lo: c.regs_af.lo }, ..c }
}

/// The F register: the flags in bits 7-4, the low nibble zero.
pub open spec fn spec_f(c: Cpu) -> u8 {
    ((if c.flags.z {
        0x80u8
    } else {
        0u8
    }) | (if c.flags.n {
        0x40u8
    } else {
        0u8
    }) | (if c.flags.h {
        0x20u8
    } else {
        0u8
    }) | (if c.flags.c {
        0x10u8
    } else {
        0u8
    })) as u8
}

/// What reading an 8-bit operand yields; `(HL)` reads through the bus.
pub open spec fn spec_read_r8(c: Cpu, b: BusView, r: Reg8) -> u8 {
    match r {
        Reg8::A => c.regs_af.hi,
        Reg8::B => c.regs_bc.hi,
        Reg8::C => c.regs_bc.lo,
        Reg8::D => c.regs_de.hi,
        Reg8::E => c.regs_de.lo,
        Reg8::H => c.regs_hl.hi,
        Reg8::L => c.regs_hl.lo,
        Reg8::HLRef => spec_bus_read(b, pair_value(c.regs_hl.hi, c.regs_hl.lo)),
    }
}

/// The processor and bus after writing an 8-bit operand; `(HL)` writes
/// through the bus.
pub open spec fn spec_write_r8(c: Cpu, b: BusView, r: Reg8, v: u8) -> (Cpu, BusView) {
    match r {
        Reg8::A => (Cpu { regs_af: Register { hi: v, lo: c.regs_af.lo }, ..c }, b),
        Reg8::B => (Cpu { regs_bc: Register { hi: v, lo: c.regs_bc.lo }, ..c }, b),
        Reg8::C => (Cpu { regs_bc: Register { hi: c.regs_bc.hi, lo: v }, ..c }, b),
        Reg8::D => (Cpu { regs_de: Register { hi: v, lo: c.regs_de.lo }, ..c }, b),
        Reg8::E => (Cpu { regs_de: Register { hi: c.regs_de.hi, lo: v }, ..c }, b),
        Reg8::H => (Cpu { regs_hl: Register { hi: v, lo: c.regs_hl.lo }, ..c }, b),
        Reg8::L => (Cpu { regs_hl: Register { hi: c.regs_hl.hi, lo: v }, ..c }, b),
        Reg8::HLRef => (c, spec_bus_write(b, pair_value(c.regs_hl.hi, c.regs_hl.lo), v)),
    }
}

/// The 16-bit value of a register pair.
pub open spec fn spec_read_r16(c: Cpu, r: Reg16) -> u16 {
    match r {
        Reg16::BC => pair_value(c.regs_bc.hi, c.regs_bc.lo),
        Reg16::DE => pair_value(c.regs_de.hi, c.regs_de.lo),
        Reg16::HL => pair_value(c.regs_hl.hi, c.regs_hl.lo),
        Reg16::SP => c.reg_sp,
    }
}

/// A register pair split into its two bytes.
pub open spec fn spec_split(v: u16) -> Register {
    Register { hi: (v >> 8) as u8, lo: (v & 0xFF) as u8 }
}

/// The processor after writing a register pair.
pub open spec fn spec_write_r16(c: Cpu, r: Reg16, v: u16) -> Cpu {
    match r {
        Reg16::BC => Cpu { regs_bc: spec_split(v), ..c },
        Reg16::DE => Cpu { regs_de: spec_split(v), ..c },
        Reg16::HL => Cpu { regs_hl: spec_split(v), ..c },
        Reg16::SP => Cpu { reg_sp: v, ..c },
    }
}

/// The 16-bit value of a stack-variant pair; AF projects the flags into
/// the low byte.
pub open spec fn spec_read_r16_stack(c: Cpu, r: Reg16Stack) -> u16 {
    match r {
        Reg16Stack::BC => pair_value(c.regs_bc.hi, c.regs_bc.lo),
        Reg16Stack::DE => pair_value(c.regs_de.hi, c.regs_de.lo),
        Reg16Stack::HL => pair_value(c.regs_hl.hi, c.regs_hl.lo),
        Reg16Stack::AF => pair_value(c.regs_af.hi, spec_f(c)),
    }
}

/// The processor after writing a stack-variant pair; a write to AF masks
/// the low nibble to zero and refreshes the flag booleans.
pub open spec fn spec_write_r16_stack(c: Cpu, r: Reg16Stack, v: u16) -> Cpu {
    match r {
        Reg16Stack::BC => Cpu { regs_bc: spec_split(v), ..c },
        Reg16Stack::DE => Cpu { regs_de: spec_split(v), ..c },
        Reg16Stack::HL => Cpu { regs_hl: spec_split(v), ..c },
        Reg16Stack::AF => Cpu {
            regs_af: spec_split(v & 0xFFF0),
            flags: Flags {
                z: v as u8 & 0x80 != 0,
                n: v as u8 & 0x40 != 0,
                h: v as u8 & 0x20 != 0,
                c: v as u8 & 0x10 != 0,
            },
            ..c
        },
    }
}

/// Whether a condition code holds of the flags.
pub open spec fn spec_condition(c: Cpu, cond: ConditionCode) -> bool {
    match cond {
        ConditionCode::NZ => !c.flags.z,
        ConditionCode::Z => c.flags.z,
        ConditionCode::NC => !c.flags.c,
        ConditionCode::C => c.flags.c,
    }
}

/// The processor and bus after pushing a 16-bit value: the stack pointer
/// drops twice, the high byte lands first, above the low byte.
pub open spec fn spec_push16(c: Cpu, b: BusView, v: u16) -> (Cpu, BusView) {
    let sp1 = c.reg_sp.wrapping_sub(1);
    let b1 = spec_bus_write(b, sp1, (v >> 8) as u8);
    let sp2 = sp1.wrapping_sub(1);
    let b2 = spec_bus_write(b1, sp2, (v & 0xFF) as u8);
    (Cpu { reg_sp: sp2, ..c }, b2)
}

/// The processor and the 16-bit value popped: the low byte from the
/// stack pointer, the high byte above it, the pointer rising twice.
pub open spec fn spec_pop16(c: Cpu, b: BusView) -> (Cpu, u16) {
    let lo = spec_bus_read(b, c.reg_sp);
    let hi = spec_bus_read(b, c.reg_sp.wrapping_add(1));
    (Cpu { reg_sp: c.reg_sp.wrapping_add(2), ..c }, pair_value(hi, lo))
}

/// The processor and the immediate byte at the program counter, which
/// moves past it.
pub open spec fn spec_imm8(c: Cpu, b: BusView) -> (Cpu, u8) {
    (Cpu { reg_pc: c.reg_pc.wrapping_add(1), ..c }, spec_bus_read(b, c.reg_pc))
}

/// The processor and the little-endian immediate word at the program
/// counter, which moves past it.
pub open spec fn spec_imm16(c: Cpu, b: BusView) -> (Cpu, u16) {
    let lo = spec_bus_read(b, c.reg_pc);
    let hi = spec_bus_read(b, c.reg_pc.wrapping_add(1));
    (Cpu { reg_pc: c.reg_pc.wrapping_add(2), ..c }, pair_value(hi, lo))
}

/// A byte sign-extended to sixteen bits.
pub open spec fn spec_sign_extend(v: u8) -> u16 {
    if v < 0x80 {
        v as u16
    } else {
        (v as u16) | 0xFF00
    }
}

/// The state a processor starts in at cartridge entry.
pub open spec fn spec_cpu_initial() -> Cpu {
    Cpu {
        reg_pc: 0x0100u16,
        reg_sp: 0xFFFEu16,
        regs_af: Register { hi: 0x01u8, lo: 0xB0u8 },
        regs_bc: Register { hi: 0x00u8, lo: 0x13u8 },
        regs_de: Register { hi: 0x00u8, lo: 0xD8u8 },
        regs_hl: Register { hi: 0x01u8, lo: 0x4Du8 },
        flags: Flags { z: true, n: false, h: true, c: true },
        ime: false,
        ime_pending: false,
        halted: false,
    }
}

/// The interrupt service of the fetch: a pending EI commits to IME; any
/// pending interrupt wakes a halted processor; with IME set and a bit
/// pending, the lowest bit is taken — its IF bit cleared, IME dropped,
/// the program counter pushed and set to the bit's vector, twenty
/// T-cycles consumed. Otherwise nothing more happens and zero is
/// reported.
pub open spec fn spec_handle_interrupts(c: Cpu, b: BusView) -> (Cpu, BusView, int) {
    let c1 = if c.ime_pending {
        Cpu { ime_pending: false, ime: true, ..c }
    } else {
        c
    };
    let pending = (b.interrupt_flag & b.interrupt_enable) & 0x1F;
    let c2 = if c1.halted && pending != 0 {
        Cpu { halted: false, ..c1 }
    } else {
        c1
    };
    if !c2.ime || pending == 0 {
        (c2, b, 0)
    } else {
        let bit: u8 = if pending & 0x01 != 0 {
            0x01u8
        } else if pending & 0x02 != 0 {
            0x02u8
        } else if pending & 0x04 != 0 {
            0x04u8
        } else if pending & 0x08 != 0 {
            0x08u8
        } else {
            0x10u8
        };
        let vector: u16 = if pending & 0x01 != 0 {
            0x0040u16
        } else if pending & 0x02 != 0 {
            0x0048u16
        } else if pending & 0x04 != 0 {
            0x0050u16
        } else if pending & 0x08 != 0 {
            0x0058u16
        } else {
            0x0060u16
        };
        let c3 = Cpu { ime: false, ..c2 };
        let b3 = BusView { interrupt_flag: b.interrupt_flag & !bit, ..b };
        let pushed = spec_push16(c3, b3, c3.reg_pc);
        (Cpu { reg_pc: vector, ..pushed.0 }, pushed.1, 20)
    }
}

impl Cpu {
    /// A processor at cartridge entry: PC 0x0100, SP 0xFFFE, the
    /// customary post-boot register values, interrupts off.
    pub fn new() -> (r: Cpu)
        ensures
            r == spec_cpu_initial(),
    {
        Cpu {
            reg_pc: 0x0100,
            reg_sp: 0xFFFE,
            regs_af: Register { hi: 0x01, lo: 0xB0 },
            regs_bc: Register { hi: 0x00, lo: 0x13 },
            regs_de: Register { hi: 0x00, lo: 0xD8 },
            regs_hl: Register { hi: 0x01, lo: 0x4D },
            flags: Flags { z: true, n: false, h: true, c: true },
            ime: false,
            ime_pending: false,
            halted: false,
        }
    }

    /// The program counter.
    pub fn pc(&self) -> (r: u16)
        ensures
            r == self.reg_pc,
    {
        self.reg_pc
    }

    /// The stack pointer.
    pub fn sp(&self) -> (r: u16)
        ensures
            r == self.reg_sp,
    {
        self.reg_sp
    }

    /// The AF pair as stored.
    pub fn af(&self) -> (r: u16)
        ensures
            r == pair_value(self.regs_af.hi, self.regs_af.lo),
    {
        self.regs_af.get()
    }

    /// The BC pair.
    pub fn bc(&self) -> (r: u16)
        ensures
            r == pair_value(self.regs_bc.hi, self.regs_bc.lo),
    {
        self.regs_bc.get()
    }

    /// The DE pair.
    pub fn de(&self) -> (r: u16)
        ensures
            r == pair_value(self.regs_de.hi, self.regs_de.lo),
    {
        self.regs_de.get()
    }

    /// The HL pair.
    pub fn hl(&self) -> (r: u16)
        ensures
            r == pair_value(self.regs_hl.hi, self.regs_hl.lo),
    {
        self.regs_hl.get()
    }

    /// Whether the processor rests in HALT.
    pub fn is_halted(&self) -> (r: bool)
        ensures
            r == self.halted,
    {
        self.halted
    }

    /// The interrupt master enable.
    pub fn ime(&self) -> (r: bool)
        ensures
            r == self.ime,
    {
        self.ime
    }

    /// Set the zero flag.
    pub fn set_zero_flag(&mut self, bit: bool)
        ensures
            *final(self) == (Cpu { flags: (Flags { z: bit, ..old(self).flags }), ..*old(self) }),
    {
        self.flags.z = bit;
    }

    /// Set the subtract flag.
    pub fn set_subtract_flag(&mut self, bit: bool)
        ensures
            *final(self) == (Cpu { flags: (Flags { n: bit, ..old(self).flags }), ..*old(self) }),
    {
        self.flags.n = bit;
    }

    /// Set the half-carry flag.
    pub fn set_half_carry_flag(&mut self, bit: bool)
        ensures
            *final(self) == (Cpu { flags: (Flags { h: bit, ..old(self).flags }), ..*old(self) }),
    {
        self.flags.h = bit;
    }

    /// Set the carry flag.
    pub fn set_carry_flag(&mut self, bit: bool)
        ensures
            *final(self) == (Cpu { flags: (Flags { c: bit, ..old(self).flags }), ..*old(self) }),
    {
        self.flags.c = bit;
    }

    /// Set the A register.
    pub fn set_reg_a(&mut self, num: u8)
        ensures
            *final(self) == with_a(*old(self), num),
    {
        self.regs_af.set_hi(num);
    }

    /// Set the B register.
    pub fn set_reg_b(&mut self, num: u8)
        ensures
            *final(self) == (Cpu { regs_bc: (Register { hi: num, lo: old(self).regs_bc.lo }), ..*old(self) }),
    {
        self.regs_bc.set_hi(num);
    }

    /// Set the C register.
    pub fn set_reg_c(&mut self, num: u8)
        ensures
            *final(self) == (Cpu { regs_bc: (Register { hi: old(self).regs_bc.hi, lo: num }), ..*old(self) }),
    {
        self.regs_bc.set_lo(num);
    }

    /// Set the D register.
    pub fn set_reg_d(&mut self, num: u8)
        ensures
            *final(self) == (Cpu { regs_de: (Register { hi: num, lo: old(self).regs_de.lo }), ..*old(self) }),
    {
        self.regs_de.set_hi(num);
    }

    /// Set the E register.
    pub fn set_reg_e(&mut self, num: u8)
        ensures
            *final(self) == (Cpu { regs_de: (Register { hi: old(self).regs_de.hi, lo: num }), ..*old(self) }),
    {
        self.regs_de.set_lo(num);
    }

    /// Set the H register.
    pub fn set_reg_h(&mut self, num: u8)
        ensures
            *final(self) == (Cpu { regs_hl: (Register { hi: num, lo: old(self).regs_hl.lo }), ..*old(self) }),
    {
        self.regs_hl.set_hi(num);
    }

    /// Set the L register.
    pub fn set_reg_l(&mut self, num: u8)
        ensures
            *final(self) == (Cpu { regs_hl: (Register { hi: old(self).regs_hl.hi, lo: num }), ..*old(self) }),
    {
        self.regs_hl.set_lo(num);
    }

    /// The A register.
    pub fn get_reg_a(&self) -> (r: u8)
        ensures
            r == self.regs_af.hi,
    {
        self.regs_af.get_hi()
    }

    /// The B register.
    pub fn get_reg_b(&self) -> (r: u8)
        ensures
            r == self.regs_bc.hi,
    {
        self.regs_bc.get_hi()
    }

    /// The C register.
    pub fn get_reg_c(&self) -> (r: u8)
        ensures
            r == self.regs_bc.lo,
    {
        self.regs_bc.get_lo()
    }

    /// The D register.
    pub fn get_reg_d(&self) -> (r: u8)
        ensures
            r == self.regs_de.hi,
    {
        self.regs_de.get_hi()
    }

    /// The E register.
    pub fn get_reg_e(&self) -> (r: u8)
        ensures
            r == self.regs_de.lo,
    {
        self.regs_de.get_lo()
    }

    /// The H register.
    pub fn get_reg_h(&self) -> (r: u8)
        ensures
            r == self.regs_hl.hi,
    {
        self.regs_hl.get_hi()
    }

    /// The L register.
    pub fn get_reg_l(&self) -> (r: u8)
        ensures
            r == self.regs_hl.lo,
    {
        self.regs_hl.get_lo()
    }

    /// Read an 8-bit operand; `(HL)` reads through the bus.
    pub fn read_r8(&self, inter: &Interconnect, r: Reg8) -> (v: u8)
        requires
            bus_wf(inter@),
        ensures
            v == spec_read_r8(*self, inter@, r),
    {
        match r {
            Reg8::A => self.regs_af.get_hi(),
            Reg8::B => self.regs_bc.get_hi(),
            Reg8::C => self.regs_bc.get_lo(),
            Reg8::D => self.regs_de.get_hi(),
            Reg8::E => self.regs_de.get_lo(),
            Reg8::H => self.regs_hl.get_hi(),
            Reg8::L => self.regs_hl.get_lo(),
            Reg8::HLRef => inter.read(self.regs_hl.get()),
        }
    }

    /// Write an 8-bit operand; `(HL)` writes through the bus.
    pub fn write_r8(&mut self, inter: &mut Interconnect, r: Reg8, val: u8)
        requires
            bus_wf(old(inter)@),
        ensures
            (*final(self), final(inter)@) == spec_write_r8(*old(self), old(inter)@, r, val),
            bus_wf(final(inter)@),
    {
        match r {
            Reg8::A => self.regs_af.set_hi(val),
            Reg8::B => self.regs_bc.set_hi(val),
            Reg8::C => self.regs_bc.set_lo(val),
            Reg8::D => self.regs_de.set_hi(val),
            Reg8::E => self.regs_de.set_lo(val),
            Reg8::H => self.regs_hl.set_hi(val),
            Reg8::L => self.regs_hl.set_lo(val),
            Reg8::HLRef => inter.write(self.regs_hl.get(), val),
        }
    }

    /// Read a register pair.
    pub fn read_r16(&self, r: Reg16) -> (v: u16)
        ensures
            v == spec_read_r16(*self, r),
    {
        match r {
            Reg16::BC => self.regs_bc.get(),
            Reg16::DE => self.regs_de.get(),
            Reg16::HL => self.regs_hl.get(),
            Reg16::SP => self.reg_sp,
        }
    }

    /// Write a register pair.
    pub fn write_r16(&mut self, r: Reg16, val: u16)
        ensures
            *final(self) == spec_write_r16(*old(self), r, val),
    {
        match r {
            Reg16::BC => self.regs_bc.set(val),
            Reg16::DE => self.regs_de.set(val),
            Reg16::HL => self.regs_hl.set(val),
            Reg16::SP => self.reg_sp = val,
        }
    }

    /// Read a stack-variant pair; AF projects the flags.
    pub fn read_r16_stack(&self, r: Reg16Stack) -> (v: u16)
        ensures
            v == spec_read_r16_stack(*self, r),
    {
        match r {
            Reg16Stack::BC => self.regs_bc.get(),
            Reg16Stack::DE => self.regs_de.get(),
            Reg16Stack::HL => self.regs_hl.get(),
            Reg16Stack::AF => {
                let zf: u8 = if self.flags.z {
                    0x80
                } else {
                    0
                };
                let nf: u8 = if self.flags.n {
                    0x40
                } else {
                    0
                };
                let hf: u8 = if self.flags.h {
                    0x20
                } else {
                    0
                };
                let cf: u8 = if self.flags.c {
                    0x10
                } else {
                    0
                };
                let f = ((zf | nf) | hf) | cf;
                ((self.regs_af.get_hi() as u16) << 8) | (f as u16)
            },
        }
    }

    /// Write a stack-variant pair; a write to AF masks the low nibble of
    /// F to zero and refreshes the flag booleans.
    pub fn write_r16_stack(&mut self, r: Reg16Stack, val: u16)
        ensures
            *final(self) == spec_write_r16_stack(*old(self), r, val),
    {
        match r {
            Reg16Stack::BC => self.regs_bc.set(val),
            Reg16Stack::DE => self.regs_de.set(val),
            Reg16Stack::HL => self.regs_hl.set(val),
            Reg16Stack::AF => {
                self.regs_af.set(val & 0xFFF0);
                let f = val as u8;
                self.flags.z = f & 0x80 != 0;
                self.flags.n = f & 0x40 != 0;
                self.flags.h = f & 0x20 != 0;
                self.flags.c = f & 0x10 != 0;
            },
        }
    }

    /// Whether a condition code holds of the flags.
    pub fn check_condition(&self, cond: ConditionCode) -> (r: bool)
        ensures
            r == spec_condition(*self, cond),
    {
        match cond {
            ConditionCode::NZ => !self.flags.z,
            ConditionCode::Z => self.flags.z,
            ConditionCode::NC => !self.flags.c,
            ConditionCode::C => self.flags.c,
        }
    }

    /// Push a 16-bit value: the stack pointer drops twice, the high byte
    /// lands above the low byte.
    pub fn push_16(&mut self, inter: &mut Interconnect, value: u16)
        requires
            bus_wf(old(inter)@),
        ensures
            (*final(self), final(inter)@) == spec_push16(*old(self), old(inter)@, value),
            bus_wf(final(inter)@),
    {
        self.reg_sp = self.reg_sp.wrapping_sub(1);
        inter.write(self.reg_sp, (value >> 8) as u8);
        self.reg_sp = self.reg_sp.wrapping_sub(1);
        inter.write(self.reg_sp, (value & 0xFF) as u8);
    }

    /// Pop a 16-bit value: the low byte from the stack pointer, the high
    /// byte above it, the pointer rising twice.
    pub fn pop_16(&mut self, inter: &Interconnect) -> (v: u16)
        requires
            bus_wf(inter@),
        ensures
            (*final(self), v) == spec_pop16(*old(self), inter@),
    {
        let lo = inter.read(self.reg_sp) as u16;
        self.reg_sp = self.reg_sp.wrapping_add(1);
        let hi = inter.read(self.reg_sp) as u16;
        self.reg_sp = self.reg_sp.wrapping_add(1);
        proof {
            let ghost sp0 = old(self).reg_sp;
            assert(sp0.wrapping_add(1).wrapping_add(1) == sp0.wrapping_add(2)) by (bit_vector);
        }
        (hi << 8) | lo
    }

    /// Read the immediate byte at the program counter and move past it.
    pub fn read_imm8(&mut self, inter: &Interconnect) -> (v: u8)
        requires
            bus_wf(inter@),
        ensures
            (*final(self), v) == spec_imm8(*old(self), inter@),
    {
        let val = inter.read(self.reg_pc);
        self.reg_pc = self.reg_pc.wrapping_add(1);
        val
    }

    /// Read the little-endian immediate word at the program counter and
    /// move past it.
    pub fn read_imm16(&mut self, inter: &Interconnect) -> (v: u16)
        requires
            bus_wf(inter@),
        ensures
            (*final(self), v) == spec_imm16(*old(self), inter@),
    {
        let lo = inter.read(self.reg_pc) as u16;
        self.reg_pc = self.reg_pc.wrapping_add(1);
        let hi = inter.read(self.reg_pc) as u16;
        self.reg_pc = self.reg_pc.wrapping_add(1);
        proof {
            let ghost pc0 = old(self).reg_pc;
            assert(pc0.wrapping_add(1).wrapping_add(1) == pc0.wrapping_add(2)) by (bit_vector);
        }
        (hi << 8) | lo
    }

    /// A byte sign-extended to sixteen bits, for relative branches and
    /// stack-pointer offsets.
    pub fn sign_extend(&self, v: u8) -> (r: u16)
        ensures
            r == spec_sign_extend(v),
    {
        if v < 0x80 {
            v as u16
        } else {
            (v as u16) | 0xFF00
        }
    }

    /// Service interrupts at the top of a fetch: commit a pending EI,
    /// wake from HALT on any pending bit, and with IME set dispatch the
    /// lowest pending bit to its vector for twenty T-cycles.
    pub fn handle_interrupts(&mut self, inter: &mut Interconnect) -> (cycles: usize)
        requires
            bus_wf(old(inter)@),
        ensures
            (*final(self), final(inter)@, cycles as int) == spec_handle_interrupts(
                *old(self),
                old(inter)@,
            ),
            bus_wf(final(inter)@),
    {
        if self.ime_pending {
            self.ime_pending = false;
            self.ime = true;
        }
        let pending = inter.pending_interrupts();
        if self.halted && pending != 0 {
            self.halted = false;
        }
        if !self.ime || pending == 0 {
            return 0;
        }
        let (interrupt_bit, vector) = if pending & 0x01 != 0 {
            (0x01u8, 0x0040u16)
        } else if pending & 0x02 != 0 {
            (0x02u8, 0x0048u16)
        } else if pending & 0x04 != 0 {
            (0x04u8, 0x0050u16)
        } else if pending & 0x08 != 0 {
            (0x08u8, 0x0058u16)
        } else {
            (0x10u8, 0x0060u16)
        };
        self.ime = false;
        inter.clear_interrupt(interrupt_bit);
        let pc = self.reg_pc;
        self.push_16(inter, pc);
        self.reg_pc = vector;
        20
    }
}

/// An enabled interrupt only becomes the master enable one instruction
/// after EI retires: EI itself leaves `ime` clear and only marks it
/// pending, and the following fetch's interrupt service commits it.
pub proof fn lemma_ei_takes_effect_next_instruction(c: Cpu, b: BusView)
    requires
        !c.ime,
        (b.interrupt_flag & b.interrupt_enable) & 0x1F == 0,
    ensures
        !(Cpu { ime_pending: true, ..c }).ime,
        spec_handle_interrupts(Cpu { ime_pending: true, ..c }, b).0.ime,
        spec_handle_interrupts(Cpu { ime_pending: true, ..c }, b).2 == 0,
{
}


/// The character printing a flag: 1 when set, 0 when clear.
pub open spec fn spec_bit_char(b: bool) -> char {
    if b {
        '1'
    } else {
        '0'
    }
}

/// The multi-line state listing `format_verbose` produces.
pub open spec fn spec_format_verbose(c: Cpu) -> Seq<char> {
    "=== CPU State ===\nRegisters:\n  PC: 0x"@ + spec_hex_word(c.reg_pc) + "  SP: 0x"@
        + spec_hex_word(c.reg_sp) + "\n  AF: 0x"@ + spec_hex_word(
        pair_value(c.regs_af.hi, c.regs_af.lo),
    ) + " (A=0x"@ + spec_hex_byte(c.regs_af.hi) + ", F=0x"@ + spec_hex_byte(c.regs_af.lo)
        + ")\n  BC: 0x"@ + spec_hex_word(pair_value(c.regs_bc.hi, c.regs_bc.lo)) + " (B=0x"@
        + spec_hex_byte(c.regs_bc.hi) + ", C=0x"@ + spec_hex_byte(c.regs_bc.lo) + ")\n  DE: 0x"@
        + spec_hex_word(pair_value(c.regs_de.hi, c.regs_de.lo)) + " (D=0x"@ + spec_hex_byte(
        c.regs_de.hi,
    ) + ", E=0x"@ + spec_hex_byte(c.regs_de.lo) + ")\n  HL: 0x"@ + spec_hex_word(
        pair_value(c.regs_hl.hi, c.regs_hl.lo),
    ) + " (H=0x"@ + spec_hex_byte(c.regs_hl.hi) + ", L=0x"@ + spec_hex_byte(c.regs_hl.lo)
        + ")\nFlags:\n  Z:"@ + seq![spec_bit_char(c.flags.z)] + "\n  N:"@ + seq![
        spec_bit_char(c.flags.n),
    ] + "\n  H:"@ + seq![spec_bit_char(c.flags.h)] + "\n  C:"@ + seq![spec_bit_char(c.flags.c)]
}

impl Cpu {
    /// The processor state as a multi-line listing: counters, pairs with
    /// their bytes, and the four flags as bits.
    pub fn format_verbose(&self) -> (r: String)
        ensures
            r@ == spec_format_verbose(*self),
    {
        let mut s = String::new();
        push_str_piece(&mut s, "=== CPU State ===\nRegisters:\n  PC: 0x");
        push_hex_word(&mut s, self.reg_pc);
        push_str_piece(&mut s, "  SP: 0x");
        push_hex_word(&mut s, self.reg_sp);
        push_str_piece(&mut s, "\n  AF: 0x");
        push_hex_word(&mut s, self.regs_af.get());
        push_str_piece(&mut s, " (A=0x");
        push_hex_byte(&mut s, self.regs_af.get_hi());
        push_str_piece(&mut s, ", F=0x");
        push_hex_byte(&mut s, self.regs_af.get_lo());
        push_str_piece(&mut s, ")\n  BC: 0x");
        push_hex_word(&mut s, self.regs_bc.get());
        push_str_piece(&mut s, " (B=0x");
        push_hex_byte(&mut s, self.regs_bc.get_hi());
        push_str_piece(&mut s, ", C=0x");
        push_hex_byte(&mut s, self.regs_bc.get_lo());
        push_str_piece(&mut s, ")\n  DE: 0x");
        push_hex_word(&mut s, self.regs_de.get());
        push_str_piece(&mut s, " (D=0x");
        push_hex_byte(&mut s, self.regs_de.get_hi());
        push_str_piece(&mut s, ", E=0x");
        push_hex_byte(&mut s, self.regs_de.get_lo());
        push_str_piece(&mut s, ")\n  HL: 0x");
        push_hex_word(&mut s, self.regs_hl.get());
        push_str_piece(&mut s, " (H=0x");
        push_hex_byte(&mut s, self.regs_hl.get_hi());
        push_str_piece(&mut s, ", L=0x");
        push_hex_byte(&mut s, self.regs_hl.get_lo());
        push_str_piece(&mut s, ")\nFlags:\n  Z:");
        push_char(&mut s, if self.flags.z { '1' } else { '0' });
        push_str_piece(&mut s, "\n  N:");
        push_char(&mut s, if self.flags.n { '1' } else { '0' });
        push_str_piece(&mut s, "\n  H:");
        push_char(&mut s, if self.flags.h { '1' } else { '0' });
        push_str_piece(&mut s, "\n  C:");
        push_char(&mut s, if self.flags.c { '1' } else { '0' });
        proof {
            assert(s@ =~= spec_format_verbose(*self));
        }
        s
    }
}


/// Every register pair reads back what was written into it.
pub proof fn lemma_reg16_round_trip(c: Cpu, rr: Reg16, v: u16)
    ensures
        spec_read_r16(spec_write_r16(c, rr, v), rr) == v,
{
    crate::register::lemma_register_round_trip(v);
}

/// Popping right after pushing hands the pushed value back and leaves
/// the stack pointer where it began, whenever the two stack bytes land
/// in work memory so the bus stores them faithfully.
pub proof fn lemma_push_pop_round_trip(c: Cpu, b: BusView, v: u16)
    requires
        bus_wf(b),
        0xC002 <= c.reg_sp,
        c.reg_sp <= 0xE000,
    ensures
        spec_pop16(spec_push16(c, b, v).0, spec_push16(c, b, v).1).1 == v,
        spec_pop16(spec_push16(c, b, v).0, spec_push16(c, b, v).1).0.reg_sp == c.reg_sp,
{
    let sp = c.reg_sp;
    assert(sp >= 2 ==> sp.wrapping_sub(1) == sp - 1 && (sp - 1) as u16 >= 1) by (bit_vector);
    assert(sp >= 2 ==> ((sp - 1) as u16).wrapping_sub(1) == sp - 2) by (bit_vector);
    assert(sp >= 2 ==> ((sp - 2) as u16).wrapping_add(1) == sp - 1) by (bit_vector);
    assert(sp >= 2 ==> ((sp - 2) as u16).wrapping_add(2) == sp) by (bit_vector);
    assert(((v >> 8) as u8) == v >> 8 && ((v & 0xFF) as u8) == (v & 0xFF)) by (bit_vector);
    crate::register::lemma_register_round_trip(v);
}

/// Reading AF back after a write through the stack variant yields the
/// written value with its low nibble cleared: the flag register has no
/// low bits.
pub proof fn lemma_pop_af_masks_low_nibble(c: Cpu, v: u16)
    ensures
        spec_read_r16_stack(spec_write_r16_stack(c, Reg16Stack::AF, v), Reg16Stack::AF) == (v
            & 0xFFF0),
{
    let c2 = spec_write_r16_stack(c, Reg16Stack::AF, v);
    let hi = c2.regs_af.hi;
    let f = spec_f(c2);
    assert((((hi as u16) << 8) | (f as u16)) as u16 == (v & 0xFFF0)) by (bit_vector)
        requires
            hi == ((v & 0xFFF0) >> 8) as u8,
            f == ((((if v as u8 & 0x80 != 0 {
                0x80u8
            } else {
                0u8
            }) | (if v as u8 & 0x40 != 0 {
                0x40u8
            } else {
                0u8
            })) | (if v as u8 & 0x20 != 0 {
                0x20u8
            } else {
                0u8
            })) | (if v as u8 & 0x10 != 0 {
                0x10u8
            } else {
                0u8
            })) as u8,
    ;
}

} // verus!
