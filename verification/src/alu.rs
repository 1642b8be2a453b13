//! Eight-bit arithmetic and logic on the accumulator, and the 16-bit
//! HL addition: each operation's result and its exact flag transitions.

use vstd::prelude::*;

verus! {

use crate::cpu::{Cpu, Flags, spec_a, with_a};
use crate::register::{pair_value, Register};

/// ADD A,v: the sum; Z set on zero, N clear, H on nibble carry, C on
/// byte carry.
pub open spec fn spec_alu_add(c: Cpu, v: u8) -> Cpu {
    let a = spec_a(c);
    let result = a.wrapping_add(v);
    Cpu {
        regs_af: Register { hi: result, lo: c.regs_af.lo },
        flags: Flags {
            z: result == 0,
            n: false,
            h: (a & 0x0F) + (v & 0x0F) > 0x0F,
            c: a + v > 0xFF,
        },
        ..c
    }
}

/// ADC A,v: the sum plus the carry flag; flags as for ADD.
pub open spec fn spec_alu_adc(c: Cpu, v: u8) -> Cpu {
    let a = spec_a(c);
    let carry: u8 = if c.flags.c {
        1u8
    } else {
        0u8
    };
    let result = a.wrapping_add(v).wrapping_add(carry);
    Cpu {
        regs_af: Register { hi: result, lo: c.regs_af.lo },
        flags: Flags {
            z: result == 0,
            n: false,
            h: (a & 0x0F) + (v & 0x0F) + carry > 0x0F,
            c: a + v + carry > 0xFF,
        },
        ..c
    }
}

/// SUB A,v: the difference; Z set on zero, N set, H on nibble borrow, C
/// on byte borrow.
pub open spec fn spec_alu_sub(c: Cpu, v: u8) -> Cpu {
    let a = spec_a(c);
    let result = a.wrapping_sub(v);
    Cpu {
        regs_af: Register { hi: result, lo: c.regs_af.lo },
        flags: Flags { z: result == 0, n: true, h: (a & 0x0F) < (v & 0x0F), c: a < v },
        ..c
    }
}

/// SBC A,v: the difference minus the carry flag; flags as for SUB.
pub open spec fn spec_alu_sbc(c: Cpu, v: u8) -> Cpu {
    let a = spec_a(c);
    let carry: u8 = if c.flags.c {
        1u8
    } else {
        0u8
    };
    let result = a.wrapping_sub(v).wrapping_sub(carry);
    Cpu {
        regs_af: Register { hi: result, lo: c.regs_af.lo },
        flags: Flags {
            z: result == 0,
            n: true,
            h: (a & 0x0F) < (v & 0x0F) + carry,
            c: (a as int) < v + carry,
        },
        ..c
    }
}

/// AND A,v: the conjunction; Z set on zero, N clear, H set, C clear.
pub open spec fn spec_alu_and(c: Cpu, v: u8) -> Cpu {
    let result = spec_a(c) & v;
    Cpu {
        regs_af: Register { hi: result, lo: c.regs_af.lo },
        flags: Flags { z: result == 0, n: false, h: true, c: false },
        ..c
    }
}

/// XOR A,v: the exclusive disjunction; Z set on zero, the rest clear.
pub open spec fn spec_alu_xor(c: Cpu, v: u8) -> Cpu {
    let result = spec_a(c) ^ v;
    Cpu {
        regs_af: Register { hi: result, lo: c.regs_af.lo },
        flags: Flags { z: result == 0, n: false, h: false, c: false },
        ..c
    }
}

/// OR A,v: the disjunction; Z set on zero, the rest clear.
pub open spec fn spec_alu_or(c: Cpu, v: u8) -> Cpu {
    let result = spec_a(c) | v;
    Cpu {
        regs_af: Register { hi: result, lo: c.regs_af.lo },
        flags: Flags { z: result == 0, n: false, h: false, c: false },
        ..c
    }
}

/// CP A,v: the flags of SUB with the accumulator kept; Z means equality.
pub open spec fn spec_alu_cp(c: Cpu, v: u8) -> Cpu {
    let a = spec_a(c);
    Cpu {
        flags: Flags { z: a == v, n: true, h: (a & 0x0F) < (v & 0x0F), c: a < v },
        ..c
    }
}

/// INC of an 8-bit value: Z set on zero, N clear, H on nibble carry, C
/// untouched; the incremented value rides along.
pub open spec fn spec_alu_inc(c: Cpu, v: u8) -> (Cpu, u8) {
    let result = v.wrapping_add(1);
    (
        Cpu {
            flags: Flags { z: result == 0, n: false, h: (v & 0x0F) == 0x0F, c: c.flags.c },
            ..c
        },
        result,
    )
}

/// DEC of an 8-bit value: Z set on zero, N set, H on nibble borrow, C
/// untouched; the decremented value rides along.
pub open spec fn spec_alu_dec(c: Cpu, v: u8) -> (Cpu, u8) {
    let result = v.wrapping_sub(1);
    (
        Cpu {
            flags: Flags { z: result == 0, n: true, h: (v & 0x0F) == 0x00, c: c.flags.c },
            ..c
        },
        result,
    )
}

/// ADD HL,v: the 16-bit sum into HL; Z untouched, N clear, H on carry
/// out of bit 11, C on carry out of bit 15.
pub open spec fn spec_alu_add_hl(c: Cpu, v: u16) -> Cpu {
    let hl = pair_value(c.regs_hl.hi, c.regs_hl.lo);
    let result = hl.wrapping_add(v);
    Cpu {
        regs_hl: Register { hi: (result >> 8) as u8, lo: (result & 0xFF) as u8 },
        flags: Flags {
            z: c.flags.z,
            n: false,
            h: (hl & 0x0FFF) + (v & 0x0FFF) > 0x0FFF,
            c: hl > 0xFFFF - v,
        },
        ..c
    }
}

impl Cpu {
    /// ADD A,value.
    pub fn alu_add(&mut self, value: u8)
        ensures
            *final(self) == spec_alu_add(*old(self), value),
    {
        let a = self.get_reg_a();
        let result = a.wrapping_add(value);
        self.flags.z = result == 0;
        self.flags.n = false;
        self.flags.h = ((a & 0x0F) as u16) + ((value & 0x0F) as u16) > 0x0F;
        self.flags.c = (a as u16) + (value as u16) > 0xFF;
        self.set_reg_a(result);
    }

    /// ADC A,value: add with carry.
    pub fn alu_adc(&mut self, value: u8)
        ensures
            *final(self) == spec_alu_adc(*old(self), value),
    {
        let a = self.get_reg_a();
        let carry: u8 = if self.flags.c {
            1
        } else {
            0
        };
        let result = a.wrapping_add(value).wrapping_add(carry);
        self.flags.z = result == 0;
        self.flags.n = false;
        self.flags.h = ((a & 0x0F) as u16) + ((value & 0x0F) as u16) + (carry as u16) > 0x0F;
        self.flags.c = (a as u16) + (value as u16) + (carry as u16) > 0xFF;
        self.set_reg_a(result);
    }

    /// SUB A,value.
    pub fn alu_sub(&mut self, value: u8)
        ensures
            *final(self) == spec_alu_sub(*old(self), value),
    {
        let a = self.get_reg_a();
        let result = a.wrapping_sub(value);
        self.flags.z = result == 0;
        self.flags.n = true;
        self.flags.h = (a & 0x0F) < (value & 0x0F);
        self.flags.c = a < value;
        self.set_reg_a(result);
    }

    /// SBC A,value: subtract with borrow.
    pub fn alu_sbc(&mut self, value: u8)
        ensures
            *final(self) == spec_alu_sbc(*old(self), value),
    {
        let a = self.get_reg_a();
        let carry: u8 = if self.flags.c {
            1
        } else {
            0
        };
        let result = a.wrapping_sub(value).wrapping_sub(carry);
        self.flags.z = result == 0;
        self.flags.n = true;
        self.flags.h = ((a & 0x0F) as u16) < ((value & 0x0F) as u16) + (carry as u16);
        self.flags.c = (a as u16) < (value as u16) + (carry as u16);
        self.set_reg_a(result);
    }

    /// AND A,value.
    pub fn alu_and(&mut self, value: u8)
        ensures
            *final(self) == spec_alu_and(*old(self), value),
    {
        let result = self.get_reg_a() & value;
        self.flags.z = result == 0;
        self.flags.n = false;
        self.flags.h = true;
        self.flags.c = false;
        self.set_reg_a(result);
    }

    /// XOR A,value.
    pub fn alu_xor(&mut self, value: u8)
        ensures
            *final(self) == spec_alu_xor(*old(self), value),
    {
        let result = self.get_reg_a() ^ value;
        self.flags.z = result == 0;
        self.flags.n = false;
        self.flags.h = false;
        self.flags.c = false;
        self.set_reg_a(result);
    }

    /// OR A,value.
    pub fn alu_or(&mut self, value: u8)
        ensures
            *final(self) == spec_alu_or(*old(self), value),
    {
        let result = self.get_reg_a() | value;
        self.flags.z = result == 0;
        self.flags.n = false;
        self.flags.h = false;
        self.flags.c = false;
        self.set_reg_a(result);
    }

    /// CP A,value: compare without storing.
    pub fn alu_cp(&mut self, value: u8)
        ensures
            *final(self) == spec_alu_cp(*old(self), value),
    {
        let a = self.get_reg_a();
        self.flags.z = a == value;
        self.flags.n = true;
        self.flags.h = (a & 0x0F) < (value & 0x0F);
        self.flags.c = a < value;
    }

    /// Eight-bit INC; the carry flag is untouched.
    pub fn alu_inc(&mut self, val: u8) -> (r: u8)
        ensures
            (*final(self), r) == spec_alu_inc(*old(self), val),
    {
        let result = val.wrapping_add(1);
        self.flags.z = result == 0;
        self.flags.n = false;
        self.flags.h = (val & 0x0F) == 0x0F;
        result
    }

    /// Eight-bit DEC; the carry flag is untouched.
    pub fn alu_dec(&mut self, val: u8) -> (r: u8)
        ensures
            (*final(self), r) == spec_alu_dec(*old(self), val),
    {
        let result = val.wrapping_sub(1);
        self.flags.z = result == 0;
        self.flags.n = true;
        self.flags.h = (val & 0x0F) == 0x00;
        result
    }

    /// ADD HL,val; the zero flag is untouched.
    pub fn alu_add_hl(&mut self, val: u16)
        ensures
            *final(self) == spec_alu_add_hl(*old(self), val),
    {
        let hl = self.regs_hl.get();
        let result = hl.wrapping_add(val);
        self.flags.n = false;
        self.flags.h = ((hl & 0x0FFF) as u32) + ((val & 0x0FFF) as u32) > 0x0FFF;
        self.flags.c = hl > 0xFFFF - val;
        self.regs_hl.set(result);
    }
}

} // verus!
