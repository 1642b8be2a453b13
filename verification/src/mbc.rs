//! Cartridge memory bank controllers: the plain no-mapper cartridge and
//! the five-bit/two-bit banked mapper, behind one `Cartridge` front that
//! parses the header and dispatches reads, writes and save data.

use vstd::prelude::*;

verus! {

/// A byte of `s`, or 0xFF where `i` lies outside it — the open-bus value
/// the cartridge returns for any unbacked access.
pub open spec fn byte_or_open_bus(s: Seq<u8>, i: int) -> u8 {
    if 0 <= i < s.len() {
        s[i]
    } else {
        0xFFu8
    }
}

/// The no-mapper cartridge: a bare ROM, no RAM, no registers.
pub struct Mbc0 {
    /// The ROM image.
    pub rom: Vec<u8>,
}

/// What a read through the no-mapper cartridge returns: ROM bytes below
/// 0x8000, open bus everywhere else.
pub open spec fn spec_mbc0_read(rom: Seq<u8>, addr: u16) -> u8 {
    if addr <= 0x7FFF {
        byte_or_open_bus(rom, addr as int)
    } else {
        0xFFu8
    }
}

impl View for Mbc0 {
    type V = Seq<u8>;

    open spec fn view(&self) -> Seq<u8> {
        self.rom@
    }
}

impl Mbc0 {
    /// A no-mapper cartridge over the given ROM image.
    pub fn new(rom: Vec<u8>) -> (r: Mbc0)
        ensures
            r@ == rom@,
    {
        Mbc0 { rom }
    }

    /// Read a byte: the ROM below 0x8000, open bus elsewhere.
    pub fn read(&self, addr: u16) -> (r: u8)
        ensures
            r == spec_mbc0_read(self@, addr),
    {
        if addr <= 0x7FFF {
            let i = addr as usize;
            if i < self.rom.len() {
                self.rom[i]
            } else {
                0xFF
            }
        } else {
            0xFF
        }
    }

    /// Writes never change a no-mapper cartridge.
    pub fn write(&mut self, addr: u16, val: u8)
        ensures
            *final(self) == *old(self),
    {
        let _ = addr;
        let _ = val;
    }

    /// There is no RAM, so nothing to save.
    pub fn save_data(&self) -> (r: Vec<u8>)
        ensures
            r@ == Seq::<u8>::empty(),
    {
        Vec::new()
    }

    /// There is no RAM, so loading changes nothing.
    pub fn load_data(&mut self, data: &[u8])
        ensures
            *final(self) == *old(self),
    {
        let _ = data;
    }
}

/// The banked mapper's state: a ROM, a RAM image sized by the header, the
/// two bank-select registers, the RAM-enable latch and the banking mode.
pub struct Mbc1 {
    /// The ROM image.
    pub rom: Vec<u8>,
    /// The external RAM image.
    pub ram: Vec<u8>,
    /// Five-bit ROM bank register (writes to 0x2000-0x3FFF).
    pub rom_bank: u8,
    /// Two-bit RAM bank / upper ROM bits register (writes to 0x4000-0x5FFF).
    pub ram_bank: u8,
    /// RAM enable latch (writes to 0x0000-0x1FFF).
    pub ram_enabled: bool,
    /// 0 = ROM banking mode, 1 = RAM banking mode.
    pub banking_mode: u8,
    /// Whether a battery backs the RAM across power cycles.
    pub has_battery: bool,
}

/// The mathematical image of a banked mapper.
pub struct Mbc1View {
    pub rom: Seq<u8>,
    pub ram: Seq<u8>,
    pub rom_bank: u8,
    pub ram_bank: u8,
    pub ram_enabled: bool,
    pub banking_mode: u8,
    pub has_battery: bool,
}

impl View for Mbc1 {
    type V = Mbc1View;

    open spec fn view(&self) -> Mbc1View {
        Mbc1View {
            rom: self.rom@,
            ram: self.ram@,
            rom_bank: self.rom_bank,
            ram_bank: self.ram_bank,
            ram_enabled: self.ram_enabled,
            banking_mode: self.banking_mode,
            has_battery: self.has_battery,
        }
    }
}

/// The ROM bank visible through 0x4000-0x7FFF: the five-bit register,
/// joined with the two upper bits in ROM mode, with a five-bit value of
/// zero coerced to one.
pub open spec fn spec_effective_rom_bank(v: Mbc1View) -> u8 {
    let bank = if v.banking_mode == 0 {
        (v.rom_bank & 0x1F) | (v.ram_bank << 5)
    } else {
        v.rom_bank & 0x1F
    };
    if bank & 0x1F == 0 {
        bank | 1
    } else {
        bank
    }
}

/// The RAM bank in use: the two-bit register in RAM mode, bank zero in
/// ROM mode.
pub open spec fn spec_effective_ram_bank(v: Mbc1View) -> u8 {
    if v.banking_mode == 1 {
        v.ram_bank
    } else {
        0u8
    }
}

/// What a read through the banked mapper returns.
pub open spec fn spec_mbc1_read(v: Mbc1View, addr: u16) -> u8 {
    if addr <= 0x3FFF {
        if v.banking_mode == 1 {
            byte_or_open_bus(v.rom, (v.ram_bank as int) * 32 * 0x4000 + addr as int)
        } else {
            byte_or_open_bus(v.rom, addr as int)
        }
    } else if addr <= 0x7FFF {
        byte_or_open_bus(
            v.rom,
            (spec_effective_rom_bank(v) as int) * 0x4000 + (addr - 0x4000),
        )
    } else if 0xA000 <= addr && addr <= 0xBFFF {
        if !v.ram_enabled || v.ram.len() == 0 {
            0xFFu8
        } else {
            byte_or_open_bus(
                v.ram,
                (spec_effective_ram_bank(v) as int) * 0x2000 + (addr - 0xA000),
            )
        }
    } else {
        0xFFu8
    }
}

/// The banked mapper after a write: register latches below 0x8000, a RAM
/// byte in 0xA000-0xBFFF when RAM is enabled and backed, nothing else.
pub open spec fn spec_mbc1_write(v: Mbc1View, addr: u16, val: u8) -> Mbc1View {
    if addr <= 0x1FFF {
        Mbc1View { ram_enabled: (val & 0x0F) == 0x0A, ..v }
    } else if addr <= 0x3FFF {
        Mbc1View { rom_bank: val & 0x1F, ..v }
    } else if addr <= 0x5FFF {
        Mbc1View { ram_bank: val & 0x03, ..v }
    } else if addr <= 0x7FFF {
        Mbc1View { banking_mode: val & 0x01, ..v }
    } else if 0xA000 <= addr && addr <= 0xBFFF {
        if !v.ram_enabled || v.ram.len() == 0 {
            v
        } else {
            let physical = (spec_effective_ram_bank(v) as int) * 0x2000 + (addr - 0xA000);
            if physical < v.ram.len() {
                Mbc1View { ram: v.ram.update(physical, val), ..v }
            } else {
                v
            }
        }
    } else {
        v
    }
}

impl Mbc1 {
    /// A banked mapper over the given ROM, with `ram_size` bytes of
    /// zeroed external RAM.
    pub fn new(rom: Vec<u8>, ram_size: usize, has_battery: bool) -> (r: Mbc1)
        ensures
            r@ == (Mbc1View {
                rom: rom@,
                ram: Seq::new(ram_size as nat, |i: int| 0u8),
                rom_bank: 1u8,
                ram_bank: 0u8,
                ram_enabled: false,
                banking_mode: 0u8,
                has_battery,
            }),
    {
        let r = Mbc1 {
            rom,
            ram: vec![0u8; ram_size],
            rom_bank: 1,
            ram_bank: 0,
            ram_enabled: false,
            banking_mode: 0,
            has_battery,
        };
        proof {
            assert(r.ram@ =~= Seq::new(ram_size as nat, |i: int| 0u8));
        }
        r
    }

    /// The ROM bank visible through the switchable window.
    pub fn effective_rom_bank(&self) -> (r: usize)
        ensures
            r == spec_effective_rom_bank(self@) as int,
    {
        let bank = if self.banking_mode == 0 {
            (self.rom_bank & 0x1F) | (self.ram_bank << 5)
        } else {
            self.rom_bank & 0x1F
        };
        let bank = if bank & 0x1F == 0 { bank | 1 } else { bank };
        bank as usize
    }

    /// The RAM bank in use.
    pub fn effective_ram_bank(&self) -> (r: usize)
        ensures
            r == spec_effective_ram_bank(self@) as int,
    {
        if self.banking_mode == 1 {
            self.ram_bank as usize
        } else {
            0
        }
    }

    /// Read a byte through the mapper.
    pub fn read(&self, addr: u16) -> (r: u8)
        ensures
            r == spec_mbc1_read(self@, addr),
    {
        if addr <= 0x3FFF {
            let physical: usize = if self.banking_mode == 1 {
                let bank = (self.ram_bank as usize) * 32;
                bank * 0x4000 + (addr as usize)
            } else {
                addr as usize
            };
            if physical < self.rom.len() {
                self.rom[physical]
            } else {
                0xFF
            }
        } else if addr <= 0x7FFF {
            let bank = self.effective_rom_bank();
            let physical = bank * 0x4000 + (addr as usize - 0x4000);
            if physical < self.rom.len() {
                self.rom[physical]
            } else {
                0xFF
            }
        } else if 0xA000 <= addr && addr <= 0xBFFF {
            if !self.ram_enabled || self.ram.len() == 0 {
                return 0xFF;
            }
            let bank = self.effective_ram_bank();
            let physical = bank * 0x2000 + (addr as usize - 0xA000);
            if physical < self.ram.len() {
                self.ram[physical]
            } else {
                0xFF
            }
        } else {
            0xFF
        }
    }

    /// Write a byte through the mapper.
    pub fn write(&mut self, addr: u16, val: u8)
        ensures
            final(self)@ == spec_mbc1_write(old(self)@, addr, val),
    {
        if addr <= 0x1FFF {
            self.ram_enabled = (val & 0x0F) == 0x0A;
        } else if addr <= 0x3FFF {
            self.rom_bank = val & 0x1F;
        } else if addr <= 0x5FFF {
            self.ram_bank = val & 0x03;
        } else if addr <= 0x7FFF {
            self.banking_mode = val & 0x01;
        } else if 0xA000 <= addr && addr <= 0xBFFF {
            if !self.ram_enabled || self.ram.len() == 0 {
                return;
            }
            let bank = self.effective_ram_bank();
            let physical = bank * 0x2000 + (addr as usize - 0xA000);
            if physical < self.ram.len() {
                self.ram[physical] = val;
            }
        }
    }

    /// The RAM image when a battery preserves it, else nothing.
    pub fn save_data(&self) -> (r: Vec<u8>)
        ensures
            r@ == spec_mbc1_save(self@),
    {
        if self.has_battery {
            let mut out: Vec<u8> = Vec::new();
            let mut i: usize = 0;
            while i < self.ram.len()
                invariant
                    i <= self.ram.len(),
                    out@ == self.ram@.subrange(0, i as int),
                decreases self.ram.len() - i,
            {
                out.push(self.ram[i]);
                i = i + 1;
                proof {
                    assert(out@ =~= self.ram@.subrange(0, i as int));
                }
            }
            proof {
                assert(out@ =~= self.ram@);
            }
            out
        } else {
            Vec::new()
        }
    }

    /// Restore the RAM image from saved bytes: with a battery, the common
    /// prefix of `data` and the RAM is copied; without one, nothing moves.
    pub fn load_data(&mut self, data: &[u8])
        ensures
            final(self)@ == spec_mbc1_load(old(self)@, data@),
    {
        if self.has_battery {
            let len = if data.len() < self.ram.len() {
                data.len()
            } else {
                self.ram.len()
            };
            let mut i: usize = 0;
            while i < len
                invariant
                    i <= len,
                    len <= data@.len(),
                    len <= self.ram@.len(),
                    len == if data@.len() < old(self).ram@.len() {
                        data@.len() as int
                    } else {
                        old(self).ram@.len() as int
                    },
                    self.ram@.len() == old(self).ram@.len(),
                    self.rom@ == old(self).rom@,
                    self.rom_bank == old(self).rom_bank,
                    self.ram_bank == old(self).ram_bank,
                    self.ram_enabled == old(self).ram_enabled,
                    self.banking_mode == old(self).banking_mode,
                    self.has_battery == old(self).has_battery,
                    forall|j: int| 0 <= j < i ==> self.ram@[j] == data@[j],
                    forall|j: int| i <= j < self.ram@.len() ==> self.ram@[j] == old(self).ram@[j],
                decreases len - i,
            {
                self.ram[i] = data[i];
                i = i + 1;
            }
            proof {
                assert(self.ram@ =~= Seq::new(
                    old(self).ram@.len(),
                    |j: int|
                        if j < data@.len() {
                            data@[j]
                        } else {
                            old(self).ram@[j]
                        },
                ));
            }
        }
    }
}

/// What `save_data` hands out: the RAM image when a battery backs it,
/// else nothing.
pub open spec fn spec_mbc1_save(v: Mbc1View) -> Seq<u8> {
    if v.has_battery {
        v.ram
    } else {
        Seq::<u8>::empty()
    }
}

/// The mapper after `load_data`: with a battery, the common prefix of the
/// saved bytes and the RAM replaces the RAM's start; without one, nothing
/// moves.
pub open spec fn spec_mbc1_load(v: Mbc1View, data: Seq<u8>) -> Mbc1View {
    if v.has_battery {
        Mbc1View {
            ram: Seq::new(
                v.ram.len(),
                |i: int|
                    if i < data.len() {
                        data[i]
                    } else {
                        v.ram[i]
                    },
            ),
            ..v
        }
    } else {
        v
    }
}

/// Restoring what `save_data` saved is a no-op: for every battery-backed
/// mapper, loading its own saved image leaves it exactly as it was.
pub proof fn lemma_save_load_round_trip(v: Mbc1View)
    ensures
        spec_mbc1_load(v, spec_mbc1_save(v)) == v,
{
    if v.has_battery {
        assert(spec_mbc1_load(v, spec_mbc1_save(v)).ram =~= v.ram);
    }
}


/// The bank-zero quirk: latching a ROM bank whose five low bits are all
/// zero selects bank one, so the switchable window at 0x4000 shows the
/// byte at ROM offset 0x4000 — provided the upper bank bits are clear.
pub proof fn lemma_bank_zero_quirk(v: Mbc1View, addr: u16, w: u8)
    requires
        0x2000 <= addr <= 0x3FFF,
        w & 0x1F == 0,
        v.ram_bank == 0,
    ensures
        spec_mbc1_read(spec_mbc1_write(v, addr, w), 0x4000) == byte_or_open_bus(v.rom, 0x4000),
{
    let w2 = spec_mbc1_write(v, addr, w);
    assert(w & 0x1F == 0 ==> (((w & 0x1F) | (0u8 << 5)) & 0x1F) == 0 && (((w & 0x1F) | (0u8 << 5))
        | 1) == 1 && ((w & 0x1F) & 0x1F) == 0 && ((w & 0x1F) | 1) == 1) by (bit_vector);
    assert(spec_effective_rom_bank(w2) == 1);
}

} // verus!
