//! The cartridge front: parses the header (mapper type, ROM size, RAM
//! size, battery flag, title) and dispatches every access to the mapper
//! the header names.

use vstd::prelude::*;

verus! {

use crate::mbc::{
    byte_or_open_bus,
    Mbc0,
    Mbc1,
    Mbc1View,
    spec_mbc0_read,
    spec_mbc1_load,
    spec_mbc1_read,
    spec_mbc1_save,
    spec_mbc1_write,
};
use crate::text::{push_byte_char, spec_byte_char};

/// A fatal loader error: a header byte the loader does not recognize, or
/// an image too small to hold a header. The offending byte rides along.
#[derive(Clone, Copy, Debug, PartialEq, Eq, Structural)]
pub enum CartridgeError {
    /// The image ends before the header fields at 0x0147-0x0149.
    RomTooSmall,
    /// Byte 0x0147 names a mapper this core does not implement.
    UnknownCartridgeType(u8),
    /// Byte 0x0148 names a ROM size code outside 0x00-0x08.
    UnknownRomSize(u8),
    /// Byte 0x0149 names a RAM size code outside 0x00-0x05.
    UnknownRamSize(u8),
}

/// The mappers this core implements.
pub enum Mbc {
    /// Type 0x00: plain ROM.
    Mbc0(Mbc0),
    /// Types 0x01-0x03: the banked mapper.
    Mbc1(Mbc1),
}

/// The mathematical image of a mapper.
pub enum MbcView {
    Mbc0(Seq<u8>),
    Mbc1(Mbc1View),
}

impl View for Mbc {
    type V = MbcView;

    open spec fn view(&self) -> MbcView {
        match self {
            Mbc::Mbc0(m) => MbcView::Mbc0(m@),
            Mbc::Mbc1(m) => MbcView::Mbc1(m@),
        }
    }
}

/// The mathematical image of a cartridge.
pub struct CartridgeView {
    pub mbc: MbcView,
    pub title: Seq<char>,
    pub has_battery: bool,
}

/// A loaded cartridge: the mapper, the title read out of the header, and
/// the battery flag.
pub struct Cartridge {
    /// The mapper named by header byte 0x0147.
    pub mbc: Mbc,
    /// The title bytes at 0x0134-0x0143, up to the first NUL.
    pub title: String,
    /// Whether the header names a battery-backed type.
    pub has_battery: bool,
}

impl View for Cartridge {
    type V = CartridgeView;

    open spec fn view(&self) -> CartridgeView {
        CartridgeView { mbc: self.mbc@, title: self.title@, has_battery: self.has_battery }
    }
}

/// What a read through the cartridge returns.
pub open spec fn spec_cart_read(c: CartridgeView, addr: u16) -> u8 {
    match c.mbc {
        MbcView::Mbc0(rom) => spec_mbc0_read(rom, addr),
        MbcView::Mbc1(v) => spec_mbc1_read(v, addr),
    }
}

/// The cartridge after a write.
pub open spec fn spec_cart_write(c: CartridgeView, addr: u16, val: u8) -> CartridgeView {
    match c.mbc {
        MbcView::Mbc0(rom) => c,
        MbcView::Mbc1(v) => CartridgeView { mbc: MbcView::Mbc1(spec_mbc1_write(v, addr, val)), ..c },
    }
}

/// What `save_data` hands out for the whole cartridge.
pub open spec fn spec_cart_save(c: CartridgeView) -> Seq<u8> {
    match c.mbc {
        MbcView::Mbc0(rom) => Seq::<u8>::empty(),
        MbcView::Mbc1(v) => spec_mbc1_save(v),
    }
}

/// The cartridge after `load_data`.
pub open spec fn spec_cart_load(c: CartridgeView, data: Seq<u8>) -> CartridgeView {
    match c.mbc {
        MbcView::Mbc0(rom) => c,
        MbcView::Mbc1(v) => CartridgeView { mbc: MbcView::Mbc1(spec_mbc1_load(v, data)), ..c },
    }
}

/// The title characters: header bytes from `i` up to 0x0144, cut at the
/// first NUL, each byte read as the character with its code point.
pub open spec fn spec_title_from(rom: Seq<u8>, i: int) -> Seq<char>
    decreases 0x144 - i,
{
    if i < 0x134 || i >= 0x144 || byte_or_open_bus(rom, i) == 0 {
        Seq::<char>::empty()
    } else {
        seq![spec_byte_char(rom[i])] + spec_title_from(rom, i + 1)
    }
}

/// The cartridge title held in the header.
pub open spec fn spec_title(rom: Seq<u8>) -> Seq<char> {
    spec_title_from(rom, 0x134)
}

/// The external RAM size, in bytes, that a header RAM-size code names.
/// Codes above 0x05 name nothing and get no RAM.
pub open spec fn spec_ram_size(code: u8) -> usize {
    match code {
        0x00u8 => 0usize,
        0x01u8 => 0x800usize,
        0x02u8 => 0x2000usize,
        0x03u8 => 0x8000usize,
        0x04u8 => 0x20000usize,
        0x05u8 => 0x10000usize,
        _ => 0usize,
    }
}

/// Whether a cartridge-type byte names a battery-backed cartridge.
pub open spec fn spec_battery_backed(cart_type: u8) -> bool {
    cart_type == 0x03 || cart_type == 0x06 || cart_type == 0x09 || cart_type == 0x0D
        || cart_type == 0x0F || cart_type == 0x10 || cart_type == 0x13 || cart_type == 0x1B
        || cart_type == 0x1E
}

/// The external RAM size named by a header RAM-size code.
pub fn parse_ram_size(code: u8) -> (r: usize)
    ensures
        r == spec_ram_size(code),
{
    match code {
        0x00 => 0,
        0x01 => 2 * 1024,
        0x02 => 8 * 1024,
        0x03 => 32 * 1024,
        0x04 => 128 * 1024,
        0x05 => 64 * 1024,
        _ => 0,
    }
}

/// Whether a cartridge-type byte names a battery-backed cartridge.
pub fn is_battery_backed(cart_type: u8) -> (r: bool)
    ensures
        r == spec_battery_backed(cart_type),
{
    matches!(cart_type, 0x03 | 0x06 | 0x09 | 0x0D | 0x0F | 0x10 | 0x13 | 0x1B | 0x1E)
}

/// The title bytes at 0x0134-0x0143, cut at the first NUL, as characters.
pub fn extract_title(rom: &Vec<u8>) -> (r: String)
    requires
        rom@.len() >= 0x150,
    ensures
        r@ == spec_title(rom@),
{
    let mut s = String::new();
    let mut i: usize = 0x134;
    while i < 0x144 && rom[i] != 0
        invariant
            0x134 <= i <= 0x144,
            rom@.len() >= 0x150,
            s@ + spec_title_from(rom@, i as int) == spec_title(rom@),
        decreases 0x144 - i,
    {
        proof {
            assert(spec_title_from(rom@, i as int) == seq![spec_byte_char(rom@[i as int])]
                + spec_title_from(rom@, i + 1));
        }
        let ghost s0 = s@;
        push_byte_char(&mut s, rom[i]);
        proof {
            assert(s@ + spec_title_from(rom@, i + 1) =~= s0 + spec_title_from(rom@, i as int));
        }
        i = i + 1;
    }
    proof {
        assert(spec_title_from(rom@, i as int) =~= Seq::<char>::empty());
        assert(s@ =~= s@ + spec_title_from(rom@, i as int));
    }
    s
}

/// Whether `Cartridge::new` accepts a ROM image: it is large enough for
/// the header, and each of the three header bytes is recognized.
pub open spec fn spec_header_ok(rom: Seq<u8>) -> bool {
    rom.len() >= 0x150 && rom[0x147] <= 0x03 && rom[0x148] <= 0x08 && rom[0x149] <= 0x05
}

/// The error `Cartridge::new` reports for a rejected image: the first
/// header field it cannot place.
pub open spec fn spec_header_error(rom: Seq<u8>) -> CartridgeError {
    if rom.len() < 0x150 {
        CartridgeError::RomTooSmall
    } else if rom[0x147] > 0x03 {
        CartridgeError::UnknownCartridgeType(rom[0x147])
    } else if rom[0x148] > 0x08 {
        CartridgeError::UnknownRomSize(rom[0x148])
    } else {
        CartridgeError::UnknownRamSize(rom[0x149])
    }
}

/// The cartridge built from an accepted image.
pub open spec fn spec_new_cartridge(rom: Seq<u8>) -> CartridgeView {
    CartridgeView {
        mbc: if rom[0x147] == 0x00 {
            MbcView::Mbc0(rom)
        } else {
            MbcView::Mbc1(
                Mbc1View {
                    rom,
                    ram: Seq::new(spec_ram_size(rom[0x149]) as nat, |i: int| 0u8),
                    rom_bank: 1u8,
                    ram_bank: 0u8,
                    ram_enabled: false,
                    banking_mode: 0u8,
                    has_battery: spec_battery_backed(rom[0x147]),
                },
            )
        },
        title: spec_title(rom),
        has_battery: spec_battery_backed(rom[0x147]),
    }
}

impl Cartridge {
    /// Parse the header and build the mapper it names. An image too small
    /// for the header, or a header byte outside what this core knows, is
    /// a fatal loader error naming the byte.
    pub fn new(rom: Vec<u8>) -> (r: Result<Cartridge, CartridgeError>)
        ensures
            spec_header_ok(rom@) <==> r is Ok,
            r is Ok ==> r->Ok_0@ == spec_new_cartridge(rom@),
            r is Err ==> r->Err_0 == spec_header_error(rom@),
    {
        if rom.len() < 0x150 {
            return Err(CartridgeError::RomTooSmall);
        }
        let cart_type = rom[0x147];
        let rom_size_code = rom[0x148];
        let ram_size_code = rom[0x149];
        if cart_type > 0x03 {
            return Err(CartridgeError::UnknownCartridgeType(cart_type));
        }
        if rom_size_code > 0x08 {
            return Err(CartridgeError::UnknownRomSize(rom_size_code));
        }
        if ram_size_code > 0x05 {
            return Err(CartridgeError::UnknownRamSize(ram_size_code));
        }
        let title = extract_title(&rom);
        let has_battery = is_battery_backed(cart_type);
        let mbc = if cart_type == 0x00 {
            Mbc::Mbc0(Mbc0::new(rom))
        } else {
            let ram_size = parse_ram_size(ram_size_code);
            Mbc::Mbc1(Mbc1::new(rom, ram_size, has_battery))
        };
        Ok(Cartridge { mbc, title, has_battery })
    }

    /// Read a byte through the mapper.
    pub fn read(&self, addr: u16) -> (r: u8)
        ensures
            r == spec_cart_read(self@, addr),
    {
        match &self.mbc {
            Mbc::Mbc0(m) => m.read(addr),
            Mbc::Mbc1(m) => m.read(addr),
        }
    }

    /// Write a byte through the mapper.
    pub fn write(&mut self, addr: u16, val: u8)
        ensures
            final(self)@ == spec_cart_write(old(self)@, addr, val),
    {
        match &mut self.mbc {
            Mbc::Mbc0(m) => m.write(addr, val),
            Mbc::Mbc1(m) => m.write(addr, val),
        }
    }

    /// The title read out of the header.
    pub fn title(&self) -> (r: &str)
        ensures
            r@ == self@.title,
    {
        self.title.as_str()
    }

    /// Whether the header named a battery-backed type.
    pub fn has_battery(&self) -> (r: bool)
        ensures
            r == self@.has_battery,
    {
        self.has_battery
    }

    /// The bytes to persist: the external RAM when a battery backs it.
    pub fn save_data(&self) -> (r: Vec<u8>)
        ensures
            r@ == spec_cart_save(self@),
    {
        match &self.mbc {
            Mbc::Mbc0(m) => m.save_data(),
            Mbc::Mbc1(m) => m.save_data(),
        }
    }

    /// Restore persisted bytes into the external RAM.
    pub fn load_data(&mut self, data: &[u8])
        ensures
            final(self)@ == spec_cart_load(old(self)@, data@),
    {
        match &mut self.mbc {
            Mbc::Mbc0(m) => m.load_data(data),
            Mbc::Mbc1(m) => m.load_data(data),
        }
    }
}

/// Restoring what `save_data` saved is a no-op for the whole cartridge.
pub proof fn lemma_cart_save_load_round_trip(c: CartridgeView)
    ensures
        spec_cart_load(c, spec_cart_save(c)) == c,
{
    match c.mbc {
        MbcView::Mbc0(rom) => {},
        MbcView::Mbc1(v) => {
            crate::mbc::lemma_save_load_round_trip(v);
        },
    }
}

} // verus!
