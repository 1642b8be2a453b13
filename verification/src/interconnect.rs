//! The memory interconnect: routes every address to the cartridge, video
//! memory, work memory, object attributes, high memory, the memory-mapped
//! device registers and the interrupt latches, performs the object
//! attribute copy at 0xFF46, and drives the pixel unit and the timer.

use vstd::prelude::*;

verus! {

use crate::cartridge::{
    Cartridge,
    CartridgeError,
    CartridgeView,
    spec_cart_read,
    spec_cart_write,
    spec_header_error,
    spec_header_ok,
    spec_new_cartridge,
};
use crate::joypad::{Button, Joypad, spec_joypad_read, spec_joypad_write, spec_press, spec_release};
use crate::ppu::{Ppu, ppu_wf, PpuView, spec_ppu_initial, spec_ppu_read, spec_ppu_step, spec_ppu_write};
use crate::register::pair_value;
use crate::timer::{
    spec_timer_read,
    spec_timer_step,
    spec_timer_write,
    Timer,
    timer_wf,
};

/// The memory interconnect and the devices it routes to.
pub struct Interconnect {
    /// The cartridge behind 0x0000-0x7FFF and 0xA000-0xBFFF.
    pub cartridge: Cartridge,
    /// Video memory, 0x8000-0x9FFF.
    pub vram: Vec<u8>,
    /// Work memory, 0xC000-0xDFFF, echoed at 0xE000-0xFDFF.
    pub wram: Vec<u8>,
    /// Object attribute memory, 0xFE00-0xFE9F.
    pub oam: Vec<u8>,
    /// High memory, 0xFF80-0xFFFE.
    pub hram: Vec<u8>,
    /// Scratch bytes for the device slots nothing else claims,
    /// 0xFF00-0xFF7F.
    pub io: Vec<u8>,
    /// The IE register at 0xFFFF.
    pub interrupt_enable: u8,
    /// The IF register at 0xFF0F; its upper three bits read as one.
    pub interrupt_flag: u8,
    /// The pixel unit behind 0xFF40-0xFF4B.
    pub ppu: Ppu,
    /// The timer behind 0xFF04-0xFF07.
    pub timer: Timer,
    /// The joypad behind 0xFF00.
    pub joypad: Joypad,
}

/// The mathematical image of the whole bus.
pub struct BusView {
    pub cartridge: CartridgeView,
    pub vram: Seq<u8>,
    pub wram: Seq<u8>,
    pub oam: Seq<u8>,
    pub hram: Seq<u8>,
    pub io: Seq<u8>,
    pub interrupt_enable: u8,
    pub interrupt_flag: u8,
    pub ppu: PpuView,
    pub timer: Timer,
    pub joypad: Joypad,
}

impl View for Interconnect {
    type V = BusView;

    open spec fn view(&self) -> BusView {
        BusView {
            cartridge: self.cartridge@,
            vram: self.vram@,
            wram: self.wram@,
            oam: self.oam@,
            hram: self.hram@,
            io: self.io@,
            interrupt_enable: self.interrupt_enable,
            interrupt_flag: self.interrupt_flag,
            ppu: self.ppu@,
            timer: self.timer,
            joypad: self.joypad,
        }
    }
}

/// A bus whose fixed regions have their hardware sizes and whose devices
/// are well formed; every operation keeps this.
pub open spec fn bus_wf(b: BusView) -> bool {
    b.vram.len() == 0x2000 && b.wram.len() == 0x2000 && b.oam.len() == 160 && b.hram.len() == 127
        && b.io.len() == 128 && ppu_wf(b.ppu) && timer_wf(b.timer)
}

/// The byte a read of any address returns, per the address map: the
/// cartridge, the fixed memories, the echo of work memory, the device
/// registers, the interrupt latches, and 0xFF for the holes (the unusable
/// range 0xFEA0-0xFEFF and the write-only copy trigger at 0xFF46).
pub open spec fn spec_bus_read(b: BusView, addr: u16) -> u8 {
    if addr <= 0x7FFF {
        spec_cart_read(b.cartridge, addr)
    } else if addr <= 0x9FFF {
        b.vram[addr - 0x8000]
    } else if addr <= 0xBFFF {
        spec_cart_read(b.cartridge, addr)
    } else if addr <= 0xDFFF {
        b.wram[addr - 0xC000]
    } else if addr <= 0xFDFF {
        b.wram[addr - 0xE000]
    } else if addr <= 0xFE9F {
        b.oam[addr - 0xFE00]
    } else if addr <= 0xFEFF {
        0xFFu8
    } else if addr == 0xFF00 {
        spec_joypad_read(b.joypad)
    } else if 0xFF04 <= addr && addr <= 0xFF07 {
        spec_timer_read(b.timer, addr)
    } else if addr == 0xFF0F {
        b.interrupt_flag | 0xE0
    } else if 0xFF40 <= addr && addr <= 0xFF45 || 0xFF47 <= addr && addr <= 0xFF4B {
        spec_ppu_read(b.ppu, addr)
    } else if addr == 0xFF46 {
        0xFFu8
    } else if addr <= 0xFF7F {
        b.io[addr - 0xFF00]
    } else if addr <= 0xFFFE {
        b.hram[addr - 0xFF80]
    } else {
        b.interrupt_enable
    }
}

/// The object attribute memory filled by the copy trigger: 160 bytes read
/// through the full address map from `src * 0x100` upward.
pub open spec fn spec_dma(b: BusView, src: u8) -> BusView {
    BusView {
        oam: Seq::new(160, |i: int| spec_bus_read(b, (src as int * 0x100 + i) as u16)),
        ..b
    }
}

/// The bus after a write to any address, per the address map: writes to
/// the read-only holes fall away, a write to 0xFF46 performs the object
/// attribute copy, and everything else lands in its region or device.
pub open spec fn spec_bus_write(b: BusView, addr: u16, val: u8) -> BusView {
    if addr <= 0x7FFF {
        BusView { cartridge: spec_cart_write(b.cartridge, addr, val), ..b }
    } else if addr <= 0x9FFF {
        BusView { vram: b.vram.update(addr - 0x8000, val), ..b }
    } else if addr <= 0xBFFF {
        BusView { cartridge: spec_cart_write(b.cartridge, addr, val), ..b }
    } else if addr <= 0xDFFF {
        BusView { wram: b.wram.update(addr - 0xC000, val), ..b }
    } else if addr <= 0xFDFF {
        BusView { wram: b.wram.update(addr - 0xE000, val), ..b }
    } else if addr <= 0xFE9F {
        BusView { oam: b.oam.update(addr - 0xFE00, val), ..b }
    } else if addr <= 0xFEFF {
        b
    } else if addr == 0xFF00 {
        BusView { joypad: spec_joypad_write(b.joypad, val), ..b }
    } else if 0xFF04 <= addr && addr <= 0xFF07 {
        BusView { timer: spec_timer_write(b.timer, addr, val), ..b }
    } else if addr == 0xFF0F {
        BusView { interrupt_flag: val, ..b }
    } else if 0xFF40 <= addr && addr <= 0xFF45 || 0xFF47 <= addr && addr <= 0xFF4B {
        BusView { ppu: spec_ppu_write(b.ppu, addr, val), ..b }
    } else if addr == 0xFF46 {
        spec_dma(b, val)
    } else if addr <= 0xFF7F {
        BusView { io: b.io.update(addr - 0xFF00, val), ..b }
    } else if addr <= 0xFFFE {
        BusView { hram: b.hram.update(addr - 0xFF80, val), ..b }
    } else {
        BusView { interrupt_enable: val, ..b }
    }
}

/// A 16-bit read: the low byte at `addr`, the high byte above it.
pub open spec fn spec_bus_read16(b: BusView, addr: u16) -> u16 {
    pair_value(spec_bus_read(b, (addr + 1) as u16), spec_bus_read(b, addr))
}

/// A 16-bit write: the low byte at `addr`, the high byte above it.
pub open spec fn spec_bus_write16(b: BusView, addr: u16, val: u16) -> BusView {
    spec_bus_write(spec_bus_write(b, addr, val as u8), (addr + 1) as u16, (val >> 8) as u8)
}

/// The interrupts both requested and enabled.
pub open spec fn spec_pending_interrupts(b: BusView) -> u8 {
    (b.interrupt_flag & b.interrupt_enable) & 0x1F
}

/// The bus after `tick(cycles)`: the pixel unit advances first and entry
/// into vertical blank latches IF bit 0 once; then the timer advances and
/// an overflow latches IF bit 2 and is acknowledged.
pub open spec fn spec_bus_tick(b: BusView, cycles: u32) -> BusView {
    let stepped = spec_ppu_step(b.ppu, cycles, b.vram, b.oam);
    let if1 = if stepped.1 {
        b.interrupt_flag | 0x01
    } else {
        b.interrupt_flag
    };
    let t2 = spec_timer_step(b.timer, cycles);
    if t2.interrupt_requested {
        BusView {
            ppu: stepped.0,
            timer: Timer { interrupt_requested: false, ..t2 },
            interrupt_flag: if1 | 0x04,
            ..b
        }
    } else {
        BusView { ppu: stepped.0, timer: t2, interrupt_flag: if1, ..b }
    }
}

/// The bus built over a fresh cartridge: zeroed memories, idle devices,
/// no interrupts latched.
pub open spec fn spec_new_bus(rom: Seq<u8>) -> BusView {
    BusView {
        cartridge: spec_new_cartridge(rom),
        vram: Seq::new(0x2000nat, |i: int| 0u8),
        wram: Seq::new(0x2000nat, |i: int| 0u8),
        oam: Seq::new(160nat, |i: int| 0u8),
        hram: Seq::new(127nat, |i: int| 0u8),
        io: Seq::new(128nat, |i: int| 0u8),
        interrupt_enable: 0u8,
        interrupt_flag: 0u8,
        ppu: spec_ppu_initial(),
        timer: Timer {
            div_counter: 0u16,
            tima: 0u8,
            tma: 0u8,
            tac: 0u8,
            tima_counter: 0u32,
            interrupt_requested: false,
        },
        joypad: Joypad { direction_buttons: 0x0Fu8, action_buttons: 0x0Fu8, select: 0x30u8 },
    }
}

impl Interconnect {
    /// A bus over the given ROM image: the header is parsed, the fixed
    /// memories zeroed, the devices idle. A bad header is the loader
    /// error naming it.
    pub fn new(cart: Vec<u8>) -> (r: Result<Interconnect, CartridgeError>)
        ensures
            spec_header_ok(cart@) <==> r is Ok,
            r is Ok ==> r->Ok_0@ == spec_new_bus(cart@) && bus_wf(r->Ok_0@),
            r is Err ==> r->Err_0 == spec_header_error(cart@),
    {
        let ghost rom = cart@;
        let cartridge = match Cartridge::new(cart) {
            Ok(c) => c,
            Err(e) => {
                return Err(e);
            },
        };
        let r = Interconnect {
            cartridge,
            vram: vec![0u8; 0x2000],
            wram: vec![0u8; 0x2000],
            oam: vec![0u8; 160],
            hram: vec![0u8; 127],
            io: vec![0u8; 128],
            interrupt_enable: 0,
            interrupt_flag: 0,
            ppu: Ppu::new(),
            timer: Timer::new(),
            joypad: Joypad::new(),
        };
        proof {
            assert(r.vram@ =~= Seq::new(0x2000nat, |i: int| 0u8));
            assert(r.wram@ =~= Seq::new(0x2000nat, |i: int| 0u8));
            assert(r.oam@ =~= Seq::new(160nat, |i: int| 0u8));
            assert(r.hram@ =~= Seq::new(127nat, |i: int| 0u8));
            assert(r.io@ =~= Seq::new(128nat, |i: int| 0u8));
        }
        Ok(r)
    }

    /// Read the byte at `addr`, per the address map.
    pub fn read(&self, addr: u16) -> (r: u8)
        requires
            bus_wf(self@),
        ensures
            r == spec_bus_read(self@, addr),
    {
        if addr <= 0x7FFF {
            self.cartridge.read(addr)
        } else if addr <= 0x9FFF {
            self.vram[(addr - 0x8000) as usize]
        } else if addr <= 0xBFFF {
            self.cartridge.read(addr)
        } else if addr <= 0xDFFF {
            self.wram[(addr - 0xC000) as usize]
        } else if addr <= 0xFDFF {
            self.wram[(addr - 0xE000) as usize]
        } else if addr <= 0xFE9F {
            self.oam[(addr - 0xFE00) as usize]
        } else if addr <= 0xFEFF {
            0xFF
        } else if addr == 0xFF00 {
            self.joypad.read()
        } else if 0xFF04 <= addr && addr <= 0xFF07 {
            self.timer.read(addr)
        } else if addr == 0xFF0F {
            self.interrupt_flag | 0xE0
        } else if 0xFF40 <= addr && addr <= 0xFF45 || 0xFF47 <= addr && addr <= 0xFF4B {
            self.ppu.read(addr)
        } else if addr == 0xFF46 {
            0xFF
        } else if addr <= 0xFF7F {
            self.io[(addr - 0xFF00) as usize]
        } else if addr <= 0xFFFE {
            self.hram[(addr - 0xFF80) as usize]
        } else {
            self.interrupt_enable
        }
    }

    /// Read the byte at `addr`; the map is total, so every address has a
    /// defined byte.
    pub fn try_read(&self, addr: u16) -> (r: Option<u8>)
        requires
            bus_wf(self@),
        ensures
            r == Some(spec_bus_read(self@, addr)),
    {
        Some(self.read(addr))
    }

    /// Write `data` to `addr`, per the address map; a write to 0xFF46
    /// copies 160 bytes into object attribute memory.
    pub fn write(&mut self, addr: u16, data: u8)
        requires
            bus_wf(old(self)@),
        ensures
            final(self)@ == spec_bus_write(old(self)@, addr, data),
            bus_wf(final(self)@),
    {
        if addr <= 0x7FFF {
            self.cartridge.write(addr, data);
        } else if addr <= 0x9FFF {
            self.vram[(addr - 0x8000) as usize] = data;
        } else if addr <= 0xBFFF {
            self.cartridge.write(addr, data);
        } else if addr <= 0xDFFF {
            self.wram[(addr - 0xC000) as usize] = data;
        } else if addr <= 0xFDFF {
            self.wram[(addr - 0xE000) as usize] = data;
        } else if addr <= 0xFE9F {
            self.oam[(addr - 0xFE00) as usize] = data;
        } else if addr <= 0xFEFF {
        } else if addr == 0xFF00 {
            self.joypad.write(data);
        } else if 0xFF04 <= addr && addr <= 0xFF07 {
            self.timer.write(addr, data);
        } else if addr == 0xFF0F {
            self.interrupt_flag = data;
        } else if 0xFF40 <= addr && addr <= 0xFF45 || 0xFF47 <= addr && addr <= 0xFF4B {
            self.ppu.write(addr, data);
        } else if addr == 0xFF46 {
            self.dma_copy(data);
        } else if addr <= 0xFF7F {
            self.io[(addr - 0xFF00) as usize] = data;
        } else if addr <= 0xFFFE {
            self.hram[(addr - 0xFF80) as usize] = data;
        } else {
            self.interrupt_enable = data;
        }
    }

    /// The object attribute copy: 160 bytes from `src * 0x100`, read
    /// through the full address map, into object attribute memory.
    fn dma_copy(&mut self, src: u8)
        requires
            bus_wf(old(self)@),
        ensures
            final(self)@ == spec_dma(old(self)@, src),
            bus_wf(final(self)@),
    {
        let base: u16 = (src as u16) * 0x100;
        let mut buf: Vec<u8> = Vec::new();
        let mut i: usize = 0;
        while i < 160
            invariant
                i <= 160,
                bus_wf(self@),
                self@ == old(self)@,
                base == src as int * 0x100,
                buf@.len() == i,
                forall|j: int|
                    0 <= j < i ==> buf@[j] == spec_bus_read(self@, (src as int * 0x100 + j) as u16),
            decreases 160 - i,
        {
            buf.push(self.read(base + i as u16));
            i = i + 1;
        }
        let mut j: usize = 0;
        while j < 160
            invariant
                j <= 160,
                self.oam@.len() == 160,
                buf@.len() == 160,
                self@ == (BusView { oam: self.oam@, ..old(self)@ }),
                forall|m: int|
                    0 <= m < buf@.len() ==> buf@[m] == spec_bus_read(
                        old(self)@,
                        (src as int * 0x100 + m) as u16,
                    ),
                forall|m: int| 0 <= m < j ==> self.oam@[m] == buf@[m],
                forall|m: int| j <= m < 160 ==> self.oam@[m] == old(self).oam@[m],
            decreases 160 - j,
        {
            self.oam[j] = buf[j];
            j = j + 1;
        }
        proof {
            let target = spec_dma(old(self)@, src).oam;
            assert(target.len() == 160);
            assert forall|m: int| 0 <= m < 160 implies self.oam@[m] == target[m] by {
                assert(target[m] == spec_bus_read(old(self)@, (src as int * 0x100 + m) as u16));
                assert(self.oam@[m] == buf@[m]);
            }
            assert(self.oam@ =~= target);
        }
    }

    /// Read the 16-bit value at `addr`: low byte there, high byte above.
    pub fn read_16bits(&self, addr: u16) -> (r: u16)
        requires
            bus_wf(self@),
            addr < 0xFFFF,
        ensures
            r == spec_bus_read16(self@, addr),
            r == (spec_bus_read(self@, (addr + 1) as u16) as int) * 256 + spec_bus_read(
                self@,
                addr,
            ) as int,
    {
        let lo = self.read(addr) as u16;
        let hi = self.read(addr + 1) as u16;
        proof {
            crate::register::lemma_pair_value(
                spec_bus_read(self@, (addr + 1) as u16),
                spec_bus_read(self@, addr),
            );
        }
        (hi << 8) | lo
    }

    /// Write the 16-bit value at `addr`: low byte there, high byte above.
    pub fn write_16bits(&mut self, addr: u16, data: u16)
        requires
            bus_wf(old(self)@),
            addr < 0xFFFF,
        ensures
            final(self)@ == spec_bus_write16(old(self)@, addr, data),
            bus_wf(final(self)@),
    {
        self.write(addr, data as u8);
        self.write(addr + 1, (data >> 8) as u8);
    }

    /// Advance the pixel unit, then the timer, by `cycles` T-cycles,
    /// latching their interrupts into IF.
    pub fn tick(&mut self, cycles: u32)
        requires
            bus_wf(old(self)@),
            cycles < 0x8000_0000,
        ensures
            final(self)@ == spec_bus_tick(old(self)@, cycles),
            bus_wf(final(self)@),
    {
        let entered_vblank = self.ppu.step(cycles, self.vram.as_slice(), self.oam.as_slice());
        if entered_vblank {
            self.interrupt_flag = self.interrupt_flag | 0x01;
        }
        self.timer.step(cycles);
        if self.timer.interrupt_requested {
            self.interrupt_flag = self.interrupt_flag | 0x04;
            self.timer.clear_interrupt();
        }
    }

    /// The interrupts both requested and enabled.
    pub fn pending_interrupts(&self) -> (r: u8)
        ensures
            r == spec_pending_interrupts(self@),
    {
        (self.interrupt_flag & self.interrupt_enable) & 0x1F
    }

    /// Drop the named interrupt bits from IF.
    pub fn clear_interrupt(&mut self, mask: u8)
        ensures
            final(self)@ == (BusView {
                interrupt_flag: old(self).interrupt_flag & !mask,
                ..old(self)@
            }),
    {
        self.interrupt_flag = self.interrupt_flag & !mask;
    }

    /// Latch the named interrupt bits into IF.
    pub fn request_interrupt(&mut self, mask: u8)
        ensures
            final(self)@ == (BusView {
                interrupt_flag: old(self).interrupt_flag | mask,
                ..old(self)@
            }),
    {
        self.interrupt_flag = self.interrupt_flag | mask;
    }

    /// Press a joypad button.
    pub fn press_button(&mut self, button: Button)
        ensures
            final(self)@ == (BusView { joypad: spec_press(old(self).joypad, button), ..old(self)@ }),
    {
        self.joypad.press(button);
    }

    /// Release a joypad button.
    pub fn release_button(&mut self, button: Button)
        ensures
            final(self)@ == (BusView {
                joypad: spec_release(old(self).joypad, button),
                ..old(self)@
            }),
    {
        self.joypad.release(button);
    }

    /// Whether a full frame is ready to present.
    pub fn frame_ready(&self) -> (r: bool)
        ensures
            r == self@.ppu.frame_ready,
    {
        self.ppu.frame_ready
    }

    /// The screen, one 32-bit color per pixel, row-major.
    pub fn framebuffer(&self) -> (r: &Vec<u32>)
        ensures
            r@ == self@.ppu.framebuffer,
    {
        &self.ppu.framebuffer
    }

    /// Clear the frame-ready latch after presenting.
    pub fn clear_frame_ready(&mut self)
        ensures
            final(self)@ == (BusView {
                ppu: (PpuView { frame_ready: false, ..old(self)@.ppu }),
                ..old(self)@
            }),
    {
        self.ppu.frame_ready = false;
    }
}

/// Reading the unusable range 0xFEA0-0xFEFF always returns 0xFF, whatever
/// the state of the bus.
pub proof fn lemma_unusable_range_reads_open_bus(b: BusView, addr: u16)
    requires
        0xFEA0 <= addr <= 0xFEFF,
    ensures
        spec_bus_read(b, addr) == 0xFF,
{
}

/// A 16-bit value written to work memory reads back whole: the two bytes
/// land at `addr` and `addr + 1` and rejoin on the way out.
pub proof fn lemma_read16_after_write16_in_ram(b: BusView, addr: u16, val: u16)
    requires
        bus_wf(b),
        0xC000 <= addr,
        addr + 1 <= 0xDFFF,
    ensures
        spec_bus_read16(spec_bus_write16(b, addr, val), addr) == val,
{
    assert(val as u8 == (val & 0xFF) as u8) by (bit_vector);
    crate::register::lemma_register_round_trip(val);
}


/// With the timer enabled and TIMA full, ticking exactly one threshold
/// of T-cycles rolls TIMA over to TMA and latches the timer bit of IF.
pub proof fn lemma_timer_overflow_latches_interrupt(b: BusView, cycles: u32)
    requires
        bus_wf(b),
        b.timer.tac & 0x04 != 0,
        b.timer.tima == 0xFF,
        b.timer.tima_counter == 0,
        cycles == crate::timer::spec_threshold(b.timer.tac),
    ensures
        spec_bus_tick(b, cycles).timer.tima == b.timer.tma,
        spec_bus_tick(b, cycles).interrupt_flag & 0x04 != 0,
{
    crate::timer::lemma_tima_overflow_after_threshold(b.timer);
    let if0 = b.interrupt_flag;
    assert((if0 | 0x04) & 0x04 != 0 && ((if0 | 0x01) | 0x04) & 0x04 != 0) by (bit_vector);
}

} // verus!
