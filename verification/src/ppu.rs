//! The pixel processing unit: the scanline timing machine (LY, the
//! intra-scanline cycle accumulator and the mode), the display registers,
//! and the per-scanline renderer for background, window and sprites.

use vstd::prelude::*;

verus! {

use crate::ppu_render::spec_render_scanline;

/// Screen width in pixels.
pub const SCREEN_WIDTH: usize = 160;

/// Screen height in pixels.
pub const SCREEN_HEIGHT: usize = 144;

/// PPU modes, in the order of their STAT encoding (bits 0-1).
#[derive(Clone, Copy, Debug, PartialEq, Eq, Structural)]
pub enum Mode {
    /// Mode 0: horizontal blank.
    HBlank,
    /// Mode 1: vertical blank, scanlines 144-153.
    VBlank,
    /// Mode 2: scanning object attributes.
    OamScan,
    /// Mode 3: pushing pixels to the screen.
    Drawing,
}

/// The STAT encoding of a mode.
pub open spec fn spec_mode_bits(m: Mode) -> u8 {
    match m {
        Mode::HBlank => 0u8,
        Mode::VBlank => 1u8,
        Mode::OamScan => 2u8,
        Mode::Drawing => 3u8,
    }
}

/// PPU state.
pub struct Ppu {
    /// Current scanline, 0-153.
    pub ly: u8,
    /// T-cycles into the current scanline, 0-455.
    pub scanline_cycles: u32,
    /// Current mode.
    pub mode: Mode,
    /// LYC, the LY compare value.
    pub lyc: u8,
    /// LCDC, the display control register.
    pub lcdc: u8,
    /// STAT interrupt-enable bits (bits 3-6 writable).
    pub stat: u8,
    /// SCY, background scroll Y.
    pub scy: u8,
    /// SCX, background scroll X.
    pub scx: u8,
    /// BGP, the background palette.
    pub bgp: u8,
    /// OBP0, sprite palette 0.
    pub obp0: u8,
    /// OBP1, sprite palette 1.
    pub obp1: u8,
    /// WY, window top line.
    pub wy: u8,
    /// WX, window left column plus seven.
    pub wx: u8,
    /// The 160x144 screen, one 32-bit color per pixel, row-major.
    pub framebuffer: Vec<u32>,
    /// Latched when LY reaches 144; the host clears it.
    pub frame_ready: bool,
}

/// The mathematical image of the PPU.
pub struct PpuView {
    pub ly: u8,
    pub scanline_cycles: u32,
    pub mode: Mode,
    pub lyc: u8,
    pub lcdc: u8,
    pub stat: u8,
    pub scy: u8,
    pub scx: u8,
    pub bgp: u8,
    pub obp0: u8,
    pub obp1: u8,
    pub wy: u8,
    pub wx: u8,
    pub framebuffer: Seq<u32>,
    pub frame_ready: bool,
}

impl View for Ppu {
    type V = PpuView;

    open spec fn view(&self) -> PpuView {
        PpuView {
            ly: self.ly,
            scanline_cycles: self.scanline_cycles,
            mode: self.mode,
            lyc: self.lyc,
            lcdc: self.lcdc,
            stat: self.stat,
            scy: self.scy,
            scx: self.scx,
            bgp: self.bgp,
            obp0: self.obp0,
            obp1: self.obp1,
            wy: self.wy,
            wx: self.wx,
            framebuffer: self.framebuffer@,
            frame_ready: self.frame_ready,
        }
    }
}

/// A PPU whose counters sit inside their hardware ranges and whose
/// framebuffer has one slot per pixel; every operation keeps this.
pub open spec fn ppu_wf(p: PpuView) -> bool {
    p.ly < 154 && p.scanline_cycles < 456 && p.framebuffer.len() == 160 * 144
}

/// The fixed four-shade screen palette, darkening with the index; every
/// index past three gets the darkest shade.
pub open spec fn spec_palette_color(shade: u8) -> u32 {
    match shade {
        0u8 => 0xFFE0F8D0u32,
        1u8 => 0xFF88C070u32,
        2u8 => 0xFF346856u32,
        _ => 0xFF081820u32,
    }
}

/// The screen color of a palette shade, 0 lightest to 3 darkest.
pub fn palette_color(shade: u8) -> (r: u32)
    ensures
        r == spec_palette_color(shade),
{
    match shade {
        0 => 0xFFE0F8D0,
        1 => 0xFF88C070,
        2 => 0xFF346856,
        _ => 0xFF081820,
    }
}

/// The mode the hardware is in at a given scanline and cycle: vertical
/// blank on lines 144-153; otherwise object scan for the first 80 cycles,
/// drawing until cycle 252, then horizontal blank.
pub open spec fn spec_mode_for(ly: u8, scanline_cycles: u32) -> Mode {
    if ly >= 144 {
        Mode::VBlank
    } else if scanline_cycles < 80 {
        Mode::OamScan
    } else if scanline_cycles < 252 {
        Mode::Drawing
    } else {
        Mode::HBlank
    }
}

/// One pass of the scanline loop: while a whole scanline's cycles are
/// banked, spend 456 of them, render the line if it is visible, advance
/// LY modulo 154, and latch `frame_ready` on the step to line 144. The
/// second component reports whether any such step happened.
pub open spec fn spec_ppu_lines(p: PpuView, vram: Seq<u8>, oam: Seq<u8>) -> (PpuView, bool)
    decreases p.scanline_cycles,
{
    if p.scanline_cycles >= 456 {
        let fb = if p.ly < 144 {
            spec_render_scanline(p, vram, oam)
        } else {
            p.framebuffer
        };
        let ly2 = ((p.ly + 1) % 154) as u8;
        let entered = ly2 == 144 && p.ly != 144;
        let p2 = PpuView {
            scanline_cycles: (p.scanline_cycles - 456) as u32,
            ly: ly2,
            frame_ready: p.frame_ready || entered,
            framebuffer: fb,
            ..p
        };
        let r = spec_ppu_lines(p2, vram, oam);
        (r.0, entered || r.1)
    } else {
        (p, false)
    }
}

/// The PPU after `step(cycles)`: nothing with the display off; otherwise
/// the banked cycles grow, whole scanlines are paid out, and the mode is
/// recomputed. The second component reports entry into vertical blank.
pub open spec fn spec_ppu_step(p: PpuView, cycles: u32, vram: Seq<u8>, oam: Seq<u8>) -> (
    PpuView,
    bool,
) {
    if p.lcdc & 0x80 == 0 {
        (p, false)
    } else {
        let r = spec_ppu_lines(
            PpuView { scanline_cycles: (p.scanline_cycles + cycles) as u32, ..p },
            vram,
            oam,
        );
        (PpuView { mode: spec_mode_for(r.0.ly, r.0.scanline_cycles), ..r.0 }, r.1)
    }
}

/// The byte a read of a display register returns. LY and the mode and
/// compare bits of STAT are projections of the timing state.
pub open spec fn spec_ppu_read(p: PpuView, addr: u16) -> u8 {
    if addr == 0xFF40 {
        p.lcdc
    } else if addr == 0xFF41 {
        ((p.stat & 0xF8) | (if p.ly == p.lyc {
            0x04u8
        } else {
            0u8
        })) | spec_mode_bits(p.mode)
    } else if addr == 0xFF42 {
        p.scy
    } else if addr == 0xFF43 {
        p.scx
    } else if addr == 0xFF44 {
        p.ly
    } else if addr == 0xFF45 {
        p.lyc
    } else if addr == 0xFF47 {
        p.bgp
    } else if addr == 0xFF48 {
        p.obp0
    } else if addr == 0xFF49 {
        p.obp1
    } else if addr == 0xFF4A {
        p.wy
    } else if addr == 0xFF4B {
        p.wx
    } else {
        0xFFu8
    }
}

/// The PPU after a register write: writes to LY are dropped, STAT takes
/// only bits 3-6, and clearing the display-enable bit of LCDC resets the
/// timing state at once.
pub open spec fn spec_ppu_write(p: PpuView, addr: u16, val: u8) -> PpuView {
    if addr == 0xFF40 {
        spec_ppu_write_lcdc(p, val)
    } else if addr == 0xFF41 {
        PpuView { stat: (p.stat & 0x07) | (val & 0x78), ..p }
    } else if addr == 0xFF42 {
        PpuView { scy: val, ..p }
    } else if addr == 0xFF43 {
        PpuView { scx: val, ..p }
    } else if addr == 0xFF45 {
        PpuView { lyc: val, ..p }
    } else if addr == 0xFF47 {
        PpuView { bgp: val, ..p }
    } else if addr == 0xFF48 {
        PpuView { obp0: val, ..p }
    } else if addr == 0xFF49 {
        PpuView { obp1: val, ..p }
    } else if addr == 0xFF4A {
        PpuView { wy: val, ..p }
    } else if addr == 0xFF4B {
        PpuView { wx: val, ..p }
    } else {
        p
    }
}

/// The PPU after an LCDC write: turning the display off zeroes LY and the
/// cycle accumulator and rests in horizontal blank.
pub open spec fn spec_ppu_write_lcdc(p: PpuView, val: u8) -> PpuView {
    if p.lcdc & 0x80 != 0 && val & 0x80 == 0 {
        PpuView { lcdc: val, ly: 0u8, scanline_cycles: 0u32, mode: Mode::HBlank, ..p }
    } else {
        PpuView { lcdc: val, ..p }
    }
}

/// The state a fresh PPU starts in: top-left of a frame, display on,
/// customary post-boot register values, a blank light screen.
pub open spec fn spec_ppu_initial() -> PpuView {
    PpuView {
        ly: 0u8,
        scanline_cycles: 0u32,
        mode: Mode::OamScan,
        lyc: 0u8,
        lcdc: 0x91u8,
        stat: 0u8,
        scy: 0u8,
        scx: 0u8,
        bgp: 0xFCu8,
        obp0: 0xFFu8,
        obp1: 0xFFu8,
        wy: 0u8,
        wx: 0u8,
        framebuffer: Seq::new((160 * 144) as nat, |i: int| spec_palette_color(0)),
        frame_ready: false,
    }
}

impl Ppu {
    /// A PPU at the top-left of a fresh frame, display on, with the
    /// customary post-boot register values and a blank light screen.
    pub fn new() -> (r: Ppu)
        ensures
            r@ == spec_ppu_initial(),
            ppu_wf(r@),
    {
        let fb = vec![0xFFE0F8D0u32; 160 * 144];
        proof {
            assert(fb@ =~= Seq::new((160 * 144) as nat, |i: int| spec_palette_color(0)));
        }
        Ppu {
            ly: 0,
            scanline_cycles: 0,
            mode: Mode::OamScan,
            lyc: 0,
            lcdc: 0x91,
            stat: 0,
            scy: 0,
            scx: 0,
            bgp: 0xFC,
            obp0: 0xFF,
            obp1: 0xFF,
            wy: 0,
            wx: 0,
            framebuffer: fb,
            frame_ready: false,
        }
    }

    /// Whether the display-enable bit of LCDC is set.
    pub fn lcd_enabled(&self) -> (r: bool)
        ensures
            r == (self.lcdc & 0x80 != 0),
    {
        self.lcdc & 0x80 != 0
    }

    /// Whether the background layer is drawn.
    pub fn bg_enabled(&self) -> (r: bool)
        ensures
            r == (self.lcdc & 0x01 != 0),
    {
        self.lcdc & 0x01 != 0
    }

    /// Whether the window layer is drawn.
    pub fn window_enabled(&self) -> (r: bool)
        ensures
            r == (self.lcdc & 0x20 != 0),
    {
        self.lcdc & 0x20 != 0
    }

    /// Whether sprites are drawn.
    pub fn sprites_enabled(&self) -> (r: bool)
        ensures
            r == (self.lcdc & 0x02 != 0),
    {
        self.lcdc & 0x02 != 0
    }

    /// Current scanline.
    pub fn ly(&self) -> (r: u8)
        ensures
            r == self.ly,
    {
        self.ly
    }

    /// Current mode.
    pub fn mode(&self) -> (r: Mode)
        ensures
            r == self.mode,
    {
        self.mode
    }

    /// Whether the PPU rests in vertical blank.
    pub fn in_vblank(&self) -> (r: bool)
        ensures
            r == (self.mode == Mode::VBlank),
    {
        matches!(self.mode, Mode::VBlank)
    }

    /// Recompute the mode from the timing state.
    fn update_mode(&mut self)
        ensures
            *final(self) == (Ppu {
                mode: spec_mode_for(old(self).ly, old(self).scanline_cycles),
                ..*old(self)
            }),
    {
        self.mode = if self.ly >= 144 {
            Mode::VBlank
        } else if self.scanline_cycles < 80 {
            Mode::OamScan
        } else if self.scanline_cycles < 252 {
            Mode::Drawing
        } else {
            Mode::HBlank
        };
    }

    /// Advance the PPU by `cycles` T-cycles, rendering each completed
    /// visible scanline from `vram` and `oam`. Returns whether vertical
    /// blank was entered — the frame is then ready to present.
    pub fn step(&mut self, cycles: u32, vram: &[u8], oam: &[u8]) -> (entered: bool)
        requires
            ppu_wf(old(self)@),
            cycles < 0x8000_0000,
            vram@.len() == 0x2000,
            oam@.len() == 160,
        ensures
            (final(self)@, entered) == spec_ppu_step(old(self)@, cycles, vram@, oam@),
            ppu_wf(final(self)@),
    {
        if self.lcdc & 0x80 == 0 {
            return false;
        }
        let mut entered_vblank = false;
        self.scanline_cycles = self.scanline_cycles + cycles;
        let ghost target = spec_ppu_lines(self@, vram@, oam@);
        while self.scanline_cycles >= 456
            invariant
                vram@.len() == 0x2000,
                oam@.len() == 160,
                self.ly < 154,
                self.framebuffer@.len() == 160 * 144,
                spec_ppu_lines(self@, vram@, oam@).0 == target.0,
                (entered_vblank || spec_ppu_lines(self@, vram@, oam@).1) == target.1,
            decreases self.scanline_cycles,
        {
            if self.ly < 144 {
                self.render_scanline(vram, oam);
            }
            self.scanline_cycles = self.scanline_cycles - 456;
            let prev_ly = self.ly;
            self.ly = (self.ly + 1) % 154;
            if self.ly == 144 && prev_ly != 144 {
                self.frame_ready = true;
                entered_vblank = true;
            }
        }
        self.update_mode();
        entered_vblank
    }

    /// Compose one visible scanline into the framebuffer: background (or
    /// the lightest shade with the background off), then the window where
    /// it covers the line, then sprites.
    pub fn render_scanline(&mut self, vram: &[u8], oam: &[u8])
        requires
            old(self).ly < 144,
            old(self).framebuffer@.len() == 160 * 144,
            vram@.len() == 0x2000,
            oam@.len() == 160,
        ensures
            final(self).framebuffer@.len() == old(self).framebuffer@.len(),
            final(self)@ == (PpuView {
                framebuffer: spec_render_scanline(old(self)@, vram@, oam@),
                ..old(self)@
            }),
    {
        let ly = self.ly as usize;
        if self.bg_enabled() {
            self.render_bg_scanline(vram, ly);
        } else {
            self.fill_row(ly);
        }
        if self.window_enabled() && ly >= self.wy as usize {
            self.render_window_scanline(vram, ly);
        }
        if self.sprites_enabled() {
            self.render_sprites_scanline(vram, oam, ly);
        }
    }

    /// Read a display register.
    pub fn read(&self, addr: u16) -> (r: u8)
        ensures
            r == spec_ppu_read(self@, addr),
    {
        match addr {
            0xFF40 => self.lcdc,
            0xFF41 => {
                let lyc_flag = if self.ly == self.lyc {
                    0x04
                } else {
                    0
                };
                ((self.stat & 0xF8) | lyc_flag) | self.mode_bits()
            },
            0xFF42 => self.scy,
            0xFF43 => self.scx,
            0xFF44 => self.ly,
            0xFF45 => self.lyc,
            0xFF47 => self.bgp,
            0xFF48 => self.obp0,
            0xFF49 => self.obp1,
            0xFF4A => self.wy,
            0xFF4B => self.wx,
            _ => 0xFF,
        }
    }

    /// The STAT encoding of the current mode.
    pub fn mode_bits(&self) -> (r: u8)
        ensures
            r == spec_mode_bits(self.mode),
    {
        match self.mode {
            Mode::HBlank => 0,
            Mode::VBlank => 1,
            Mode::OamScan => 2,
            Mode::Drawing => 3,
        }
    }

    /// Write a display register. Writes to LY are dropped; STAT takes
    /// only bits 3-6; clearing the display-enable bit resets the timing.
    pub fn write(&mut self, addr: u16, val: u8)
        ensures
            final(self)@ == spec_ppu_write(old(self)@, addr, val),
    {
        match addr {
            0xFF40 => self.write_lcdc(val),
            0xFF41 => {
                self.stat = (self.stat & 0x07) | (val & 0x78);
            },
            0xFF42 => {
                self.scy = val;
            },
            0xFF43 => {
                self.scx = val;
            },
            0xFF44 => {},
            0xFF45 => {
                self.lyc = val;
            },
            0xFF47 => {
                self.bgp = val;
            },
            0xFF48 => {
                self.obp0 = val;
            },
            0xFF49 => {
                self.obp1 = val;
            },
            0xFF4A => {
                self.wy = val;
            },
            0xFF4B => {
                self.wx = val;
            },
            _ => {},
        }
    }

    /// Write LCDC; turning the display off resets LY, the cycle
    /// accumulator and the mode at once.
    pub fn write_lcdc(&mut self, val: u8)
        ensures
            final(self)@ == spec_ppu_write_lcdc(old(self)@, val),
    {
        let was_enabled = self.lcd_enabled();
        self.lcdc = val;
        if was_enabled && self.lcdc & 0x80 == 0 {
            self.ly = 0;
            self.scanline_cycles = 0;
            self.mode = Mode::HBlank;
        }
    }
}

/// With the display on, `frame_ready` latches exactly on the step of LY
/// from 143 to 144 and on no other: the scanline loop reports entry into
/// vertical blank if and only if some pass steps onto line 144.
pub proof fn lemma_frame_ready_on_vblank_entry(p: PpuView, vram: Seq<u8>, oam: Seq<u8>)
    ensures
        spec_ppu_lines(p, vram, oam).0.frame_ready == (p.frame_ready || spec_ppu_lines(
            p,
            vram,
            oam,
        ).1),
    decreases p.scanline_cycles,
{
    if p.scanline_cycles >= 456 {
        let fb = if p.ly < 144 {
            spec_render_scanline(p, vram, oam)
        } else {
            p.framebuffer
        };
        let ly2 = ((p.ly + 1) % 154) as u8;
        let entered = ly2 == 144 && p.ly != 144;
        let p2 = PpuView {
            scanline_cycles: (p.scanline_cycles - 456) as u32,
            ly: ly2,
            frame_ready: p.frame_ready || entered,
            framebuffer: fb,
            ..p
        };
        lemma_frame_ready_on_vblank_entry(p2, vram, oam);
    }
}


/// Whole scanlines until the next step onto line 144: the crossing that
/// latches `frame_ready`.
pub open spec fn spec_lines_to_vblank(ly: u8) -> int {
    if ly < 144 {
        144 - ly
    } else if ly == 144 {
        154
    } else {
        298 - ly
    }
}

/// The scanline loop reports entry into vertical blank exactly when the
/// banked cycles cover every line up to the step onto line 144.
proof fn lemma_lines_entered_iff(p: PpuView, vram: Seq<u8>, oam: Seq<u8>)
    requires
        p.ly < 154,
    ensures
        spec_ppu_lines(p, vram, oam).1 <==> p.scanline_cycles >= 456 * spec_lines_to_vblank(p.ly),
    decreases p.scanline_cycles,
{
    if p.scanline_cycles >= 456 {
        let fb = if p.ly < 144 {
            spec_render_scanline(p, vram, oam)
        } else {
            p.framebuffer
        };
        let ly2 = ((p.ly + 1) % 154) as u8;
        let entered = ly2 == 144 && p.ly != 144;
        let p2 = PpuView {
            scanline_cycles: (p.scanline_cycles - 456) as u32,
            ly: ly2,
            frame_ready: p.frame_ready || entered,
            framebuffer: fb,
            ..p
        };
        lemma_lines_entered_iff(p2, vram, oam);
    }
}

/// With the display on, one `step` enters vertical blank exactly when
/// the cycles carry the frame position across the next step of LY from
/// 143 to 144 — at frame position 65664, and then once every 70224
/// T-cycles.
pub proof fn lemma_frame_ready_period(p: PpuView, cycles: u32, vram: Seq<u8>, oam: Seq<u8>)
    requires
        ppu_wf(p),
        p.lcdc & 0x80 != 0,
        cycles < 0x8000_0000,
    ensures
        spec_ppu_step(p, cycles, vram, oam).1 <==> p.ly as int * 456 + p.scanline_cycles + cycles
            >= (if p.ly < 144 {
            65664int
        } else {
            65664 + 70224int
        }),
{
    let q = PpuView { scanline_cycles: (p.scanline_cycles + cycles) as u32, ..p };
    lemma_lines_entered_iff(q, vram, oam);
}


/// Writing LY changes nothing: the register is a read-only projection of
/// the timing state.
pub proof fn lemma_ly_write_ignored(p: PpuView, val: u8)
    ensures
        spec_ppu_write(p, 0xFF44, val) == p,
{
}

/// Clearing the display-enable bit resets the timing state at once: LY
/// and the cycle accumulator drop to zero and the mode rests in
/// horizontal blank.
pub proof fn lemma_lcd_disable_resets(p: PpuView, val: u8)
    requires
        p.lcdc & 0x80 != 0,
        val & 0x80 == 0,
    ensures
        spec_ppu_write(p, 0xFF40, val).ly == 0,
        spec_ppu_write(p, 0xFF40, val).scanline_cycles == 0,
        spec_ppu_write(p, 0xFF40, val).mode == Mode::HBlank,
{
}

} // verus!
