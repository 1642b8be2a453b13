//! Display timing, timer and joypad behavior, ported over the public
//! surface.

use dmg::joypad::{Button, Joypad};
use dmg::ppu::{Mode, Ppu};
use dmg::timer::Timer;


fn empty_vram() -> Vec<u8> {
    vec![0u8; 0x2000]
}

fn empty_oam() -> Vec<u8> {
    vec![0u8; 160]
}

#[test]
fn test_ppu_new() {
    let ppu = Ppu::new();
    assert_eq!(ppu.ly(), 0);
    assert_eq!(ppu.mode(), Mode::OamScan);
}

#[test]
fn test_ly_increments_after_456_cycles() {
    let mut ppu = Ppu::new();
    assert_eq!(ppu.ly(), 0);

    // Step 455 cycles - should still be on scanline 0
    ppu.step(455, &empty_vram(), &empty_oam());
    assert_eq!(ppu.ly(), 0);

    // Step 1 more cycle - should now be on scanline 1
    ppu.step(1, &empty_vram(), &empty_oam());
    assert_eq!(ppu.ly(), 1);
}

#[test]
fn test_ly_wraps_at_154() {
    let mut ppu = Ppu::new();

    // Advance through all 154 scanlines
    for _ in 0..154 {
        ppu.step(456, &empty_vram(), &empty_oam());
    }

    // Should wrap back to 0
    assert_eq!(ppu.ly(), 0);
}

#[test]
fn test_vblank_starts_at_144() {
    let mut ppu = Ppu::new();

    // Advance to scanline 143
    for _ in 0..143 {
        ppu.step(456, &empty_vram(), &empty_oam());
    }
    assert_eq!(ppu.ly(), 143);
    assert!(!ppu.in_vblank());

    // Advance to scanline 144
    ppu.step(456, &empty_vram(), &empty_oam());
    assert_eq!(ppu.ly(), 144);
    assert!(ppu.in_vblank());
    assert_eq!(ppu.mode(), Mode::VBlank);
}

#[test]
fn test_read_ly_register() {
    let mut ppu = Ppu::new();
    assert_eq!(ppu.read(0xFF44), 0);

    ppu.step(456 * 10, &empty_vram(), &empty_oam());
    assert_eq!(ppu.read(0xFF44), 10);
}

#[test]
fn test_ly_is_read_only() {
    let mut ppu = Ppu::new();
    ppu.step(456 * 5, &empty_vram(), &empty_oam());
    assert_eq!(ppu.ly(), 5);

    // Try to write to LY - should be ignored
    ppu.write(0xFF44, 100);
    assert_eq!(ppu.ly(), 5);
}

#[test]
fn test_stat_mode_bits() {
    let mut ppu = Ppu::new();

    // In OAM scan initially (mode 2)
    let stat = ppu.read(0xFF41);
    assert_eq!(stat & 0x03, Mode::OamScan as u8);

    // Advance to drawing mode
    ppu.step(80, &empty_vram(), &empty_oam());
    let stat = ppu.read(0xFF41);
    assert_eq!(stat & 0x03, Mode::Drawing as u8);

    // Advance to HBlank
    ppu.step(172, &empty_vram(), &empty_oam());
    let stat = ppu.read(0xFF41);
    assert_eq!(stat & 0x03, Mode::HBlank as u8);
}

#[test]
fn test_lyc_compare_flag() {
    let mut ppu = Ppu::new();
    ppu.write(0xFF45, 5); // Set LYC to 5

    // LY=0, LYC=5, flag should be 0
    assert_eq!(ppu.read(0xFF41) & 0x04, 0);

    // Advance to LY=5
    for _ in 0..5 {
        ppu.step(456, &empty_vram(), &empty_oam());
    }
    assert_eq!(ppu.ly(), 5);

    // LY=LYC, flag should be set
    assert_eq!(ppu.read(0xFF41) & 0x04, 0x04);
}

#[test]
fn test_lcd_disable_resets_ly() {
    let mut ppu = Ppu::new();

    // Advance to some scanline
    ppu.step(456 * 50, &empty_vram(), &empty_oam());
    assert_eq!(ppu.ly(), 50);

    // Disable LCD (clear bit 7 of LCDC)
    ppu.write(0xFF40, ppu.read(0xFF40) & 0x7F);
    assert_eq!(ppu.ly(), 0);
}

#[test]
fn test_lcd_disabled_no_advance() {
    let mut ppu = Ppu::new();
    ppu.write(0xFF40, 0x00); // Disable LCD

    // Step should not advance LY when LCD is off
    ppu.step(456 * 10, &empty_vram(), &empty_oam());
    assert_eq!(ppu.ly(), 0);
}

#[test]
fn test_multiple_scanlines_in_one_step() {
    let mut ppu = Ppu::new();

    // Step 3 full scanlines worth of cycles
    ppu.step(456 * 3, &empty_vram(), &empty_oam());
    assert_eq!(ppu.ly(), 3);
}

#[test]
fn test_timer_new() {
    let timer = Timer::new();
    assert_eq!(timer.read(0xFF04), 0); // DIV
    assert_eq!(timer.read(0xFF05), 0); // TIMA
    assert_eq!(timer.read(0xFF06), 0); // TMA
    assert_eq!(timer.read(0xFF07) & 0x07, 0); // TAC
}

#[test]
fn test_div_increments() {
    let mut timer = Timer::new();

    // DIV increments every 256 T-cycles (upper 8 bits of 16-bit counter)
    timer.step(255);
    assert_eq!(timer.read(0xFF04), 0);

    timer.step(1);
    assert_eq!(timer.read(0xFF04), 1);
}

#[test]
fn test_div_reset_on_write() {
    let mut timer = Timer::new();

    timer.step(1024); // DIV = 4
    assert_eq!(timer.read(0xFF04), 4);

    // Writing any value resets DIV
    timer.write(0xFF04, 0x42);
    assert_eq!(timer.read(0xFF04), 0);
}

#[test]
fn test_tima_disabled_by_default() {
    let mut timer = Timer::new();

    // TIMA shouldn't increment when timer is disabled
    timer.step(10000);
    assert_eq!(timer.read(0xFF05), 0);
}

#[test]
fn test_tima_increments_when_enabled() {
    let mut timer = Timer::new();

    // Enable timer with clock 00 (1024 cycles)
    timer.write(0xFF07, 0x04);

    timer.step(1023);
    assert_eq!(timer.read(0xFF05), 0);

    timer.step(1);
    assert_eq!(timer.read(0xFF05), 1);
}

#[test]
fn test_tima_overflow_reloads_tma() {
    let mut timer = Timer::new();

    // Set TMA to 0x80
    timer.write(0xFF06, 0x80);
    // Set TIMA to 0xFF
    timer.write(0xFF05, 0xFF);
    // Enable timer with fastest clock (16 cycles)
    timer.write(0xFF07, 0x05);

    // Step enough to overflow
    timer.step(16);

    // TIMA should be reloaded from TMA
    assert_eq!(timer.read(0xFF05), 0x80);
    assert!(timer.interrupt_requested);
}

#[test]
fn test_timer_clock_select() {
    // Test clock 01 (16 cycles)
    let mut timer = Timer::new();
    timer.write(0xFF07, 0x05); // Enable + clock 01

    timer.step(15);
    assert_eq!(timer.read(0xFF05), 0);

    timer.step(1);
    assert_eq!(timer.read(0xFF05), 1);
}

#[test]
fn test_initial_state() {
    let joypad = Joypad::new();
    // Initially both select bits high, no buttons readable
    assert_eq!(joypad.read() & 0x0F, 0x0F);
}

#[test]
fn test_direction_buttons() {
    let mut joypad = Joypad::new();

    // Select direction buttons
    joypad.write(0x20); // Bit 4 = 0 (select directions), bit 5 = 1

    // All released
    assert_eq!(joypad.read() & 0x0F, 0x0F);

    // Press Right
    joypad.press(Button::Right);
    assert_eq!(joypad.read() & 0x0F, 0x0E); // Bit 0 = 0

    // Press Up as well
    joypad.press(Button::Up);
    assert_eq!(joypad.read() & 0x0F, 0x0A); // Bits 0 and 2 = 0

    // Release Right
    joypad.release(Button::Right);
    assert_eq!(joypad.read() & 0x0F, 0x0B); // Bit 2 = 0
}

#[test]
fn test_action_buttons() {
    let mut joypad = Joypad::new();

    // Select action buttons
    joypad.write(0x10); // Bit 4 = 1, bit 5 = 0 (select actions)

    // All released
    assert_eq!(joypad.read() & 0x0F, 0x0F);

    // Press A
    joypad.press(Button::A);
    assert_eq!(joypad.read() & 0x0F, 0x0E); // Bit 0 = 0

    // Press Start
    joypad.press(Button::Start);
    assert_eq!(joypad.read() & 0x0F, 0x06); // Bits 0 and 3 = 0
}

#[test]
fn test_select_bits_preserved() {
    let mut joypad = Joypad::new();

    joypad.write(0x10);
    assert_eq!(joypad.read() & 0x30, 0x10);

    joypad.write(0x20);
    assert_eq!(joypad.read() & 0x30, 0x20);
}

#[test]
fn test_both_selected() {
    let mut joypad = Joypad::new();

    // Select both (both bits low)
    joypad.write(0x00);

    // Press Right (direction) and A (action)
    joypad.press(Button::Right);
    joypad.press(Button::A);

    // Both should show as pressed (bits ANDed together)
    assert_eq!(joypad.read() & 0x0F, 0x0E); // Bit 0 = 0 (both pressed)
}