//! End-to-end scenarios over the assembled bus and processor: bank
//! switching, calls and returns, decimal adjust, interrupt delivery,
//! joypad selection, the object attribute copy, and the loader errors.

use dmg::cartridge::{Cartridge, CartridgeError};
use dmg::cpu::Cpu;
use dmg::debug::{format_memory_dump, MemoryRange};
use dmg::debugger::{BreakpointManager, Command, ParseResult, parse_command};
use dmg::interconnect::Interconnect;
use dmg::joypad::Button;
use dmg::mbc::Mbc1;
use dmg::opcode::Opcode;
use dmg::operands::Reg16;

fn rom_with(bytes: &[(usize, u8)]) -> Vec<u8> {
    let mut rom = vec![0u8; 0x8000];
    for &(addr, val) in bytes {
        rom[addr] = val;
    }
    rom
}

fn bus_with(bytes: &[(usize, u8)]) -> Interconnect {
    Interconnect::new(rom_with(bytes)).unwrap()
}

#[test]
fn mbc1_bank_switch_with_quirk() {
    let mut rom = vec![0u8; 0x80000];
    rom[0x147] = 0x01;
    rom[0x4000] = 0x11;
    rom[0x8000] = 0x22;
    rom[0xC000] = 0x33;
    let mut inter = Interconnect::new(rom).unwrap();
    assert_eq!(inter.read(0x4000), 0x11);
    inter.write(0x2000, 2);
    assert_eq!(inter.read(0x4000), 0x22);
    inter.write(0x2000, 3);
    assert_eq!(inter.read(0x4000), 0x33);
    inter.write(0x2000, 0);
    assert_eq!(inter.read(0x4000), 0x11);
}

#[test]
fn call_then_ret_balances_stack() {
    let mut inter = bus_with(&[(0x0100, 0xCD), (0x0101, 0x00), (0x0102, 0x02), (0x0200, 0xC9)]);
    let mut cpu = Cpu::new();
    assert_eq!(cpu.pc(), 0x0100);
    assert_eq!(cpu.sp(), 0xFFFE);
    let cycles = cpu.execute_next_opcode(&mut inter);
    assert_eq!(cycles, 24);
    assert_eq!(cpu.pc(), 0x0200);
    assert_eq!(cpu.sp(), 0xFFFC);
    assert_eq!(inter.read(0xFFFC), 0x03);
    assert_eq!(inter.read(0xFFFD), 0x01);
    let cycles = cpu.execute_next_opcode(&mut inter);
    assert_eq!(cycles, 16);
    assert_eq!(cpu.pc(), 0x0103);
    assert_eq!(cpu.sp(), 0xFFFE);
}

#[test]
fn daa_after_add() {
    let mut inter = bus_with(&[]);
    let mut cpu = Cpu::new();
    cpu.set_reg_a(0x45);
    cpu.set_reg_b(0x38);
    cpu.set_zero_flag(false);
    cpu.set_subtract_flag(false);
    cpu.set_half_carry_flag(false);
    cpu.set_carry_flag(false);
    cpu.execute_opcode(&mut inter, 0x80);
    assert_eq!(cpu.get_reg_a(), 0x7D);
    assert!(!cpu.flags.h);
    assert!(!cpu.flags.c);
    cpu.execute_opcode(&mut inter, 0x27);
    assert_eq!(cpu.get_reg_a(), 0x83);
    assert!(!cpu.flags.z);
    assert!(!cpu.flags.n);
    assert!(!cpu.flags.h);
    assert!(!cpu.flags.c);
}

#[test]
fn vblank_interrupt_delivery() {
    let mut inter = bus_with(&[]);
    let mut cpu = Cpu::new();
    inter.write(0xFFFF, 0x01);
    cpu.ime = true;
    inter.tick(143 * 456 + 455);
    assert_eq!(inter.read(0xFF44), 143);
    assert_eq!(inter.read(0xFF0F) & 0x01, 0);
    inter.tick(1);
    assert_eq!(inter.read(0xFF44), 144);
    assert_eq!(inter.read(0xFF0F) & 0x01, 0x01);
    let pc_before = cpu.pc();
    let cycles = cpu.handle_interrupts(&mut inter);
    assert_eq!(cycles, 20);
    assert_eq!(cpu.pc(), 0x0040);
    assert!(!cpu.ime);
    assert_eq!(inter.read(0xFF0F) & 0x01, 0);
    assert_eq!(inter.read(0xFFFC), (pc_before & 0xFF) as u8);
    assert_eq!(inter.read(0xFFFD), (pc_before >> 8) as u8);
}

#[test]
fn joypad_direction_select() {
    let mut inter = bus_with(&[]);
    inter.write(0xFF00, 0x20);
    inter.press_button(Button::Right);
    assert_eq!(inter.read(0xFF00) & 0x0F, 0x0E);
    inter.release_button(Button::Right);
    assert_eq!(inter.read(0xFF00) & 0x0F, 0x0F);
}

#[test]
fn oam_dma_copies_source_block() {
    let mut inter = bus_with(&[]);
    for i in 0..160u16 {
        inter.write(0xC000 + i, 0x11 + i as u8);
    }
    inter.write(0xFF46, 0xC0);
    for i in 0..160u16 {
        assert_eq!(inter.read(0xFE00 + i), 0x11 + i as u8);
    }
}

#[test]
fn push_pop_round_trips_and_pop_af_masks() {
    let mut inter = bus_with(&[]);
    let mut cpu = Cpu::new();
    cpu.push_16(&mut inter, 0xABCD);
    assert_eq!(cpu.sp(), 0xFFFC);
    let v = cpu.pop_16(&inter);
    assert_eq!(v, 0xABCD);
    assert_eq!(cpu.sp(), 0xFFFE);
}

#[test]
fn reg16_pairs_read_back_writes() {
    let mut cpu = Cpu::new();
    cpu.write_r16(Reg16::BC, 0x1234);
    assert_eq!(cpu.read_r16(Reg16::BC), 0x1234);
    cpu.write_r16(Reg16::DE, 0xA5C3);
    assert_eq!(cpu.read_r16(Reg16::DE), 0xA5C3);
    cpu.write_r16(Reg16::HL, 0xFFFF);
    assert_eq!(cpu.read_r16(Reg16::HL), 0xFFFF);
    cpu.write_r16(Reg16::SP, 0x8001);
    assert_eq!(cpu.read_r16(Reg16::SP), 0x8001);
}

#[test]
fn save_then_load_is_a_no_op() {
    let mut mbc = Mbc1::new(vec![0u8; 0x8000], 0x2000, true);
    mbc.write(0x0000, 0x0A);
    mbc.write(0xA000, 0x42);
    mbc.write(0xA123, 0x77);
    let saved = mbc.save_data();
    mbc.load_data(&saved);
    assert_eq!(mbc.read(0xA000), 0x42);
    assert_eq!(mbc.read(0xA123), 0x77);
    assert_eq!(mbc.save_data(), saved);
}

#[test]
fn ei_enables_only_after_next_instruction() {
    let mut inter = bus_with(&[]);
    let mut cpu = Cpu::new();
    cpu.execute_opcode(&mut inter, 0xF3);
    assert!(!cpu.ime);
    cpu.execute_opcode(&mut inter, 0xFB);
    assert!(!cpu.ime);
    let cycles = cpu.handle_interrupts(&mut inter);
    assert_eq!(cycles, 0);
    assert!(cpu.ime);
    cpu.execute_opcode(&mut inter, 0x00);
    assert!(cpu.ime);
}

#[test]
fn unusable_range_reads_open_bus() {
    let inter = bus_with(&[]);
    assert_eq!(inter.read(0xFEA0), 0xFF);
    assert_eq!(inter.read(0xFEC7), 0xFF);
    assert_eq!(inter.read(0xFEFF), 0xFF);
}

#[test]
fn ly_write_is_dropped() {
    let mut inter = bus_with(&[]);
    inter.tick(5 * 456);
    assert_eq!(inter.read(0xFF44), 5);
    inter.write(0xFF44, 100);
    assert_eq!(inter.read(0xFF44), 5);
}

#[test]
fn lcd_disable_resets_ly_at_once() {
    let mut inter = bus_with(&[]);
    inter.tick(50 * 456);
    assert_eq!(inter.read(0xFF44), 50);
    let lcdc = inter.read(0xFF40);
    inter.write(0xFF40, lcdc & 0x7F);
    assert_eq!(inter.read(0xFF44), 0);
}

#[test]
fn div_reset_by_any_write() {
    let mut inter = bus_with(&[]);
    inter.tick(1024);
    assert_eq!(inter.read(0xFF04), 4);
    inter.write(0xFF04, 0x42);
    assert_eq!(inter.read(0xFF04), 0);
}

#[test]
fn frame_ready_latches_once_per_frame() {
    let mut inter = bus_with(&[]);
    inter.tick(65663);
    assert!(!inter.frame_ready());
    inter.tick(1);
    assert!(inter.frame_ready());
    inter.clear_frame_ready();
    inter.tick(70223);
    assert!(!inter.frame_ready());
    inter.tick(1);
    assert!(inter.frame_ready());
}

#[test]
fn timer_overflow_latches_interrupt_bit() {
    let mut inter = bus_with(&[]);
    inter.write(0xFF06, 0x80);
    inter.write(0xFF05, 0xFF);
    inter.write(0xFF07, 0x05);
    inter.tick(16);
    assert_eq!(inter.read(0xFF05), 0x80);
    assert_eq!(inter.read(0xFF0F) & 0x04, 0x04);
}

#[test]
fn bus_read16_is_little_endian() {
    let mut inter = bus_with(&[]);
    inter.write_16bits(0xC100, 0xBEEF);
    assert_eq!(inter.read(0xC100), 0xEF);
    assert_eq!(inter.read(0xC101), 0xBE);
    assert_eq!(inter.read_16bits(0xC100), 0xBEEF);
}

#[test]
fn echo_ram_mirrors_work_ram() {
    let mut inter = bus_with(&[]);
    inter.write(0xC123, 0x5A);
    assert_eq!(inter.read(0xE123), 0x5A);
    inter.write(0xE200, 0xA5);
    assert_eq!(inter.read(0xC200), 0xA5);
}

#[test]
fn loader_rejects_unknown_header_bytes() {
    assert!(matches!(
        Cartridge::new(vec![0u8; 0x100]),
        Err(CartridgeError::RomTooSmall)
    ));
    assert!(matches!(
        Cartridge::new(rom_with(&[(0x147, 0xFE)])),
        Err(CartridgeError::UnknownCartridgeType(0xFE))
    ));
    assert!(matches!(
        Cartridge::new(rom_with(&[(0x148, 0x09)])),
        Err(CartridgeError::UnknownRomSize(0x09))
    ));
    assert!(matches!(
        Cartridge::new(rom_with(&[(0x147, 0x02), (0x149, 0x06)])),
        Err(CartridgeError::UnknownRamSize(0x06))
    ));
}

#[test]
fn opcode_table_has_exactly_eleven_holes() {
    let mut holes = Vec::new();
    for op in 0..=255u8 {
        if Opcode::decode(op).is_none() {
            holes.push(op);
        }
    }
    assert_eq!(
        holes,
        vec![0xD3, 0xDB, 0xDD, 0xE3, 0xE4, 0xEB, 0xEC, 0xED, 0xF4, 0xFC, 0xFD]
    );
    assert_eq!(Opcode::decode(0x00), Some(Opcode::Nop));
    assert_eq!(Opcode::decode(0xC3), Some(Opcode::Jp_a16));
}

#[test]
fn format_verbose_lists_the_state() {
    let cpu = Cpu::new();
    let text = cpu.format_verbose();
    assert!(text.starts_with("=== CPU State ===\nRegisters:\n  PC: 0x0100  SP: 0xFFFE"));
    assert!(text.contains("AF: 0x01B0 (A=0x01, F=0xB0)"));
    assert!(text.contains("HL: 0x014D (H=0x01, L=0x4D)"));
    assert!(text.ends_with("Flags:\n  Z:1\n  N:0\n  H:1\n  C:1"));
}

#[test]
fn memory_dump_shows_bytes_and_characters() {
    let mut inter = bus_with(&[]);
    inter.write(0xC000, 0x41);
    inter.write(0xC001, 0x07);
    let dump = format_memory_dump(&inter, MemoryRange { start: 0xC000, end: 0xC00F });
    assert_eq!(
        dump,
        "C000  41 07 00 00 00 00 00 00  00 00 00 00 00 00 00 00  |A...............|\n"
    );
}

#[test]
fn memory_dump_pads_unaligned_start() {
    let mut inter = bus_with(&[]);
    inter.write(0xC008, 0x31);
    let dump = format_memory_dump(&inter, MemoryRange { start: 0xC008, end: 0xC009 });
    assert_eq!(
        dump,
        "C000                           31 00                    |        1.      |\n"
    );
}

#[test]
fn parse_command_understands_the_language() {
    assert!(matches!(parse_command("step"), ParseResult::Command(Command::Step)));
    assert!(matches!(parse_command("  c  "), ParseResult::Command(Command::Continue)));
    assert!(matches!(
        parse_command("break 0x0150"),
        ParseResult::Command(Command::Break(0x0150))
    ));
    assert!(matches!(parse_command("delete 2"), ParseResult::Command(Command::Delete(2))));
    assert!(matches!(
        parse_command("mem 0xC000:0xC00F"),
        ParseResult::Command(Command::Memory(MemoryRange { start: 0xC000, end: 0xC00F }))
    ));
    assert!(matches!(parse_command(""), ParseResult::Empty));
    assert!(matches!(parse_command("   "), ParseResult::Empty));
    assert!(matches!(parse_command("frobnicate"), ParseResult::Error(_)));
    assert!(matches!(parse_command("break"), ParseResult::Error(_)));
    assert!(matches!(parse_command("delete x"), ParseResult::Error(_)));
}

#[test]
fn breakpoints_enable_and_disable() {
    let mut bp = BreakpointManager::new();
    assert!(!bp.has_enabled());
    let id0 = bp.add(0x0100);
    let id1 = bp.add(0x0200);
    assert_eq!((id0, id1), (0, 1));
    assert!(bp.should_break(0x0100));
    assert!(bp.should_break(0x0200));
    assert!(!bp.should_break(0x0300));
    assert_eq!(bp.remove(0), Ok(0x0100));
    assert!(!bp.should_break(0x0100));
    assert!(bp.should_break(0x0200));
    assert!(bp.remove(7).is_err());
    let listing = bp.list();
    assert_eq!(listing, vec![(0, 0x0100, false), (1, 0x0200, true)]);
    assert!(bp.has_enabled());
}

#[test]
fn halt_wakes_on_pending_interrupt_without_dispatch() {
    let mut inter = bus_with(&[]);
    let mut cpu = Cpu::new();
    cpu.execute_opcode(&mut inter, 0x76);
    assert!(cpu.is_halted());
    inter.write(0xFFFF, 0x04);
    inter.request_interrupt(0x04);
    let cycles = cpu.handle_interrupts(&mut inter);
    assert_eq!(cycles, 0);
    assert!(!cpu.is_halted());
    assert!(!cpu.ime());
}

#[test]
fn mbc1_ram_banking_mode_switches_ram_banks() {
    let mut rom = vec![0u8; 0x8000];
    rom[0x147] = 0x03;
    rom[0x149] = 0x03;
    let mut cart = Cartridge::new(rom).unwrap();
    cart.write(0x0000, 0x0A);
    cart.write(0x6000, 0x01);
    cart.write(0x4000, 0x02);
    cart.write(0xA000, 0x66);
    cart.write(0x4000, 0x00);
    cart.write(0xA000, 0x99);
    assert_eq!(cart.read(0xA000), 0x99);
    cart.write(0x4000, 0x02);
    assert_eq!(cart.read(0xA000), 0x66);
}

#[test]
fn sprite_overrides_background_pixel() {
    let mut inter = bus_with(&[]);
    // One solid tile 1: both pattern bytes full, color index three.
    for i in 0..8u16 {
        inter.write(0x8010 + i * 2, 0xFF);
        inter.write(0x8011 + i * 2, 0xFF);
    }
    // Sprite 0 at the top-left corner, tile 1, no flips, palette 0.
    inter.write(0xFE00, 16);
    inter.write(0xFE01, 8);
    inter.write(0xFE02, 1);
    inter.write(0xFE03, 0);
    // Palettes: background lightest everywhere, sprite darkest for index 3.
    inter.write(0xFF47, 0x00);
    inter.write(0xFF48, 0xC0);
    // Display on, background on, sprites on.
    inter.write(0xFF40, 0x93);
    inter.tick(456);
    let fb = inter.framebuffer();
    assert_eq!(fb[0], 0xFF081820);
    assert_eq!(fb[7], 0xFF081820);
    assert_eq!(fb[8], 0xFFE0F8D0);
}

#[test]
fn window_covers_background_from_its_left_edge() {
    let mut inter = bus_with(&[]);
    // Window tile map at 0x9C00 names tile 1; tile 1 is solid color three.
    for i in 0..8u16 {
        inter.write(0x8010 + i * 2, 0xFF);
        inter.write(0x8011 + i * 2, 0xFF);
    }
    inter.write(0x9C00, 1);
    // Background palette darkest for index 3; window at WY=0, WX=7+4.
    inter.write(0xFF47, 0xC0);
    inter.write(0xFF4A, 0);
    inter.write(0xFF4B, 11);
    // Display on, background on, window on, window map high, unsigned tiles.
    inter.write(0xFF40, 0xF1);
    inter.tick(456);
    let fb = inter.framebuffer();
    assert_eq!(fb[3], 0xFFE0F8D0);
    assert_eq!(fb[4], 0xFF081820);
    assert_eq!(fb[5], 0xFF081820);
}

#[test]
fn signed_tile_addressing_reads_around_0x9000() {
    let mut inter = bus_with(&[]);
    // Tile 0x80 in signed mode sits at 0x8800; make its top row solid.
    inter.write(0x8800, 0xFF);
    inter.write(0x8801, 0xFF);
    // Background map names tile 0x80 in its first cell.
    inter.write(0x9800, 0x80);
    inter.write(0xFF47, 0xC0);
    // Display on, background on, unsigned-data bit clear.
    inter.write(0xFF40, 0x81);
    inter.tick(456);
    let fb = inter.framebuffer();
    assert_eq!(fb[0], 0xFF081820);
    assert_eq!(fb[8], 0xFFE0F8D0);
}
