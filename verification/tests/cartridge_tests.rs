//! Cartridge mappers, the cartridge front and the register pairs,
//! ported over the public surface.

use dmg::cartridge::Cartridge;
use dmg::mbc::{Mbc0, Mbc1};
use dmg::register::Register;


#[test]
fn reads_rom() {
    let mut rom = vec![0; 0x8000];
    rom[0x100] = 0xAB;
    rom[0x4000] = 0xCD;

    let mbc = Mbc0::new(rom);

    assert_eq!(mbc.read(0x100), 0xAB);
    assert_eq!(mbc.read(0x4000), 0xCD);
}

#[test]
fn ignores_writes() {
    let rom = vec![0; 0x8000];
    let mut mbc = Mbc0::new(rom);

    mbc.write(0x2000, 0xFF);
    // No panic = success
}

#[test]
fn out_of_bounds_returns_ff() {
    let rom = vec![0; 0x100]; // Small ROM
    let mbc = Mbc0::new(rom);

    assert_eq!(mbc.read(0x7FFF), 0xFF);
}

fn make_mbc1(rom_size: usize, ram_size: usize) -> Mbc1 {
    let rom = vec![0; rom_size];
    Mbc1::new(rom, ram_size, false)
}

#[test]
fn bank_switching() {
    let mut rom = vec![0; 0x80000]; // 512KB
    rom[0x4000] = 0x11;              // Bank 1
    rom[0x4000 + 0x4000] = 0x22;     // Bank 2
    rom[0x4000 + 0x8000] = 0x33;     // Bank 3

    let mut mbc = Mbc1::new(rom, 0, false);

    assert_eq!(mbc.read(0x4000), 0x11); // Default bank 1

    mbc.write(0x2000, 0x02);
    assert_eq!(mbc.read(0x4000), 0x22);

    mbc.write(0x2000, 0x03);
    assert_eq!(mbc.read(0x4000), 0x33);
}

#[test]
fn bank_0_becomes_bank_1() {
    let mut rom = vec![0; 0x80000];
    rom[0x4000] = 0xAA; // Bank 1

    let mut mbc = Mbc1::new(rom, 0, false);

    mbc.write(0x2000, 0x00); // Try to select bank 0
    assert_eq!(mbc.read(0x4000), 0xAA); // Gets bank 1 instead
}

#[test]
fn ram_disabled_by_default() {
    let mut mbc = make_mbc1(0x8000, 0x2000);

    assert_eq!(mbc.read(0xA000), 0xFF);
}

#[test]
fn ram_enable_disable() {
    let mut mbc = make_mbc1(0x8000, 0x2000);

    // Enable RAM
    mbc.write(0x0000, 0x0A);
    mbc.write(0xA000, 0x42);
    assert_eq!(mbc.read(0xA000), 0x42);

    // Disable RAM
    mbc.write(0x0000, 0x00);
    assert_eq!(mbc.read(0xA000), 0xFF);
}

#[test]
fn save_data_with_battery() {
    let mut mbc = Mbc1::new(vec![0; 0x8000], 0x2000, true);

    mbc.write(0x0000, 0x0A); // Enable RAM
    mbc.write(0xA000, 0x42);

    let save = mbc.save_data();
    assert_eq!(save[0], 0x42);
}

#[test]
fn save_data_without_battery() {
    let mut mbc = Mbc1::new(vec![0; 0x8000], 0x2000, false);

    mbc.write(0x0000, 0x0A);
    mbc.write(0xA000, 0x42);

    let save = mbc.save_data();
    assert!(save.is_empty());
}

fn make_rom(cart_type: u8, ram_size: u8) -> Vec<u8> {
    let mut rom = vec![0; 0x8000];
    rom[0x147] = cart_type;
    rom[0x148] = 0x00;
    rom[0x149] = ram_size;
    rom
}

#[test]
fn creates_mbc0() {
    let rom = make_rom(0x00, 0x00);
    let cart = Cartridge::new(rom).unwrap();
    assert!(!cart.has_battery());
}

#[test]
fn creates_mbc1() {
    let rom = make_rom(0x01, 0x00);
    let _cart = Cartridge::new(rom).unwrap();
}

#[test]
fn creates_mbc1_with_battery() {
    let rom = make_rom(0x03, 0x02);
    let cart = Cartridge::new(rom).unwrap();
    assert!(cart.has_battery());
}

#[test]
fn extracts_title() {
    let mut rom = make_rom(0x00, 0x00);
    rom[0x134..0x13A].copy_from_slice(b"TETRIS");

    let cart = Cartridge::new(rom).unwrap();
    assert_eq!(cart.title(), "TETRIS");
}

#[test]
fn set_register(){
	let mut reg = Register::new(0xFFFF);
	reg.set(0x00FF);
	assert_eq!(reg.hi,0x00u8);
	assert_eq!(reg.lo,0xFFu8);	
}

#[test]
fn get_register(){
	let mut reg=Register::new(0xFFFF);
	reg.hi = 0x00;
	assert_eq!(reg.get(),0x00FFu16);
}

#[test]
fn set_hi(){
	let mut reg=Register::new(0);
	reg.hi=0xFF;
	assert_eq!(reg.hi,0xFFu8);
}

#[test]
fn set_lo(){
	let mut reg=Register::new(0);
	reg.lo=0xFF;
	assert_eq!(reg.lo,0xFF);
}