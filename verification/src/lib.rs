//! A DMG hand-held console core: CPU, memory interconnect, cartridge
//! mappers, pixel processing unit, timer and joypad, with machine-checked
//! contracts for every operation.

pub mod alu;
pub mod cartridge;
pub mod cb_ops;
pub mod cpu;
pub mod cpu_exec;
pub mod debug;
pub mod debugger;
pub mod gameboy;
pub mod interconnect;
pub mod joypad;
pub mod mbc;
pub mod opcode;
pub mod operands;
pub mod ppu;
pub mod ppu_render;
pub mod register;
pub mod text;
pub mod timer;
