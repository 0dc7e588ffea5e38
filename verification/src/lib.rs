//! Cycle-stepped core of an NES: the CPU bus, the picture processing unit
//! and the 6502, each a verified state machine.

pub mod alu;
pub mod background;
pub mod bits;
pub mod cartridge;
pub mod cpu;
pub mod evaluation;
pub mod ines;
pub mod mapper;
pub mod mem;
pub mod nes;
pub mod oam;
pub mod opcode;
pub mod ppu;
pub mod scroll;
pub mod sprite;
pub mod timing;
pub mod transfer;
