//! Instruction-execution core of a Sharp LR35902 (8-bit handheld console)
//! CPU emulator: register file, ALU with exact flag semantics, the primary
//! and CB-prefixed opcode tables, stack discipline, and conditional
//! control flow, all specified and verified against a mathematical model
//! of the machine state.

pub mod register;
pub mod memory;
pub mod semantics;
pub mod cpu;
pub mod ppu;
pub mod laws;
pub mod timing;
