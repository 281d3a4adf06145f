//! An emulator core for the MOS 6502 microprocessor.
//!
//! The crate models a flat 64 KiB memory bus, the register file with its
//! status flags, the opcode table, the addressing-mode resolver and the
//! fetch-decode-execute engine. Every executable function carries a contract
//! over a mathematical model of the machine state.

pub mod address;
pub mod cpu;
pub mod engine;
pub mod instruction;
pub mod memory;
pub mod resolver;
pub mod stack;
pub mod status;
