//! Emulator core for a MOS 6502-class 8-bit microprocessor.
//!
//! The crate models the architectural state of the CPU (registers, status
//! flags, program counter, stack pointer), the fetch/decode/execute cycle
//! driven by a clock, and a memory bus that dispatches 8-bit reads and writes
//! to address-range-owning devices. Every public operation carries a contract
//! stating exactly how it changes the machine state. The `assembler` module
//! holds the source-language front end that turns text into token streams
//! and expression trees.

pub mod assembler;
pub mod bus;
pub mod cpu;
pub mod decode;
pub mod execute;
pub mod instruction;
pub mod error;
pub mod ram;
pub mod status;
