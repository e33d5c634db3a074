//! Error taxonomy of the emulator core.

use vstd::prelude::*;

verus! {

/// Failures the CPU can report to its host. Only `InvalidOpCode` is raised by
/// the current core; the remaining variants are reserved for future use by
/// devices and hosts.
#[derive(Clone, PartialEq, Eq, Debug)]
pub enum CpuError {
    /// The fetched byte is not a documented 6502 opcode.
    InvalidOpCode(u8),
    /// The program counter ran past the end of the address space.
    ProgramCounterOverflow,
    /// A memory address outside every device's range was required to exist.
    InvalidAddress(u16),
    /// An attempt was made to write through a read-only mapping.
    WriteToRomAddress(u16),
    /// Any other failure, described in text.
    Other(String),
}

} // verus!
