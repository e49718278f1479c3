//! The error taxonomy of the emulator core.
//!
//! Every fallible operation of the core reports one of these recoverable
//! errors instead of panicking, so that one bad or unimplemented instruction
//! does not abort a whole emulation session.

use vstd::prelude::*;

verus! {

/// A recoverable error reported by the emulator core.
#[derive(Clone, Copy, Debug, PartialEq, Eq, Structural)]
pub enum EmuError {
    /// A register name outside the architectural set.
    UnknownRegister,
    /// A memory access beyond the top of the 1 MiB address space.
    AddressOutOfRange,
    /// An operand-kind combination an instruction family does not implement.
    UnsupportedOperandForm,
    /// A base/index register pairing not in the fixed 8086 table.
    UnsupportedAddressingForm,
    /// A malformed hexadecimal literal.
    InvalidImmediateFormat,
}

} // verus!
