//! The single error type shared by every fallible operation of the machine.

use vstd::prelude::*;

verus! {

/// Everything that can go wrong while the machine executes.
///
/// Every instruction's `execute` reports failures through this one enum; the
/// dispatcher hands them to the external driver unchanged.
#[derive(Clone, Copy, Debug, PartialEq, Eq, Structural)]
pub enum EmuError {
    /// A return was executed while the call stack was empty.
    StackUnderflow,
    /// An operand addressed a register slot beyond the register file's size.
    RegisterIndexOutOfRange,
    /// No instruction in the opcode table matches this raw 16-bit word.
    UnimplementedOpcode(u16),
    /// A sprite rectangle exceeds the display plane's dimensions.
    DisplayBoundsExceeded,
    /// The external byte source for a program image could not be read.
    ProgramLoadFailure,
}

} // verus!
