//! The ways in which loading a program or running an instruction can fail.

use vstd::prelude::*;

verus! {

/// A failure reported to the host. Every failure is final for the session:
/// the host is expected to stop stepping the machine that reported it.
#[derive(Clone, Copy, Debug, PartialEq, Eq, Structural)]
pub enum Chip8Error {
    /// The program image does not fit between `0x200` and the end of memory.
    ImageTooLarge,
    /// A memory access fell outside the 4096-byte address space.
    AddressOutOfRange,
    /// A call was made with sixteen return addresses already on the stack.
    StackOverflow,
    /// A return was made with no return address on the stack.
    StackUnderflow,
    /// A key code or a host key has no counterpart on the other side.
    UnmappedInputKey,
    /// The host could not read the program image.
    IoFailure,
}

} // verus!
