use vstd::prelude::*;

verus! {

/// The ways in which loading a program or running one cycle can fail.
///
/// A failing operation leaves the machine exactly as it found it, so the
/// caller is free to stop, to report, or to repair the state and go on.
#[derive(Clone, Copy, Debug, PartialEq, Eq, Structural)]
pub enum Chip8Error {
    /// The fetched word is not an instruction of the machine.
    IllegalInstruction(u16),
    /// A subroutine call with all sixteen stack slots in use.
    StackOverflow,
    /// A return with no call outstanding.
    StackUnderflow,
    /// A fetch, an access through the index register or a key lookup that
    /// falls outside the memory or the keypad.
    OutOfBoundsAccess,
    /// A program image that does not fit between the load address and the
    /// end of memory.
    ProgramTooLarge,
}

} // verus!
