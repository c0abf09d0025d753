//! Faults that the interpreter reports to its host.

use vstd::prelude::*;

verus! {

/// A fault raised while executing one instruction.
#[derive(Clone, Copy, Debug, PartialEq, Eq, Structural)]
pub enum ExecError {
    /// The fetched word matches no instruction; carries the word.
    UnknownOpcode(u16),
    /// A call was made with all sixteen stack slots in use.
    StackOverflow,
    /// A return was made with an empty stack.
    StackUnderflow,
    /// A glyph address was requested for a value that is not a hex digit.
    InvalidSpriteIndex,
    /// An instruction fetch or an access through the index register
    /// would leave the 4096-byte memory.
    MemoryOutOfBounds,
}

/// A fault raised while loading a program image.
#[derive(Clone, Copy, Debug, PartialEq, Eq, Structural)]
pub enum LoadError {
    /// The image does not fit between the load address and the end of memory.
    ImageTooLarge,
    /// The host could not read the image from its source.
    Io,
}

} // verus!
