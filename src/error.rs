use vstd::prelude::*;

verus! {

/// The ways in which loading a program or executing an instruction can fail.
#[derive(Clone, Copy, Debug, PartialEq, Eq, Structural)]
pub enum Chip8Error {
    /// The program image does not fit between the program start and the end of memory.
    ImageTooLarge,
    /// The fetched word matches no instruction pattern; it carries the raw word.
    UnknownOpcode(u16),
    /// A call was made with all sixteen stack slots in use.
    StackOverflow,
    /// A return was made with an empty stack.
    StackUnderflow,
    /// An access starting at the carried address would leave the 4096-byte memory.
    MemoryOutOfRange(u16),
    /// A key instruction named a key outside 0..=15; it carries the register value.
    KeyOutOfRange(u8),
}

} // verus!
