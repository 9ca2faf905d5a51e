use vstd::prelude::*;

verus! {

/// Why the machine refused to carry out a request.
#[derive(Clone, Copy, Debug, PartialEq, Eq, Structural)]
pub enum Fault {
    /// The program image does not fit between the program base and the end of memory.
    RomTooLarge,
    /// The fetched word matches no instruction; the word is carried along.
    UnknownOpcode(u16),
    /// A call was made with every stack slot already in use.
    StackOverflow,
    /// A return was made with no return address on the stack.
    StackUnderflow,
    /// An instruction needed a memory cell beyond the last address.
    OutOfBounds,
}

} // verus!
