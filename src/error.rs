use vstd::prelude::*;

verus! {

/// The ways a program can fail the machine. Each is reported to the host
/// as a value; the machine state is left as it was before the failing
/// operation.
#[derive(Clone, Copy, Debug, PartialEq, Eq, Structural)]
pub enum Chip8Error {
    /// No instruction pattern matches the fetched opcode.
    IllegalOpcode,
    /// A call was made with every stack slot in use.
    StackOverflow,
    /// A return was made with an empty stack.
    StackUnderflow,
    /// A memory access (or a program that does not fit) lies outside memory.
    OutOfBounds,
}

} // verus!
