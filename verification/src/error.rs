use vstd::prelude::*;

verus! {

/// A fatal execution error. Every variant halts the machine: the host is
/// expected to stop calling `cycle` once one is returned.
#[derive(Clone, Copy, Debug, PartialEq, Eq, Structural)]
pub enum Chip8Error {
    /// A memory access touched an address at or past the end of memory.
    /// `address` is the address that was asked for.
    OutOfBounds { address: u16 },
    /// The word fetched at `address` matched no instruction pattern.
    UnknownOpcode { address: u16, opcode: u16 },
    /// A return was executed with an empty call stack.
    StackUnderflow,
    /// A call was executed with the call stack already at its depth bound.
    StackOverflow,
}

} // verus!
