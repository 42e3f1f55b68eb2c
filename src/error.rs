//! The recoverable conditions that the core reports to its caller.
use vstd::prelude::*;

verus! {

/// An error of the emulator core. None of them leaves the register file or
/// the memory in a broken state.
#[derive(Clone, Copy, PartialEq, Eq, Structural, Debug)]
pub enum EmuError {
    /// A register or addressing-mode selector outside `0..=7`.
    InvalidSelector { selector: u8 },
    /// A linear address at or past the end of the memory buffer. For a
    /// program image, the linear address at which it was to start.
    OutOfBounds { address: u32 },
    /// An opcode with no handler, with the CS:IP from which it was fetched.
    UnimplementedOpcode { opcode: u8, cs: u16, ip: u16 },
}

} // verus!
