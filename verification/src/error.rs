//! Host-level failures. Unlike the architectural exceptions these are fatal
//! to the run: they are reported to the operator and never enter trap
//! delegation.

use vstd::prelude::*;

verus! {

/// A host-level failure of the emulator itself, or a decode failure reported
/// to a host that drives the decoder directly.
#[derive(Debug, Clone, Copy, PartialEq, Eq, Structural)]
pub enum RiscVError {
    /// The initial program image could not be placed into the bus's address
    /// space.
    LoadFailed,
    /// The guest asked the host to stop with the given code.
    SystemExit(u32),
    /// No further instructions are available.
    EndOfInstruction,
    /// The BSS region could not be zero-filled.
    BssInitFailed,
    /// The raw word's opcode matches no supported encoding; carries the
    /// opcode byte (low seven bits of the word).
    NotImplementedOpCode(u8),
    /// The opcode is known but the funct discriminator matches no defined
    /// operation; carries the opcode byte and the offending funct value.
    NotImplementedFunc(u8, u8),
}

} // verus!
