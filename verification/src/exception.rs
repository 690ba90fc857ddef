//! The architectural exception taxonomy: every fault a running guest can
//! raise, each carrying the faulting virtual address or raw word where the
//! architecture makes that information available to the trap handler.

use vstd::prelude::*;

verus! {

/// An architectural exception. These are recoverable by the emulated machine
/// itself: the trap state machine converts each to its numeric cause and
/// redirects control, they never abort the run loop.
#[derive(Debug, Clone, Copy, PartialEq, Eq, Structural)]
pub enum Exception {
    InstructionAddressMisaligned,
    InstructionAccessFault(u32),
    IllegalInstruction(u32),
    Breakpoint,
    LoadAddressMisaligned,
    LoadAccessFault(u32),
    StoreAddressMisaligned,
    StoreAccessFault(u32),
    EnvironmentCallFromUMode,
    EnvironmentCallFromSMode,
    EnvironmentCallFromMMode,
    InstructionPageFault(u32),
    LoadPageFault(u32),
    StoreOrAmoPageFault(u32),
}

impl Exception {
    /// The architectural cause number written into `mcause`/`scause` on trap
    /// entry.
    pub open spec fn cause_code(self) -> u32 {
        match self {
            Exception::InstructionAddressMisaligned => 0,
            Exception::InstructionAccessFault(_) => 1,
            Exception::IllegalInstruction(_) => 2,
            Exception::Breakpoint => 3,
            Exception::LoadAddressMisaligned => 4,
            Exception::LoadAccessFault(_) => 5,
            Exception::StoreAddressMisaligned => 6,
            Exception::StoreAccessFault(_) => 7,
            Exception::EnvironmentCallFromUMode => 8,
            Exception::EnvironmentCallFromSMode => 9,
            Exception::EnvironmentCallFromMMode => 11,
            Exception::InstructionPageFault(_) => 12,
            Exception::LoadPageFault(_) => 13,
            Exception::StoreOrAmoPageFault(_) => 15,
        }
    }

    /// Convert the exception to its numeric trap cause.
    pub fn cause(self) -> (r: u32)
        ensures
            r == self.cause_code(),
    {
        match self {
            Exception::InstructionAddressMisaligned => 0,
            Exception::InstructionAccessFault(_) => 1,
            Exception::IllegalInstruction(_) => 2,
            Exception::Breakpoint => 3,
            Exception::LoadAddressMisaligned => 4,
            Exception::LoadAccessFault(_) => 5,
            Exception::StoreAddressMisaligned => 6,
            Exception::StoreAccessFault(_) => 7,
            Exception::EnvironmentCallFromUMode => 8,
            Exception::EnvironmentCallFromSMode => 9,
            Exception::EnvironmentCallFromMMode => 11,
            Exception::InstructionPageFault(_) => 12,
            Exception::LoadPageFault(_) => 13,
            Exception::StoreOrAmoPageFault(_) => 15,
        }
    }
}

} // verus!
