//! The privilege lattice: Machine above Supervisor above User. Transitions
//! happen only at trap entry and trap return.

use vstd::prelude::*;

verus! {

/// The hart's current privilege mode.
#[derive(Debug, Clone, Copy, PartialEq, Eq, Structural)]
pub enum PrivilegeMode {
    Machine,
    Supervisor,
    User,
}

impl Default for PrivilegeMode {
    /// A hart comes out of reset in Machine mode.
    fn default() -> (r: Self)
        ensures
            r == PrivilegeMode::Machine,
    {
        PrivilegeMode::Machine
    }
}

/// The two-bit encoding of a mode, as status registers store it.
pub open spec fn spec_mode_bits(m: PrivilegeMode) -> u32 {
    match m {
        PrivilegeMode::User => 0,
        PrivilegeMode::Supervisor => 1,
        PrivilegeMode::Machine => 3,
    }
}

impl PrivilegeMode {
    /// The mode's two-bit encoding in status registers.
    pub fn bits(self) -> (r: u32)
        ensures
            r == spec_mode_bits(self),
    {
        match self {
            PrivilegeMode::User => 0,
            PrivilegeMode::Supervisor => 1,
            PrivilegeMode::Machine => 3,
        }
    }

    /// The mode a two-bit encoding denotes; unknown encodings fall back to
    /// User, the least privileged.
    pub fn from_bits(bits: u32) -> (r: Self)
        ensures
            bits == 0 ==> r == PrivilegeMode::User,
            bits == 1 ==> r == PrivilegeMode::Supervisor,
            bits == 3 ==> r == PrivilegeMode::Machine,
            bits != 1 && bits != 3 ==> r == PrivilegeMode::User,
    {
        if bits == 3 {
            PrivilegeMode::Machine
        } else if bits == 1 {
            PrivilegeMode::Supervisor
        } else {
            PrivilegeMode::User
        }
    }
}

} // verus!
