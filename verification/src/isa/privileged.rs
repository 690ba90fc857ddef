//! The privileged trap-return instructions, recognized by their full raw
//! word.

use vstd::prelude::*;

verus! {

/// A privileged operation: return from a machine-level or supervisor-level
/// trap.
#[derive(Debug, Clone, Copy, PartialEq, Eq, Structural)]
pub enum PrivilegeOp {
    Mret,
    Sret,
}

/// The privileged operation a raw word encodes, if any.
pub open spec fn spec_privilege_op(raw: u32) -> Option<PrivilegeOp> {
    if raw == 0x10200073 {
        Some(PrivilegeOp::Sret)
    } else if raw == 0x30200073 {
        Some(PrivilegeOp::Mret)
    } else {
        None
    }
}

impl PrivilegeOp {
    /// Recognize `sret`/`mret` from the full raw word.
    pub fn decode(raw: u32) -> (r: Option<PrivilegeOp>)
        ensures
            r == spec_privilege_op(raw),
    {
        match raw {
            0x10200073 => Some(PrivilegeOp::Sret),
            0x30200073 => Some(PrivilegeOp::Mret),
            _ => None,
        }
    }
}

} // verus!
