//! The CSR read/write operations, discriminated by funct3 within the system
//! opcode.

use vstd::prelude::*;

verus! {

/// A CSR access operation: read-write, read-set, read-clear, each with a
/// register or a five-bit immediate source.
#[derive(Debug, Clone, Copy, PartialEq, Eq, Structural)]
pub enum ZicsrOp {
    Csrrw,
    Csrrs,
    Csrrc,
    Csrrwi,
    Csrrsi,
    Csrrci,
}

/// The CSR operation a funct3 value selects, if any.
pub open spec fn spec_zicsr_op(funct3: u8) -> Option<ZicsrOp> {
    if funct3 == 1 { Some(ZicsrOp::Csrrw) }
    else if funct3 == 2 { Some(ZicsrOp::Csrrs) }
    else if funct3 == 3 { Some(ZicsrOp::Csrrc) }
    else if funct3 == 5 { Some(ZicsrOp::Csrrwi) }
    else if funct3 == 6 { Some(ZicsrOp::Csrrsi) }
    else if funct3 == 7 { Some(ZicsrOp::Csrrci) }
    else { None }
}

impl ZicsrOp {
    /// Recognize a CSR operation from the funct3 discriminator.
    pub fn decode(funct3: u8) -> (r: Option<ZicsrOp>)
        ensures
            r == spec_zicsr_op(funct3),
    {
        match funct3 {
            0x1 => Some(ZicsrOp::Csrrw),
            0x2 => Some(ZicsrOp::Csrrs),
            0x3 => Some(ZicsrOp::Csrrc),
            0x5 => Some(ZicsrOp::Csrrwi),
            0x6 => Some(ZicsrOp::Csrrsi),
            0x7 => Some(ZicsrOp::Csrrci),
            _ => None,
        }
    }

    /// Whether the operation takes its source from the five-bit immediate
    /// rather than a register.
    pub fn is_immediate(self) -> (r: bool)
        ensures
            r == (self is Csrrwi || self is Csrrsi || self is Csrrci),
    {
        match self {
            ZicsrOp::Csrrwi | ZicsrOp::Csrrsi | ZicsrOp::Csrrci => true,
            _ => false,
        }
    }
}

} // verus!
