//! The decoded instruction: one variant per supported opcode, each carrying
//! its operand layout.

use vstd::prelude::*;
use crate::isa::types::{Itype, Rtype, Stype, Btype, Utype, Jtype};

verus! {

/// A decoded instruction, tagged by the opcode it came from.
#[derive(Debug, Clone, Copy, PartialEq, Eq, Structural)]
pub enum Instruction {
    Itype(Itype),
    ItypeLoad(Itype),
    ItypeJump(Itype),
    ItypeSys(Itype),
    ItypeFence(Itype),
    Rtype(Rtype),
    Stype(Stype),
    Btype(Btype),
    UtypeAUIPC(Utype),
    UtypeLUI(Utype),
    Jtype(Jtype),
}

} // verus!
