//! The branch comparator: the six conditions deciding whether a conditional
//! branch is taken.

use vstd::prelude::*;
use crate::error::RiscVError;
use crate::isa::opcode::OpCode;
use crate::word::as_signed;

verus! {

/// The take-branch decision for a defined branch funct3, if there is one.
pub open spec fn spec_branch(data1: u32, data2: u32, funct3: u8) -> Option<bool> {
    if funct3 == 0 { Some(data1 == data2) }
    else if funct3 == 1 { Some(data1 != data2) }
    else if funct3 == 4 { Some(as_signed(data1) < as_signed(data2)) }
    else if funct3 == 5 { Some(as_signed(data1) >= as_signed(data2)) }
    else if funct3 == 6 { Some(data1 < data2) }
    else if funct3 == 7 { Some(data1 >= data2) }
    else { None }
}

/// Decide a conditional branch: equal, not-equal, signed/unsigned less-than,
/// signed/unsigned greater-or-equal; any other funct3 is undefined and
/// reported with the branch opcode.
pub fn branch(data1: u32, data2: u32, funct3: u8) -> (r: Result<bool, RiscVError>)
    ensures
        match spec_branch(data1, data2, funct3) {
            Some(taken) => r == Ok::<bool, RiscVError>(taken),
            None => r == Err::<bool, RiscVError>(
                RiscVError::NotImplementedFunc(OpCode::BTYPE, funct3)),
        },
{
    proof {
        crate::word::lemma_u32_to_i32(data1);
        crate::word::lemma_u32_to_i32(data2);
    }
    match funct3 {
        0x0 => Ok(data1 == data2),
        0x1 => Ok(data1 != data2),
        0x4 => Ok((data1 as i32) < (data2 as i32)),
        0x5 => Ok((data1 as i32) >= (data2 as i32)),
        0x6 => Ok(data1 < data2),
        0x7 => Ok(data1 >= data2),
        not_exist_funct => Err(RiscVError::NotImplementedFunc(OpCode::BTYPE, not_exist_funct)),
    }
}

} // verus!
