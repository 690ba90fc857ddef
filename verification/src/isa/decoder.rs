//! The bit-field decoder: turns a raw 32-bit word into a tagged instruction
//! with extracted operand fields and sign-extended immediates.

use vstd::prelude::*;
use crate::error::RiscVError;
use crate::isa::opcode::{OpCode, Bits};
use crate::isa::types::{Itype, Rtype, Stype, Btype, Utype, Jtype};
use crate::isa::instruction::Instruction;

verus! {

/// The opcode: the low seven bits of the raw word.
pub open spec fn opcode_of(w: u32) -> u8 {
    (w & 0x7f) as u8
}

/// The destination register id: bits 11:7.
pub open spec fn rd_of(w: u32) -> u8 {
    ((w >> 7) & 0x1f) as u8
}

/// The first source register id: bits 19:15.
pub open spec fn rs1_of(w: u32) -> u8 {
    ((w >> 15) & 0x1f) as u8
}

/// The second source register id: bits 24:20.
pub open spec fn rs2_of(w: u32) -> u8 {
    ((w >> 20) & 0x1f) as u8
}

/// The funct3 discriminator: bits 14:12.
pub open spec fn funct3_of(w: u32) -> u8 {
    ((w >> 12) & 0x7) as u8
}

/// The funct7 discriminator: bits 31:25.
pub open spec fn funct7_of(w: u32) -> u8 {
    ((w >> 25) & 0x7f) as u8
}

/// The I-type immediate: bits 31:20 read as a signed twelve-bit value.
pub open spec fn i_imm_of(w: u32) -> int {
    if w >= 0x8000_0000 {
        (w >> 20) - 4096
    } else {
        (w >> 20) as int
    }
}

/// The S-type immediate: bits 31:25 over bits 11:7, read as a signed
/// twelve-bit value.
pub open spec fn s_imm_of(w: u32) -> int {
    let low = ((w >> 7) & 0x1f) as int;
    let high = ((w >> 25) & 0x7f) as int;
    if w >= 0x8000_0000 {
        high * 32 + low - 4096
    } else {
        high * 32 + low
    }
}

/// The B-type immediate: bit 31, bit 7, bits 30:25, bits 11:8 reassembled
/// with the implicit trailing zero bit, read as a signed thirteen-bit value.
pub open spec fn b_imm_of(w: u32) -> int {
    let sign: int = if w >= 0x8000_0000 { -4096 } else { 0 };
    sign + ((w >> 7) & 1) * 2048 + ((w >> 25) & 0x3f) * 32 + ((w >> 8) & 0xf) * 2
}

/// The U-type immediate: bits 31:12 left in place, zero below.
pub open spec fn u_imm_of(w: u32) -> u32 {
    w & 0xffff_f000
}

/// The J-type immediate: bit 31, bits 19:12, bit 20, bits 30:21 reassembled
/// with the implicit trailing zero bit, read as a signed 21-bit value.
pub open spec fn j_imm_of(w: u32) -> int {
    let sign: int = if w >= 0x8000_0000 { -1048576 } else { 0 };
    sign + ((w >> 12) & 0xff) * 4096 + ((w >> 20) & 1) * 2048 + ((w >> 21) & 0x3ff) * 2
}

/// What `decode` returns on every raw word: the tagged payload for each of
/// the known opcodes, and an error carrying the opcode byte for all others.
pub open spec fn spec_decode(w: u32) -> Result<Instruction, RiscVError> {
    let op = opcode_of(w);
    if op == OpCode::ITYPE {
        Ok(Instruction::Itype(Itype {
            rd: rd_of(w), rs1: rs1_of(w), funct3: funct3_of(w), imm: i_imm_of(w) as i32,
        }))
    } else if op == OpCode::ITYPE_LOAD {
        Ok(Instruction::ItypeLoad(Itype {
            rd: rd_of(w), rs1: rs1_of(w), funct3: funct3_of(w), imm: i_imm_of(w) as i32,
        }))
    } else if op == OpCode::ITYPE_JUMP {
        Ok(Instruction::ItypeJump(Itype {
            rd: rd_of(w), rs1: rs1_of(w), funct3: funct3_of(w), imm: i_imm_of(w) as i32,
        }))
    } else if op == OpCode::ITYPE_SYS {
        Ok(Instruction::ItypeSys(Itype {
            rd: rd_of(w), rs1: rs1_of(w), funct3: funct3_of(w), imm: i_imm_of(w) as i32,
        }))
    } else if op == OpCode::ITYPE_FENCE {
        Ok(Instruction::ItypeFence(Itype {
            rd: rd_of(w), rs1: rs1_of(w), funct3: funct3_of(w), imm: i_imm_of(w) as i32,
        }))
    } else if op == OpCode::RTYPE {
        Ok(Instruction::Rtype(Rtype {
            rd: rd_of(w), rs1: rs1_of(w), rs2: rs2_of(w),
            funct3: funct3_of(w), funct7: funct7_of(w),
        }))
    } else if op == OpCode::STYPE {
        Ok(Instruction::Stype(Stype {
            rs1: rs1_of(w), rs2: rs2_of(w), funct3: funct3_of(w), imm: s_imm_of(w) as i32,
        }))
    } else if op == OpCode::BTYPE {
        Ok(Instruction::Btype(Btype {
            rs1: rs1_of(w), rs2: rs2_of(w), funct3: funct3_of(w), imm: b_imm_of(w) as i32,
        }))
    } else if op == OpCode::JTYPE {
        Ok(Instruction::Jtype(Jtype { rd: rd_of(w), imm: j_imm_of(w) as i32 }))
    } else if op == OpCode::UTYPE_LUI {
        Ok(Instruction::UtypeLUI(Utype { rd: rd_of(w), imm: u_imm_of(w) }))
    } else if op == OpCode::UTYPE_AUIPC {
        Ok(Instruction::UtypeAUIPC(Utype { rd: rd_of(w), imm: u_imm_of(w) }))
    } else {
        Err(RiscVError::NotImplementedOpCode(op))
    }
}

/// Whether the opcode byte selects one of the supported encodings.
pub open spec fn is_known_opcode(op: u8) -> bool {
    op == OpCode::ITYPE || op == OpCode::ITYPE_LOAD || op == OpCode::ITYPE_JUMP
        || op == OpCode::ITYPE_SYS || op == OpCode::ITYPE_FENCE || op == OpCode::RTYPE
        || op == OpCode::STYPE || op == OpCode::BTYPE || op == OpCode::JTYPE
        || op == OpCode::UTYPE_LUI || op == OpCode::UTYPE_AUIPC
}

/// Decode totality: whatever the raw word, every extracted field is in its
/// architectural range (register ids below 32, immediates within their
/// signed widths, B- and J-type immediates even, U-type immediates with the
/// low twelve bits clear), and the word decodes to the payload of its opcode
/// exactly when that opcode is known — otherwise to an error carrying that
/// very opcode byte, never an unrelated variant.
pub proof fn lemma_decode_total(w: u32)
    ensures
        opcode_of(w) < 128,
        rd_of(w) < 32,
        rs1_of(w) < 32,
        rs2_of(w) < 32,
        funct3_of(w) < 8,
        funct7_of(w) < 128,
        -2048 <= i_imm_of(w) < 2048,
        -2048 <= s_imm_of(w) < 2048,
        -4096 <= b_imm_of(w) < 4096 && b_imm_of(w) % 2 == 0,
        -1048576 <= j_imm_of(w) < 1048576 && j_imm_of(w) % 2 == 0,
        u_imm_of(w) % 4096 == 0,
        is_known_opcode(opcode_of(w)) <==> spec_decode(w) is Ok,
        !is_known_opcode(opcode_of(w))
            ==> spec_decode(w) == Err::<Instruction, RiscVError>(
                RiscVError::NotImplementedOpCode(opcode_of(w))),
{
    assert((w & 0x7f) < 128
        && ((w >> 7) & 0x1f) < 32
        && ((w >> 15) & 0x1f) < 32
        && ((w >> 20) & 0x1f) < 32
        && ((w >> 12) & 0x7) < 8
        && ((w >> 25) & 0x7f) < 128) by (bit_vector);
    assert((w >> 20) < 4096 && (w >= 0x8000_0000u32 ==> (w >> 20) >= 2048)
        && (w < 0x8000_0000u32 ==> (w >> 20) < 2048)) by (bit_vector);
    assert(((w >> 25) & 0x7f) < 128 && ((w >> 7) & 0x1f) < 32
        && (w >= 0x8000_0000u32 ==> ((w >> 25) & 0x7f) >= 64)
        && (w < 0x8000_0000u32 ==> ((w >> 25) & 0x7f) < 64)) by (bit_vector);
    assert(((w >> 7) & 1) < 2 && ((w >> 25) & 0x3f) < 64 && ((w >> 8) & 0xf) < 16
        && (w >= 0x8000_0000u32 ==> ((w >> 7) & 1) * 2048 + ((w >> 25) & 0x3f) * 32
            + ((w >> 8) & 0xf) * 2 < 4096)) by (bit_vector);
    assert(((w >> 12) & 0xff) < 256 && ((w >> 20) & 1) < 2 && ((w >> 21) & 0x3ff) < 1024)
        by (bit_vector);
    assert((w & 0xffff_f000) % 4096 == 0) by (bit_vector);
}

/// Turn a raw 32-bit word into the corresponding `Instruction`, or report
/// the unknown opcode byte.
pub fn decode(ins: u32) -> (r: Result<Instruction, RiscVError>)
    ensures
        r == spec_decode(ins),
{
    let opcode = (ins & Bits::_6_TO_0) as u8;
    let rd = ((ins & Bits::_11_TO_7) >> 7) as u8;
    let rs1 = ((ins & Bits::_19_TO_15) >> 15) as u8;
    let rs2 = ((ins & Bits::_24_TO_20) >> 20) as u8;
    let funct3 = ((ins & Bits::_14_TO_12) >> 12) as u8;
    let funct7 = ((ins & Bits::_31_TO_25) >> 25) as u8;

    proof {
        assert(((ins & 0x7fu32) as u8) == opcode_of(ins)
            && (((ins & 0xf80u32) >> 7) as u8) == rd_of(ins)
            && (((ins & 0xf8000u32) >> 15) as u8) == rs1_of(ins)
            && (((ins & 0x1f00000u32) >> 20) as u8) == rs2_of(ins)
            && (((ins & 0x7000u32) >> 12) as u8) == funct3_of(ins)
            && (((ins & 0xfe000000u32) >> 25) as u8) == funct7_of(ins)) by (bit_vector);
    }

    if opcode == OpCode::ITYPE {
        let imm = ((ins & Bits::_31_TO_20) as i32) >> 20;
        proof {
            assert((((ins & 0xfff00000u32) as i32) >> 20) as int == i_imm_of(ins))
                by (bit_vector);
        }
        Ok(Instruction::Itype(Itype { rd, rs1, funct3, imm }))
    } else if opcode == OpCode::ITYPE_LOAD {
        let imm = ((ins & Bits::_31_TO_20) as i32) >> 20;
        proof {
            assert((((ins & 0xfff00000u32) as i32) >> 20) as int == i_imm_of(ins))
                by (bit_vector);
        }
        Ok(Instruction::ItypeLoad(Itype { rd, rs1, funct3, imm }))
    } else if opcode == OpCode::ITYPE_JUMP {
        let imm = ((ins & Bits::_31_TO_20) as i32) >> 20;
        proof {
            assert((((ins & 0xfff00000u32) as i32) >> 20) as int == i_imm_of(ins))
                by (bit_vector);
        }
        Ok(Instruction::ItypeJump(Itype { rd, rs1, funct3, imm }))
    } else if opcode == OpCode::ITYPE_SYS {
        let imm = ((ins & Bits::_31_TO_20) as i32) >> 20;
        proof {
            assert((((ins & 0xfff00000u32) as i32) >> 20) as int == i_imm_of(ins))
                by (bit_vector);
        }
        Ok(Instruction::ItypeSys(Itype { rd, rs1, funct3, imm }))
    } else if opcode == OpCode::ITYPE_FENCE {
        let imm = ((ins & Bits::_31_TO_20) as i32) >> 20;
        proof {
            assert((((ins & 0xfff00000u32) as i32) >> 20) as int == i_imm_of(ins))
                by (bit_vector);
        }
        Ok(Instruction::ItypeFence(Itype { rd, rs1, funct3, imm }))
    } else if opcode == OpCode::RTYPE {
        Ok(Instruction::Rtype(Rtype { rd, rs1, rs2, funct3, funct7 }))
    } else if opcode == OpCode::STYPE {
        let imm = (((ins & Bits::_31_TO_25) as i32) >> 20)
            | (((ins & Bits::_11_TO_7) >> 7) as i32);
        proof {
            assert(((((ins & 0xfe000000u32) as i32) >> 20)
                | (((ins & 0xf80u32) >> 7) as i32)) as int == s_imm_of(ins))
                by (bit_vector);
        }
        Ok(Instruction::Stype(Stype { rs1, rs2, funct3, imm }))
    } else if opcode == OpCode::BTYPE {
        let imm = (((ins & Bits::_31) as i32) >> 19)
            | ((((ins & Bits::_7) << 4)
                | ((ins & Bits::_30_TO_25) >> 20)
                | ((ins & Bits::_11_TO_8) >> 7)) as i32);
        proof {
            assert(((((ins & 0x80000000u32) as i32) >> 19)
                | ((((ins & 0x80u32) << 4)
                    | ((ins & 0x7e000000u32) >> 20)
                    | ((ins & 0xf00u32) >> 7)) as i32)) as int == b_imm_of(ins))
                by (bit_vector);
        }
        Ok(Instruction::Btype(Btype { rs1, rs2, funct3, imm }))
    } else if opcode == OpCode::JTYPE {
        let imm = (((ins & Bits::_31) as i32) >> 11)
            | (((ins & Bits::_19_TO_12)
                | ((ins & Bits::_20) >> 9)
                | ((ins & Bits::_30_TO_21) >> 20)) as i32);
        proof {
            assert(((((ins & 0x80000000u32) as i32) >> 11)
                | (((ins & 0xff000u32)
                    | ((ins & 0x100000u32) >> 9)
                    | ((ins & 0x7fe00000u32) >> 20)) as i32)) as int == j_imm_of(ins))
                by (bit_vector);
        }
        Ok(Instruction::Jtype(Jtype { rd, imm }))
    } else if opcode == OpCode::UTYPE_LUI {
        let imm = ins & Bits::_31_TO_12;
        Ok(Instruction::UtypeLUI(Utype { rd, imm }))
    } else if opcode == OpCode::UTYPE_AUIPC {
        let imm = ins & Bits::_31_TO_12;
        Ok(Instruction::UtypeAUIPC(Utype { rd, imm }))
    } else {
        Err(RiscVError::NotImplementedOpCode(opcode))
    }
}

} // verus!
