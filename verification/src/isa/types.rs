//! The six operand layouts of the 32-bit encodings, as decoded payloads with
//! register ids, funct discriminators and reconstructed immediates.

use vstd::prelude::*;

verus! {

/// I-type payload: register-immediate operations, loads, `jalr`, and the
/// system encodings. `imm` is bits 31:20 sign-extended.
#[derive(Debug, Clone, Copy, PartialEq, Eq, Structural)]
pub struct Itype {
    pub rd: u8,
    pub rs1: u8,
    pub funct3: u8,
    pub imm: i32,
}

/// R-type payload: register-register operations discriminated by funct3 and
/// funct7.
#[derive(Debug, Clone, Copy, PartialEq, Eq, Structural)]
pub struct Rtype {
    pub rd: u8,
    pub rs1: u8,
    pub rs2: u8,
    pub funct3: u8,
    pub funct7: u8,
}

/// S-type payload: stores. `imm` is bits 31:25 concatenated with bits 11:7,
/// sign-extended.
#[derive(Debug, Clone, Copy, PartialEq, Eq, Structural)]
pub struct Stype {
    pub rs1: u8,
    pub rs2: u8,
    pub funct3: u8,
    pub imm: i32,
}

/// B-type payload: conditional branches. `imm` is the even byte offset with
/// the implicit trailing zero bit restored, sign-extended.
#[derive(Debug, Clone, Copy, PartialEq, Eq, Structural)]
pub struct Btype {
    pub rs1: u8,
    pub rs2: u8,
    pub funct3: u8,
    pub imm: i32,
}

/// U-type payload: `lui`/`auipc`. `imm` keeps bits 31:12 in place with the
/// low twelve bits zero.
#[derive(Debug, Clone, Copy, PartialEq, Eq, Structural)]
pub struct Utype {
    pub rd: u8,
    pub imm: u32,
}

/// J-type payload: `jal`. `imm` is the even byte offset with the implicit
/// trailing zero bit restored, sign-extended.
#[derive(Debug, Clone, Copy, PartialEq, Eq, Structural)]
pub struct Jtype {
    pub rd: u8,
    pub imm: i32,
}

} // verus!
