//! The magic numbers of the encoding: opcode values and bit-field masks.

use vstd::prelude::*;

verus! {

/// The opcode value (low seven bits of a raw word) of every supported
/// encoding.
pub struct OpCode;

impl OpCode {
    pub const ITYPE: u8 = 0x13;
    pub const ITYPE_LOAD: u8 = 0x03;
    pub const ITYPE_JUMP: u8 = 0x67;
    pub const ITYPE_SYS: u8 = 0x73;
    pub const ITYPE_FENCE: u8 = 0x0f;
    pub const RTYPE: u8 = 0x33;
    pub const STYPE: u8 = 0x23;
    pub const BTYPE: u8 = 0x63;
    pub const JTYPE: u8 = 0x6f;
    pub const UTYPE_AUIPC: u8 = 0x17;
    pub const UTYPE_LUI: u8 = 0x37;
}

/// Masks selecting the named bit ranges of a raw 32-bit word.
pub struct Bits;

impl Bits {
    pub const _31: u32 = 0x8000_0000;
    pub const _31_TO_25: u32 = 0xfe00_0000;
    pub const _31_TO_20: u32 = 0xfff0_0000;
    pub const _31_TO_12: u32 = 0xffff_f000;
    pub const _30_TO_25: u32 = 0x7e00_0000;
    pub const _30_TO_21: u32 = 0x7fe0_0000;
    pub const _24_TO_20: u32 = 0x01f0_0000;
    pub const _20: u32 = 0x0010_0000;
    pub const _19_TO_15: u32 = 0x000f_8000;
    pub const _19_TO_12: u32 = 0x000f_f000;
    pub const _14_TO_12: u32 = 0x0000_7000;
    pub const _11_TO_8: u32 = 0x0000_0f00;
    pub const _11_TO_7: u32 = 0x0000_0f80;
    pub const _7: u32 = 0x0000_0080;
    pub const _6_TO_0: u32 = 0x0000_007f;
}

} // verus!
