//! The instruction-set layer: raw-word bit layout, the decoded instruction
//! forms, and the bit-field decoder.

pub mod opcode;
pub mod types;
pub mod instruction;
pub mod decoder;
pub mod csr_addr;
pub mod privileged;
pub mod zicsr;
