//! An instruction-accurate emulator core for a single 32-bit RISC-V hart:
//! bit-field decoding, the execution units, Sv32 address translation,
//! privilege and trap state, and a memory-mapped device bus, tied together
//! by a fetch → translate → decode → execute → trap cycle.

pub mod error;
pub mod exception;
pub mod isa;
pub mod word;
pub mod loader;
pub mod engine;
pub mod hart;
pub mod device;
