//! The hart's architectural state: privilege mode, program counter, register
//! file, CSR file, address-stage tagging, the Sv32 translator, and the CPU
//! orchestrator that drives the fetch/decode/execute/trap cycle.

pub mod privilege;
pub mod pc;
pub mod register;
pub mod access;
pub mod sv32;
pub mod mmu;
pub mod csr;
pub mod cpu;
