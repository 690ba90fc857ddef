//! The stateless execution units: ALU, branch comparator, and load/store
//! unit. Each computes values from already-read operands; none owns state.

pub mod alu;
pub mod branch;
pub mod lsu;
