//! The RV64I decoder-executors, one stateless unit per opcode, grouped by
//! instruction family.

pub mod branch;
pub mod jump;
pub mod load;
pub mod op;
pub mod op_imm;
pub mod store;
pub mod system;
pub mod upper;
pub mod word;
