//! The metering engine: abstract sizes, the cost table, the stack effect of
//! each simple instruction, and the meter itself.

pub mod charging;
pub mod cost_table;
pub mod instruction;
pub mod laws;
pub mod meter;
pub mod size;
