//! An access-controlled byte record: one stored payload guarded by a dynamic
//! admin set, mutated only through atomic check-then-write operations.

pub mod contract;
pub mod error;
pub mod laws;
pub mod msg;
pub mod state;
