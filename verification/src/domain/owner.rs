//! Owners and what belongs to them.

pub mod owners;
pub mod types;
