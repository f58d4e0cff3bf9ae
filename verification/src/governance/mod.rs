//! Governance program: token-and-reputation weighted voting on proposals,
//! tallying against quorum and approval thresholds, and execution of
//! approved proposals through the other programs.

pub mod state;
pub mod cpi_helpers;
pub mod instructions;
pub mod laws;
