//! The multi-signature treasury: signers and threshold, time-locked spending
//! proposals, budget allocation voting and time-lock duration governance.
pub mod types;
pub mod model;
pub mod contract;
pub mod proposals;
pub mod governance;
pub mod laws;
pub mod totals;
