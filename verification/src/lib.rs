//! Verified models of the ArenaX analytics and treasury contracts.
use vstd::prelude::*;

pub mod digest;
pub mod ids;
pub mod table;
pub mod analytics;
pub mod treasury;

verus! {
} // verus!
