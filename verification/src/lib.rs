//! Verified core of a time-of-flight sensor array pipeline: bus address
//! allocation, enable-line discovery sequencing, a shared state store with
//! latest-value broadcast, the per-tick read cycle, obstruction derivation,
//! and the wait-time estimation strategies.

pub mod api;
pub mod config;
pub mod errors;
pub mod estimation;
pub mod mock;
pub mod readings;
pub mod sensor;
pub mod state;
pub mod text;
pub mod xshut;

use vstd::prelude::*;

verus! {

} // verus!
