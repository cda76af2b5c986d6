//! A governance engine: organisations registered against a fungible token,
//! time-bounded proposals opened by an organisation's creator, and one
//! square-root-weighted vote per token holder and proposal.

pub mod engine;
pub mod error;
pub mod history;
pub mod identity;
pub mod invariants;
pub mod keys;
pub mod laws;
pub mod model;
pub mod records;
pub mod rules;
pub mod sqrt;
pub mod token;
