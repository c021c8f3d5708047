//! Configuration governance for a fixed set of validators: proposals of a new
//! network configuration, one binding vote per validator and proposal, and
//! scheduling once a Byzantine majority agrees.

pub mod primitives;
pub mod config;
pub mod errors;
pub mod schema;
pub mod transactions;
pub mod laws;
pub mod system;
