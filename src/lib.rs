//! Coordination logic for a two-player hidden-placement duel whose hits are
//! decided by a secure comparison computed over concealed values.
//!
//! The secret computation engine stays outside: each handler takes what the
//! engine reported and returns the next record and the request to hand back.
pub mod types;
pub mod duel;
pub mod zk_compute;
pub mod laws;
