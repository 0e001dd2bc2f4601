//! Presence relay engine: a TTL-aware presence cache, per-user latest-value
//! subscription cells, per-address admission control and the per-connection
//! delivery state machine built on them.
pub mod presence;
pub mod shared_map;
pub mod cache;
pub mod registry;
pub mod admission;
pub mod session;
pub mod gateway;
pub mod lookup;
pub mod laws;
