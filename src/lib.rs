//! Pending-block provider: derives the next block's environment from its
//! parent, serves the latest committed block as the pending view when no
//! build is cached, and keeps at most one built pending block per chain tip.

pub mod attributes;
pub mod cache;
pub mod fallback;
pub mod store;
pub mod types;
