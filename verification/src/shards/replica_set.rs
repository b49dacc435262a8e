//! State kept for the replicas of one shard.

pub mod backoff;
pub mod clock;
pub mod pacing;
