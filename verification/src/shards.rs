//! Shards, their replicas and the peers that hold them.

pub mod replica_set;
pub mod shard;
