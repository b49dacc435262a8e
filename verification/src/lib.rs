//! Control layer for queries against a sharded, replicated collection:
//! admission of requests against the resource limits that an administrator
//! has configured, retry pacing per remote peer, and the shape of the
//! telemetry that is reported about collections.

pub mod operations;
pub mod shards;
pub mod telemetry;
