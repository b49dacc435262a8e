use vstd::prelude::*;

verus! {

/// Identity of one peer of the cluster.
pub type PeerId = u64;

} // verus!
