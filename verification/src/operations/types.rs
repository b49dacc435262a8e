//! The requests that are checked for admission, the limits they are checked
//! against, and the violation that a rejected request is answered with. Each
//! type holds what admission reads and nothing else.

use vstd::prelude::*;

verus! {

/// A filter on the points of a collection, known by the number of conditions
/// in its whole tree.
#[derive(Clone, Copy, Debug, PartialEq, Eq, Structural)]
pub struct Filter {
    pub conditions: usize,
}

impl Filter {
    /// A filter with `conditions` conditions in all.
    pub fn with_conditions(conditions: usize) -> (filter: Filter)
        ensures
            filter.conditions == conditions,
    {
        Filter { conditions }
    }

    /// The number of conditions in the whole filter.
    pub fn total_conditions_count(&self) -> (count: usize)
        ensures
            count == self.conditions,
    {
        self.conditions
    }
}

/// The knobs of a search that a request may turn.
#[derive(Clone, Copy, Debug, PartialEq, Eq, Structural)]
pub struct SearchParams {
    /// Width of the exploration of the index; wider is slower and more
    /// precise.
    pub hnsw_ef: Option<usize>,
}

/// The limits that an administrator has set for one collection. A field that
/// is `None` sets no limit.
#[derive(Clone, Copy, Debug, PartialEq, Eq, Structural)]
pub struct StrictModeConfig {
    /// Most results that one request may ask for.
    pub max_query_limit: Option<usize>,
    /// Most conditions that one filter may hold, for reading and for writing
    /// alike.
    pub max_filter_conditions: Option<usize>,
    /// Whether exact search is permitted; only `Some(false)` forbids it.
    pub search_allow_exact: Option<bool>,
    /// Widest exploration of the index that a request may ask for.
    pub search_max_hnsw_ef: Option<usize>,
}

impl StrictModeConfig {
    /// The policy that sets no limit at all.
    pub open spec fn unlimited() -> StrictModeConfig {
        StrictModeConfig {
            max_query_limit: None,
            max_filter_conditions: None,
            search_allow_exact: None,
            search_max_hnsw_ef: None,
        }
    }

    /// Whether the conditions of a filter have to be counted: only where the
    /// policy bounds them.
    pub fn limits_filter_conditions(&self) -> (limited: bool)
        ensures
            limited == self.max_filter_conditions.is_some(),
    {
        self.max_filter_conditions.is_some()
    }
}

impl Default for StrictModeConfig {
    fn default() -> (policy: Self)
        ensures
            policy == StrictModeConfig::unlimited(),
    {
        StrictModeConfig {
            max_query_limit: None,
            max_filter_conditions: None,
            search_allow_exact: None,
            search_max_hnsw_ef: None,
        }
    }
}

/// Why a request was rejected: the dimension in which it went beyond the
/// policy, with what it asked for and what the policy allows.
#[derive(Clone, Copy, Debug, PartialEq, Eq, Structural)]
pub enum StrictModeViolation {
    /// More results were asked for than the policy allows.
    LimitExceeded { requested: usize, limit: usize },
    /// The filter that the request reads by holds too many conditions.
    ReadFilterTooComplex { requested: usize, limit: usize },
    /// The filter that the request writes by holds too many conditions.
    WriteFilterTooComplex { requested: usize, limit: usize },
    /// Exact search was asked for and the policy forbids it.
    ExactnessNotPermitted { exact: bool, allowed: bool },
    /// The exploration of the index was asked to be wider than the policy
    /// allows.
    SearchParamOutOfRange { requested: usize, limit: usize },
}

/// A discovery query for one collection.
#[derive(Clone, Debug)]
pub struct DiscoverRequestInternal {
    /// Look only for points that satisfy these conditions.
    pub filter: Option<Filter>,
    /// Additional search parameters.
    pub params: Option<SearchParams>,
    /// Most results to return.
    pub limit: usize,
}

/// One discovery query of a batch.
#[derive(Clone, Debug)]
pub struct DiscoverRequest {
    pub discover_request: DiscoverRequestInternal,
}

/// Discovery queries that are sent, admitted and answered together.
#[derive(Clone, Debug)]
pub struct DiscoverRequestBatch {
    pub searches: Vec<DiscoverRequest>,
}

} // verus!
