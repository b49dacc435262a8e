//! Admission of requests: every kind of request says what it asks for, and
//! one check holds that against the policy of the collection before any
//! shard is touched. The check only reads; it changes neither the request
//! nor the policy.

use crate::operations::types::Filter;
use crate::operations::types::SearchParams;
use crate::operations::types::StrictModeConfig;
use crate::operations::types::StrictModeViolation;
use vstd::prelude::*;

pub mod discovery;
pub mod guarantees;

verus! {

/// What one request asks for, dimension by dimension. `None` means that the
/// request says nothing in that dimension.
pub struct Footprint {
    pub query_limit: Option<usize>,
    pub filter_read: Option<Filter>,
    pub filter_write: Option<Filter>,
    pub exact: Option<bool>,
    pub search_params: Option<SearchParams>,
}

impl Footprint {
    /// The footprint of a request that says nothing of its own, such as a
    /// batch, which leaves everything to its children.
    pub open spec fn silent() -> Footprint {
        Footprint {
            query_limit: None,
            filter_read: None,
            filter_write: None,
            exact: None,
            search_params: None,
        }
    }

    /// The number of conditions of the filter that is read by.
    pub open spec fn read_conditions(self) -> Option<usize> {
        match self.filter_read {
            Some(filter) => Some(filter.conditions),
            None => None,
        }
    }

    /// The number of conditions of the filter that is written by.
    pub open spec fn write_conditions(self) -> Option<usize> {
        match self.filter_write {
            Some(filter) => Some(filter.conditions),
            None => None,
        }
    }

    /// The width of exploration that is asked for.
    pub open spec fn hnsw_ef(self) -> Option<usize> {
        match self.search_params {
            Some(params) => params.hnsw_ef,
            None => None,
        }
    }
}

/// Whether a requested number goes beyond a bound: only where both are
/// there and the number is the larger.
pub open spec fn exceeds(requested: Option<usize>, bound: Option<usize>) -> bool {
    requested matches Some(value) && bound matches Some(limit) && value > limit
}

/// Whether exact search is asked for where the policy forbids it.
pub open spec fn exactness_forbidden(exact: Option<bool>, allowed: Option<bool>) -> bool {
    exact == Some(true) && allowed == Some(false)
}

/// The outcome of holding a footprint against a policy: the violation in the
/// first dimension that goes beyond it, in the order result limit, filter
/// read by, filter written by, exactness, search parameters; admission where
/// none does.
pub open spec fn resource_admission(footprint: Footprint, policy: StrictModeConfig) -> Result<
    (),
    StrictModeViolation,
> {
    if exceeds(footprint.query_limit, policy.max_query_limit) {
        Err(
            StrictModeViolation::LimitExceeded {
                requested: footprint.query_limit.unwrap(),
                limit: policy.max_query_limit.unwrap(),
            },
        )
    } else if exceeds(footprint.read_conditions(), policy.max_filter_conditions) {
        Err(
            StrictModeViolation::ReadFilterTooComplex {
                requested: footprint.read_conditions().unwrap(),
                limit: policy.max_filter_conditions.unwrap(),
            },
        )
    } else if exceeds(footprint.write_conditions(), policy.max_filter_conditions) {
        Err(
            StrictModeViolation::WriteFilterTooComplex {
                requested: footprint.write_conditions().unwrap(),
                limit: policy.max_filter_conditions.unwrap(),
            },
        )
    } else if exactness_forbidden(footprint.exact, policy.search_allow_exact) {
        Err(StrictModeViolation::ExactnessNotPermitted { exact: true, allowed: false })
    } else if exceeds(footprint.hnsw_ef(), policy.search_max_hnsw_ef) {
        Err(
            StrictModeViolation::SearchParamOutOfRange {
                requested: footprint.hnsw_ef().unwrap(),
                limit: policy.search_max_hnsw_ef.unwrap(),
            },
        )
    } else {
        Ok(())
    }
}

/// What every kind of request offers so that it can be admitted or rejected.
///
/// A plain request describes itself through the five accessors and hands
/// what they return to [`check_resources`]. A composite request says nothing
/// through the accessors and checks its children instead.
pub trait StrictModeVerification {
    /// What the request asks for; the accessors return its parts.
    spec fn footprint(&self) -> Footprint;

    /// Whether the request is admitted under `policy`, and the violation if
    /// it is not.
    spec fn admission(&self, policy: StrictModeConfig) -> Result<(), StrictModeViolation>;

    /// Most results that the request asks for.
    fn query_limit(&self) -> (limit: Option<usize>)
        ensures
            limit == self.footprint().query_limit,
    ;

    /// The filter that the request reads by.
    fn indexed_filter_read(&self) -> (filter: Option<&Filter>)
        ensures
            match filter {
                Some(read) => self.footprint().filter_read == Some(*read),
                None => self.footprint().filter_read.is_none(),
            },
    ;

    /// The filter that the request writes by.
    fn indexed_filter_write(&self) -> (filter: Option<&Filter>)
        ensures
            match filter {
                Some(write) => self.footprint().filter_write == Some(*write),
                None => self.footprint().filter_write.is_none(),
            },
    ;

    /// Whether the request asks for exact search.
    fn request_exact(&self) -> (exact: Option<bool>)
        ensures
            exact == self.footprint().exact,
    ;

    /// The search parameters that the request sets.
    fn request_search_params(&self) -> (params: Option<&SearchParams>)
        ensures
            match params {
                Some(set) => self.footprint().search_params == Some(*set),
                None => self.footprint().search_params.is_none(),
            },
    ;

    /// Admits the request or rejects it with the first violation.
    fn check_strict_mode(&self, policy: &StrictModeConfig) -> (outcome: Result<
        (),
        StrictModeViolation,
    >)
        ensures
            outcome == self.admission(*policy),
    ;
}

/// Rejects a requested number that goes beyond its bound.
pub fn check_limit_opt(requested: Option<usize>, bound: Option<usize>) -> (beyond: Option<
    (usize, usize),
>)
    ensures
        beyond.is_some() == exceeds(requested, bound),
        beyond matches Some(pair) ==> requested == Some(pair.0) && bound == Some(pair.1),
{
    match (requested, bound) {
        (Some(value), Some(limit)) => {
            if value > limit {
                Some((value, limit))
            } else {
                None
            }
        },
        _ => None,
    }
}

/// What an accessor has returned, as a value of its own.
pub open spec fn owned<T>(borrowed: Option<&T>) -> Option<T> {
    match borrowed {
        Some(value) => Some(*value),
        None => None,
    }
}

/// Holds what a request says of itself against `policy`, one dimension after
/// the other, and stops at the first that goes beyond it. The conditions of
/// a filter are counted only where the policy bounds them.
pub fn check_resources(
    query_limit: Option<usize>,
    filter_read: Option<&Filter>,
    filter_write: Option<&Filter>,
    exact: Option<bool>,
    search_params: Option<&SearchParams>,
    policy: &StrictModeConfig,
) -> (outcome: Result<(), StrictModeViolation>)
    ensures
        outcome == resource_admission(
            Footprint {
                query_limit,
                filter_read: owned(filter_read),
                filter_write: owned(filter_write),
                exact,
                search_params: owned(search_params),
            },
            *policy,
        ),
{
    if let Some((requested, limit)) = check_limit_opt(query_limit, policy.max_query_limit) {
        return Err(StrictModeViolation::LimitExceeded { requested, limit });
    }
    if policy.limits_filter_conditions() {
        if let Some(filter) = filter_read {
            if let Some((requested, limit)) = check_limit_opt(
                Some(filter.total_conditions_count()),
                policy.max_filter_conditions,
            ) {
                return Err(StrictModeViolation::ReadFilterTooComplex { requested, limit });
            }
        }
        if let Some(filter) = filter_write {
            if let Some((requested, limit)) = check_limit_opt(
                Some(filter.total_conditions_count()),
                policy.max_filter_conditions,
            ) {
                return Err(StrictModeViolation::WriteFilterTooComplex { requested, limit });
            }
        }
    }
    if let Some(exact) = exact {
        if let Some(allowed) = policy.search_allow_exact {
            if exact && !allowed {
                return Err(StrictModeViolation::ExactnessNotPermitted { exact, allowed });
            }
        }
    }
    if let Some(params) = search_params {
        if let Some((requested, limit)) = check_limit_opt(
            params.hnsw_ef,
            policy.search_max_hnsw_ef,
        ) {
            return Err(StrictModeViolation::SearchParamOutOfRange { requested, limit });
        }
    }
    Ok(())
}

} // verus!
