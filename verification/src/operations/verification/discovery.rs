//! Admission of discovery queries, alone and in batches.

use crate::operations::types::DiscoverRequest;
use crate::operations::types::DiscoverRequestBatch;
use crate::operations::types::DiscoverRequestInternal;
use crate::operations::types::Filter;
use crate::operations::types::SearchParams;
use crate::operations::types::StrictModeConfig;
use crate::operations::types::StrictModeViolation;
use crate::operations::verification::check_resources;
use crate::operations::verification::resource_admission;
use crate::operations::verification::Footprint;
use crate::operations::verification::StrictModeVerification;
use vstd::prelude::*;

verus! {

impl StrictModeVerification for DiscoverRequestInternal {
    open spec fn footprint(&self) -> Footprint {
        Footprint {
            query_limit: Some(self.limit),
            filter_read: self.filter,
            filter_write: None,
            exact: None,
            search_params: self.params,
        }
    }

    open spec fn admission(&self, policy: StrictModeConfig) -> Result<(), StrictModeViolation> {
        resource_admission(self.footprint(), policy)
    }

    fn query_limit(&self) -> (limit: Option<usize>) {
        Some(self.limit)
    }

    fn indexed_filter_read(&self) -> (filter: Option<&Filter>) {
        self.filter.as_ref()
    }

    fn indexed_filter_write(&self) -> (filter: Option<&Filter>) {
        None
    }

    fn request_exact(&self) -> (exact: Option<bool>) {
        None
    }

    fn request_search_params(&self) -> (params: Option<&SearchParams>) {
        self.params.as_ref()
    }

    fn check_strict_mode(&self, policy: &StrictModeConfig) -> (outcome: Result<
        (),
        StrictModeViolation,
    >) {
        check_resources(
            self.query_limit(),
            self.indexed_filter_read(),
            self.indexed_filter_write(),
            self.request_exact(),
            self.request_search_params(),
            policy,
        )
    }
}

/// The first child of `searches` that `policy` rejects, with its place in
/// the batch and its violation; `None` where every child is admitted.
pub open spec fn first_violation(searches: Seq<DiscoverRequest>, policy: StrictModeConfig) -> Option<
    (int, StrictModeViolation),
>
    decreases searches.len(),
{
    if searches.len() == 0 {
        None
    } else {
        match first_violation(searches.drop_last(), policy) {
            Some(found) => Some(found),
            None => match searches.last().discover_request.admission(policy) {
                Err(violation) => Some((searches.len() - 1, violation)),
                Ok(_) => None,
            },
        }
    }
}

impl DiscoverRequestBatch {
    /// Checks the children in their order and stops at the first that is
    /// rejected: returns its place in the batch and its violation, or `None`
    /// where every child is admitted.
    pub fn first_violation(&self, policy: &StrictModeConfig) -> (found: Option<
        (usize, StrictModeViolation),
    >)
        ensures
            match found {
                Some((index, violation)) => first_violation(self.searches@, *policy) == Some(
                    (index as int, violation),
                ),
                None => first_violation(self.searches@, *policy).is_none(),
            },
    {
        let mut i: usize = 0;
        while i < self.searches.len()
            invariant
                i <= self.searches.len(),
                first_violation(self.searches@.take(i as int), *policy).is_none(),
            decreases self.searches.len() - i,
        {
            assert(self.searches@.take(i + 1).drop_last() == self.searches@.take(i as int));
            if let Err(violation) = self.searches[i].discover_request.check_strict_mode(policy) {
                proof {
                    lemma_found_stays_first(self.searches@, *policy, i + 1);
                }
                return Some((i, violation));
            }
            i += 1;
        }
        assert(self.searches@.take(i as int) == self.searches@);
        None
    }
}

/// A child that is the first to be rejected among the first `len` children
/// is the first to be rejected in the whole batch.
pub proof fn lemma_found_stays_first(searches: Seq<DiscoverRequest>, policy: StrictModeConfig, len: int)
    requires
        0 <= len <= searches.len(),
        first_violation(searches.take(len), policy).is_some(),
    ensures
        first_violation(searches, policy) == first_violation(searches.take(len), policy),
    decreases searches.len() - len,
{
    if len < searches.len() {
        assert(searches.take(len + 1).drop_last() == searches.take(len));
        lemma_found_stays_first(searches, policy, len + 1);
    } else {
        assert(searches.take(len) == searches);
    }
}

impl StrictModeVerification for DiscoverRequestBatch {
    open spec fn footprint(&self) -> Footprint {
        Footprint::silent()
    }

    open spec fn admission(&self, policy: StrictModeConfig) -> Result<(), StrictModeViolation> {
        match first_violation(self.searches@, policy) {
            Some(found) => Err(found.1),
            None => Ok(()),
        }
    }

    fn check_strict_mode(&self, policy: &StrictModeConfig) -> (outcome: Result<
        (),
        StrictModeViolation,
    >) {
        match self.first_violation(policy) {
            Some((_, violation)) => Err(violation),
            None => Ok(()),
        }
    }

    fn query_limit(&self) -> (limit: Option<usize>) {
        None
    }

    fn indexed_filter_read(&self) -> (filter: Option<&Filter>) {
        None
    }

    fn indexed_filter_write(&self) -> (filter: Option<&Filter>) {
        None
    }

    fn request_exact(&self) -> (exact: Option<bool>) {
        None
    }

    fn request_search_params(&self) -> (params: Option<&SearchParams>) {
        None
    }
}

} // verus!
