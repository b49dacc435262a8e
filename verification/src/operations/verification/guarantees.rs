//! What admission guarantees, stated over its model and proved from it.

use crate::operations::types::DiscoverRequest;
use crate::operations::types::DiscoverRequestBatch;
use crate::operations::types::DiscoverRequestInternal;
use crate::operations::types::StrictModeConfig;
use crate::operations::types::StrictModeViolation;
use crate::operations::verification::discovery::first_violation;
use crate::operations::verification::discovery::lemma_found_stays_first;
use crate::operations::verification::exactness_forbidden;
use crate::operations::verification::exceeds;
use crate::operations::verification::resource_admission;
use crate::operations::verification::Footprint;
use crate::operations::verification::StrictModeVerification;
use vstd::prelude::*;

verus! {

/// Whether a request stays within the policy in every dimension but the
/// number of results.
pub open spec fn within_other_bounds(footprint: Footprint, policy: StrictModeConfig) -> bool {
    &&& !exceeds(footprint.read_conditions(), policy.max_filter_conditions)
    &&& !exceeds(footprint.write_conditions(), policy.max_filter_conditions)
    &&& !exactness_forbidden(footprint.exact, policy.search_allow_exact)
    &&& !exceeds(footprint.hnsw_ef(), policy.search_max_hnsw_ef)
}

/// A request that asks for `requested` results is rejected for its limit
/// exactly when the policy sets a maximum and `requested` is above it; the
/// violation then names both. Where no other dimension goes beyond the
/// policy, the request is admitted exactly when the maximum is unset or not
/// below `requested`.
pub proof fn limit_is_enforced(footprint: Footprint, policy: StrictModeConfig, requested: usize)
    requires
        footprint.query_limit == Some(requested),
    ensures
        match policy.max_query_limit {
            Some(limit) => if requested > limit {
                resource_admission(footprint, policy) == Err::<(), StrictModeViolation>(
                    StrictModeViolation::LimitExceeded { requested, limit },
                )
            } else {
                !(resource_admission(footprint, policy) matches Err(
                    StrictModeViolation::LimitExceeded { .. },
                ))
            },
            None => !(resource_admission(footprint, policy) matches Err(
                StrictModeViolation::LimitExceeded { .. },
            )),
        },
        within_other_bounds(footprint, policy) ==> (resource_admission(footprint, policy).is_ok()
            <==> (policy.max_query_limit matches Some(limit) ==> requested <= limit)),
{
}

/// A discovery query with limit `L` that stays within the policy in every
/// other dimension is admitted exactly when the maximum `M` of the policy
/// is unset or `L <= M`, and is else rejected for its limit, with `L` and
/// `M` named.
pub proof fn discovery_limit_is_enforced(request: DiscoverRequestInternal, policy: StrictModeConfig)
    requires
        within_other_bounds(request.footprint(), policy),
    ensures
        request.admission(policy).is_ok() <==> (policy.max_query_limit matches Some(limit)
            ==> request.limit <= limit),
        request.admission(policy).is_err() ==> request.admission(policy) == Err::<
            (),
            StrictModeViolation,
        >(
            StrictModeViolation::LimitExceeded {
                requested: request.limit,
                limit: policy.max_query_limit.unwrap(),
            },
        ),
{
}

/// A dimension that the policy leaves unset rejects nothing: no violation
/// names it, whatever the request asks for there, and the outcome is the
/// same for every value that the request could hold in it. The policy that
/// sets nothing admits every request.
pub proof fn unset_dimension_is_permissive(
    footprint: Footprint,
    other: Footprint,
    policy: StrictModeConfig,
)
    ensures
        policy.max_query_limit.is_none() ==> {
            &&& !(resource_admission(footprint, policy) matches Err(
                StrictModeViolation::LimitExceeded { .. },
            ))
            &&& resource_admission(footprint, policy) == resource_admission(
                Footprint { query_limit: other.query_limit, ..footprint },
                policy,
            )
        },
        policy.max_filter_conditions.is_none() ==> {
            &&& !(resource_admission(footprint, policy) matches Err(
                StrictModeViolation::ReadFilterTooComplex { .. },
            ))
            &&& !(resource_admission(footprint, policy) matches Err(
                StrictModeViolation::WriteFilterTooComplex { .. },
            ))
            &&& resource_admission(footprint, policy) == resource_admission(
                Footprint {
                    filter_read: other.filter_read,
                    filter_write: other.filter_write,
                    ..footprint
                },
                policy,
            )
        },
        policy.search_allow_exact.is_none() ==> {
            &&& !(resource_admission(footprint, policy) matches Err(
                StrictModeViolation::ExactnessNotPermitted { .. },
            ))
            &&& resource_admission(footprint, policy) == resource_admission(
                Footprint { exact: other.exact, ..footprint },
                policy,
            )
        },
        policy.search_max_hnsw_ef.is_none() ==> {
            &&& !(resource_admission(footprint, policy) matches Err(
                StrictModeViolation::SearchParamOutOfRange { .. },
            ))
            &&& resource_admission(footprint, policy) == resource_admission(
                Footprint { search_params: other.search_params, ..footprint },
                policy,
            )
        },
        resource_admission(footprint, StrictModeConfig::unlimited()).is_ok(),
{
}

/// A dimension in which the request says nothing rejects nothing, whatever
/// the policy holds there; a request that says nothing at all is admitted
/// under every policy.
pub proof fn silent_dimension_is_permissive(footprint: Footprint, policy: StrictModeConfig)
    ensures
        footprint.query_limit.is_none() ==> !(resource_admission(footprint, policy) matches Err(
            StrictModeViolation::LimitExceeded { .. },
        )),
        footprint.filter_read.is_none() ==> !(resource_admission(footprint, policy) matches Err(
            StrictModeViolation::ReadFilterTooComplex { .. },
        )),
        footprint.filter_write.is_none() ==> !(resource_admission(footprint, policy) matches Err(
            StrictModeViolation::WriteFilterTooComplex { .. },
        )),
        footprint.exact.is_none() ==> !(resource_admission(footprint, policy) matches Err(
            StrictModeViolation::ExactnessNotPermitted { .. },
        )),
        footprint.search_params.is_none() ==> !(resource_admission(footprint, policy) matches Err(
            StrictModeViolation::SearchParamOutOfRange { .. },
        )),
        resource_admission(Footprint::silent(), policy).is_ok(),
{
}

/// A request is admitted exactly when it stays within the policy in every
/// one of the five dimensions.
pub proof fn admitted_means_within_every_bound(footprint: Footprint, policy: StrictModeConfig)
    ensures
        resource_admission(footprint, policy).is_ok() <==> {
            &&& !exceeds(footprint.query_limit, policy.max_query_limit)
            &&& !exceeds(footprint.read_conditions(), policy.max_filter_conditions)
            &&& !exceeds(footprint.write_conditions(), policy.max_filter_conditions)
            &&& !exactness_forbidden(footprint.exact, policy.search_allow_exact)
            &&& !exceeds(footprint.hnsw_ef(), policy.search_max_hnsw_ef)
        },
{
}

/// What a batch reports is the first rejected child in the order of the
/// batch: the child at the reported place is rejected with the reported
/// violation and every child before it is admitted. Where nothing is
/// reported, every child is admitted.
pub proof fn first_violation_is_the_first(searches: Seq<DiscoverRequest>, policy: StrictModeConfig)
    ensures
        match first_violation(searches, policy) {
            Some((index, violation)) => {
                &&& 0 <= index < searches.len()
                &&& searches[index].discover_request.admission(policy) == Err::<
                    (),
                    StrictModeViolation,
                >(violation)
                &&& forall|j: int|
                    0 <= j < index ==> (#[trigger] searches[j]).discover_request.admission(
                        policy,
                    ).is_ok()
            },
            None => forall|j: int|
                0 <= j < searches.len() ==> (#[trigger] searches[j]).discover_request.admission(
                    policy,
                ).is_ok(),
        },
    decreases searches.len(),
{
    if searches.len() > 0 {
        let earlier = searches.drop_last();
        first_violation_is_the_first(earlier, policy);
        assert forall|j: int| 0 <= j < earlier.len() implies earlier[j] == searches[j] by {}
        match first_violation(earlier, policy) {
            Some((index, violation)) => {
                assert(earlier[index] == searches[index]);
                assert forall|j: int| 0 <= j < index implies (#[trigger] searches[j]).discover_request.admission(
                    policy,
                ).is_ok() by {
                    assert(earlier[j] == searches[j]);
                }
            },
            None => {
                assert forall|j: int| 0 <= j < earlier.len() implies (#[trigger] searches[j]).discover_request.admission(
                    policy,
                ).is_ok() by {
                    assert(earlier[j] == searches[j]);
                }
            },
        }
    }
}

/// Where the child at `index` is rejected and every child before it is
/// admitted, the batch is rejected with the violation of that child and
/// reports its place, whatever the children after it hold: they are not
/// looked at.
pub proof fn batch_fails_fast(batch: DiscoverRequestBatch, policy: StrictModeConfig, index: int)
    requires
        0 <= index < batch.searches@.len(),
        batch.searches@[index].discover_request.admission(policy).is_err(),
        forall|j: int|
            0 <= j < index ==> (#[trigger] batch.searches@[j]).discover_request.admission(
                policy,
            ).is_ok(),
    ensures
        first_violation(batch.searches@, policy) == Some(
            (index, batch.searches@[index].discover_request.admission(policy).unwrap_err()),
        ),
        first_violation(batch.searches@, policy) == first_violation(
            batch.searches@.take(index + 1),
            policy,
        ),
        batch.admission(policy) == batch.searches@[index].discover_request.admission(policy),
{
    let searches = batch.searches@;
    let upto = searches.take(index + 1);
    first_violation_is_the_first(upto, policy);
    assert(upto[index] == searches[index]);
    match first_violation(upto, policy) {
        Some((found, violation)) => {
            if found < index {
                assert(upto[found] == searches[found]);
            }
        },
        None => {},
    }
    lemma_found_stays_first(searches, policy, index + 1);
}

/// A batch in which only the child at `index` goes beyond the policy is
/// rejected with the violation of that child, at its place.
pub proof fn only_violating_child_is_blamed(
    batch: DiscoverRequestBatch,
    policy: StrictModeConfig,
    index: int,
)
    requires
        0 <= index < batch.searches@.len(),
        batch.searches@[index].discover_request.admission(policy).is_err(),
        forall|j: int|
            0 <= j < batch.searches@.len() && j != index ==> (#[trigger] batch.searches@[j]).discover_request.admission(
                policy,
            ).is_ok(),
    ensures
        first_violation(batch.searches@, policy) == Some(
            (index, batch.searches@[index].discover_request.admission(policy).unwrap_err()),
        ),
        batch.admission(policy) == batch.searches@[index].discover_request.admission(policy),
{
    batch_fails_fast(batch, policy, index);
}

/// A batch is admitted exactly when each of its children is admitted under
/// the same policy.
pub proof fn batch_is_admitted_with_all_children(batch: DiscoverRequestBatch, policy: StrictModeConfig)
    ensures
        batch.admission(policy).is_ok() <==> forall|j: int|
            0 <= j < batch.searches@.len() ==> (#[trigger] batch.searches@[j]).discover_request.admission(
                policy,
            ).is_ok(),
{
    first_violation_is_the_first(batch.searches@, policy);
}

} // verus!
