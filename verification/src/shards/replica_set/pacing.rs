//! What the backoff registry guarantees about the pacing of retries, stated
//! over the registry's model and proved from it.

use crate::shards::replica_set::backoff::after_retry_elapsed;
use crate::shards::replica_set::backoff::after_retry_if_elapsed;
use crate::shards::replica_set::backoff::all_at;
use crate::shards::replica_set::backoff::delay_after;
use crate::shards::replica_set::backoff::may_retry;
use crate::shards::replica_set::backoff::next_delay;
use crate::shards::replica_set::backoff::peer_state;
use crate::shards::replica_set::backoff::peers_wf;
use crate::shards::replica_set::backoff::permitted_peers;
use crate::shards::replica_set::backoff::BackoffState;
use crate::shards::replica_set::backoff::MAX_DELAY;
use crate::shards::replica_set::backoff::NANOS_PER_SEC;
use crate::shards::shard::PeerId;
use vstd::prelude::*;

verus! {

/// `len` questions about one and the same peer.
pub open spec fn repeated(peer_id: PeerId, len: nat) -> Seq<PeerId> {
    Seq::new(len, |i: int| peer_id)
}

/// The delay of a peer grows with its attempts as 0, 1, 2, 4, 8, 10 seconds,
/// stays at ten seconds from the fifth attempt on, never shrinks and never
/// exceeds the ceiling.
pub proof fn delay_grows_to_the_ceiling(attempts: nat)
    ensures
        delay_after(0) == 0,
        delay_after(1) == NANOS_PER_SEC,
        delay_after(2) == 2 * NANOS_PER_SEC,
        delay_after(3) == 4 * NANOS_PER_SEC,
        delay_after(4) == 8 * NANOS_PER_SEC,
        delay_after(5) == 10 * NANOS_PER_SEC,
        MAX_DELAY == 10 * NANOS_PER_SEC,
        attempts >= 5 ==> delay_after(attempts) == MAX_DELAY,
        delay_after(attempts) <= delay_after(attempts + 1) <= MAX_DELAY,
    decreases attempts,
{
    reveal_with_fuel(delay_after, 7);
    if attempts > 5 {
        delay_grows_to_the_ceiling((attempts - 1) as nat);
    }
}

/// A retry that is permitted records its time and lengthens the delay of the
/// peer by one step: the delay does not shrink, is at least one second and
/// stays within the ceiling.
pub proof fn permitted_retry_lengthens_the_delay(
    peers: Map<PeerId, BackoffState>,
    peer_id: PeerId,
    now: nat,
)
    requires
        peers_wf(peers),
        may_retry(peers, peer_id, now),
    ensures
        ({
            let before = peer_state(peers, peer_id);
            let after = peer_state(after_retry_if_elapsed(peers, peer_id, now), peer_id);
            &&& after.last_attempt == now
            &&& after.delay == next_delay(before.delay)
            &&& before.delay <= after.delay
            &&& NANOS_PER_SEC <= after.delay <= MAX_DELAY
            &&& after.wf()
        }),
        peers_wf(after_retry_if_elapsed(peers, peer_id, now)),
{
}

/// A retry that is refused changes nothing but that the peer is tracked.
pub proof fn refused_retry_keeps_the_state(
    peers: Map<PeerId, BackoffState>,
    peer_id: PeerId,
    now: nat,
)
    requires
        !may_retry(peers, peer_id, now),
    ensures
        peers.contains_key(peer_id),
        after_retry_if_elapsed(peers, peer_id, now) == peers,
{
    assert(after_retry_if_elapsed(peers, peer_id, now) =~= peers);
}

/// A peer that is not tracked and is then asked about again and again, each
/// time once its delay has passed, is permitted every time, and after `n`
/// such attempts its delay is the `n`-th of 0, 1, 2, 4, 8, 10, 10, ...
/// seconds.
pub proof fn delay_follows_the_attempts(
    peers: Map<PeerId, BackoffState>,
    peer_id: PeerId,
    times: Seq<nat>,
)
    requires
        !peers.contains_key(peer_id),
        forall|i: int|
            0 <= i < times.len() - 1 ==> times[i] + delay_after((i + 1) as nat) <= #[trigger] times[
                i + 1],
    ensures
        ({
            let asked = repeated(peer_id, times.len());
            let after = after_retry_elapsed(peers, asked, times);
            &&& permitted_peers(peers, asked, times) == asked
            &&& peer_state(after, peer_id).delay == delay_after(times.len())
            &&& times.len() > 0 ==> peer_state(after, peer_id).last_attempt == times.last()
        }),
    decreases times.len(),
{
    let asked = repeated(peer_id, times.len());
    if times.len() == 0 {
        assert(permitted_peers(peers, asked, times) =~= asked);
    } else {
        let fewer = times.drop_last();
        let asked_before = repeated(peer_id, fewer.len());
        assert(asked.drop_last() =~= asked_before);
        assert forall|i: int| 0 <= i < fewer.len() - 1 implies fewer[i] + delay_after(
            (i + 1) as nat,
        ) <= #[trigger] fewer[i + 1] by {
            assert(times[i + 1] == fewer[i + 1]);
        }
        delay_follows_the_attempts(peers, peer_id, fewer);
        times_beyond_are_unread(peers, asked_before, fewer, times);
        let before = after_retry_elapsed(peers, asked_before, times);
        if fewer.len() > 0 {
            let i = fewer.len() - 1;
            assert(times[i] + delay_after((i + 1) as nat) <= times[i + 1]);
        }
        assert(may_retry(before, peer_id, times.last()));
        assert(permitted_peers(peers, asked, times) =~= asked);
    }
}

/// Asking for `peer_ids` in turn reads only the first `peer_ids.len()` of the
/// times.
pub proof fn times_beyond_are_unread(
    peers: Map<PeerId, BackoffState>,
    peer_ids: Seq<PeerId>,
    times: Seq<nat>,
    others: Seq<nat>,
)
    requires
        forall|i: int| 0 <= i < peer_ids.len() ==> times[i] == others[i],
    ensures
        after_retry_elapsed(peers, peer_ids, times) == after_retry_elapsed(peers, peer_ids, others),
        permitted_peers(peers, peer_ids, times) == permitted_peers(peers, peer_ids, others),
    decreases peer_ids.len(),
{
    if peer_ids.len() > 0 {
        times_beyond_are_unread(peers, peer_ids.drop_last(), times, others);
    }
}

/// A retry that is permitted at `first` uses the permit up: until the new
/// delay has passed the peer is refused and nothing changes, and once it has
/// passed the peer is permitted again.
pub proof fn permit_is_used_up(
    peers: Map<PeerId, BackoffState>,
    peer_id: PeerId,
    first: nat,
    again: nat,
)
    requires
        may_retry(peers, peer_id, first),
    ensures
        ({
            let once = after_retry_if_elapsed(peers, peer_id, first);
            let delay = peer_state(once, peer_id).delay;
            &&& delay > 0
            &&& again < first + delay ==> !may_retry(once, peer_id, again)
                && after_retry_if_elapsed(once, peer_id, again) == once
            &&& again >= first + delay ==> may_retry(once, peer_id, again)
        }),
{
    let once = after_retry_if_elapsed(peers, peer_id, first);
    if !may_retry(once, peer_id, again) {
        refused_retry_keeps_the_state(once, peer_id, again);
    }
}

/// After a reset the peer is as on first contact: it is not tracked, its
/// next retry is permitted whenever it is asked and whatever its delay was,
/// and that retry leaves it with a delay of one second.
pub proof fn reset_restores_first_contact(
    peers: Map<PeerId, BackoffState>,
    peer_id: PeerId,
    now: nat,
)
    ensures
        !peers.remove(peer_id).contains_key(peer_id),
        peer_state(peers.remove(peer_id), peer_id) == BackoffState::fresh(),
        may_retry(peers.remove(peer_id), peer_id, now),
        peer_state(after_retry_if_elapsed(peers.remove(peer_id), peer_id, now), peer_id)
            == (BackoffState { last_attempt: now, delay: NANOS_PER_SEC as nat }),
{
}

/// What is done for one peer leaves every other peer as it was: whether it is
/// tracked, its state, and whether it may be retried.
pub proof fn peers_are_independent(
    peers: Map<PeerId, BackoffState>,
    peer_id: PeerId,
    other: PeerId,
    now: nat,
    later: nat,
)
    requires
        peer_id != other,
    ensures
        after_retry_if_elapsed(peers, peer_id, now).contains_key(other) == peers.contains_key(
            other,
        ),
        peer_state(after_retry_if_elapsed(peers, peer_id, now), other) == peer_state(peers, other),
        may_retry(after_retry_if_elapsed(peers, peer_id, now), other, later) == may_retry(
            peers,
            other,
            later,
        ),
        peers.remove(peer_id).contains_key(other) == peers.contains_key(other),
        peer_state(peers.remove(peer_id), other) == peer_state(peers, other),
        may_retry(peers.remove(peer_id), other, later) == may_retry(peers, other, later),
        after_retry_if_elapsed(after_retry_if_elapsed(peers, peer_id, now), other, later)
            == after_retry_if_elapsed(after_retry_if_elapsed(peers, other, later), peer_id, now),
{
    assert(after_retry_if_elapsed(after_retry_if_elapsed(peers, peer_id, now), other, later)
        =~= after_retry_if_elapsed(after_retry_if_elapsed(peers, other, later), peer_id, now));
}

/// Asking for a list of peers leaves every peer that is not in the list as it
/// was, and returns only peers of the list.
pub proof fn unasked_peers_are_untouched(
    peers: Map<PeerId, BackoffState>,
    peer_ids: Seq<PeerId>,
    times: Seq<nat>,
    other: PeerId,
)
    requires
        !peer_ids.contains(other),
    ensures
        after_retry_elapsed(peers, peer_ids, times).contains_key(other) == peers.contains_key(
            other,
        ),
        peer_state(after_retry_elapsed(peers, peer_ids, times), other) == peer_state(peers, other),
        !permitted_peers(peers, peer_ids, times).contains(other),
    decreases peer_ids.len(),
{
    if peer_ids.len() > 0 {
        let earlier = peer_ids.drop_last();
        assert forall|i: int| 0 <= i < earlier.len() implies earlier[i] != other by {
            assert(peer_ids[i] == earlier[i]);
        }
        assert(peer_ids.last() == peer_ids[peer_ids.len() - 1]);
        unasked_peers_are_untouched(peers, earlier, times, other);
        let found = permitted_peers(peers, peer_ids, times);
        let found_before = permitted_peers(peers, earlier, times);
        if found.contains(other) {
            let i = choose|i: int| 0 <= i < found.len() && found[i] == other;
            if i < found_before.len() {
                assert(found_before[i] == other);
            }
        }
    }
}

/// Asking twice at the same time is as asking once: what the first question
/// left is refused by the second and stays as it is.
pub proof fn asking_again_at_once_changes_nothing(state: BackoffState, now: nat)
    ensures
        state.retry_if_elapsed(now).retry_if_elapsed(now) == state.retry_if_elapsed(now),
        state.is_elapsed(now) ==> !state.retry_if_elapsed(now).is_elapsed(now),
{
}

/// Asking for a list of peers, all at the same time `now`, permits exactly
/// those peers of the list that may be retried at `now`, each of them once,
/// however often it stands in the list. Afterwards every peer of the list is
/// tracked with the state that one question at `now` leaves, and the peers
/// that were tracked before still are.
pub proof fn batch_at_one_time_asks_each_peer_once(
    peers: Map<PeerId, BackoffState>,
    peer_ids: Seq<PeerId>,
    now: nat,
)
    ensures
        ({
            let times = all_at(peer_ids.len(), now);
            let after = after_retry_elapsed(peers, peer_ids, times);
            let permitted = permitted_peers(peers, peer_ids, times);
            &&& permitted.no_duplicates()
            &&& forall|peer_id: PeerId| #[trigger]
                permitted.contains(peer_id) <==> peer_ids.contains(peer_id) && may_retry(
                    peers,
                    peer_id,
                    now,
                )
            &&& forall|peer_id: PeerId| #[trigger]
                after.contains_key(peer_id) <==> peers.contains_key(peer_id) || peer_ids.contains(
                    peer_id,
                )
            &&& forall|peer_id: PeerId|
                peer_ids.contains(peer_id) ==> #[trigger] after[peer_id] == peer_state(
                    peers,
                    peer_id,
                ).retry_if_elapsed(now)
            &&& forall|peer_id: PeerId|
                !peer_ids.contains(peer_id) ==> #[trigger] peer_state(after, peer_id)
                    == peer_state(peers, peer_id)
        }),
    decreases peer_ids.len(),
{
    let times = all_at(peer_ids.len(), now);
    let after = after_retry_elapsed(peers, peer_ids, times);
    let permitted = permitted_peers(peers, peer_ids, times);
    assert forall|peer_id: PeerId| !peer_ids.contains(peer_id) implies #[trigger] peer_state(
        after,
        peer_id,
    ) == peer_state(peers, peer_id) by {
        unasked_peers_are_untouched(peers, peer_ids, times, peer_id);
    }
    if peer_ids.len() > 0 {
        let earlier = peer_ids.drop_last();
        let last = peer_ids.last();
        batch_at_one_time_asks_each_peer_once(peers, earlier, now);
        times_beyond_are_unread(peers, earlier, all_at(earlier.len(), now), times);
        let before = after_retry_elapsed(peers, earlier, times);
        let found = permitted_peers(peers, earlier, times);
        asking_again_at_once_changes_nothing(peer_state(peers, last), now);
        assert forall|peer_id: PeerId| peer_ids.contains(peer_id) <==> earlier.contains(peer_id)
            || peer_id == last by {
            if peer_ids.contains(peer_id) {
                let i = choose|i: int| 0 <= i < peer_ids.len() && peer_ids[i] == peer_id;
                if i < earlier.len() {
                    assert(earlier[i] == peer_id);
                }
            }
            if earlier.contains(peer_id) {
                let i = choose|i: int| 0 <= i < earlier.len() && earlier[i] == peer_id;
                assert(peer_ids[i] == peer_id);
            }
            if peer_id == last {
                assert(peer_ids[peer_ids.len() - 1] == peer_id);
            }
        }
        if may_retry(before, last, now) {
            assert(permitted == found.push(last));
            assert forall|peer_id: PeerId| #[trigger]
                permitted.contains(peer_id) <==> found.contains(peer_id) || peer_id == last by {
                if permitted.contains(peer_id) {
                    let i = choose|i: int| 0 <= i < permitted.len() && permitted[i] == peer_id;
                    if i < found.len() {
                        assert(found[i] == peer_id);
                    }
                }
                if found.contains(peer_id) {
                    let i = choose|i: int| 0 <= i < found.len() && found[i] == peer_id;
                    assert(permitted[i] == peer_id);
                }
                if peer_id == last {
                    assert(permitted[permitted.len() - 1] == peer_id);
                }
            }
            assert forall|i: int, j: int|
                0 <= i < permitted.len() && 0 <= j < permitted.len() && i != j implies permitted[i]
                != permitted[j] by {
                if i < found.len() {
                    assert(found[i] == permitted[i]);
                    assert(found.contains(permitted[i]));
                }
                if j < found.len() {
                    assert(found[j] == permitted[j]);
                    assert(found.contains(permitted[j]));
                }
            }
        } else {
            assert(permitted == found);
        }
    } else {
        assert(permitted =~= Seq::<PeerId>::empty());
    }
}

/// Delays stay among 0, 1, 2, 4, 8 and 10 seconds, and so within the ceiling,
/// whether one peer is asked about, a list of them, or a peer is reset.
pub proof fn delays_stay_within_the_ceiling(
    peers: Map<PeerId, BackoffState>,
    peer_ids: Seq<PeerId>,
    times: Seq<nat>,
    peer_id: PeerId,
    now: nat,
)
    requires
        peers_wf(peers),
    ensures
        peers_wf(after_retry_if_elapsed(peers, peer_id, now)),
        peers_wf(peers.remove(peer_id)),
        peers_wf(after_retry_elapsed(peers, peer_ids, times)),
        forall|any_id: PeerId|
            peers.contains_key(any_id) ==> (#[trigger] peers[any_id]).delay <= MAX_DELAY,
    decreases peer_ids.len(),
{
    if peer_ids.len() > 0 {
        delays_stay_within_the_ceiling(peers, peer_ids.drop_last(), times, peer_id, now);
        let before = after_retry_elapsed(peers, peer_ids.drop_last(), times);
        delays_stay_within_the_ceiling(
            before,
            Seq::empty(),
            times,
            peer_ids.last(),
            times[peer_ids.len() - 1],
        );
    }
}

} // verus!
