//! Pacing of retries against the peers of a replica set.
//!
//! Each peer has a delay that must pass between two attempts on it. The delay
//! starts at zero, becomes one second with the first attempt and doubles with
//! every further one, up to a ceiling of ten seconds. Time is counted in
//! nanoseconds on a clock that the registry starts when it is made.

use crate::shards::replica_set::clock::Clock;
use crate::shards::shard::PeerId;
use std::collections::HashMap;
use vstd::prelude::*;

verus! {

/// Nanoseconds in one second, the unit in which delays grow.
pub const NANOS_PER_SEC: u128 = 1_000_000_000;

/// Ceiling of the delay between two attempts on one peer: ten seconds.
pub const MAX_DELAY: u128 = 10_000_000_000;

/// The delay that follows `delay` once an attempt has been taken: one second
/// after none, else twice the delay, never more than the ceiling.
pub open spec fn next_delay(delay: nat) -> nat {
    if delay == 0 {
        NANOS_PER_SEC as nat
    } else if 2 * delay <= MAX_DELAY {
        2 * delay
    } else {
        MAX_DELAY as nat
    }
}

/// Whether `delay` is one of the delays that attempts lead to.
pub open spec fn is_step(delay: nat) -> bool {
    ||| delay == 0
    ||| delay == NANOS_PER_SEC
    ||| delay == 2 * NANOS_PER_SEC
    ||| delay == 4 * NANOS_PER_SEC
    ||| delay == 8 * NANOS_PER_SEC
    ||| delay == MAX_DELAY
}

/// The delay of a peer after `attempts` attempts were taken on it since it
/// was last untracked.
pub open spec fn delay_after(attempts: nat) -> nat
    decreases attempts,
{
    if attempts == 0 {
        0
    } else {
        next_delay(delay_after((attempts - 1) as nat))
    }
}

/// The backoff of one peer as two numbers: when the last attempt was taken
/// and how long to wait after it, both in nanoseconds.
pub struct BackoffState {
    pub last_attempt: nat,
    pub delay: nat,
}

impl BackoffState {
    /// The state of a peer that was never attempted, or was reset.
    pub open spec fn fresh() -> BackoffState {
        BackoffState { last_attempt: 0, delay: 0 }
    }

    /// The delay is one that attempts lead to: none, or 1, 2, 4, 8 or 10
    /// seconds. None of them exceeds the ceiling.
    pub open spec fn wf(self) -> bool {
        is_step(self.delay)
    }

    /// Time passed at `now` since the last attempt; none if `now` lies
    /// before it.
    pub open spec fn elapsed(self, now: nat) -> nat {
        if now >= self.last_attempt {
            (now - self.last_attempt) as nat
        } else {
            0
        }
    }

    /// Whether the delay has passed at `now`.
    pub open spec fn is_elapsed(self, now: nat) -> bool {
        self.elapsed(now) >= self.delay
    }

    /// The state once an attempt is taken at `now`.
    pub open spec fn retry(self, now: nat) -> BackoffState {
        BackoffState { last_attempt: now, delay: next_delay(self.delay) }
    }

    /// The state after asking at `now` whether to retry: advanced if the
    /// delay has passed, else as it was.
    pub open spec fn retry_if_elapsed(self, now: nat) -> BackoffState {
        if self.is_elapsed(now) {
            self.retry(now)
        } else {
            self
        }
    }
}

/// Retry pacing for one peer.
#[derive(Copy, Clone, Debug)]
pub struct Backoff {
    last_attempt: u128,
    delay: u128,
}

impl View for Backoff {
    type V = BackoffState;

    closed spec fn view(&self) -> BackoffState {
        BackoffState { last_attempt: self.last_attempt as nat, delay: self.delay as nat }
    }
}

impl Default for Backoff {
    /// A backoff on which no attempt was taken: the first retry is free.
    fn default() -> (backoff: Self)
        ensures
            backoff@ == BackoffState::fresh(),
    {
        Backoff { last_attempt: 0, delay: 0 }
    }
}

impl Backoff {
    #[verifier::type_invariant]
    spec fn delay_is_a_step(self) -> bool {
        is_step(self.delay as nat)
    }

    /// Asks at `now` whether the peer may be retried, and if so takes the
    /// attempt: a `true` is a permit that has been used.
    pub fn retry_if_elapsed(&mut self, now: u128) -> (is_elapsed: bool)
        ensures
            is_elapsed == old(self)@.is_elapsed(now as nat),
            final(self)@ == old(self)@.retry_if_elapsed(now as nat),
            old(self)@.wf(),
            final(self)@.wf(),
    {
        proof {
            use_type_invariant(&*self);
        }
        let is_elapsed = self.is_elapsed(now);
        if is_elapsed {
            self.retry(now);
        }
        is_elapsed
    }

    /// Whether the delay has passed at `now`.
    pub fn is_elapsed(&self, now: u128) -> (is_elapsed: bool)
        ensures
            is_elapsed == self@.is_elapsed(now as nat),
    {
        let elapsed: u128 = if now >= self.last_attempt {
            now - self.last_attempt
        } else {
            0
        };
        elapsed >= self.delay
    }

    /// Records an attempt taken at `now` and lengthens the delay.
    pub fn retry(&mut self, now: u128)
        ensures
            final(self)@ == old(self)@.retry(now as nat),
            final(self)@.wf(),
    {
        proof {
            use_type_invariant(&*self);
        }
        let delay: u128 = if self.delay == 0 {
            NANOS_PER_SEC
        } else if self.delay <= MAX_DELAY / 2 {
            self.delay * 2
        } else {
            MAX_DELAY
        };
        *self = Backoff { last_attempt: now, delay };
    }

    /// The delay that must pass after the last attempt, in nanoseconds.
    pub fn delay(&self) -> (delay: u128)
        ensures
            delay == self@.delay,
            delay <= MAX_DELAY,
    {
        proof {
            use_type_invariant(self);
        }
        self.delay
    }

    /// When the last attempt was taken, in nanoseconds on the caller's clock.
    pub fn last_attempt(&self) -> (last_attempt: u128)
        ensures
            last_attempt == self@.last_attempt,
    {
        self.last_attempt
    }
}

/// The state that `peers` holds for `peer_id`: what is tracked for it, or the
/// fresh state where nothing is.
pub open spec fn peer_state(peers: Map<PeerId, BackoffState>, peer_id: PeerId) -> BackoffState {
    if peers.contains_key(peer_id) {
        peers[peer_id]
    } else {
        BackoffState::fresh()
    }
}

/// Whether `peer_id` may be retried at `now`.
pub open spec fn may_retry(peers: Map<PeerId, BackoffState>, peer_id: PeerId, now: nat) -> bool {
    peer_state(peers, peer_id).is_elapsed(now)
}

/// The tracked peers after asking at `now` whether to retry `peer_id`: the
/// peer is tracked from then on, with its attempt taken if it was permitted.
pub open spec fn after_retry_if_elapsed(
    peers: Map<PeerId, BackoffState>,
    peer_id: PeerId,
    now: nat,
) -> Map<PeerId, BackoffState> {
    peers.insert(peer_id, peer_state(peers, peer_id).retry_if_elapsed(now))
}

/// The tracked peers after asking for each of `peer_ids` in turn, the
/// `i`-th at `times[i]`.
pub open spec fn after_retry_elapsed(
    peers: Map<PeerId, BackoffState>,
    peer_ids: Seq<PeerId>,
    times: Seq<nat>,
) -> Map<PeerId, BackoffState>
    decreases peer_ids.len(),
{
    if peer_ids.len() == 0 {
        peers
    } else {
        after_retry_if_elapsed(
            after_retry_elapsed(peers, peer_ids.drop_last(), times),
            peer_ids.last(),
            times[peer_ids.len() - 1],
        )
    }
}

/// Those of `peer_ids` that were permitted when asked in turn, the `i`-th at
/// `times[i]`, in the order in which they were asked.
pub open spec fn permitted_peers(
    peers: Map<PeerId, BackoffState>,
    peer_ids: Seq<PeerId>,
    times: Seq<nat>,
) -> Seq<PeerId>
    decreases peer_ids.len(),
{
    if peer_ids.len() == 0 {
        Seq::empty()
    } else {
        let before = after_retry_elapsed(peers, peer_ids.drop_last(), times);
        let earlier = permitted_peers(peers, peer_ids.drop_last(), times);
        if may_retry(before, peer_ids.last(), times[peer_ids.len() - 1]) {
            earlier.push(peer_ids.last())
        } else {
            earlier
        }
    }
}

/// The times of `len` questions that are all asked at `now`.
pub open spec fn all_at(len: nat, now: nat) -> Seq<nat> {
    Seq::new(len, |i: int| now)
}

/// Every tracked peer has a delay that attempts lead to.
pub open spec fn peers_wf(peers: Map<PeerId, BackoffState>) -> bool {
    forall|peer_id: PeerId| peers.contains_key(peer_id) ==> (#[trigger] peers[peer_id]).wf()
}

/// Retry pacing for the peers of one replica set. A peer is tracked from the
/// first time it is asked about until it is reset.
#[derive(Clone, Debug)]
pub struct Registry {
    backoff: HashMap<PeerId, Backoff>,
    clock: Clock,
}

impl View for Registry {
    type V = Map<PeerId, BackoffState>;

    closed spec fn view(&self) -> Map<PeerId, BackoffState> {
        self.backoff@.map_values(|backoff: Backoff| backoff@)
    }
}

impl Default for Registry {
    /// A registry that tracks no peer, with its clock started now.
    fn default() -> (registry: Self)
        ensures
            registry@ == Map::<PeerId, BackoffState>::empty(),
            peers_wf(registry@),
    {
        let registry = Registry { backoff: HashMap::new(), clock: Clock::start() };
        assert(registry@ =~= Map::<PeerId, BackoffState>::empty());
        registry
    }
}

impl Registry {
    /// Asks at `now` whether `peer_id` may be retried, and if so takes the
    /// attempt. The check and the update are one step.
    pub fn retry_if_elapsed_at(&mut self, peer_id: PeerId, now: u128) -> (is_elapsed: bool)
        ensures
            is_elapsed == may_retry(old(self)@, peer_id, now as nat),
            final(self)@ == after_retry_if_elapsed(old(self)@, peer_id, now as nat),
            peers_wf(old(self)@) ==> peers_wf(final(self)@),
    {
        broadcast use vstd::std_specs::hash::group_hash_axioms;

        let mut backoff = match self.backoff.get(&peer_id) {
            Some(known) => *known,
            None => Backoff::default(),
        };
        let is_elapsed = backoff.retry_if_elapsed(now);
        self.backoff.insert(peer_id, backoff);
        assert(self@ =~= after_retry_if_elapsed(old(self)@, peer_id, now as nat));
        is_elapsed
    }

    /// Asks, at the present reading of the registry's clock, whether
    /// `peer_id` may be retried, and if so takes the attempt. A peer that is
    /// not tracked, or whose delay is zero, is permitted whatever the clock
    /// reads.
    pub fn retry_if_elapsed(&mut self, peer_id: PeerId) -> (is_elapsed: bool)
        ensures
            exists|now: nat|
                is_elapsed == may_retry(old(self)@, peer_id, now) && final(self)@
                    == #[trigger] after_retry_if_elapsed(old(self)@, peer_id, now),
            peer_state(old(self)@, peer_id).delay == 0 ==> is_elapsed,
            peers_wf(old(self)@) ==> peers_wf(final(self)@),
    {
        let now = self.clock.now();
        self.retry_if_elapsed_at(peer_id, now)
    }

    /// Stops tracking `peer_id`: its next retry is permitted at once and its
    /// delay starts from zero again.
    pub fn reset(&mut self, peer_id: PeerId)
        ensures
            final(self)@ == old(self)@.remove(peer_id),
            peers_wf(old(self)@) ==> peers_wf(final(self)@),
    {
        broadcast use vstd::std_specs::hash::group_hash_axioms;

        let _ = self.backoff.remove(&peer_id);
        assert(self@ =~= old(self)@.remove(peer_id));
    }

    /// Asks at `now` for each of `peer_ids` in turn and returns those that
    /// were permitted, in the order given.
    pub fn retry_elapsed_at(&mut self, peer_ids: &[PeerId], now: u128) -> (permitted: Vec<PeerId>)
        ensures
            final(self)@ == after_retry_elapsed(
                old(self)@,
                peer_ids@,
                all_at(peer_ids@.len(), now as nat),
            ),
            permitted@ == permitted_peers(
                old(self)@,
                peer_ids@,
                all_at(peer_ids@.len(), now as nat),
            ),
            peers_wf(old(self)@) ==> peers_wf(final(self)@),
    {
        let ghost times = all_at(peer_ids@.len(), now as nat);
        let mut permitted: Vec<PeerId> = Vec::new();
        let mut i: usize = 0;
        while i < peer_ids.len()
            invariant
                i <= peer_ids.len(),
                times == all_at(peer_ids@.len(), now as nat),
                self@ == after_retry_elapsed(old(self)@, peer_ids@.take(i as int), times),
                permitted@ == permitted_peers(old(self)@, peer_ids@.take(i as int), times),
                peers_wf(old(self)@) ==> peers_wf(self@),
            decreases peer_ids.len() - i,
        {
            let peer_id = peer_ids[i];
            assert(peer_ids@.take(i + 1).drop_last() == peer_ids@.take(i as int));
            if self.retry_if_elapsed_at(peer_id, now) {
                permitted.push(peer_id);
            }
            i += 1;
        }
        assert(peer_ids@.take(i as int) == peer_ids@);
        permitted
    }

    /// Asks for each of `peer_ids` in turn, each at the reading of the
    /// registry's clock when its turn comes, and returns those that were
    /// permitted, in the order given.
    pub fn retry_elapsed(&mut self, peer_ids: &[PeerId]) -> (permitted: Vec<PeerId>)
        ensures
            exists|times: Seq<nat>|
                times.len() == peer_ids@.len() && final(self)@ == #[trigger] after_retry_elapsed(
                    old(self)@,
                    peer_ids@,
                    times,
                ) && permitted@ == permitted_peers(old(self)@, peer_ids@, times),
            peers_wf(old(self)@) ==> peers_wf(final(self)@),
    {
        let ghost mut times: Seq<nat> = Seq::empty();
        let mut permitted: Vec<PeerId> = Vec::new();
        let mut i: usize = 0;
        while i < peer_ids.len()
            invariant
                i <= peer_ids.len(),
                times.len() == i,
                self@ == after_retry_elapsed(old(self)@, peer_ids@.take(i as int), times),
                permitted@ == permitted_peers(old(self)@, peer_ids@.take(i as int), times),
                peers_wf(old(self)@) ==> peers_wf(self@),
            decreases peer_ids.len() - i,
        {
            let peer_id = peer_ids[i];
            let now = self.clock.now();
            proof {
                let longer = times.push(now as nat);
                crate::shards::replica_set::pacing::times_beyond_are_unread(
                    old(self)@,
                    peer_ids@.take(i as int),
                    times,
                    longer,
                );
                assert(peer_ids@.take(i + 1).drop_last() == peer_ids@.take(i as int));
                times = longer;
            }
            if self.retry_if_elapsed_at(peer_id, now) {
                permitted.push(peer_id);
            }
            i += 1;
        }
        assert(peer_ids@.take(i as int) == peer_ids@);
        permitted
    }

    /// The backoff that is held for `peer_id`, if it is tracked.
    pub fn get(&self, peer_id: PeerId) -> (backoff: Option<Backoff>)
        ensures
            match backoff {
                Some(held) => self@.contains_key(peer_id) && held@ == self@[peer_id] && held@.wf(),
                None => !self@.contains_key(peer_id),
            },
    {
        broadcast use vstd::std_specs::hash::group_hash_axioms;

        match self.backoff.get(&peer_id) {
            Some(held) => {
                proof {
                    use_type_invariant(held);
                }
                Some(*held)
            },
            None => None,
        }
    }

    /// The number of peers that are tracked.
    pub fn len(&self) -> (len: usize)
        ensures
            len == self@.len(),
    {
        broadcast use vstd::std_specs::hash::group_hash_axioms;

        proof {
            lemma_map_values_len(self.backoff@);
        }
        self.backoff.len()
    }

    /// The present reading of the registry's clock, in nanoseconds since the
    /// registry was made.
    pub fn now(&self) -> (nanos: u128) {
        self.clock.now()
    }
}

/// Mapping the values of a map keeps its keys, and so their number.
proof fn lemma_map_values_len(backoffs: Map<PeerId, Backoff>)
    ensures
        backoffs.map_values(|backoff: Backoff| backoff@).len() == backoffs.len(),
{
    assert(backoffs.map_values(|backoff: Backoff| backoff@).dom() =~= backoffs.dom());
}

} // verus!
