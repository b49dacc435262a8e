use collection::shards::replica_set::backoff::Backoff;
use collection::shards::replica_set::backoff::Registry;
use collection::shards::replica_set::backoff::MAX_DELAY;
use collection::shards::replica_set::backoff::NANOS_PER_SEC;
use collection::shards::replica_set::clock::Clock;

const SEC: u128 = 1_000_000_000;

fn delay_of(registry: &Registry, peer_id: u64) -> Option<u128> {
    registry.get(peer_id).map(|backoff| backoff.delay())
}

#[test]
fn constants_are_one_and_ten_seconds() {
    assert_eq!(NANOS_PER_SEC, 1_000_000_000);
    assert_eq!(MAX_DELAY, 10_000_000_000);
}

#[test]
fn default_backoff_has_no_delay() {
    let backoff = Backoff::default();
    assert_eq!(backoff.delay(), 0);
    assert_eq!(backoff.last_attempt(), 0);
    assert!(backoff.is_elapsed(0));
    assert!(backoff.is_elapsed(123));
}

#[test]
fn backoff_retry_records_time_and_doubles_delay() {
    let mut backoff = Backoff::default();
    backoff.retry(5 * SEC);
    assert_eq!(backoff.last_attempt(), 5 * SEC);
    assert_eq!(backoff.delay(), SEC);
    backoff.retry(6 * SEC);
    assert_eq!(backoff.last_attempt(), 6 * SEC);
    assert_eq!(backoff.delay(), 2 * SEC);
    backoff.retry(7 * SEC);
    assert_eq!(backoff.delay(), 4 * SEC);
    backoff.retry(8 * SEC);
    assert_eq!(backoff.delay(), 8 * SEC);
    backoff.retry(9 * SEC);
    assert_eq!(backoff.delay(), 10 * SEC);
    backoff.retry(10 * SEC);
    assert_eq!(backoff.delay(), 10 * SEC);
    assert_eq!(backoff.last_attempt(), 10 * SEC);
}

#[test]
fn backoff_is_elapsed_compares_elapsed_time_with_delay() {
    let mut backoff = Backoff::default();
    backoff.retry(100 * SEC);
    assert!(!backoff.is_elapsed(100 * SEC));
    assert!(!backoff.is_elapsed(101 * SEC - 1));
    assert!(backoff.is_elapsed(101 * SEC));
    assert!(backoff.is_elapsed(200 * SEC));
}

#[test]
fn backoff_time_before_last_attempt_counts_as_no_time() {
    let mut backoff = Backoff::default();
    backoff.retry(100 * SEC);
    assert!(!backoff.is_elapsed(0));
    assert!(!backoff.is_elapsed(99 * SEC));
    assert!(!backoff.retry_if_elapsed(50 * SEC));
    assert_eq!(backoff.last_attempt(), 100 * SEC);
    assert_eq!(backoff.delay(), SEC);
}

#[test]
fn backoff_retry_if_elapsed_advances_only_when_permitted() {
    let mut backoff = Backoff::default();
    assert!(backoff.retry_if_elapsed(3 * SEC));
    assert_eq!(backoff.delay(), SEC);
    assert_eq!(backoff.last_attempt(), 3 * SEC);
    assert!(!backoff.retry_if_elapsed(3 * SEC + 1));
    assert_eq!(backoff.delay(), SEC);
    assert_eq!(backoff.last_attempt(), 3 * SEC);
    assert!(backoff.retry_if_elapsed(4 * SEC));
    assert_eq!(backoff.delay(), 2 * SEC);
    assert_eq!(backoff.last_attempt(), 4 * SEC);
}

#[test]
fn fresh_registry_tracks_nothing() {
    let registry = Registry::default();
    assert_eq!(registry.len(), 0);
    assert!(registry.get(7).is_none());
}

#[test]
fn scenario_peer_seven_at_given_times() {
    let mut registry = Registry::default();
    assert!(registry.retry_if_elapsed_at(7, 0));
    assert_eq!(delay_of(&registry, 7), Some(SEC));
    assert!(!registry.retry_if_elapsed_at(7, 0));
    assert_eq!(delay_of(&registry, 7), Some(SEC));
    assert!(registry.retry_if_elapsed_at(7, 1_100_000_000));
    assert_eq!(delay_of(&registry, 7), Some(2 * SEC));
    assert_eq!(registry.get(7).unwrap().last_attempt(), 1_100_000_000);
    assert_eq!(registry.len(), 1);
}

#[test]
fn scenario_peer_seven_on_the_clock() {
    let mut registry = Registry::default();
    assert!(registry.retry_if_elapsed(7));
    assert_eq!(delay_of(&registry, 7), Some(SEC));
    let taken = registry.get(7).unwrap().last_attempt();
    assert!(!registry.retry_if_elapsed(7));
    assert_eq!(delay_of(&registry, 7), Some(SEC));
    assert_eq!(registry.get(7).unwrap().last_attempt(), taken);
    while registry.now() < taken + 1_100_000_000 {
        std::hint::spin_loop();
    }
    assert!(registry.retry_if_elapsed(7));
    assert_eq!(delay_of(&registry, 7), Some(2 * SEC));
    assert!(registry.get(7).unwrap().last_attempt() >= taken + 1_100_000_000);
}

#[test]
fn delay_sequence_grows_to_ceiling_and_stays() {
    let mut registry = Registry::default();
    let expected: [u128; 8] = [1, 2, 4, 8, 10, 10, 10, 10];
    let mut now: u128 = 0;
    assert_eq!(delay_of(&registry, 1), None);
    for seconds in expected {
        assert!(registry.retry_if_elapsed_at(1, now));
        let delay = delay_of(&registry, 1).unwrap();
        assert_eq!(delay, seconds * SEC);
        assert!(delay <= MAX_DELAY);
        now += delay;
    }
}

#[test]
fn gating_true_then_false_then_true_after_delay() {
    let mut registry = Registry::default();
    assert!(registry.retry_if_elapsed_at(3, 10 * SEC));
    assert!(registry.retry_if_elapsed_at(3, 11 * SEC));
    assert_eq!(delay_of(&registry, 3), Some(2 * SEC));
    assert!(registry.retry_if_elapsed_at(3, 13 * SEC));
    assert_eq!(delay_of(&registry, 3), Some(4 * SEC));
    assert!(!registry.retry_if_elapsed_at(3, 13 * SEC));
    assert!(!registry.retry_if_elapsed_at(3, 17 * SEC - 1));
    assert_eq!(delay_of(&registry, 3), Some(4 * SEC));
    assert_eq!(registry.get(3).unwrap().last_attempt(), 13 * SEC);
    assert!(registry.retry_if_elapsed_at(3, 17 * SEC));
    assert_eq!(delay_of(&registry, 3), Some(8 * SEC));
}

#[test]
fn reset_restores_first_contact() {
    let mut registry = Registry::default();
    let mut now: u128 = 0;
    for _ in 0..6 {
        assert!(registry.retry_if_elapsed_at(9, now));
        now += 10 * SEC;
    }
    assert_eq!(delay_of(&registry, 9), Some(10 * SEC));
    let last = registry.get(9).unwrap().last_attempt();
    assert!(!registry.retry_if_elapsed_at(9, last));
    registry.reset(9);
    assert!(registry.get(9).is_none());
    assert_eq!(registry.len(), 0);
    assert!(registry.retry_if_elapsed_at(9, last));
    assert_eq!(delay_of(&registry, 9), Some(SEC));
}

#[test]
fn reset_of_unknown_peer_changes_nothing() {
    let mut registry = Registry::default();
    assert!(registry.retry_if_elapsed_at(1, 0));
    registry.reset(2);
    assert_eq!(registry.len(), 1);
    assert_eq!(delay_of(&registry, 1), Some(SEC));
}

#[test]
fn peers_are_independent() {
    let mut registry = Registry::default();
    assert!(registry.retry_if_elapsed_at(1, 0));
    assert!(registry.retry_if_elapsed_at(1, SEC));
    assert!(registry.retry_if_elapsed_at(1, 3 * SEC));
    assert_eq!(delay_of(&registry, 1), Some(4 * SEC));
    assert!(registry.get(2).is_none());
    assert!(registry.retry_if_elapsed_at(2, 3 * SEC));
    assert_eq!(delay_of(&registry, 2), Some(SEC));
    assert_eq!(delay_of(&registry, 1), Some(4 * SEC));
    assert_eq!(registry.get(1).unwrap().last_attempt(), 3 * SEC);
    registry.reset(1);
    assert_eq!(delay_of(&registry, 2), Some(SEC));
    assert_eq!(registry.get(2).unwrap().last_attempt(), 3 * SEC);
    assert!(!registry.retry_if_elapsed_at(2, 3 * SEC));
    assert!(registry.retry_if_elapsed_at(1, 3 * SEC));
    assert_eq!(registry.len(), 2);
}

#[test]
fn retry_elapsed_at_returns_permitted_in_order() {
    let mut registry = Registry::default();
    assert!(registry.retry_if_elapsed_at(2, 0));
    assert!(registry.retry_if_elapsed_at(4, 0));
    assert!(registry.retry_if_elapsed_at(4, SEC));
    let permitted = registry.retry_elapsed_at(&[5, 4, 3, 2, 1], SEC);
    assert_eq!(permitted, vec![5, 3, 2, 1]);
    assert_eq!(delay_of(&registry, 5), Some(SEC));
    assert_eq!(delay_of(&registry, 4), Some(2 * SEC));
    assert_eq!(delay_of(&registry, 3), Some(SEC));
    assert_eq!(delay_of(&registry, 2), Some(2 * SEC));
    assert_eq!(delay_of(&registry, 1), Some(SEC));
    assert_eq!(registry.len(), 5);
}

#[test]
fn retry_elapsed_at_permits_a_repeated_peer_once() {
    let mut registry = Registry::default();
    let permitted = registry.retry_elapsed_at(&[8, 8, 6, 8], 42);
    assert_eq!(permitted, vec![8, 6]);
    assert_eq!(delay_of(&registry, 8), Some(SEC));
    assert_eq!(registry.len(), 2);
}

#[test]
fn retry_elapsed_at_of_no_peers_is_empty() {
    let mut registry = Registry::default();
    let permitted = registry.retry_elapsed_at(&[], 42);
    assert!(permitted.is_empty());
    assert_eq!(registry.len(), 0);
}

#[test]
fn retry_elapsed_on_the_clock() {
    let mut registry = Registry::default();
    let permitted = registry.retry_elapsed(&[1, 2, 3]);
    assert_eq!(permitted, vec![1, 2, 3]);
    let permitted = registry.retry_elapsed(&[3, 4, 1]);
    assert_eq!(permitted, vec![4]);
    registry.reset(3);
    let permitted = registry.retry_elapsed(&[1, 2, 3, 4]);
    assert_eq!(permitted, vec![3]);
    assert_eq!(delay_of(&registry, 3), Some(SEC));
}

#[test]
fn cloned_registry_goes_its_own_way() {
    let mut registry = Registry::default();
    assert!(registry.retry_if_elapsed_at(1, 0));
    let mut copy = registry.clone();
    assert!(copy.retry_if_elapsed_at(1, SEC));
    assert_eq!(delay_of(&copy, 1), Some(2 * SEC));
    assert_eq!(delay_of(&registry, 1), Some(SEC));
}

#[test]
fn clock_counts_up_from_its_start() {
    let clock = Clock::start();
    let first = clock.now();
    assert!(first < 10 * SEC);
    while clock.now() < first + 20_000_000 {
        std::hint::spin_loop();
    }
    let second = clock.now();
    assert!(second >= first + 20_000_000);
    assert!(second < 15 * SEC);
}

#[test]
fn registry_clock_starts_with_the_registry() {
    let registry = Registry::default();
    let first = registry.now();
    let second = registry.now();
    assert!(first <= second);
    assert!(second < 10 * SEC);
}
