use planet_gen::gravity::pair_schedule;
use planet_gen::lifecycle::{BuildAction, Lifecycle, TickAction};

#[test]
fn no_pairs_for_zero_or_one_body() {
    assert!(pair_schedule(0).is_empty());
    assert!(pair_schedule(1).is_empty());
}

#[test]
fn pairs_of_three_bodies() {
    assert_eq!(pair_schedule(2), vec![(0, 1)]);
    assert_eq!(pair_schedule(3), vec![(0, 1), (0, 2), (1, 2)]);
}

#[test]
fn every_pair_once() {
    let n = 7usize;
    let pairs = pair_schedule(n);
    assert_eq!(pairs.len(), n * (n - 1) / 2);
    for i in 0..n {
        for j in 0..n {
            let count = pairs.iter().filter(|&&p| p == (i, j)).count();
            assert_eq!(count, if i < j { 1 } else { 0 });
        }
    }
}

#[test]
fn unchanged_config_generates_once() {
    let mut life = Lifecycle::new();
    let mut generated = 0;
    for _ in 0..50 {
        if life.on_tick(false) == TickAction::Generate {
            generated += 1;
            assert_eq!(life.on_built(true), BuildAction::Spawn);
        }
    }
    assert_eq!(generated, 1);
    assert!(life.has_planet());
}

#[test]
fn change_replaces_planet() {
    let mut life = Lifecycle::new();
    assert_eq!(life.on_tick(false), TickAction::Generate);
    assert_eq!(life.on_built(true), BuildAction::Spawn);
    assert_eq!(life.on_tick(false), TickAction::Idle);
    assert_eq!(life.on_tick(true), TickAction::Generate);
    assert_eq!(life.on_built(true), BuildAction::Replace);
    assert_eq!(life.on_tick(false), TickAction::Idle);
}

#[test]
fn failed_attempt_keeps_previous_planet() {
    let mut life = Lifecycle::new();
    assert!(!life.has_planet());
    assert_eq!(life.on_tick(true), TickAction::Generate);
    assert_eq!(life.on_built(false), BuildAction::Reject);
    assert!(!life.has_planet());
    // no retry without a change
    assert_eq!(life.on_tick(false), TickAction::Idle);
    assert_eq!(life.on_tick(true), TickAction::Generate);
    assert_eq!(life.on_built(true), BuildAction::Spawn);
    assert_eq!(life.on_tick(true), TickAction::Generate);
    assert_eq!(life.on_built(false), BuildAction::Reject);
    assert!(life.has_planet());
}
