use steam_watch::{BuildInfo, State, Transition};

fn build(id: i64) -> BuildInfo {
    BuildInfo::new("public".to_string(), id, 1_700_000_000 + id, format!("build {}", id))
}

fn observed(ids: &[i64]) -> State {
    let mut state = State::new();
    for id in ids {
        state.observe(build(*id));
    }
    state
}

fn ids(state: &State) -> (Option<i64>, Option<i64>) {
    (state.current().map(|b| b.build_id()), state.previous().map(|b| b.build_id()))
}

#[test]
fn a_new_history_is_empty() {
    let state = State::new();
    assert!(state.current().is_none());
    assert!(state.previous().is_none());
}

#[test]
fn first_observation_fills_current_only() {
    let mut state = State::new();
    let transition = state.observe(build(100));
    assert_eq!(transition, Transition::First);
    assert_eq!(state.current(), Some(&build(100)));
    assert_eq!(state.previous(), None);
}

#[test]
fn two_distinct_observations() {
    let mut state = State::new();
    assert_eq!(state.observe(build(100)), Transition::First);
    assert_eq!(state.observe(build(101)), Transition::Changed);
    assert_eq!(state.current().unwrap().build_id(), 101);
    assert_eq!(state.previous().unwrap().build_id(), 100);
    assert_eq!(state.current(), Some(&build(101)));
    assert_eq!(state.previous(), Some(&build(100)));
}

#[test]
fn a_repeat_in_the_middle_changes_nothing() {
    assert_eq!(observed(&[100, 100, 101]), observed(&[100, 101]));
    assert_eq!(ids(&observed(&[100, 100, 101])), (Some(101), Some(100)));
}

#[test]
fn the_same_id_twice_in_a_row_is_idempotent() {
    let mut state = observed(&[7, 8]);
    let once = {
        state.observe(build(9));
        state.clone()
    };
    assert_eq!(state.observe(build(9)), Transition::Unchanged);
    assert_eq!(state, once);
    assert_eq!(ids(&state), (Some(9), Some(8)));
}

#[test]
fn a_repeat_does_not_overwrite_previous() {
    let mut state = observed(&[1, 2]);
    state.observe(build(2));
    assert_eq!(ids(&state), (Some(2), Some(1)));
}

#[test]
fn only_the_id_decides_whether_a_build_is_new() {
    let mut state = State::new();
    let first = BuildInfo::new("public".to_string(), 5, 10, "as published".to_string());
    let corrected = BuildInfo::new("public".to_string(), 5, 99, "corrected text".to_string());
    state.observe(first.clone());
    assert_eq!(state.observe(corrected), Transition::Unchanged);
    assert_eq!(state.current(), Some(&first));
    assert_eq!(state.previous(), None);
}

#[test]
fn all_equal_ids_leave_previous_empty() {
    assert_eq!(ids(&observed(&[3])), (Some(3), None));
    assert_eq!(ids(&observed(&[3, 3, 3, 3])), (Some(3), None));
}

#[test]
fn previous_is_the_last_id_before_the_latest_change() {
    assert_eq!(ids(&observed(&[1, 2, 3])), (Some(3), Some(2)));
    assert_eq!(ids(&observed(&[1, 2, 1])), (Some(1), Some(2)));
    assert_eq!(ids(&observed(&[1, 1, 2, 2, 2])), (Some(2), Some(1)));
    assert_eq!(ids(&observed(&[4, 5, 5, 6, 6, 5, 5])), (Some(5), Some(6)));
    assert_eq!(ids(&observed(&[9, 8, 7, 7, 7])), (Some(7), Some(8)));
}

#[test]
fn each_slot_holds_the_build_that_began_its_run() {
    let mut state = State::new();
    let a1 = BuildInfo::new("public".to_string(), 1, 10, "first of one".to_string());
    let a2 = BuildInfo::new("public".to_string(), 1, 11, "second of one".to_string());
    let b1 = BuildInfo::new("public".to_string(), 2, 20, "first of two".to_string());
    let b2 = BuildInfo::new("public".to_string(), 2, 21, "second of two".to_string());
    for b in [a1.clone(), a2, b1.clone(), b2] {
        state.observe(b);
    }
    assert_eq!(state.current(), Some(&b1));
    assert_eq!(state.previous(), Some(&a1));
}

#[test]
fn an_older_previous_is_discarded() {
    let state = observed(&[1, 2, 3, 4]);
    assert_eq!(ids(&state), (Some(4), Some(3)));
}

#[test]
fn negative_and_extreme_ids_are_ids_like_any_other() {
    assert_eq!(ids(&observed(&[i64::MIN, i64::MAX])), (Some(i64::MAX), Some(i64::MIN)));
    assert_eq!(ids(&observed(&[-1, -1, 0])), (Some(0), Some(-1)));
}
