use builder::semantics::BuilderState;

fn names(list: &[&str]) -> Vec<String> {
    list.iter().map(|n| (*n).to_owned()).collect()
}

#[test]
fn fresh_builder_has_every_slot_empty() {
    let mut b: BuilderState<u64> = BuilderState::fresh(2);
    let err = b.build(&names(&["a", "b"])).unwrap_err();
    assert_eq!(err, "a is required.");
}

#[test]
fn setter_overwrites_by_last_write() {
    let mut b: BuilderState<u64> = BuilderState::fresh(1);
    b.assign(0, 3);
    b.assign(0, 8);
    let values = b.build(&names(&["a"])).unwrap();
    assert_eq!(values, vec![8]);
}

#[test]
fn setters_chain_fluently() {
    let mut b: BuilderState<u64> = BuilderState::fresh(3);
    b.assign(0, 1).assign(1, 2).assign(2, 3);
    let values = b.build(&names(&["a", "b", "c"])).unwrap();
    assert_eq!(values, vec![1, 2, 3]);
}

#[test]
fn build_fails_fast_on_the_first_missing_field() {
    let mut b: BuilderState<u64> = BuilderState::fresh(3);
    b.assign(0, 1);
    let err = b.build(&names(&["a", "b", "c"])).unwrap_err();
    assert_eq!(err, "b is required.");
}

#[test]
fn build_round_trips_the_set_values() {
    let mut b: BuilderState<&'static str> = BuilderState::fresh(2);
    b.assign(0, "gcc").assign(1, "-Wall");
    let values = b.build(&names(&["executable", "flag"])).unwrap();
    assert_eq!(values, vec!["gcc", "-Wall"]);
}

#[test]
fn a_successful_build_can_be_repeated() {
    let mut b: BuilderState<u64> = BuilderState::fresh(2);
    b.assign(0, 10).assign(1, 20);
    let field_names = names(&["x", "y"]);
    let first = b.build(&field_names).unwrap();
    let second = b.build(&field_names).unwrap();
    assert_eq!(first, vec![10, 20]);
    assert_eq!(second, first);
}

#[test]
fn a_builder_stays_usable_after_a_failed_build() {
    let mut b: BuilderState<u64> = BuilderState::fresh(2);
    b.assign(0, 5);
    let field_names = names(&["x", "y"]);
    assert_eq!(b.build(&field_names).unwrap_err(), "y is required.");
    b.assign(1, 6);
    assert_eq!(b.build(&field_names).unwrap(), vec![5, 6]);
}

#[test]
fn zero_field_builder_builds_at_once() {
    let mut b: BuilderState<u64> = BuilderState::fresh(0);
    let values = b.build(&names(&[])).unwrap();
    assert_eq!(values, Vec::<u64>::new());
}
