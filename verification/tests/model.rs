use thaw_utils::CellId;
use thaw_utils::FieldRef;
use thaw_utils::Model;
use thaw_utils::ModelRead;
use thaw_utils::ModelWrite;
use thaw_utils::Runtime;

fn field(store: thaw_utils::StoreId, slot: usize) -> FieldRef {
    FieldRef { store, slot }
}

#[test]
fn value_shape_initial_value() {
    let mut rt: Runtime<i32> = Runtime::new();
    let m = Model::from_value(&mut rt, 5);
    assert_eq!(m.get_untracked(&rt), Some(5));
    let obs = rt.new_observer();
    assert_eq!(m.get(&mut rt, obs), Some(5));
}

#[test]
fn cell_shape_initial_value() {
    let mut rt: Runtime<i32> = Runtime::new();
    let c = rt.new_cell(3);
    let m = Model::from_cell(&rt, c);
    assert_eq!(m.get_untracked(&rt), Some(3));
}

#[test]
fn field_shape_initial_value() {
    let mut rt: Runtime<i32> = Runtime::new();
    let s = rt.new_store(vec![10, 20, 30]);
    let m = Model::from_field(&rt, field(s, 1));
    assert_eq!(m.get_untracked(&rt), Some(20));
}

#[test]
fn callback_shape_initial_value() {
    let mut rt: Runtime<i32> = Runtime::new();
    let sink = rt.new_cell(0);
    let m = Model::from_value_with_callback(&mut rt, Some(5), sink);
    assert_eq!(m.get_untracked(&rt), Some(5));
}

#[test]
fn callback_shape_seeds_type_default() {
    let mut rt: Runtime<i32> = Runtime::new();
    let sink = rt.new_cell(7);
    let m = Model::from_value_with_callback(&mut rt, None, sink);
    assert_eq!(m.get_untracked(&rt), Some(0));
    // seeding does not count as a mutation: the sink is untouched
    assert_eq!(rt.read_cell(sink), 7);
    assert_eq!(rt.read_cell_version(sink), 0);
}

#[test]
fn value_shape_set_roundtrip() {
    let mut rt: Runtime<i32> = Runtime::new();
    let m = Model::from_value(&mut rt, 0);
    assert!(m.set(&mut rt, 7));
    assert_eq!(m.get_untracked(&rt), Some(7));
    assert!(m.set(&mut rt, -2));
    assert_eq!(m.get_untracked(&rt), Some(-2));
}

#[test]
fn duplicate_handle_observes_set() {
    let mut rt: Runtime<i32> = Runtime::new();
    let c = rt.new_cell(0);
    let first = Model::from_cell(&rt, c);
    let second = first;
    assert!(first.set(&mut rt, 41));
    assert_eq!(second.get_untracked(&rt), Some(41));
    let third = Model::from_cell(&rt, c);
    assert_eq!(third.get_untracked(&rt), Some(41));
}

#[test]
fn update_without_change_runs_no_observer() {
    let mut rt: Runtime<i32> = Runtime::new();
    let s = rt.new_store(vec![4]);
    let m = Model::from_field(&rt, field(s, 0));
    let obs = rt.new_observer();
    assert_eq!(m.get(&mut rt, obs), Some(4));
    assert_eq!(rt.read_observer_runs(obs), 0);
    let r = m.update_in_place(&mut rt, |v: i32| (false, v, "kept"));
    assert_eq!(r, Some("kept"));
    assert_eq!(rt.read_observer_runs(obs), 0);
    assert_eq!(rt.read_store_version(s), 0);
    assert_eq!(m.get_untracked(&rt), Some(4));
}

#[test]
fn update_with_change_runs_observer_exactly_once() {
    let mut rt: Runtime<i32> = Runtime::new();
    let s = rt.new_store(vec![4]);
    let m = Model::from_field(&rt, field(s, 0));
    let obs = rt.new_observer();
    assert_eq!(m.get(&mut rt, obs), Some(4));
    let r = m.update_in_place(&mut rt, |v: i32| (true, v + 1, ()));
    assert_eq!(r, Some(()));
    assert_eq!(rt.read_observer_runs(obs), 1);
    assert_eq!(m.get_untracked(&rt), Some(5));
    let r2 = m.update_in_place(&mut rt, |v: i32| (true, v * 2, ()));
    assert_eq!(r2, Some(()));
    assert_eq!(rt.read_observer_runs(obs), 2);
    assert_eq!(m.get_untracked(&rt), Some(10));
}

#[test]
fn cell_backed_update_honours_changed_flag() {
    let mut rt: Runtime<i32> = Runtime::new();
    let m = Model::from_value(&mut rt, 9);
    let obs = rt.new_observer();
    assert_eq!(m.get(&mut rt, obs), Some(9));
    assert_eq!(m.update_in_place(&mut rt, |v: i32| (false, v + 100, ())), Some(()));
    assert_eq!(rt.read_observer_runs(obs), 0);
    // an unchanged result is discarded, not written back silently
    assert_eq!(m.get_untracked(&rt), Some(9));
    assert_eq!(m.update_in_place(&mut rt, |v: i32| (true, v + 1, ())), Some(()));
    assert_eq!(rt.read_observer_runs(obs), 1);
    assert_eq!(m.get_untracked(&rt), Some(10));
}

#[test]
fn callback_invoked_exactly_once_with_new_value() {
    let mut rt: Runtime<i32> = Runtime::new();
    let sink = rt.new_cell(0);
    let m = Model::from_value_with_callback(&mut rt, Some(5), sink);
    assert!(m.set(&mut rt, 6));
    assert_eq!(m.get_untracked(&rt), Some(6));
    assert_eq!(rt.read_cell(sink), 6);
    assert_eq!(rt.read_cell_version(sink), 1);
}

#[test]
fn callback_follows_every_successful_mutation() {
    let mut rt: Runtime<i32> = Runtime::new();
    let sink = rt.new_cell(0);
    let m = Model::from_value_with_callback(&mut rt, Some(1), sink);
    assert!(m.set(&mut rt, 2));
    assert_eq!(rt.read_cell_version(sink), 1);
    assert_eq!(m.update_in_place(&mut rt, |v: i32| (true, v + 10, ())), Some(()));
    assert_eq!(rt.read_cell(sink), 12);
    assert_eq!(rt.read_cell_version(sink), 2);
    // a no-change update is not a successful mutation: the sink stays put
    assert_eq!(m.update_in_place(&mut rt, |v: i32| (false, v, ())), Some(()));
    assert_eq!(rt.read_cell(sink), 12);
    assert_eq!(rt.read_cell_version(sink), 2);
}

#[test]
fn disposed_cell_handle_fails_soft() {
    let mut rt: Runtime<i32> = Runtime::new();
    let c = rt.new_cell(1);
    let m = Model::from_cell(&rt, c);
    assert!(!m.is_disposed(&rt));
    rt.dispose_cell(c);
    assert!(m.is_disposed(&rt));
    assert_eq!(m.get_untracked(&rt), None);
    let obs = rt.new_observer();
    assert_eq!(m.get(&mut rt, obs), None);
    assert!(!m.set(&mut rt, 5));
    assert_eq!(m.update_in_place(&mut rt, |v: i32| (true, v + 1, ())), None);
}

#[test]
fn disposed_store_disposes_field_handles() {
    let mut rt: Runtime<i32> = Runtime::new();
    let s = rt.new_store(vec![8, 9]);
    let m = Model::from_field(&rt, field(s, 1));
    assert!(!m.is_disposed(&rt));
    rt.dispose_store(s);
    assert!(m.is_disposed(&rt));
    assert_eq!(m.get_untracked(&rt), None);
    assert!(!m.set(&mut rt, 5));
}

#[test]
fn signal_gives_a_read_only_view() {
    let mut rt: Runtime<i32> = Runtime::new();
    let m = Model::from_value(&mut rt, 2);
    let view = m.signal();
    assert_eq!(view.get_untracked(&rt), Some(2));
    assert!(m.set(&mut rt, 3));
    assert_eq!(view.get_untracked(&rt), Some(3));
    let obs = rt.new_observer();
    assert_eq!(view.get(&mut rt, obs), Some(3));
    assert!(m.set(&mut rt, 4));
    assert_eq!(rt.read_observer_runs(obs), 1);
}

#[test]
fn repeated_tracking_notifies_once() {
    let mut rt: Runtime<i32> = Runtime::new();
    let m = Model::from_value(&mut rt, 0);
    let obs = rt.new_observer();
    assert_eq!(m.get(&mut rt, obs), Some(0));
    assert_eq!(m.get(&mut rt, obs), Some(0));
    assert!(m.set(&mut rt, 1));
    assert_eq!(rt.read_observer_runs(obs), 1);
}

#[test]
fn every_tracking_observer_is_notified() {
    let mut rt: Runtime<i32> = Runtime::new();
    let m = Model::from_value(&mut rt, 0);
    let a = rt.new_observer();
    let b = rt.new_observer();
    let untracking = rt.new_observer();
    assert_eq!(m.get(&mut rt, a), Some(0));
    assert_eq!(m.get(&mut rt, b), Some(0));
    assert!(m.set(&mut rt, 1));
    assert_eq!(rt.read_observer_runs(a), 1);
    assert_eq!(rt.read_observer_runs(b), 1);
    assert_eq!(rt.read_observer_runs(untracking), 0);
}

#[test]
fn sibling_slots_are_independent_values() {
    let mut rt: Runtime<i32> = Runtime::new();
    let s = rt.new_store(vec![1, 2]);
    let left = Model::from_field(&rt, field(s, 0));
    let right = Model::from_field(&rt, field(s, 1));
    assert!(left.set(&mut rt, 100));
    assert_eq!(left.get_untracked(&rt), Some(100));
    assert_eq!(right.get_untracked(&rt), Some(2));
    assert_eq!(rt.store_len(s), 2);
}

#[test]
fn fields_over_the_same_slot_are_interchangeable() {
    let mut rt: Runtime<i32> = Runtime::new();
    let s = rt.new_store(vec![6]);
    let one = Model::from_field(&rt, field(s, 0));
    let other = Model::from_field(&rt, field(s, 0));
    assert!(one.set(&mut rt, 60));
    assert_eq!(other.get_untracked(&rt), Some(60));
    assert_eq!(rt.read_field(field(s, 0)), 60);
}

#[test]
fn versions_count_notifying_writes() {
    let mut rt: Runtime<i32> = Runtime::new();
    let c = rt.new_cell(0);
    assert_eq!(rt.read_cell_version(c), 0);
    rt.write_cell(c, 1);
    assert_eq!(rt.read_cell_version(c), 1);
    rt.write_cell(c, 1);
    assert_eq!(rt.read_cell_version(c), 2);
    let s = rt.new_store(vec![0]);
    assert_eq!(rt.read_store_version(s), 0);
    rt.write_field(field(s, 0), 5);
    assert_eq!(rt.read_store_version(s), 1);
}

#[test]
fn handle_shapes_report_their_projections() {
    let mut rt: Runtime<i32> = Runtime::new();
    let c = rt.new_cell(0);
    let cell_backed = Model::from_cell(&rt, c);
    assert!(matches!(cell_backed.signal(), ModelRead::Signal(CellId(0))));
    assert!(matches!(cell_backed.write, ModelWrite::Signal(CellId(0))));
    let s = rt.new_store(vec![0]);
    let field_backed = Model::from_field(&rt, field(s, 0));
    assert!(matches!(field_backed.signal(), ModelRead::Field(_)));
}

#[test]
fn scenario_some_five_then_set_six() {
    let mut rt: Runtime<i32> = Runtime::new();
    let cb = rt.new_cell(0);
    let m = Model::from_value_with_callback(&mut rt, Some(5), cb);
    assert!(m.set(&mut rt, 6));
    assert_eq!(m.get_untracked(&rt), Some(6));
    assert_eq!(rt.read_cell(cb), 6);
    assert_eq!(rt.read_cell_version(cb), 1);
}

#[test]
fn scenario_none_seeds_zero() {
    let mut rt: Runtime<i32> = Runtime::new();
    let cb = rt.new_cell(0);
    let m = Model::from_value_with_callback(&mut rt, None::<i32>, cb);
    assert_eq!(m.get_untracked(&rt), Some(0));
}

#[test]
fn update_returns_the_auxiliary_result() {
    let mut rt: Runtime<i32> = Runtime::new();
    let m = Model::from_value(&mut rt, 21);
    let doubled = m.update_in_place(&mut rt, |v: i32| (true, v * 2, v));
    assert_eq!(doubled, Some(21));
    assert_eq!(m.get_untracked(&rt), Some(42));
}

#[test]
fn default_shape_starts_at_type_default() {
    let mut rt: Runtime<i32> = Runtime::new();
    let m = Model::from_default(&mut rt);
    assert_eq!(m.get_untracked(&rt), Some(0));
    assert!(m.set(&mut rt, 13));
    assert_eq!(m.get_untracked(&rt), Some(13));
}
