use std::cell::Cell;
use thread_pool::ScopeGuard;

#[test]
fn fire_runs_action_once() {
    let count = Cell::new(0u32);
    let mut g = ScopeGuard::new(|| count.set(count.get() + 1));
    g.fire();
    g.fire();
    assert_eq!(count.get(), 1);
}

#[test]
fn dismiss_hands_action_out_once() {
    let count = Cell::new(0u32);
    let mut g = ScopeGuard::new(|| count.set(count.get() + 1));
    let action = g.dismiss();
    assert!(action.is_some());
    assert!(g.dismiss().is_none());
    g.fire();
    assert_eq!(count.get(), 0);
    (action.unwrap())();
    assert_eq!(count.get(), 1);
}
