use slock::CellState;
use slock::CountHook;
use slock::NoHook;

/// A fresh state: version 0, the given value, nothing installed.
#[test]
fn fresh_state() {
    let state: CellState<i32, NoHook> = CellState::new(41);
    assert_eq!(state.version(), 0);
    assert_eq!(*state.borrow_value(), 41);
}

/// A mutation takes the value out, feeds it to the closure, and restores
/// the result; the version grows by one.
#[test]
fn set_runs_the_mutator() {
    let mut state: CellState<i32, NoHook> = CellState::new(5);
    state.set(|v| v + 1);
    assert_eq!(*state.borrow_value(), 6);
    assert_eq!(state.version(), 1);
}

/// A write whose mutation step lapsed still bumps the version, keeps the
/// value, and notifies nobody: the monotonic count includes the timeout
/// edge case.
#[test]
fn lapsed_write_still_counts() {
    let mut state: CellState<i32, CountHook> = CellState::new(7);
    state.install_hook(CountHook::new());
    state.commit(8);
    state.record_elapsed();
    state.record_elapsed();
    state.commit(9);
    assert_eq!(state.version(), 4);
    assert_eq!(*state.borrow_value(), 9);
    let counter = state.take_hook().unwrap();
    assert_eq!(counter.hits(), 2);
}

/// Copy and clone reads both return the protected value.
#[test]
fn reads_return_the_value() {
    let state: CellState<i32, NoHook> = CellState::new(12);
    assert_eq!(state.get(), 12);
    assert_eq!(state.get_clone(), 12);
}
