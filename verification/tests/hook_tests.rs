use std::cell::Cell;
use std::rc::Rc;

use slock::CountHook;
use slock::Slock;
use slock::SlockHook;

#[test]
fn basic_hooks() {
    let lock: Slock<(), CountHook> = Slock::new(());
    lock.hook(CountHook::new());
    lock.set(|_| ());
    lock.set(|_| ());
    lock.set(|_| ());
    let counter = lock.take_hook().0.unwrap();
    assert_eq!(counter.hits(), 3);
}

/// Installing a hook replaces the previous one: only the latest counts.
#[test]
fn hook_replacement() {
    let lock: Slock<i32, CountHook> = Slock::new(0);
    lock.hook(CountHook::new());
    lock.set(|v| v + 1);
    lock.set(|v| v + 1);
    lock.hook(CountHook::new());
    lock.set(|v| v + 1);
    let counter = lock.take_hook().0.unwrap();
    assert_eq!(counter.hits(), 1);
}

/// No notification fires for the registration call itself, and a cell
/// without a hook has none to take.
#[test]
fn hook_registration_is_silent() {
    let lock: Slock<i32, CountHook> = Slock::new(0);
    assert!(lock.take_hook().0.is_none());
    lock.hook(CountHook::new());
    let counter = lock.take_hook().0.unwrap();
    assert_eq!(counter.hits(), 0);
}

struct LastSeen {
    last: Rc<Cell<i32>>,
}

impl SlockHook<i32> for LastSeen {
    // compiled shadow of the trait's ghost notification relation; never
    // called at run time
    fn notified(_pre: LastSeen, _post: LastSeen, _value: i32) -> bool {
        true
    }

    fn on_set(&mut self, value: &i32) {
        self.last.set(*value);
    }
}

/// The hook is called with the post-mutation value, once per mutation.
#[test]
fn hook_sees_new_value() {
    let last: Rc<Cell<i32>> = Rc::new(Cell::new(-1));
    let lock: Slock<i32, LastSeen> = Slock::new(10);
    lock.hook(LastSeen { last: last.clone() });
    lock.set(|v| v * 2);
    assert_eq!(last.get(), 20);
    lock.set(|v| v + 1);
    assert_eq!(last.get(), 21);
}
