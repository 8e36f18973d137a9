use std::cell::Cell;
use std::rc::Rc;

use slock::Slock;
use slock::Slockable;

#[test]
fn synchronous() {
    let lock: Slock<i32> = Slock::new(5);
    lock.set(|v| v + 1);
    let new_value = lock.get_clone().0;
    assert_eq!(new_value, 6);
}

/// Many mutations through many handles of one cell: every increment lands.
#[test]
fn asynchronous() {
    let lock: Slock<i32> = Slock::new(0);

    let h1 = lock.split();
    let h2 = lock.split();
    let h3 = lock.split();
    let h4 = lock.split();
    let h5 = lock.split();
    h1.set(|v| v + 1);
    h2.set(|v| v + 1);
    h3.set(|v| v + 1);
    h4.set(|v| v + 1);
    h5.set(|v| v + 1);

    assert_eq!(lock.get().0, 5);
}

/// Should be able to create multiple references to the same lock.
#[test]
fn reference_counting() {
    let lock_1: Slock<i32> = Slock::new(0);
    let lock_2 = lock_1.split();
    lock_1.set(|_| 1);
    assert_eq!(lock_1.get().0, 1);
    assert_eq!(lock_2.get().0, 1);
}

struct User {
    name: &'static str,
    age: i32,
}

#[test]
fn mapping() {
    let lock: Slock<User> = Slock::new(User {
        name: "Bob",
        age: 32,
    });

    let name = lock.map(|v: &User| v.name).0;
    let age = lock.map(|v: &User| v.age).0;

    assert_eq!(name, "Bob");
    assert_eq!(age, 32);
}

/// A cell containing a vector should be able to push.
#[test]
fn vector() {
    let vec: Vec<i32> = Vec::new();
    let lock: Slock<Vec<i32>> = Slock::new(vec);
    lock.push(1);
    assert_eq!(lock.map(|v: &Vec<i32>| v[0]).0, 1);
}

/// A deep clone is independent: mutating the original never shows through it.
#[test]
fn cloning() {
    let lock: Slock<String> = Slock::new(String::from("hello"));
    let lock_cloned = lock.clone_deep().0;
    lock.set(|_| String::from("goodbye"));
    assert_eq!(lock_cloned.get_clone().0, "hello");
}

struct DropCounter {
    hits: Rc<Cell<u8>>,
}

impl Drop for DropCounter {
    fn drop(&mut self) {
        self.hits.set(self.hits.get() + 1);
    }
}

/// Old value should drop when a new value replaces it.
#[test]
fn destruction() {
    let hits: Rc<Cell<u8>> = Rc::new(Cell::new(0));

    let lock: Slock<DropCounter> = Slock::new(DropCounter { hits: hits.clone() });
    let h1 = hits.clone();
    lock.set(move |_| DropCounter { hits: h1 });
    let h2 = hits.clone();
    lock.set(move |_| DropCounter { hits: h2 });
    match lock.try_into_value() {
        Ok(v) => std::mem::drop(v),
        Err(_) => panic!("last handle"),
    }
    assert_eq!(hits.get(), 3);
}

/// Old value should not drop when returned back to the cell.
#[test]
fn non_destruction() {
    let hits: Rc<Cell<u8>> = Rc::new(Cell::new(0));

    let lock: Slock<DropCounter> = Slock::new(DropCounter { hits: hits.clone() });
    lock.set(|v| v);
    lock.set(|v| v);
    match lock.try_into_value() {
        Ok(v) => std::mem::drop(v),
        Err(_) => panic!("last handle"),
    }
    assert_eq!(hits.get(), 1);
}

/// The version counter grows by exactly one per mutation, seen through any
/// handle.
#[test]
fn version_counts_mutations() {
    let lock: Slock<i32> = Slock::new(0);
    assert_eq!(lock.version().0, 0);
    lock.set(|v| v + 1);
    assert_eq!(lock.version().0, 1);
    let other = lock.split();
    other.set(|v| v * 3);
    assert_eq!(lock.version().0, 2);
    assert_eq!(other.version().0, 2);
}

/// Create with 5, increment to 6, share, zero through the new handle, and
/// the original handle sees 0.
#[test]
fn shared_cell_scenario() {
    let lock: Slock<i32> = Slock::new(5);
    lock.set(|v| v + 1);
    assert_eq!(lock.get().0, 6);
    let h2 = lock.split();
    h2.set(|_| 0);
    assert_eq!(lock.get().0, 0);
}

/// A cell of cells flattens to a handle aliasing the inner cell.
#[test]
fn flattening() {
    let inner: Slock<i32> = Slock::new(9);
    let outer: Slock<Slock<i32>> = Slock::new(inner.split());
    let flat = outer.flatten().0;
    assert_eq!(flat.get().0, 9);
    flat.set(|v| v + 1);
    assert_eq!(inner.get().0, 10);
}

/// Every sized type has a guarded companion built around a cell handle.
#[test]
fn companion_type() {
    let lock: Slock<i32> = Slock::new(4);
    let companion = <i32 as Slockable>::get_slocker(lock.split());
    assert_eq!(companion.0.get().0, 4);
    companion.0.set(|v| v + 1);
    assert_eq!(lock.get().0, 5);
}

/// Only the last handle can consume the cell; earlier attempts hand the
/// handle back.
#[test]
fn consuming_the_last_handle() {
    let lock: Slock<i32> = Slock::new(1);
    let other = lock.split();
    let back = match lock.try_into_value() {
        Err(handle) => handle,
        Ok(_) => panic!("another handle was still alive"),
    };
    std::mem::drop(other);
    match back.try_into_value() {
        Ok(v) => assert_eq!(v, 1),
        Err(_) => panic!("this was the last handle"),
    }
}

/// Appends arriving through distinct handles all land: the final sequence
/// holds every appended item, in whatever order the lock granted them.
#[test]
fn appends_from_many_handles() {
    let lock: Slock<Vec<i32>> = Slock::new(Vec::new());
    let h1 = lock.split();
    let h2 = lock.split();
    let h3 = lock.split();
    let h4 = lock.split();
    let h5 = lock.split();
    h3.push(3);
    h1.push(1);
    h5.push(5);
    h2.push(2);
    h4.push(4);
    let mut got = lock.get_clone().0;
    got.sort();
    assert_eq!(got, vec![1, 2, 3, 4, 5]);
}
