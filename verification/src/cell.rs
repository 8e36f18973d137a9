use std::sync::Arc;

use vstd::prelude::*;
use vstd::rwlock::RwLock;

use crate::hook::NoHook;
use crate::hook::SlockHook;
use crate::state::CellModel;
use crate::state::CellState;
use crate::state::hook_notified;

verus! {

/// The invariant every value stored in a cell's lock satisfies: the payload
/// slot is full.  A writer takes the state out of the lock, so the slot is
/// empty only while a write critical section is running, and no reader can
/// observe that window.
pub open spec fn cell_inv<T, W: SlockHook<T>>() -> spec_fn(CellState<T, W>) -> bool {
    |s: CellState<T, W>| s.intact()
}

/// Relies on `Arc::clone` of std: the returned handle refers to the same
/// shared allocation, so it carries the same inner value.
#[verifier::external_body]
fn share_arc<T>(a: &Arc<T>) -> (r: Arc<T>)
    ensures
        r == *a,
{
    Arc::clone(a)
}

/// Relies on `Arc::try_unwrap` of std: hands back the inner value when the
/// given handle was the last one, and the unchanged handle otherwise.
#[verifier::external_body]
fn unwrap_arc<T>(a: Arc<T>) -> (r: Result<T, Arc<T>>)
    ensures
        match r {
            Ok(t) => t == a,
            Err(e) => e == a,
        },
{
    Arc::try_unwrap(a)
}

/// A guarded cell: a reference-counted handle to one shared, protected
/// value.
///
/// Any number of handles obtained through [`Slock::split`] alias the same
/// cell; the cell lives as long as its longest-lived handle, though the
/// payload is released deterministically only through
/// [`Slock::try_into_value`] (see there).  Reads enter a shared critical
/// section, mutations an exclusive one, and every completed write critical
/// section bumps the cell's version counter by exactly one.
///
/// Every operation that opens a critical section returns, besides its
/// result, a ghost observation: the state the cell held while the section
/// was open (for writes, the states at entry and at exit).  The contracts
/// pin the result and the section's effect to that observed state; what the
/// cell holds before or after the section is whatever other handles have
/// made of it, which no contract over one handle can promise.
///
/// `W` is the type of observer the cell's hook slot can hold; a cell nobody
/// watches uses the default, [`NoHook`].
#[verifier::reject_recursive_types(T)]
#[verifier::reject_recursive_types(W)]
pub struct Slock<T, W: SlockHook<T> = NoHook> {
    pub(crate) lock: Arc<RwLock<CellState<T, W>, spec_fn(CellState<T, W>) -> bool>>,
    pub(crate) init: Ghost<CellModel<T>>,
}

impl<T, W: SlockHook<T>> Slock<T, W> {
    /// The cell's lock admits exactly the intact states.
    #[verifier::type_invariant]
    pub(crate) open spec fn wf(self) -> bool {
        (*self.lock).pred() == cell_inv::<T, W>()
    }

    /// The model this cell was created with: its initial value, version 0,
    /// no hook, an empty notification history.
    pub closed spec fn initial(self) -> CellModel<T> {
        self.init@
    }

    /// Creates a new cell holding `value`, with version 0 and no hook.
    pub fn new(value: T) -> (s: Self)
        ensures
            s.initial() == CellModel::init(value),
    {
        let state = CellState::new(value);
        let ghost m = state.model();
        let lock = RwLock::new(state, Ghost(cell_inv::<T, W>()));
        Slock { lock: Arc::new(lock), init: Ghost(m) }
    }

    /// Returns a new handle aliasing the same cell: a mutation made through
    /// either handle is seen through the other.  Nothing is copied.
    pub fn split(&self) -> (r: Self)
        ensures
            r == *self,
    {
        proof {
            use_type_invariant(self);
        }
        Slock { lock: share_arc(&self.lock), init: self.init }
    }

    /// The cell's version while this read critical section was open: how
    /// many write critical sections had completed by then.
    pub fn version(&self) -> (r: (u64, Ghost<CellState<T, W>>))
        ensures
            r.1@.intact(),
            r.0 == r.1@.model().version,
    {
        proof {
            use_type_invariant(self);
        }
        let handle = self.lock.acquire_read();
        let ghost obs = handle.view();
        let v = handle.borrow().version();
        handle.release_read();
        (v, Ghost(obs))
    }

    /// Applies `f` to the cell's value inside a shared critical section:
    /// the result is what `f` returned for the value the observed state
    /// held.  `f` must be callable on every value of `T` (this library's
    /// functions do not panic, so a partial closure is rejected; test inside
    /// it instead).
    pub fn map<U, F: FnOnce(&T) -> U>(&self, f: F) -> (r: (U, Ghost<CellState<T, W>>))
        requires
            forall|v: &T| call_requires(f, (v,)),
        ensures
            r.1@.intact(),
            call_ensures(f, (&r.1@.model().value,), r.0),
    {
        proof {
            use_type_invariant(self);
        }
        let handle = self.lock.acquire_read();
        let ghost obs = handle.view();
        let u = f(handle.borrow().borrow_value());
        handle.release_read();
        (u, Ghost(obs))
    }

    /// Mutates the cell's value through `f` inside an exclusive critical
    /// section.
    ///
    /// The ghost pair holds the states observed at the section's entry and
    /// exit: the version grew by exactly one, the new value is what `f`
    /// returned for the old one, and the installed observer, if any, was
    /// stepped through its `notified` relation once with the new value.
    /// Only if the version counter is already exhausted (`u64::MAX`
    /// completed writes) is the cell left untouched.  `f` must be callable
    /// on every value of `T`: a partial mutator (an unchecked `v + 1`) is
    /// rejected; write the checked or saturating form.
    pub fn set<F: FnOnce(T) -> T>(&self, f: F) -> (r: Ghost<(CellState<T, W>, CellState<T, W>)>)
        requires
            forall|v: T| call_requires(f, (v,)),
        ensures
            ({
                let (pre, post) = r@;
                &&& pre.intact() && post.intact()
                &&& pre.model().version < u64::MAX ==> {
                    &&& call_ensures(f, (pre.model().value,), post.model().value)
                    &&& post.model() == pre.model().after_set(post.model().value)
                    &&& hook_notified(pre.hook_state(), post.hook_state(), post.model().value)
                }
                &&& pre.model().version == u64::MAX ==> post == pre
            }),
    {
        proof {
            use_type_invariant(self);
        }
        let (mut state, write_handle) = self.lock.acquire_write();
        let ghost pre = state;
        if state.version() < u64::MAX {
            state.set(f);
        }
        let ghost post = state;
        write_handle.release_write(state);
        Ghost((pre, post))
    }

    /// Installs `hook` as the cell's observer, replacing any previous one,
    /// inside an exclusive critical section.  No notification fires for the
    /// installation itself, and the version does not move.
    pub fn hook(&self, hook: W) -> (r: Ghost<(CellState<T, W>, CellState<T, W>)>)
        ensures
            ({
                let (pre, post) = r@;
                &&& pre.intact() && post.intact()
                &&& post.model() == pre.model().after_hook()
                &&& post.hook_state() == Some(hook)
            }),
    {
        proof {
            use_type_invariant(self);
        }
        let (mut state, write_handle) = self.lock.acquire_write();
        let ghost pre = state;
        state.install_hook(hook);
        let ghost post = state;
        write_handle.release_write(state);
        Ghost((pre, post))
    }

    /// Removes and returns the cell's observer: exactly the one the state
    /// observed at the section's entry held, if any; the section empties
    /// the hook slot and changes nothing else.
    pub fn take_hook(&self) -> (r: (Option<W>, Ghost<(CellState<T, W>, CellState<T, W>)>))
        ensures
            ({
                let (pre, post) = r.1@;
                &&& pre.intact() && post.intact()
                &&& post.model() == pre.model().after_unhook()
                &&& r.0 == pre.hook_state()
                &&& post.hook_state() is None
                &&& r.0 is Some <==> pre.model().hooked
            }),
    {
        proof {
            use_type_invariant(self);
        }
        let (mut state, write_handle) = self.lock.acquire_write();
        let ghost pre = state;
        proof {
            state.lemma_hooked_iff_hook_state();
        }
        let h = state.take_hook();
        let ghost post = state;
        write_handle.release_write(state);
        (h, Ghost((pre, post)))
    }

    /// If this is the cell's last handle, consumes the cell and hands out
    /// the protected value; otherwise hands the handle back unchanged.
    ///
    /// The lock keeps its content out of the ordinary drop path, so a caller
    /// who needs the payload released deterministically consumes the final
    /// handle through this method instead of letting it fall out of scope.
    pub fn try_into_value(self) -> (r: Result<T, Self>)
        ensures
            r matches Err(s) ==> s == self,
    {
        proof {
            use_type_invariant(&self);
        }
        let Slock { lock, init } = self;
        match unwrap_arc(lock) {
            Ok(rwlock) => Ok(rwlock.into_inner().into_value()),
            Err(shared) => Err(Slock { lock: shared, init }),
        }
    }
}

impl<T, Wi: SlockHook<T>, Wo: SlockHook<Slock<T, Wi>>> Slock<Slock<T, Wi>, Wo> {
    /// Converts a cell of cells into its inner handle: returns a handle
    /// aliasing exactly the inner cell the observed state stored.  Which
    /// cell that is when outer writers race is decided by the read critical
    /// section alone.
    pub fn flatten(&self) -> (r: (Slock<T, Wi>, Ghost<CellState<Slock<T, Wi>, Wo>>))
        ensures
            r.1@.intact(),
            r.0 == r.1@.model().value,
    {
        proof {
            use_type_invariant(self);
        }
        let handle = self.lock.acquire_read();
        let ghost obs = handle.view();
        let inner = handle.borrow().borrow_value().split();
        handle.release_read();
        (inner, Ghost(obs))
    }
}

impl<T: Copy, W: SlockHook<T>> Slock<T, W> {
    /// A copy of the value the observed state held during this read
    /// critical section.
    pub fn get(&self) -> (r: (T, Ghost<CellState<T, W>>))
        ensures
            r.1@.intact(),
            r.0 == r.1@.model().value,
    {
        proof {
            use_type_invariant(self);
        }
        let handle = self.lock.acquire_read();
        let ghost obs = handle.view();
        let v = handle.borrow().get();
        handle.release_read();
        (v, Ghost(obs))
    }
}

impl<T: Clone, W: SlockHook<T>> Slock<T, W> {
    /// A clone of the value the observed state held during this read
    /// critical section.
    pub fn get_clone(&self) -> (r: (T, Ghost<CellState<T, W>>))
        ensures
            r.1@.intact(),
            cloned(r.1@.model().value, r.0),
    {
        proof {
            use_type_invariant(self);
        }
        let handle = self.lock.acquire_read();
        let ghost obs = handle.view();
        let v = handle.borrow().get_clone();
        handle.release_read();
        (v, Ghost(obs))
    }

    /// Creates an independently owned cell: a fresh cell, at version 0 with
    /// no hook, holding a clone of the value the observed state of this
    /// cell held.  Later mutations of either cell never reach the other.
    pub fn clone_deep(&self) -> (r: (Self, Ghost<CellState<T, W>>))
        ensures
            r.1@.intact(),
            cloned(r.1@.model().value, r.0.initial().value),
            r.0.initial() == CellModel::init(r.0.initial().value),
    {
        let (v, obs) = self.get_clone();
        (Slock::new(v), obs)
    }
}

} // verus!
