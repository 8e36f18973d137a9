use vstd::prelude::*;

use crate::hook::SlockHook;

verus! {

/// The mathematical face of one guarded cell: everything its contracts talk
/// about.
///
/// `version` counts completed write critical sections, `value` is the
/// protected payload, `hooked` says whether an observer is installed, and
/// `notes` is the history of values the observer was notified with, oldest
/// first.
#[verifier::ext_equal]
pub struct CellModel<T> {
    pub version: u64,
    pub value: T,
    pub hooked: bool,
    pub notes: Seq<T>,
}

impl<T> CellModel<T> {
    /// The model of a freshly created cell: version 0, no hook, an empty
    /// notification history.
    pub open spec fn init(value: T) -> CellModel<T> {
        CellModel { version: 0, value, hooked: false, notes: Seq::empty() }
    }

    /// One completed write critical section whose mutation produced
    /// `new_value`: the value is replaced, the version is bumped, and the
    /// observer, if any, is notified with the new value.
    pub open spec fn after_set(self, new_value: T) -> CellModel<T> {
        CellModel {
            version: (self.version + 1) as u64,
            value: new_value,
            hooked: self.hooked,
            notes: if self.hooked {
                self.notes.push(new_value)
            } else {
                self.notes
            },
        }
    }

    /// One completed write critical section whose mutation step was skipped
    /// (its time budget elapsed): the value stays, nobody is notified, but
    /// the version is bumped all the same.
    pub open spec fn after_elapsed(self) -> CellModel<T> {
        CellModel { version: (self.version + 1) as u64, ..self }
    }

    /// Installing an observer: only the hook slot changes; no notification
    /// fires for the installation itself.
    pub open spec fn after_hook(self) -> CellModel<T> {
        CellModel { hooked: true, ..self }
    }

    /// Removing the observer, if any.
    pub open spec fn after_unhook(self) -> CellModel<T> {
        CellModel { hooked: false, ..self }
    }
}

/// How an optional hook slot answers one notification of `value`: an
/// installed observer steps through its own `notified` relation exactly
/// once; an empty slot stays empty, and nobody hears anything.
pub open spec fn hook_notified<T, W: SlockHook<T>>(
    pre: Option<W>,
    post: Option<W>,
    value: T,
) -> bool {
    match pre {
        Some(h0) => post matches Some(h1) && W::notified(h0, h1, value),
        None => post is None,
    }
}

/// The state owned by one guarded cell: the payload, the version counter and
/// the hook slot.
///
/// The payload lives in an always-present optional slot: it is taken out only
/// for the duration of a mutation, inside a write critical section, and is
/// restored before the section ends, so no reader ever sees the cell without
/// a fully constructed value.  `intact()` says the slot is full; every public
/// operation both requires and preserves it.
pub struct CellState<T, W> {
    version: u64,
    value: Option<T>,
    hook: Option<W>,
    notes: Ghost<Seq<T>>,
}

impl<T, W: SlockHook<T>> CellState<T, W> {
    /// The payload slot is full, as it is whenever no mutation is mid-flight.
    pub closed spec fn intact(&self) -> bool {
        self.value is Some
    }

    /// The observer currently sitting in the hook slot, if any.
    pub closed spec fn hook_state(&self) -> Option<W> {
        self.hook
    }

    /// The model this state realizes.
    pub closed spec fn model(&self) -> CellModel<T> {
        CellModel {
            version: self.version,
            value: self.value->0,
            hooked: self.hook is Some,
            notes: self.notes@,
        }
    }

    /// The model's hook flag reports exactly whether an observer sits in
    /// the slot.
    pub proof fn lemma_hooked_iff_hook_state(&self)
        ensures
            self.model().hooked <==> self.hook_state() is Some,
    {
    }

    /// A fresh cell state holding `value`.
    pub fn new(value: T) -> (s: Self)
        ensures
            s.intact(),
            s.model() == CellModel::init(value),
            s.hook_state() is None,
    {
        let s = CellState {
            version: 0,
            value: Some(value),
            hook: None,
            notes: Ghost(Seq::empty()),
        };
        proof {
            assert(s.model() =~= CellModel::init(value));
        }
        s
    }

    /// The version counter: how many write critical sections have completed.
    pub fn version(&self) -> (v: u64)
        ensures
            v == self.model().version,
    {
        self.version
    }

    /// Borrows the protected value.
    pub fn borrow_value(&self) -> (r: &T)
        requires
            self.intact(),
        ensures
            *r == self.model().value,
    {
        self.value.as_ref().unwrap()
    }

    /// Restores the payload slot and completes a write critical section:
    /// notify the observer, put the new value in, bump the version.
    fn restore(&mut self, new_value: T)
        requires
            old(self).value is None,
            old(self).version < u64::MAX,
        ensures
            final(self).intact(),
            final(self).model() == (CellModel {
                version: (old(self).version + 1) as u64,
                value: new_value,
                hooked: old(self).hook is Some,
                notes: if old(self).hook is Some {
                    old(self).notes@.push(new_value)
                } else {
                    old(self).notes@
                },
            }),
            hook_notified(old(self).hook_state(), final(self).hook_state(), new_value),
    {
        match &mut self.hook {
            Some(h) => {
                h.on_set(&new_value);
                proof {
                    self.notes@ = self.notes@.push(new_value);
                }
            },
            None => {},
        }
        self.value = Some(new_value);
        self.version = self.version + 1;
    }

    /// Runs one mutation inside a write critical section: the value is taken
    /// out of the slot, handed to `f`, and the result is restored; the
    /// observer, if any, sees the new value, and the version is bumped.
    pub fn set<F: FnOnce(T) -> T>(&mut self, f: F)
        requires
            old(self).intact(),
            old(self).model().version < u64::MAX,
            call_requires(f, (old(self).model().value,)),
        ensures
            final(self).intact(),
            call_ensures(f, (old(self).model().value,), final(self).model().value),
            final(self).model() == old(self).model().after_set(final(self).model().value),
            hook_notified(
                old(self).hook_state(),
                final(self).hook_state(),
                final(self).model().value,
            ),
    {
        let v = self.value.take().unwrap();
        let new_value = f(v);
        self.restore(new_value);
        proof {
            assert(self.model() =~= old(self).model().after_set(self.model().value));
        }
    }

    /// Completes a write critical section whose replacement value was
    /// computed elsewhere: the old value is dropped, `new_value` moves in,
    /// the observer is notified, the version is bumped.
    pub fn commit(&mut self, new_value: T)
        requires
            old(self).intact(),
            old(self).model().version < u64::MAX,
        ensures
            final(self).intact(),
            final(self).model() == old(self).model().after_set(new_value),
            hook_notified(old(self).hook_state(), final(self).hook_state(), new_value),
    {
        let _stale = self.value.take();
        self.restore(new_value);
        proof {
            assert(self.model() =~= old(self).model().after_set(new_value));
        }
    }

    /// Completes a write critical section whose mutation step was skipped
    /// because its time budget elapsed: the value stays and nobody is
    /// notified, but the version is bumped all the same.
    pub fn record_elapsed(&mut self)
        requires
            old(self).intact(),
            old(self).model().version < u64::MAX,
        ensures
            final(self).intact(),
            final(self).model() == old(self).model().after_elapsed(),
            final(self).hook_state() == old(self).hook_state(),
    {
        self.version = self.version + 1;
        proof {
            assert(self.model() =~= old(self).model().after_elapsed());
        }
    }

    /// Installs `hook`, replacing any previous observer.  No notification
    /// fires for the installation itself, and the version does not move.
    pub fn install_hook(&mut self, hook: W)
        requires
            old(self).intact(),
        ensures
            final(self).intact(),
            final(self).model() == old(self).model().after_hook(),
            final(self).hook_state() == Some(hook),
    {
        self.hook = Some(hook);
        proof {
            assert(self.model() =~= old(self).model().after_hook());
        }
    }

    /// Removes and returns the observer, if one is installed.
    pub fn take_hook(&mut self) -> (h: Option<W>)
        requires
            old(self).intact(),
        ensures
            final(self).intact(),
            final(self).model() == old(self).model().after_unhook(),
            h == old(self).hook_state(),
            final(self).hook_state() is None,
    {
        let h = self.hook.take();
        proof {
            assert(self.model() =~= old(self).model().after_unhook());
        }
        h
    }

    /// Consumes the state and hands out the protected value.
    pub fn into_value(self) -> (r: T)
        requires
            self.intact(),
        ensures
            r == self.model().value,
    {
        self.value.unwrap()
    }
}

impl<T: Copy, W: SlockHook<T>> CellState<T, W> {
    /// A copy of the protected value.
    pub fn get(&self) -> (r: T)
        requires
            self.intact(),
        ensures
            r == self.model().value,
    {
        *self.borrow_value()
    }
}

impl<T: Clone, W: SlockHook<T>> CellState<T, W> {
    /// A clone of the protected value.
    pub fn get_clone(&self) -> (r: T)
        requires
            self.intact(),
        ensures
            cloned(self.model().value, r),
    {
        self.borrow_value().clone()
    }
}

} // verus!
