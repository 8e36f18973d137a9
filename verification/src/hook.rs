use vstd::prelude::*;

verus! {

/// An observer that can sit in a cell's hook slot.
///
/// After every successful mutation the cell calls `on_set` once, with a
/// reference to the value that was just written.  A cell holds at most one
/// hook at a time; installing a new one replaces the old one.
///
/// What one notification does to the observer is the observer's own
/// business, stated by its [`notified`](SlockHook::notified) relation: the
/// cell promises to its callers that each successful mutation steps the
/// installed observer through that relation exactly once, with the new
/// value.
pub trait SlockHook<T> where Self: Sized {
    /// The observer's own account of one notification: how `post` may
    /// follow from `pre` when the observer is told that `value` was
    /// written.
    spec fn notified(pre: Self, post: Self, value: T) -> bool;

    /// Called once with the freshly written value after each successful
    /// mutation of the cell the hook is installed in.
    fn on_set(&mut self, value: &T)
        ensures
            Self::notified(*old(self), *final(self), *value),
    ;
}

/// The hook type of a cell that nobody observes: every notification is
/// discarded.  This is the default hook slot type of a cell.
pub struct NoHook;

impl<T> SlockHook<T> for NoHook {
    /// A discarded notification promises nothing.
    open spec fn notified(pre: NoHook, post: NoHook, value: T) -> bool {
        true
    }

    fn on_set(&mut self, _value: &T) {
    }
}

/// A hook that counts how often it was notified.
///
/// The count saturates at `u64::MAX` instead of overflowing; until then it
/// equals the number of notifications received.
pub struct CountHook {
    count: u64,
}

impl CountHook {
    /// A fresh counter that has seen no notifications.
    pub fn new() -> (h: CountHook)
        ensures
            h.count() == 0,
    {
        CountHook { count: 0 }
    }

    /// How many notifications this hook has received so far.
    pub closed spec fn count(&self) -> u64 {
        self.count
    }

    /// Reads the counter.
    pub fn hits(&self) -> (n: u64)
        ensures
            n == self.count(),
    {
        self.count
    }
}

impl<T> SlockHook<T> for CountHook {
    /// One notification counts one hit, saturating at the counter's limit.
    open spec fn notified(pre: CountHook, post: CountHook, value: T) -> bool {
        post.count() == if pre.count() < u64::MAX {
            (pre.count() + 1) as u64
        } else {
            u64::MAX
        }
    }

    fn on_set(&mut self, _value: &T) {
        if self.count < u64::MAX {
            self.count = self.count + 1;
        }
    }
}

} // verus!
