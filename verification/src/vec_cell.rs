use vstd::prelude::*;

use crate::cell::Slock;
use crate::hook::SlockHook;
use crate::state::CellState;
use crate::state::hook_notified;

verus! {

impl<T, W: SlockHook<Vec<T>>> Slock<Vec<T>, W> {
    /// Appends `value` to a sequence-valued cell, inside one exclusive
    /// critical section.
    ///
    /// When appends race, the write critical sections serialize them in
    /// some scheduling order, so callers must not assume submission order;
    /// the ghost pair says that this call's own section appended exactly
    /// `value` to whatever sequence it found.
    pub fn push(&self, value: T) -> (r: Ghost<(CellState<Vec<T>, W>, CellState<Vec<T>, W>)>)
        ensures
            ({
                let (pre, post) = r@;
                &&& pre.intact() && post.intact()
                &&& pre.model().version < u64::MAX ==> {
                    &&& post.model() == pre.model().after_set(post.model().value)
                    &&& post.model().value@ == pre.model().value@.push(value)
                    &&& hook_notified(pre.hook_state(), post.hook_state(), post.model().value)
                }
                &&& pre.model().version == u64::MAX ==> post == pre
            }),
    {
        let f = |v: Vec<T>| -> (r2: Vec<T>)
            ensures
                r2@ == v@.push(value),
            {
                let mut v2 = v;
                v2.push(value);
                v2
            };
        self.set(f)
    }
}

} // verus!
