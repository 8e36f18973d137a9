use vstd::prelude::*;

use crate::cell::Slock;
use crate::hook::NoHook;
use crate::hook::SlockHook;

verus! {

/// A guarded companion of `T`: a cell holding a `T`, wrapped as a named type
/// so that APIs can speak of "the guarded counterpart of `T`" rather than of
/// a bare handle.
#[verifier::reject_recursive_types(T)]
#[verifier::reject_recursive_types(W)]
pub struct Slocker<T, W: SlockHook<T> = NoHook>(pub Slock<T, W>);

/// Types that have a guarded companion type.
///
/// Every sized type does, through the blanket implementation below: its
/// companion is [`Slocker<T>`], built around any handle to a cell of `T`.
pub trait Slockable where Self: Sized {
    /// The guarded companion type of `Self`.
    type Slocker;

    /// Wraps a handle to a cell of `Self` into its companion type.
    fn get_slocker(slock: Slock<Self>) -> Self::Slocker;
}

impl<T> Slockable for T {
    type Slocker = Slocker<T, NoHook>;

    fn get_slocker(slock: Slock<T>) -> (r: Slocker<T, NoHook>)
        ensures
            r.0 == slock,
    {
        Slocker(slock)
    }
}

} // verus!
