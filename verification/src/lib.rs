//! A guarded shared-mutable-state cell.
//!
//! A [`Slock`](cell::Slock) is a reference-counted handle to one protected
//! value.  Any number of handles may alias the same cell; reads take a shared
//! critical section, mutations an exclusive one, so the value is never seen
//! half-updated.  Each cell keeps a version counter that grows by exactly one
//! per completed write critical section, and an optional hook that is
//! notified with every newly written value.
//!
//! The state transitions of one cell live in [`state::CellState`], whose
//! contracts are stated over the mathematical [`state::CellModel`];
//! [`laws`] proves the properties that hold of every sequence of such
//! transitions.
//!
//! The lock realizing a cell keeps its payload out of the ordinary drop
//! path: letting the last handle fall out of scope leaks the value instead
//! of dropping it.  Consume the final handle through
//! [`cell::Slock::try_into_value`] where the payload's release matters.
//!
//! One hard usage rule: never touch one cell from inside another cell's
//! reader or mutator function.  Critical sections compose in acquisition
//! order, and nothing here detects or prevents a nested acquisition, so such
//! nesting can deadlock.  Read the other cell first, then pass the plain
//! value in.

pub mod cell;
pub mod hook;
pub mod laws;
pub mod map_cell;
pub mod slocker;
pub mod state;
pub mod vec_cell;

pub use cell::Slock;
pub use map_cell::SlockMap;
pub use slocker::Slockable;
pub use slocker::Slocker;
pub use map_cell::UpsertReport;
pub use hook::CountHook;
pub use hook::NoHook;
pub use hook::SlockHook;
pub use state::CellModel;
pub use state::CellState;
