//! Ambient context: the properties that are current while events are
//! emitted, and that the runtime attaches to each of them.

use vstd::prelude::*;
use crate::empty::Empty;

verus! {

/// Storage for ambient properties, which are attached to every event
/// emitted while they're current.
pub trait Ctxt {
    /// The properties that are current.
    type Current;

    /// Call `with` exactly once, on the current properties, and return what
    /// it returns. The current properties are those of the most recently
    /// entered frame, and may be empty.
    fn with_current<R, F: FnOnce(&Self::Current) -> R>(&self, with: F) -> (r: R)
        requires
            forall|current: &Self::Current| #[trigger] call_requires(with, (current,)),
        ensures
            exists|current: &Self::Current| #[trigger] call_ensures(with, (current,), r),
    ;
}

impl Ctxt for Empty {
    type Current = Empty;

    /// The current properties are always empty.
    fn with_current<R, F: FnOnce(&Empty) -> R>(&self, with: F) -> (r: R) {
        let r = with(&Empty);
        assert(call_ensures(with, (&Empty,), r));
        r
    }
}

} // verus!
