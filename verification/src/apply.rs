//! Applying a change to a value in the middle of an expression.
use vstd::prelude::*;

verus! {

/// A value that a closure can change before it is passed on.
pub trait Apply: Sized {
    /// Runs `cb` on the value and returns what `cb` made of it.
    fn apply<F: FnOnce(Self) -> Self>(self, cb: F) -> (r: Self)
        requires
            call_requires(cb, (self,)),
        ensures
            call_ensures(cb, (self,), r),
    {
        cb(self)
    }
}

impl<T: Sized> Apply for T {}

} // verus!
