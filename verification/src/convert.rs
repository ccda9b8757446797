//! A small carrier for values in transit between representations.
use vstd::prelude::*;

verus! {

/// Wraps a value while it is converted from one representation to another.
#[derive(Debug, Clone)]
pub struct Convert<T: core::fmt::Debug + Clone>(pub T);

impl<T: core::fmt::Debug + Clone> Convert<T> {
    /// Wraps a value.
    pub fn new(from: T) -> (r: Convert<T>)
        ensures
            r.0 == from,
    {
        Convert(from)
    }

    /// Unwraps the value.
    pub fn into_inner(self) -> (r: T)
        ensures
            r == self.0,
    {
        self.0
    }
}

} // verus!
