//! Range checks for pairs of ordered values.

use vstd::prelude::*;
use crate::function::Primitive;

verus! {

/// Helper trait that makes range checks read naturally.
///
/// It is implemented for pairs `(low, high)` of values whose order is
/// described by [`Primitive`].
pub trait Contains<T> {
    /// Whether `value` lies in this range, as a statement over the
    /// mathematical models of the bounds and the value.
    spec fn contains_spec(&self, value: T) -> bool;

    /// Returns `true` if `value` lies in this range.
    ///
    /// The exact range check is `low <= value && value <= high`.
    fn contains(&self, value: T) -> (r: bool)
        ensures
            r == self.contains_spec(value),
    ;
}

impl<T: Primitive> Contains<T> for (T, T) {
    open spec fn contains_spec(&self, value: T) -> bool {
        self.0.key() <= value.key() && value.key() <= self.1.key()
    }

    fn contains(&self, value: T) -> bool {
        self.0.le(value) && value.le(self.1)
    }
}

impl<'t, T: Primitive> Contains<&'t T> for (T, T) {
    open spec fn contains_spec(&self, value: &'t T) -> bool {
        self.0.key() <= value.key() && value.key() <= self.1.key()
    }

    fn contains(&self, value: &'t T) -> bool {
        self.0.le(*value) && (*value).le(self.1)
    }
}

} // verus!
