//! Utility functions and traits.

use vstd::prelude::*;

verus! {

/// A readable `String` rendering of a value, for types that cannot
/// offer `Display`.
pub trait SimpleToString {
    /// Render the value as a `String`.
    fn sstr(&self) -> String;
}

/// Simple default comparison, for callers that skip storing
/// default-valued fields. Nothing is promised of the answer: what the
/// type's `Default` and `PartialEq` return is the implementor's
/// business.
pub fn is_default<T: Default + PartialEq>(t: &T) -> bool {
    let d = T::default();
    *t == d
}

} // verus!
