//! Randomised effect parameters.
use vstd::prelude::*;

verus! {

/// A parameter that is drawn anew for every particle: a base value spread
/// at random by some amount.
pub trait Random<V> {
    /// Draws one value.
    fn rand(&self) -> V;
}

} // verus!
