//! Mappings from one set of values onto another.

use vstd::prelude::*;

verus! {

/// A total, deterministic mapping from values of `X` onto values of `Y`.
pub trait Surjection<X, Y> {
    /// The value that `from` is mapped onto.
    spec fn image(&self, from: X) -> Y;

    /// Maps a value of the domain onto the codomain.
    fn map(&self, from: X) -> (to: Y)
        ensures
            to == self.image(from),
    ;
}

} // verus!
