//! Dimensionality of a space.

use vstd::prelude::*;

verus! {

/// The number of independent scalar components that one value of a space
/// occupies.
#[derive(Clone, Copy, Debug, PartialEq, Eq, Structural)]
pub enum Dim {
    One,
    Many(usize),
}

impl View for Dim {
    type V = nat;

    /// The number of components.
    open spec fn view(&self) -> nat {
        match *self {
            Dim::One => 1,
            Dim::Many(n) => n as nat,
        }
    }
}

impl Dim {
    /// The dimensionality of a scalar space.
    pub fn one() -> (d: Dim)
        ensures
            d == Dim::One,
    {
        Dim::One
    }

    /// The number of components.
    pub fn count(self) -> (n: usize)
        ensures
            n == self@,
    {
        match self {
            Dim::One => 1,
            Dim::Many(n) => n,
        }
    }
}

} // verus!
