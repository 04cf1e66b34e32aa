//! Finite ordinal spaces.

use crate::card::Card;
use crate::dim::Dim;
use crate::mapping::Surjection;
use crate::random::draw_between;
use crate::space::{BoundedSpace, FiniteSpace, Space};
use rand::rngs::StdRng;
use std::ops::Range;
use vstd::prelude::*;

verus! {

/// The space of the indices `0, 1, .., size - 1`.
///
/// A space of size zero is the empty space: it has no bounds, contains
/// nothing, and cannot be sampled.
#[derive(Clone, Copy, Debug, PartialEq, Eq, Structural)]
pub struct Discrete {
    size: usize,
}

impl View for Discrete {
    type V = nat;

    /// The number of indices.
    closed spec fn view(&self) -> nat {
        self.size as nat
    }
}

impl Discrete {
    /// The space of the first `size` indices.
    pub fn new(size: usize) -> (d: Discrete)
        ensures
            d@ == size,
    {
        Discrete { size }
    }

    /// The number of indices.
    pub fn size(&self) -> (n: usize)
        ensures
            n == self@,
    {
        self.size
    }

    /// The indices of the space as a range, in ascending order.
    pub fn range(&self) -> (r: Range<usize>)
        ensures
            r.start == 0,
            r.end == self@,
    {
        0..self.size
    }

    /// The size of a space is the value of a `usize`.
    pub proof fn lemma_size_fits(&self)
        ensures
            self@ <= usize::MAX,
    {
    }

    /// A space that is not empty has its size as count, zero as infimum and
    /// the index before its size as supremum, and holds exactly the indices
    /// below its size.
    pub proof fn lemma_shape(&self)
        requires
            self@ > 0,
        ensures
            self.spec_card()@ == Some(self@),
            self.spec_inf() == Some(0usize),
            self.spec_sup() == Some((self@ - 1) as usize),
            self@ - 1 <= usize::MAX,
            forall|v: usize| self.has(v) <==> v < self@,
    {
    }

    /// Two spaces are equal exactly when their sizes are.
    pub proof fn lemma_equal_by_size(a: Discrete, b: Discrete)
        ensures
            (a == b) <==> (a@ == b@),
    {
    }
}

impl Space for Discrete {
    type Value = usize;

    open spec fn has(&self, v: usize) -> bool {
        v < self@
    }

    open spec fn spec_dim(&self) -> Dim {
        Dim::One
    }

    open spec fn spec_card(&self) -> Card {
        Card::Finite(self@ as usize)
    }

    open spec fn can_sample(&self) -> bool {
        self@ > 0
    }

    fn dim(&self) -> Dim {
        Dim::one()
    }

    fn card(&self) -> (c: Card)
        ensures
            c@ == Some(self@),
    {
        Card::Finite(self.size)
    }

    /// Draws an index uniformly from `[0, size)`.
    fn sample(&self, rng: &mut StdRng) -> usize {
        draw_between(rng, 0, self.size)
    }
}

impl BoundedSpace for Discrete {
    open spec fn spec_inf(&self) -> Option<usize> {
        if self@ > 0 {
            Some(0)
        } else {
            None
        }
    }

    open spec fn spec_sup(&self) -> Option<usize> {
        if self@ > 0 {
            Some((self@ - 1) as usize)
        } else {
            None
        }
    }

    fn inf(&self) -> Option<usize> {
        if self.size > 0 {
            Some(0)
        } else {
            None
        }
    }

    fn sup(&self) -> Option<usize> {
        if self.size > 0 {
            Some(self.size - 1)
        } else {
            None
        }
    }

    fn contains(&self, v: usize) -> bool {
        v < self.size
    }

    proof fn lemma_bounds_are_members(&self) {
    }
}

impl FiniteSpace for Discrete {
    open spec fn elements(&self) -> Seq<usize> {
        Seq::new(self@, |i: int| i as usize)
    }

    fn nth(&self, index: usize) -> Option<usize> {
        if index < self.size {
            Some(index)
        } else {
            None
        }
    }

    proof fn lemma_elements_exact(&self) {
        let e = self.elements();
        assert forall|v: usize| self.has(v) <==> #[trigger] e.contains(v) by {
            if self.has(v) {
                assert(e[v as int] == v);
            }
        }
    }

    proof fn lemma_elements_span_bounds(&self) {
    }
}

impl Surjection<usize, usize> for Discrete {
    open spec fn image(&self, from: usize) -> usize {
        from
    }

    fn map(&self, from: usize) -> usize {
        from
    }
}

} // verus!
