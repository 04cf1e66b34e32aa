//! The space of the two truth values.

use crate::card::Card;
use crate::dim::Dim;
use crate::mapping::Surjection;
use crate::random::draw_between;
use crate::space::{BoundedSpace, FiniteSpace, Space};
use rand::rngs::StdRng;
use vstd::prelude::*;
use vstd::std_specs::vec::{axiom_spec_into_iter, into_iter_elts};

verus! {

/// The space `{false, true}`.
#[derive(Debug, PartialEq, Eq, Clone, Copy, Structural)]
pub struct Binary;

impl Space for Binary {
    type Value = bool;

    open spec fn has(&self, v: bool) -> bool {
        true
    }

    open spec fn spec_dim(&self) -> Dim {
        Dim::One
    }

    open spec fn spec_card(&self) -> Card {
        Card::Finite(2)
    }

    open spec fn can_sample(&self) -> bool {
        true
    }

    fn dim(&self) -> Dim {
        Dim::one()
    }

    fn card(&self) -> Card {
        Card::Finite(2)
    }

    /// Draws one of the two indices of the enumeration and gives the value
    /// that [`FiniteSpace::nth`] has there.
    fn sample(&self, rng: &mut StdRng) -> bool {
        let index: usize = draw_between(rng, 0, 2);
        self.nth(index).unwrap()
    }
}

impl BoundedSpace for Binary {
    open spec fn spec_inf(&self) -> Option<bool> {
        Some(false)
    }

    open spec fn spec_sup(&self) -> Option<bool> {
        Some(true)
    }

    fn inf(&self) -> Option<bool> {
        Some(false)
    }

    fn sup(&self) -> Option<bool> {
        Some(true)
    }

    fn contains(&self, v: bool) -> bool {
        true
    }

    proof fn lemma_bounds_are_members(&self) {
    }
}

impl FiniteSpace for Binary {
    open spec fn elements(&self) -> Seq<bool> {
        seq![false, true]
    }

    fn nth(&self, index: usize) -> Option<bool> {
        if index == 0 {
            Some(false)
        } else if index == 1 {
            Some(true)
        } else {
            None
        }
    }

    proof fn lemma_elements_exact(&self) {
        let e = self.elements();
        assert(e[0] == false && e[1] == true);
        assert forall|v: bool| self.has(v) <==> #[trigger] e.contains(v) by {
            if v {
                assert(e[1] == v);
            } else {
                assert(e[0] == v);
            }
        }
    }

    proof fn lemma_elements_span_bounds(&self) {
    }
}

impl Binary {
    /// A fresh traversal of the space in the order of enumeration: `false`,
    /// then `true`.
    pub fn iter(&self) -> (r: std::vec::IntoIter<bool>)
        ensures
            into_iter_elts(r) == self.elements(),
    {
        broadcast use axiom_spec_into_iter;

        let values = vec![false, true];
        assert(values@ =~= self.elements());
        values.into_iter()
    }

    /// The notation of the set: `{0, 1}`.
    pub fn to_text(&self) -> (r: String)
        ensures
            r@ == "{0, 1}"@,
    {
        "{0, 1}".to_owned()
    }
}

impl IntoIterator for Binary {
    type Item = bool;

    type IntoIter = std::vec::IntoIter<bool>;

    /// The traversal that [`Binary::iter`] gives.
    fn into_iter(self) -> (r: std::vec::IntoIter<bool>)
        ensures
            into_iter_elts(r) == self.elements(),
    {
        self.iter()
    }
}

impl Surjection<bool, bool> for Binary {
    open spec fn image(&self, from: bool) -> bool {
        from
    }

    fn map(&self, from: bool) -> bool {
        from
    }
}

} // verus!
