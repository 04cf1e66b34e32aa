//! The space of the natural numbers.

use crate::card::Card;
use crate::dim::Dim;
use crate::space::{BoundedSpace, Space};
use rand::rngs::StdRng;
use vstd::pervasive::unreached;
use vstd::prelude::*;

verus! {

/// The set of all natural numbers.
#[derive(Debug, Clone, Copy, PartialEq, Eq, Structural)]
pub struct Naturals;

impl Space for Naturals {
    type Value = u64;

    open spec fn has(&self, v: u64) -> bool {
        true
    }

    open spec fn spec_dim(&self) -> Dim {
        Dim::One
    }

    open spec fn spec_card(&self) -> Card {
        Card::Infinite
    }

    /// No uniform distribution exists over the natural numbers.
    open spec fn can_sample(&self) -> bool {
        false
    }

    fn dim(&self) -> Dim {
        Dim::one()
    }

    fn card(&self) -> Card {
        Card::Infinite
    }

    /// Not offered: the precondition cannot be met, and a call from code that
    /// was not verified aborts.
    fn sample(&self, rng: &mut StdRng) -> u64 {
        unreached()
    }
}

impl BoundedSpace for Naturals {
    open spec fn spec_inf(&self) -> Option<u64> {
        Some(0)
    }

    open spec fn spec_sup(&self) -> Option<u64> {
        None
    }

    fn inf(&self) -> Option<u64> {
        Some(0)
    }

    fn sup(&self) -> Option<u64> {
        None
    }

    fn contains(&self, v: u64) -> bool {
        true
    }

    proof fn lemma_bounds_are_members(&self) {
    }
}

} // verus!
