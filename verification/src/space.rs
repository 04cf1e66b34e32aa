//! The capabilities of a space, from the weakest to the strongest.

use crate::card::Card;
use crate::dim::Dim;
use rand::rngs::StdRng;
use vstd::prelude::*;

verus! {

/// A set of values of one type, with its dimensionality and cardinality.
pub trait Space {
    /// The type of the values.
    type Value;

    /// Whether `v` is a value of this space.
    spec fn has(&self, v: Self::Value) -> bool;

    /// The dimensionality that [`Space::dim`] reports.
    spec fn spec_dim(&self) -> Dim;

    /// The cardinality that [`Space::card`] reports.
    spec fn spec_card(&self) -> Card;

    /// Whether a value can be drawn from this space.
    spec fn can_sample(&self) -> bool;

    /// The number of scalar components of one value.
    fn dim(&self) -> (d: Dim)
        ensures
            d == self.spec_dim(),
    ;

    /// The number of values.
    fn card(&self) -> (c: Card)
        ensures
            c == self.spec_card(),
    ;

    /// Draws one value of the space with `rng`.
    ///
    /// A space without a sampling procedure has `can_sample()` false, so that
    /// verified code cannot ask it for a value.
    fn sample(&self, rng: &mut StdRng) -> (v: Self::Value)
        requires
            self.can_sample(),
        ensures
            self.has(v),
    ;
}

/// A space that knows its bounds and can test membership.
pub trait BoundedSpace: Space {
    /// The infimum that [`BoundedSpace::inf`] reports.
    spec fn spec_inf(&self) -> Option<Self::Value>;

    /// The supremum that [`BoundedSpace::sup`] reports.
    spec fn spec_sup(&self) -> Option<Self::Value>;

    /// The least value, or `None` where the space has none.
    fn inf(&self) -> (r: Option<Self::Value>)
        ensures
            r == self.spec_inf(),
    ;

    /// The greatest value, or `None` where the space has none.
    fn sup(&self) -> (r: Option<Self::Value>)
        ensures
            r == self.spec_sup(),
    ;

    /// Whether `v` is a value of this space.
    fn contains(&self, v: Self::Value) -> (r: bool)
        ensures
            r == self.has(v),
    ;

    /// A bound that is reported is itself a value of the space.
    proof fn lemma_bounds_are_members(&self)
        ensures
            self.spec_inf() is Some ==> self.has(self.spec_inf().unwrap()),
            self.spec_sup() is Some ==> self.has(self.spec_sup().unwrap()),
    ;
}

/// A bounded space whose values can all be listed.
pub trait FiniteSpace: BoundedSpace {
    /// Every value of the space, once, in the order of enumeration.
    spec fn elements(&self) -> Seq<Self::Value>;

    /// The `index`-th value of the enumeration, or `None` past its end. The
    /// enumeration is the same on every call.
    fn nth(&self, index: usize) -> (r: Option<Self::Value>)
        ensures
            r == if index < self.elements().len() {
                Some(self.elements()[index as int])
            } else {
                None
            },
    ;

    /// The enumeration lists exactly the values of the space, none of them
    /// twice, and as many as the cardinality says.
    proof fn lemma_elements_exact(&self)
        ensures
            self.elements().no_duplicates(),
            forall|v: Self::Value| self.has(v) <==> #[trigger] self.elements().contains(v),
            self.spec_card()@ == Some(self.elements().len()),
    ;

    /// The enumeration of a space that is not empty starts at the infimum and
    /// ends at the supremum.
    proof fn lemma_elements_span_bounds(&self)
        ensures
            self.elements().len() > 0 ==> self.spec_inf() == Some(self.elements().first())
                && self.spec_sup() == Some(self.elements().last()),
            self.elements().len() == 0 ==> self.spec_inf() is None && self.spec_sup() is None,
    ;
}

} // verus!
