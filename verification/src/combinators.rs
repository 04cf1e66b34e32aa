//! Unions and intersections of spaces.
//!
//! A combination keeps its two operands and derives its cardinality from
//! theirs. It is bookkeeping: the operands may hold values of different types,
//! and no values are merged or compared.

use crate::card::{intersection_count, union_count, Card};
use crate::space::Space;
use vstd::prelude::*;

verus! {

/// The disjoint union of two spaces: the values of both, side by side.
pub struct Union<A: Space, B: Space> {
    left: A,
    right: B,
}

/// The intersection of two spaces.
pub struct Intersection<A: Space, B: Space> {
    left: A,
    right: B,
}

impl<A: Space, B: Space> Union<A, B> {
    /// The count of the union is one that a `Card` can hold.
    #[verifier::type_invariant]
    spec fn counted(self) -> bool {
        self.left.spec_card().union_fits(self.right.spec_card())
    }

    /// The first operand.
    pub closed spec fn spec_left(&self) -> A {
        self.left
    }

    /// The second operand.
    pub closed spec fn spec_right(&self) -> B {
        self.right
    }

    /// The first operand.
    pub fn left(&self) -> (a: &A)
        ensures
            *a == self.spec_left(),
    {
        &self.left
    }

    /// The second operand.
    pub fn right(&self) -> (b: &B)
        ensures
            *b == self.spec_right(),
    {
        &self.right
    }

    /// The number of values: those of the first operand and those of the
    /// second, infinitely many where either has infinitely many.
    pub fn card(&self) -> (c: Card)
        ensures
            c@ == union_count(self.spec_left().spec_card()@, self.spec_right().spec_card()@),
    {
        proof {
            use_type_invariant(self);
        }
        self.left.card().union(self.right.card())
    }
}

impl<A: Space, B: Space> Intersection<A, B> {
    /// The first operand.
    pub closed spec fn spec_left(&self) -> A {
        self.left
    }

    /// The second operand.
    pub closed spec fn spec_right(&self) -> B {
        self.right
    }

    /// The first operand.
    pub fn left(&self) -> (a: &A)
        ensures
            *a == self.spec_left(),
    {
        &self.left
    }

    /// The second operand.
    pub fn right(&self) -> (b: &B)
        ensures
            *b == self.spec_right(),
    {
        &self.right
    }

    /// The number of values kept for the intersection: the count of the
    /// finite operand where one is infinite, the smaller count where both are
    /// finite, and infinitely many where both are infinite.
    pub fn card(&self) -> (c: Card)
        ensures
            c@ == intersection_count(
                self.spec_left().spec_card()@,
                self.spec_right().spec_card()@,
            ),
    {
        self.left.card().intersection(self.right.card())
    }
}

/// The disjoint union of `a` and `b`.
///
/// The two counts, where both are finite, must add up to a `usize`;
/// [`try_union`] tests that.
pub fn union<A: Space, B: Space>(a: A, b: B) -> (u: Union<A, B>)
    requires
        a.spec_card().union_fits(b.spec_card()),
    ensures
        u.spec_left() == a,
        u.spec_right() == b,
{
    Union { left: a, right: b }
}

/// The disjoint union of `a` and `b`, or `None` where both are finite and
/// their counts do not add up to a `usize`.
pub fn try_union<A: Space, B: Space>(a: A, b: B) -> (r: Option<Union<A, B>>)
    ensures
        r is Some <==> a.spec_card().union_fits(b.spec_card()),
        r is Some ==> r.unwrap().spec_left() == a && r.unwrap().spec_right() == b,
{
    match a.card().checked_union(b.card()) {
        Some(_) => Some(Union { left: a, right: b }),
        None => None,
    }
}

/// The intersection of `a` and `b`.
pub fn intersection<A: Space, B: Space>(a: A, b: B) -> (i: Intersection<A, B>)
    ensures
        i.spec_left() == a,
        i.spec_right() == b,
{
    Intersection { left: a, right: b }
}

} // verus!
