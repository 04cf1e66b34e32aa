//! Cardinality of a space.

use vstd::prelude::*;

verus! {

/// The number of values in a space: a finite count, or infinitely many.
///
/// `Finite(0)` is the cardinality of the empty space.
#[derive(Clone, Copy, Debug, PartialEq, Eq, Structural)]
pub enum Card {
    Finite(usize),
    Infinite,
}

/// The count of a disjoint union, `None` standing for infinitely many.
pub open spec fn union_count(a: Option<nat>, b: Option<nat>) -> Option<nat> {
    match (a, b) {
        (Some(m), Some(n)) => Some(m + n),
        _ => None,
    }
}

/// The count kept for an intersection, `None` standing for infinitely many:
/// the smaller of the two counts, an infinite one being larger than any
/// finite one.
pub open spec fn intersection_count(a: Option<nat>, b: Option<nat>) -> Option<nat> {
    match (a, b) {
        (Some(m), Some(n)) => Some(if m <= n { m } else { n }),
        (Some(m), None) => Some(m),
        (None, Some(n)) => Some(n),
        (None, None) => None,
    }
}

impl View for Card {
    type V = Option<nat>;

    /// The count as a mathematical value, `None` standing for infinitely many.
    open spec fn view(&self) -> Option<nat> {
        match *self {
            Card::Finite(n) => Some(n as nat),
            Card::Infinite => None,
        }
    }
}

impl Card {
    /// Whether the union of `self` and `other` has a count that a `Card` can hold.
    pub open spec fn union_fits(self, other: Card) -> bool {
        match union_count(self@, other@) {
            Some(n) => n <= usize::MAX,
            None => true,
        }
    }

    /// The cardinality of the disjoint union of two spaces with these
    /// cardinalities: counts add, and anything infinite makes the union
    /// infinite.
    pub fn union(self, other: Card) -> (r: Card)
        requires
            self.union_fits(other),
        ensures
            r@ == union_count(self@, other@),
    {
        match (self, other) {
            (Card::Finite(m), Card::Finite(n)) => Card::Finite(m + n),
            _ => Card::Infinite,
        }
    }

    /// As [`Card::union`], for any two cardinalities: `None` exactly when both
    /// are finite and their sum is too large for a `Card`.
    pub fn checked_union(self, other: Card) -> (r: Option<Card>)
        ensures
            r is Some <==> self.union_fits(other),
            r is Some ==> r.unwrap()@ == union_count(self@, other@),
    {
        match (self, other) {
            (Card::Finite(m), Card::Finite(n)) => match m.checked_add(n) {
                Some(s) => Some(Card::Finite(s)),
                None => None,
            },
            _ => Some(Card::Infinite),
        }
    }

    /// The cardinality kept for the intersection of two spaces with these
    /// cardinalities. No values are compared: a finite operand bounds the
    /// result, the smaller one where both are finite, and two infinite
    /// operands give an infinite result.
    pub fn intersection(self, other: Card) -> (r: Card)
        ensures
            r@ == intersection_count(self@, other@),
    {
        match (self, other) {
            (Card::Finite(m), Card::Finite(n)) => Card::Finite(if m <= n { m } else { n }),
            (Card::Finite(m), Card::Infinite) => Card::Finite(m),
            (Card::Infinite, Card::Finite(n)) => Card::Finite(n),
            (Card::Infinite, Card::Infinite) => Card::Infinite,
        }
    }
}

/// Two cardinalities are equal exactly when their counts are: two finite ones
/// with the same number, or two infinite ones.
pub proof fn lemma_equal_by_count(a: Card, b: Card)
    ensures
        (a == b) <==> (a@ == b@),
{
}

} // verus!
