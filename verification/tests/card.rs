use spaces::{Card, Dim};

#[test]
fn card_union_adds_finite_counts() {
    assert_eq!(Card::Finite(3).union(Card::Finite(4)), Card::Finite(7));
    assert_eq!(Card::Finite(0).union(Card::Finite(0)), Card::Finite(0));
    assert_eq!(Card::Finite(0).union(Card::Finite(9)), Card::Finite(9));
    assert_eq!(
        Card::Finite(usize::MAX - 1).union(Card::Finite(1)),
        Card::Finite(usize::MAX)
    );
}

#[test]
fn card_union_with_infinite_is_infinite() {
    assert_eq!(Card::Finite(3).union(Card::Infinite), Card::Infinite);
    assert_eq!(Card::Infinite.union(Card::Finite(3)), Card::Infinite);
    assert_eq!(Card::Infinite.union(Card::Infinite), Card::Infinite);
    assert_eq!(Card::Finite(usize::MAX).union(Card::Infinite), Card::Infinite);
}

#[test]
fn card_checked_union() {
    assert_eq!(
        Card::Finite(3).checked_union(Card::Finite(4)),
        Some(Card::Finite(7))
    );
    assert_eq!(
        Card::Finite(usize::MAX).checked_union(Card::Finite(0)),
        Some(Card::Finite(usize::MAX))
    );
    assert_eq!(Card::Finite(usize::MAX).checked_union(Card::Finite(1)), None);
    assert_eq!(
        Card::Finite(usize::MAX).checked_union(Card::Finite(usize::MAX)),
        None
    );
    assert_eq!(
        Card::Finite(usize::MAX).checked_union(Card::Infinite),
        Some(Card::Infinite)
    );
    assert_eq!(
        Card::Infinite.checked_union(Card::Infinite),
        Some(Card::Infinite)
    );
}

#[test]
fn card_intersection_keeps_the_finite_operand() {
    assert_eq!(Card::Finite(3).intersection(Card::Infinite), Card::Finite(3));
    assert_eq!(Card::Infinite.intersection(Card::Finite(4)), Card::Finite(4));
    assert_eq!(Card::Finite(0).intersection(Card::Infinite), Card::Finite(0));
}

#[test]
fn card_intersection_of_two_alike() {
    assert_eq!(Card::Infinite.intersection(Card::Infinite), Card::Infinite);
    assert_eq!(Card::Finite(3).intersection(Card::Finite(4)), Card::Finite(3));
    assert_eq!(Card::Finite(4).intersection(Card::Finite(3)), Card::Finite(3));
    assert_eq!(Card::Finite(5).intersection(Card::Finite(5)), Card::Finite(5));
    assert_eq!(Card::Finite(0).intersection(Card::Finite(5)), Card::Finite(0));
}

#[test]
fn card_equality_is_structural() {
    assert_eq!(Card::Finite(2), Card::Finite(2));
    assert_ne!(Card::Finite(2), Card::Finite(3));
    assert_eq!(Card::Infinite, Card::Infinite);
    assert_ne!(Card::Finite(0), Card::Infinite);
}

#[test]
fn dim_counts_components() {
    assert_eq!(Dim::one(), Dim::One);
    assert_eq!(Dim::one().count(), 1);
    assert_eq!(Dim::Many(3).count(), 3);
    assert_eq!(Dim::Many(0).count(), 0);
    assert_ne!(Dim::Many(2), Dim::One);
}
