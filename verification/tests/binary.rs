use rand::rngs::StdRng;
use rand::SeedableRng;
use serde::de::{Deserialize, Deserializer, Visitor};
use serde::ser::{Serialize, Serializer};
use serde_test::{assert_tokens, Token};
use spaces::{Binary, BoundedSpace, Card, Dim, FiniteSpace, Space, Surjection};
use std::fmt;

/// `Binary` as serde sees it: a unit record under the library's name for it.
#[derive(Debug, PartialEq)]
struct Record(Binary);

impl Serialize for Record {
    fn serialize<S: Serializer>(&self, serializer: S) -> Result<S::Ok, S::Error> {
        serializer.serialize_unit_struct(Binary::record_name())
    }
}

struct RecordVisitor;

impl<'de> Visitor<'de> for RecordVisitor {
    type Value = Record;

    fn expecting(&self, formatter: &mut fmt::Formatter) -> fmt::Result {
        formatter.write_str("unit struct Binary")
    }

    fn visit_unit<E>(self) -> Result<Record, E> {
        Ok(Record(Binary))
    }
}

impl<'de> Deserialize<'de> for Record {
    fn deserialize<D: Deserializer<'de>>(deserializer: D) -> Result<Record, D::Error> {
        deserializer.deserialize_unit_struct(Binary::record_name(), RecordVisitor)
    }
}

#[test]
fn test_dim() {
    let d = Binary;

    assert_eq!(d.dim(), Dim::one());
}

#[test]
fn binary_test_card() {
    let d = Binary;

    assert_eq!(d.card(), Card::Finite(2));
}

#[test]
fn binary_test_bounds() {
    let d = Binary;

    assert_eq!(d.inf().unwrap(), false);
    assert_eq!(d.sup().unwrap(), true);

    assert!(d.contains(false));
    assert!(d.contains(true));
}

#[test]
fn binary_test_surjection() {
    let d = Binary;

    assert_eq!(d.map(true), true);
    assert_eq!(d.map(false), false);
}

#[test]
fn binary_test_serialisation() {
    let d = Record(Binary);

    assert_tokens(&d, &[Token::UnitStruct { name: "Binary" }]);
}

#[test]
fn binary_dim_is_one_component() {
    assert_eq!(Binary.dim(), Dim::One);
    assert_eq!(Binary.dim().count(), 1);
}

#[test]
fn binary_enumeration_is_false_then_true() {
    let d = Binary;

    assert_eq!(d.iter().collect::<Vec<bool>>(), vec![false, true]);
    assert_eq!(d.into_iter().collect::<Vec<bool>>(), vec![false, true]);
    // A second traversal starts over.
    assert_eq!(d.iter().collect::<Vec<bool>>(), vec![false, true]);
}

#[test]
fn binary_enumeration_by_index() {
    let d = Binary;

    assert_eq!(d.nth(0), Some(false));
    assert_eq!(d.nth(1), Some(true));
    assert_eq!(d.nth(2), None);
    assert_eq!(d.nth(usize::MAX), None);
}

#[test]
fn binary_enumeration_spans_the_bounds() {
    let d = Binary;
    let all: Vec<bool> = d.iter().collect();

    assert_eq!(all.len(), 2);
    assert_eq!(all.first().copied(), d.inf());
    assert_eq!(all.last().copied(), d.sup());
    for v in all {
        assert!(d.contains(v));
    }
}

#[test]
fn binary_sampling_reaches_both_values() {
    let d = Binary;
    let mut rng = StdRng::from_seed([11u8; 32]);
    let mut seen_false = false;
    let mut seen_true = false;

    for _ in 0..1000 {
        let s = d.sample(&mut rng);
        assert!(d.contains(s));
        if s {
            seen_true = true;
        } else {
            seen_false = true;
        }
    }

    assert!(seen_false);
    assert!(seen_true);
}

#[test]
fn binary_text() {
    assert_eq!(Binary.to_text(), "{0, 1}");
}

#[test]
fn binary_record_name() {
    assert_eq!(Binary::record_name(), "Binary");
}
