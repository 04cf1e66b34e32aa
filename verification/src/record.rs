//! The persisted form of the spaces.
//!
//! [`Binary`] and [`Naturals`] are records without fields. A [`Discrete`] space
//! is a record with the one field `size`, in a named or a positional encoding.
//! Decoding goes through [`Discrete::new`], so that whatever else a space
//! holds is derived from the size and never read.

use crate::binary::Binary;
use crate::discrete::Discrete;
use crate::naturals::Naturals;
use vstd::prelude::*;

verus! {

/// Why a record does not decode to a [`Discrete`] space.
#[derive(Clone, Copy, Debug, PartialEq, Eq, Structural)]
pub enum RecordError {
    /// The positional encoding holds this many values, too few for the field.
    InvalidLength(usize),
    /// A key names no field of the record.
    UnknownField,
    /// The field `size` occurs a second time.
    DuplicateField,
    /// The field `size` does not occur.
    MissingField,
}

/// Whether `key` is the name of the field `size`.
pub open spec fn is_size_key(key: Seq<char>) -> bool {
    key == "size"@
}

/// What is decided when `key` arrives after the entries that gave `seen`: the
/// value that follows is read as the size, or the record is refused.
pub open spec fn key_verdict(seen: Option<usize>, key: Seq<char>) -> Result<(), RecordError> {
    if !is_size_key(key) {
        Err(RecordError::UnknownField)
    } else if seen is Some {
        Err(RecordError::DuplicateField)
    } else {
        Ok(())
    }
}

/// The size that a named encoding gives, or why it gives none.
///
/// The entries are taken in order and the first fault decides. Only an
/// encoding of exactly one entry, with the key `size`, decodes: an empty one
/// misses the field, and a second entry is either a duplicate or unknown.
pub open spec fn decode_entries(entries: Seq<(Seq<char>, usize)>) -> Result<usize, RecordError> {
    if entries.len() == 0 {
        Err(RecordError::MissingField)
    } else if !is_size_key(entries[0].0) {
        Err(RecordError::UnknownField)
    } else if entries.len() == 1 {
        Ok(entries[0].1)
    } else if is_size_key(entries[1].0) {
        Err(RecordError::DuplicateField)
    } else {
        Err(RecordError::UnknownField)
    }
}

/// The keys and values of `entries` as plain values.
pub open spec fn entries_view(entries: Seq<(&str, usize)>) -> Seq<(Seq<char>, usize)> {
    entries.map_values(|e: (&str, usize)| (e.0@, e.1))
}

/// Whether `entries` is the named encoding of `d`: the one entry `size`.
pub open spec fn encodes(entries: Seq<(Seq<char>, usize)>, d: Discrete) -> bool {
    &&& entries.len() == 1
    &&& is_size_key(entries[0].0)
    &&& entries[0].1 == d@
}

/// The name of the record's one field.
pub fn size_field() -> (name: &'static str)
    ensures
        is_size_key(name@),
{
    "size"
}

/// Decides on a key of a named encoding, given the size read so far.
///
/// `Ok` means that the value after the key is to be read as the size.
pub fn accept_key(seen: Option<usize>, key: &str) -> (r: Result<(), RecordError>)
    ensures
        r == key_verdict(seen, key@),
{
    let given = key.to_owned();
    let wanted = size_field().to_owned();
    if !given.eq(&wanted) {
        Err(RecordError::UnknownField)
    } else if seen.is_some() {
        Err(RecordError::DuplicateField)
    } else {
        Ok(())
    }
}

impl Binary {
    /// The name of the record, which has no field.
    pub fn record_name() -> (name: &'static str)
        ensures
            name@ == "Binary"@,
    {
        "Binary"
    }
}

impl Naturals {
    /// The name of the record, which has no field.
    pub fn record_name() -> (name: &'static str)
        ensures
            name@ == "Naturals"@,
    {
        "Naturals"
    }
}

impl Discrete {
    /// The name of the record.
    pub fn record_name() -> (name: &'static str)
        ensures
            name@ == "Discrete"@,
    {
        "Discrete"
    }

    /// The named encoding of the space: the one entry `size`.
    pub fn fields(&self) -> (entries: Vec<(&'static str, usize)>)
        ensures
            encodes(entries_view(entries@), *self),
    {
        vec![(size_field(), self.size())]
    }

    /// Decodes a positional encoding from its first value, if it has one.
    pub fn from_positional(first: Option<usize>) -> (r: Result<Discrete, RecordError>)
        ensures
            match first {
                Some(size) => r is Ok && r.unwrap()@ == size,
                None => r == Err::<Discrete, RecordError>(RecordError::InvalidLength(0)),
            },
    {
        match first {
            Some(size) => Ok(Discrete::new(size)),
            None => Err(RecordError::InvalidLength(0)),
        }
    }

    /// Ends a named encoding: the space of the size that was read, if one was.
    pub fn from_seen(seen: Option<usize>) -> (r: Result<Discrete, RecordError>)
        ensures
            match seen {
                Some(size) => r is Ok && r.unwrap()@ == size,
                None => r == Err::<Discrete, RecordError>(RecordError::MissingField),
            },
    {
        match seen {
            Some(size) => Ok(Discrete::new(size)),
            None => Err(RecordError::MissingField),
        }
    }

    /// Decodes a named encoding, given as its entries in order.
    pub fn from_entries(entries: &Vec<(&str, usize)>) -> (r: Result<Discrete, RecordError>)
        ensures
            match decode_entries(entries_view(entries@)) {
                Ok(size) => r is Ok && r.unwrap()@ == size,
                Err(e) => r == Err::<Discrete, RecordError>(e),
            },
    {
        let ghost plain = entries_view(entries@);
        let mut seen: Option<usize> = None;
        let mut i: usize = 0;
        while i < entries.len()
            invariant
                plain == entries_view(entries@),
                i <= entries.len(),
                i <= 1,
                i == 0 ==> seen is None,
                i == 1 ==> is_size_key(plain[0].0) && seen == Some(plain[0].1),
            decreases entries.len() - i,
        {
            let key: &str = entries[i].0;
            let value: usize = entries[i].1;
            assert(plain[i as int] == (key@, value));
            match accept_key(seen, key) {
                Ok(()) => {
                    seen = Some(value);
                },
                Err(e) => {
                    return Err(e);
                },
            }
            i = i + 1;
        }
        Discrete::from_seen(seen)
    }
}

/// Decoding the named encoding of a space gives the size of that space, and
/// so a space equal to it.
pub proof fn lemma_round_trip(d: Discrete, entries: Seq<(Seq<char>, usize)>)
    requires
        encodes(entries, d),
    ensures
        decode_entries(entries) is Ok,
        decode_entries(entries).unwrap() == d@,
{
}

} // verus!
