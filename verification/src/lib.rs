//! A small algebra of value spaces: what values a domain holds, how many there
//! are, how many scalar components one of them occupies, and where it is
//! bounded.

pub mod binary;
pub mod card;
pub mod combinators;
pub mod dim;
pub mod discrete;
pub mod mapping;
pub mod naturals;
pub mod random;
pub mod record;
pub mod space;

pub use binary::Binary;
pub use card::Card;
pub use combinators::{intersection, try_union, union, Intersection, Union};
pub use dim::Dim;
pub use discrete::Discrete;
pub use mapping::Surjection;
pub use naturals::Naturals;
pub use record::RecordError;
pub use space::{BoundedSpace, FiniteSpace, Space};
