//! Conversion between typed values and Plutus data nodes.
//!
//! A node is a big integer, a byte string, an array, a map or a constructor that carries a
//! tag and fields. Each type that implements [`AsPlutus`] reads itself from a node and writes
//! itself as one; the contracts state, over a mathematical model of each type, which node a
//! value becomes, which value a node gives back, and which error a node that does not fit
//! is reported with.
pub mod codec;
pub mod containers;
pub mod laws;
pub mod ledger;
pub mod node;
pub mod parse;
pub mod primitives;
pub mod shape;
pub mod tag;
pub mod tuples;

pub use codec::{AsPlutus, AsPlutusList};
pub use containers::{pairs_from_plutus, pairs_to_plutus};
pub use ledger::{Destination, Interval, IntervalBound, IntervalBoundType, MultisigScript};
pub use node::{node_kind, BigInt, BoundedBytes, Constr, DecodeError, PlutusData};
pub use parse::{create_array, create_map, parse_array, parse_constr, parse_map, parse_tuple, parse_variant};
pub use shape::{assign_variants, match_alternative};
pub use tag::{constructor_value, create_constr};
