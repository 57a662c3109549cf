//! The node model: a closed five-variant algebra of Plutus data.
use vstd::prelude::*;

verus! {

/// A byte string as carried by a `BoundedBytes` node.
#[derive(Debug, Clone, PartialEq, Eq)]
pub struct BoundedBytes {
    pub bytes: Vec<u8>,
}

impl View for BoundedBytes {
    type V = Seq<u8>;

    open spec fn view(&self) -> Seq<u8> {
        self.bytes@
    }
}

impl BoundedBytes {
    /// A byte string holding `bytes`.
    pub fn from(bytes: Vec<u8>) -> (r: BoundedBytes)
        ensures
            r@ == bytes@,
    {
        BoundedBytes { bytes }
    }

    /// The bytes, handed back as a vector.
    pub fn to_vec(self) -> (r: Vec<u8>)
        ensures
            r@ == self@,
    {
        self.bytes
    }
}

/// An integer node: a machine-sized integer, or a big magnitude held as bytes.
#[derive(Debug, Clone, PartialEq, Eq)]
pub enum BigInt {
    Int(i128),
    BigUInt(BoundedBytes),
    BigNInt(BoundedBytes),
}

/// A constructor node: a physical tag, an optional overflow discriminant and its fields.
#[derive(Debug, PartialEq, Eq)]
pub struct Constr {
    pub tag: u64,
    pub any_constructor: Option<u64>,
    pub fields: Vec<PlutusData>,
}

/// A Plutus data node.
#[derive(Debug, PartialEq, Eq)]
pub enum PlutusData {
    Constr(Constr),
    KeyValuePairs(Vec<(PlutusData, PlutusData)>),
    Array(Vec<PlutusData>),
    BigInt(BigInt),
    BoundedBytes(BoundedBytes),
}

/// Why decoding a node failed.
#[derive(Debug, Clone, PartialEq, Eq)]
pub enum DecodeError {
    UnexpectedVariant { variant: u64 },
    UnexpectedType { expected: String, actual: String },
    WrongTupleFieldCount { expected: usize, actual: usize },
    WrongVariantFieldCount { variant: u64, expected: usize, actual: usize },
    Custom(String),
}

/// The name of a node's kind, as error messages report it.
pub open spec fn kind_name(d: PlutusData) -> Seq<char> {
    match d {
        PlutusData::Array(_) => "Array"@,
        PlutusData::BigInt(_) => "BigInt"@,
        PlutusData::BoundedBytes(_) => "BoundedBytes"@,
        PlutusData::Constr(_) => "Constr"@,
        PlutusData::KeyValuePairs(_) => "Map"@,
    }
}

/// `e` reports a node of the wrong kind where a node named `expected` was wanted.
pub open spec fn is_type_error(e: DecodeError, expected: Seq<char>, d: PlutusData) -> bool {
    e matches DecodeError::UnexpectedType { expected: x, actual: a } && x@ == expected && a@
        == kind_name(d)
}

/// The name of a node's kind.
pub fn node_kind(data: &PlutusData) -> (r: String)
    ensures
        r@ == kind_name(*data),
{
    let name = match data {
        PlutusData::Array(_) => "Array",
        PlutusData::BigInt(_) => "BigInt",
        PlutusData::BoundedBytes(_) => "BoundedBytes",
        PlutusData::Constr(_) => "Constr",
        PlutusData::KeyValuePairs(_) => "Map",
    };
    String::from_str(name)
}

/// The error for a node of the wrong kind.
pub fn type_error(expected: &str, data: &PlutusData) -> (e: DecodeError)
    ensures
        is_type_error(e, expected@, *data),
{
    DecodeError::UnexpectedType { expected: String::from_str(expected), actual: node_kind(data) }
}

} // verus!
