//! Codecs of the primitive types: bytes, integers, booleans and text.
use vstd::prelude::*;
use crate::codec::{
    array_decoded, array_encodes, array_from_plutus, array_rejects, array_to_plutus,
    lemma_array_round_trip, models, AsPlutus, AsPlutusList,
};
use crate::node::{is_type_error, type_error, BigInt, BoundedBytes, DecodeError, PlutusData};
use crate::parse::{
    constr_rejects, constr_view, is_constr, is_variant_count_error, lemma_constr_view,
    parse_constr, parse_variant,
};
use crate::tag::create_constr;

verus! {

impl AsPlutus for BoundedBytes {
    type Model = BoundedBytes;

    open spec fn model(&self) -> BoundedBytes {
        *self
    }

    open spec fn encodes(m: BoundedBytes, d: PlutusData) -> bool {
        d == PlutusData::BoundedBytes(m)
    }

    open spec fn decoded(d: PlutusData) -> Option<BoundedBytes> {
        match d {
            PlutusData::BoundedBytes(b) => Some(b),
            _ => None,
        }
    }

    open spec fn rejects(d: PlutusData, e: DecodeError) -> bool {
        is_type_error(e, "BoundedBytes"@, d)
    }

    fn from_plutus(data: PlutusData) -> (r: Result<BoundedBytes, DecodeError>) {
        let ghost d = data;
        let r = match data {
            PlutusData::BoundedBytes(bytes) => Ok(bytes),
            other => Err(type_error("BoundedBytes", &other)),
        };
        assert(match r {
            Ok(v) => Self::decoded(d) == Some(v.model()),
            Err(e) => (Self::decoded(d) is None) && Self::rejects(d, e),
        });
        r
    }

    fn to_plutus(self) -> (r: PlutusData) {
        PlutusData::BoundedBytes(self)
    }

    proof fn lemma_round_trip(m: BoundedBytes, d: PlutusData) {
    }
}

impl AsPlutus for BigInt {
    type Model = BigInt;

    open spec fn model(&self) -> BigInt {
        *self
    }

    open spec fn encodes(m: BigInt, d: PlutusData) -> bool {
        d == PlutusData::BigInt(m)
    }

    open spec fn decoded(d: PlutusData) -> Option<BigInt> {
        match d {
            PlutusData::BigInt(i) => Some(i),
            _ => None,
        }
    }

    open spec fn rejects(d: PlutusData, e: DecodeError) -> bool {
        is_type_error(e, "BigInt"@, d)
    }

    fn from_plutus(data: PlutusData) -> (r: Result<BigInt, DecodeError>) {
        match data {
            PlutusData::BigInt(value) => Ok(value),
            other => Err(type_error("BigInt", &other)),
        }
    }

    fn to_plutus(self) -> (r: PlutusData) {
        PlutusData::BigInt(self)
    }

    proof fn lemma_round_trip(m: BigInt, d: PlutusData) {
    }
}

/// The logical variant of a boolean.
pub open spec fn bool_variant(b: bool) -> u64 {
    if b {
        1
    } else {
        0
    }
}

impl AsPlutus for bool {
    type Model = bool;

    open spec fn model(&self) -> bool {
        *self
    }

    open spec fn encodes(m: bool, d: PlutusData) -> bool {
        is_constr(d, bool_variant(m), 0)
    }

    open spec fn decoded(d: PlutusData) -> Option<bool> {
        match constr_view(d) {
            Some((n, fields)) => if n <= 1 && fields.len() == 0 {
                Some(n == 1)
            } else {
                None
            },
            None => None,
        }
    }

    open spec fn rejects(d: PlutusData, e: DecodeError) -> bool {
        match constr_view(d) {
            Some((n, fields)) => if n <= 1 {
                is_variant_count_error(e, n, 0, fields.len() as int)
            } else {
                e == DecodeError::UnexpectedVariant { variant: n }
            },
            None => constr_rejects(d, e),
        }
    }

    fn from_plutus(data: PlutusData) -> (r: Result<bool, DecodeError>) {
        let (variant, fields) = parse_constr(data)?;
        if variant == 0 {
            let _ = parse_variant(variant, fields, 0)?;
            return Ok(false);
        }
        if variant == 1 {
            let _ = parse_variant(variant, fields, 0)?;
            return Ok(true);
        }
        Err(DecodeError::UnexpectedVariant { variant })
    }

    fn to_plutus(self) -> (r: PlutusData) {
        if self {
            create_constr(1, Vec::new())
        } else {
            create_constr(0, Vec::new())
        }
    }

    proof fn lemma_round_trip(m: bool, d: PlutusData) {
        lemma_constr_view(d, bool_variant(m), 0);
    }
}

impl AsPlutusList for bool {
    open spec fn list_encodes(m: Seq<bool>, d: PlutusData) -> bool {
        array_encodes::<bool>(m, d)
    }

    open spec fn list_decoded(d: PlutusData) -> Option<Seq<bool>> {
        array_decoded::<bool>(d)
    }

    open spec fn list_rejects(d: PlutusData, e: DecodeError) -> bool {
        array_rejects::<bool>(d, e)
    }

    fn vec_from_plutus(data: PlutusData) -> (r: Result<Vec<bool>, DecodeError>) {
        array_from_plutus(data)
    }

    fn vec_to_plutus(value: Vec<bool>) -> (r: PlutusData) {
        array_to_plutus(value)
    }

    proof fn lemma_list_round_trip(m: Seq<bool>, d: PlutusData) {
        lemma_array_round_trip::<bool>(m, d);
    }
}

/// The integer of a node that holds a machine-sized integer.
pub open spec fn int_of(d: PlutusData) -> Option<i128> {
    match d {
        PlutusData::BigInt(BigInt::Int(x)) => Some(x),
        _ => None,
    }
}

/// The integer of a node that must hold a machine-sized integer.
pub fn int_from_plutus(data: PlutusData) -> (r: Result<i128, DecodeError>)
    ensures
        match int_of(data) {
            Some(x) => r == Ok::<i128, DecodeError>(x),
            None => r matches Err(e) && is_type_error(e, "BigInt"@, data),
        },
{
    match data {
        PlutusData::BigInt(BigInt::Int(value)) => Ok(value),
        other => Err(type_error("BigInt", &other)),
    }
}

impl AsPlutus for u8 {
    type Model = u8;

    open spec fn model(&self) -> u8 {
        *self
    }

    open spec fn encodes(m: u8, d: PlutusData) -> bool {
        d == PlutusData::BigInt(BigInt::Int(m as i128))
    }

    /// A held integer outside the range of the type is cut down to its low bits.
    open spec fn decoded(d: PlutusData) -> Option<u8> {
        match int_of(d) {
            Some(x) => Some(x as u8),
            None => None,
        }
    }

    open spec fn rejects(d: PlutusData, e: DecodeError) -> bool {
        is_type_error(e, "BigInt"@, d)
    }

    fn from_plutus(data: PlutusData) -> (r: Result<u8, DecodeError>) {
        let value = int_from_plutus(data)?;
        Ok(value as u8)
    }

    fn to_plutus(self) -> (r: PlutusData) {
        PlutusData::BigInt(BigInt::Int(self as i128))
    }

    proof fn lemma_round_trip(m: u8, d: PlutusData) {
    }
}

/// A list of bytes is written as one byte-string node, not as an array of integers.
impl AsPlutusList for u8 {
    open spec fn list_encodes(m: Seq<u8>, d: PlutusData) -> bool {
        d matches PlutusData::BoundedBytes(b) && b@ == m
    }

    open spec fn list_decoded(d: PlutusData) -> Option<Seq<u8>> {
        match d {
            PlutusData::BoundedBytes(b) => Some(b@),
            _ => None,
        }
    }

    open spec fn list_rejects(d: PlutusData, e: DecodeError) -> bool {
        is_type_error(e, "BoundedBytes"@, d)
    }

    fn vec_from_plutus(data: PlutusData) -> (r: Result<Vec<u8>, DecodeError>) {
        let bytes = BoundedBytes::from_plutus(data)?;
        let v = bytes.to_vec();
        assert(models(v@) =~= v@);
        Ok(v)
    }

    fn vec_to_plutus(value: Vec<u8>) -> (r: PlutusData) {
        assert(models(value@) =~= value@);
        PlutusData::BoundedBytes(BoundedBytes::from(value))
    }

    proof fn lemma_list_round_trip(m: Seq<u8>, d: PlutusData) {
    }
}

impl AsPlutus for u16 {
    type Model = u16;

    open spec fn model(&self) -> u16 {
        *self
    }

    open spec fn encodes(m: u16, d: PlutusData) -> bool {
        d == PlutusData::BigInt(BigInt::Int(m as i128))
    }

    /// A held integer outside the range of the type is cut down to its low bits.
    open spec fn decoded(d: PlutusData) -> Option<u16> {
        match int_of(d) {
            Some(x) => Some(x as u16),
            None => None,
        }
    }

    open spec fn rejects(d: PlutusData, e: DecodeError) -> bool {
        is_type_error(e, "BigInt"@, d)
    }

    fn from_plutus(data: PlutusData) -> (r: Result<u16, DecodeError>) {
        let value = int_from_plutus(data)?;
        Ok(value as u16)
    }

    fn to_plutus(self) -> (r: PlutusData) {
        PlutusData::BigInt(BigInt::Int(self as i128))
    }

    proof fn lemma_round_trip(m: u16, d: PlutusData) {
    }
}

impl AsPlutusList for u16 {
    open spec fn list_encodes(m: Seq<u16>, d: PlutusData) -> bool {
        array_encodes::<u16>(m, d)
    }

    open spec fn list_decoded(d: PlutusData) -> Option<Seq<u16>> {
        array_decoded::<u16>(d)
    }

    open spec fn list_rejects(d: PlutusData, e: DecodeError) -> bool {
        array_rejects::<u16>(d, e)
    }

    fn vec_from_plutus(data: PlutusData) -> (r: Result<Vec<u16>, DecodeError>) {
        array_from_plutus(data)
    }

    fn vec_to_plutus(value: Vec<u16>) -> (r: PlutusData) {
        array_to_plutus(value)
    }

    proof fn lemma_list_round_trip(m: Seq<u16>, d: PlutusData) {
        lemma_array_round_trip::<u16>(m, d);
    }
}

impl AsPlutus for u32 {
    type Model = u32;

    open spec fn model(&self) -> u32 {
        *self
    }

    open spec fn encodes(m: u32, d: PlutusData) -> bool {
        d == PlutusData::BigInt(BigInt::Int(m as i128))
    }

    /// A held integer outside the range of the type is cut down to its low bits.
    open spec fn decoded(d: PlutusData) -> Option<u32> {
        match int_of(d) {
            Some(x) => Some(x as u32),
            None => None,
        }
    }

    open spec fn rejects(d: PlutusData, e: DecodeError) -> bool {
        is_type_error(e, "BigInt"@, d)
    }

    fn from_plutus(data: PlutusData) -> (r: Result<u32, DecodeError>) {
        let value = int_from_plutus(data)?;
        Ok(value as u32)
    }

    fn to_plutus(self) -> (r: PlutusData) {
        PlutusData::BigInt(BigInt::Int(self as i128))
    }

    proof fn lemma_round_trip(m: u32, d: PlutusData) {
    }
}

impl AsPlutusList for u32 {
    open spec fn list_encodes(m: Seq<u32>, d: PlutusData) -> bool {
        array_encodes::<u32>(m, d)
    }

    open spec fn list_decoded(d: PlutusData) -> Option<Seq<u32>> {
        array_decoded::<u32>(d)
    }

    open spec fn list_rejects(d: PlutusData, e: DecodeError) -> bool {
        array_rejects::<u32>(d, e)
    }

    fn vec_from_plutus(data: PlutusData) -> (r: Result<Vec<u32>, DecodeError>) {
        array_from_plutus(data)
    }

    fn vec_to_plutus(value: Vec<u32>) -> (r: PlutusData) {
        array_to_plutus(value)
    }

    proof fn lemma_list_round_trip(m: Seq<u32>, d: PlutusData) {
        lemma_array_round_trip::<u32>(m, d);
    }
}

impl AsPlutus for u64 {
    type Model = u64;

    open spec fn model(&self) -> u64 {
        *self
    }

    open spec fn encodes(m: u64, d: PlutusData) -> bool {
        d == PlutusData::BigInt(BigInt::Int(m as i128))
    }

    /// A held integer outside the range of the type is cut down to its low bits.
    open spec fn decoded(d: PlutusData) -> Option<u64> {
        match int_of(d) {
            Some(x) => Some(x as u64),
            None => None,
        }
    }

    open spec fn rejects(d: PlutusData, e: DecodeError) -> bool {
        is_type_error(e, "BigInt"@, d)
    }

    fn from_plutus(data: PlutusData) -> (r: Result<u64, DecodeError>) {
        let value = int_from_plutus(data)?;
        Ok(value as u64)
    }

    fn to_plutus(self) -> (r: PlutusData) {
        PlutusData::BigInt(BigInt::Int(self as i128))
    }

    proof fn lemma_round_trip(m: u64, d: PlutusData) {
    }
}

impl AsPlutusList for u64 {
    open spec fn list_encodes(m: Seq<u64>, d: PlutusData) -> bool {
        array_encodes::<u64>(m, d)
    }

    open spec fn list_decoded(d: PlutusData) -> Option<Seq<u64>> {
        array_decoded::<u64>(d)
    }

    open spec fn list_rejects(d: PlutusData, e: DecodeError) -> bool {
        array_rejects::<u64>(d, e)
    }

    fn vec_from_plutus(data: PlutusData) -> (r: Result<Vec<u64>, DecodeError>) {
        array_from_plutus(data)
    }

    fn vec_to_plutus(value: Vec<u64>) -> (r: PlutusData) {
        array_to_plutus(value)
    }

    proof fn lemma_list_round_trip(m: Seq<u64>, d: PlutusData) {
        lemma_array_round_trip::<u64>(m, d);
    }
}

impl AsPlutus for i8 {
    type Model = i8;

    open spec fn model(&self) -> i8 {
        *self
    }

    open spec fn encodes(m: i8, d: PlutusData) -> bool {
        d == PlutusData::BigInt(BigInt::Int(m as i128))
    }

    /// A held integer outside the range of the type is cut down to its low bits.
    open spec fn decoded(d: PlutusData) -> Option<i8> {
        match int_of(d) {
            Some(x) => Some(x as i8),
            None => None,
        }
    }

    open spec fn rejects(d: PlutusData, e: DecodeError) -> bool {
        is_type_error(e, "BigInt"@, d)
    }

    fn from_plutus(data: PlutusData) -> (r: Result<i8, DecodeError>) {
        let value = int_from_plutus(data)?;
        Ok(value as i8)
    }

    fn to_plutus(self) -> (r: PlutusData) {
        PlutusData::BigInt(BigInt::Int(self as i128))
    }

    proof fn lemma_round_trip(m: i8, d: PlutusData) {
    }
}

impl AsPlutusList for i8 {
    open spec fn list_encodes(m: Seq<i8>, d: PlutusData) -> bool {
        array_encodes::<i8>(m, d)
    }

    open spec fn list_decoded(d: PlutusData) -> Option<Seq<i8>> {
        array_decoded::<i8>(d)
    }

    open spec fn list_rejects(d: PlutusData, e: DecodeError) -> bool {
        array_rejects::<i8>(d, e)
    }

    fn vec_from_plutus(data: PlutusData) -> (r: Result<Vec<i8>, DecodeError>) {
        array_from_plutus(data)
    }

    fn vec_to_plutus(value: Vec<i8>) -> (r: PlutusData) {
        array_to_plutus(value)
    }

    proof fn lemma_list_round_trip(m: Seq<i8>, d: PlutusData) {
        lemma_array_round_trip::<i8>(m, d);
    }
}

impl AsPlutus for i16 {
    type Model = i16;

    open spec fn model(&self) -> i16 {
        *self
    }

    open spec fn encodes(m: i16, d: PlutusData) -> bool {
        d == PlutusData::BigInt(BigInt::Int(m as i128))
    }

    /// A held integer outside the range of the type is cut down to its low bits.
    open spec fn decoded(d: PlutusData) -> Option<i16> {
        match int_of(d) {
            Some(x) => Some(x as i16),
            None => None,
        }
    }

    open spec fn rejects(d: PlutusData, e: DecodeError) -> bool {
        is_type_error(e, "BigInt"@, d)
    }

    fn from_plutus(data: PlutusData) -> (r: Result<i16, DecodeError>) {
        let value = int_from_plutus(data)?;
        Ok(value as i16)
    }

    fn to_plutus(self) -> (r: PlutusData) {
        PlutusData::BigInt(BigInt::Int(self as i128))
    }

    proof fn lemma_round_trip(m: i16, d: PlutusData) {
    }
}

impl AsPlutusList for i16 {
    open spec fn list_encodes(m: Seq<i16>, d: PlutusData) -> bool {
        array_encodes::<i16>(m, d)
    }

    open spec fn list_decoded(d: PlutusData) -> Option<Seq<i16>> {
        array_decoded::<i16>(d)
    }

    open spec fn list_rejects(d: PlutusData, e: DecodeError) -> bool {
        array_rejects::<i16>(d, e)
    }

    fn vec_from_plutus(data: PlutusData) -> (r: Result<Vec<i16>, DecodeError>) {
        array_from_plutus(data)
    }

    fn vec_to_plutus(value: Vec<i16>) -> (r: PlutusData) {
        array_to_plutus(value)
    }

    proof fn lemma_list_round_trip(m: Seq<i16>, d: PlutusData) {
        lemma_array_round_trip::<i16>(m, d);
    }
}

impl AsPlutus for i32 {
    type Model = i32;

    open spec fn model(&self) -> i32 {
        *self
    }

    open spec fn encodes(m: i32, d: PlutusData) -> bool {
        d == PlutusData::BigInt(BigInt::Int(m as i128))
    }

    /// A held integer outside the range of the type is cut down to its low bits.
    open spec fn decoded(d: PlutusData) -> Option<i32> {
        match int_of(d) {
            Some(x) => Some(x as i32),
            None => None,
        }
    }

    open spec fn rejects(d: PlutusData, e: DecodeError) -> bool {
        is_type_error(e, "BigInt"@, d)
    }

    fn from_plutus(data: PlutusData) -> (r: Result<i32, DecodeError>) {
        let value = int_from_plutus(data)?;
        Ok(value as i32)
    }

    fn to_plutus(self) -> (r: PlutusData) {
        PlutusData::BigInt(BigInt::Int(self as i128))
    }

    proof fn lemma_round_trip(m: i32, d: PlutusData) {
    }
}

impl AsPlutusList for i32 {
    open spec fn list_encodes(m: Seq<i32>, d: PlutusData) -> bool {
        array_encodes::<i32>(m, d)
    }

    open spec fn list_decoded(d: PlutusData) -> Option<Seq<i32>> {
        array_decoded::<i32>(d)
    }

    open spec fn list_rejects(d: PlutusData, e: DecodeError) -> bool {
        array_rejects::<i32>(d, e)
    }

    fn vec_from_plutus(data: PlutusData) -> (r: Result<Vec<i32>, DecodeError>) {
        array_from_plutus(data)
    }

    fn vec_to_plutus(value: Vec<i32>) -> (r: PlutusData) {
        array_to_plutus(value)
    }

    proof fn lemma_list_round_trip(m: Seq<i32>, d: PlutusData) {
        lemma_array_round_trip::<i32>(m, d);
    }
}

impl AsPlutus for i64 {
    type Model = i64;

    open spec fn model(&self) -> i64 {
        *self
    }

    open spec fn encodes(m: i64, d: PlutusData) -> bool {
        d == PlutusData::BigInt(BigInt::Int(m as i128))
    }

    /// A held integer outside the range of the type is cut down to its low bits.
    open spec fn decoded(d: PlutusData) -> Option<i64> {
        match int_of(d) {
            Some(x) => Some(x as i64),
            None => None,
        }
    }

    open spec fn rejects(d: PlutusData, e: DecodeError) -> bool {
        is_type_error(e, "BigInt"@, d)
    }

    fn from_plutus(data: PlutusData) -> (r: Result<i64, DecodeError>) {
        let value = int_from_plutus(data)?;
        Ok(value as i64)
    }

    fn to_plutus(self) -> (r: PlutusData) {
        PlutusData::BigInt(BigInt::Int(self as i128))
    }

    proof fn lemma_round_trip(m: i64, d: PlutusData) {
    }
}

impl AsPlutusList for i64 {
    open spec fn list_encodes(m: Seq<i64>, d: PlutusData) -> bool {
        array_encodes::<i64>(m, d)
    }

    open spec fn list_decoded(d: PlutusData) -> Option<Seq<i64>> {
        array_decoded::<i64>(d)
    }

    open spec fn list_rejects(d: PlutusData, e: DecodeError) -> bool {
        array_rejects::<i64>(d, e)
    }

    fn vec_from_plutus(data: PlutusData) -> (r: Result<Vec<i64>, DecodeError>) {
        array_from_plutus(data)
    }

    fn vec_to_plutus(value: Vec<i64>) -> (r: PlutusData) {
        array_to_plutus(value)
    }

    proof fn lemma_list_round_trip(m: Seq<i64>, d: PlutusData) {
        lemma_array_round_trip::<i64>(m, d);
    }
}

} // verus!
