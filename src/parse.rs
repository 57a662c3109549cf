//! Structural decomposition: checking a node's kind and arity before taking it apart.
use vstd::prelude::*;
use crate::node::{is_type_error, type_error, DecodeError, PlutusData};
use crate::tag::{constructor_value, lemma_tag_inverse, tag_of, variant_of};

verus! {

/// `e` reports a tuple of `actual` elements where `expected` were wanted.
pub open spec fn is_tuple_count_error(e: DecodeError, expected: usize, actual: int) -> bool {
    e == DecodeError::WrongTupleFieldCount { expected, actual: actual as usize }
}

/// `e` reports that variant `variant` came with `actual` fields where `expected` were wanted.
pub open spec fn is_variant_count_error(
    e: DecodeError,
    variant: u64,
    expected: usize,
    actual: int,
) -> bool {
    e == DecodeError::WrongVariantFieldCount { variant, expected, actual: actual as usize }
}

/// `e` is the error for a constructor tag that stands for no variant.
pub open spec fn is_invalid_tag_error(e: DecodeError) -> bool {
    e matches DecodeError::Custom(m) && m@ == "value has invalid tag"@
}

/// What `parse_constr` makes of a node: its variant and fields, or its error.
pub open spec fn constr_parsed(d: PlutusData, r: Result<(u64, Vec<PlutusData>), DecodeError>) -> bool {
    match d {
        PlutusData::Constr(c) => match variant_of(c.tag, c.any_constructor) {
            Some(n) => r == Ok::<(u64, Vec<PlutusData>), DecodeError>((n, c.fields)),
            None => r matches Err(e) && is_invalid_tag_error(e),
        },
        _ => r matches Err(e) && is_type_error(e, "Constr"@, d),
    }
}

/// The logical variant and fields of a constructor node whose tag stands for a variant.
pub open spec fn constr_view(d: PlutusData) -> Option<(u64, Seq<PlutusData>)> {
    match d {
        PlutusData::Constr(c) => match variant_of(c.tag, c.any_constructor) {
            Some(n) => Some((n, c.fields@)),
            None => None,
        },
        _ => None,
    }
}

/// `e` is the error of a node that is no constructor node with a valid tag.
pub open spec fn constr_rejects(d: PlutusData, e: DecodeError) -> bool {
    match d {
        PlutusData::Constr(_) => is_invalid_tag_error(e),
        _ => is_type_error(e, "Constr"@, d),
    }
}

/// `d` is a constructor node for logical variant `n` with `len` fields.
pub open spec fn is_constr(d: PlutusData, n: u64, len: int) -> bool {
    &&& d matches PlutusData::Constr(c)
    &&& c.tag == tag_of(n).0
    &&& c.any_constructor == tag_of(n).1
    &&& c.fields.len() == len
}

/// The fields of a constructor node.
pub open spec fn constr_fields(d: PlutusData) -> Seq<PlutusData> {
    d->Constr_0.fields@
}

/// A constructor node for a variant can be read back as that variant and its fields.
pub proof fn lemma_constr_view(d: PlutusData, n: u64, len: int)
    requires
        is_constr(d, n, len),
    ensures
        constr_view(d) == Some((n, constr_fields(d))),
{
    lemma_tag_inverse(n);
}

/// The elements of an array node.
pub fn parse_array(data: PlutusData) -> (r: Result<Vec<PlutusData>, DecodeError>)
    ensures
        match data {
            PlutusData::Array(items) => r == Ok::<Vec<PlutusData>, DecodeError>(items),
            _ => r matches Err(e) && is_type_error(e, "Array"@, data),
        },
{
    match data {
        PlutusData::Array(items) => Ok(items),
        other => Err(type_error("Array", &other)),
    }
}

/// The elements of an array node that must hold exactly `n` of them.
pub fn parse_tuple(data: PlutusData, n: usize) -> (r: Result<Vec<PlutusData>, DecodeError>)
    ensures
        match data {
            PlutusData::Array(items) => if items.len() == n {
                r == Ok::<Vec<PlutusData>, DecodeError>(items)
            } else {
                r matches Err(e) && is_tuple_count_error(e, n, items.len() as int)
            },
            _ => r matches Err(e) && is_type_error(e, "Array"@, data),
        },
{
    let items = parse_array(data)?;
    if items.len() == n {
        Ok(items)
    } else {
        Err(DecodeError::WrongTupleFieldCount { expected: n, actual: items.len() })
    }
}

/// The logical variant and the fields of a constructor node.
pub fn parse_constr(data: PlutusData) -> (r: Result<(u64, Vec<PlutusData>), DecodeError>)
    ensures
        constr_parsed(data, r),
{
    match data {
        PlutusData::Constr(c) => match constructor_value(&c) {
            Some(n) => Ok((n, c.fields)),
            None => Err(DecodeError::Custom(String::from_str("value has invalid tag"))),
        },
        other => Err(type_error("Constr", &other)),
    }
}

/// The fields of variant `variant`, which must number exactly `n`.
pub fn parse_variant(variant: u64, fields: Vec<PlutusData>, n: usize) -> (r: Result<
    Vec<PlutusData>,
    DecodeError,
>)
    ensures
        fields.len() == n ==> r == Ok::<Vec<PlutusData>, DecodeError>(fields),
        fields.len() != n ==> (r matches Err(e) && is_variant_count_error(
            e,
            variant,
            n,
            fields.len() as int,
        )),
{
    if fields.len() == n {
        Ok(fields)
    } else {
        Err(DecodeError::WrongVariantFieldCount { variant, expected: n, actual: fields.len() })
    }
}

/// The key/value pairs of a map node.
pub fn parse_map(data: PlutusData) -> (r: Result<Vec<(PlutusData, PlutusData)>, DecodeError>)
    ensures
        match data {
            PlutusData::KeyValuePairs(kvps) => r == Ok::<
                Vec<(PlutusData, PlutusData)>,
                DecodeError,
            >(kvps),
            _ => r matches Err(e) && is_type_error(e, "Map"@, data),
        },
{
    match data {
        PlutusData::KeyValuePairs(kvps) => Ok(kvps),
        other => Err(type_error("Map", &other)),
    }
}

/// An array node holding `fields`.
pub fn create_array(fields: Vec<PlutusData>) -> (r: PlutusData)
    ensures
        r == PlutusData::Array(fields),
{
    PlutusData::Array(fields)
}

/// A map node holding `kvps`.
pub fn create_map(kvps: Vec<(PlutusData, PlutusData)>) -> (r: PlutusData)
    ensures
        r == PlutusData::KeyValuePairs(kvps),
{
    PlutusData::KeyValuePairs(kvps)
}

} // verus!
