//! Laws that relate the codecs to one another.
use vstd::prelude::*;
use crate::codec::AsPlutus;
use crate::node::{BigInt, BoundedBytes, DecodeError, PlutusData};

verus! {

/// Round trip: for every value of every codec type, decoding the node that the value
/// encodes to gives back a value with the same model.
pub proof fn lemma_decode_encode<T: AsPlutus>(v: T, d: PlutusData)
    requires
        T::encodes(v.model(), d),
    ensures
        T::decoded(d) == Some(v.model()),
{
    T::lemma_round_trip(v.model(), d);
}

/// Kind mismatch: an integer node where a byte string is expected fails, and the error names
/// `BoundedBytes` as expected and `BigInt` as found.
pub proof fn lemma_integer_for_bytes(i: BigInt, e: DecodeError)
    requires
        BoundedBytes::rejects(PlutusData::BigInt(i), e),
    ensures
        BoundedBytes::decoded(PlutusData::BigInt(i)) is None,
        e matches DecodeError::UnexpectedType { expected, actual } && expected@ == "BoundedBytes"@
            && actual@ == "BigInt"@,
{
}

/// Byte lists: a list of bytes encodes to one byte-string node holding exactly those bytes,
/// and decodes back to the same list.
pub proof fn lemma_byte_list(m: Seq<u8>, d: PlutusData)
    requires
        Vec::<u8>::encodes(m, d),
    ensures
        d matches PlutusData::BoundedBytes(b) && b@ == m,
        Vec::<u8>::decoded(d) == Some(m),
{
    Vec::<u8>::lemma_round_trip(m, d);
}

} // verus!
