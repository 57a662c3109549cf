//! Ledger types written through the shape-driven rules: interval bounds, intervals,
//! multisig scripts and payment destinations.
use vstd::prelude::*;
use crate::codec::{
    array_decoded, array_encodes, array_from_plutus, array_rejects, array_to_plutus,
    lemma_array_round_trip, models, AsPlutus, AsPlutusList,
};
use crate::node::{DecodeError, PlutusData};
use crate::parse::{
    constr_fields, constr_rejects, constr_view, is_constr, is_variant_count_error,
    lemma_constr_view, parse_constr, parse_variant,
};
use crate::tag::create_constr;
use crate::shape::{is_first_match, match_alternative};

verus! {

/// The kind of an interval's bound.
#[derive(Debug, PartialEq, Eq, Structural)]
pub enum IntervalBoundType {
    NegativeInfinity,
    Finite(u64),
    PositiveInfinity,
}

impl AsPlutus for IntervalBoundType {
    type Model = IntervalBoundType;

    open spec fn model(&self) -> IntervalBoundType {
        *self
    }

    open spec fn encodes(m: IntervalBoundType, d: PlutusData) -> bool {
        match m {
            IntervalBoundType::NegativeInfinity => is_constr(d, 0, 0),
            IntervalBoundType::Finite(x) => is_constr(d, 1, 1) && u64::encodes(
                x,
                constr_fields(d)[0],
            ),
            IntervalBoundType::PositiveInfinity => is_constr(d, 2, 0),
        }
    }

    open spec fn decoded(d: PlutusData) -> Option<IntervalBoundType> {
        match constr_view(d) {
            Some((n, f)) => if n == 0 && f.len() == 0 {
                Some(IntervalBoundType::NegativeInfinity)
            } else if n == 1 && f.len() == 1 {
                match u64::decoded(f[0]) {
                    Some(x) => Some(IntervalBoundType::Finite(x)),
                    None => None,
                }
            } else if n == 2 && f.len() == 0 {
                Some(IntervalBoundType::PositiveInfinity)
            } else {
                None
            },
            None => None,
        }
    }

    open spec fn rejects(d: PlutusData, e: DecodeError) -> bool {
        match constr_view(d) {
            Some((n, f)) => if n == 0 {
                is_variant_count_error(e, 0, 0, f.len() as int)
            } else if n == 1 {
                if f.len() == 1 {
                    u64::rejects(f[0], e)
                } else {
                    is_variant_count_error(e, 1, 1, f.len() as int)
                }
            } else if n == 2 {
                is_variant_count_error(e, 2, 0, f.len() as int)
            } else {
                e == DecodeError::UnexpectedVariant { variant: n }
            },
            None => constr_rejects(d, e),
        }
    }

    fn from_plutus(data: PlutusData) -> (r: Result<IntervalBoundType, DecodeError>) {
        let (variant, mut fields) = parse_constr(data)?;
        let k = match_alternative(variant, fields.len(), &[0, 1, 2], &[0, 1, 0]);
        assert(variant == 0 ==> is_first_match(seq![0u64, 1, 2], variant, 0));
        assert(variant == 1 ==> is_first_match(seq![0u64, 1, 2], variant, 1));
        assert(variant == 2 ==> is_first_match(seq![0u64, 1, 2], variant, 2));
        let k = k?;
        if k == 0 {
            Ok(IntervalBoundType::NegativeInfinity)
        } else if k == 1 {
            let x = u64::from_plutus(fields.remove(0))?;
            Ok(IntervalBoundType::Finite(x))
        } else {
            Ok(IntervalBoundType::PositiveInfinity)
        }
    }

    fn to_plutus(self) -> (r: PlutusData) {
        match self {
            IntervalBoundType::NegativeInfinity => create_constr(0, Vec::new()),
            IntervalBoundType::Finite(x) => {
                let mut fields: Vec<PlutusData> = Vec::new();
                fields.push(x.to_plutus());
                create_constr(1, fields)
            },
            IntervalBoundType::PositiveInfinity => create_constr(2, Vec::new()),
        }
    }

    proof fn lemma_round_trip(m: IntervalBoundType, d: PlutusData) {
        match m {
            IntervalBoundType::NegativeInfinity => lemma_constr_view(d, 0, 0),
            IntervalBoundType::Finite(x) => {
                lemma_constr_view(d, 1, 1);
                u64::lemma_round_trip(x, constr_fields(d)[0]);
            },
            IntervalBoundType::PositiveInfinity => lemma_constr_view(d, 2, 0),
        }
    }
}

impl AsPlutusList for IntervalBoundType {
    open spec fn list_encodes(m: Seq<IntervalBoundType>, d: PlutusData) -> bool {
        array_encodes::<Self>(m, d)
    }

    open spec fn list_decoded(d: PlutusData) -> Option<Seq<IntervalBoundType>> {
        array_decoded::<Self>(d)
    }

    open spec fn list_rejects(d: PlutusData, e: DecodeError) -> bool {
        array_rejects::<Self>(d, e)
    }

    fn vec_from_plutus(data: PlutusData) -> (r: Result<Vec<IntervalBoundType>, DecodeError>) {
        array_from_plutus(data)
    }

    fn vec_to_plutus(value: Vec<IntervalBoundType>) -> (r: PlutusData) {
        array_to_plutus(value)
    }

    proof fn lemma_list_round_trip(m: Seq<IntervalBoundType>, d: PlutusData) {
        lemma_array_round_trip::<Self>(m, d);
    }
}

/// One end of an interval: its kind, and whether it is included.
#[derive(Debug, PartialEq, Eq, Structural)]
pub struct IntervalBound {
    pub bound_type: IntervalBoundType,
    pub is_inclusive: bool,
}

impl AsPlutus for IntervalBound {
    type Model = IntervalBound;

    open spec fn model(&self) -> IntervalBound {
        *self
    }

    open spec fn encodes(m: IntervalBound, d: PlutusData) -> bool {
        &&& is_constr(d, 0, 2)
        &&& IntervalBoundType::encodes(m.bound_type, constr_fields(d)[0])
        &&& bool::encodes(m.is_inclusive, constr_fields(d)[1])
    }

    open spec fn decoded(d: PlutusData) -> Option<IntervalBound> {
        match constr_view(d) {
            Some((n, f)) => if n == 0 && f.len() == 2 && IntervalBoundType::decoded(f[0]) is Some && bool::decoded(f[1]) is Some {
                Some(IntervalBound { bound_type: IntervalBoundType::decoded(f[0])->Some_0, is_inclusive: bool::decoded(f[1])->Some_0 })
            } else {
                None
            },
            None => None,
        }
    }

    open spec fn rejects(d: PlutusData, e: DecodeError) -> bool {
        match constr_view(d) {
            Some((n, f)) => if n != 0 {
                e == DecodeError::UnexpectedVariant { variant: n }
            } else if f.len() != 2 {
                is_variant_count_error(e, 0, 2, f.len() as int)
            } else if IntervalBoundType::decoded(f[0]) is None {
                IntervalBoundType::rejects(f[0], e)
            } else {
                bool::rejects(f[1], e)
            },
            None => constr_rejects(d, e),
        }
    }

    fn from_plutus(data: PlutusData) -> (r: Result<IntervalBound, DecodeError>) {
        let (variant, fields) = parse_constr(data)?;
        if variant != 0 {
            return Err(DecodeError::UnexpectedVariant { variant });
        }
        let mut fields = parse_variant(variant, fields, 2)?;
        let ghost all = fields@;
        let item = fields.remove(0);
        assert(item == all[0]);
        let bound_type = IntervalBoundType::from_plutus(item)?;
        let item = fields.remove(0);
        assert(item == all[1]);
        let is_inclusive = bool::from_plutus(item)?;
        Ok(IntervalBound { bound_type, is_inclusive })
    }

    fn to_plutus(self) -> (r: PlutusData) {
        let mut fields: Vec<PlutusData> = Vec::new();
        fields.push(self.bound_type.to_plutus());
        fields.push(self.is_inclusive.to_plutus());
        create_constr(0, fields)
    }

    proof fn lemma_round_trip(m: IntervalBound, d: PlutusData) {
        lemma_constr_view(d, 0, 2);
        IntervalBoundType::lemma_round_trip(m.bound_type, constr_fields(d)[0]);
        bool::lemma_round_trip(m.is_inclusive, constr_fields(d)[1]);
    }
}

impl AsPlutusList for IntervalBound {
    open spec fn list_encodes(m: Seq<IntervalBound>, d: PlutusData) -> bool {
        array_encodes::<Self>(m, d)
    }

    open spec fn list_decoded(d: PlutusData) -> Option<Seq<IntervalBound>> {
        array_decoded::<Self>(d)
    }

    open spec fn list_rejects(d: PlutusData, e: DecodeError) -> bool {
        array_rejects::<Self>(d, e)
    }

    fn vec_from_plutus(data: PlutusData) -> (r: Result<Vec<IntervalBound>, DecodeError>) {
        array_from_plutus(data)
    }

    fn vec_to_plutus(value: Vec<IntervalBound>) -> (r: PlutusData) {
        array_to_plutus(value)
    }

    proof fn lemma_list_round_trip(m: Seq<IntervalBound>, d: PlutusData) {
        lemma_array_round_trip::<Self>(m, d);
    }
}

/// An interval between two bounds.
#[derive(Debug, PartialEq, Eq, Structural)]
pub struct Interval {
    pub lower_bound: IntervalBound,
    pub upper_bound: IntervalBound,
}

impl AsPlutus for Interval {
    type Model = Interval;

    open spec fn model(&self) -> Interval {
        *self
    }

    open spec fn encodes(m: Interval, d: PlutusData) -> bool {
        &&& is_constr(d, 0, 2)
        &&& IntervalBound::encodes(m.lower_bound, constr_fields(d)[0])
        &&& IntervalBound::encodes(m.upper_bound, constr_fields(d)[1])
    }

    open spec fn decoded(d: PlutusData) -> Option<Interval> {
        match constr_view(d) {
            Some((n, f)) => if n == 0 && f.len() == 2 && IntervalBound::decoded(f[0]) is Some && IntervalBound::decoded(f[1]) is Some {
                Some(Interval { lower_bound: IntervalBound::decoded(f[0])->Some_0, upper_bound: IntervalBound::decoded(f[1])->Some_0 })
            } else {
                None
            },
            None => None,
        }
    }

    open spec fn rejects(d: PlutusData, e: DecodeError) -> bool {
        match constr_view(d) {
            Some((n, f)) => if n != 0 {
                e == DecodeError::UnexpectedVariant { variant: n }
            } else if f.len() != 2 {
                is_variant_count_error(e, 0, 2, f.len() as int)
            } else if IntervalBound::decoded(f[0]) is None {
                IntervalBound::rejects(f[0], e)
            } else {
                IntervalBound::rejects(f[1], e)
            },
            None => constr_rejects(d, e),
        }
    }

    fn from_plutus(data: PlutusData) -> (r: Result<Interval, DecodeError>) {
        let (variant, fields) = parse_constr(data)?;
        if variant != 0 {
            return Err(DecodeError::UnexpectedVariant { variant });
        }
        let mut fields = parse_variant(variant, fields, 2)?;
        let ghost all = fields@;
        let item = fields.remove(0);
        assert(item == all[0]);
        let lower_bound = IntervalBound::from_plutus(item)?;
        let item = fields.remove(0);
        assert(item == all[1]);
        let upper_bound = IntervalBound::from_plutus(item)?;
        Ok(Interval { lower_bound, upper_bound })
    }

    fn to_plutus(self) -> (r: PlutusData) {
        let mut fields: Vec<PlutusData> = Vec::new();
        fields.push(self.lower_bound.to_plutus());
        fields.push(self.upper_bound.to_plutus());
        create_constr(0, fields)
    }

    proof fn lemma_round_trip(m: Interval, d: PlutusData) {
        lemma_constr_view(d, 0, 2);
        IntervalBound::lemma_round_trip(m.lower_bound, constr_fields(d)[0]);
        IntervalBound::lemma_round_trip(m.upper_bound, constr_fields(d)[1]);
    }
}

impl AsPlutusList for Interval {
    open spec fn list_encodes(m: Seq<Interval>, d: PlutusData) -> bool {
        array_encodes::<Self>(m, d)
    }

    open spec fn list_decoded(d: PlutusData) -> Option<Seq<Interval>> {
        array_decoded::<Self>(d)
    }

    open spec fn list_rejects(d: PlutusData, e: DecodeError) -> bool {
        array_rejects::<Self>(d, e)
    }

    fn vec_from_plutus(data: PlutusData) -> (r: Result<Vec<Interval>, DecodeError>) {
        array_from_plutus(data)
    }

    fn vec_to_plutus(value: Vec<Interval>) -> (r: PlutusData) {
        array_to_plutus(value)
    }

    proof fn lemma_list_round_trip(m: Seq<Interval>, d: PlutusData) {
        lemma_array_round_trip::<Self>(m, d);
    }
}

/// A multisig script: for now, one key's signature.
#[derive(Debug, PartialEq, Eq)]
pub enum MultisigScript {
    Signature { key_hash: Vec<u8> },
}

impl AsPlutus for MultisigScript {
    /// The key hash that the script asks for.
    type Model = Seq<u8>;

    open spec fn model(&self) -> Seq<u8> {
        match self {
            MultisigScript::Signature { key_hash } => key_hash@,
        }
    }

    open spec fn encodes(m: Seq<u8>, d: PlutusData) -> bool {
        is_constr(d, 0, 1) && Vec::<u8>::encodes(m, constr_fields(d)[0])
    }

    open spec fn decoded(d: PlutusData) -> Option<Seq<u8>> {
        match constr_view(d) {
            Some((n, f)) => if n == 0 && f.len() == 1 {
                Vec::<u8>::decoded(f[0])
            } else {
                None
            },
            None => None,
        }
    }

    open spec fn rejects(d: PlutusData, e: DecodeError) -> bool {
        match constr_view(d) {
            Some((n, f)) => if n != 0 {
                e == DecodeError::UnexpectedVariant { variant: n }
            } else if f.len() != 1 {
                is_variant_count_error(e, 0, 1, f.len() as int)
            } else {
                Vec::<u8>::rejects(f[0], e)
            },
            None => constr_rejects(d, e),
        }
    }

    fn from_plutus(data: PlutusData) -> (r: Result<MultisigScript, DecodeError>) {
        let (variant, fields) = parse_constr(data)?;
        if variant != 0 {
            return Err(DecodeError::UnexpectedVariant { variant });
        }
        let mut fields = parse_variant(variant, fields, 1)?;
        let key_hash = Vec::<u8>::from_plutus(fields.remove(0))?;
        Ok(MultisigScript::Signature { key_hash })
    }

    fn to_plutus(self) -> (r: PlutusData) {
        match self {
            MultisigScript::Signature { key_hash } => {
                assert(models(key_hash@) =~= key_hash@);
                let mut fields: Vec<PlutusData> = Vec::new();
                fields.push(key_hash.to_plutus());
                create_constr(0, fields)
            },
        }
    }

    proof fn lemma_round_trip(m: Seq<u8>, d: PlutusData) {
        lemma_constr_view(d, 0, 1);
        Vec::<u8>::lemma_round_trip(m, constr_fields(d)[0]);
    }
}

impl AsPlutusList for MultisigScript {
    open spec fn list_encodes(m: Seq<Seq<u8>>, d: PlutusData) -> bool {
        array_encodes::<Self>(m, d)
    }

    open spec fn list_decoded(d: PlutusData) -> Option<Seq<Seq<u8>>> {
        array_decoded::<Self>(d)
    }

    open spec fn list_rejects(d: PlutusData, e: DecodeError) -> bool {
        array_rejects::<Self>(d, e)
    }

    fn vec_from_plutus(data: PlutusData) -> (r: Result<Vec<MultisigScript>, DecodeError>) {
        array_from_plutus(data)
    }

    fn vec_to_plutus(value: Vec<MultisigScript>) -> (r: PlutusData) {
        array_to_plutus(value)
    }

    proof fn lemma_list_round_trip(m: Seq<Seq<u8>>, d: PlutusData) {
        lemma_array_round_trip::<Self>(m, d);
    }
}

/// Where a payment goes. Its one alternative carries the explicit variant number 1.
#[derive(Debug, PartialEq, Eq, Structural)]
pub enum Destination {
    Self_,
}

impl AsPlutus for Destination {
    type Model = Destination;

    open spec fn model(&self) -> Destination {
        *self
    }

    open spec fn encodes(m: Destination, d: PlutusData) -> bool {
        is_constr(d, 1, 0)
    }

    open spec fn decoded(d: PlutusData) -> Option<Destination> {
        match constr_view(d) {
            Some((n, f)) => if n == 1 && f.len() == 0 {
                Some(Destination::Self_)
            } else {
                None
            },
            None => None,
        }
    }

    open spec fn rejects(d: PlutusData, e: DecodeError) -> bool {
        match constr_view(d) {
            Some((n, f)) => if n == 1 {
                is_variant_count_error(e, 1, 0, f.len() as int)
            } else {
                e == DecodeError::UnexpectedVariant { variant: n }
            },
            None => constr_rejects(d, e),
        }
    }

    fn from_plutus(data: PlutusData) -> (r: Result<Destination, DecodeError>) {
        let (variant, fields) = parse_constr(data)?;
        if variant != 1 {
            return Err(DecodeError::UnexpectedVariant { variant });
        }
        let _ = parse_variant(variant, fields, 0)?;
        Ok(Destination::Self_)
    }

    fn to_plutus(self) -> (r: PlutusData) {
        create_constr(1, Vec::new())
    }

    proof fn lemma_round_trip(m: Destination, d: PlutusData) {
        lemma_constr_view(d, 1, 0);
    }
}

impl AsPlutusList for Destination {
    open spec fn list_encodes(m: Seq<Destination>, d: PlutusData) -> bool {
        array_encodes::<Self>(m, d)
    }

    open spec fn list_decoded(d: PlutusData) -> Option<Seq<Destination>> {
        array_decoded::<Self>(d)
    }

    open spec fn list_rejects(d: PlutusData, e: DecodeError) -> bool {
        array_rejects::<Self>(d, e)
    }

    fn vec_from_plutus(data: PlutusData) -> (r: Result<Vec<Destination>, DecodeError>) {
        array_from_plutus(data)
    }

    fn vec_to_plutus(value: Vec<Destination>) -> (r: PlutusData) {
        array_to_plutus(value)
    }

    proof fn lemma_list_round_trip(m: Seq<Destination>, d: PlutusData) {
        lemma_array_round_trip::<Self>(m, d);
    }
}

} // verus!
