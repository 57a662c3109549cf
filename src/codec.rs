//! The codec contract: how a type is written to and read from a node.
use vstd::prelude::*;
use crate::node::{is_type_error, DecodeError, PlutusData};
use crate::parse::parse_array;

verus! {

/// A type that converts to and from Plutus data.
///
/// Each type has a mathematical model; the contracts say which node a model encodes to,
/// and which model (or which error) decoding a node gives.
pub trait AsPlutus: Sized {
    type Model;

    /// The value as a mathematical object.
    spec fn model(&self) -> Self::Model;

    /// `d` is the node that `m` encodes to.
    spec fn encodes(m: Self::Model, d: PlutusData) -> bool;

    /// The model that decoding `d` yields, or `None` when decoding fails.
    spec fn decoded(d: PlutusData) -> Option<Self::Model>;

    /// `e` is the error that decoding `d` reports.
    spec fn rejects(d: PlutusData, e: DecodeError) -> bool;

    /// Reads a value from a node.
    fn from_plutus(data: PlutusData) -> (r: Result<Self, DecodeError>)
        ensures
            match r {
                Ok(v) => Self::decoded(data) == Some(v.model()),
                Err(e) => (Self::decoded(data) is None) && Self::rejects(data, e),
            },
    ;

    /// Writes a value as a node.
    fn to_plutus(self) -> (r: PlutusData)
        ensures
            Self::encodes(self.model(), r),
    ;

    /// Decoding the node that a model encodes to gives that model back.
    proof fn lemma_round_trip(m: Self::Model, d: PlutusData)
        requires
            Self::encodes(m, d),
        ensures
            Self::decoded(d) == Some(m),
    ;
}

/// A type whose lists convert to and from Plutus data.
///
/// Most types write a list as an array node of their own encodings (the `array_` functions
/// below); a type may choose another layout for its lists.
pub trait AsPlutusList: AsPlutus {
    /// `d` is the node that a list of models `m` encodes to.
    spec fn list_encodes(m: Seq<Self::Model>, d: PlutusData) -> bool;

    /// The list of models that decoding `d` yields, or `None`.
    spec fn list_decoded(d: PlutusData) -> Option<Seq<Self::Model>>;

    /// `e` is the error that decoding `d` as a list reports.
    spec fn list_rejects(d: PlutusData, e: DecodeError) -> bool;

    /// Reads a list of values from a node.
    fn vec_from_plutus(data: PlutusData) -> (r: Result<Vec<Self>, DecodeError>)
        ensures
            match r {
                Ok(v) => Self::list_decoded(data) == Some(models(v@)),
                Err(e) => (Self::list_decoded(data) is None) && Self::list_rejects(data, e),
            },
    ;

    /// Writes a list of values as a node.
    fn vec_to_plutus(value: Vec<Self>) -> (r: PlutusData)
        ensures
            Self::list_encodes(models(value@), r),
    ;

    /// Decoding the node that a list of models encodes to gives that list back.
    proof fn lemma_list_round_trip(m: Seq<Self::Model>, d: PlutusData)
        requires
            Self::list_encodes(m, d),
        ensures
            Self::list_decoded(d) == Some(m),
    ;
}

/// The models of a sequence of values.
pub open spec fn models<T: AsPlutus>(s: Seq<T>) -> Seq<T::Model> {
    s.map_values(|v: T| v.model())
}

/// `d` is an array node whose elements encode the models `m` one by one.
pub open spec fn array_encodes<T: AsPlutus>(m: Seq<T::Model>, d: PlutusData) -> bool {
    &&& d matches PlutusData::Array(items)
    &&& items.len() == m.len()
    &&& forall|i: int| 0 <= i < m.len() ==> #[trigger] T::encodes(m[i], items[i])
}

/// Decoding an array node element by element.
pub open spec fn array_decoded<T: AsPlutus>(d: PlutusData) -> Option<Seq<T::Model>> {
    match d {
        PlutusData::Array(items) => if forall|i: int|
            0 <= i < items.len() ==> (#[trigger] T::decoded(items[i])) is Some {
            Some(Seq::new(items.len() as nat, |i: int| T::decoded(items[i])->Some_0))
        } else {
            None
        },
        _ => None,
    }
}

/// The error of an array node: its kind, or the error of its first element that fails.
pub open spec fn array_rejects<T: AsPlutus>(d: PlutusData, e: DecodeError) -> bool {
    match d {
        PlutusData::Array(items) => exists|i: int|
            0 <= i < items.len() && (forall|j: int|
                0 <= j < i ==> (#[trigger] T::decoded(items[j])) is Some) && T::decoded(
                items[i],
            ) is None && #[trigger] T::rejects(items[i], e),
        _ => is_type_error(e, "Array"@, d),
    }
}

/// Reads each element of an array node.
pub fn array_from_plutus<T: AsPlutus>(data: PlutusData) -> (r: Result<Vec<T>, DecodeError>)
    ensures
        match r {
            Ok(v) => array_decoded::<T>(data) == Some(models(v@)),
            Err(e) => (array_decoded::<T>(data) is None) && array_rejects::<T>(data, e),
        },
{
    let mut items = parse_array(data)?;
    let ghost all = items@;
    let mut out: Vec<T> = Vec::new();
    let n = items.len();
    let mut i: usize = 0;
    while i < n
        invariant
            data matches PlutusData::Array(orig) && orig@ == all,
            n == all.len(),
            0 <= i <= n,
            items@ == all.subrange(i as int, n as int),
            out.len() == i,
            forall|j: int| 0 <= j < i ==> (#[trigger] T::decoded(all[j])) is Some,
            forall|j: int| 0 <= j < i ==> T::decoded(all[j]) == Some(#[trigger] out[j].model()),
        decreases n - i,
    {
        let item = items.remove(0);
        assert(item == all[i as int]);
        match T::from_plutus(item) {
            Ok(v) => {
                out.push(v);
            },
            Err(e) => {
                proof {
                    let orig = data->Array_0;
                    assert(orig[i as int] == all[i as int]);
                    assert forall|j: int| 0 <= j < i implies (#[trigger] T::decoded(
                        orig[j],
                    )) is Some by {
                        assert(orig[j] == all[j]);
                    }
                }
                return Err(e);
            },
        }
        i = i + 1;
    }
    proof {
        assert(models(out@) =~= Seq::new(all.len() as nat, |j: int| T::decoded(all[j])->Some_0));
    }
    Ok(out)
}

/// Writes each element as a node, within one array node.
pub fn array_to_plutus<T: AsPlutus>(value: Vec<T>) -> (r: PlutusData)
    ensures
        array_encodes::<T>(models(value@), r),
{
    let ghost all = value@;
    let mut value = value;
    let mut out: Vec<PlutusData> = Vec::new();
    let n = value.len();
    let mut i: usize = 0;
    while i < n
        invariant
            n == all.len(),
            0 <= i <= n,
            value@ == all.subrange(i as int, n as int),
            out.len() == i,
            forall|j: int| 0 <= j < i ==> #[trigger] T::encodes(all[j].model(), out[j]),
        decreases n - i,
    {
        let v = value.remove(0);
        assert(v == all[i as int]);
        out.push(v.to_plutus());
        i = i + 1;
    }
    proof {
        assert forall|j: int| 0 <= j < n implies #[trigger] T::encodes(models(all)[j], out[j]) by {
            assert(models(all)[j] == all[j].model());
        }
    }
    PlutusData::Array(out)
}

/// Decoding the array node that a list of models encodes to gives that list back.
pub proof fn lemma_array_round_trip<T: AsPlutus>(m: Seq<T::Model>, d: PlutusData)
    requires
        array_encodes::<T>(m, d),
    ensures
        array_decoded::<T>(d) == Some(m),
{
    let items = d->Array_0;
    assert forall|i: int| 0 <= i < items.len() implies (#[trigger] T::decoded(items[i])) == Some(
        m[i],
    ) by {
        assert(T::encodes(m[i], items[i]));
        T::lemma_round_trip(m[i], items[i]);
    }
    assert(Seq::new(items.len() as nat, |i: int| T::decoded(items[i])->Some_0) =~= m);
}

} // verus!
