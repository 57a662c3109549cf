//! Codecs of fixed-size tuples.
use vstd::prelude::*;
use crate::codec::{
    array_decoded, array_encodes, array_from_plutus, array_rejects, array_to_plutus,
    lemma_array_round_trip, AsPlutus, AsPlutusList,
};
use crate::node::{is_type_error, DecodeError, PlutusData};
use crate::parse::{is_tuple_count_error, parse_tuple};

verus! {

/// A tuple of 2: an array node of exactly 2 elements, each written by its own type.
impl<T1: AsPlutus, T2: AsPlutus> AsPlutus for (T1, T2) {
    type Model = (T1::Model, T2::Model);

    open spec fn model(&self) -> (T1::Model, T2::Model) {
        (self.0.model(), self.1.model())
    }

    open spec fn encodes(m: (T1::Model, T2::Model), d: PlutusData) -> bool {
        &&& d matches PlutusData::Array(items)
        &&& items.len() == 2
        &&& T1::encodes(m.0, d->Array_0[0])
        &&& T2::encodes(m.1, d->Array_0[1])
    }

    open spec fn decoded(d: PlutusData) -> Option<(T1::Model, T2::Model)> {
        match d {
            PlutusData::Array(items) => if items.len() == 2 && T1::decoded(items[0]) is Some && T2::decoded(items[1]) is Some {
                Some((T1::decoded(items[0])->Some_0, T2::decoded(items[1])->Some_0))
            } else {
                None
            },
            _ => None,
        }
    }

    open spec fn rejects(d: PlutusData, e: DecodeError) -> bool {
        match d {
            PlutusData::Array(items) => if items.len() != 2 {
                is_tuple_count_error(e, 2, items.len() as int)
            } else if T1::decoded(items[0]) is None {
                T1::rejects(items[0], e)
            } else {
                T2::rejects(items[1], e)
            },
            _ => is_type_error(e, "Array"@, d),
        }
    }

    fn from_plutus(data: PlutusData) -> (r: Result<(T1, T2), DecodeError>) {
        let ghost d = data;
        let mut items = parse_tuple(data, 2)?;
        let ghost all = items@;
        let item = items.remove(0);
        assert(item == all[0]);
        let x1 = T1::from_plutus(item)?;
        let item = items.remove(0);
        assert(item == all[1]);
        let x2 = T2::from_plutus(item)?;
        Ok((x1, x2))
    }

    fn to_plutus(self) -> (r: PlutusData) {
        let (x1, x2) = self;
        let mut items: Vec<PlutusData> = Vec::new();
        items.push(x1.to_plutus());
        items.push(x2.to_plutus());
        PlutusData::Array(items)
    }

    proof fn lemma_round_trip(m: (T1::Model, T2::Model), d: PlutusData) {
        T1::lemma_round_trip(m.0, d->Array_0[0]);
        T2::lemma_round_trip(m.1, d->Array_0[1]);
    }
}

impl<T1: AsPlutus, T2: AsPlutus> AsPlutusList for (T1, T2) {
    open spec fn list_encodes(m: Seq<(T1::Model, T2::Model)>, d: PlutusData) -> bool {
        array_encodes::<Self>(m, d)
    }

    open spec fn list_decoded(d: PlutusData) -> Option<Seq<(T1::Model, T2::Model)>> {
        array_decoded::<Self>(d)
    }

    open spec fn list_rejects(d: PlutusData, e: DecodeError) -> bool {
        array_rejects::<Self>(d, e)
    }

    fn vec_from_plutus(data: PlutusData) -> (r: Result<Vec<(T1, T2)>, DecodeError>) {
        array_from_plutus(data)
    }

    fn vec_to_plutus(value: Vec<(T1, T2)>) -> (r: PlutusData) {
        array_to_plutus(value)
    }

    proof fn lemma_list_round_trip(m: Seq<(T1::Model, T2::Model)>, d: PlutusData) {
        lemma_array_round_trip::<Self>(m, d);
    }
}

/// A tuple of 3: an array node of exactly 3 elements, each written by its own type.
impl<T1: AsPlutus, T2: AsPlutus, T3: AsPlutus> AsPlutus for (T1, T2, T3) {
    type Model = (T1::Model, T2::Model, T3::Model);

    open spec fn model(&self) -> (T1::Model, T2::Model, T3::Model) {
        (self.0.model(), self.1.model(), self.2.model())
    }

    open spec fn encodes(m: (T1::Model, T2::Model, T3::Model), d: PlutusData) -> bool {
        &&& d matches PlutusData::Array(items)
        &&& items.len() == 3
        &&& T1::encodes(m.0, d->Array_0[0])
        &&& T2::encodes(m.1, d->Array_0[1])
        &&& T3::encodes(m.2, d->Array_0[2])
    }

    open spec fn decoded(d: PlutusData) -> Option<(T1::Model, T2::Model, T3::Model)> {
        match d {
            PlutusData::Array(items) => if items.len() == 3 && T1::decoded(items[0]) is Some && T2::decoded(items[1]) is Some && T3::decoded(items[2]) is Some {
                Some((T1::decoded(items[0])->Some_0, T2::decoded(items[1])->Some_0, T3::decoded(items[2])->Some_0))
            } else {
                None
            },
            _ => None,
        }
    }

    open spec fn rejects(d: PlutusData, e: DecodeError) -> bool {
        match d {
            PlutusData::Array(items) => if items.len() != 3 {
                is_tuple_count_error(e, 3, items.len() as int)
            } else if T1::decoded(items[0]) is None {
                T1::rejects(items[0], e)
            } else if T2::decoded(items[1]) is None {
                T2::rejects(items[1], e)
            } else {
                T3::rejects(items[2], e)
            },
            _ => is_type_error(e, "Array"@, d),
        }
    }

    fn from_plutus(data: PlutusData) -> (r: Result<(T1, T2, T3), DecodeError>) {
        let ghost d = data;
        let mut items = parse_tuple(data, 3)?;
        let ghost all = items@;
        let item = items.remove(0);
        assert(item == all[0]);
        let x1 = T1::from_plutus(item)?;
        let item = items.remove(0);
        assert(item == all[1]);
        let x2 = T2::from_plutus(item)?;
        let item = items.remove(0);
        assert(item == all[2]);
        let x3 = T3::from_plutus(item)?;
        Ok((x1, x2, x3))
    }

    fn to_plutus(self) -> (r: PlutusData) {
        let (x1, x2, x3) = self;
        let mut items: Vec<PlutusData> = Vec::new();
        items.push(x1.to_plutus());
        items.push(x2.to_plutus());
        items.push(x3.to_plutus());
        PlutusData::Array(items)
    }

    proof fn lemma_round_trip(m: (T1::Model, T2::Model, T3::Model), d: PlutusData) {
        T1::lemma_round_trip(m.0, d->Array_0[0]);
        T2::lemma_round_trip(m.1, d->Array_0[1]);
        T3::lemma_round_trip(m.2, d->Array_0[2]);
    }
}

impl<T1: AsPlutus, T2: AsPlutus, T3: AsPlutus> AsPlutusList for (T1, T2, T3) {
    open spec fn list_encodes(m: Seq<(T1::Model, T2::Model, T3::Model)>, d: PlutusData) -> bool {
        array_encodes::<Self>(m, d)
    }

    open spec fn list_decoded(d: PlutusData) -> Option<Seq<(T1::Model, T2::Model, T3::Model)>> {
        array_decoded::<Self>(d)
    }

    open spec fn list_rejects(d: PlutusData, e: DecodeError) -> bool {
        array_rejects::<Self>(d, e)
    }

    fn vec_from_plutus(data: PlutusData) -> (r: Result<Vec<(T1, T2, T3)>, DecodeError>) {
        array_from_plutus(data)
    }

    fn vec_to_plutus(value: Vec<(T1, T2, T3)>) -> (r: PlutusData) {
        array_to_plutus(value)
    }

    proof fn lemma_list_round_trip(m: Seq<(T1::Model, T2::Model, T3::Model)>, d: PlutusData) {
        lemma_array_round_trip::<Self>(m, d);
    }
}

/// A tuple of 4: an array node of exactly 4 elements, each written by its own type.
impl<T1: AsPlutus, T2: AsPlutus, T3: AsPlutus, T4: AsPlutus> AsPlutus for (T1, T2, T3, T4) {
    type Model = (T1::Model, T2::Model, T3::Model, T4::Model);

    open spec fn model(&self) -> (T1::Model, T2::Model, T3::Model, T4::Model) {
        (self.0.model(), self.1.model(), self.2.model(), self.3.model())
    }

    open spec fn encodes(m: (T1::Model, T2::Model, T3::Model, T4::Model), d: PlutusData) -> bool {
        &&& d matches PlutusData::Array(items)
        &&& items.len() == 4
        &&& T1::encodes(m.0, d->Array_0[0])
        &&& T2::encodes(m.1, d->Array_0[1])
        &&& T3::encodes(m.2, d->Array_0[2])
        &&& T4::encodes(m.3, d->Array_0[3])
    }

    open spec fn decoded(d: PlutusData) -> Option<(T1::Model, T2::Model, T3::Model, T4::Model)> {
        match d {
            PlutusData::Array(items) => if items.len() == 4 && T1::decoded(items[0]) is Some && T2::decoded(items[1]) is Some && T3::decoded(items[2]) is Some && T4::decoded(items[3]) is Some {
                Some((T1::decoded(items[0])->Some_0, T2::decoded(items[1])->Some_0, T3::decoded(items[2])->Some_0, T4::decoded(items[3])->Some_0))
            } else {
                None
            },
            _ => None,
        }
    }

    open spec fn rejects(d: PlutusData, e: DecodeError) -> bool {
        match d {
            PlutusData::Array(items) => if items.len() != 4 {
                is_tuple_count_error(e, 4, items.len() as int)
            } else if T1::decoded(items[0]) is None {
                T1::rejects(items[0], e)
            } else if T2::decoded(items[1]) is None {
                T2::rejects(items[1], e)
            } else if T3::decoded(items[2]) is None {
                T3::rejects(items[2], e)
            } else {
                T4::rejects(items[3], e)
            },
            _ => is_type_error(e, "Array"@, d),
        }
    }

    fn from_plutus(data: PlutusData) -> (r: Result<(T1, T2, T3, T4), DecodeError>) {
        let ghost d = data;
        let mut items = parse_tuple(data, 4)?;
        let ghost all = items@;
        let item = items.remove(0);
        assert(item == all[0]);
        let x1 = T1::from_plutus(item)?;
        let item = items.remove(0);
        assert(item == all[1]);
        let x2 = T2::from_plutus(item)?;
        let item = items.remove(0);
        assert(item == all[2]);
        let x3 = T3::from_plutus(item)?;
        let item = items.remove(0);
        assert(item == all[3]);
        let x4 = T4::from_plutus(item)?;
        Ok((x1, x2, x3, x4))
    }

    fn to_plutus(self) -> (r: PlutusData) {
        let (x1, x2, x3, x4) = self;
        let mut items: Vec<PlutusData> = Vec::new();
        items.push(x1.to_plutus());
        items.push(x2.to_plutus());
        items.push(x3.to_plutus());
        items.push(x4.to_plutus());
        PlutusData::Array(items)
    }

    proof fn lemma_round_trip(m: (T1::Model, T2::Model, T3::Model, T4::Model), d: PlutusData) {
        T1::lemma_round_trip(m.0, d->Array_0[0]);
        T2::lemma_round_trip(m.1, d->Array_0[1]);
        T3::lemma_round_trip(m.2, d->Array_0[2]);
        T4::lemma_round_trip(m.3, d->Array_0[3]);
    }
}

impl<T1: AsPlutus, T2: AsPlutus, T3: AsPlutus, T4: AsPlutus> AsPlutusList for (T1, T2, T3, T4) {
    open spec fn list_encodes(m: Seq<(T1::Model, T2::Model, T3::Model, T4::Model)>, d: PlutusData) -> bool {
        array_encodes::<Self>(m, d)
    }

    open spec fn list_decoded(d: PlutusData) -> Option<Seq<(T1::Model, T2::Model, T3::Model, T4::Model)>> {
        array_decoded::<Self>(d)
    }

    open spec fn list_rejects(d: PlutusData, e: DecodeError) -> bool {
        array_rejects::<Self>(d, e)
    }

    fn vec_from_plutus(data: PlutusData) -> (r: Result<Vec<(T1, T2, T3, T4)>, DecodeError>) {
        array_from_plutus(data)
    }

    fn vec_to_plutus(value: Vec<(T1, T2, T3, T4)>) -> (r: PlutusData) {
        array_to_plutus(value)
    }

    proof fn lemma_list_round_trip(m: Seq<(T1::Model, T2::Model, T3::Model, T4::Model)>, d: PlutusData) {
        lemma_array_round_trip::<Self>(m, d);
    }
}

/// A tuple of 5: an array node of exactly 5 elements, each written by its own type.
impl<T1: AsPlutus, T2: AsPlutus, T3: AsPlutus, T4: AsPlutus, T5: AsPlutus> AsPlutus for (T1, T2, T3, T4, T5) {
    type Model = (T1::Model, T2::Model, T3::Model, T4::Model, T5::Model);

    open spec fn model(&self) -> (T1::Model, T2::Model, T3::Model, T4::Model, T5::Model) {
        (self.0.model(), self.1.model(), self.2.model(), self.3.model(), self.4.model())
    }

    open spec fn encodes(m: (T1::Model, T2::Model, T3::Model, T4::Model, T5::Model), d: PlutusData) -> bool {
        &&& d matches PlutusData::Array(items)
        &&& items.len() == 5
        &&& T1::encodes(m.0, d->Array_0[0])
        &&& T2::encodes(m.1, d->Array_0[1])
        &&& T3::encodes(m.2, d->Array_0[2])
        &&& T4::encodes(m.3, d->Array_0[3])
        &&& T5::encodes(m.4, d->Array_0[4])
    }

    open spec fn decoded(d: PlutusData) -> Option<(T1::Model, T2::Model, T3::Model, T4::Model, T5::Model)> {
        match d {
            PlutusData::Array(items) => if items.len() == 5 && T1::decoded(items[0]) is Some && T2::decoded(items[1]) is Some && T3::decoded(items[2]) is Some && T4::decoded(items[3]) is Some && T5::decoded(items[4]) is Some {
                Some((T1::decoded(items[0])->Some_0, T2::decoded(items[1])->Some_0, T3::decoded(items[2])->Some_0, T4::decoded(items[3])->Some_0, T5::decoded(items[4])->Some_0))
            } else {
                None
            },
            _ => None,
        }
    }

    open spec fn rejects(d: PlutusData, e: DecodeError) -> bool {
        match d {
            PlutusData::Array(items) => if items.len() != 5 {
                is_tuple_count_error(e, 5, items.len() as int)
            } else if T1::decoded(items[0]) is None {
                T1::rejects(items[0], e)
            } else if T2::decoded(items[1]) is None {
                T2::rejects(items[1], e)
            } else if T3::decoded(items[2]) is None {
                T3::rejects(items[2], e)
            } else if T4::decoded(items[3]) is None {
                T4::rejects(items[3], e)
            } else {
                T5::rejects(items[4], e)
            },
            _ => is_type_error(e, "Array"@, d),
        }
    }

    fn from_plutus(data: PlutusData) -> (r: Result<(T1, T2, T3, T4, T5), DecodeError>) {
        let ghost d = data;
        let mut items = parse_tuple(data, 5)?;
        let ghost all = items@;
        let item = items.remove(0);
        assert(item == all[0]);
        let x1 = T1::from_plutus(item)?;
        let item = items.remove(0);
        assert(item == all[1]);
        let x2 = T2::from_plutus(item)?;
        let item = items.remove(0);
        assert(item == all[2]);
        let x3 = T3::from_plutus(item)?;
        let item = items.remove(0);
        assert(item == all[3]);
        let x4 = T4::from_plutus(item)?;
        let item = items.remove(0);
        assert(item == all[4]);
        let x5 = T5::from_plutus(item)?;
        Ok((x1, x2, x3, x4, x5))
    }

    fn to_plutus(self) -> (r: PlutusData) {
        let (x1, x2, x3, x4, x5) = self;
        let mut items: Vec<PlutusData> = Vec::new();
        items.push(x1.to_plutus());
        items.push(x2.to_plutus());
        items.push(x3.to_plutus());
        items.push(x4.to_plutus());
        items.push(x5.to_plutus());
        PlutusData::Array(items)
    }

    proof fn lemma_round_trip(m: (T1::Model, T2::Model, T3::Model, T4::Model, T5::Model), d: PlutusData) {
        T1::lemma_round_trip(m.0, d->Array_0[0]);
        T2::lemma_round_trip(m.1, d->Array_0[1]);
        T3::lemma_round_trip(m.2, d->Array_0[2]);
        T4::lemma_round_trip(m.3, d->Array_0[3]);
        T5::lemma_round_trip(m.4, d->Array_0[4]);
    }
}

impl<T1: AsPlutus, T2: AsPlutus, T3: AsPlutus, T4: AsPlutus, T5: AsPlutus> AsPlutusList for (T1, T2, T3, T4, T5) {
    open spec fn list_encodes(m: Seq<(T1::Model, T2::Model, T3::Model, T4::Model, T5::Model)>, d: PlutusData) -> bool {
        array_encodes::<Self>(m, d)
    }

    open spec fn list_decoded(d: PlutusData) -> Option<Seq<(T1::Model, T2::Model, T3::Model, T4::Model, T5::Model)>> {
        array_decoded::<Self>(d)
    }

    open spec fn list_rejects(d: PlutusData, e: DecodeError) -> bool {
        array_rejects::<Self>(d, e)
    }

    fn vec_from_plutus(data: PlutusData) -> (r: Result<Vec<(T1, T2, T3, T4, T5)>, DecodeError>) {
        array_from_plutus(data)
    }

    fn vec_to_plutus(value: Vec<(T1, T2, T3, T4, T5)>) -> (r: PlutusData) {
        array_to_plutus(value)
    }

    proof fn lemma_list_round_trip(m: Seq<(T1::Model, T2::Model, T3::Model, T4::Model, T5::Model)>, d: PlutusData) {
        lemma_array_round_trip::<Self>(m, d);
    }
}

/// A tuple of 6: an array node of exactly 6 elements, each written by its own type.
impl<T1: AsPlutus, T2: AsPlutus, T3: AsPlutus, T4: AsPlutus, T5: AsPlutus, T6: AsPlutus> AsPlutus for (T1, T2, T3, T4, T5, T6) {
    type Model = (T1::Model, T2::Model, T3::Model, T4::Model, T5::Model, T6::Model);

    open spec fn model(&self) -> (T1::Model, T2::Model, T3::Model, T4::Model, T5::Model, T6::Model) {
        (self.0.model(), self.1.model(), self.2.model(), self.3.model(), self.4.model(), self.5.model())
    }

    open spec fn encodes(m: (T1::Model, T2::Model, T3::Model, T4::Model, T5::Model, T6::Model), d: PlutusData) -> bool {
        &&& d matches PlutusData::Array(items)
        &&& items.len() == 6
        &&& T1::encodes(m.0, d->Array_0[0])
        &&& T2::encodes(m.1, d->Array_0[1])
        &&& T3::encodes(m.2, d->Array_0[2])
        &&& T4::encodes(m.3, d->Array_0[3])
        &&& T5::encodes(m.4, d->Array_0[4])
        &&& T6::encodes(m.5, d->Array_0[5])
    }

    open spec fn decoded(d: PlutusData) -> Option<(T1::Model, T2::Model, T3::Model, T4::Model, T5::Model, T6::Model)> {
        match d {
            PlutusData::Array(items) => if items.len() == 6 && T1::decoded(items[0]) is Some && T2::decoded(items[1]) is Some && T3::decoded(items[2]) is Some && T4::decoded(items[3]) is Some && T5::decoded(items[4]) is Some && T6::decoded(items[5]) is Some {
                Some((T1::decoded(items[0])->Some_0, T2::decoded(items[1])->Some_0, T3::decoded(items[2])->Some_0, T4::decoded(items[3])->Some_0, T5::decoded(items[4])->Some_0, T6::decoded(items[5])->Some_0))
            } else {
                None
            },
            _ => None,
        }
    }

    open spec fn rejects(d: PlutusData, e: DecodeError) -> bool {
        match d {
            PlutusData::Array(items) => if items.len() != 6 {
                is_tuple_count_error(e, 6, items.len() as int)
            } else if T1::decoded(items[0]) is None {
                T1::rejects(items[0], e)
            } else if T2::decoded(items[1]) is None {
                T2::rejects(items[1], e)
            } else if T3::decoded(items[2]) is None {
                T3::rejects(items[2], e)
            } else if T4::decoded(items[3]) is None {
                T4::rejects(items[3], e)
            } else if T5::decoded(items[4]) is None {
                T5::rejects(items[4], e)
            } else {
                T6::rejects(items[5], e)
            },
            _ => is_type_error(e, "Array"@, d),
        }
    }

    fn from_plutus(data: PlutusData) -> (r: Result<(T1, T2, T3, T4, T5, T6), DecodeError>) {
        let ghost d = data;
        let mut items = parse_tuple(data, 6)?;
        let ghost all = items@;
        let item = items.remove(0);
        assert(item == all[0]);
        let x1 = T1::from_plutus(item)?;
        let item = items.remove(0);
        assert(item == all[1]);
        let x2 = T2::from_plutus(item)?;
        let item = items.remove(0);
        assert(item == all[2]);
        let x3 = T3::from_plutus(item)?;
        let item = items.remove(0);
        assert(item == all[3]);
        let x4 = T4::from_plutus(item)?;
        let item = items.remove(0);
        assert(item == all[4]);
        let x5 = T5::from_plutus(item)?;
        let item = items.remove(0);
        assert(item == all[5]);
        let x6 = T6::from_plutus(item)?;
        Ok((x1, x2, x3, x4, x5, x6))
    }

    fn to_plutus(self) -> (r: PlutusData) {
        let (x1, x2, x3, x4, x5, x6) = self;
        let mut items: Vec<PlutusData> = Vec::new();
        items.push(x1.to_plutus());
        items.push(x2.to_plutus());
        items.push(x3.to_plutus());
        items.push(x4.to_plutus());
        items.push(x5.to_plutus());
        items.push(x6.to_plutus());
        PlutusData::Array(items)
    }

    proof fn lemma_round_trip(m: (T1::Model, T2::Model, T3::Model, T4::Model, T5::Model, T6::Model), d: PlutusData) {
        T1::lemma_round_trip(m.0, d->Array_0[0]);
        T2::lemma_round_trip(m.1, d->Array_0[1]);
        T3::lemma_round_trip(m.2, d->Array_0[2]);
        T4::lemma_round_trip(m.3, d->Array_0[3]);
        T5::lemma_round_trip(m.4, d->Array_0[4]);
        T6::lemma_round_trip(m.5, d->Array_0[5]);
    }
}

impl<T1: AsPlutus, T2: AsPlutus, T3: AsPlutus, T4: AsPlutus, T5: AsPlutus, T6: AsPlutus> AsPlutusList for (T1, T2, T3, T4, T5, T6) {
    open spec fn list_encodes(m: Seq<(T1::Model, T2::Model, T3::Model, T4::Model, T5::Model, T6::Model)>, d: PlutusData) -> bool {
        array_encodes::<Self>(m, d)
    }

    open spec fn list_decoded(d: PlutusData) -> Option<Seq<(T1::Model, T2::Model, T3::Model, T4::Model, T5::Model, T6::Model)>> {
        array_decoded::<Self>(d)
    }

    open spec fn list_rejects(d: PlutusData, e: DecodeError) -> bool {
        array_rejects::<Self>(d, e)
    }

    fn vec_from_plutus(data: PlutusData) -> (r: Result<Vec<(T1, T2, T3, T4, T5, T6)>, DecodeError>) {
        array_from_plutus(data)
    }

    fn vec_to_plutus(value: Vec<(T1, T2, T3, T4, T5, T6)>) -> (r: PlutusData) {
        array_to_plutus(value)
    }

    proof fn lemma_list_round_trip(m: Seq<(T1::Model, T2::Model, T3::Model, T4::Model, T5::Model, T6::Model)>, d: PlutusData) {
        lemma_array_round_trip::<Self>(m, d);
    }
}

/// A tuple of 7: an array node of exactly 7 elements, each written by its own type.
impl<T1: AsPlutus, T2: AsPlutus, T3: AsPlutus, T4: AsPlutus, T5: AsPlutus, T6: AsPlutus, T7: AsPlutus> AsPlutus for (T1, T2, T3, T4, T5, T6, T7) {
    type Model = (T1::Model, T2::Model, T3::Model, T4::Model, T5::Model, T6::Model, T7::Model);

    open spec fn model(&self) -> (T1::Model, T2::Model, T3::Model, T4::Model, T5::Model, T6::Model, T7::Model) {
        (self.0.model(), self.1.model(), self.2.model(), self.3.model(), self.4.model(), self.5.model(), self.6.model())
    }

    open spec fn encodes(m: (T1::Model, T2::Model, T3::Model, T4::Model, T5::Model, T6::Model, T7::Model), d: PlutusData) -> bool {
        &&& d matches PlutusData::Array(items)
        &&& items.len() == 7
        &&& T1::encodes(m.0, d->Array_0[0])
        &&& T2::encodes(m.1, d->Array_0[1])
        &&& T3::encodes(m.2, d->Array_0[2])
        &&& T4::encodes(m.3, d->Array_0[3])
        &&& T5::encodes(m.4, d->Array_0[4])
        &&& T6::encodes(m.5, d->Array_0[5])
        &&& T7::encodes(m.6, d->Array_0[6])
    }

    open spec fn decoded(d: PlutusData) -> Option<(T1::Model, T2::Model, T3::Model, T4::Model, T5::Model, T6::Model, T7::Model)> {
        match d {
            PlutusData::Array(items) => if items.len() == 7 && T1::decoded(items[0]) is Some && T2::decoded(items[1]) is Some && T3::decoded(items[2]) is Some && T4::decoded(items[3]) is Some && T5::decoded(items[4]) is Some && T6::decoded(items[5]) is Some && T7::decoded(items[6]) is Some {
                Some((T1::decoded(items[0])->Some_0, T2::decoded(items[1])->Some_0, T3::decoded(items[2])->Some_0, T4::decoded(items[3])->Some_0, T5::decoded(items[4])->Some_0, T6::decoded(items[5])->Some_0, T7::decoded(items[6])->Some_0))
            } else {
                None
            },
            _ => None,
        }
    }

    open spec fn rejects(d: PlutusData, e: DecodeError) -> bool {
        match d {
            PlutusData::Array(items) => if items.len() != 7 {
                is_tuple_count_error(e, 7, items.len() as int)
            } else if T1::decoded(items[0]) is None {
                T1::rejects(items[0], e)
            } else if T2::decoded(items[1]) is None {
                T2::rejects(items[1], e)
            } else if T3::decoded(items[2]) is None {
                T3::rejects(items[2], e)
            } else if T4::decoded(items[3]) is None {
                T4::rejects(items[3], e)
            } else if T5::decoded(items[4]) is None {
                T5::rejects(items[4], e)
            } else if T6::decoded(items[5]) is None {
                T6::rejects(items[5], e)
            } else {
                T7::rejects(items[6], e)
            },
            _ => is_type_error(e, "Array"@, d),
        }
    }

    fn from_plutus(data: PlutusData) -> (r: Result<(T1, T2, T3, T4, T5, T6, T7), DecodeError>) {
        let ghost d = data;
        let mut items = parse_tuple(data, 7)?;
        let ghost all = items@;
        let item = items.remove(0);
        assert(item == all[0]);
        let x1 = T1::from_plutus(item)?;
        let item = items.remove(0);
        assert(item == all[1]);
        let x2 = T2::from_plutus(item)?;
        let item = items.remove(0);
        assert(item == all[2]);
        let x3 = T3::from_plutus(item)?;
        let item = items.remove(0);
        assert(item == all[3]);
        let x4 = T4::from_plutus(item)?;
        let item = items.remove(0);
        assert(item == all[4]);
        let x5 = T5::from_plutus(item)?;
        let item = items.remove(0);
        assert(item == all[5]);
        let x6 = T6::from_plutus(item)?;
        let item = items.remove(0);
        assert(item == all[6]);
        let x7 = T7::from_plutus(item)?;
        Ok((x1, x2, x3, x4, x5, x6, x7))
    }

    fn to_plutus(self) -> (r: PlutusData) {
        let (x1, x2, x3, x4, x5, x6, x7) = self;
        let mut items: Vec<PlutusData> = Vec::new();
        items.push(x1.to_plutus());
        items.push(x2.to_plutus());
        items.push(x3.to_plutus());
        items.push(x4.to_plutus());
        items.push(x5.to_plutus());
        items.push(x6.to_plutus());
        items.push(x7.to_plutus());
        PlutusData::Array(items)
    }

    proof fn lemma_round_trip(m: (T1::Model, T2::Model, T3::Model, T4::Model, T5::Model, T6::Model, T7::Model), d: PlutusData) {
        T1::lemma_round_trip(m.0, d->Array_0[0]);
        T2::lemma_round_trip(m.1, d->Array_0[1]);
        T3::lemma_round_trip(m.2, d->Array_0[2]);
        T4::lemma_round_trip(m.3, d->Array_0[3]);
        T5::lemma_round_trip(m.4, d->Array_0[4]);
        T6::lemma_round_trip(m.5, d->Array_0[5]);
        T7::lemma_round_trip(m.6, d->Array_0[6]);
    }
}

impl<T1: AsPlutus, T2: AsPlutus, T3: AsPlutus, T4: AsPlutus, T5: AsPlutus, T6: AsPlutus, T7: AsPlutus> AsPlutusList for (T1, T2, T3, T4, T5, T6, T7) {
    open spec fn list_encodes(m: Seq<(T1::Model, T2::Model, T3::Model, T4::Model, T5::Model, T6::Model, T7::Model)>, d: PlutusData) -> bool {
        array_encodes::<Self>(m, d)
    }

    open spec fn list_decoded(d: PlutusData) -> Option<Seq<(T1::Model, T2::Model, T3::Model, T4::Model, T5::Model, T6::Model, T7::Model)>> {
        array_decoded::<Self>(d)
    }

    open spec fn list_rejects(d: PlutusData, e: DecodeError) -> bool {
        array_rejects::<Self>(d, e)
    }

    fn vec_from_plutus(data: PlutusData) -> (r: Result<Vec<(T1, T2, T3, T4, T5, T6, T7)>, DecodeError>) {
        array_from_plutus(data)
    }

    fn vec_to_plutus(value: Vec<(T1, T2, T3, T4, T5, T6, T7)>) -> (r: PlutusData) {
        array_to_plutus(value)
    }

    proof fn lemma_list_round_trip(m: Seq<(T1::Model, T2::Model, T3::Model, T4::Model, T5::Model, T6::Model, T7::Model)>, d: PlutusData) {
        lemma_array_round_trip::<Self>(m, d);
    }
}

/// A tuple of 8: an array node of exactly 8 elements, each written by its own type.
impl<T1: AsPlutus, T2: AsPlutus, T3: AsPlutus, T4: AsPlutus, T5: AsPlutus, T6: AsPlutus, T7: AsPlutus, T8: AsPlutus> AsPlutus for (T1, T2, T3, T4, T5, T6, T7, T8) {
    type Model = (T1::Model, T2::Model, T3::Model, T4::Model, T5::Model, T6::Model, T7::Model, T8::Model);

    open spec fn model(&self) -> (T1::Model, T2::Model, T3::Model, T4::Model, T5::Model, T6::Model, T7::Model, T8::Model) {
        (self.0.model(), self.1.model(), self.2.model(), self.3.model(), self.4.model(), self.5.model(), self.6.model(), self.7.model())
    }

    open spec fn encodes(m: (T1::Model, T2::Model, T3::Model, T4::Model, T5::Model, T6::Model, T7::Model, T8::Model), d: PlutusData) -> bool {
        &&& d matches PlutusData::Array(items)
        &&& items.len() == 8
        &&& T1::encodes(m.0, d->Array_0[0])
        &&& T2::encodes(m.1, d->Array_0[1])
        &&& T3::encodes(m.2, d->Array_0[2])
        &&& T4::encodes(m.3, d->Array_0[3])
        &&& T5::encodes(m.4, d->Array_0[4])
        &&& T6::encodes(m.5, d->Array_0[5])
        &&& T7::encodes(m.6, d->Array_0[6])
        &&& T8::encodes(m.7, d->Array_0[7])
    }

    open spec fn decoded(d: PlutusData) -> Option<(T1::Model, T2::Model, T3::Model, T4::Model, T5::Model, T6::Model, T7::Model, T8::Model)> {
        match d {
            PlutusData::Array(items) => if items.len() == 8 && T1::decoded(items[0]) is Some && T2::decoded(items[1]) is Some && T3::decoded(items[2]) is Some && T4::decoded(items[3]) is Some && T5::decoded(items[4]) is Some && T6::decoded(items[5]) is Some && T7::decoded(items[6]) is Some && T8::decoded(items[7]) is Some {
                Some((T1::decoded(items[0])->Some_0, T2::decoded(items[1])->Some_0, T3::decoded(items[2])->Some_0, T4::decoded(items[3])->Some_0, T5::decoded(items[4])->Some_0, T6::decoded(items[5])->Some_0, T7::decoded(items[6])->Some_0, T8::decoded(items[7])->Some_0))
            } else {
                None
            },
            _ => None,
        }
    }

    open spec fn rejects(d: PlutusData, e: DecodeError) -> bool {
        match d {
            PlutusData::Array(items) => if items.len() != 8 {
                is_tuple_count_error(e, 8, items.len() as int)
            } else if T1::decoded(items[0]) is None {
                T1::rejects(items[0], e)
            } else if T2::decoded(items[1]) is None {
                T2::rejects(items[1], e)
            } else if T3::decoded(items[2]) is None {
                T3::rejects(items[2], e)
            } else if T4::decoded(items[3]) is None {
                T4::rejects(items[3], e)
            } else if T5::decoded(items[4]) is None {
                T5::rejects(items[4], e)
            } else if T6::decoded(items[5]) is None {
                T6::rejects(items[5], e)
            } else if T7::decoded(items[6]) is None {
                T7::rejects(items[6], e)
            } else {
                T8::rejects(items[7], e)
            },
            _ => is_type_error(e, "Array"@, d),
        }
    }

    fn from_plutus(data: PlutusData) -> (r: Result<(T1, T2, T3, T4, T5, T6, T7, T8), DecodeError>) {
        let ghost d = data;
        let mut items = parse_tuple(data, 8)?;
        let ghost all = items@;
        let item = items.remove(0);
        assert(item == all[0]);
        let x1 = T1::from_plutus(item)?;
        let item = items.remove(0);
        assert(item == all[1]);
        let x2 = T2::from_plutus(item)?;
        let item = items.remove(0);
        assert(item == all[2]);
        let x3 = T3::from_plutus(item)?;
        let item = items.remove(0);
        assert(item == all[3]);
        let x4 = T4::from_plutus(item)?;
        let item = items.remove(0);
        assert(item == all[4]);
        let x5 = T5::from_plutus(item)?;
        let item = items.remove(0);
        assert(item == all[5]);
        let x6 = T6::from_plutus(item)?;
        let item = items.remove(0);
        assert(item == all[6]);
        let x7 = T7::from_plutus(item)?;
        let item = items.remove(0);
        assert(item == all[7]);
        let x8 = T8::from_plutus(item)?;
        Ok((x1, x2, x3, x4, x5, x6, x7, x8))
    }

    fn to_plutus(self) -> (r: PlutusData) {
        let (x1, x2, x3, x4, x5, x6, x7, x8) = self;
        let mut items: Vec<PlutusData> = Vec::new();
        items.push(x1.to_plutus());
        items.push(x2.to_plutus());
        items.push(x3.to_plutus());
        items.push(x4.to_plutus());
        items.push(x5.to_plutus());
        items.push(x6.to_plutus());
        items.push(x7.to_plutus());
        items.push(x8.to_plutus());
        PlutusData::Array(items)
    }

    proof fn lemma_round_trip(m: (T1::Model, T2::Model, T3::Model, T4::Model, T5::Model, T6::Model, T7::Model, T8::Model), d: PlutusData) {
        T1::lemma_round_trip(m.0, d->Array_0[0]);
        T2::lemma_round_trip(m.1, d->Array_0[1]);
        T3::lemma_round_trip(m.2, d->Array_0[2]);
        T4::lemma_round_trip(m.3, d->Array_0[3]);
        T5::lemma_round_trip(m.4, d->Array_0[4]);
        T6::lemma_round_trip(m.5, d->Array_0[5]);
        T7::lemma_round_trip(m.6, d->Array_0[6]);
        T8::lemma_round_trip(m.7, d->Array_0[7]);
    }
}

impl<T1: AsPlutus, T2: AsPlutus, T3: AsPlutus, T4: AsPlutus, T5: AsPlutus, T6: AsPlutus, T7: AsPlutus, T8: AsPlutus> AsPlutusList for (T1, T2, T3, T4, T5, T6, T7, T8) {
    open spec fn list_encodes(m: Seq<(T1::Model, T2::Model, T3::Model, T4::Model, T5::Model, T6::Model, T7::Model, T8::Model)>, d: PlutusData) -> bool {
        array_encodes::<Self>(m, d)
    }

    open spec fn list_decoded(d: PlutusData) -> Option<Seq<(T1::Model, T2::Model, T3::Model, T4::Model, T5::Model, T6::Model, T7::Model, T8::Model)>> {
        array_decoded::<Self>(d)
    }

    open spec fn list_rejects(d: PlutusData, e: DecodeError) -> bool {
        array_rejects::<Self>(d, e)
    }

    fn vec_from_plutus(data: PlutusData) -> (r: Result<Vec<(T1, T2, T3, T4, T5, T6, T7, T8)>, DecodeError>) {
        array_from_plutus(data)
    }

    fn vec_to_plutus(value: Vec<(T1, T2, T3, T4, T5, T6, T7, T8)>) -> (r: PlutusData) {
        array_to_plutus(value)
    }

    proof fn lemma_list_round_trip(m: Seq<(T1::Model, T2::Model, T3::Model, T4::Model, T5::Model, T6::Model, T7::Model, T8::Model)>, d: PlutusData) {
        lemma_array_round_trip::<Self>(m, d);
    }
}

} // verus!
