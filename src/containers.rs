//! Codecs of text, optional values, lists and tuples.
use vstd::prelude::*;
use vstd::utf8::{decode_utf8, encode_utf8, encode_utf8_decode_utf8, encode_utf8_valid_utf8, valid_utf8};
use crate::codec::{
    array_decoded, array_encodes, array_from_plutus, array_rejects, array_to_plutus,
    lemma_array_round_trip, models, AsPlutus, AsPlutusList,
};
use crate::node::{is_type_error, BoundedBytes, DecodeError, PlutusData};
use crate::parse::{
    constr_fields, constr_rejects, constr_view, is_constr, is_variant_count_error,
    lemma_constr_view, parse_constr, parse_map, parse_variant,
};
use crate::tag::create_constr;

verus! {

/// What std reports of bytes that are not valid UTF-8.
pub uninterp spec fn utf8_error_text(bytes: Seq<u8>) -> Seq<char>;

/// Relies on `String::from_utf8`: `Ok` exactly when the bytes are valid UTF-8, holding the
/// text they encode; otherwise the text of std's `FromUtf8Error`.
#[verifier::external_body]
fn string_from_utf8(bytes: Vec<u8>) -> (r: Result<String, String>)
    ensures
        match r {
            Ok(s) => valid_utf8(bytes@) && s@ == decode_utf8(bytes@),
            Err(m) => !valid_utf8(bytes@) && m@ == utf8_error_text(bytes@),
        },
{
    String::from_utf8(bytes).map_err(|e| e.to_string())
}

/// The error for bytes that are not valid text.
pub open spec fn is_text_error(e: DecodeError, bytes: Seq<u8>) -> bool {
    e matches DecodeError::Custom(m) && m@ == "error decoding string: "@ + utf8_error_text(bytes)
}

impl AsPlutus for String {
    type Model = Seq<char>;

    open spec fn model(&self) -> Seq<char> {
        self@
    }

    open spec fn encodes(m: Seq<char>, d: PlutusData) -> bool {
        d matches PlutusData::BoundedBytes(b) && b@ == encode_utf8(m)
    }

    open spec fn decoded(d: PlutusData) -> Option<Seq<char>> {
        match d {
            PlutusData::BoundedBytes(b) => if valid_utf8(b@) {
                Some(decode_utf8(b@))
            } else {
                None
            },
            _ => None,
        }
    }

    open spec fn rejects(d: PlutusData, e: DecodeError) -> bool {
        match d {
            PlutusData::BoundedBytes(b) => is_text_error(e, b@),
            _ => is_type_error(e, "BoundedBytes"@, d),
        }
    }

    fn from_plutus(data: PlutusData) -> (r: Result<String, DecodeError>) {
        let bytes = BoundedBytes::from_plutus(data)?;
        match string_from_utf8(bytes.to_vec()) {
            Ok(s) => Ok(s),
            Err(m) => Err(DecodeError::Custom(String::from_str("error decoding string: ").concat(m.as_str()))),
        }
    }

    fn to_plutus(self) -> (r: PlutusData) {
        let bytes = self.as_str().as_bytes_vec();
        PlutusData::BoundedBytes(BoundedBytes::from(bytes))
    }

    proof fn lemma_round_trip(m: Seq<char>, d: PlutusData) {
        encode_utf8_valid_utf8(m);
        encode_utf8_decode_utf8(m);
    }
}

impl AsPlutusList for String {
    open spec fn list_encodes(m: Seq<Seq<char>>, d: PlutusData) -> bool {
        array_encodes::<Self>(m, d)
    }

    open spec fn list_decoded(d: PlutusData) -> Option<Seq<Seq<char>>> {
        array_decoded::<Self>(d)
    }

    open spec fn list_rejects(d: PlutusData, e: DecodeError) -> bool {
        array_rejects::<Self>(d, e)
    }

    fn vec_from_plutus(data: PlutusData) -> (r: Result<Vec<String>, DecodeError>) {
        array_from_plutus(data)
    }

    fn vec_to_plutus(value: Vec<String>) -> (r: PlutusData) {
        array_to_plutus(value)
    }

    proof fn lemma_list_round_trip(m: Seq<Seq<char>>, d: PlutusData) {
        lemma_array_round_trip::<Self>(m, d);
    }
}

/// An optional value: a present value is variant 0 with one field, an absent one variant 1
/// with none.
impl<T: AsPlutus> AsPlutus for Option<T> {
    type Model = Option<T::Model>;

    open spec fn model(&self) -> Option<T::Model> {
        match self {
            Some(x) => Some(x.model()),
            None => None,
        }
    }

    open spec fn encodes(m: Option<T::Model>, d: PlutusData) -> bool {
        match m {
            Some(x) => is_constr(d, 0, 1) && T::encodes(x, constr_fields(d)[0]),
            None => is_constr(d, 1, 0),
        }
    }

    open spec fn decoded(d: PlutusData) -> Option<Option<T::Model>> {
        match constr_view(d) {
            Some((n, fields)) => if n == 0 && fields.len() == 1 {
                match T::decoded(fields[0]) {
                    Some(x) => Some(Some(x)),
                    None => None,
                }
            } else if n == 1 && fields.len() == 0 {
                Some(None)
            } else {
                None
            },
            None => None,
        }
    }

    open spec fn rejects(d: PlutusData, e: DecodeError) -> bool {
        match constr_view(d) {
            Some((n, fields)) => if n == 0 {
                if fields.len() == 1 {
                    T::rejects(fields[0], e)
                } else {
                    is_variant_count_error(e, 0, 1, fields.len() as int)
                }
            } else if n == 1 {
                is_variant_count_error(e, 1, 0, fields.len() as int)
            } else {
                e == DecodeError::UnexpectedVariant { variant: n }
            },
            None => constr_rejects(d, e),
        }
    }

    fn from_plutus(data: PlutusData) -> (r: Result<Option<T>, DecodeError>) {
        let (variant, fields) = parse_constr(data)?;
        if variant == 0 {
            let mut fields = parse_variant(variant, fields, 1)?;
            let value = T::from_plutus(fields.remove(0))?;
            return Ok(Some(value));
        }
        if variant == 1 {
            let _ = parse_variant(variant, fields, 0)?;
            return Ok(None);
        }
        Err(DecodeError::UnexpectedVariant { variant })
    }

    fn to_plutus(self) -> (r: PlutusData) {
        match self {
            Some(value) => {
                let mut fields: Vec<PlutusData> = Vec::new();
                fields.push(value.to_plutus());
                create_constr(0, fields)
            },
            None => create_constr(1, Vec::new()),
        }
    }

    proof fn lemma_round_trip(m: Option<T::Model>, d: PlutusData) {
        match m {
            Some(x) => {
                lemma_constr_view(d, 0, 1);
                T::lemma_round_trip(x, constr_fields(d)[0]);
            },
            None => {
                lemma_constr_view(d, 1, 0);
            },
        }
    }
}

impl<T: AsPlutus> AsPlutusList for Option<T> {
    open spec fn list_encodes(m: Seq<Option<T::Model>>, d: PlutusData) -> bool {
        array_encodes::<Self>(m, d)
    }

    open spec fn list_decoded(d: PlutusData) -> Option<Seq<Option<T::Model>>> {
        array_decoded::<Self>(d)
    }

    open spec fn list_rejects(d: PlutusData, e: DecodeError) -> bool {
        array_rejects::<Self>(d, e)
    }

    fn vec_from_plutus(data: PlutusData) -> (r: Result<Vec<Option<T>>, DecodeError>) {
        array_from_plutus(data)
    }

    fn vec_to_plutus(value: Vec<Option<T>>) -> (r: PlutusData) {
        array_to_plutus(value)
    }

    proof fn lemma_list_round_trip(m: Seq<Option<T::Model>>, d: PlutusData) {
        lemma_array_round_trip::<Self>(m, d);
    }
}

/// A list is written as its element type's list layout.
impl<T: AsPlutusList> AsPlutus for Vec<T> {
    type Model = Seq<T::Model>;

    open spec fn model(&self) -> Seq<T::Model> {
        models(self@)
    }

    open spec fn encodes(m: Seq<T::Model>, d: PlutusData) -> bool {
        T::list_encodes(m, d)
    }

    open spec fn decoded(d: PlutusData) -> Option<Seq<T::Model>> {
        T::list_decoded(d)
    }

    open spec fn rejects(d: PlutusData, e: DecodeError) -> bool {
        T::list_rejects(d, e)
    }

    fn from_plutus(data: PlutusData) -> (r: Result<Vec<T>, DecodeError>) {
        T::vec_from_plutus(data)
    }

    fn to_plutus(self) -> (r: PlutusData) {
        T::vec_to_plutus(self)
    }

    proof fn lemma_round_trip(m: Seq<T::Model>, d: PlutusData) {
        T::lemma_list_round_trip(m, d);
    }
}

impl<T: AsPlutusList> AsPlutusList for Vec<T> {
    open spec fn list_encodes(m: Seq<Seq<T::Model>>, d: PlutusData) -> bool {
        array_encodes::<Self>(m, d)
    }

    open spec fn list_decoded(d: PlutusData) -> Option<Seq<Seq<T::Model>>> {
        array_decoded::<Self>(d)
    }

    open spec fn list_rejects(d: PlutusData, e: DecodeError) -> bool {
        array_rejects::<Self>(d, e)
    }

    fn vec_from_plutus(data: PlutusData) -> (r: Result<Vec<Vec<T>>, DecodeError>) {
        array_from_plutus(data)
    }

    fn vec_to_plutus(value: Vec<Vec<T>>) -> (r: PlutusData) {
        array_to_plutus(value)
    }

    proof fn lemma_list_round_trip(m: Seq<Seq<T::Model>>, d: PlutusData) {
        lemma_array_round_trip::<Self>(m, d);
    }
}

/// `d` is a map node whose pairs encode the pairs of models `m` one by one, in order.
pub open spec fn pairs_encodes<K: AsPlutus, V: AsPlutus>(
    m: Seq<(K::Model, V::Model)>,
    d: PlutusData,
) -> bool {
    &&& d matches PlutusData::KeyValuePairs(kvps)
    &&& kvps.len() == m.len()
    &&& forall|i: int|
        0 <= i < m.len() ==> #[trigger] K::encodes(m[i].0, kvps[i].0) && V::encodes(
            m[i].1,
            kvps[i].1,
        )
}

/// Both halves of a pair of nodes decode.
pub open spec fn pair_decodes<K: AsPlutus, V: AsPlutus>(p: (PlutusData, PlutusData)) -> bool {
    K::decoded(p.0) is Some && V::decoded(p.1) is Some
}

/// Decoding a map node pair by pair, keeping the order of its pairs.
pub open spec fn pairs_decoded<K: AsPlutus, V: AsPlutus>(d: PlutusData) -> Option<
    Seq<(K::Model, V::Model)>,
> {
    match d {
        PlutusData::KeyValuePairs(kvps) => if forall|i: int|
            0 <= i < kvps.len() ==> #[trigger] pair_decodes::<K, V>(kvps[i]) {
            Some(
                Seq::new(
                    kvps.len() as nat,
                    |i: int| (K::decoded(kvps[i].0)->Some_0, V::decoded(kvps[i].1)->Some_0),
                ),
            )
        } else {
            None
        },
        _ => None,
    }
}

/// The error of a pair of nodes: its key's, or else its value's.
pub open spec fn pair_rejects<K: AsPlutus, V: AsPlutus>(
    p: (PlutusData, PlutusData),
    e: DecodeError,
) -> bool {
    if K::decoded(p.0) is None {
        K::rejects(p.0, e)
    } else {
        V::decoded(p.1) is None && V::rejects(p.1, e)
    }
}

/// The error of a map node: its kind, or the error of its first pair that fails.
pub open spec fn pairs_rejects<K: AsPlutus, V: AsPlutus>(d: PlutusData, e: DecodeError) -> bool {
    match d {
        PlutusData::KeyValuePairs(kvps) => exists|i: int|
            0 <= i < kvps.len() && (forall|j: int|
                0 <= j < i ==> #[trigger] pair_decodes::<K, V>(kvps[j])) && #[trigger] pair_rejects::<
                K,
                V,
            >(kvps[i], e),
        _ => is_type_error(e, "Map"@, d),
    }
}

/// Reads the key/value pairs of a map node, in the order the node holds them.
pub fn pairs_from_plutus<K: AsPlutus, V: AsPlutus>(data: PlutusData) -> (r: Result<
    Vec<(K, V)>,
    DecodeError,
>)
    ensures
        match r {
            Ok(v) => pairs_decoded::<K, V>(data) == Some(
                v@.map_values(|p: (K, V)| (p.0.model(), p.1.model())),
            ),
            Err(e) => (pairs_decoded::<K, V>(data) is None) && pairs_rejects::<K, V>(data, e),
        },
{
    let ghost d = data;
    let mut kvps = parse_map(data)?;
    let ghost all = kvps@;
    let mut out: Vec<(K, V)> = Vec::new();
    let n = kvps.len();
    let mut i: usize = 0;
    while i < n
        invariant
            d == data,
            d matches PlutusData::KeyValuePairs(orig) && orig@ == all,
            n == all.len(),
            0 <= i <= n,
            kvps@ == all.subrange(i as int, n as int),
            out.len() == i,
            forall|j: int| 0 <= j < i ==> #[trigger] pair_decodes::<K, V>(all[j]),
            forall|j: int|
                0 <= j < i ==> (#[trigger] out[j]).0.model() == K::decoded(all[j].0)->Some_0
                    && out[j].1.model() == V::decoded(all[j].1)->Some_0,
        decreases n - i,
    {
        let (key, value) = kvps.remove(0);
        assert((key, value) == all[i as int]);
        let k = match K::from_plutus(key) {
            Ok(k) => k,
            Err(e) => {
                assert(pair_rejects::<K, V>(all[i as int], e));
                assert(!pair_decodes::<K, V>(all[i as int]));
                return Err(e);
            },
        };
        let v = match V::from_plutus(value) {
            Ok(v) => v,
            Err(e) => {
                assert(pair_rejects::<K, V>(all[i as int], e));
                assert(!pair_decodes::<K, V>(all[i as int]));
                return Err(e);
            },
        };
        out.push((k, v));
        i = i + 1;
    }
    proof {
        assert(out@.map_values(|p: (K, V)| (p.0.model(), p.1.model())) =~= Seq::new(
            all.len() as nat,
            |j: int| (K::decoded(all[j].0)->Some_0, V::decoded(all[j].1)->Some_0),
        ));
    }
    Ok(out)
}

/// Writes key/value pairs as one map node, in the order given.
pub fn pairs_to_plutus<K: AsPlutus, V: AsPlutus>(value: Vec<(K, V)>) -> (r: PlutusData)
    ensures
        pairs_encodes::<K, V>(value@.map_values(|p: (K, V)| (p.0.model(), p.1.model())), r),
{
    let ghost all = value@;
    let mut value = value;
    let mut out: Vec<(PlutusData, PlutusData)> = Vec::new();
    let n = value.len();
    let mut i: usize = 0;
    while i < n
        invariant
            n == all.len(),
            0 <= i <= n,
            value@ == all.subrange(i as int, n as int),
            out.len() == i,
            forall|j: int|
                0 <= j < i ==> #[trigger] K::encodes(all[j].0.model(), out[j].0) && V::encodes(
                    all[j].1.model(),
                    out[j].1,
                ),
        decreases n - i,
    {
        let (k, v) = value.remove(0);
        assert((k, v) == all[i as int]);
        out.push((k.to_plutus(), v.to_plutus()));
        i = i + 1;
    }
    PlutusData::KeyValuePairs(out)
}

/// Decoding the map node that pairs of models encode to gives those pairs back, in order.
pub proof fn lemma_pairs_round_trip<K: AsPlutus, V: AsPlutus>(
    m: Seq<(K::Model, V::Model)>,
    d: PlutusData,
)
    requires
        pairs_encodes::<K, V>(m, d),
    ensures
        pairs_decoded::<K, V>(d) == Some(m),
{
    let kvps = d->KeyValuePairs_0;
    assert forall|i: int| 0 <= i < kvps.len() implies #[trigger] pair_decodes::<K, V>(kvps[i])
        && K::decoded(kvps[i].0) == Some(m[i].0) && V::decoded(kvps[i].1) == Some(m[i].1) by {
        assert(K::encodes(m[i].0, kvps[i].0));
        K::lemma_round_trip(m[i].0, kvps[i].0);
        V::lemma_round_trip(m[i].1, kvps[i].1);
    }
    let s = Seq::new(
        kvps.len() as nat,
        |i: int| (K::decoded(kvps[i].0)->Some_0, V::decoded(kvps[i].1)->Some_0),
    );
    assert forall|i: int| 0 <= i < m.len() implies #[trigger] s[i] == m[i] by {
        assert(pair_decodes::<K, V>(kvps[i]));
    }
    assert(s =~= m);
}

} // verus!
