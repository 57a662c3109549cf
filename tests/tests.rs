use std::fmt::Debug;

use plutus_parser::{
    create_array, create_constr, pairs_from_plutus, pairs_to_plutus, parse_constr,
    parse_variant, AsPlutus, BigInt, BoundedBytes, Interval, IntervalBound, IntervalBoundType,
    PlutusData,
};

fn assert_encoded<T, F, G>(data: F, plutus: G)
where
    T: AsPlutus + Debug + PartialEq,
    F: Fn() -> T,
    G: Fn() -> PlutusData,
{
    assert_eq!(data(), T::from_plutus(plutus()).unwrap());
    assert_eq!(data().to_plutus(), plutus());
}

/// Reads the fields of a record node of variant 0 that holds `n` fields.
fn record_fields(data: PlutusData, n: usize) -> Vec<PlutusData> {
    let (variant, fields) = parse_constr(data).unwrap();
    assert_eq!(variant, 0);
    parse_variant(variant, fields, n).unwrap()
}

#[test]
fn should_support_simple_struct() {
    let plutus = || {
        create_constr(
            0,
            vec![
                create_constr(1, vec![]),
                PlutusData::BigInt(BigInt::Int(1337)),
                PlutusData::BigInt(BigInt::Int(9001)),
                PlutusData::BoundedBytes(BoundedBytes::from(vec![0xca, 0xfe, 0xd0, 0x0d])),
            ],
        )
    };
    let encoded = create_constr(
        0,
        vec![
            true.to_plutus(),
            1337u64.to_plutus(),
            BigInt::Int(9001).to_plutus(),
            BoundedBytes::from(vec![0xca, 0xfe, 0xd0, 0x0d]).to_plutus(),
        ],
    );
    assert_eq!(encoded, plutus());

    let mut fields = record_fields(plutus(), 4);
    assert_eq!(bool::from_plutus(fields.remove(0)).unwrap(), true);
    assert_eq!(u64::from_plutus(fields.remove(0)).unwrap(), 1337);
    assert_eq!(BigInt::from_plutus(fields.remove(0)).unwrap(), BigInt::Int(9001));
    assert_eq!(
        BoundedBytes::from_plutus(fields.remove(0)).unwrap(),
        BoundedBytes::from(vec![0xca, 0xfe, 0xd0, 0x0d])
    );
}

#[test]
fn should_support_optionals() {
    assert_encoded(
        || Some(1337u64),
        || create_constr(0, vec![PlutusData::BigInt(BigInt::Int(1337))]),
    );
    assert_encoded(|| None::<u64>, || create_constr(1, vec![]));
}

#[test]
fn should_support_enums() {
    assert_encoded(
        || IntervalBoundType::NegativeInfinity,
        || create_constr(0, vec![]),
    );
    assert_encoded(
        || IntervalBoundType::Finite(13),
        || create_constr(1, vec![PlutusData::BigInt(BigInt::Int(13))]),
    );
    assert_encoded(
        || IntervalBoundType::PositiveInfinity,
        || create_constr(2, vec![]),
    );
}

#[test]
fn should_support_nested_structs() {
    let data = || Interval {
        lower_bound: IntervalBound {
            bound_type: IntervalBoundType::NegativeInfinity,
            is_inclusive: true,
        },
        upper_bound: IntervalBound {
            bound_type: IntervalBoundType::Finite(420),
            is_inclusive: false,
        },
    };
    let plutus = || {
        create_constr(
            0,
            vec![
                create_constr(0, vec![create_constr(0, vec![]), create_constr(1, vec![])]),
                create_constr(
                    0,
                    vec![
                        create_constr(1, vec![PlutusData::BigInt(BigInt::Int(420))]),
                        create_constr(0, vec![]),
                    ],
                ),
            ],
        )
    };
    assert_encoded(data, plutus);
}

#[test]
fn should_support_tuple_structs() {
    let plutus = || {
        create_constr(
            0,
            vec![
                PlutusData::BoundedBytes(BoundedBytes::from(vec![0x13, 0x37])),
                PlutusData::BigInt(BigInt::Int(9001)),
            ],
        )
    };
    let encoded = create_constr(
        0,
        vec![BoundedBytes::from(vec![0x13, 0x37]).to_plutus(), 9001u64.to_plutus()],
    );
    assert_eq!(encoded, plutus());

    let mut fields = record_fields(plutus(), 2);
    assert_eq!(
        BoundedBytes::from_plutus(fields.remove(0)).unwrap(),
        BoundedBytes::from(vec![0x13, 0x37])
    );
    assert_eq!(u64::from_plutus(fields.remove(0)).unwrap(), 9001);
}

#[test]
fn should_support_tuples() {
    let data = || (BoundedBytes::from(vec![0x13, 0x37]), 9001u64);

    let plutus = || {
        create_array(vec![
            PlutusData::BoundedBytes(BoundedBytes::from(vec![0x13, 0x37])),
            PlutusData::BigInt(BigInt::Int(9001)),
        ])
    };

    assert_encoded(data, plutus);
}

#[test]
fn should_support_arrays() {
    let plutus = || {
        create_constr(
            0,
            vec![PlutusData::Array(vec![PlutusData::BoundedBytes(BoundedBytes::from(
                "cafe".bytes().collect::<Vec<_>>(),
            ))])],
        )
    };
    let params = vec!["cafe".to_string()];
    assert_eq!(create_constr(0, vec![params.to_plutus()]), plutus());

    let mut fields = record_fields(plutus(), 1);
    assert_eq!(
        Vec::<String>::from_plutus(fields.remove(0)).unwrap(),
        vec!["cafe".to_string()]
    );
}

#[test]
fn should_support_vec_u8_as_bytes() {
    let plutus = || {
        create_constr(
            0,
            vec![
                PlutusData::BoundedBytes(BoundedBytes::from(vec![0x69])),
                PlutusData::BoundedBytes(BoundedBytes::from(vec![0x69])),
            ],
        )
    };
    let encoded = create_constr(
        0,
        vec![vec![0x69u8].to_plutus(), BoundedBytes::from(vec![0x69]).to_plutus()],
    );
    assert_eq!(encoded, plutus());

    let mut fields = record_fields(plutus(), 2);
    assert_eq!(Vec::<u8>::from_plutus(fields.remove(0)).unwrap(), vec![0x69]);
    assert_eq!(
        BoundedBytes::from_plutus(fields.remove(0)).unwrap(),
        BoundedBytes::from(vec![0x69])
    );
}

#[test]
fn should_support_maps() {
    let data = || vec![("bar".to_string(), 9001u64), ("foo".to_string(), 1337u64)];

    let plutus = || {
        PlutusData::KeyValuePairs(vec![
            (
                PlutusData::BoundedBytes(BoundedBytes::from("bar".as_bytes().to_vec())),
                PlutusData::BigInt(BigInt::Int(9001)),
            ),
            (
                PlutusData::BoundedBytes(BoundedBytes::from("foo".as_bytes().to_vec())),
                PlutusData::BigInt(BigInt::Int(1337)),
            ),
        ])
    };

    assert_eq!(data(), pairs_from_plutus::<String, u64>(plutus()).unwrap());
    assert_eq!(pairs_to_plutus(data()), plutus());
}
