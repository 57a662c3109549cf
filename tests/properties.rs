use plutus_parser::{
    assign_variants, constructor_value, create_constr, match_alternative, node_kind,
    pairs_from_plutus, parse_constr, parse_tuple, AsPlutus, BigInt, BoundedBytes, Constr,
    DecodeError, Destination, IntervalBound, IntervalBoundType, MultisigScript, PlutusData,
};

fn int_node(x: i128) -> PlutusData {
    PlutusData::BigInt(BigInt::Int(x))
}

fn bytes_node(b: &[u8]) -> PlutusData {
    PlutusData::BoundedBytes(BoundedBytes::from(b.to_vec()))
}

fn constr_node(tag: u64, any_constructor: Option<u64>, fields: Vec<PlutusData>) -> PlutusData {
    PlutusData::Constr(Constr { tag, any_constructor, fields })
}

fn type_error(expected: &str, actual: &str) -> DecodeError {
    DecodeError::UnexpectedType { expected: expected.to_string(), actual: actual.to_string() }
}

#[test]
fn tags_follow_the_three_ranges() {
    assert_eq!(create_constr(0, vec![]), constr_node(121, None, vec![]));
    assert_eq!(create_constr(6, vec![]), constr_node(127, None, vec![]));
    assert_eq!(create_constr(7, vec![]), constr_node(1280, None, vec![]));
    assert_eq!(create_constr(127, vec![]), constr_node(1400, None, vec![]));
    assert_eq!(create_constr(128, vec![]), constr_node(102, Some(128), vec![]));
    assert_eq!(create_constr(u64::MAX, vec![]), constr_node(102, Some(u64::MAX), vec![]));
}

#[test]
fn tag_inverse_for_first_variants() {
    for n in 0..=200u64 {
        match create_constr(n, vec![]) {
            PlutusData::Constr(c) => assert_eq!(constructor_value(&c), Some(n)),
            _ => panic!("not a constructor node"),
        }
    }
}

#[test]
fn tags_outside_the_ranges_are_invalid() {
    for tag in [0u64, 120, 128, 1279, 1401] {
        let c = Constr { tag, any_constructor: None, fields: vec![] };
        assert_eq!(constructor_value(&c), None);
    }
    let c = Constr { tag: 102, any_constructor: None, fields: vec![] };
    assert_eq!(constructor_value(&c), None);
    assert_eq!(
        parse_constr(constr_node(100, None, vec![])).unwrap_err(),
        DecodeError::Custom("value has invalid tag".to_string())
    );
}

#[test]
fn record_scenario_flag_and_count() {
    let bound = IntervalBound { bound_type: IntervalBoundType::Finite(1337), is_inclusive: true };
    let expected = constr_node(
        121,
        None,
        vec![constr_node(122, None, vec![int_node(1337)]), constr_node(122, None, vec![])],
    );
    assert_eq!(bound.to_plutus(), expected);
    let back = IntervalBound::from_plutus(expected).unwrap();
    assert_eq!(
        back,
        IntervalBound { bound_type: IntervalBoundType::Finite(1337), is_inclusive: true }
    );

    let record = create_constr(0, vec![true.to_plutus(), 1337u64.to_plutus()]);
    assert_eq!(
        record,
        constr_node(121, None, vec![constr_node(122, None, vec![]), int_node(1337)])
    );
}

#[test]
fn union_scenario_tags() {
    assert_eq!(IntervalBoundType::NegativeInfinity.to_plutus(), constr_node(121, None, vec![]));
    assert_eq!(
        IntervalBoundType::Finite(13).to_plutus(),
        constr_node(122, None, vec![int_node(13)])
    );
    assert_eq!(IntervalBoundType::PositiveInfinity.to_plutus(), constr_node(123, None, vec![]));
}

#[test]
fn optional_scenario_tags() {
    assert_eq!(Some(1337u64).to_plutus(), constr_node(121, None, vec![int_node(1337)]));
    assert_eq!(None::<u64>.to_plutus(), constr_node(122, None, vec![]));
}

#[test]
fn arity_mismatch_names_variant_and_counts() {
    assert_eq!(
        IntervalBoundType::from_plutus(create_constr(1, vec![])).unwrap_err(),
        DecodeError::WrongVariantFieldCount { variant: 1, expected: 1, actual: 0 }
    );
    assert_eq!(
        Option::<u64>::from_plutus(create_constr(0, vec![int_node(1), int_node(2)])).unwrap_err(),
        DecodeError::WrongVariantFieldCount { variant: 0, expected: 1, actual: 2 }
    );
    assert_eq!(
        bool::from_plutus(create_constr(1, vec![int_node(1)])).unwrap_err(),
        DecodeError::WrongVariantFieldCount { variant: 1, expected: 0, actual: 1 }
    );
}

#[test]
fn unknown_discriminant_is_reported() {
    assert_eq!(
        IntervalBoundType::from_plutus(create_constr(5, vec![])).unwrap_err(),
        DecodeError::UnexpectedVariant { variant: 5 }
    );
    assert_eq!(
        bool::from_plutus(create_constr(2, vec![])).unwrap_err(),
        DecodeError::UnexpectedVariant { variant: 2 }
    );
    assert_eq!(
        Destination::from_plutus(create_constr(0, vec![])).unwrap_err(),
        DecodeError::UnexpectedVariant { variant: 0 }
    );
}

#[test]
fn integer_where_bytes_expected() {
    assert_eq!(
        BoundedBytes::from_plutus(int_node(7)).unwrap_err(),
        type_error("BoundedBytes", "BigInt")
    );
    assert_eq!(
        Vec::<u8>::from_plutus(int_node(7)).unwrap_err(),
        type_error("BoundedBytes", "BigInt")
    );
}

#[test]
fn byte_lists_are_one_byte_string() {
    let encoded = vec![1u8, 2, 3, 255].to_plutus();
    assert_eq!(encoded, bytes_node(&[1, 2, 3, 255]));
    assert_eq!(Vec::<u8>::from_plutus(encoded).unwrap(), vec![1u8, 2, 3, 255]);
    assert_eq!(Vec::<u8>::new().to_plutus(), bytes_node(&[]));
}

#[test]
fn other_lists_are_arrays() {
    let encoded = vec![1u16, 2].to_plutus();
    assert_eq!(encoded, PlutusData::Array(vec![int_node(1), int_node(2)]));
    assert_eq!(Vec::<u16>::from_plutus(encoded).unwrap(), vec![1u16, 2]);
    assert_eq!(Vec::<u64>::new().to_plutus(), PlutusData::Array(vec![]));
}

#[test]
fn list_reports_first_failing_element() {
    let node = PlutusData::Array(vec![int_node(1), bytes_node(&[1]), create_constr(0, vec![])]);
    assert_eq!(Vec::<u64>::from_plutus(node).unwrap_err(), type_error("BigInt", "BoundedBytes"));
    assert_eq!(Vec::<u64>::from_plutus(int_node(1)).unwrap_err(), type_error("Array", "BigInt"));
}

#[test]
fn integers_round_trip_at_their_limits() {
    assert_eq!(i64::from_plutus(i64::MIN.to_plutus()).unwrap(), i64::MIN);
    assert_eq!(u64::from_plutus(u64::MAX.to_plutus()).unwrap(), u64::MAX);
    assert_eq!(i8::from_plutus((-5i8).to_plutus()).unwrap(), -5);
    assert_eq!((-5i32).to_plutus(), int_node(-5));
    assert_eq!(u32::from_plutus(int_node(70000)).unwrap(), 70000);
}

#[test]
fn out_of_range_integers_keep_low_bits() {
    assert_eq!(u8::from_plutus(int_node(300)).unwrap(), 44);
    assert_eq!(u16::from_plutus(int_node(-1)).unwrap(), u16::MAX);
}

#[test]
fn big_magnitudes_are_no_machine_integers() {
    let node = PlutusData::BigInt(BigInt::BigUInt(BoundedBytes::from(vec![1, 0, 0])));
    assert_eq!(u64::from_plutus(node).unwrap_err(), type_error("BigInt", "BigInt"));
    let node = PlutusData::BigInt(BigInt::BigNInt(BoundedBytes::from(vec![1])));
    assert_eq!(
        BigInt::from_plutus(node).unwrap(),
        BigInt::BigNInt(BoundedBytes::from(vec![1]))
    );
}

#[test]
fn text_round_trips_and_checks_utf8() {
    let encoded = "héllo".to_string().to_plutus();
    assert_eq!(encoded, bytes_node("héllo".as_bytes()));
    assert_eq!(String::from_plutus(encoded).unwrap(), "héllo");
    match String::from_plutus(bytes_node(&[0xff, 0xfe])).unwrap_err() {
        DecodeError::Custom(m) => {
            assert!(m.starts_with("error decoding string: "));
            assert!(m.len() > "error decoding string: ".len());
        }
        other => panic!("unexpected error {other:?}"),
    }
}

#[test]
fn tuples_check_their_length() {
    let node = PlutusData::Array(vec![int_node(1), int_node(2), int_node(3)]);
    assert_eq!(
        <(u64, u64)>::from_plutus(node).unwrap_err(),
        DecodeError::WrongTupleFieldCount { expected: 2, actual: 3 }
    );
    let node = PlutusData::Array(vec![int_node(1), int_node(2), int_node(3)]);
    assert_eq!(<(u64, u64, u64)>::from_plutus(node).unwrap(), (1, 2, 3));
    let node = PlutusData::Array(vec![int_node(1)]);
    assert_eq!(
        parse_tuple(node, 2).unwrap_err(),
        DecodeError::WrongTupleFieldCount { expected: 2, actual: 1 }
    );
}

#[test]
fn wide_tuples_round_trip() {
    let value = (1u8, 2u16, 3u32, 4u64, -5i8, -6i16, -7i32, -8i64);
    let encoded = value.to_plutus();
    assert_eq!(
        <(u8, u16, u32, u64, i8, i16, i32, i64)>::from_plutus(encoded).unwrap(),
        (1u8, 2u16, 3u32, 4u64, -5i8, -6i16, -7i32, -8i64)
    );
}

#[test]
fn nested_containers_round_trip() {
    let value = vec![Some(vec![true, false]), None];
    let encoded = value.to_plutus();
    assert_eq!(
        Vec::<Option<Vec<bool>>>::from_plutus(encoded).unwrap(),
        vec![Some(vec![true, false]), None]
    );
}

#[test]
fn maps_keep_pair_order_and_check_kind() {
    let node = PlutusData::KeyValuePairs(vec![
        (int_node(2), bytes_node(b"b")),
        (int_node(1), bytes_node(b"a")),
    ]);
    assert_eq!(
        pairs_from_plutus::<u64, String>(node).unwrap(),
        vec![(2, "b".to_string()), (1, "a".to_string())]
    );
    assert_eq!(
        pairs_from_plutus::<u64, u64>(PlutusData::Array(vec![])).unwrap_err(),
        type_error("Map", "Array")
    );
    let node = PlutusData::KeyValuePairs(vec![(int_node(2), bytes_node(b"b"))]);
    assert_eq!(
        pairs_from_plutus::<u64, u64>(node).unwrap_err(),
        type_error("BigInt", "BoundedBytes")
    );
}

#[test]
fn explicit_variant_numbers() {
    assert_eq!(Destination::Self_.to_plutus(), constr_node(122, None, vec![]));
    assert_eq!(Destination::from_plutus(create_constr(1, vec![])).unwrap(), Destination::Self_);
    assert_eq!(assign_variants(&vec![None, Some(5), None]), vec![0, 5, 1]);
    assert_eq!(assign_variants(&vec![Some(1)]), vec![1]);
    assert_eq!(assign_variants(&vec![None, None, None]), vec![0, 1, 2]);
}

#[test]
fn alternatives_match_first_in_order() {
    assert_eq!(match_alternative(1, 0, &[0, 1, 1], &[0, 0, 2]), Ok(1));
    assert_eq!(
        match_alternative(1, 2, &[0, 1, 1], &[0, 0, 2]),
        Err(DecodeError::WrongVariantFieldCount { variant: 1, expected: 0, actual: 2 })
    );
    assert_eq!(
        match_alternative(9, 0, &[0, 1], &[0, 0]),
        Err(DecodeError::UnexpectedVariant { variant: 9 })
    );
}

#[test]
fn multisig_key_hash_is_bytes() {
    let script = MultisigScript::Signature { key_hash: vec![0xab, 0xcd] };
    let encoded = script.to_plutus();
    assert_eq!(encoded, constr_node(121, None, vec![bytes_node(&[0xab, 0xcd])]));
    assert_eq!(
        MultisigScript::from_plutus(encoded).unwrap(),
        MultisigScript::Signature { key_hash: vec![0xab, 0xcd] }
    );
}

#[test]
fn kind_names_and_kind_errors() {
    assert_eq!(node_kind(&int_node(0)), "BigInt");
    assert_eq!(node_kind(&bytes_node(&[])), "BoundedBytes");
    assert_eq!(node_kind(&PlutusData::Array(vec![])), "Array");
    assert_eq!(node_kind(&PlutusData::KeyValuePairs(vec![])), "Map");
    assert_eq!(node_kind(&create_constr(0, vec![])), "Constr");
    assert_eq!(bool::from_plutus(int_node(1)).unwrap_err(), type_error("Constr", "BigInt"));
}

#[test]
fn large_variants_use_the_overflow_discriminant() {
    let node = constr_node(102, Some(500), vec![]);
    let (variant, fields) = parse_constr(node).unwrap();
    assert_eq!(variant, 500);
    assert!(fields.is_empty());
    let node = constr_node(1285, None, vec![]);
    assert_eq!(parse_constr(node).unwrap().0, 12);
}
