use serde_test::{CompositeAccess, Deserializer, EndToken, Serializer, Token, Visit};

#[test]
fn newtype_variant_round_trip() {
    let tokens = [Token::NewtypeVariant { name: "E", variant: "N" }, Token::U64(42)];
    let mut ser = Serializer::new(&tokens);
    ser.serialize_newtype_variant("E", "N").unwrap();
    ser.serialize_u64(42).unwrap();
    assert_eq!(ser.remaining(), 0);

    let mut de = Deserializer::new(&tokens);
    assert_eq!(de.deserialize_enum("E").unwrap(), Visit::Enum);
    de.newtype_variant().unwrap();
    assert_eq!(de.deserialize_any().unwrap(), Visit::Scalar(Token::U64(42)));
    assert_eq!(de.remaining(), 0);
}

#[test]
fn map_round_trip_twice_from_fresh_cursors() {
    let tokens = [
        Token::MapStart { len: Some(1) },
        Token::Char('k'),
        Token::OptionSome,
        Token::BorrowedStr("v"),
        Token::MapEnd,
    ];
    let mut ser = Serializer::new(&tokens);
    let c = ser.serialize_map(Some(1)).unwrap();
    ser.serialize_char('k').unwrap();
    ser.serialize_some().unwrap();
    ser.serialize_str("v").unwrap();
    c.end(&mut ser).unwrap();
    assert_eq!(ser.remaining(), 0);

    for _ in 0..2 {
        let mut de = Deserializer::new(&tokens);
        let mut got = Vec::new();
        match de.deserialize_any().unwrap() {
            Visit::MapAccess { len, end } => {
                let mut access = CompositeAccess::new(len, end);
                while access.next_entry(&de) {
                    let k = de.deserialize_any().unwrap();
                    assert_eq!(de.deserialize_option().unwrap(), Visit::OptionSome);
                    let v = de.deserialize_any().unwrap();
                    got.push((k, v));
                }
                de.expect_end(end).unwrap();
            }
            other => panic!("unexpected {:?}", other),
        }
        assert_eq!(
            got,
            vec![(Visit::Scalar(Token::Char('k')), Visit::Scalar(Token::BorrowedStr("v")))]
        );
        assert_eq!(de.remaining(), 0);
    }
}

#[test]
fn extra_token_left_after_decoding() {
    let tokens = [Token::I64(-9), Token::Unit];
    let mut de = Deserializer::new(&tokens);
    assert_eq!(de.deserialize_any().unwrap(), Visit::Scalar(Token::I64(-9)));
    assert_eq!(de.remaining(), 1);
}

#[test]
fn closer_of_sequence_round_trip() {
    let tokens = [Token::Tuple { len: 0 }, Token::TupleEnd];
    let mut ser = Serializer::new(&tokens);
    let c = ser.serialize_tuple(0).unwrap();
    c.end(&mut ser).unwrap();
    let mut de = Deserializer::new(&tokens);
    assert_eq!(
        de.deserialize_tuple(0).unwrap(),
        Visit::SeqAccess { len: Some(0), end: EndToken::TupleEnd }
    );
    let mut access = CompositeAccess::new(Some(0), EndToken::TupleEnd);
    assert!(!access.next_entry(&de));
    de.expect_end(EndToken::TupleEnd).unwrap();
    assert_eq!(de.remaining(), 0);
}

#[test]
fn tuple_variant_open_form_round_trip() {
    let tokens = [
        Token::Enum { name: "E" },
        Token::Str("T"),
        Token::SeqStart { len: Some(1) },
        Token::U8(6),
        Token::SeqEnd,
    ];
    let mut ser = Serializer::new(&tokens);
    let c = ser.serialize_tuple_variant("E", "T", 1).unwrap();
    ser.serialize_u8(6).unwrap();
    c.end(&mut ser).unwrap();
    assert_eq!(ser.remaining(), 0);

    let mut de = Deserializer::new(&tokens);
    assert_eq!(de.deserialize_enum("E").unwrap(), Visit::Enum);
    assert_eq!(de.variant_tag().unwrap(), serde_test::VariantTag::Decode);
    assert_eq!(de.deserialize_any().unwrap(), Visit::Scalar(Token::Str("T")));
    let step = de.tuple_variant(1).unwrap();
    assert_eq!(step, Visit::SeqAccess { len: Some(1), end: EndToken::SeqEnd });
    let mut access = CompositeAccess::new(Some(1), EndToken::SeqEnd);
    assert!(access.next_entry(&de));
    assert_eq!(de.deserialize_any().unwrap(), Visit::Scalar(Token::U8(6)));
    assert!(!access.next_entry(&de));
    de.expect_end(EndToken::SeqEnd).unwrap();
    assert_eq!(de.remaining(), 0);
}
