use serde_test::{EndToken, Error, ErrorKind, Serializer, Token};

#[test]
fn record_encodes_to_its_script() {
    let tokens = [
        Token::Struct { name: "S", len: 2 },
        Token::Str("a"),
        Token::U8(0),
        Token::Str("b"),
        Token::U8(0),
        Token::StructEnd,
    ];
    let mut ser = Serializer::new(&tokens);
    let c = ser.serialize_struct("S", 2).unwrap();
    ser.serialize_str("a").unwrap();
    ser.serialize_u8(0).unwrap();
    ser.serialize_str("b").unwrap();
    ser.serialize_u8(0).unwrap();
    c.end(&mut ser).unwrap();
    assert_eq!(ser.remaining(), 0);
}

#[test]
fn mismatched_scalar_names_both_tokens() {
    let tokens = [Token::U8(0)];
    let mut ser = Serializer::new(&tokens);
    let e = ser.serialize_u8(1).unwrap_err();
    assert_eq!(e.msg(), "expected Token::U8(0) but serialized as U8(1)");
    assert!(e == *"expected Token::U8(0) but serialized as U8(1)");
    assert_eq!(ser.remaining(), 0);
}

#[test]
fn production_after_end_of_script_fails() {
    let tokens: [Token; 0] = [];
    let mut ser = Serializer::new(&tokens);
    let e = ser.serialize_i32(-7).unwrap_err();
    assert_eq!(e.msg(), "expected end of tokens, but I32(-7) was serialized");
}

#[test]
fn trailing_token_is_left_over() {
    let tokens = [Token::U8(0), Token::Unit];
    let mut ser = Serializer::new(&tokens);
    ser.serialize_u8(0).unwrap();
    assert_eq!(ser.remaining(), 1);
}

#[test]
fn exact_script_is_used_up() {
    let tokens = [Token::OptionSome, Token::Bool(true)];
    let mut ser = Serializer::new(&tokens);
    ser.serialize_some().unwrap();
    ser.serialize_bool(true).unwrap();
    assert_eq!(ser.remaining(), 0);
}

#[test]
fn string_follows_borrowed_flavor_of_script() {
    let tokens = [Token::BorrowedStr("a")];
    let mut ser = Serializer::new(&tokens);
    ser.serialize_str("a").unwrap();
    assert_eq!(ser.remaining(), 0);
}

#[test]
fn string_follows_owned_flavor_of_script() {
    let tokens = [Token::String("b")];
    let mut ser = Serializer::new(&tokens);
    let e = ser.serialize_str("a").unwrap_err();
    assert_eq!(e.msg(), "expected Token::String(\"b\") but serialized as String(\"a\")");
}

#[test]
fn unflavored_script_checks_plain_string() {
    let tokens = [Token::Unit];
    let mut ser = Serializer::new(&tokens);
    let e = ser.serialize_str("x").unwrap_err();
    assert_eq!(e.msg(), "expected Token::Unit but serialized as Str(\"x\")");
}

#[test]
fn bytes_follow_flavor_of_script() {
    let tokens = [Token::ByteBuf(&[1, 2]), Token::BorrowedBytes(&[3]), Token::Bytes(&[])];
    let mut ser = Serializer::new(&tokens);
    ser.serialize_bytes(&[1, 2]).unwrap();
    ser.serialize_bytes(&[3]).unwrap();
    ser.serialize_bytes(&[]).unwrap();
    assert_eq!(ser.remaining(), 0);
}

#[test]
fn bytes_mismatch_lists_bytes() {
    let tokens = [Token::Bytes(&[0, 10, 255])];
    let mut ser = Serializer::new(&tokens);
    let e = ser.serialize_bytes(&[7]).unwrap_err();
    assert_eq!(e.msg(), "expected Token::Bytes([0, 10, 255]) but serialized as Bytes([7])");
}

#[test]
fn floats_match_bit_for_bit() {
    let tokens = [Token::F64(0.5f64.to_bits()), Token::F32((-0.0f32).to_bits())];
    let mut ser = Serializer::new(&tokens);
    ser.serialize_f64(0.5f64.to_bits()).unwrap();
    let e = ser.serialize_f32(0.0f32.to_bits()).unwrap_err();
    assert_eq!(e.msg(), "expected Token::F32(bits 2147483648) but serialized as F32(bits 0)");
}

#[test]
fn extreme_integers_are_written_in_full() {
    let tokens = [Token::I128(i128::MIN)];
    let mut ser = Serializer::new(&tokens);
    let e = ser.serialize_u128(u128::MAX).unwrap_err();
    assert_eq!(
        e.msg(),
        "expected Token::I128(-170141183460469231731687303715884105728) \
         but serialized as U128(340282366920938463463374607431768211455)"
    );
}

#[test]
fn char_mismatch_quotes_chars() {
    let tokens = [Token::Char('x')];
    let mut ser = Serializer::new(&tokens);
    let e = ser.serialize_char('y').unwrap_err();
    assert_eq!(e.msg(), "expected Token::Char('x') but serialized as Char('y')");
}

#[test]
fn unit_variant_closed_and_open_forms() {
    let closed = [Token::UnitVariant { name: "E", variant: "A" }];
    let mut ser = Serializer::new(&closed);
    ser.serialize_unit_variant("E", "A").unwrap();
    assert_eq!(ser.remaining(), 0);

    let open = [Token::Enum { name: "E" }, Token::Str("A"), Token::Unit];
    let mut ser = Serializer::new(&open);
    ser.serialize_unit_variant("E", "A").unwrap();
    assert_eq!(ser.remaining(), 0);
}

#[test]
fn open_enum_of_other_name_is_a_mismatch() {
    let tokens = [Token::Enum { name: "F" }, Token::Str("A"), Token::Unit];
    let mut ser = Serializer::new(&tokens);
    let e = ser.serialize_unit_variant("E", "A").unwrap_err();
    assert_eq!(
        e.msg(),
        "expected Token::Enum { name: \"F\" } but serialized as \
         UnitVariant { name: \"E\", variant: \"A\" }"
    );
}

#[test]
fn newtype_variant_open_form() {
    let tokens = [Token::Enum { name: "E" }, Token::Str("N"), Token::U16(3)];
    let mut ser = Serializer::new(&tokens);
    ser.serialize_newtype_variant("E", "N").unwrap();
    ser.serialize_u16(3).unwrap();
    assert_eq!(ser.remaining(), 0);
}

#[test]
fn tuple_variant_open_form_closes_as_sequence() {
    let tokens = [
        Token::Enum { name: "E" },
        Token::Str("T"),
        Token::SeqStart { len: Some(1) },
        Token::I64(5),
        Token::SeqEnd,
    ];
    let mut ser = Serializer::new(&tokens);
    let c = ser.serialize_tuple_variant("E", "T", 1).unwrap();
    ser.serialize_i64(5).unwrap();
    c.end(&mut ser).unwrap();
    assert_eq!(ser.remaining(), 0);
}

#[test]
fn struct_variant_closed_form() {
    let tokens = [
        Token::StructVariant { name: "E", variant: "S", len: 1 },
        Token::Str("f"),
        Token::U32(9),
        Token::StructVariantEnd,
    ];
    let mut ser = Serializer::new(&tokens);
    let c = ser.serialize_struct_variant("E", "S", 1).unwrap();
    ser.serialize_str("f").unwrap();
    ser.serialize_u32(9).unwrap();
    c.end(&mut ser).unwrap();
    assert_eq!(ser.remaining(), 0);
}

#[test]
fn wrong_closer_is_reported() {
    let tokens = [Token::SeqStart { len: None }, Token::MapEnd];
    let mut ser = Serializer::new(&tokens);
    let c = ser.serialize_seq(None).unwrap();
    let e = c.end(&mut ser).unwrap_err();
    assert_eq!(e.msg(), "expected Token::MapEnd but serialized as SeqEnd");
}

#[test]
fn skipped_field_must_be_named() {
    let tokens = [
        Token::Struct { name: "S", len: 1 },
        Token::SkipStructField { name: "b" },
        Token::StructEnd,
    ];
    let mut ser = Serializer::new(&tokens);
    let c = ser.serialize_struct("S", 1).unwrap();
    let e = c.skip_field(&mut ser, "c").unwrap_err();
    assert_eq!(
        e.msg(),
        "expected Token::SkipStructField { name: \"b\" } but serialized as \
         SkipStructField { name: \"c\" }"
    );

    let mut ser = Serializer::new(&tokens);
    let c = ser.serialize_struct("S", 1).unwrap();
    c.skip_field(&mut ser, "b").unwrap();
    c.end(&mut ser).unwrap();
    assert_eq!(ser.remaining(), 0);
}

#[test]
fn skip_without_marker_checks_nothing() {
    let tokens = [Token::MapStart { len: Some(0) }, Token::MapEnd];
    let mut ser = Serializer::new(&tokens);
    let c = ser.serialize_map(Some(0)).unwrap();
    c.skip_field(&mut ser, "x").unwrap();
    c.end(&mut ser).unwrap();
    assert_eq!(ser.remaining(), 0);
}

#[test]
fn remaining_composites_and_names() {
    let tokens = [
        Token::UnitStruct { name: "U" },
        Token::NewtypeStruct { name: "N" },
        Token::I8(-1),
        Token::I16(2),
        Token::U64(1234567890),
        Token::Tuple { len: 1 },
        Token::TupleEnd,
        Token::TupleStruct { name: "P", len: 0 },
        Token::TupleStructEnd,
        Token::OptionNone,
        Token::Unit,
    ];
    let mut ser = Serializer::new(&tokens);
    ser.serialize_unit_struct("U").unwrap();
    ser.serialize_newtype_struct("N").unwrap();
    ser.serialize_i8(-1).unwrap();
    ser.serialize_i16(2).unwrap();
    ser.serialize_u64(1234567890).unwrap();
    let c = ser.serialize_tuple(1).unwrap();
    c.end(&mut ser).unwrap();
    let c = ser.serialize_tuple_struct("P", 0).unwrap();
    c.end(&mut ser).unwrap();
    ser.serialize_none().unwrap();
    ser.serialize_unit().unwrap();
    assert_eq!(ser.remaining(), 0);
}

#[test]
fn length_hint_is_written_in_messages() {
    let tokens = [Token::SeqStart { len: Some(12) }];
    let mut ser = Serializer::new(&tokens);
    let e = ser.serialize_seq(None).unwrap_err();
    assert_eq!(
        e.msg(),
        "expected Token::SeqStart { len: Some(12) } but serialized as SeqStart { len: None }"
    );
}

#[test]
fn next_token_takes_any_token() {
    let tokens = [Token::Unit, Token::SkipStructField { name: "x" }];
    let mut ser = Serializer::new(&tokens);
    assert_eq!(ser.next_token(), Some(Token::Unit));
    assert_eq!(ser.next_token(), Some(Token::SkipStructField { name: "x" }));
    assert_eq!(ser.next_token(), None);
}

#[test]
fn error_kinds() {
    let e = Error::new("boom");
    assert_eq!(e.msg(), "boom");
    assert_eq!(e.kind(), ErrorKind::Custom);
    let a = Error::assert_failed("bad");
    assert_eq!(a.kind(), ErrorKind::AssertFailed);
    assert!(a == *"bad");
    assert!(!(a == *"good"));
    let f = Error::from_message(String::from("owned"));
    assert_eq!(f.msg(), "owned");
}

#[test]
fn end_tokens_map_to_closers() {
    assert_eq!(EndToken::SeqEnd.token(), Token::SeqEnd);
    assert_eq!(EndToken::StructVariantEnd.token(), Token::StructVariantEnd);
    assert_ne!(EndToken::TupleEnd.token(), Token::TupleStructEnd);
}
