use serde_test::{
    CompositeAccess, Deserializer, EndToken, EnumFormat, EnumMapVisitor, Error, Token,
    VariantTag, Visit,
};

fn scalar_u8(v: Visit) -> u8 {
    match v {
        Visit::Scalar(Token::U8(x)) => x,
        other => panic!("not a u8: {:?}", other),
    }
}

fn key_str<'a>(v: Visit<'a>) -> &'a str {
    match v {
        Visit::Scalar(Token::Str(x)) => x,
        other => panic!("not a str: {:?}", other),
    }
}

#[test]
fn record_decodes_from_its_script() {
    let tokens = [
        Token::Struct { name: "S", len: 2 },
        Token::Str("a"),
        Token::U8(0),
        Token::Str("b"),
        Token::U8(0),
        Token::StructEnd,
    ];
    let mut de = Deserializer::new(&tokens);
    let v = de.deserialize_struct("S", &["a", "b"]).unwrap();
    assert_eq!(v, Visit::MapAccess { len: Some(2), end: EndToken::StructEnd });
    let mut access = CompositeAccess::new(Some(2), EndToken::StructEnd);
    let mut fields = Vec::new();
    while access.next_entry(&de) {
        let k = key_str(de.deserialize_any().unwrap());
        let x = scalar_u8(de.deserialize_any().unwrap());
        fields.push((k, x));
    }
    assert_eq!(access.size_hint(), Some(0));
    de.expect_end(EndToken::StructEnd).unwrap();
    assert_eq!(fields, vec![("a", 0), ("b", 0)]);
    assert_eq!(de.remaining(), 0);
}

#[test]
fn unknown_field_is_rejected_with_allowed_set() {
    let tokens = [Token::Struct { name: "S", len: 2 }, Token::Str("x")];
    let allowed: &'static [&'static str] = &["a", "b"];
    let mut de = Deserializer::new(&tokens);
    de.deserialize_struct("S", allowed).unwrap();
    let mut access = CompositeAccess::new(Some(2), EndToken::StructEnd);
    assert!(access.next_entry(&de));
    let key = key_str(de.deserialize_any().unwrap());
    assert!(!allowed.contains(&key));
    let text = <serde::de::value::Error as serde::de::Error>::unknown_field(key, allowed).to_string();
    let e = Error::new(&text);
    assert_eq!(e.msg(), "unknown field `x`, expected `a` or `b`");
    de.next_token_opt();
    assert_eq!(de.remaining(), 0);
}

#[test]
fn sequence_decodes_in_order() {
    let tokens = [Token::SeqStart { len: Some(2) }, Token::I32(1), Token::I32(2), Token::SeqEnd];
    let mut de = Deserializer::new(&tokens);
    let v = de.deserialize_any().unwrap();
    assert_eq!(v, Visit::SeqAccess { len: Some(2), end: EndToken::SeqEnd });
    let mut access = CompositeAccess::new(Some(2), EndToken::SeqEnd);
    let mut out: Vec<i32> = Vec::new();
    let mut hints = Vec::new();
    while access.next_entry(&de) {
        hints.push(access.size_hint());
        match de.deserialize_any().unwrap() {
            Visit::Scalar(Token::I32(x)) => out.push(x),
            other => panic!("unexpected {:?}", other),
        }
    }
    de.expect_end(EndToken::SeqEnd).unwrap();
    assert_eq!(out, vec![1, 2]);
    assert_eq!(hints, vec![Some(1), Some(0)]);
    assert_eq!(de.remaining(), 0);
}

#[test]
fn size_hint_saturates_at_zero() {
    let tokens = [Token::Bool(true), Token::Bool(false), Token::SeqEnd];
    let de = Deserializer::new(&tokens);
    let mut access = CompositeAccess::new(Some(0), EndToken::SeqEnd);
    assert!(access.next_entry(&de));
    assert_eq!(access.size_hint(), Some(0));
    let mut unknown = CompositeAccess::new(None, EndToken::SeqEnd);
    assert!(unknown.next_entry(&de));
    assert_eq!(unknown.size_hint(), None);
}

#[test]
fn skipped_fields_never_reach_the_visitor() {
    let tokens = [
        Token::Struct { name: "S", len: 1 },
        Token::Str("a"),
        Token::U8(4),
        Token::SkipStructField { name: "b" },
        Token::StructEnd,
    ];
    let mut de = Deserializer::new(&tokens);
    de.deserialize_struct("S", &["a"]).unwrap();
    let mut access = CompositeAccess::new(Some(1), EndToken::StructEnd);
    let mut n = 0;
    while access.next_entry(&de) {
        key_str(de.deserialize_any().unwrap());
        scalar_u8(de.deserialize_any().unwrap());
        n += 1;
    }
    assert_eq!(n, 1);
    assert_eq!(access.size_hint(), Some(0));
    de.expect_end(EndToken::StructEnd).unwrap();
    assert_eq!(de.remaining(), 0);
}

#[test]
fn peek_and_next_step_over_skipped_fields() {
    let tokens = [
        Token::SkipStructField { name: "a" },
        Token::SkipStructField { name: "b" },
        Token::Char('c'),
    ];
    let mut de = Deserializer::new(&tokens);
    assert_eq!(de.peek_token_opt(), Some(Token::Char('c')));
    assert_eq!(de.peek_token().unwrap(), Token::Char('c'));
    assert_eq!(de.remaining(), 3);
    assert_eq!(de.next_token().unwrap(), Token::Char('c'));
    assert_eq!(de.remaining(), 0);
    assert_eq!(de.next_token_opt(), None);
    assert_eq!(de.next_token().unwrap_err().msg(), "ran out of tokens to deserialize");
}

#[test]
fn only_skipped_fields_left_is_end_of_tokens() {
    let tokens = [Token::SkipStructField { name: "a" }];
    let mut de = Deserializer::new(&tokens);
    assert_eq!(de.peek_token().unwrap_err().msg(), "ran out of tokens to deserialize");
    let e = de.deserialize_any().unwrap_err();
    assert_eq!(e.msg(), "ran out of tokens to deserialize");
    assert_eq!(de.remaining(), 0);
}

#[test]
fn tuple_variant_forms_decode_alike() {
    let closed = [
        Token::TupleVariant { name: "E", variant: "T", len: 2 },
        Token::U8(1),
        Token::U8(2),
        Token::TupleVariantEnd,
    ];
    let open = [Token::SeqStart { len: Some(2) }, Token::U8(1), Token::U8(2), Token::SeqEnd];
    let mut results = Vec::new();
    for tokens in [&closed[..], &open[..]] {
        let mut de = Deserializer::new(tokens);
        let v = de.tuple_variant(2).unwrap();
        let end = match v {
            Visit::SeqAccess { len: Some(2), end } => end,
            other => panic!("unexpected {:?}", other),
        };
        let mut access = CompositeAccess::new(Some(2), end);
        let mut items = Vec::new();
        while access.next_entry(&de) {
            items.push(scalar_u8(de.deserialize_any().unwrap()));
        }
        de.expect_end(end).unwrap();
        assert_eq!(de.remaining(), 0);
        results.push(items);
    }
    assert_eq!(results[0], vec![1, 2]);
    assert_eq!(results[0], results[1]);
}

#[test]
fn tuple_variant_length_mismatch_fails() {
    let tokens = [Token::TupleVariant { name: "E", variant: "V", len: 3 }];
    let mut de = Deserializer::new(&tokens);
    let e = de.tuple_variant(2).unwrap_err();
    assert_eq!(
        e.msg(),
        "deserialization did not expect this token: \
         TupleVariant { name: \"E\", variant: \"V\", len: 3 }"
    );
    let tokens = [Token::SeqStart { len: Some(1) }];
    let mut de = Deserializer::new(&tokens);
    let e = de.tuple_variant(2).unwrap_err();
    assert_eq!(
        e.msg(),
        "deserialization did not expect this token: SeqStart { len: Some(1) }"
    );
}

#[test]
fn struct_variant_forms() {
    let closed = [Token::StructVariant { name: "E", variant: "S", len: 1 }];
    let mut de = Deserializer::new(&closed);
    assert_eq!(
        de.struct_variant(&["f"]).unwrap(),
        Visit::MapAccess { len: Some(1), end: EndToken::StructVariantEnd }
    );
    let open = [Token::MapStart { len: Some(1) }];
    let mut de = Deserializer::new(&open);
    assert_eq!(
        de.struct_variant(&["f"]).unwrap(),
        Visit::MapAccess { len: Some(1), end: EndToken::MapEnd }
    );
    let mut de = Deserializer::new(&open);
    let e = de.struct_variant(&["f", "g"]).unwrap_err();
    assert_eq!(e.msg(), "deserialization did not expect this token: MapStart { len: Some(1) }");
}

#[test]
fn closed_variants_decode_through_enum_access() {
    let tokens = [Token::NewtypeVariant { name: "E", variant: "N" }, Token::U8(7)];
    let mut de = Deserializer::new(&tokens);
    assert_eq!(de.deserialize_enum("E").unwrap(), Visit::Enum);
    assert_eq!(de.variant_tag().unwrap(), VariantTag::Named("N"));
    de.newtype_variant().unwrap();
    assert_eq!(scalar_u8(de.deserialize_any().unwrap()), 7);
    assert_eq!(de.remaining(), 0);

    let tokens = [Token::UnitVariant { name: "E", variant: "U" }];
    let mut de = Deserializer::new(&tokens);
    assert_eq!(de.deserialize_enum("E").unwrap(), Visit::Enum);
    assert_eq!(de.unit_variant().unwrap(), true);
    assert_eq!(de.remaining(), 0);
}

#[test]
fn open_enum_decodes_tag_then_payload() {
    let tokens = [Token::Enum { name: "E" }, Token::Str("U"), Token::Unit];
    let mut de = Deserializer::new(&tokens);
    assert_eq!(de.deserialize_enum("E").unwrap(), Visit::Enum);
    assert_eq!(de.variant_tag().unwrap(), VariantTag::Decode);
    assert_eq!(de.deserialize_any().unwrap(), Visit::Scalar(Token::Str("U")));
    assert_eq!(de.unit_variant().unwrap(), false);
    assert_eq!(de.deserialize_any().unwrap(), Visit::Unit);
    assert_eq!(de.remaining(), 0);
}

#[test]
fn enum_of_other_name_falls_back_to_generic_path() {
    let tokens = [Token::UnitVariant { name: "F", variant: "U" }];
    let mut de = Deserializer::new(&tokens);
    assert_eq!(de.deserialize_enum("E").unwrap(), Visit::Scalar(Token::Str("U")));
    assert_eq!(de.remaining(), 0);
}

#[test]
fn generic_path_on_open_unit_variant() {
    let tokens = [Token::Enum { name: "E" }, Token::U32(3), Token::Unit];
    let mut de = Deserializer::new(&tokens);
    assert_eq!(de.deserialize_any().unwrap(), Visit::Scalar(Token::U32(3)));
    assert_eq!(de.remaining(), 0);
}

#[test]
fn generic_path_rejects_bad_unit_tag() {
    let tokens = [Token::Enum { name: "E" }, Token::Bool(true), Token::Unit];
    let mut de = Deserializer::new(&tokens);
    let e = de.deserialize_any().unwrap_err();
    assert_eq!(e.msg(), "deserialization did not expect this token: Bool(true)");
    assert_eq!(de.remaining(), 1);
}

#[test]
fn generic_path_on_open_payload_variant() {
    let tokens = [Token::Enum { name: "E" }, Token::I8(-3), Token::U8(1)];
    let mut de = Deserializer::new(&tokens);
    let v = de.deserialize_any().unwrap();
    assert_eq!(v, Visit::EnumMap { variant: Token::I8(-3), format: EnumFormat::Any });
    let mut map = EnumMapVisitor::new(Token::I8(-3), EnumFormat::Any);
    let e = map.next_key().unwrap_err();
    assert_eq!(e.msg(), "deserialization did not expect this token: I8(-3)");
    assert_eq!(map.next_key().unwrap(), None);
}

#[test]
fn enum_map_adapter_hands_out_one_entry() {
    let tokens = [
        Token::TupleVariant { name: "E", variant: "T", len: 1 },
        Token::Bool(false),
        Token::TupleVariantEnd,
    ];
    let mut de = Deserializer::new(&tokens);
    let v = de.deserialize_any().unwrap();
    assert_eq!(v, Visit::EnumMap { variant: Token::Str("T"), format: EnumFormat::Tuple });
    let mut map = EnumMapVisitor::new(Token::Str("T"), EnumFormat::Tuple);
    assert_eq!(map.next_key().unwrap(), Some(Token::Str("T")));
    let payload = map.next_value().unwrap();
    assert_eq!(payload, Visit::SeqAccess { len: None, end: EndToken::TupleVariantEnd });
    let mut access = CompositeAccess::new(None, EndToken::TupleVariantEnd);
    assert!(access.next_entry(&de));
    assert_eq!(de.deserialize_any().unwrap(), Visit::Scalar(Token::Bool(false)));
    assert!(!access.next_entry(&de));
    de.expect_end(EndToken::TupleVariantEnd).unwrap();
    assert_eq!(map.next_key().unwrap(), None);
    assert_eq!(de.remaining(), 0);
    assert_eq!(EnumMapVisitor::new(Token::U8(0), EnumFormat::Any).next_value(), None);
    assert_eq!(
        EnumMapVisitor::new(Token::Bytes(b"k"), EnumFormat::Struct).next_value(),
        Some(Visit::MapAccess { len: None, end: EndToken::StructVariantEnd })
    );
}

#[test]
fn closers_are_unexpected_values() {
    let tokens = [Token::StructEnd];
    let mut de = Deserializer::new(&tokens);
    let e = de.deserialize_any().unwrap_err();
    assert_eq!(e.msg(), "deserialization did not expect this token: StructEnd");
}

#[test]
fn option_accepts_none_unit_and_some() {
    let tokens = [Token::Unit, Token::OptionNone, Token::OptionSome, Token::U8(2), Token::I16(5)];
    let mut de = Deserializer::new(&tokens);
    assert_eq!(de.deserialize_option().unwrap(), Visit::OptionNone);
    assert_eq!(de.deserialize_option().unwrap(), Visit::OptionNone);
    assert_eq!(de.deserialize_option().unwrap(), Visit::OptionSome);
    assert_eq!(scalar_u8(de.deserialize_any().unwrap()), 2);
    assert_eq!(de.deserialize_option().unwrap(), Visit::Scalar(Token::I16(5)));
    assert_eq!(de.deserialize_option().unwrap_err().msg(), "ran out of tokens to deserialize");
}

#[test]
fn unit_struct_name_must_match() {
    let tokens = [Token::UnitStruct { name: "A" }];
    let mut de = Deserializer::new(&tokens);
    let e = de.deserialize_unit_struct("B").unwrap_err();
    assert_eq!(
        e.msg(),
        "expected Token::UnitStruct { name: \"A\" } but deserialization wants \
         Token::UnitStruct { name: \"B\" }"
    );
    let mut de = Deserializer::new(&tokens);
    assert_eq!(de.deserialize_unit_struct("A").unwrap(), Visit::Unit);
}

#[test]
fn newtype_struct_by_name_or_generic() {
    let tokens = [Token::NewtypeStruct { name: "N" }, Token::U8(1)];
    let mut de = Deserializer::new(&tokens);
    assert_eq!(de.deserialize_newtype_struct("N").unwrap(), Visit::NewtypeStruct);
    let plain = [Token::U8(1)];
    let mut de = Deserializer::new(&plain);
    assert_eq!(de.deserialize_newtype_struct("N").unwrap(), Visit::Scalar(Token::U8(1)));
}

#[test]
fn tuple_accepts_every_sequence_form() {
    let cases = [
        (Token::Unit, Visit::Unit),
        (Token::UnitStruct { name: "U" }, Visit::Unit),
        (Token::SeqStart { len: None }, Visit::SeqAccess { len: Some(3), end: EndToken::SeqEnd }),
        (Token::Tuple { len: 3 }, Visit::SeqAccess { len: Some(3), end: EndToken::TupleEnd }),
        (
            Token::TupleStruct { name: "P", len: 3 },
            Visit::SeqAccess { len: Some(3), end: EndToken::TupleStructEnd },
        ),
    ];
    for (t, want) in cases {
        let tokens = [t];
        let mut de = Deserializer::new(&tokens);
        assert_eq!(de.deserialize_tuple(3).unwrap(), want);
        assert_eq!(de.remaining(), 0);
    }
}

#[test]
fn tuple_struct_name_and_forms() {
    let tokens = [Token::TupleStruct { name: "P", len: 2 }];
    let mut de = Deserializer::new(&tokens);
    assert_eq!(
        de.deserialize_tuple_struct("P", 2).unwrap(),
        Visit::SeqAccess { len: Some(2), end: EndToken::TupleStructEnd }
    );
    let mut de = Deserializer::new(&tokens);
    let e = de.deserialize_tuple_struct("Q", 2).unwrap_err();
    assert_eq!(
        e.msg(),
        "expected Token::TupleStruct { name: \"P\", len: 2 } but deserialization wants \
         Token::TupleStruct { name: \"Q\", len: 2 }"
    );
    let tokens = [Token::Tuple { len: 2 }];
    let mut de = Deserializer::new(&tokens);
    assert_eq!(
        de.deserialize_tuple_struct("P", 2).unwrap(),
        Visit::SeqAccess { len: Some(2), end: EndToken::TupleEnd }
    );
}

#[test]
fn struct_from_map_takes_field_count() {
    let tokens = [Token::MapStart { len: None }];
    let mut de = Deserializer::new(&tokens);
    assert_eq!(
        de.deserialize_struct("S", &["a", "b", "c"]).unwrap(),
        Visit::MapAccess { len: Some(3), end: EndToken::MapEnd }
    );
}

#[test]
fn struct_name_mismatch_fails() {
    let tokens = [Token::Struct { name: "T", len: 1 }];
    let mut de = Deserializer::new(&tokens);
    let e = de.deserialize_struct("S", &["a"]).unwrap_err();
    assert_eq!(
        e.msg(),
        "expected Token::Struct { name: \"T\", len: 1 } but deserialization wants \
         Token::Struct { name: \"S\", len: 1 }"
    );
}

#[test]
fn expect_end_reports_end_of_tokens() {
    let tokens: [Token; 0] = [];
    let mut de = Deserializer::new(&tokens);
    let e = de.expect_end(EndToken::MapEnd).unwrap_err();
    assert_eq!(e.msg(), "end of tokens but deserialization wants Token::MapEnd");
    let tokens = [Token::Str("s")];
    let mut de = Deserializer::new(&tokens);
    assert!(de.assert_next_token(Token::Str("s")).is_ok());
}

#[test]
fn generic_path_maps_each_shape() {
    let tokens = [
        Token::Bool(true),
        Token::String("s"),
        Token::ByteBuf(&[1]),
        Token::OptionNone,
        Token::OptionSome,
        Token::NewtypeStruct { name: "N" },
        Token::Tuple { len: 1 },
        Token::MapStart { len: None },
        Token::Struct { name: "S", len: 4 },
        Token::UnitVariant { name: "E", variant: "A" },
        Token::NewtypeVariant { name: "E", variant: "B" },
        Token::StructVariant { name: "E", variant: "C", len: 0 },
    ];
    let want = [
        Visit::Scalar(Token::Bool(true)),
        Visit::Scalar(Token::String("s")),
        Visit::Scalar(Token::ByteBuf(&[1])),
        Visit::OptionNone,
        Visit::OptionSome,
        Visit::NewtypeStruct,
        Visit::SeqAccess { len: Some(1), end: EndToken::TupleEnd },
        Visit::MapAccess { len: None, end: EndToken::MapEnd },
        Visit::MapAccess { len: Some(4), end: EndToken::StructEnd },
        Visit::Scalar(Token::Str("A")),
        Visit::EnumMap { variant: Token::Str("B"), format: EnumFormat::Any },
        Visit::EnumMap { variant: Token::Str("C"), format: EnumFormat::Struct },
    ];
    let mut de = Deserializer::new(&tokens);
    for w in want {
        assert_eq!(de.deserialize_any().unwrap(), w);
    }
    assert_eq!(de.remaining(), 0);
}

#[test]
fn tuple_struct_length_must_match() {
    let tokens = [Token::TupleStruct { name: "P", len: 3 }];
    let mut de = Deserializer::new(&tokens);
    let e = de.deserialize_tuple_struct("P", 2).unwrap_err();
    assert_eq!(
        e.msg(),
        "expected Token::TupleStruct { name: \"P\", len: 3 } but deserialization wants \
         Token::TupleStruct { name: \"P\", len: 2 }"
    );
    assert_eq!(de.remaining(), 0);
}
