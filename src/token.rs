use vstd::prelude::*;

verus! {

/// One structural event that an encoder emits or a decoder consumes.
#[derive(Clone, Copy, Debug)]
#[allow(inconsistent_fields)]
pub enum Token<'a> {
    /// A `bool`.
    Bool(bool),
    /// An `i8`.
    I8(i8),
    /// An `i16`.
    I16(i16),
    /// An `i32`.
    I32(i32),
    /// An `i64`.
    I64(i64),
    /// An `i128`.
    I128(i128),
    /// A `u8`.
    U8(u8),
    /// A `u16`.
    U16(u16),
    /// A `u32`.
    U32(u32),
    /// A `u64`.
    U64(u64),
    /// A `u128`.
    U128(u128),
    /// An `f32`, held as its bit pattern (`f32::to_bits`): floats match bit for bit.
    F32(u32),
    /// An `f64`, held as its bit pattern (`f64::to_bits`): floats match bit for bit.
    F64(u64),
    /// A `char`.
    Char(char),
    /// A string borrowed for the duration of one call.
    Str(&'a str),
    /// A string borrowed for the whole decoding scope.
    BorrowedStr(&'a str),
    /// An owned string.
    String(&'a str),
    /// Bytes borrowed for the duration of one call.
    Bytes(&'a [u8]),
    /// Bytes borrowed for the whole decoding scope.
    BorrowedBytes(&'a [u8]),
    /// An owned byte buffer.
    ByteBuf(&'a [u8]),
    /// An absent optional value.
    OptionNone,
    /// A present optional value; the inner value follows.
    OptionSome,
    /// The unit value `()`.
    Unit,
    /// A unit struct of the given name.
    UnitStruct { name: &'a str },
    /// A unit variant of an enum.
    UnitVariant { name: &'a str, variant: &'a str },
    /// A newtype struct; its single field follows.
    NewtypeStruct { name: &'a str },
    /// A newtype variant of an enum; its single field follows.
    NewtypeVariant { name: &'a str, variant: &'a str },
    /// The start of a sequence, with an optional length hint.
    SeqStart { len: Option<usize> },
    /// The end of a sequence.
    SeqEnd,
    /// The start of a tuple of the given length.
    Tuple { len: usize },
    /// The end of a tuple.
    TupleEnd,
    /// The start of a tuple struct.
    TupleStruct { name: &'a str, len: usize },
    /// The end of a tuple struct.
    TupleStructEnd,
    /// The start of a tuple variant of an enum.
    TupleVariant { name: &'a str, variant: &'a str, len: usize },
    /// The end of a tuple variant.
    TupleVariantEnd,
    /// The start of a map, with an optional length hint.
    MapStart { len: Option<usize> },
    /// The end of a map.
    MapEnd,
    /// The start of a struct; field names and values alternate after it.
    Struct { name: &'a str, len: usize },
    /// The end of a struct.
    StructEnd,
    /// The start of a struct variant of an enum.
    StructVariant { name: &'a str, variant: &'a str, len: usize },
    /// The end of a struct variant.
    StructVariantEnd,
    /// The open form of an enum: the variant tag follows, then the payload (a `Unit` for a unit variant).
    Enum { name: &'a str },
    /// A struct field that the encoder skips; decoding never sees it.
    SkipStructField { name: &'a str },
}

/// Two tokens are the same event: the same variant, with equal fields.
/// Strings and bytes compare by content.
pub open spec fn same_token<'x, 'y>(a: Token<'x>, b: Token<'y>) -> bool {
    match (a, b) {
        (Token::Bool(x), Token::Bool(y)) => x == y,
        (Token::I8(x), Token::I8(y)) => x == y,
        (Token::I16(x), Token::I16(y)) => x == y,
        (Token::I32(x), Token::I32(y)) => x == y,
        (Token::I64(x), Token::I64(y)) => x == y,
        (Token::I128(x), Token::I128(y)) => x == y,
        (Token::U8(x), Token::U8(y)) => x == y,
        (Token::U16(x), Token::U16(y)) => x == y,
        (Token::U32(x), Token::U32(y)) => x == y,
        (Token::U64(x), Token::U64(y)) => x == y,
        (Token::U128(x), Token::U128(y)) => x == y,
        (Token::F32(x), Token::F32(y)) => x == y,
        (Token::F64(x), Token::F64(y)) => x == y,
        (Token::Char(x), Token::Char(y)) => x == y,
        (Token::Str(x), Token::Str(y)) => x@ == y@,
        (Token::BorrowedStr(x), Token::BorrowedStr(y)) => x@ == y@,
        (Token::String(x), Token::String(y)) => x@ == y@,
        (Token::Bytes(x), Token::Bytes(y)) => x@ == y@,
        (Token::BorrowedBytes(x), Token::BorrowedBytes(y)) => x@ == y@,
        (Token::ByteBuf(x), Token::ByteBuf(y)) => x@ == y@,
        (Token::OptionNone, Token::OptionNone) => true,
        (Token::OptionSome, Token::OptionSome) => true,
        (Token::Unit, Token::Unit) => true,
        (Token::UnitStruct { name: name_a }, Token::UnitStruct { name: name_b }) => name_a@ == name_b@,
        (Token::UnitVariant { name: name_a, variant: variant_a }, Token::UnitVariant { name: name_b, variant: variant_b }) => name_a@ == name_b@ && variant_a@ == variant_b@,
        (Token::NewtypeStruct { name: name_a }, Token::NewtypeStruct { name: name_b }) => name_a@ == name_b@,
        (Token::NewtypeVariant { name: name_a, variant: variant_a }, Token::NewtypeVariant { name: name_b, variant: variant_b }) => name_a@ == name_b@ && variant_a@ == variant_b@,
        (Token::SeqStart { len: len_a }, Token::SeqStart { len: len_b }) => len_a == len_b,
        (Token::SeqEnd, Token::SeqEnd) => true,
        (Token::Tuple { len: len_a }, Token::Tuple { len: len_b }) => len_a == len_b,
        (Token::TupleEnd, Token::TupleEnd) => true,
        (Token::TupleStruct { name: name_a, len: len_a }, Token::TupleStruct { name: name_b, len: len_b }) => name_a@ == name_b@ && len_a == len_b,
        (Token::TupleStructEnd, Token::TupleStructEnd) => true,
        (Token::TupleVariant { name: name_a, variant: variant_a, len: len_a }, Token::TupleVariant { name: name_b, variant: variant_b, len: len_b }) => name_a@ == name_b@ && variant_a@ == variant_b@ && len_a == len_b,
        (Token::TupleVariantEnd, Token::TupleVariantEnd) => true,
        (Token::MapStart { len: len_a }, Token::MapStart { len: len_b }) => len_a == len_b,
        (Token::MapEnd, Token::MapEnd) => true,
        (Token::Struct { name: name_a, len: len_a }, Token::Struct { name: name_b, len: len_b }) => name_a@ == name_b@ && len_a == len_b,
        (Token::StructEnd, Token::StructEnd) => true,
        (Token::StructVariant { name: name_a, variant: variant_a, len: len_a }, Token::StructVariant { name: name_b, variant: variant_b, len: len_b }) => name_a@ == name_b@ && variant_a@ == variant_b@ && len_a == len_b,
        (Token::StructVariantEnd, Token::StructVariantEnd) => true,
        (Token::Enum { name: name_a }, Token::Enum { name: name_b }) => name_a@ == name_b@,
        (Token::SkipStructField { name: name_a }, Token::SkipStructField { name: name_b }) => name_a@ == name_b@,
        _ => false,
    }
}

/// Compares two tokens as `same_token` does.
pub fn token_matches<'x, 'y>(a: &Token<'x>, b: &Token<'y>) -> (r: bool)
    ensures
        r == same_token(*a, *b),
{
    match (*a, *b) {
            (Token::Bool(x), Token::Bool(y)) => x == y,
            (Token::I8(x), Token::I8(y)) => x == y,
            (Token::I16(x), Token::I16(y)) => x == y,
            (Token::I32(x), Token::I32(y)) => x == y,
            (Token::I64(x), Token::I64(y)) => x == y,
            (Token::I128(x), Token::I128(y)) => x == y,
            (Token::U8(x), Token::U8(y)) => x == y,
            (Token::U16(x), Token::U16(y)) => x == y,
            (Token::U32(x), Token::U32(y)) => x == y,
            (Token::U64(x), Token::U64(y)) => x == y,
            (Token::U128(x), Token::U128(y)) => x == y,
            (Token::F32(x), Token::F32(y)) => x == y,
            (Token::F64(x), Token::F64(y)) => x == y,
            (Token::Char(x), Token::Char(y)) => x == y,
            (Token::Str(x), Token::Str(y)) => str_eq(x, y),
            (Token::BorrowedStr(x), Token::BorrowedStr(y)) => str_eq(x, y),
            (Token::String(x), Token::String(y)) => str_eq(x, y),
            (Token::Bytes(x), Token::Bytes(y)) => bytes_eq(x, y),
            (Token::BorrowedBytes(x), Token::BorrowedBytes(y)) => bytes_eq(x, y),
            (Token::ByteBuf(x), Token::ByteBuf(y)) => bytes_eq(x, y),
            (Token::OptionNone, Token::OptionNone) => true,
            (Token::OptionSome, Token::OptionSome) => true,
            (Token::Unit, Token::Unit) => true,
            (Token::UnitStruct { name: name_a }, Token::UnitStruct { name: name_b }) => str_eq(name_a, name_b),
            (Token::UnitVariant { name: name_a, variant: variant_a }, Token::UnitVariant { name: name_b, variant: variant_b }) => str_eq(name_a, name_b) && str_eq(variant_a, variant_b),
            (Token::NewtypeStruct { name: name_a }, Token::NewtypeStruct { name: name_b }) => str_eq(name_a, name_b),
            (Token::NewtypeVariant { name: name_a, variant: variant_a }, Token::NewtypeVariant { name: name_b, variant: variant_b }) => str_eq(name_a, name_b) && str_eq(variant_a, variant_b),
            (Token::SeqStart { len: len_a }, Token::SeqStart { len: len_b }) => len_a == len_b,
            (Token::SeqEnd, Token::SeqEnd) => true,
            (Token::Tuple { len: len_a }, Token::Tuple { len: len_b }) => len_a == len_b,
            (Token::TupleEnd, Token::TupleEnd) => true,
            (Token::TupleStruct { name: name_a, len: len_a }, Token::TupleStruct { name: name_b, len: len_b }) => str_eq(name_a, name_b) && len_a == len_b,
            (Token::TupleStructEnd, Token::TupleStructEnd) => true,
            (Token::TupleVariant { name: name_a, variant: variant_a, len: len_a }, Token::TupleVariant { name: name_b, variant: variant_b, len: len_b }) => str_eq(name_a, name_b) && str_eq(variant_a, variant_b) && len_a == len_b,
            (Token::TupleVariantEnd, Token::TupleVariantEnd) => true,
            (Token::MapStart { len: len_a }, Token::MapStart { len: len_b }) => len_a == len_b,
            (Token::MapEnd, Token::MapEnd) => true,
            (Token::Struct { name: name_a, len: len_a }, Token::Struct { name: name_b, len: len_b }) => str_eq(name_a, name_b) && len_a == len_b,
            (Token::StructEnd, Token::StructEnd) => true,
            (Token::StructVariant { name: name_a, variant: variant_a, len: len_a }, Token::StructVariant { name: name_b, variant: variant_b, len: len_b }) => str_eq(name_a, name_b) && str_eq(variant_a, variant_b) && len_a == len_b,
            (Token::StructVariantEnd, Token::StructVariantEnd) => true,
            (Token::Enum { name: name_a }, Token::Enum { name: name_b }) => str_eq(name_a, name_b),
            (Token::SkipStructField { name: name_a }, Token::SkipStructField { name: name_b }) => str_eq(name_a, name_b),
            _ => false,
    }
}

impl<'a> PartialEq for Token<'a> {
    fn eq(&self, other: &Self) -> (r: bool) {
        token_matches(self, other)
    }
}

impl<'a> vstd::std_specs::cmp::PartialEqSpecImpl for Token<'a> {
    open spec fn obeys_eq_spec() -> bool {
        true
    }

    open spec fn eq_spec(&self, other: &Self) -> bool {
        same_token(*self, *other)
    }
}

/// A token that the decoder steps over without showing it to the visitor.
pub open spec fn is_skip(t: Token) -> bool {
    t is SkipStructField
}

/// A token that closes a composite region.
pub open spec fn is_closer(t: Token) -> bool {
    ||| t is SeqEnd
    ||| t is TupleEnd
    ||| t is TupleStructEnd
    ||| t is MapEnd
    ||| t is StructEnd
    ||| t is TupleVariantEnd
    ||| t is StructVariantEnd
}

/// A token that carries a single plain value (a number, character, string or bytes).
pub open spec fn is_scalar(t: Token) -> bool {
    ||| t is Bool
    ||| t is I8
    ||| t is I16
    ||| t is I32
    ||| t is I64
    ||| t is I128
    ||| t is U8
    ||| t is U16
    ||| t is U32
    ||| t is U64
    ||| t is U128
    ||| t is F32
    ||| t is F64
    ||| t is Char
    ||| t is Str
    ||| t is BorrowedStr
    ||| t is String
    ||| t is Bytes
    ||| t is BorrowedBytes
    ||| t is ByteBuf
}

/// The closing token that a composite region owes.
#[derive(Clone, Copy, Debug, PartialEq, Eq, Structural)]
pub enum EndToken {
    SeqEnd,
    TupleEnd,
    TupleStructEnd,
    MapEnd,
    StructEnd,
    TupleVariantEnd,
    StructVariantEnd,
}

impl EndToken {
    /// The token that closes the region.
    pub open spec fn spec_token<'a>(self) -> Token<'a> {
        match self {
            EndToken::SeqEnd => Token::SeqEnd,
            EndToken::TupleEnd => Token::TupleEnd,
            EndToken::TupleStructEnd => Token::TupleStructEnd,
            EndToken::MapEnd => Token::MapEnd,
            EndToken::StructEnd => Token::StructEnd,
            EndToken::TupleVariantEnd => Token::TupleVariantEnd,
            EndToken::StructVariantEnd => Token::StructVariantEnd,
        }
    }

    pub fn token<'a>(self) -> (r: Token<'a>)
        ensures
            r == self.spec_token::<'a>(),
    {
        match self {
            EndToken::SeqEnd => Token::SeqEnd,
            EndToken::TupleEnd => Token::TupleEnd,
            EndToken::TupleStructEnd => Token::TupleStructEnd,
            EndToken::MapEnd => Token::MapEnd,
            EndToken::StructEnd => Token::StructEnd,
            EndToken::TupleVariantEnd => Token::TupleVariantEnd,
            EndToken::StructVariantEnd => Token::StructVariantEnd,
        }
    }
}

/// Whether two strings hold the same characters.
pub fn str_eq(a: &str, b: &str) -> (r: bool)
    ensures
        r == (a@ == b@),
{
    a.to_owned() == b.to_owned()
}

/// Whether two byte strings hold the same bytes.
pub fn bytes_eq(a: &[u8], b: &[u8]) -> (r: bool)
    ensures
        r == (a@ == b@),
{
    if a.len() != b.len() {
        return false;
    }
    let mut i: usize = 0;
    while i < a.len()
        invariant
            a@.len() == b@.len(),
            i <= a@.len(),
            a@.subrange(0, i as int) == b@.subrange(0, i as int),
        decreases a@.len() - i,
    {
        if a[i] != b[i] {
            assert(a@[i as int] != b@[i as int]);
            return false;
        }
        assert(a@.subrange(0, i + 1) == a@.subrange(0, i as int).push(a@[i as int]));
        assert(b@.subrange(0, i + 1) == b@.subrange(0, i as int).push(b@[i as int]));
        i = i + 1;
    }
    assert(a@ == a@.subrange(0, a@.len() as int));
    assert(b@ == b@.subrange(0, b@.len() as int));
    true
}

} // verus!
