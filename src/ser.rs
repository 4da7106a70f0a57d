use vstd::prelude::*;
use crate::error::Error;
use crate::text::{push_token, token_text};
use crate::token::{same_token, token_matches, EndToken, Token};

verus! {

pub open spec fn serialized_text(expected: Token, actual: Token) -> Seq<char> {
    "expected Token::"@ + token_text(expected) + " but serialized as "@ + token_text(actual)
}

pub open spec fn serialized_after_end_text(actual: Token) -> Seq<char> {
    "expected end of tokens, but "@ + token_text(actual) + " was serialized"@
}

/// Checking one produced token against the script: the outcome and what is left.
/// A mismatched token is taken; at the end of the script nothing is.
pub open spec fn emit_step<'a, 'b>(s: Seq<Token<'a>>, actual: Token<'b>) -> (
    Result<(), Seq<char>>,
    Seq<Token<'a>>,
) {
    if s.len() == 0 {
        (Result::Err(serialized_after_end_text(actual)), s)
    } else if same_token(s[0], actual) {
        (Result::Ok(()), s.drop_first())
    } else {
        (Result::Err(serialized_text(s[0], actual)), s.drop_first())
    }
}

/// Checking produced tokens in order, stopping at the first failure.
pub open spec fn emit_run<'a, 'b>(s: Seq<Token<'a>>, actual: Seq<Token<'b>>) -> (
    Result<(), Seq<char>>,
    Seq<Token<'a>>,
)
    decreases actual.len(),
{
    if actual.len() == 0 {
        (Result::Ok(()), s)
    } else {
        let e = emit_step(s, actual[0]);
        if e.0 is Ok {
            emit_run(e.1, actual.drop_first())
        } else {
            e
        }
    }
}

/// `r` succeeded exactly when `e` did, and failed with its message.
pub open spec fn done_as<T>(r: Result<T, Error>, e: Result<(), Seq<char>>) -> bool {
    match (r, e) {
        (Result::Ok(_), Result::Ok(_)) => true,
        (Result::Err(x), Result::Err(m)) => x@ == m,
        _ => false,
    }
}

/// The script's next token is the open form of enum `name`.
pub open spec fn opens_enum<'a>(s: Seq<Token<'a>>, name: &str) -> bool {
    s.len() > 0 && same_token(s[0], Token::Enum { name })
}

/// The tokens a variant produces after its tag: the open form when the
/// script has an `Enum` token next (taken first), else the closed form.
pub open spec fn variant_run<'a, 'b>(
    s: Seq<Token<'a>>,
    name: &'b str,
    open: Seq<Token<'b>>,
    closed: Token<'b>,
) -> (Result<(), Seq<char>>, Seq<Token<'a>>) {
    if opens_enum(s, name) {
        emit_run(s.drop_first(), open)
    } else {
        emit_step(s, closed)
    }
}

/// The string token checked for a produced string: the script's own flavour
/// when it has a `BorrowedStr` or `String` next, `Str` otherwise.
pub open spec fn str_flavor<'a, 'b>(s: Seq<Token<'a>>, v: &'b str) -> Token<'b> {
    if s.len() > 0 && s[0] is BorrowedStr {
        Token::BorrowedStr(v)
    } else if s.len() > 0 && s[0] is String {
        Token::String(v)
    } else {
        Token::Str(v)
    }
}

/// The bytes token checked for produced bytes: the script's own flavour when
/// it has a `BorrowedBytes` or `ByteBuf` next, `Bytes` otherwise.
pub open spec fn bytes_flavor<'a, 'b>(s: Seq<Token<'a>>, v: &'b [u8]) -> Token<'b> {
    if s.len() > 0 && s[0] is BorrowedBytes {
        Token::BorrowedBytes(v)
    } else if s.len() > 0 && s[0] is ByteBuf {
        Token::ByteBuf(v)
    } else {
        Token::Bytes(v)
    }
}

/// Checks that a value serializes to a script of tokens, one call at a time.
#[derive(Debug)]
pub struct Serializer<'a> {
    tokens: &'a [Token<'a>],
    pos: usize,
}

/// A composite region being serialized: the token that will close it.
#[derive(Clone, Copy, Debug)]
pub struct ComplexSerializer {
    end: EndToken,
}

impl<'a> Serializer<'a> {
    /// The cursor stands within the script.
    pub closed spec fn wf(&self) -> bool {
        self.pos <= self.tokens@.len()
    }

    /// The tokens not yet checked.
    pub closed spec fn rest(&self) -> Seq<Token<'a>> {
        self.tokens@.subrange(self.pos as int, self.tokens@.len() as int)
    }

    /// A serializer at the start of `tokens`.
    pub fn new(tokens: &'a [Token<'a>]) -> (r: Self)
        ensures
            r.wf(),
            r.rest() == tokens@,
    {
        let r = Serializer { tokens, pos: 0 };
        assert(r.rest() =~= tokens@);
        r
    }

    /// Takes the next token, whatever it is.
    pub fn next_token(&mut self) -> (r: Option<Token<'a>>)
        requires
            old(self).wf(),
        ensures
            final(self).wf(),
            r == (if old(self).rest().len() > 0 {
                Option::Some(old(self).rest()[0])
            } else {
                Option::None
            }),
            final(self).rest() == (if old(self).rest().len() > 0 {
                old(self).rest().drop_first()
            } else {
                old(self).rest()
            }),
    {
        if self.pos < self.tokens.len() {
            let t = self.tokens[self.pos];
            let ghost s = self.rest();
            self.pos = self.pos + 1;
            assert(self.rest() =~= s.drop_first());
            Option::Some(t)
        } else {
            Option::None
        }
    }

    /// The next token, not taken.
    fn first(&self) -> (r: Option<Token<'a>>)
        requires
            self.wf(),
        ensures
            r == (if self.rest().len() > 0 {
                Option::Some(self.rest()[0])
            } else {
                Option::None
            }),
    {
        if self.pos < self.tokens.len() {
            Option::Some(self.tokens[self.pos])
        } else {
            Option::None
        }
    }

    /// How many tokens are left.
    pub fn remaining(&self) -> (r: usize)
        requires
            self.wf(),
        ensures
            r == self.rest().len(),
    {
        self.tokens.len() - self.pos
    }

    /// Checks the produced token `actual` against the next one of the script.
    pub fn assert_next_token<'b>(&mut self, actual: Token<'b>) -> (r: Result<(), Error>)
        requires
            old(self).wf(),
        ensures
            final(self).wf(),
            done_as(r, emit_step(old(self).rest(), actual).0),
            final(self).rest() == emit_step(old(self).rest(), actual).1,
    {
        match self.next_token() {
            Option::Some(expected) => {
                if token_matches(&expected, &actual) {
                    Result::Ok(())
                } else {
                    let mut m = String::new();
                    m.append("expected Token::");
                    push_token(&mut m, &expected);
                    m.append(" but serialized as ");
                    push_token(&mut m, &actual);
                    proof {
                        assert(m@ =~= serialized_text(expected, actual));
                    }
                    Result::Err(Error::from_message(m))
                }
            },
            Option::None => {
                let mut m = String::new();
                m.append("expected end of tokens, but ");
                push_token(&mut m, &actual);
                m.append(" was serialized");
                proof {
                    assert(m@ =~= serialized_after_end_text(actual));
                }
                Result::Err(Error::from_message(m))
            },
        }
    }

    /// Whether the script has the open form of enum `name` next; if so, takes it.
    fn take_open_enum(&mut self, name: &str) -> (r: bool)
        requires
            old(self).wf(),
        ensures
            final(self).wf(),
            r == opens_enum(old(self).rest(), name),
            final(self).rest() == (if r {
                old(self).rest().drop_first()
            } else {
                old(self).rest()
            }),
    {
        let opens = match self.first() {
            Option::Some(t) => token_matches(&t, &Token::Enum { name }),
            Option::None => false,
        };
        if opens {
            self.next_token();
        }
        opens
    }

    /// A `bool`.
    pub fn serialize_bool(&mut self, v: bool) -> (r: Result<(), Error>)
        requires
            old(self).wf(),
        ensures
            final(self).wf(),
            done_as(r, emit_step(old(self).rest(), Token::Bool(v)).0),
            final(self).rest() == emit_step(old(self).rest(), Token::Bool(v)).1,
    {
        self.assert_next_token(Token::Bool(v))
    }

    /// An `i8`.
    pub fn serialize_i8(&mut self, v: i8) -> (r: Result<(), Error>)
        requires
            old(self).wf(),
        ensures
            final(self).wf(),
            done_as(r, emit_step(old(self).rest(), Token::I8(v)).0),
            final(self).rest() == emit_step(old(self).rest(), Token::I8(v)).1,
    {
        self.assert_next_token(Token::I8(v))
    }

    /// An `i16`.
    pub fn serialize_i16(&mut self, v: i16) -> (r: Result<(), Error>)
        requires
            old(self).wf(),
        ensures
            final(self).wf(),
            done_as(r, emit_step(old(self).rest(), Token::I16(v)).0),
            final(self).rest() == emit_step(old(self).rest(), Token::I16(v)).1,
    {
        self.assert_next_token(Token::I16(v))
    }

    /// An `i32`.
    pub fn serialize_i32(&mut self, v: i32) -> (r: Result<(), Error>)
        requires
            old(self).wf(),
        ensures
            final(self).wf(),
            done_as(r, emit_step(old(self).rest(), Token::I32(v)).0),
            final(self).rest() == emit_step(old(self).rest(), Token::I32(v)).1,
    {
        self.assert_next_token(Token::I32(v))
    }

    /// An `i64`.
    pub fn serialize_i64(&mut self, v: i64) -> (r: Result<(), Error>)
        requires
            old(self).wf(),
        ensures
            final(self).wf(),
            done_as(r, emit_step(old(self).rest(), Token::I64(v)).0),
            final(self).rest() == emit_step(old(self).rest(), Token::I64(v)).1,
    {
        self.assert_next_token(Token::I64(v))
    }

    /// An `i128`.
    pub fn serialize_i128(&mut self, v: i128) -> (r: Result<(), Error>)
        requires
            old(self).wf(),
        ensures
            final(self).wf(),
            done_as(r, emit_step(old(self).rest(), Token::I128(v)).0),
            final(self).rest() == emit_step(old(self).rest(), Token::I128(v)).1,
    {
        self.assert_next_token(Token::I128(v))
    }

    /// A `u8`.
    pub fn serialize_u8(&mut self, v: u8) -> (r: Result<(), Error>)
        requires
            old(self).wf(),
        ensures
            final(self).wf(),
            done_as(r, emit_step(old(self).rest(), Token::U8(v)).0),
            final(self).rest() == emit_step(old(self).rest(), Token::U8(v)).1,
    {
        self.assert_next_token(Token::U8(v))
    }

    /// A `u16`.
    pub fn serialize_u16(&mut self, v: u16) -> (r: Result<(), Error>)
        requires
            old(self).wf(),
        ensures
            final(self).wf(),
            done_as(r, emit_step(old(self).rest(), Token::U16(v)).0),
            final(self).rest() == emit_step(old(self).rest(), Token::U16(v)).1,
    {
        self.assert_next_token(Token::U16(v))
    }

    /// A `u32`.
    pub fn serialize_u32(&mut self, v: u32) -> (r: Result<(), Error>)
        requires
            old(self).wf(),
        ensures
            final(self).wf(),
            done_as(r, emit_step(old(self).rest(), Token::U32(v)).0),
            final(self).rest() == emit_step(old(self).rest(), Token::U32(v)).1,
    {
        self.assert_next_token(Token::U32(v))
    }

    /// A `u64`.
    pub fn serialize_u64(&mut self, v: u64) -> (r: Result<(), Error>)
        requires
            old(self).wf(),
        ensures
            final(self).wf(),
            done_as(r, emit_step(old(self).rest(), Token::U64(v)).0),
            final(self).rest() == emit_step(old(self).rest(), Token::U64(v)).1,
    {
        self.assert_next_token(Token::U64(v))
    }

    /// A `u128`.
    pub fn serialize_u128(&mut self, v: u128) -> (r: Result<(), Error>)
        requires
            old(self).wf(),
        ensures
            final(self).wf(),
            done_as(r, emit_step(old(self).rest(), Token::U128(v)).0),
            final(self).rest() == emit_step(old(self).rest(), Token::U128(v)).1,
    {
        self.assert_next_token(Token::U128(v))
    }

    /// An `f32`, given as its bit pattern.
    pub fn serialize_f32(&mut self, v: u32) -> (r: Result<(), Error>)
        requires
            old(self).wf(),
        ensures
            final(self).wf(),
            done_as(r, emit_step(old(self).rest(), Token::F32(v)).0),
            final(self).rest() == emit_step(old(self).rest(), Token::F32(v)).1,
    {
        self.assert_next_token(Token::F32(v))
    }

    /// An `f64`, given as its bit pattern.
    pub fn serialize_f64(&mut self, v: u64) -> (r: Result<(), Error>)
        requires
            old(self).wf(),
        ensures
            final(self).wf(),
            done_as(r, emit_step(old(self).rest(), Token::F64(v)).0),
            final(self).rest() == emit_step(old(self).rest(), Token::F64(v)).1,
    {
        self.assert_next_token(Token::F64(v))
    }

    /// A `char`.
    pub fn serialize_char(&mut self, v: char) -> (r: Result<(), Error>)
        requires
            old(self).wf(),
        ensures
            final(self).wf(),
            done_as(r, emit_step(old(self).rest(), Token::Char(v)).0),
            final(self).rest() == emit_step(old(self).rest(), Token::Char(v)).1,
    {
        self.assert_next_token(Token::Char(v))
    }

    /// An absent optional value.
    pub fn serialize_none(&mut self) -> (r: Result<(), Error>)
        requires
            old(self).wf(),
        ensures
            final(self).wf(),
            done_as(r, emit_step(old(self).rest(), Token::<'a>::OptionNone).0),
            final(self).rest() == emit_step(old(self).rest(), Token::<'a>::OptionNone).1,
    {
        self.assert_next_token(Token::<'a>::OptionNone)
    }

    /// A present optional value; the inner value is serialized next.
    pub fn serialize_some(&mut self) -> (r: Result<(), Error>)
        requires
            old(self).wf(),
        ensures
            final(self).wf(),
            done_as(r, emit_step(old(self).rest(), Token::<'a>::OptionSome).0),
            final(self).rest() == emit_step(old(self).rest(), Token::<'a>::OptionSome).1,
    {
        self.assert_next_token(Token::<'a>::OptionSome)
    }

    /// The unit value.
    pub fn serialize_unit(&mut self) -> (r: Result<(), Error>)
        requires
            old(self).wf(),
        ensures
            final(self).wf(),
            done_as(r, emit_step(old(self).rest(), Token::<'a>::Unit).0),
            final(self).rest() == emit_step(old(self).rest(), Token::<'a>::Unit).1,
    {
        self.assert_next_token(Token::<'a>::Unit)
    }

    /// A unit struct named `name`.
    pub fn serialize_unit_struct(&mut self, name: &str) -> (r: Result<(), Error>)
        requires
            old(self).wf(),
        ensures
            final(self).wf(),
            done_as(r, emit_step(old(self).rest(), Token::UnitStruct { name }).0),
            final(self).rest() == emit_step(old(self).rest(), Token::UnitStruct { name }).1,
    {
        self.assert_next_token(Token::UnitStruct { name })
    }

    /// A newtype struct named `name`; its field is serialized next.
    pub fn serialize_newtype_struct(&mut self, name: &str) -> (r: Result<(), Error>)
        requires
            old(self).wf(),
        ensures
            final(self).wf(),
            done_as(r, emit_step(old(self).rest(), Token::NewtypeStruct { name }).0),
            final(self).rest() == emit_step(old(self).rest(), Token::NewtypeStruct { name }).1,
    {
        self.assert_next_token(Token::NewtypeStruct { name })
    }

    /// The start of a sequence.
    pub fn serialize_seq(&mut self, len: Option<usize>) -> (r: Result<ComplexSerializer, Error>)
        requires
            old(self).wf(),
        ensures
            final(self).wf(),
            done_as(r, emit_step(old(self).rest(), Token::SeqStart { len }).0),
            r matches Result::Ok(c) ==> c.end_token() == EndToken::SeqEnd,
            final(self).rest() == emit_step(old(self).rest(), Token::SeqStart { len }).1,
    {
        match self.assert_next_token(Token::SeqStart { len }) {
            Result::Ok(()) => Result::Ok(ComplexSerializer { end: EndToken::SeqEnd }),
            Result::Err(e) => Result::Err(e),
        }
    }

    /// The start of a tuple.
    pub fn serialize_tuple(&mut self, len: usize) -> (r: Result<ComplexSerializer, Error>)
        requires
            old(self).wf(),
        ensures
            final(self).wf(),
            done_as(r, emit_step(old(self).rest(), Token::Tuple { len }).0),
            r matches Result::Ok(c) ==> c.end_token() == EndToken::TupleEnd,
            final(self).rest() == emit_step(old(self).rest(), Token::Tuple { len }).1,
    {
        match self.assert_next_token(Token::Tuple { len }) {
            Result::Ok(()) => Result::Ok(ComplexSerializer { end: EndToken::TupleEnd }),
            Result::Err(e) => Result::Err(e),
        }
    }

    /// The start of a tuple struct.
    pub fn serialize_tuple_struct(&mut self, name: &str, len: usize) -> (r: Result<ComplexSerializer, Error>)
        requires
            old(self).wf(),
        ensures
            final(self).wf(),
            done_as(r, emit_step(old(self).rest(), Token::TupleStruct { name, len }).0),
            r matches Result::Ok(c) ==> c.end_token() == EndToken::TupleStructEnd,
            final(self).rest() == emit_step(old(self).rest(), Token::TupleStruct { name, len }).1,
    {
        match self.assert_next_token(Token::TupleStruct { name, len }) {
            Result::Ok(()) => Result::Ok(ComplexSerializer { end: EndToken::TupleStructEnd }),
            Result::Err(e) => Result::Err(e),
        }
    }

    /// The start of a map.
    pub fn serialize_map(&mut self, len: Option<usize>) -> (r: Result<ComplexSerializer, Error>)
        requires
            old(self).wf(),
        ensures
            final(self).wf(),
            done_as(r, emit_step(old(self).rest(), Token::MapStart { len }).0),
            r matches Result::Ok(c) ==> c.end_token() == EndToken::MapEnd,
            final(self).rest() == emit_step(old(self).rest(), Token::MapStart { len }).1,
    {
        match self.assert_next_token(Token::MapStart { len }) {
            Result::Ok(()) => Result::Ok(ComplexSerializer { end: EndToken::MapEnd }),
            Result::Err(e) => Result::Err(e),
        }
    }

    /// The start of a struct.
    pub fn serialize_struct(&mut self, name: &str, len: usize) -> (r: Result<ComplexSerializer, Error>)
        requires
            old(self).wf(),
        ensures
            final(self).wf(),
            done_as(r, emit_step(old(self).rest(), Token::Struct { name, len }).0),
            r matches Result::Ok(c) ==> c.end_token() == EndToken::StructEnd,
            final(self).rest() == emit_step(old(self).rest(), Token::Struct { name, len }).1,
    {
        match self.assert_next_token(Token::Struct { name, len }) {
            Result::Ok(()) => Result::Ok(ComplexSerializer { end: EndToken::StructEnd }),
            Result::Err(e) => Result::Err(e),
        }
    }

    /// A string, checked against the flavour of string the script has next.
    pub fn serialize_str(&mut self, v: &str) -> (r: Result<(), Error>)
        requires
            old(self).wf(),
        ensures
            final(self).wf(),
            done_as(r, emit_step(old(self).rest(), str_flavor(old(self).rest(), v)).0),
            final(self).rest() == emit_step(old(self).rest(), str_flavor(old(self).rest(), v)).1,
    {
        match self.first() {
            Option::Some(Token::BorrowedStr(_)) => self.assert_next_token(Token::BorrowedStr(v)),
            Option::Some(Token::String(_)) => self.assert_next_token(Token::String(v)),
            _ => self.assert_next_token(Token::Str(v)),
        }
    }

    /// Bytes, checked against the flavour of bytes the script has next.
    pub fn serialize_bytes(&mut self, v: &[u8]) -> (r: Result<(), Error>)
        requires
            old(self).wf(),
        ensures
            final(self).wf(),
            done_as(r, emit_step(old(self).rest(), bytes_flavor(old(self).rest(), v)).0),
            final(self).rest() == emit_step(old(self).rest(), bytes_flavor(old(self).rest(), v)).1,
    {
        match self.first() {
            Option::Some(Token::BorrowedBytes(_)) => self.assert_next_token(
                Token::BorrowedBytes(v),
            ),
            Option::Some(Token::ByteBuf(_)) => self.assert_next_token(Token::ByteBuf(v)),
            _ => self.assert_next_token(Token::Bytes(v)),
        }
    }

    /// A unit variant, in the closed form or the open one.
    pub fn serialize_unit_variant(&mut self, name: &str, variant: &str) -> (r: Result<(), Error>)
        requires
            old(self).wf(),
        ensures
            final(self).wf(),
            done_as(
                r,
                variant_run(
                    old(self).rest(),
                    name,
                    seq![Token::Str(variant), Token::Unit],
                    Token::UnitVariant { name, variant },
                ).0,
            ),
            final(self).rest() == variant_run(
                old(self).rest(),
                name,
                seq![Token::Str(variant), Token::Unit],
                Token::UnitVariant { name, variant },
            ).1,
    {
        if self.take_open_enum(name) {
            let ghost s = self.rest();
            let r = self.assert_next_token(Token::Str(variant));
            proof {
                reveal_with_fuel(emit_run, 3);
                assert(seq![Token::Str(variant), Token::Unit].drop_first() =~= seq![Token::Unit]);
                assert(seq![Token::<'_>::Unit].drop_first() =~= Seq::<Token>::empty());
            }
            if r.is_err() {
                return r;
            }
            self.assert_next_token(Token::Unit)
        } else {
            self.assert_next_token(Token::UnitVariant { name, variant })
        }
    }

    /// A newtype variant, in the closed form or the open one; its field is
    /// serialized next.
    pub fn serialize_newtype_variant(&mut self, name: &str, variant: &str) -> (r: Result<(), Error>)
        requires
            old(self).wf(),
        ensures
            final(self).wf(),
            done_as(
                r,
                variant_run(
                    old(self).rest(),
                    name,
                    seq![Token::Str(variant)],
                    Token::NewtypeVariant { name, variant },
                ).0,
            ),
            final(self).rest() == variant_run(
                old(self).rest(),
                name,
                seq![Token::Str(variant)],
                Token::NewtypeVariant { name, variant },
            ).1,
    {
        if self.take_open_enum(name) {
            proof {
                reveal_with_fuel(emit_run, 2);
                assert(seq![Token::Str(variant)].drop_first() =~= Seq::<Token>::empty());
            }
            self.assert_next_token(Token::Str(variant))
        } else {
            self.assert_next_token(Token::NewtypeVariant { name, variant })
        }
    }

    /// The start of a tuple variant, in the closed form or the open one (a
    /// sequence of known length after the tag).
    pub fn serialize_tuple_variant(&mut self, name: &str, variant: &str, len: usize) -> (r: Result<
        ComplexSerializer,
        Error,
    >)
        requires
            old(self).wf(),
        ensures
            final(self).wf(),
            done_as(
                r,
                variant_run(
                    old(self).rest(),
                    name,
                    seq![Token::Str(variant), Token::SeqStart { len: Option::Some(len) }],
                    Token::TupleVariant { name, variant, len },
                ).0,
            ),
            r matches Result::Ok(c) ==> c.end_token() == (if opens_enum(old(self).rest(), name) {
                EndToken::SeqEnd
            } else {
                EndToken::TupleVariantEnd
            }),
            final(self).rest() == variant_run(
                old(self).rest(),
                name,
                seq![Token::Str(variant), Token::SeqStart { len: Option::Some(len) }],
                Token::TupleVariant { name, variant, len },
            ).1,
    {
        if self.take_open_enum(name) {
            let r = self.assert_next_token(Token::Str(variant));
            proof {
                reveal_with_fuel(emit_run, 3);
                let run = seq![Token::Str(variant), Token::SeqStart { len: Option::Some(len) }];
                assert(run.drop_first() =~= seq![Token::SeqStart { len: Option::Some(len) }]);
                assert(run.drop_first().drop_first() =~= Seq::<Token>::empty());
            }
            if let Result::Err(e) = r {
                return Result::Err(e);
            }
            match self.assert_next_token(Token::SeqStart { len: Option::Some(len) }) {
                Result::Ok(()) => Result::Ok(ComplexSerializer { end: EndToken::SeqEnd }),
                Result::Err(e) => Result::Err(e),
            }
        } else {
            match self.assert_next_token(Token::TupleVariant { name, variant, len }) {
                Result::Ok(()) => Result::Ok(ComplexSerializer { end: EndToken::TupleVariantEnd }),
                Result::Err(e) => Result::Err(e),
            }
        }
    }

    /// The start of a struct variant, in the closed form or the open one (a
    /// map of known length after the tag).
    pub fn serialize_struct_variant(&mut self, name: &str, variant: &str, len: usize) -> (r: Result<
        ComplexSerializer,
        Error,
    >)
        requires
            old(self).wf(),
        ensures
            final(self).wf(),
            done_as(
                r,
                variant_run(
                    old(self).rest(),
                    name,
                    seq![Token::Str(variant), Token::MapStart { len: Option::Some(len) }],
                    Token::StructVariant { name, variant, len },
                ).0,
            ),
            r matches Result::Ok(c) ==> c.end_token() == (if opens_enum(old(self).rest(), name) {
                EndToken::MapEnd
            } else {
                EndToken::StructVariantEnd
            }),
            final(self).rest() == variant_run(
                old(self).rest(),
                name,
                seq![Token::Str(variant), Token::MapStart { len: Option::Some(len) }],
                Token::StructVariant { name, variant, len },
            ).1,
    {
        if self.take_open_enum(name) {
            let r = self.assert_next_token(Token::Str(variant));
            proof {
                reveal_with_fuel(emit_run, 3);
                let run = seq![Token::Str(variant), Token::MapStart { len: Option::Some(len) }];
                assert(run.drop_first() =~= seq![Token::MapStart { len: Option::Some(len) }]);
                assert(run.drop_first().drop_first() =~= Seq::<Token>::empty());
            }
            if let Result::Err(e) = r {
                return Result::Err(e);
            }
            match self.assert_next_token(Token::MapStart { len: Option::Some(len) }) {
                Result::Ok(()) => Result::Ok(ComplexSerializer { end: EndToken::MapEnd }),
                Result::Err(e) => Result::Err(e),
            }
        } else {
            match self.assert_next_token(Token::StructVariant { name, variant, len }) {
                Result::Ok(()) => Result::Ok(ComplexSerializer { end: EndToken::StructVariantEnd }),
                Result::Err(e) => Result::Err(e),
            }
        }
    }
}

/// Skipping struct field `key`: a `SkipStructField` token next must name it
/// and is taken; with any other token next, nothing is checked.
pub open spec fn skip_field_step<'a, 'b>(s: Seq<Token<'a>>, key: &'b str) -> (
    Result<(), Seq<char>>,
    Seq<Token<'a>>,
) {
    if s.len() > 0 && s[0] is SkipStructField {
        emit_step(s, Token::SkipStructField { name: key })
    } else {
        (Result::Ok(()), s)
    }
}

impl ComplexSerializer {
    /// The token that closes the region.
    pub closed spec fn end_token(&self) -> EndToken {
        self.end
    }

    /// A struct field named `key` is skipped.
    pub fn skip_field(&self, ser: &mut Serializer, key: &str) -> (r: Result<(), Error>)
        requires
            old(ser).wf(),
        ensures
            final(ser).wf(),
            done_as(r, skip_field_step(old(ser).rest(), key).0),
            final(ser).rest() == skip_field_step(old(ser).rest(), key).1,
    {
        match ser.first() {
            Option::Some(Token::SkipStructField { .. }) => ser.assert_next_token(
                Token::SkipStructField { name: key },
            ),
            _ => Result::Ok(()),
        }
    }

    /// Closes the region: its end token must be next.
    pub fn end(self, ser: &mut Serializer) -> (r: Result<(), Error>)
        requires
            old(ser).wf(),
        ensures
            final(ser).wf(),
            done_as(r, emit_step(old(ser).rest(), self.end_token().spec_token::<'_>()).0),
            final(ser).rest() == emit_step(old(ser).rest(), self.end_token().spec_token::<'_>()).1,
    {
        ser.assert_next_token(self.end.token())
    }
}

} // verus!
