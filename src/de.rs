use vstd::prelude::*;
use crate::error::{outcome_is, Error};
use crate::text::{push_token, token_text};
use crate::token::{
    is_closer, is_scalar, is_skip, same_token, str_eq, token_matches, EndToken, Token,
};

verus! {

/// What the decoder asks of the visitor that drives it.
#[derive(Clone, Copy, Debug, PartialEq)]
pub enum Visit<'a> {
    /// Visit the plain value that the token carries (a number, character,
    /// string or bytes), by the visitor method of the token's own kind.
    Scalar(Token<'a>),
    /// Visit an absent optional value.
    OptionNone,
    /// Visit a present optional value, decoded from the tokens that follow.
    OptionSome,
    /// Visit the unit value.
    Unit,
    /// Visit a newtype struct, whose field is decoded from the tokens that follow.
    NewtypeStruct,
    /// Visit a sequence of elements, with a length hint; the region ends with `end`.
    SeqAccess { len: Option<usize>, end: EndToken },
    /// Visit a map of keys and values, with a length hint; the region ends with `end`.
    MapAccess { len: Option<usize>, end: EndToken },
    /// Visit an enum, through the variant accessors of [`Deserializer`].
    Enum,
    /// Visit a single-entry map whose key is the variant tag and whose value is
    /// the payload, through an [`EnumMapVisitor`].
    EnumMap { variant: Token<'a>, format: EnumFormat },
}

/// The shape of the payload of an enum variant seen as a map entry.
#[derive(Clone, Copy, Debug, PartialEq, Eq, Structural)]
pub enum EnumFormat {
    /// Tuple variant: a sequence closed by `TupleVariantEnd`.
    Tuple,
    /// Struct variant: a map closed by `StructVariantEnd`.
    Struct,
    /// Any other payload, decoded from the tokens as they stand.
    Any,
}

/// What a variant accessor learns about the variant's tag.
#[derive(Clone, Copy, Debug, PartialEq)]
pub enum VariantTag<'a> {
    /// The tag is this name, already known from a closed-form variant token.
    Named(&'a str),
    /// The tag is decoded from the next token.
    Decode,
}

/// The first token that is not a skipped field, if any.
pub open spec fn peek_of<'a>(s: Seq<Token<'a>>) -> Option<Token<'a>>
    decreases s.len(),
{
    if s.len() == 0 {
        Option::None
    } else if is_skip(s[0]) {
        peek_of(s.drop_first())
    } else {
        Option::Some(s[0])
    }
}

/// What is left after taking the first token that is not a skipped field;
/// the skipped fields before it go too.
pub open spec fn after_next<'a>(s: Seq<Token<'a>>) -> Seq<Token<'a>>
    decreases s.len(),
{
    if s.len() == 0 {
        s
    } else if is_skip(s[0]) {
        after_next(s.drop_first())
    } else {
        s.drop_first()
    }
}

pub open spec fn end_of_tokens_text() -> Seq<char> {
    "ran out of tokens to deserialize"@
}

pub open spec fn unexpected_text(t: Token) -> Seq<char> {
    "deserialization did not expect this token: "@ + token_text(t)
}

/// The message when the script holds `found` where decoding wants `wanted`.
pub open spec fn wants_text(found: Token, wanted: Token) -> Seq<char> {
    "expected Token::"@ + token_text(found) + " but deserialization wants Token::"@ + token_text(
        wanted,
    )
}

/// The message when the script has ended where decoding wants `wanted`.
pub open spec fn wants_after_end_text(wanted: Token) -> Seq<char> {
    "end of tokens but deserialization wants Token::"@ + token_text(wanted)
}

/// The error for a token that decoding did not expect.
pub fn unexpected(token: Token) -> (r: Error)
    ensures
        r@ == unexpected_text(token),
{
    let mut m = String::new();
    m.append("deserialization did not expect this token: ");
    push_token(&mut m, &token);
    Error::from_message(m)
}

/// The error for a script that ended too soon.
pub fn end_of_tokens() -> (r: Error)
    ensures
        r@ == end_of_tokens_text(),
{
    Error::new("ran out of tokens to deserialize")
}

/// Taking the next token, expecting `expected`: the outcome and what is left.
pub open spec fn expect_step<'a, 'b>(s: Seq<Token<'a>>, expected: Token<'b>) -> (
    Result<(), Seq<char>>,
    Seq<Token<'a>>,
) {
    match peek_of(s) {
        Option::Some(t) => if same_token(t, expected) {
            (Result::Ok(()), after_next(s))
        } else {
            (Result::Err(wants_text(t, expected)), after_next(s))
        },
        Option::None => (Result::Err(wants_after_end_text(expected)), after_next(s)),
    }
}

/// What the visitor is asked to do for one token read by the generic path.
/// The generic path reads an `Enum` token together with its tag
/// (`open_enum_step`), so the `Enum` case here is never the one it takes.
pub open spec fn any_visit<'a>(t: Token<'a>) -> Result<Visit<'a>, Seq<char>> {
    if is_scalar(t) {
        Result::Ok(Visit::Scalar(t))
    } else if is_closer(t) || is_skip(t) {
        Result::Err(unexpected_text(t))
    } else {
        match t {
            Token::OptionNone => Result::Ok(Visit::OptionNone),
            Token::OptionSome => Result::Ok(Visit::OptionSome),
            Token::Unit => Result::Ok(Visit::Unit),
            Token::UnitStruct { .. } => Result::Ok(Visit::Unit),
            Token::NewtypeStruct { .. } => Result::Ok(Visit::NewtypeStruct),
            Token::SeqStart { len } => Result::Ok(Visit::SeqAccess { len, end: EndToken::SeqEnd }),
            Token::Tuple { len } => Result::Ok(
                Visit::SeqAccess { len: Option::Some(len), end: EndToken::TupleEnd },
            ),
            Token::TupleStruct { len, .. } => Result::Ok(
                Visit::SeqAccess { len: Option::Some(len), end: EndToken::TupleStructEnd },
            ),
            Token::MapStart { len } => Result::Ok(Visit::MapAccess { len, end: EndToken::MapEnd }),
            Token::Struct { len, .. } => Result::Ok(
                Visit::MapAccess { len: Option::Some(len), end: EndToken::StructEnd },
            ),
            Token::UnitVariant { variant, .. } => Result::Ok(Visit::Scalar(Token::Str(variant))),
            Token::NewtypeVariant { variant, .. } => Result::Ok(
                Visit::EnumMap { variant: Token::Str(variant), format: EnumFormat::Any },
            ),
            Token::TupleVariant { variant, .. } => Result::Ok(
                Visit::EnumMap { variant: Token::Str(variant), format: EnumFormat::Tuple },
            ),
            Token::StructVariant { variant, .. } => Result::Ok(
                Visit::EnumMap { variant: Token::Str(variant), format: EnumFormat::Struct },
            ),
            _ => Result::Ok(Visit::Enum),
        }
    }
}

/// A token that can stand for a variant tag of the open enum form.
pub open spec fn is_tag(t: Token) -> bool {
    ||| t is Str
    ||| t is BorrowedStr
    ||| t is String
    ||| t is Bytes
    ||| t is BorrowedBytes
    ||| t is ByteBuf
    ||| t is U8
    ||| t is U16
    ||| t is U32
    ||| t is U64
}

/// The generic path after an `Enum` token: the tag, then a look at the next
/// token; a `Unit` there makes it a unit variant.
pub open spec fn open_enum_step<'a>(s: Seq<Token<'a>>) -> (
    Result<Visit<'a>, Seq<char>>,
    Seq<Token<'a>>,
) {
    match peek_of(s) {
        Option::None => (Result::Err(end_of_tokens_text()), after_next(s)),
        Option::Some(v) => {
            let s2 = after_next(s);
            match peek_of(s2) {
                Option::None => (Result::Err(end_of_tokens_text()), s2),
                Option::Some(n) => if n is Unit {
                    if is_tag(v) {
                        (Result::Ok(Visit::Scalar(v)), after_next(s2))
                    } else {
                        (Result::Err(unexpected_text(v)), s2)
                    }
                } else {
                    (Result::Ok(Visit::EnumMap { variant: v, format: EnumFormat::Any }), s2)
                },
            }
        },
    }
}

/// The generic path: the next token alone decides what the visitor is asked.
pub open spec fn any_step<'a>(s: Seq<Token<'a>>) -> (Result<Visit<'a>, Seq<char>>, Seq<Token<'a>>) {
    match peek_of(s) {
        Option::None => (Result::Err(end_of_tokens_text()), after_next(s)),
        Option::Some(t) => if t is Enum {
            open_enum_step(after_next(s))
        } else {
            (any_visit(t), after_next(s))
        },
    }
}

/// A step that first takes `expected`, then asks for `v`.
pub open spec fn expect_then<'a, 'b>(s: Seq<Token<'a>>, expected: Token<'b>, v: Visit<'a>) -> (
    Result<Visit<'a>, Seq<char>>,
    Seq<Token<'a>>,
) {
    let e = expect_step(s, expected);
    match e.0 {
        Result::Ok(_) => (Result::Ok(v), e.1),
        Result::Err(m) => (Result::Err(m), e.1),
    }
}

/// Decoding an `Option`: `OptionNone` and `Unit` both mean absent.
pub open spec fn option_step<'a>(s: Seq<Token<'a>>) -> (Result<Visit<'a>, Seq<char>>, Seq<Token<'a>>) {
    match peek_of(s) {
        Option::None => (Result::Err(end_of_tokens_text()), s),
        Option::Some(t) => if t is Unit || t is OptionNone {
            (Result::Ok(Visit::OptionNone), after_next(s))
        } else if t is OptionSome {
            (Result::Ok(Visit::OptionSome), after_next(s))
        } else {
            any_step(s)
        },
    }
}

/// Decoding a unit struct named `name`.
pub open spec fn unit_struct_step<'a, 'b>(s: Seq<Token<'a>>, name: &'b str) -> (
    Result<Visit<'a>, Seq<char>>,
    Seq<Token<'a>>,
) {
    match peek_of(s) {
        Option::None => (Result::Err(end_of_tokens_text()), s),
        Option::Some(t) => if t is UnitStruct {
            expect_then(s, Token::UnitStruct { name }, Visit::Unit)
        } else {
            any_step(s)
        },
    }
}

/// Decoding a newtype struct named `name`.
pub open spec fn newtype_struct_step<'a, 'b>(s: Seq<Token<'a>>, name: &'b str) -> (
    Result<Visit<'a>, Seq<char>>,
    Seq<Token<'a>>,
) {
    match peek_of(s) {
        Option::None => (Result::Err(end_of_tokens_text()), s),
        Option::Some(t) => if t is NewtypeStruct {
            expect_then(s, Token::NewtypeStruct { name }, Visit::NewtypeStruct)
        } else {
            any_step(s)
        },
    }
}

/// Decoding a tuple of `len` elements.
pub open spec fn tuple_step<'a>(s: Seq<Token<'a>>, len: usize) -> (
    Result<Visit<'a>, Seq<char>>,
    Seq<Token<'a>>,
) {
    match peek_of(s) {
        Option::None => (Result::Err(end_of_tokens_text()), s),
        Option::Some(t) => if t is Unit || t is UnitStruct {
            (Result::Ok(Visit::Unit), after_next(s))
        } else if t is SeqStart {
            (
                Result::Ok(Visit::SeqAccess { len: Option::Some(len), end: EndToken::SeqEnd }),
                after_next(s),
            )
        } else if t is Tuple {
            (
                Result::Ok(Visit::SeqAccess { len: Option::Some(len), end: EndToken::TupleEnd }),
                after_next(s),
            )
        } else if t is TupleStruct {
            (
                Result::Ok(Visit::SeqAccess { len: Option::Some(len), end: EndToken::TupleStructEnd }),
                after_next(s),
            )
        } else {
            any_step(s)
        },
    }
}

/// Decoding a tuple struct named `name` of `len` fields. A `TupleStruct`
/// opener must carry both that name and that length.
pub open spec fn tuple_struct_step<'a, 'b>(s: Seq<Token<'a>>, name: &'b str, len: usize) -> (
    Result<Visit<'a>, Seq<char>>,
    Seq<Token<'a>>,
) {
    match peek_of(s) {
        Option::None => (Result::Err(end_of_tokens_text()), s),
        Option::Some(t) => match t {
            Token::Unit => (Result::Ok(Visit::Unit), after_next(s)),
            Token::UnitStruct { .. } => expect_then(s, Token::UnitStruct { name }, Visit::Unit),
            Token::SeqStart { .. } => (
                Result::Ok(Visit::SeqAccess { len: Option::Some(len), end: EndToken::SeqEnd }),
                after_next(s),
            ),
            Token::Tuple { .. } => (
                Result::Ok(Visit::SeqAccess { len: Option::Some(len), end: EndToken::TupleEnd }),
                after_next(s),
            ),
            Token::TupleStruct { .. } => expect_then(
                s,
                Token::TupleStruct { name, len },
                Visit::SeqAccess { len: Option::Some(len), end: EndToken::TupleStructEnd },
            ),
            _ => any_step(s),
        },
    }
}

/// Decoding a struct named `name` with `n_fields` fields.
pub open spec fn struct_step<'a, 'b>(s: Seq<Token<'a>>, name: &'b str, n_fields: usize) -> (
    Result<Visit<'a>, Seq<char>>,
    Seq<Token<'a>>,
) {
    match peek_of(s) {
        Option::None => (Result::Err(end_of_tokens_text()), s),
        Option::Some(t) => match t {
            Token::Struct { len: n, .. } => expect_then(
                s,
                Token::Struct { name, len: n },
                Visit::MapAccess { len: Option::Some(n_fields), end: EndToken::StructEnd },
            ),
            Token::MapStart { .. } => (
                Result::Ok(Visit::MapAccess { len: Option::Some(n_fields), end: EndToken::MapEnd }),
                after_next(s),
            ),
            _ => any_step(s),
        },
    }
}

/// The enum name that a closed-form variant token carries.
pub open spec fn closed_variant_enum(t: Token) -> Option<Seq<char>> {
    match t {
        Token::UnitVariant { name, .. } => Option::Some(name@),
        Token::NewtypeVariant { name, .. } => Option::Some(name@),
        Token::TupleVariant { name, .. } => Option::Some(name@),
        Token::StructVariant { name, .. } => Option::Some(name@),
        _ => Option::None,
    }
}

/// Decoding an enum named `name`.
pub open spec fn enum_step<'a, 'b>(s: Seq<Token<'a>>, name: &'b str) -> (
    Result<Visit<'a>, Seq<char>>,
    Seq<Token<'a>>,
) {
    match peek_of(s) {
        Option::None => (Result::Err(end_of_tokens_text()), s),
        Option::Some(t) => if (t matches Token::Enum { name: n } && n@ == name@) {
            (Result::Ok(Visit::Enum), after_next(s))
        } else if closed_variant_enum(t) == Option::Some(name@) {
            (Result::Ok(Visit::Enum), s)
        } else {
            any_step(s)
        },
    }
}

/// The tag of the variant that is about to be decoded.
pub open spec fn variant_tag_of<'a>(s: Seq<Token<'a>>) -> Result<VariantTag<'a>, Seq<char>> {
    match peek_of(s) {
        Option::None => Result::Err(end_of_tokens_text()),
        Option::Some(t) => match t {
            Token::UnitVariant { variant, .. } => Result::Ok(VariantTag::Named(variant)),
            Token::NewtypeVariant { variant, .. } => Result::Ok(VariantTag::Named(variant)),
            Token::TupleVariant { variant, .. } => Result::Ok(VariantTag::Named(variant)),
            Token::StructVariant { variant, .. } => Result::Ok(VariantTag::Named(variant)),
            _ => Result::Ok(VariantTag::Decode),
        },
    }
}

/// The payload of a unit variant: `true` when a `UnitVariant` token held it
/// whole, `false` when a unit is still to be decoded.
pub open spec fn unit_variant_step<'a>(s: Seq<Token<'a>>) -> (Result<bool, Seq<char>>, Seq<Token<'a>>) {
    match peek_of(s) {
        Option::None => (Result::Err(end_of_tokens_text()), s),
        Option::Some(t) => if t is UnitVariant {
            (Result::Ok(true), after_next(s))
        } else {
            (Result::Ok(false), s)
        },
    }
}

/// Before the payload of a newtype variant: its `NewtypeVariant` token, if
/// it is next, is taken.
pub open spec fn newtype_variant_step<'a>(s: Seq<Token<'a>>) -> (Result<(), Seq<char>>, Seq<Token<'a>>) {
    match peek_of(s) {
        Option::None => (Result::Err(end_of_tokens_text()), s),
        Option::Some(t) => if t is NewtypeVariant {
            (Result::Ok(()), after_next(s))
        } else {
            (Result::Ok(()), s)
        },
    }
}

/// The payload of a tuple variant of `len` fields: a `TupleVariant` token, or
/// a sequence with that exact length.
pub open spec fn tuple_variant_step<'a>(s: Seq<Token<'a>>, len: usize) -> (
    Result<Visit<'a>, Seq<char>>,
    Seq<Token<'a>>,
) {
    match peek_of(s) {
        Option::None => (Result::Err(end_of_tokens_text()), s),
        Option::Some(t) => match t {
            Token::TupleVariant { len: n, .. } => (
                if n == len {
                    Result::Ok(
                        Visit::SeqAccess { len: Option::Some(len), end: EndToken::TupleVariantEnd },
                    )
                } else {
                    Result::Err(unexpected_text(t))
                },
                after_next(s),
            ),
            Token::SeqStart { len: Option::Some(n) } => (
                if n == len {
                    Result::Ok(Visit::SeqAccess { len: Option::Some(len), end: EndToken::SeqEnd })
                } else {
                    Result::Err(unexpected_text(t))
                },
                after_next(s),
            ),
            _ => any_step(s),
        },
    }
}

/// The payload of a struct variant of `n_fields` fields: a `StructVariant`
/// token, or a map with that exact length.
pub open spec fn struct_variant_step<'a>(s: Seq<Token<'a>>, n_fields: usize) -> (
    Result<Visit<'a>, Seq<char>>,
    Seq<Token<'a>>,
) {
    match peek_of(s) {
        Option::None => (Result::Err(end_of_tokens_text()), s),
        Option::Some(t) => match t {
            Token::StructVariant { len: n, .. } => (
                if n == n_fields {
                    Result::Ok(
                        Visit::MapAccess {
                            len: Option::Some(n_fields),
                            end: EndToken::StructVariantEnd,
                        },
                    )
                } else {
                    Result::Err(unexpected_text(t))
                },
                after_next(s),
            ),
            Token::MapStart { len: Option::Some(n) } => (
                if n == n_fields {
                    Result::Ok(Visit::MapAccess { len: Option::Some(n_fields), end: EndToken::MapEnd })
                } else {
                    Result::Err(unexpected_text(t))
                },
                after_next(s),
            ),
            _ => any_step(s),
        },
    }
}

/// A cursor over a token script that a decoder reads from.
#[derive(Debug)]
pub struct Deserializer<'a> {
    tokens: &'a [Token<'a>],
    pos: usize,
}

impl<'a> Deserializer<'a> {
    /// The cursor stands within the script.
    pub closed spec fn wf(&self) -> bool {
        self.pos <= self.tokens@.len()
    }

    /// The tokens not yet read, skipped fields included.
    pub closed spec fn rest(&self) -> Seq<Token<'a>> {
        self.tokens@.subrange(self.pos as int, self.tokens@.len() as int)
    }

    /// A cursor at the start of `tokens`.
    pub fn new(tokens: &'a [Token<'a>]) -> (r: Self)
        ensures
            r.wf(),
            r.rest() == tokens@,
    {
        let r = Deserializer { tokens, pos: 0 };
        assert(r.rest() =~= tokens@);
        r
    }

    /// The next token that is not a skipped field, without taking it.
    pub fn peek_token_opt(&self) -> (r: Option<Token<'a>>)
        requires
            self.wf(),
        ensures
            r == peek_of(self.rest()),
    {
        let mut i: usize = self.pos;
        loop
            invariant
                self.pos <= i <= self.tokens@.len(),
                peek_of(self.tokens@.subrange(i as int, self.tokens@.len() as int)) == peek_of(
                    self.rest(),
                ),
            decreases self.tokens@.len() - i,
        {
            let ghost s = self.tokens@.subrange(i as int, self.tokens@.len() as int);
            if i >= self.tokens.len() {
                return Option::None;
            }
            let t = self.tokens[i];
            assert(self.tokens@.subrange(i + 1, self.tokens@.len() as int) =~= s.drop_first());
            match t {
                Token::SkipStructField { .. } => {
                    i = i + 1;
                },
                _ => {
                    return Option::Some(t);
                },
            }
        }
    }

    /// The next token that is not a skipped field, or an error at the end.
    pub fn peek_token(&self) -> (r: Result<Token<'a>, Error>)
        requires
            self.wf(),
        ensures
            outcome_is(
                r,
                match peek_of(self.rest()) {
                    Option::Some(t) => Result::Ok(t),
                    Option::None => Result::Err(end_of_tokens_text()),
                },
            ),
    {
        match self.peek_token_opt() {
            Option::Some(t) => Result::Ok(t),
            Option::None => Result::Err(end_of_tokens()),
        }
    }

    /// Takes the next token that is not a skipped field, and the skipped
    /// fields before it.
    pub fn next_token_opt(&mut self) -> (r: Option<Token<'a>>)
        requires
            old(self).wf(),
        ensures
            final(self).wf(),
            r == peek_of(old(self).rest()),
            final(self).rest() == after_next(old(self).rest()),
    {
        loop
            invariant
                self.wf(),
                self.tokens == old(self).tokens,
                peek_of(self.rest()) == peek_of(old(self).rest()),
                after_next(self.rest()) == after_next(old(self).rest()),
            decreases self.tokens@.len() - self.pos,
        {
            let ghost s = self.rest();
            if self.pos >= self.tokens.len() {
                return Option::None;
            }
            let t = self.tokens[self.pos];
            self.pos = self.pos + 1;
            assert(self.rest() =~= s.drop_first());
            match t {
                Token::SkipStructField { .. } => {},
                _ => {
                    return Option::Some(t);
                },
            }
        }
    }

    /// Takes the next token that is not a skipped field, or fails at the end.
    pub fn next_token(&mut self) -> (r: Result<Token<'a>, Error>)
        requires
            old(self).wf(),
        ensures
            final(self).wf(),
            outcome_is(
                r,
                match peek_of(old(self).rest()) {
                    Option::Some(t) => Result::Ok(t),
                    Option::None => Result::Err(end_of_tokens_text()),
                },
            ),
            final(self).rest() == after_next(old(self).rest()),
    {
        match self.next_token_opt() {
            Option::Some(t) => Result::Ok(t),
            Option::None => Result::Err(end_of_tokens()),
        }
    }

    /// How many tokens are left, skipped fields included.
    pub fn remaining(&self) -> (r: usize)
        requires
            self.wf(),
        ensures
            r == self.rest().len(),
    {
        self.tokens.len() - self.pos
    }

    /// Takes the next token, which must be `expected`.
    pub fn assert_next_token<'b>(&mut self, expected: Token<'b>) -> (r: Result<(), Error>)
        requires
            old(self).wf(),
        ensures
            final(self).wf(),
            outcome_is(r, expect_step(old(self).rest(), expected).0),
            final(self).rest() == expect_step(old(self).rest(), expected).1,
    {
        match self.next_token_opt() {
            Option::Some(t) => {
                if token_matches(&t, &expected) {
                    Result::Ok(())
                } else {
                    let mut m = String::new();
                    m.append("expected Token::");
                    push_token(&mut m, &t);
                    m.append(" but deserialization wants Token::");
                    push_token(&mut m, &expected);
                    proof {
                        assert(m@ =~= wants_text(t, expected));
                    }
                    Result::Err(Error::from_message(m))
                }
            },
            Option::None => {
                let mut m = String::new();
                m.append("end of tokens but deserialization wants Token::");
                push_token(&mut m, &expected);
                Result::Err(Error::from_message(m))
            },
        }
    }

    /// Closes a composite region: takes its end token.
    pub fn expect_end(&mut self, end: EndToken) -> (r: Result<(), Error>)
        requires
            old(self).wf(),
        ensures
            final(self).wf(),
            outcome_is(r, expect_step(old(self).rest(), end.spec_token::<'a>()).0),
            final(self).rest() == expect_step(old(self).rest(), end.spec_token::<'a>()).1,
    {
        self.assert_next_token(end.token())
    }

    /// The generic path: decides from the next token alone what the visitor
    /// is asked, and takes the tokens that decide it.
    pub fn deserialize_any(&mut self) -> (r: Result<Visit<'a>, Error>)
        requires
            old(self).wf(),
        ensures
            final(self).wf(),
            outcome_is(r, any_step(old(self).rest()).0),
            final(self).rest() == any_step(old(self).rest()).1,
    {
        let token = match self.next_token_opt() {
            Option::Some(t) => t,
            Option::None => {
                return Result::Err(end_of_tokens());
            },
        };
        match token {
            Token::Enum { .. } => {
                let variant = match self.next_token_opt() {
                    Option::Some(v) => v,
                    Option::None => {
                        return Result::Err(end_of_tokens());
                    },
                };
                let next = match self.peek_token_opt() {
                    Option::Some(n) => n,
                    Option::None => {
                        return Result::Err(end_of_tokens());
                    },
                };
                match next {
                    Token::Unit => {
                        if is_tag_token(&variant) {
                            self.next_token_opt();
                            Result::Ok(Visit::Scalar(variant))
                        } else {
                            Result::Err(unexpected(variant))
                        }
                    },
                    _ => Result::Ok(Visit::EnumMap { variant, format: EnumFormat::Any }),
                }
            },
            _ => visit_for(token),
        }
    }
}

impl<'a> Deserializer<'a> {
    /// Decoding an `Option`.
    pub fn deserialize_option(&mut self) -> (r: Result<Visit<'a>, Error>)
        requires
            old(self).wf(),
        ensures
            final(self).wf(),
            outcome_is(r, option_step(old(self).rest()).0),
            final(self).rest() == option_step(old(self).rest()).1,
    {
        let t = match self.peek_token_opt() {
            Option::Some(t) => t,
            Option::None => {
                return Result::Err(end_of_tokens());
            },
        };
        match t {
            Token::Unit | Token::OptionNone => {
                self.next_token_opt();
                Result::Ok(Visit::OptionNone)
            },
            Token::OptionSome => {
                self.next_token_opt();
                Result::Ok(Visit::OptionSome)
            },
            _ => self.deserialize_any(),
        }
    }

    /// Decoding a unit struct named `name`.
    pub fn deserialize_unit_struct(&mut self, name: &str) -> (r: Result<Visit<'a>, Error>)
        requires
            old(self).wf(),
        ensures
            final(self).wf(),
            outcome_is(r, unit_struct_step(old(self).rest(), name).0),
            final(self).rest() == unit_struct_step(old(self).rest(), name).1,
    {
        let t = match self.peek_token_opt() {
            Option::Some(t) => t,
            Option::None => {
                return Result::Err(end_of_tokens());
            },
        };
        match t {
            Token::UnitStruct { .. } => {
                match self.assert_next_token(Token::UnitStruct { name }) {
                    Result::Ok(()) => Result::Ok(Visit::Unit),
                    Result::Err(e) => Result::Err(e),
                }
            },
            _ => self.deserialize_any(),
        }
    }

    /// Decoding a newtype struct named `name`.
    pub fn deserialize_newtype_struct(&mut self, name: &str) -> (r: Result<Visit<'a>, Error>)
        requires
            old(self).wf(),
        ensures
            final(self).wf(),
            outcome_is(r, newtype_struct_step(old(self).rest(), name).0),
            final(self).rest() == newtype_struct_step(old(self).rest(), name).1,
    {
        let t = match self.peek_token_opt() {
            Option::Some(t) => t,
            Option::None => {
                return Result::Err(end_of_tokens());
            },
        };
        match t {
            Token::NewtypeStruct { .. } => {
                match self.assert_next_token(Token::NewtypeStruct { name }) {
                    Result::Ok(()) => Result::Ok(Visit::NewtypeStruct),
                    Result::Err(e) => Result::Err(e),
                }
            },
            _ => self.deserialize_any(),
        }
    }

    /// Decoding a tuple of `len` elements.
    pub fn deserialize_tuple(&mut self, len: usize) -> (r: Result<Visit<'a>, Error>)
        requires
            old(self).wf(),
        ensures
            final(self).wf(),
            outcome_is(r, tuple_step(old(self).rest(), len).0),
            final(self).rest() == tuple_step(old(self).rest(), len).1,
    {
        let t = match self.peek_token_opt() {
            Option::Some(t) => t,
            Option::None => {
                return Result::Err(end_of_tokens());
            },
        };
        match t {
            Token::Unit | Token::UnitStruct { .. } => {
                self.next_token_opt();
                Result::Ok(Visit::Unit)
            },
            Token::SeqStart { .. } => {
                self.next_token_opt();
                Result::Ok(Visit::SeqAccess { len: Option::Some(len), end: EndToken::SeqEnd })
            },
            Token::Tuple { .. } => {
                self.next_token_opt();
                Result::Ok(Visit::SeqAccess { len: Option::Some(len), end: EndToken::TupleEnd })
            },
            Token::TupleStruct { .. } => {
                self.next_token_opt();
                Result::Ok(Visit::SeqAccess { len: Option::Some(len), end: EndToken::TupleStructEnd })
            },
            _ => self.deserialize_any(),
        }
    }

    /// Decoding a tuple struct named `name` of `len` fields; a `TupleStruct`
    /// opener must carry both that name and that length.
    pub fn deserialize_tuple_struct(&mut self, name: &str, len: usize) -> (r: Result<
        Visit<'a>,
        Error,
    >)
        requires
            old(self).wf(),
        ensures
            final(self).wf(),
            outcome_is(r, tuple_struct_step(old(self).rest(), name, len).0),
            final(self).rest() == tuple_struct_step(old(self).rest(), name, len).1,
    {
        let t = match self.peek_token_opt() {
            Option::Some(t) => t,
            Option::None => {
                return Result::Err(end_of_tokens());
            },
        };
        match t {
            Token::Unit => {
                self.next_token_opt();
                Result::Ok(Visit::Unit)
            },
            Token::UnitStruct { .. } => {
                match self.assert_next_token(Token::UnitStruct { name }) {
                    Result::Ok(()) => Result::Ok(Visit::Unit),
                    Result::Err(e) => Result::Err(e),
                }
            },
            Token::SeqStart { .. } => {
                self.next_token_opt();
                Result::Ok(Visit::SeqAccess { len: Option::Some(len), end: EndToken::SeqEnd })
            },
            Token::Tuple { .. } => {
                self.next_token_opt();
                Result::Ok(Visit::SeqAccess { len: Option::Some(len), end: EndToken::TupleEnd })
            },
            Token::TupleStruct { .. } => {
                match self.assert_next_token(Token::TupleStruct { name, len }) {
                    Result::Ok(()) => Result::Ok(
                        Visit::SeqAccess { len: Option::Some(len), end: EndToken::TupleStructEnd },
                    ),
                    Result::Err(e) => Result::Err(e),
                }
            },
            _ => self.deserialize_any(),
        }
    }

    /// Decoding a struct named `name` whose fields are `fields`.
    pub fn deserialize_struct(&mut self, name: &str, fields: &[&str]) -> (r: Result<
        Visit<'a>,
        Error,
    >)
        requires
            old(self).wf(),
        ensures
            final(self).wf(),
            outcome_is(r, struct_step(old(self).rest(), name, fields@.len() as usize).0),
            final(self).rest() == struct_step(old(self).rest(), name, fields@.len() as usize).1,
    {
        let t = match self.peek_token_opt() {
            Option::Some(t) => t,
            Option::None => {
                return Result::Err(end_of_tokens());
            },
        };
        match t {
            Token::Struct { len: n, .. } => {
                match self.assert_next_token(Token::Struct { name, len: n }) {
                    Result::Ok(()) => Result::Ok(
                        Visit::MapAccess { len: Option::Some(fields.len()), end: EndToken::StructEnd },
                    ),
                    Result::Err(e) => Result::Err(e),
                }
            },
            Token::MapStart { .. } => {
                self.next_token_opt();
                Result::Ok(Visit::MapAccess { len: Option::Some(fields.len()), end: EndToken::MapEnd })
            },
            _ => self.deserialize_any(),
        }
    }

    /// Decoding an enum named `name`.
    pub fn deserialize_enum(&mut self, name: &str) -> (r: Result<Visit<'a>, Error>)
        requires
            old(self).wf(),
        ensures
            final(self).wf(),
            outcome_is(r, enum_step(old(self).rest(), name).0),
            final(self).rest() == enum_step(old(self).rest(), name).1,
    {
        let t = match self.peek_token_opt() {
            Option::Some(t) => t,
            Option::None => {
                return Result::Err(end_of_tokens());
            },
        };
        match t {
            Token::Enum { name: n } => {
                if str_eq(n, name) {
                    self.next_token_opt();
                    return Result::Ok(Visit::Enum);
                }
            },
            Token::UnitVariant { name: n, .. } | Token::NewtypeVariant { name: n, .. }
            | Token::TupleVariant { name: n, .. } | Token::StructVariant { name: n, .. } => {
                if str_eq(n, name) {
                    return Result::Ok(Visit::Enum);
                }
            },
            _ => {},
        }
        self.deserialize_any()
    }

    /// The tag of the variant that is about to be decoded; takes nothing.
    pub fn variant_tag(&self) -> (r: Result<VariantTag<'a>, Error>)
        requires
            self.wf(),
        ensures
            outcome_is(r, variant_tag_of(self.rest())),
    {
        let t = match self.peek_token_opt() {
            Option::Some(t) => t,
            Option::None => {
                return Result::Err(end_of_tokens());
            },
        };
        match t {
            Token::UnitVariant { variant, .. } | Token::NewtypeVariant { variant, .. }
            | Token::TupleVariant { variant, .. } | Token::StructVariant { variant, .. } => {
                Result::Ok(VariantTag::Named(variant))
            },
            _ => Result::Ok(VariantTag::Decode),
        }
    }

    /// The payload of a unit variant: `true` when a `UnitVariant` token held
    /// it whole, `false` when a unit is still to be decoded.
    pub fn unit_variant(&mut self) -> (r: Result<bool, Error>)
        requires
            old(self).wf(),
        ensures
            final(self).wf(),
            outcome_is(r, unit_variant_step(old(self).rest()).0),
            final(self).rest() == unit_variant_step(old(self).rest()).1,
    {
        let t = match self.peek_token_opt() {
            Option::Some(t) => t,
            Option::None => {
                return Result::Err(end_of_tokens());
            },
        };
        match t {
            Token::UnitVariant { .. } => {
                self.next_token_opt();
                Result::Ok(true)
            },
            _ => Result::Ok(false),
        }
    }

    /// Before the payload of a newtype variant, which is then decoded from
    /// the tokens that follow.
    pub fn newtype_variant(&mut self) -> (r: Result<(), Error>)
        requires
            old(self).wf(),
        ensures
            final(self).wf(),
            outcome_is(r, newtype_variant_step(old(self).rest()).0),
            final(self).rest() == newtype_variant_step(old(self).rest()).1,
    {
        let t = match self.peek_token_opt() {
            Option::Some(t) => t,
            Option::None => {
                return Result::Err(end_of_tokens());
            },
        };
        match t {
            Token::NewtypeVariant { .. } => {
                self.next_token_opt();
                Result::Ok(())
            },
            _ => Result::Ok(()),
        }
    }

    /// The payload of a tuple variant of `len` fields.
    pub fn tuple_variant(&mut self, len: usize) -> (r: Result<Visit<'a>, Error>)
        requires
            old(self).wf(),
        ensures
            final(self).wf(),
            outcome_is(r, tuple_variant_step(old(self).rest(), len).0),
            final(self).rest() == tuple_variant_step(old(self).rest(), len).1,
    {
        let t = match self.peek_token_opt() {
            Option::Some(t) => t,
            Option::None => {
                return Result::Err(end_of_tokens());
            },
        };
        match t {
            Token::TupleVariant { len: n, .. } => {
                self.next_token_opt();
                if n == len {
                    Result::Ok(
                        Visit::SeqAccess { len: Option::Some(len), end: EndToken::TupleVariantEnd },
                    )
                } else {
                    Result::Err(unexpected(t))
                }
            },
            Token::SeqStart { len: Option::Some(n) } => {
                self.next_token_opt();
                if n == len {
                    Result::Ok(Visit::SeqAccess { len: Option::Some(len), end: EndToken::SeqEnd })
                } else {
                    Result::Err(unexpected(t))
                }
            },
            _ => self.deserialize_any(),
        }
    }

    /// The payload of a struct variant whose fields are `fields`.
    pub fn struct_variant(&mut self, fields: &[&str]) -> (r: Result<Visit<'a>, Error>)
        requires
            old(self).wf(),
        ensures
            final(self).wf(),
            outcome_is(r, struct_variant_step(old(self).rest(), fields@.len() as usize).0),
            final(self).rest() == struct_variant_step(old(self).rest(), fields@.len() as usize).1,
    {
        let t = match self.peek_token_opt() {
            Option::Some(t) => t,
            Option::None => {
                return Result::Err(end_of_tokens());
            },
        };
        match t {
            Token::StructVariant { len: n, .. } => {
                self.next_token_opt();
                if n == fields.len() {
                    Result::Ok(
                        Visit::MapAccess {
                            len: Option::Some(fields.len()),
                            end: EndToken::StructVariantEnd,
                        },
                    )
                } else {
                    Result::Err(unexpected(t))
                }
            },
            Token::MapStart { len: Option::Some(n) } => {
                self.next_token_opt();
                if n == fields.len() {
                    Result::Ok(Visit::MapAccess { len: Option::Some(fields.len()), end: EndToken::MapEnd })
                } else {
                    Result::Err(unexpected(t))
                }
            },
            _ => self.deserialize_any(),
        }
    }
}

/// The next token closes the region that `end` closes.
pub open spec fn at_end<'a>(s: Seq<Token<'a>>, end: EndToken) -> bool {
    match peek_of(s) {
        Option::Some(t) => same_token(t, end.spec_token::<'a>()),
        Option::None => false,
    }
}

/// One less, stopping at zero; no hint stays no hint.
pub open spec fn hint_after_entry(len: Option<usize>) -> Option<usize> {
    match len {
        Option::Some(n) => Option::Some(if n == 0 { 0 } else { (n - 1) as usize }),
        Option::None => Option::None,
    }
}

/// The state of a sequence or map being read: the length hint left and the
/// token that closes it.
#[derive(Clone, Copy, Debug)]
pub struct CompositeAccess {
    len: Option<usize>,
    end: EndToken,
}

impl CompositeAccess {
    /// The length hint that is left.
    pub closed spec fn len_hint(&self) -> Option<usize> {
        self.len
    }

    /// The token that closes the region.
    pub closed spec fn end_token(&self) -> EndToken {
        self.end
    }

    pub fn new(len: Option<usize>, end: EndToken) -> (r: Self)
        ensures
            r.len_hint() == len,
            r.end_token() == end,
    {
        CompositeAccess { len, end }
    }

    /// Whether another element (or key) follows; when one does, the hint
    /// counts it. Takes no token.
    pub fn next_entry(&mut self, de: &Deserializer) -> (r: bool)
        requires
            de.wf(),
        ensures
            r == !at_end(de.rest(), old(self).end_token()),
            final(self).end_token() == old(self).end_token(),
            final(self).len_hint() == if r {
                hint_after_entry(old(self).len_hint())
            } else {
                old(self).len_hint()
            },
    {
        let closer = self.end.token();
        match de.peek_token_opt() {
            Option::Some(t) => {
                if token_matches(&t, &closer) {
                    return false;
                }
            },
            Option::None => {},
        }
        self.len = match self.len {
            Option::Some(n) => Option::Some(n.saturating_sub(1)),
            Option::None => Option::None,
        };
        true
    }

    /// The length hint that is left.
    pub fn size_hint(&self) -> (r: Option<usize>)
        ensures
            r == self.len_hint(),
    {
        self.len
    }
}

/// A tag that the enum-as-map adapter accepts as a key.
pub open spec fn is_map_key_tag(t: Token) -> bool {
    t is Str || t is Bytes || t is U32
}

/// What the adapter hands out as its key when `pending` is the tag not yet
/// handed out.
pub open spec fn enum_key_of<'a>(pending: Option<Token<'a>>) -> Result<Option<Token<'a>>, Seq<char>> {
    match pending {
        Option::None => Result::Ok(Option::None),
        Option::Some(t) => if is_map_key_tag(t) {
            Result::Ok(Option::Some(t))
        } else {
            Result::Err(unexpected_text(t))
        },
    }
}

/// How the payload is visited for each format; `None` when it is decoded
/// from the tokens as they stand.
pub open spec fn payload_visit<'a>(format: EnumFormat) -> Option<Visit<'a>> {
    match format {
        EnumFormat::Tuple => Option::Some(
            Visit::SeqAccess { len: Option::None, end: EndToken::TupleVariantEnd },
        ),
        EnumFormat::Struct => Option::Some(
            Visit::MapAccess { len: Option::None, end: EndToken::StructVariantEnd },
        ),
        EnumFormat::Any => Option::None,
    }
}

/// Shows a resolved variant as a map of one entry: the tag, then the payload.
#[derive(Clone, Copy, Debug)]
pub struct EnumMapVisitor<'a> {
    variant: Option<Token<'a>>,
    format: EnumFormat,
}

impl<'a> EnumMapVisitor<'a> {
    /// The tag not yet handed out.
    pub closed spec fn pending(&self) -> Option<Token<'a>> {
        self.variant
    }

    /// The shape of the payload.
    pub closed spec fn spec_format(&self) -> EnumFormat {
        self.format
    }

    pub fn new(variant: Token<'a>, format: EnumFormat) -> (r: Self)
        ensures
            r.pending() == Option::Some(variant),
            r.spec_format() == format,
    {
        EnumMapVisitor { variant: Option::Some(variant), format }
    }

    /// The key of the single entry the first time, then none.
    pub fn next_key(&mut self) -> (r: Result<Option<Token<'a>>, Error>)
        ensures
            outcome_is(r, enum_key_of(old(self).pending())),
            final(self).pending() is None,
            final(self).spec_format() == old(self).spec_format(),
    {
        let pending = self.variant;
        self.variant = Option::None;
        match pending {
            Option::None => Result::Ok(Option::None),
            Option::Some(t) => match t {
                Token::Str(_) | Token::Bytes(_) | Token::U32(_) => Result::Ok(Option::Some(t)),
                _ => Result::Err(unexpected(t)),
            },
        }
    }

    /// How the payload is visited.
    pub fn next_value(&self) -> (r: Option<Visit<'a>>)
        ensures
            r == payload_visit::<'a>(self.spec_format()),
    {
        match self.format {
            EnumFormat::Tuple => Option::Some(
                Visit::SeqAccess { len: Option::None, end: EndToken::TupleVariantEnd },
            ),
            EnumFormat::Struct => Option::Some(
                Visit::MapAccess { len: Option::None, end: EndToken::StructVariantEnd },
            ),
            EnumFormat::Any => Option::None,
        }
    }
}

fn is_tag_token(t: &Token) -> (r: bool)
    ensures
        r == is_tag(*t),
{
    match *t {
        Token::Str(_) | Token::BorrowedStr(_) | Token::String(_) => true,
        Token::Bytes(_) | Token::BorrowedBytes(_) | Token::ByteBuf(_) => true,
        Token::U8(_) | Token::U16(_) | Token::U32(_) | Token::U64(_) => true,
        _ => false,
    }
}

fn visit_for<'a>(t: Token<'a>) -> (r: Result<Visit<'a>, Error>)
    ensures
        outcome_is(r, any_visit(t)),
{
    match t {
        Token::Bool(_) => Result::Ok(Visit::Scalar(t)),
        Token::I8(_) => Result::Ok(Visit::Scalar(t)),
        Token::I16(_) => Result::Ok(Visit::Scalar(t)),
        Token::I32(_) => Result::Ok(Visit::Scalar(t)),
        Token::I64(_) => Result::Ok(Visit::Scalar(t)),
        Token::I128(_) => Result::Ok(Visit::Scalar(t)),
        Token::U8(_) => Result::Ok(Visit::Scalar(t)),
        Token::U16(_) => Result::Ok(Visit::Scalar(t)),
        Token::U32(_) => Result::Ok(Visit::Scalar(t)),
        Token::U64(_) => Result::Ok(Visit::Scalar(t)),
        Token::U128(_) => Result::Ok(Visit::Scalar(t)),
        Token::F32(_) => Result::Ok(Visit::Scalar(t)),
        Token::F64(_) => Result::Ok(Visit::Scalar(t)),
        Token::Char(_) => Result::Ok(Visit::Scalar(t)),
        Token::Str(_) => Result::Ok(Visit::Scalar(t)),
        Token::BorrowedStr(_) => Result::Ok(Visit::Scalar(t)),
        Token::String(_) => Result::Ok(Visit::Scalar(t)),
        Token::Bytes(_) => Result::Ok(Visit::Scalar(t)),
        Token::BorrowedBytes(_) => Result::Ok(Visit::Scalar(t)),
        Token::ByteBuf(_) => Result::Ok(Visit::Scalar(t)),
        Token::OptionNone => Result::Ok(Visit::OptionNone),
        Token::OptionSome => Result::Ok(Visit::OptionSome),
        Token::Unit => Result::Ok(Visit::Unit),
        Token::UnitStruct { .. } => Result::Ok(Visit::Unit),
        Token::NewtypeStruct { .. } => Result::Ok(Visit::NewtypeStruct),
        Token::SeqStart { len } => Result::Ok(Visit::SeqAccess { len, end: EndToken::SeqEnd }),
        Token::Tuple { len } => Result::Ok(Visit::SeqAccess { len: Option::Some(len), end: EndToken::TupleEnd }),
        Token::TupleStruct { len, .. } => Result::Ok(Visit::SeqAccess { len: Option::Some(len), end: EndToken::TupleStructEnd }),
        Token::MapStart { len } => Result::Ok(Visit::MapAccess { len, end: EndToken::MapEnd }),
        Token::Struct { len, .. } => Result::Ok(Visit::MapAccess { len: Option::Some(len), end: EndToken::StructEnd }),
        Token::UnitVariant { variant, .. } => Result::Ok(Visit::Scalar(Token::Str(variant))),
        Token::NewtypeVariant { variant, .. } => Result::Ok(Visit::EnumMap { variant: Token::Str(variant), format: EnumFormat::Any }),
        Token::TupleVariant { variant, .. } => Result::Ok(Visit::EnumMap { variant: Token::Str(variant), format: EnumFormat::Tuple }),
        Token::StructVariant { variant, .. } => Result::Ok(Visit::EnumMap { variant: Token::Str(variant), format: EnumFormat::Struct }),
        Token::Enum { .. } => Result::Ok(Visit::Enum),
        Token::SeqEnd => Result::Err(unexpected(t)),
        Token::TupleEnd => Result::Err(unexpected(t)),
        Token::TupleStructEnd => Result::Err(unexpected(t)),
        Token::MapEnd => Result::Err(unexpected(t)),
        Token::StructEnd => Result::Err(unexpected(t)),
        Token::TupleVariantEnd => Result::Err(unexpected(t)),
        Token::StructVariantEnd => Result::Err(unexpected(t)),
        Token::SkipStructField { .. } => Result::Err(unexpected(t)),    }
}


} // verus!
