use vstd::prelude::*;
use crate::token::Token;

verus! {

/// The decimal digit for `d`, which is below ten.
pub open spec fn digit_char(d: nat) -> char {
    if d == 0 {
        '0'
    } else if d == 1 {
        '1'
    } else if d == 2 {
        '2'
    } else if d == 3 {
        '3'
    } else if d == 4 {
        '4'
    } else if d == 5 {
        '5'
    } else if d == 6 {
        '6'
    } else if d == 7 {
        '7'
    } else if d == 8 {
        '8'
    } else {
        '9'
    }
}

/// `n` written in decimal, without leading zeros.
pub open spec fn decimal(n: nat) -> Seq<char>
    decreases n,
{
    if n < 10 {
        seq![digit_char(n)]
    } else {
        decimal(n / 10).push(digit_char(n % 10))
    }
}

/// `n` written in decimal, with a leading `-` when negative.
pub open spec fn signed_decimal(n: int) -> Seq<char> {
    if n < 0 {
        seq!['-'] + decimal((-n) as nat)
    } else {
        decimal(n as nat)
    }
}

pub open spec fn bool_text(b: bool) -> Seq<char> {
    if b {
        "true"@
    } else {
        "false"@
    }
}

/// `s` between double quotes.
pub open spec fn quoted(s: Seq<char>) -> Seq<char> {
    seq!['"'] + s + seq!['"']
}

/// The bytes in decimal, separated by `, `.
pub open spec fn byte_list_text(b: Seq<u8>) -> Seq<char>
    decreases b.len(),
{
    if b.len() == 0 {
        Seq::empty()
    } else if b.len() == 1 {
        decimal(b[0] as nat)
    } else {
        byte_list_text(b.drop_last()) + ", "@ + decimal(b.last() as nat)
    }
}

/// The bytes as a bracketed list.
pub open spec fn bytes_text(b: Seq<u8>) -> Seq<char> {
    "["@ + byte_list_text(b) + "]"@
}

pub open spec fn len_hint_text(len: Option<usize>) -> Seq<char> {
    match len {
        Option::Some(n) => "Some("@ + decimal(n as nat) + ")"@,
        Option::None => "None"@,
    }
}

/// How a token is written in messages.
pub open spec fn token_text(t: Token) -> Seq<char> {
    match t {
        Token::Bool(x) => "Bool("@ + bool_text(x) + ")"@,
        Token::I8(x) => "I8("@ + signed_decimal(x as int) + ")"@,
        Token::I16(x) => "I16("@ + signed_decimal(x as int) + ")"@,
        Token::I32(x) => "I32("@ + signed_decimal(x as int) + ")"@,
        Token::I64(x) => "I64("@ + signed_decimal(x as int) + ")"@,
        Token::I128(x) => "I128("@ + signed_decimal(x as int) + ")"@,
        Token::U8(x) => "U8("@ + decimal(x as nat) + ")"@,
        Token::U16(x) => "U16("@ + decimal(x as nat) + ")"@,
        Token::U32(x) => "U32("@ + decimal(x as nat) + ")"@,
        Token::U64(x) => "U64("@ + decimal(x as nat) + ")"@,
        Token::U128(x) => "U128("@ + decimal(x as nat) + ")"@,
        Token::F32(x) => "F32("@ + "bits "@ + decimal(x as nat) + ")"@,
        Token::F64(x) => "F64("@ + "bits "@ + decimal(x as nat) + ")"@,
        Token::Char(x) => "Char("@ + seq!['\''] + seq![x] + seq!['\''] + ")"@,
        Token::Str(x) => "Str("@ + quoted(x@) + ")"@,
        Token::BorrowedStr(x) => "BorrowedStr("@ + quoted(x@) + ")"@,
        Token::String(x) => "String("@ + quoted(x@) + ")"@,
        Token::Bytes(x) => "Bytes("@ + bytes_text(x@) + ")"@,
        Token::BorrowedBytes(x) => "BorrowedBytes("@ + bytes_text(x@) + ")"@,
        Token::ByteBuf(x) => "ByteBuf("@ + bytes_text(x@) + ")"@,
        Token::OptionNone => "OptionNone"@,
        Token::OptionSome => "OptionSome"@,
        Token::Unit => "Unit"@,
        Token::UnitStruct { name } => "UnitStruct { "@ + "name: "@ + quoted(name@) + " }"@,
        Token::UnitVariant { name, variant } => "UnitVariant { "@ + "name: "@ + quoted(name@) + ", variant: "@ + quoted(variant@) + " }"@,
        Token::NewtypeStruct { name } => "NewtypeStruct { "@ + "name: "@ + quoted(name@) + " }"@,
        Token::NewtypeVariant { name, variant } => "NewtypeVariant { "@ + "name: "@ + quoted(name@) + ", variant: "@ + quoted(variant@) + " }"@,
        Token::SeqStart { len } => "SeqStart { "@ + "len: "@ + len_hint_text(len) + " }"@,
        Token::SeqEnd => "SeqEnd"@,
        Token::Tuple { len } => "Tuple { "@ + "len: "@ + decimal(len as nat) + " }"@,
        Token::TupleEnd => "TupleEnd"@,
        Token::TupleStruct { name, len } => "TupleStruct { "@ + "name: "@ + quoted(name@) + ", len: "@ + decimal(len as nat) + " }"@,
        Token::TupleStructEnd => "TupleStructEnd"@,
        Token::TupleVariant { name, variant, len } => "TupleVariant { "@ + "name: "@ + quoted(name@) + ", variant: "@ + quoted(variant@) + ", len: "@ + decimal(len as nat) + " }"@,
        Token::TupleVariantEnd => "TupleVariantEnd"@,
        Token::MapStart { len } => "MapStart { "@ + "len: "@ + len_hint_text(len) + " }"@,
        Token::MapEnd => "MapEnd"@,
        Token::Struct { name, len } => "Struct { "@ + "name: "@ + quoted(name@) + ", len: "@ + decimal(len as nat) + " }"@,
        Token::StructEnd => "StructEnd"@,
        Token::StructVariant { name, variant, len } => "StructVariant { "@ + "name: "@ + quoted(name@) + ", variant: "@ + quoted(variant@) + ", len: "@ + decimal(len as nat) + " }"@,
        Token::StructVariantEnd => "StructVariantEnd"@,
        Token::Enum { name } => "Enum { "@ + "name: "@ + quoted(name@) + " }"@,
        Token::SkipStructField { name } => "SkipStructField { "@ + "name: "@ + quoted(name@) + " }"@,    }
}

/// Relies on `String::push`: the character is appended at the end.
#[verifier::external_body]
pub(crate) fn push_char(out: &mut String, c: char)
    ensures
        final(out)@ == old(out)@.push(c),
{
    out.push(c);
}

fn digit(d: u128) -> (c: char)
    requires
        d < 10,
    ensures
        c == digit_char(d as nat),
{
    if d == 0 {
        '0'
    } else if d == 1 {
        '1'
    } else if d == 2 {
        '2'
    } else if d == 3 {
        '3'
    } else if d == 4 {
        '4'
    } else if d == 5 {
        '5'
    } else if d == 6 {
        '6'
    } else if d == 7 {
        '7'
    } else if d == 8 {
        '8'
    } else {
        '9'
    }
}

/// Appends `n` in decimal.
pub fn push_decimal(out: &mut String, n: u128)
    ensures
        final(out)@ == old(out)@ + decimal(n as nat),
    decreases n,
{
    if n >= 10 {
        push_decimal(out, n / 10);
    }
    push_char(out, digit(n % 10));
    assert(out@ =~= old(out)@ + decimal(n as nat));
}

/// Appends `n` in decimal, with a leading `-` when negative.
pub fn push_signed(out: &mut String, n: i128)
    ensures
        final(out)@ == old(out)@ + signed_decimal(n as int),
{
    if n < 0 {
        push_char(out, '-');
        let m: u128 = ((-(n + 1)) as u128) + 1;
        push_decimal(out, m);
        assert(out@ =~= old(out)@ + signed_decimal(n as int));
    } else {
        push_decimal(out, n as u128);
    }
}

fn push_bool(out: &mut String, b: bool)
    ensures
        final(out)@ == old(out)@ + bool_text(b),
{
    if b {
        out.append("true");
    } else {
        out.append("false");
    }
}

fn push_quoted(out: &mut String, s: &str)
    ensures
        final(out)@ == old(out)@ + quoted(s@),
{
    push_char(out, '"');
    out.append(s);
    push_char(out, '"');
    assert(out@ =~= old(out)@ + quoted(s@));
}

fn push_bytes(out: &mut String, b: &[u8])
    ensures
        final(out)@ == old(out)@ + bytes_text(b@),
{
    out.append("[");
    let ghost start = out@;
    let mut i: usize = 0;
    while i < b.len()
        invariant
            i <= b@.len(),
            out@ == start + byte_list_text(b@.subrange(0, i as int)),
        decreases b@.len() - i,
    {
        let ghost before = out@;
        if i > 0 {
            out.append(", ");
        }
        push_decimal(out, b[i] as u128);
        let ghost prefix = b@.subrange(0, i + 1);
        assert(prefix.drop_last() =~= b@.subrange(0, i as int));
        assert(prefix.last() == b@[i as int]);
        if i == 0 {
            assert(byte_list_text(b@.subrange(0, 0)) =~= Seq::empty());
        }
        assert(out@ =~= start + byte_list_text(prefix));
        i = i + 1;
    }
    assert(b@.subrange(0, b@.len() as int) =~= b@);
    out.append("]");
    assert(out@ =~= old(out)@ + bytes_text(b@));
}

fn push_len_hint(out: &mut String, len: Option<usize>)
    ensures
        final(out)@ == old(out)@ + len_hint_text(len),
{
    match len {
        Option::Some(n) => {
            out.append("Some(");
            push_decimal(out, n as u128);
            out.append(")");
            assert(out@ =~= old(out)@ + len_hint_text(len));
        },
        Option::None => {
            out.append("None");
        },
    }
}

/// Appends the text of `t`, as `token_text` gives it.
pub fn push_token(out: &mut String, t: &Token)
    ensures
        final(out)@ == old(out)@ + token_text(*t),
{
    match *t {
        Token::Bool(x) => {
            out.append("Bool(");
            push_bool(out, x);
            out.append(")");
        },
        Token::I8(x) => {
            out.append("I8(");
            push_signed(out, x as i128);
            out.append(")");
        },
        Token::I16(x) => {
            out.append("I16(");
            push_signed(out, x as i128);
            out.append(")");
        },
        Token::I32(x) => {
            out.append("I32(");
            push_signed(out, x as i128);
            out.append(")");
        },
        Token::I64(x) => {
            out.append("I64(");
            push_signed(out, x as i128);
            out.append(")");
        },
        Token::I128(x) => {
            out.append("I128(");
            push_signed(out, x as i128);
            out.append(")");
        },
        Token::U8(x) => {
            out.append("U8(");
            push_decimal(out, x as u128);
            out.append(")");
        },
        Token::U16(x) => {
            out.append("U16(");
            push_decimal(out, x as u128);
            out.append(")");
        },
        Token::U32(x) => {
            out.append("U32(");
            push_decimal(out, x as u128);
            out.append(")");
        },
        Token::U64(x) => {
            out.append("U64(");
            push_decimal(out, x as u128);
            out.append(")");
        },
        Token::U128(x) => {
            out.append("U128(");
            push_decimal(out, x as u128);
            out.append(")");
        },
        Token::F32(x) => {
            out.append("F32(");
            out.append("bits ");
            push_decimal(out, x as u128);
            out.append(")");
        },
        Token::F64(x) => {
            out.append("F64(");
            out.append("bits ");
            push_decimal(out, x as u128);
            out.append(")");
        },
        Token::Char(x) => {
            out.append("Char(");
            push_char(out, '\'');
            push_char(out, x);
            push_char(out, '\'');
            out.append(")");
        },
        Token::Str(x) => {
            out.append("Str(");
            push_quoted(out, x);
            out.append(")");
        },
        Token::BorrowedStr(x) => {
            out.append("BorrowedStr(");
            push_quoted(out, x);
            out.append(")");
        },
        Token::String(x) => {
            out.append("String(");
            push_quoted(out, x);
            out.append(")");
        },
        Token::Bytes(x) => {
            out.append("Bytes(");
            push_bytes(out, x);
            out.append(")");
        },
        Token::BorrowedBytes(x) => {
            out.append("BorrowedBytes(");
            push_bytes(out, x);
            out.append(")");
        },
        Token::ByteBuf(x) => {
            out.append("ByteBuf(");
            push_bytes(out, x);
            out.append(")");
        },
        Token::OptionNone => {
            out.append("OptionNone");
        },
        Token::OptionSome => {
            out.append("OptionSome");
        },
        Token::Unit => {
            out.append("Unit");
        },
        Token::UnitStruct { name } => {
            out.append("UnitStruct { ");
            out.append("name: ");
            push_quoted(out, name);
            out.append(" }");
        },
        Token::UnitVariant { name, variant } => {
            out.append("UnitVariant { ");
            out.append("name: ");
            push_quoted(out, name);
            out.append(", variant: ");
            push_quoted(out, variant);
            out.append(" }");
        },
        Token::NewtypeStruct { name } => {
            out.append("NewtypeStruct { ");
            out.append("name: ");
            push_quoted(out, name);
            out.append(" }");
        },
        Token::NewtypeVariant { name, variant } => {
            out.append("NewtypeVariant { ");
            out.append("name: ");
            push_quoted(out, name);
            out.append(", variant: ");
            push_quoted(out, variant);
            out.append(" }");
        },
        Token::SeqStart { len } => {
            out.append("SeqStart { ");
            out.append("len: ");
            push_len_hint(out, len);
            out.append(" }");
        },
        Token::SeqEnd => {
            out.append("SeqEnd");
        },
        Token::Tuple { len } => {
            out.append("Tuple { ");
            out.append("len: ");
            push_decimal(out, len as u128);
            out.append(" }");
        },
        Token::TupleEnd => {
            out.append("TupleEnd");
        },
        Token::TupleStruct { name, len } => {
            out.append("TupleStruct { ");
            out.append("name: ");
            push_quoted(out, name);
            out.append(", len: ");
            push_decimal(out, len as u128);
            out.append(" }");
        },
        Token::TupleStructEnd => {
            out.append("TupleStructEnd");
        },
        Token::TupleVariant { name, variant, len } => {
            out.append("TupleVariant { ");
            out.append("name: ");
            push_quoted(out, name);
            out.append(", variant: ");
            push_quoted(out, variant);
            out.append(", len: ");
            push_decimal(out, len as u128);
            out.append(" }");
        },
        Token::TupleVariantEnd => {
            out.append("TupleVariantEnd");
        },
        Token::MapStart { len } => {
            out.append("MapStart { ");
            out.append("len: ");
            push_len_hint(out, len);
            out.append(" }");
        },
        Token::MapEnd => {
            out.append("MapEnd");
        },
        Token::Struct { name, len } => {
            out.append("Struct { ");
            out.append("name: ");
            push_quoted(out, name);
            out.append(", len: ");
            push_decimal(out, len as u128);
            out.append(" }");
        },
        Token::StructEnd => {
            out.append("StructEnd");
        },
        Token::StructVariant { name, variant, len } => {
            out.append("StructVariant { ");
            out.append("name: ");
            push_quoted(out, name);
            out.append(", variant: ");
            push_quoted(out, variant);
            out.append(", len: ");
            push_decimal(out, len as u128);
            out.append(" }");
        },
        Token::StructVariantEnd => {
            out.append("StructVariantEnd");
        },
        Token::Enum { name } => {
            out.append("Enum { ");
            out.append("name: ");
            push_quoted(out, name);
            out.append(" }");
        },
        Token::SkipStructField { name } => {
            out.append("SkipStructField { ");
            out.append("name: ");
            push_quoted(out, name);
            out.append(" }");
        },    }
    assert(out@ =~= old(out)@ + token_text(*t));
}

} // verus!
