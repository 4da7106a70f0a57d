use vstd::prelude::*;
use crate::de::{
    after_next, any_step, any_visit, at_end, enum_step, peek_of, struct_step, tuple_variant_step,
    unit_variant_step, variant_tag_of, VariantTag, Visit,
};
use crate::ser::{emit_run, emit_step, opens_enum, str_flavor, variant_run};
use crate::token::{is_skip, same_token, EndToken, Token};

verus! {

/// The tokens that `n` reads on the decode side take from `s`, in order.
pub open spec fn read_run<'a>(s: Seq<Token<'a>>, n: nat) -> Seq<Token<'a>>
    decreases n,
{
    if n == 0 {
        Seq::empty()
    } else {
        match peek_of(s) {
            Option::Some(t) => seq![t] + read_run(after_next(s), (n - 1) as nat),
            Option::None => Seq::empty(),
        }
    }
}

/// What is left of `s` after `n` reads on the decode side.
pub open spec fn after_run<'a>(s: Seq<Token<'a>>, n: nat) -> Seq<Token<'a>>
    decreases n,
{
    if n == 0 {
        s
    } else {
        after_run(after_next(s), (n - 1) as nat)
    }
}

/// Round trip, one token: where the encoder accepts the produced token `t`
/// (neither a skipped field nor an open `Enum`), the decoder's generic path
/// reads that same token, asks the visitor for it, and stops where the
/// encoder stopped.
pub proof fn lemma_round_trip_token<'a, 'b>(s: Seq<Token<'a>>, t: Token<'b>)
    requires
        emit_step(s, t).0 is Ok,
        !is_skip(t),
        !(t is Enum),
    ensures
        s.len() > 0,
        same_token(s[0], t),
        peek_of(s) == Option::Some(s[0]),
        any_step(s) == (any_visit(s[0]), emit_step(s, t).1),
{
}

/// Round trip, a run of tokens: where the encoder accepts the produced
/// tokens `ts` in order, none of them a skipped field, the decoder reads the
/// same tokens in the same order and is left with what the encoder left.
pub proof fn lemma_round_trip_run<'a, 'b>(s: Seq<Token<'a>>, ts: Seq<Token<'b>>)
    requires
        emit_run(s, ts).0 is Ok,
        forall|i: int| 0 <= i < ts.len() ==> !is_skip(#[trigger] ts[i]),
    ensures
        read_run(s, ts.len()).len() == ts.len(),
        forall|i: int| 0 <= i < ts.len() ==> same_token(#[trigger] read_run(s, ts.len())[i], ts[i]),
        after_run(s, ts.len()) == emit_run(s, ts).1,
    decreases ts.len(),
{
    if ts.len() > 0 {
        let t = ts[0];
        assert(!is_skip(ts[0]));
        let rest = ts.drop_first();
        assert forall|i: int| 0 <= i < rest.len() implies !is_skip(#[trigger] rest[i]) by {
            assert(rest[i] == ts[i + 1]);
        }
        lemma_round_trip_run(s.drop_first(), rest);
        assert(after_next(s) == s.drop_first());
        let n = ts.len();
        assert((n - 1) as nat == rest.len());
        let r = read_run(s, n);
        assert(r == seq![s[0]] + read_run(s.drop_first(), rest.len()));
        assert forall|i: int| 0 <= i < ts.len() implies same_token(#[trigger] r[i], ts[i]) by {
            if i > 0 {
                assert(r[i] == read_run(s.drop_first(), rest.len())[i - 1]);
                assert(rest[i - 1] == ts[i]);
            }
        }
    }
}

/// A script that lists exactly the produced tokens is accepted and used up.
pub proof fn lemma_exact_script_consumed<'a, 'b>(s: Seq<Token<'a>>, ts: Seq<Token<'b>>)
    requires
        s.len() == ts.len(),
        forall|i: int| 0 <= i < ts.len() ==> same_token(#[trigger] s[i], ts[i]),
    ensures
        emit_run(s, ts) == (Result::<(), Seq<char>>::Ok(()), Seq::<Token<'a>>::empty()),
    decreases ts.len(),
{
    if ts.len() == 0 {
        assert(s =~= Seq::<Token<'a>>::empty());
    } else {
        assert(same_token(s[0], ts[0]));
        let (s1, t1) = (s.drop_first(), ts.drop_first());
        assert forall|i: int| 0 <= i < t1.len() implies same_token(#[trigger] s1[i], t1[i]) by {
            assert(s1[i] == s[i + 1]);
            assert(t1[i] == ts[i + 1]);
        }
        lemma_exact_script_consumed(s1, t1);
    }
}

/// One token past a complete value stays behind: where the encoder accepts
/// the produced tokens `ts` against `s`, it accepts them against `s` with `x`
/// appended, and `x` is left over, so the script is not used up.
pub proof fn lemma_trailing_token_left<'a, 'b>(s: Seq<Token<'a>>, ts: Seq<Token<'b>>, x: Token<'a>)
    requires
        emit_run(s, ts).0 is Ok,
    ensures
        emit_run(s.push(x), ts) == (emit_run(s, ts).0, emit_run(s, ts).1.push(x)),
        emit_run(s.push(x), ts).1.len() > 0,
    decreases ts.len(),
{
    if ts.len() > 0 {
        assert(s.push(x).drop_first() =~= s.drop_first().push(x));
        assert(s.push(x)[0] == s[0]);
        lemma_trailing_token_left(s.drop_first(), ts.drop_first(), x);
    }
}

/// The string a script names in any flavour is accepted for a produced
/// string of the same characters: the check follows the script's flavour.
pub proof fn lemma_str_flavor_followed<'a, 'b>(s: Seq<Token<'a>>, v: &'b str)
    requires
        s.len() > 0,
        s[0] is Str || s[0] is BorrowedStr || s[0] is String,
    ensures
        emit_step(s, str_flavor(s, v)).0 is Ok <==> (match s[0] {
            Token::Str(w) => w@ == v@,
            Token::BorrowedStr(w) => w@ == v@,
            Token::String(w) => w@ == v@,
            _ => false,
        }),
{
}

/// A skipped-field token is invisible to decoding: with one in front, the
/// next token, what is left after taking it, the generic path, a struct read
/// (with its field-count hint) and the end-of-region test are all as without.
pub proof fn lemma_skip_invisible<'a>(
    s: Seq<Token<'a>>,
    field: &'a str,
    name: &'a str,
    n_fields: usize,
    end: EndToken,
)
    ensures
        peek_of(seq![Token::SkipStructField { name: field }] + s) == peek_of(s),
        after_next(seq![Token::SkipStructField { name: field }] + s) == after_next(s),
        any_step(seq![Token::SkipStructField { name: field }] + s) == any_step(s),
        struct_step(seq![Token::SkipStructField { name: field }] + s, name, n_fields).0
            == struct_step(s, name, n_fields).0,
        at_end(seq![Token::SkipStructField { name: field }] + s, end) == at_end(s, end),
{
    let k = seq![Token::SkipStructField { name: field }] + s;
    assert(k.drop_first() =~= s);
}

/// The two forms of a tuple variant's payload decode alike: a
/// `TupleVariant` token of `len` fields and a sequence with exact length
/// `len` both open a sequence of `len` elements over the same tokens; only
/// the closing token differs.
pub proof fn lemma_tuple_variant_forms<'a>(
    s: Seq<Token<'a>>,
    name: &'a str,
    variant: &'a str,
    len: usize,
)
    ensures
        tuple_variant_step(seq![Token::TupleVariant { name, variant, len }] + s, len) == (
            Result::<Visit<'a>, Seq<char>>::Ok(
                Visit::SeqAccess { len: Option::Some(len), end: EndToken::TupleVariantEnd },
            ),
            s,
        ),
        tuple_variant_step(seq![Token::SeqStart { len: Option::Some(len) }] + s, len) == (
            Result::<Visit<'a>, Seq<char>>::Ok(
                Visit::SeqAccess { len: Option::Some(len), end: EndToken::SeqEnd },
            ),
            s,
        ),
{
    assert((seq![Token::TupleVariant { name, variant, len }] + s).drop_first() =~= s);
    assert((seq![Token::SeqStart { len: Option::Some(len) }] + s).drop_first() =~= s);
}

/// Skipped fields never surface: the token that decoding reads next is never
/// a skipped field, and reading one always shortens the script, so a decode
/// pass ends.
pub proof fn lemma_skip_never_surfaces<'a>(s: Seq<Token<'a>>)
    ensures
        peek_of(s) matches Option::Some(t) ==> !is_skip(t),
        after_next(s).len() <= s.len(),
        peek_of(s) is Some ==> after_next(s).len() < s.len(),
    decreases s.len(),
{
    if s.len() > 0 && is_skip(s[0]) {
        lemma_skip_never_surfaces(s.drop_first());
    }
}

/// A token past a complete value stays behind on the decode side too: where
/// a token is left to read in `s`, reading it from `s` with `x` appended reads
/// the same token and leaves `x` behind.
pub proof fn lemma_trailing_token_left_decoding<'a>(s: Seq<Token<'a>>, x: Token<'a>)
    requires
        peek_of(s) is Some,
    ensures
        peek_of(s.push(x)) == peek_of(s),
        after_next(s.push(x)) == after_next(s).push(x),
        after_next(s.push(x)).len() > 0,
    decreases s.len(),
{
    assert(s.push(x)[0] == s[0]);
    assert(s.push(x).drop_first() =~= s.drop_first().push(x));
    if is_skip(s[0]) {
        lemma_trailing_token_left_decoding(s.drop_first(), x);
    }
}

/// Round trip of a unit variant: where the encoder accepts unit variant
/// `variant` of enum `name`, decoding that enum from the same script finds
/// the same variant and ends where the encoder ended. In the closed form the
/// tag is known from the `UnitVariant` token, which holds the whole payload;
/// in the open form the tag is read as a `Str` and the payload as a `Unit`.
pub proof fn lemma_round_trip_unit_variant<'a, 'b>(
    s: Seq<Token<'a>>,
    name: &'b str,
    variant: &'b str,
)
    requires
        variant_run(
            s,
            name,
            seq![Token::Str(variant), Token::Unit],
            Token::UnitVariant { name, variant },
        ).0 is Ok,
    ensures
        opens_enum(s, name) ==> {
            &&& s.len() >= 3
            &&& enum_step(s, name) == (
                Result::<Visit<'a>, Seq<char>>::Ok(Visit::Enum),
                s.drop_first(),
            )
            &&& variant_tag_of(s.drop_first()) == Result::<VariantTag<'a>, Seq<char>>::Ok(
                VariantTag::Decode,
            )
            &&& same_token(s[1], Token::Str(variant))
            &&& any_step(s.drop_first()) == (
                Result::<Visit<'a>, Seq<char>>::Ok(Visit::Scalar(s[1])),
                s.subrange(2, s.len() as int),
            )
            &&& unit_variant_step(s.subrange(2, s.len() as int)) == (
                Result::<bool, Seq<char>>::Ok(false),
                s.subrange(2, s.len() as int),
            )
            &&& any_step(s.subrange(2, s.len() as int)) == (
                Result::<Visit<'a>, Seq<char>>::Ok(Visit::Unit),
                variant_run(
                    s,
                    name,
                    seq![Token::Str(variant), Token::Unit],
                    Token::UnitVariant { name, variant },
                ).1,
            )
        },
        !opens_enum(s, name) ==> {
            &&& s.len() >= 1
            &&& enum_step(s, name) == (Result::<Visit<'a>, Seq<char>>::Ok(Visit::Enum), s)
            &&& (s[0] matches Token::UnitVariant { variant: v, .. } && v@ == variant@
                && variant_tag_of(s) == Result::<VariantTag<'a>, Seq<char>>::Ok(
                VariantTag::Named(v),
            ))
            &&& unit_variant_step(s) == (
                Result::<bool, Seq<char>>::Ok(true),
                variant_run(
                    s,
                    name,
                    seq![Token::Str(variant), Token::Unit],
                    Token::UnitVariant { name, variant },
                ).1,
            )
        },
{
    let run = seq![Token::Str(variant), Token::Unit];
    if opens_enum(s, name) {
        reveal_with_fuel(emit_run, 3);
        let s1 = s.drop_first();
        assert(run.drop_first() =~= seq![Token::<'b>::Unit]);
        assert(seq![Token::<'b>::Unit].drop_first() =~= Seq::<Token<'b>>::empty());
        assert(s1.drop_first() =~= s.subrange(2, s.len() as int));
        let s2 = s.subrange(2, s.len() as int);
        assert(s2.drop_first() =~= s.subrange(3, s.len() as int));
        assert(s1[0] == s[1]);
        assert(s2[0] == s[2]);
    }
}

/// Round trip of the start of a tuple variant: where the encoder accepts the
/// start of tuple variant `variant` of enum `name` with `len` fields,
/// decoding that enum from the same script finds the variant, opens a
/// sequence of `len` elements where the encoder's fields begin, and expects
/// the same closing token that the encoder will check.
pub proof fn lemma_round_trip_tuple_variant<'a, 'b>(
    s: Seq<Token<'a>>,
    name: &'b str,
    variant: &'b str,
    len: usize,
)
    requires
        variant_run(
            s,
            name,
            seq![Token::Str(variant), Token::SeqStart { len: Option::Some(len) }],
            Token::TupleVariant { name, variant, len },
        ).0 is Ok,
    ensures
        ({
            let rest = variant_run(
                s,
                name,
                seq![Token::Str(variant), Token::SeqStart { len: Option::Some(len) }],
                Token::TupleVariant { name, variant, len },
            ).1;
            &&& opens_enum(s, name) ==> {
                &&& s.len() >= 3
                &&& enum_step(s, name) == (
                    Result::<Visit<'a>, Seq<char>>::Ok(Visit::Enum),
                    s.drop_first(),
                )
                &&& variant_tag_of(s.drop_first()) == Result::<VariantTag<'a>, Seq<char>>::Ok(
                    VariantTag::Decode,
                )
                &&& same_token(s[1], Token::Str(variant))
                &&& any_step(s.drop_first()) == (
                    Result::<Visit<'a>, Seq<char>>::Ok(Visit::Scalar(s[1])),
                    s.subrange(2, s.len() as int),
                )
                &&& tuple_variant_step(s.subrange(2, s.len() as int), len) == (
                    Result::<Visit<'a>, Seq<char>>::Ok(
                        Visit::SeqAccess { len: Option::Some(len), end: EndToken::SeqEnd },
                    ),
                    rest,
                )
            }
            &&& !opens_enum(s, name) ==> {
                &&& s.len() >= 1
                &&& enum_step(s, name) == (Result::<Visit<'a>, Seq<char>>::Ok(Visit::Enum), s)
                &&& (s[0] matches Token::TupleVariant { variant: v, .. } && v@ == variant@
                    && variant_tag_of(s) == Result::<VariantTag<'a>, Seq<char>>::Ok(
                    VariantTag::Named(v),
                ))
                &&& tuple_variant_step(s, len) == (
                    Result::<Visit<'a>, Seq<char>>::Ok(
                        Visit::SeqAccess { len: Option::Some(len), end: EndToken::TupleVariantEnd },
                    ),
                    rest,
                )
            }
        }),
{
    let run = seq![Token::Str(variant), Token::SeqStart { len: Option::Some(len) }];
    if opens_enum(s, name) {
        reveal_with_fuel(emit_run, 3);
        let s1 = s.drop_first();
        let start: Token<'b> = Token::SeqStart { len: Option::Some(len) };
        assert(run.drop_first() =~= seq![start]);
        assert(seq![start].drop_first() =~= Seq::<Token<'b>>::empty());
        assert(s1.drop_first() =~= s.subrange(2, s.len() as int));
        let s2 = s.subrange(2, s.len() as int);
        assert(s2.drop_first() =~= s.subrange(3, s.len() as int));
        assert(s1[0] == s[1]);
        assert(s2[0] == s[2]);
    }
}

} // verus!
