//! Laws of the parser and of the expansions.

use vstd::prelude::*;
use crate::emit::option_str_spec;
use crate::input::{input_spec, Token};
use crate::macros::{
    build_metadata_component_spec, pre_release_component_spec, EnvValue, VERSION_VAR,
};
use crate::number::{
    all_digits, decimal_text_spec, decimal_value, digit_char, digit_value, is_digit,
};
use crate::split::{fields, split_once_spec};
use crate::version::{build_metadata_of, core_fields, parse_error, pre_release_of, without_build};

verus! {

proof fn lemma_decimal_text(n: nat)
    ensures
        decimal_text_spec(n).len() > 0,
        all_digits(decimal_text_spec(n)),
        decimal_value(decimal_text_spec(n)) == n,
    decreases n,
{
    let t = decimal_text_spec(n);
    if n < 10 {
        assert(t.drop_last() =~= Seq::<char>::empty());
        assert(t.last() == digit_char(n));
        assert(digit_value(digit_char(n)) == n);
        assert(decimal_value(t) == decimal_value(t.drop_last()) * 10 + digit_value(t.last()));
    } else {
        lemma_decimal_text(n / 10);
        assert(t.drop_last() =~= decimal_text_spec(n / 10));
        assert(t.last() == digit_char(n % 10));
        assert(digit_value(digit_char(n % 10)) == n % 10);
        assert(decimal_value(t) == decimal_value(t.drop_last()) * 10 + digit_value(t.last()));
        assert(n == (n / 10) * 10 + n % 10) by (nonlinear_arith);
    }
}

proof fn lemma_split_absent(s: Seq<char>, d: char)
    requires
        !s.contains(d),
    ensures
        split_once_spec(s, d) == (s, None::<Seq<char>>),
        fields(s, d) == seq![s],
{
    s.index_of_first_ensures(d);
}

proof fn lemma_split_at(a: Seq<char>, d: char, rest: Seq<char>)
    requires
        !a.contains(d),
    ensures
        fields(a + seq![d] + rest, d) == seq![a] + fields(rest, d),
{
    let s = a + seq![d] + rest;
    s.index_of_first_ensures(d);
    assert(s[a.len() as int] == d);
    let k = s.index_of_first(d)->0;
    if k < a.len() {
        assert(a[k] == s[k]);
    }
    assert(s.subrange(0, a.len() as int) =~= a);
    assert(s.subrange(a.len() as int + 1, s.len() as int) =~= rest);
}

proof fn lemma_digits_lack(s: Seq<char>, d: char)
    requires
        all_digits(s),
        !is_digit(d),
    ensures
        !s.contains(d),
{
}

/// The text `a.b.c` of three 32-bit numbers parses back to exactly those
/// numbers, with neither pre-release nor build metadata.
pub proof fn lemma_plain_version_round_trip(a: u32, b: u32, c: u32)
    ensures
        ({
            let s = decimal_text_spec(a as nat) + seq!['.'] + decimal_text_spec(b as nat) + seq!['.']
                + decimal_text_spec(c as nat);
            &&& parse_error(s) is None
            &&& decimal_value(core_fields(s)[0]) == a
            &&& decimal_value(core_fields(s)[1]) == b
            &&& decimal_value(core_fields(s)[2]) == c
            &&& pre_release_of(s) is None
            &&& build_metadata_of(s) is None
        }),
{
    let ta = decimal_text_spec(a as nat);
    let tb = decimal_text_spec(b as nat);
    let tc = decimal_text_spec(c as nat);
    let s = ta + seq!['.'] + tb + seq!['.'] + tc;
    lemma_decimal_text(a as nat);
    lemma_decimal_text(b as nat);
    lemma_decimal_text(c as nat);
    assert forall|d: char| !is_digit(d) && d != '.' implies !s.contains(d) by {
        if s.contains(d) {
            let i = choose|i: int| 0 <= i < s.len() && s[i] == d;
            if i < ta.len() {
                assert(s[i] == ta[i]);
            } else if i == ta.len() {
            } else if i < ta.len() + 1 + tb.len() {
                assert(s[i] == tb[i - ta.len() - 1]);
            } else if i == ta.len() + 1 + tb.len() {
            } else {
                assert(s[i] == tc[i - ta.len() - 2 - tb.len()]);
            }
        }
    }
    lemma_split_absent(s, '+');
    lemma_split_absent(s, '-');
    lemma_digits_lack(ta, '.');
    lemma_digits_lack(tb, '.');
    lemma_digits_lack(tc, '.');
    let rest = tb + seq!['.'] + tc;
    assert(s =~= ta + seq!['.'] + rest);
    lemma_split_at(ta, '.', rest);
    lemma_split_at(tb, '.', tc);
    lemma_split_absent(tc, '.');
    assert(core_fields(s) =~= seq![ta, tb, tc]);
}

/// An invocation is accepted exactly when it is one identifier, optionally
/// followed by one `,`: no argument, a first argument that is not an
/// identifier, and anything after the optional `,` are all rejected.
pub proof fn lemma_input_accepted_shape(ts: Seq<Token>)
    ensures
        input_spec(ts) is Ok <==> ts.len() > 0 && ts[0] is Ident && (ts.len() == 1 || (ts.len() == 2
            && ts[1] == Token::Punct(','))),
{
}

/// Without a `-` before the build metadata, the pre-release request gives the
/// absent value; without a `+`, so does the build-metadata request.
pub proof fn lemma_absent_segment_gives_none(ts: Seq<Token>, v: EnvValue)
    requires
        input_spec(ts) is Ok,
        v is Text,
    ensures
        !without_build(v->Text_0@).contains('-') ==> pre_release_component_spec(ts, VERSION_VAR@, v)
            == Ok::<Seq<char>, (crate::error::Span, Seq<char>)>(option_str_spec(None)),
        !v->Text_0@.contains('+') ==> build_metadata_component_spec(ts, VERSION_VAR@, v) == Ok::<
            Seq<char>,
            (crate::error::Span, Seq<char>),
        >(option_str_spec(None)),
{
    let t = v->Text_0@;
    if !without_build(t).contains('-') {
        lemma_split_absent(without_build(t), '-');
    }
    if !t.contains('+') {
        lemma_split_absent(t, '+');
    }
}

} // verus!
