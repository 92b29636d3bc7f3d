//! Nothing is lost when a definition is turned into a compiler flag: two
//! definitions that give the same flag are the same definition.

use vstd::prelude::*;
use super::edge::{escaped_quote, transform_define};
use crate::text::{find_char, has_whitespace, lemma_find_char_from, replace_char};

verus! {

/// `s` with every double quote escaped.
pub open spec fn escaped(s: Seq<char>) -> Seq<char> {
    replace_char(s, '"', escaped_quote())
}

/// How escaping ends: an escaped double quote where the text ends with a
/// double quote, the last character itself where it does not.
pub proof fn lemma_escaped_last(s: Seq<char>)
    requires
        s.len() > 0,
    ensures
        s.last() == '"' ==> escaped(s).len() >= 2 && escaped(s).last() == '"' && escaped(s).take(
            escaped(s).len() - 2,
        ) == escaped(s.drop_last()),
        s.last() != '"' ==> escaped(s).len() >= 1 && escaped(s).last() == s.last() && escaped(
            s,
        ).drop_last() == escaped(s.drop_last()),
{
    let head = escaped(s.drop_last());
    if s.last() == '"' {
        assert(escaped(s) == head + escaped_quote());
        assert(escaped(s).take(escaped(s).len() - 2) =~= head);
    } else {
        assert(escaped(s) == head + seq![s.last()]);
        assert(escaped(s).drop_last() =~= head);
    }
}

/// Escaping loses nothing: texts that are the same once escaped are the
/// same.
pub proof fn lemma_escaped_lossless(a: Seq<char>, b: Seq<char>)
    requires
        escaped(a) == escaped(b),
    ensures
        a == b,
    decreases a.len(),
{
    if a.len() == 0 {
        if b.len() > 0 {
            lemma_escaped_last(b);
        }
        assert(a =~= b);
    } else {
        lemma_escaped_last(a);
        if b.len() == 0 {
            assert(escaped(b).len() == 0);
        } else {
            lemma_escaped_last(b);
            lemma_escaped_lossless(a.drop_last(), b.drop_last());
            assert(a =~= a.drop_last().push(a.last()));
            assert(b =~= b.drop_last().push(b.last()));
        }
    }
}

/// An escaped text holds no double quote but behind a backslash.
pub proof fn lemma_quotes_are_escaped(s: Seq<char>, p: int)
    requires
        0 <= p < escaped(s).len(),
        escaped(s)[p] == '"',
    ensures
        p > 0,
        escaped(s)[p - 1] == '\\',
    decreases s.len(),
{
    if s.len() > 0 {
        let head = escaped(s.drop_last());
        if s.last() == '"' {
            assert(escaped(s) == head + escaped_quote());
            if p < head.len() {
                lemma_quotes_are_escaped(s.drop_last(), p);
            }
        } else {
            assert(escaped(s) == head + seq![s.last()]);
            if p < head.len() {
                lemma_quotes_are_escaped(s.drop_last(), p);
            }
        }
    }
}

/// What follows the equals sign in the flag of a definition with the
/// value `value`.
pub open spec fn flag_value(value: Seq<char>) -> Seq<char> {
    if has_whitespace(escaped(value)) {
        seq!['"'] + escaped(value) + seq!['"']
    } else {
        escaped(value)
    }
}

/// The value of a definition can be read off what follows the equals
/// sign in its flag.
pub proof fn lemma_flag_value_lossless(a: Seq<char>, b: Seq<char>)
    requires
        flag_value(a) == flag_value(b),
    ensures
        a == b,
{
    let ea = escaped(a);
    let eb = escaped(b);
    if has_whitespace(ea) && !has_whitespace(eb) {
        assert(flag_value(a)[0] == '"');
        lemma_quotes_are_escaped(b, 0);
    } else if !has_whitespace(ea) && has_whitespace(eb) {
        assert(flag_value(b)[0] == '"');
        lemma_quotes_are_escaped(a, 0);
    } else if has_whitespace(ea) {
        assert(ea =~= flag_value(a).subrange(1, flag_value(a).len() - 1));
        assert(eb =~= flag_value(b).subrange(1, flag_value(b).len() - 1));
        lemma_escaped_lossless(a, b);
    } else {
        lemma_escaped_lossless(a, b);
    }
}

/// The flag of a definition without its first two characters: the
/// definition itself where it is a bare name, else the name, the equals
/// sign and what stands for the value.
pub open spec fn flag_body(define: Seq<char>) -> Seq<char> {
    match find_char(define, '=') {
        None => define,
        Some(i) => define.take(i) + seq!['='] + flag_value(define.skip(i + 1)),
    }
}

/// A flag is `-D` followed by its body.
pub proof fn lemma_flag_shape(define: Seq<char>)
    ensures
        transform_define(define) == seq!['-', 'D'] + flag_body(define),
{
    reveal_strlit("-D");
    reveal_strlit("=\"");
    reveal_strlit("\"");
    reveal_strlit("=");
    assert("-D"@ =~= seq!['-', 'D']);
    assert("=\""@ =~= seq!['=', '"']);
    assert("\""@ =~= seq!['"']);
    assert("="@ =~= seq!['=']);
    match find_char(define, '=') {
        None => {},
        Some(i) => {
            let name = define.take(i);
            let value = escaped(define.skip(i + 1));
            if has_whitespace(value) {
                assert("-D"@ + name + "=\""@ + value + "\""@ =~= seq!['-', 'D'] + (name + seq!['=']
                    + (seq!['"'] + value + seq!['"'])));
            } else {
                assert("-D"@ + name + "="@ + value =~= seq!['-', 'D'] + (name + seq!['='] + value));
            }
        },
    }
}

/// Nothing is lost when a definition is turned into a flag: definitions
/// with the same flag are the same.
pub proof fn lemma_transform_define_lossless(a: Seq<char>, b: Seq<char>)
    requires
        transform_define(a) == transform_define(b),
    ensures
        a == b,
{
    lemma_flag_shape(a);
    lemma_flag_shape(b);
    let xa = flag_body(a);
    let xb = flag_body(b);
    assert(xa =~= transform_define(a).skip(2));
    assert(xb =~= transform_define(b).skip(2));
    lemma_find_char_from(a, '=', 0);
    lemma_find_char_from(b, '=', 0);
    match (find_char(a, '='), find_char(b, '=')) {
        (None, None) => {},
        (None, Some(j)) => {
            assert(xb[j] == '=');
        },
        (Some(i), None) => {
            assert(xa[i] == '=');
        },
        (Some(i), Some(j)) => {
            assert(xa[i] == '=');
            assert(xb[j] == '=');
            if i < j {
                assert(xb[i] == b[i]);
            } else if j < i {
                assert(xa[j] == a[j]);
            } else {
                assert(a.take(i) =~= xa.take(i));
                assert(b.take(i) =~= xb.take(i));
                assert(flag_value(a.skip(i + 1)) =~= xa.skip(i + 1));
                assert(flag_value(b.skip(i + 1)) =~= xb.skip(i + 1));
                lemma_flag_value_lossless(a.skip(i + 1), b.skip(i + 1));
                assert(a =~= a.take(i) + seq!['='] + a.skip(i + 1));
                assert(b =~= b.take(i) + seq!['='] + b.skip(i + 1));
            }
        },
    }
}

} // verus!
