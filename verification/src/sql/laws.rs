//! What holds of quoting and escaping for every text.

use vstd::prelude::*;
use crate::sql::{escape_char, escaped, quoted};

verus! {

/// The text that an escaped text stands for: a backslash is dropped and the
/// character behind it is taken as it is; every other character stands for itself.
pub open spec fn unescaped(text: Seq<char>) -> Seq<char>
    decreases text.len(),
{
    if text.len() == 0 {
        Seq::empty()
    } else if text[0] == '\\' && text.len() >= 2 {
        seq![text[1]] + unescaped(text.skip(2))
    } else {
        seq![text[0]] + unescaped(text.skip(1))
    }
}

/// The text that a token stands for: the token without its two delimiters,
/// unescaped.
pub open spec fn unquoted(token: Seq<char>) -> Seq<char> {
    unescaped(token.subrange(1, token.len() - 1))
}

/// Escaping goes through a concatenation part by part.
pub proof fn lemma_escaped_concat(a: Seq<char>, b: Seq<char>, quote: char)
    ensures
        escaped(a + b, quote) == escaped(a, quote) + escaped(b, quote),
    decreases b.len(),
{
    if b.len() == 0 {
        assert(a + b == a);
    } else {
        lemma_escaped_concat(a, b.drop_last(), quote);
        assert((a + b).drop_last() == a + b.drop_last());
    }
}

/// Unescaping undoes escaping, whatever the delimiter was.
pub proof fn lemma_unescaped_escaped(src: Seq<char>, quote: char)
    ensures
        unescaped(escaped(src, quote)) == src,
    decreases src.len(),
{
    if src.len() > 0 {
        let c = src[0];
        let rest = src.drop_first();
        let head = escape_char(c, quote);
        let tail = escaped(rest, quote);
        lemma_unescaped_escaped(rest, quote);
        assert(src == seq![c] + rest);
        lemma_escaped_concat(seq![c], rest, quote);
        assert(seq![c].drop_last() == Seq::<char>::empty());
        assert(escaped(seq![c], quote) == head) by {
            reveal_with_fuel(escaped, 2);
        }
        if c == quote || c == '\\' {
            assert((head + tail).skip(2) == tail);
        } else {
            assert((head + tail).skip(1) == tail);
        }
    }
}

/// A token read back gives the text it was made from: unquoting undoes quoting
/// for every text and every delimiter, so for string literals and for
/// identifiers.
pub proof fn lemma_quote_round_trip(src: Seq<char>, quote: char)
    ensures
        unquoted(quoted(src, quote)) == src,
{
    let token = quoted(src, quote);
    assert(token.subrange(1, token.len() - 1) == escaped(src, quote));
    lemma_unescaped_escaped(src, quote);
}

/// A token has at least its two delimiters, and begins and ends with one.
pub proof fn lemma_quoted_delimited(src: Seq<char>, quote: char)
    ensures
        quoted(src, quote).len() >= 2,
        quoted(src, quote).first() == quote,
        quoted(src, quote).last() == quote,
{
}

/// A text that holds neither the delimiter nor a backslash is its own escaped
/// text, so its token is the text between two delimiters.
pub proof fn lemma_plain_text_unchanged(src: Seq<char>, quote: char)
    requires
        forall|i: int| 0 <= i < src.len() ==> src[i] != quote && src[i] != '\\',
    ensures
        escaped(src, quote) == src,
        quoted(src, quote) == seq![quote] + src + seq![quote],
    decreases src.len(),
{
    if src.len() > 0 {
        lemma_plain_text_unchanged(src.drop_last(), quote);
        assert(src == src.drop_last() + seq![src.last()]);
    }
}

} // verus!
