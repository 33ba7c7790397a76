//! Quoting and escaping of string literals and identifiers, and the modules
//! built on it.

pub mod laws;
pub mod number;
pub mod query_builder;

pub use query_builder::{QueryBuilder, Separated, SqlLiteral};

use vstd::prelude::*;

verus! {

/// The text that stands for the character `c` inside a token delimited by `quote`:
/// the delimiter and the backslash each get a backslash in front, every other
/// character (a newline too) stands for itself.
pub open spec fn escape_char(c: char, quote: char) -> Seq<char> {
    if c == quote {
        seq!['\\', quote]
    } else if c == '\\' {
        seq!['\\', '\\']
    } else {
        seq![c]
    }
}

/// The characters of `src`, each replaced by `escape_char`, in order.
pub open spec fn escaped(src: Seq<char>, quote: char) -> Seq<char>
    decreases src.len(),
{
    if src.len() == 0 {
        Seq::empty()
    } else {
        escaped(src.drop_last(), quote) + escape_char(src.last(), quote)
    }
}

/// The token for `src`: its escaped text between two delimiters.
pub open spec fn quoted(src: Seq<char>, quote: char) -> Seq<char> {
    seq![quote] + escaped(src, quote) + seq![quote]
}

/// Appends to `dst` the string literal for `src`: `src` between single quotes,
/// with a backslash before each single quote and each backslash in it. What is
/// appended begins and ends with a single quote.
pub fn string(src: &str, dst: &mut String)
    ensures
        final(dst)@ == old(dst)@ + quoted(src@, '\''),
        final(dst)@[old(dst)@.len() as int] == '\'',
        final(dst)@.last() == '\'',
{
    escape(src, dst, '\'')
}

/// Appends to `dst` the identifier for `src`: `src` between backticks, with a
/// backslash before each backtick and each backslash in it. What is appended
/// begins and ends with a backtick.
pub fn identifier(src: &str, dst: &mut String)
    ensures
        final(dst)@ == old(dst)@ + quoted(src@, '`'),
        final(dst)@[old(dst)@.len() as int] == '`',
        final(dst)@.last() == '`',
{
    escape(src, dst, '`')
}

/// Appends to `dst` the token for `src` delimited by `ch`: `ch`, then the
/// characters of `src` with a backslash before each `ch` and each backslash, then
/// `ch` again. What `dst` held before stays in front.
pub fn escape(src: &str, dst: &mut String, ch: char)
    ensures
        final(dst)@ == old(dst)@ + quoted(src@, ch),
{
    push_char(dst, ch);
    for c in it: src.chars()
        invariant
            it.seq() == src@,
            dst@ == old(dst)@.push(ch) + escaped(src@.take(it.index() as int), ch),
    {
        assert(src@.take(it.index() + 1).drop_last() == src@.take(it.index() as int));
        if c == ch {
            push_char(dst, '\\');
            push_char(dst, ch);
        } else if c == '\\' {
            dst.append("\\\\");
            proof {
                reveal_strlit("\\\\");
            }
        } else {
            push_char(dst, c);
        }
    }
    assert(src@.take(src@.len() as int) == src@);
    push_char(dst, ch);
}

/// Calls `String::push`. Taken on trust, not proved: the call puts the one
/// character `c` at the end of `s` and leaves what `s` held in front of it.
#[verifier::external_body]
pub(crate) fn push_char(s: &mut String, c: char)
    ensures
        final(s)@ == old(s)@.push(c),
{
    s.push(c);
}

} // verus!
