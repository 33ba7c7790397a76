//! The query builder, its list helper, and the values that can be bound as
//! literals.

use vstd::prelude::*;
use crate::sql::{escaped, push_char, quoted};
use crate::sql::number::{decimal, write_decimal};

verus! {

/// A query text under construction. Its view is the text gathered so far.
pub struct QueryBuilder {
    query: String,
}

impl View for QueryBuilder {
    type V = Seq<char>;

    closed spec fn view(&self) -> Seq<char> {
        self.query@
    }
}

/// A value that can stand in a query as a literal. Integers are written in
/// decimal, text is quoted as a string literal, and a `Vec` of literals is a
/// bracketed list of them; other types may join in.
pub trait SqlLiteral {
    /// The text of the literal, quoted and escaped as its type asks.
    spec fn literal(&self) -> Seq<char>;

    /// Appends the literal's text to `f` and leaves what `f` held in front of it.
    fn fmt(&self, f: &mut String)
        ensures
            final(f)@ == old(f)@ + self.literal(),
    ;
}

impl QueryBuilder {
    /// A builder whose text so far is `init`.
    pub fn new(init: &str) -> (qb: Self)
        ensures
            qb@ == init@,
    {
        QueryBuilder { query: init.to_owned() }
    }

    /// The text that was built.
    pub fn build(self) -> (query: String)
        ensures
            query@ == self@,
    {
        self.query
    }

    /// Appends `sql` as it is, with no quoting and no escaping.
    pub fn push(&mut self, sql: &str) -> (qb: &mut Self)
        ensures
            qb@ == old(self)@ + sql@,
            *final(self) == *final(qb),
    {
        self.query.append(sql);
        self
    }

    /// Appends `value` as a literal.
    pub fn push_bind<T: SqlLiteral>(&mut self, value: T) -> (qb: &mut Self)
        ensures
            qb@ == old(self)@ + value.literal(),
            *final(self) == *final(qb),
    {
        value.fmt(&mut self.query);
        self
    }

    /// Starts a list on this builder whose items `separator` will keep apart. The
    /// list holds the builder until it is dropped; what it appended is then the
    /// builder's text.
    pub fn separated<'qb, 's>(&'qb mut self, separator: &'s str) -> (list: Separated<'qb, 's>)
        ensures
            list.qb@ == old(self)@,
            !list.push_separator,
            list.separator@ == separator@,
            *final(self) == *final(list.qb),
    {
        Separated::new(self, separator)
    }
}

/// A list being appended to a builder, item by item, with a separator between
/// two items and none before the first. It borrows the builder for as long as
/// it lives.
pub struct Separated<'qb, 's> {
    /// Whether an item was pushed, so that the next one gets the separator in front.
    pub push_separator: bool,
    /// The text that keeps two items apart.
    pub separator: &'s str,
    /// The builder that the list appends to.
    pub qb: &'qb mut QueryBuilder,
}

impl<'qb, 's> Separated<'qb, 's> {
    /// What goes in front of the next item: nothing before the first item, the
    /// separator from then on.
    pub open spec fn lead(&self) -> Seq<char> {
        if self.push_separator {
            self.separator@
        } else {
            Seq::empty()
        }
    }

    /// A list on `qb` with no item yet.
    fn new(qb: &'qb mut QueryBuilder, sep: &'s str) -> (list: Self)
        ensures
            list.qb@ == old(qb)@,
            !list.push_separator,
            list.separator@ == sep@,
            *final(qb) == *final(list.qb),
    {
        Separated { push_separator: false, separator: sep, qb }
    }

    /// Appends `sql` as it is, with no separator, and does not count it as an item.
    pub fn push_unseparated(&mut self, sql: &str) -> (list: &mut Self)
        ensures
            list.qb@ == old(self).qb@ + sql@,
            list.push_separator == old(self).push_separator,
            list.separator@ == old(self).separator@,
            *final(list.qb) == *final(old(self).qb),
            *final(self) == *final(list),
    {
        self.qb.push(sql);
        self
    }

    /// Appends `sql` as it is as the next item: after the separator, unless it is
    /// the first item.
    pub fn push(&mut self, sql: &str) -> (list: &mut Self)
        ensures
            list.qb@ == old(self).qb@ + old(self).lead() + sql@,
            list.push_separator,
            list.separator@ == old(self).separator@,
            *final(list.qb) == *final(old(self).qb),
            *final(self) == *final(list),
    {
        if self.push_separator {
            self.qb.push(self.separator);
            self.qb.push(sql);
        } else {
            self.qb.push(sql);
            self.push_separator = true;
        }
        self
    }

    /// Appends `value` as a literal as the next item: after the separator, unless
    /// it is the first item.
    pub fn push_bind<T: SqlLiteral>(&mut self, value: T) -> (list: &mut Self)
        ensures
            list.qb@ == old(self).qb@ + old(self).lead() + value.literal(),
            list.push_separator,
            list.separator@ == old(self).separator@,
            *final(list.qb) == *final(old(self).qb),
            *final(self) == *final(list),
    {
        if self.push_separator {
            self.qb.push(self.separator);
        }
        self.qb.push_bind(value);
        self.push_separator = true;
        self
    }
}

/// The literals of `items`, in order, with a comma and a space between two of them.
pub open spec fn joined<T: SqlLiteral>(items: Seq<T>) -> Seq<char>
    decreases items.len(),
{
    if items.len() == 0 {
        Seq::empty()
    } else if items.len() == 1 {
        items[0].literal()
    } else {
        joined(items.drop_last()) + seq![',', ' '] + items.last().literal()
    }
}

/// Text is a string literal: between single quotes, with a backslash before
/// each single quote and each backslash in it.
impl SqlLiteral for &str {
    open spec fn literal(&self) -> Seq<char> {
        quoted(self@, '\'')
    }

    fn fmt(&self, f: &mut String) {
        let inner = escape_string(self);
        f.append("'");
        f.append(inner.as_str());
        f.append("'");
        proof {
            reveal_strlit("'");
        }
    }
}

/// An owned text is the same literal as the text it holds.
impl SqlLiteral for String {
    open spec fn literal(&self) -> Seq<char> {
        quoted(self@, '\'')
    }

    fn fmt(&self, f: &mut String) {
        SqlLiteral::fmt(&self.as_str(), f)
    }
}

/// A sequence is its items' literals between square brackets, with a comma and
/// a space between two of them; the empty sequence is `[]`.
impl<T: SqlLiteral> SqlLiteral for Vec<T> {
    open spec fn literal(&self) -> Seq<char> {
        seq!['['] + joined(self@) + seq![']']
    }

    fn fmt(&self, f: &mut String) {
        f.append("[");
        proof {
            reveal_strlit("[");
        }
        let mut push_separator = false;
        let mut i: usize = 0;
        while i < self.len()
            invariant
                i <= self.len(),
                push_separator == (i > 0),
                f@ == old(f)@ + seq!['['] + joined(self@.take(i as int)),
            decreases self.len() - i,
        {
            if push_separator {
                f.append(", ");
            } else {
                push_separator = true;
            }
            self[i].fmt(f);
            proof {
                reveal_strlit(", ");
                assert(self@.take(i + 1).drop_last() == self@.take(i as int));
            }
            i = i + 1;
        }
        f.append("]");
        proof {
            reveal_strlit("]");
            assert(self@.take(self.len() as int) == self@);
        }
    }
}

/// An integer is its decimal text.
impl SqlLiteral for i32 {
    open spec fn literal(&self) -> Seq<char> {
        decimal(*self as int)
    }

    fn fmt(&self, f: &mut String) {
        write_decimal(*self as i64, f)
    }
}

/// An integer is its decimal text.
impl SqlLiteral for u32 {
    open spec fn literal(&self) -> Seq<char> {
        decimal(*self as int)
    }

    fn fmt(&self, f: &mut String) {
        write_decimal(*self as i64, f)
    }
}

/// An integer is its decimal text.
impl SqlLiteral for i16 {
    open spec fn literal(&self) -> Seq<char> {
        decimal(*self as int)
    }

    fn fmt(&self, f: &mut String) {
        write_decimal(*self as i64, f)
    }
}

/// An integer is its decimal text.
impl SqlLiteral for u16 {
    open spec fn literal(&self) -> Seq<char> {
        decimal(*self as int)
    }

    fn fmt(&self, f: &mut String) {
        write_decimal(*self as i64, f)
    }
}

/// An integer is its decimal text.
impl SqlLiteral for i8 {
    open spec fn literal(&self) -> Seq<char> {
        decimal(*self as int)
    }

    fn fmt(&self, f: &mut String) {
        write_decimal(*self as i64, f)
    }
}

/// An integer is its decimal text.
impl SqlLiteral for u8 {
    open spec fn literal(&self) -> Seq<char> {
        decimal(*self as int)
    }

    fn fmt(&self, f: &mut String) {
        write_decimal(*self as i64, f)
    }
}

/// The text of `s` with a backslash before each single quote and each backslash.
pub fn escape_string(s: &str) -> (r: String)
    ensures
        r@ == escaped(s@, '\''),
{
    let mut r = String::new();
    for c in it: s.chars()
        invariant
            it.seq() == s@,
            r@ == escaped(s@.take(it.index() as int), '\''),
    {
        assert(s@.take(it.index() + 1).drop_last() == s@.take(it.index() as int));
        if c == '\'' {
            r.append("\\'");
        } else if c == '\\' {
            r.append("\\\\");
        } else {
            push_char(&mut r, c);
        }
        proof {
            reveal_strlit("\\'");
            reveal_strlit("\\\\");
        }
    }
    assert(s@.take(s@.len() as int) == s@);
    r
}

} // verus!
