//! SQL text built from values: string literals with their quotes doubled, and the lists of
//! ids that `IN (...)` clauses hold.

use vstd::prelude::*;
use crate::fields::{join_spec, join_strings, string_views};
use crate::text::{chars_of, string_of};

verus! {

/// The text with every occurrence of the quote character `q` doubled.
pub open spec fn doubled(s: Seq<char>, q: char) -> Seq<char>
    decreases s.len(),
{
    if s.len() == 0 {
        Seq::<char>::empty()
    } else {
        doubled(s.drop_last(), q) + (if s.last() == q { seq![q, q] } else { seq![s.last()] })
    }
}

/// Reading a doubled text back: a pair of quote characters stands for one.
pub open spec fn undoubled(s: Seq<char>, q: char) -> Seq<char>
    decreases s.len(),
{
    if s.len() == 0 {
        Seq::<char>::empty()
    } else if s[0] == q && s.len() >= 2 && s[1] == q {
        seq![q] + undoubled(s.subrange(2, s.len() as int), q)
    } else {
        seq![s[0]] + undoubled(s.drop_first(), q)
    }
}

/// Doubling distributes over concatenation.
pub proof fn lemma_doubled_append(a: Seq<char>, b: Seq<char>, q: char)
    ensures
        doubled(a + b, q) == doubled(a, q) + doubled(b, q),
    decreases b.len(),
{
    if b.len() == 0 {
        assert(a + b =~= a);
        assert(doubled(a, q) + doubled(b, q) =~= doubled(a, q));
    } else {
        assert((a + b).drop_last() =~= a + b.drop_last());
        lemma_doubled_append(a, b.drop_last(), q);
        assert(doubled(a, q) + doubled(b.drop_last(), q) + (if b.last() == q { seq![q, q] } else { seq![b.last()] })
            =~= doubled(a, q) + doubled(b, q));
    }
}

/// A doubled text reads back as the text it was made from.
pub proof fn law_undouble_doubled(s: Seq<char>, q: char)
    ensures
        undoubled(doubled(s, q), q) == s,
    decreases s.len(),
{
    if s.len() > 0 {
        let head = seq![s[0]];
        let rest = s.drop_first();
        assert(head + rest =~= s);
        lemma_doubled_append(head, rest, q);
        assert(head.drop_last() =~= Seq::<char>::empty());
        assert(doubled(head.drop_last(), q) == Seq::<char>::empty());
        assert(head.last() == s[0]);
        assert(doubled(head, q) =~= (if s[0] == q { seq![q, q] } else { seq![s[0]] }));
        let d = doubled(s, q);
        law_undouble_doubled(rest, q);
        if s[0] == q {
            assert(d.subrange(2, d.len() as int) =~= doubled(rest, q));
        } else {
            assert(d.drop_first() =~= doubled(rest, q));
        }
        assert(undoubled(d, q) =~= s);
    }
}

/// A string literal of SQL: the text between single quotes, each single quote doubled.
pub open spec fn sql_literal(s: Seq<char>) -> Seq<char> {
    seq!['\''] + doubled(s, '\'') + seq!['\'']
}

/// The SQL string literal of a text (`O'Brien` gives `'O''Brien'`).
pub fn quote_sql_literal(s: &str) -> (r: String)
    ensures
        r@ == sql_literal(s@),
{
    let v = chars_of(s);
    let mut out: Vec<char> = Vec::new();
    out.push('\'');
    let mut i: usize = 0;
    while i < v.len()
        invariant
            i <= v@.len(),
            out@ == seq!['\''] + doubled(v@.take(i as int), '\''),
        decreases v@.len() - i,
    {
        assert(v@.take(i + 1).drop_last() =~= v@.take(i as int));
        let c = v[i];
        if c == '\'' {
            out.push('\'');
            out.push('\'');
        } else {
            out.push(c);
        }
        assert(out@ =~= seq!['\''] + doubled(v@.take(i + 1), '\''));
        i = i + 1;
    }
    assert(v@.take(v@.len() as int) =~= v@);
    out.push('\'');
    string_of(&out)
}

/// The literals of these ids, in order.
pub open spec fn sql_literals(ids: Seq<Seq<char>>) -> Seq<Seq<char>> {
    Seq::new(ids.len(), |i: int| sql_literal(ids[i]))
}

/// The list an `IN (...)` clause holds: each id as an SQL string literal, comma-separated.
pub fn sql_in_list(ids: &Vec<String>) -> (r: String)
    ensures
        r@ == join_spec(sql_literals(string_views(ids@)), ", "@),
{
    let mut parts: Vec<String> = Vec::new();
    let mut i: usize = 0;
    while i < ids.len()
        invariant
            i <= ids@.len(),
            string_views(parts@) == sql_literals(string_views(ids@)).take(i as int),
        decreases ids@.len() - i,
    {
        let lit = quote_sql_literal(ids[i].as_str());
        let ghost before = parts@;
        parts.push(lit);
        assert(string_views(parts@) =~= string_views(before).push(sql_literal(ids@[i as int]@)));
        assert(sql_literals(string_views(ids@)).take(i + 1) =~= sql_literals(string_views(ids@)).take(i as int).push(
            sql_literal(ids@[i as int]@),
        ));
        i = i + 1;
    }
    assert(sql_literals(string_views(ids@)).take(ids@.len() as int) =~= sql_literals(string_views(ids@)));
    join_strings(&parts, ", ")
}

} // verus!
