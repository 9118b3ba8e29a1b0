//! Splitting text into fields at separator characters and joining fields back.

use vstd::prelude::*;
use crate::text::{chars_of, push_char, push_str, str_eq};

verus! {

/// The views of a sequence of strings.
pub open spec fn string_views(v: Seq<String>) -> Seq<Seq<char>> {
    v.map_values(|x: String| x@)
}

/// The views of a sequence of string slices.
pub open spec fn str_views(v: Seq<&str>) -> Seq<Seq<char>> {
    v.map_values(|x: &str| x@)
}

/// The fields of `s` between the characters listed in `seps` (`str::split` with a set of
/// separator characters). There is always at least one field.
pub open spec fn split_spec(s: Seq<char>, seps: Seq<char>) -> Seq<Seq<char>>
    decreases s.len(),
{
    if s.len() == 0 {
        seq![Seq::<char>::empty()]
    } else {
        let prev = split_spec(s.drop_last(), seps);
        if seps.contains(s.last()) {
            prev.push(Seq::<char>::empty())
        } else {
            prev.update(prev.len() - 1, prev.last().push(s.last()))
        }
    }
}

/// The fields joined with `sep` between each two (`[_]::join`).
pub open spec fn join_spec(parts: Seq<Seq<char>>, sep: Seq<char>) -> Seq<char>
    decreases parts.len(),
{
    if parts.len() == 0 {
        Seq::<char>::empty()
    } else if parts.len() == 1 {
        parts[0]
    } else {
        join_spec(parts.drop_last(), sep) + sep + parts.last()
    }
}

/// No character of `s` is among `seps`.
pub open spec fn free_of(s: Seq<char>, seps: Seq<char>) -> bool {
    forall|i: int| 0 <= i < s.len() ==> !seps.contains(#[trigger] s[i])
}

pub proof fn lemma_split_len(s: Seq<char>, seps: Seq<char>)
    ensures
        split_spec(s, seps).len() >= 1,
    decreases s.len(),
{
    if s.len() > 0 {
        lemma_split_len(s.drop_last(), seps);
    }
}

proof fn lemma_split_append_plain(x: Seq<char>, b: Seq<char>, seps: Seq<char>)
    requires
        free_of(b, seps),
    ensures
        split_spec(x + b, seps) == split_spec(x, seps).update(
            split_spec(x, seps).len() - 1,
            split_spec(x, seps).last() + b,
        ),
    decreases b.len(),
{
    lemma_split_len(x, seps);
    let sx = split_spec(x, seps);
    if b.len() == 0 {
        assert(x + b =~= x);
        assert(sx.last() + b =~= sx.last());
        assert(sx.update(sx.len() - 1, sx.last()) =~= sx);
    } else {
        let b0 = b.drop_last();
        let d = b.last();
        assert(free_of(b0, seps)) by {
            assert forall|i: int| 0 <= i < b0.len() implies !seps.contains(#[trigger] b0[i]) by {
                assert(b0[i] == b[i]);
            }
        }
        lemma_split_append_plain(x, b0, seps);
        assert((x + b).drop_last() =~= x + b0);
        assert((x + b).last() == d);
        assert(!seps.contains(d)) by {
            assert(b[b.len() - 1] == d);
        }
        assert(sx.last() + b0 + seq![d] =~= sx.last() + b);
        let p = split_spec(x + b0, seps);
        assert(p.last() == sx.last() + b0);
        assert(p.last().push(d) =~= sx.last() + b);
        assert(split_spec(x + b, seps) =~= sx.update(sx.len() - 1, sx.last() + b));
    }
}

proof fn lemma_split_plain(b: Seq<char>, seps: Seq<char>)
    requires
        free_of(b, seps),
    ensures
        split_spec(b, seps) == seq![b],
{
    lemma_split_append_plain(Seq::<char>::empty(), b, seps);
    assert(Seq::<char>::empty() + b =~= b);
    assert(Seq::<char>::empty() + b =~= b);
    assert(split_spec(Seq::<char>::empty(), seps).update(0, Seq::<char>::empty() + b) =~= seq![b]);
}

proof fn lemma_split_after_sep(a: Seq<char>, c: char, b: Seq<char>, seps: Seq<char>)
    requires
        seps.contains(c),
        free_of(b, seps),
    ensures
        split_spec(a + seq![c] + b, seps) == split_spec(a, seps).push(b),
{
    let ac = a + seq![c];
    assert(ac.drop_last() =~= a);
    assert(ac.last() == c);
    assert(split_spec(ac, seps) == split_spec(a, seps).push(Seq::<char>::empty()));
    lemma_split_append_plain(ac, b, seps);
    let p = split_spec(a, seps).push(Seq::<char>::empty());
    assert(Seq::<char>::empty() + b =~= b);
    assert(p.update(p.len() - 1, p.last() + b) =~= split_spec(a, seps).push(b));
}

/// Splitting the joined fields at the separator gives the fields back, when there is at
/// least one field and no field holds the separator.
pub proof fn lemma_split_join(parts: Seq<Seq<char>>, c: char)
    requires
        parts.len() >= 1,
        forall|i: int| 0 <= i < parts.len() ==> free_of(#[trigger] parts[i], seq![c]),
    ensures
        split_spec(join_spec(parts, seq![c]), seq![c]) == parts,
    decreases parts.len(),
{
    assert(seq![c].contains(c)) by {
        assert(seq![c][0] == c);
    }
    if parts.len() == 1 {
        assert(free_of(parts[0], seq![c]));
        lemma_split_plain(parts[0], seq![c]);
        assert(seq![parts[0]] =~= parts);
    } else {
        let init = parts.drop_last();
        assert forall|i: int| 0 <= i < init.len() implies free_of(#[trigger] init[i], seq![c]) by {
            assert(init[i] == parts[i]);
        }
        lemma_split_join(init, c);
        assert(free_of(parts.last(), seq![c])) by {
            assert(parts[parts.len() - 1] == parts.last());
        }
        lemma_split_after_sep(join_spec(init, seq![c]), c, parts.last(), seq![c]);
        assert(init.push(parts.last()) =~= parts);
    }
}

/// The fields of `s` between the characters listed in `seps`.
pub fn split_chars(s: &Vec<char>, seps: &Vec<char>) -> (r: Vec<String>)
    ensures
        string_views(r@) == split_spec(s@, seps@),
{
    let mut parts: Vec<String> = Vec::new();
    let mut cur = String::new();
    let mut i: usize = 0;
    proof {
        assert(s@.take(0) =~= Seq::<char>::empty());
        assert(string_views(parts@).push(cur@) =~= seq![Seq::<char>::empty()]);
    }
    while i < s.len()
        invariant
            i <= s.len(),
            string_views(parts@).push(cur@) == split_spec(s@.take(i as int), seps@),
        decreases s.len() - i,
    {
        let c = s[i];
        let ghost before = s@.take(i as int);
        assert(s@.take(i + 1).drop_last() =~= before);
        assert(s@.take(i + 1).last() == c);
        let is_sep = crate::text::contains_char(seps, c);
        if is_sep {
            let done = cur;
            parts.push(done);
            cur = String::new();
            assert(string_views(parts@) =~= string_views(parts@.drop_last()).push(done@));
            assert(string_views(parts@).push(cur@) =~= split_spec(before, seps@).push(
                Seq::<char>::empty(),
            ));
        } else {
            let ghost old_cur = cur@;
            push_char(&mut cur, c);
            proof {
                lemma_split_len(before, seps@);
                let p = split_spec(before, seps@);
                assert(p.last() == old_cur);
                assert(string_views(parts@).push(cur@) =~= p.update(
                    p.len() - 1,
                    p.last().push(c),
                ));
            }
        }
        i = i + 1;
    }
    parts.push(cur);
    proof {
        assert(s@.take(s.len() as int) =~= s@);
        assert(string_views(parts@) =~= string_views(parts@.drop_last()).push(
            parts@.last()@,
        ));
    }
    parts
}

/// The fields of `s` between occurrences of the character `sep` (`str::split` with one
/// character).
pub fn split_str(s: &str, sep: char) -> (r: Vec<String>)
    ensures
        string_views(r@) == split_spec(s@, seq![sep]),
{
    let sv = chars_of(s);
    let mut seps: Vec<char> = Vec::new();
    seps.push(sep);
    assert(seps@ =~= seq![sep]);
    split_chars(&sv, &seps)
}

/// The strings joined with `sep` between each two.
pub fn join_strings(parts: &Vec<String>, sep: &str) -> (r: String)
    ensures
        r@ == join_spec(string_views(parts@), sep@),
{
    let mut r = String::new();
    let mut i: usize = 0;
    while i < parts.len()
        invariant
            i <= parts.len(),
            r@ == join_spec(string_views(parts@.take(i as int)), sep@),
        decreases parts.len() - i,
    {
        let ghost before = string_views(parts@.take(i as int));
        assert(string_views(parts@.take(i + 1)).drop_last() =~= before);
        assert(string_views(parts@.take(i + 1)).last() == parts@[i as int]@);
        if i > 0 {
            push_str(&mut r, sep);
        }
        push_str(&mut r, parts[i].as_str());
        proof {
            if i == 0 {
                assert(string_views(parts@.take(1)) =~= seq![parts@[0]@]);
                assert(Seq::<char>::empty() + parts@[0]@ =~= parts@[0]@);
            }
        }
        i = i + 1;
    }
    assert(parts@.take(parts.len() as int) =~= parts@);
    r
}

/// The string slices joined with `sep` between each two.
pub fn join_strs(parts: &[&str], sep: &str) -> (r: String)
    ensures
        r@ == join_spec(str_views(parts@), sep@),
{
    let mut r = String::new();
    let mut i: usize = 0;
    while i < parts.len()
        invariant
            i <= parts.len(),
            r@ == join_spec(str_views(parts@.take(i as int)), sep@),
        decreases parts.len() - i,
    {
        let ghost before = str_views(parts@.take(i as int));
        assert(str_views(parts@.take(i + 1)).drop_last() =~= before);
        assert(str_views(parts@.take(i + 1)).last() == parts@[i as int]@);
        if i > 0 {
            push_str(&mut r, sep);
        }
        push_str(&mut r, parts[i]);
        proof {
            if i == 0 {
                assert(str_views(parts@.take(1)) =~= seq![parts@[0]@]);
                assert(Seq::<char>::empty() + parts@[0]@ =~= parts@[0]@);
            }
        }
        i = i + 1;
    }
    assert(parts@.take(parts.len() as int) =~= parts@);
    r
}

/// Whether one of the strings equals `s`.
pub fn contains_string(v: &Vec<String>, s: &str) -> (r: bool)
    ensures
        r == string_views(v@).contains(s@),
{
    let mut i: usize = 0;
    while i < v.len()
        invariant
            i <= v@.len(),
            forall|k: int| 0 <= k < i ==> v@[k]@ != s@,
        decreases v@.len() - i,
    {
        if str_eq(v[i].as_str(), s) {
            assert(string_views(v@)[i as int] == s@);
            return true;
        }
        i = i + 1;
    }
    assert(!string_views(v@).contains(s@)) by {
        if string_views(v@).contains(s@) {
            let k = choose|k: int| 0 <= k < v@.len() && string_views(v@)[k] == s@;
            assert(v@[k]@ == s@);
        }
    }
    false
}

} // verus!
