//! Text shaping for the search index and previews: white-space normalisation, the first
//! line of a text, and previews cut to a number of characters.

use vstd::prelude::*;
use crate::text::{chars_of, is_white_space, is_white_space_char, string_of, trim_chars, trim_spec};

verus! {

/// `s` with every run of white space collapsed to one character: a line break when the run
/// holds one, a space otherwise.
pub open spec fn collapse_space(s: Seq<char>) -> Seq<char>
    decreases s.len(),
{
    if s.len() == 0 {
        Seq::<char>::empty()
    } else {
        let p = collapse_space(s.drop_last());
        let c = s.last();
        if !is_white_space(c) {
            p.push(c)
        } else if p.len() > 0 && (p.last() == ' ' || p.last() == '\n') && is_white_space(s.drop_last().last()) {
            if c == '\n' {
                p.update(p.len() - 1, '\n')
            } else {
                p
            }
        } else {
            p.push(if c == '\n' { '\n' } else { ' ' })
        }
    }
}

/// Text as the search index holds it: white-space runs collapsed, no white space at either
/// end.
pub open spec fn normalized_text(s: Seq<char>) -> Seq<char> {
    trim_spec(collapse_space(s))
}

/// The characters before the first line break (all of them when there is none).
pub open spec fn first_line(s: Seq<char>) -> Seq<char>
    decreases s.len(),
{
    if s.len() == 0 {
        s
    } else if s[0] == '\n' {
        Seq::<char>::empty()
    } else {
        seq![s[0]] + first_line(s.drop_first())
    }
}

/// The first line of a text, trimmed.
pub open spec fn first_line_trimmed(s: Seq<char>) -> Seq<char> {
    trim_spec(first_line(s))
}

/// A preview of at most `max_chars` characters of the text, followed by an ellipsis when the
/// text was cut.
pub open spec fn preview_of(s: Seq<char>, max_chars: nat) -> Seq<char> {
    if s.len() <= max_chars {
        s
    } else {
        s.take(max_chars as int).push('…')
    }
}

/// Collapses white-space runs and trims the ends.
pub fn normalize_search_text(text: &str) -> (r: String)
    ensures
        r@ == normalized_text(text@),
{
    let s = chars_of(text);
    let mut out: Vec<char> = Vec::new();
    let mut i: usize = 0;
    while i < s.len()
        invariant
            i <= s.len(),
            out@ == collapse_space(s@.take(i as int)),
        decreases s.len() - i,
    {
        let c = s[i];
        let ghost prev = s@.take(i as int);
        assert(s@.take(i + 1).drop_last() =~= prev);
        assert(s@.take(i + 1).last() == c);
        let ws = is_white_space_char(c);
        if !ws {
            out.push(c);
        } else {
            let prev_ws = i > 0 && is_white_space_char(s[i - 1]);
            proof {
                if i > 0 {
                    assert(prev.last() == s@[i - 1]);
                }
            }
            let n = out.len();
            if n > 0 && (out[n - 1] == ' ' || out[n - 1] == '\n') && prev_ws {
                if c == '\n' {
                    out.set(n - 1, '\n');
                }
            } else {
                out.push(if c == '\n' { '\n' } else { ' ' });
            }
        }
        i = i + 1;
    }
    assert(s@.take(s.len() as int) =~= s@);
    let t = trim_chars(&out);
    string_of(&t)
}

/// The first line of a text, trimmed.
pub fn first_search_line(text: &str) -> (r: String)
    ensures
        r@ == first_line_trimmed(text@),
{
    let s = chars_of(text);
    let mut line: Vec<char> = Vec::new();
    let mut i: usize = 0;
    while i < s.len() && s[i] != '\n'
        invariant
            i <= s.len(),
            line@ == s@.take(i as int),
            forall|k: int| 0 <= k < i ==> s@[k] != '\n',
        decreases s.len() - i,
    {
        line.push(s[i]);
        assert(s@.take(i + 1) =~= s@.take(i as int).push(s@[i as int]));
        i = i + 1;
    }
    proof {
        lemma_first_line(s@, i as int);
    }
    let t = trim_chars(&line);
    string_of(&t)
}

proof fn lemma_first_line(s: Seq<char>, i: int)
    requires
        0 <= i <= s.len(),
        forall|k: int| 0 <= k < i ==> s[k] != '\n',
        i == s.len() || s[i] == '\n',
    ensures
        first_line(s) == s.take(i),
    decreases s.len(),
{
    if s.len() == 0 {
        assert(s.take(0) =~= s);
    } else if i == 0 {
        assert(s.take(0) =~= Seq::<char>::empty());
    } else {
        lemma_first_line(s.drop_first(), i - 1);
        assert(seq![s[0]] + s.drop_first().take(i - 1) =~= s.take(i));
    }
}

/// A preview of at most `max_chars` characters, with an ellipsis when the text was cut.
pub fn truncate_preview(text: &str, max_chars: usize) -> (r: String)
    ensures
        r@ == preview_of(text@, max_chars as nat),
{
    let s = chars_of(text);
    if s.len() <= max_chars {
        return string_of(&s);
    }
    let mut out: Vec<char> = Vec::new();
    let mut i: usize = 0;
    while i < max_chars
        invariant
            i <= max_chars < s.len(),
            out@ == s@.take(i as int),
        decreases max_chars - i,
    {
        out.push(s[i]);
        assert(s@.take(i + 1) =~= s@.take(i as int).push(s@[i as int]));
        i = i + 1;
    }
    out.push('…');
    string_of(&out)
}

} // verus!
