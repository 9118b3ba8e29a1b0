//! Schema migrations: which migrations still have to run, and how a migration's SQL text is cut
//! into statements (comments dropped, and `BEGIN … END` blocks of triggers kept whole).

use vstd::prelude::*;
use crate::fields::{contains_string, split_chars, string_views, split_spec};
use crate::text::{chars_of, contains_str, has_substring, string_of, trim_chars, trim_spec};

verus! {

// ---------------------------------------------------------------- outside character tests

/// What `char::is_alphanumeric` says of a character.
pub uninterp spec fn alphanumeric(c: char) -> bool;

/// `char::is_alphanumeric`. Its result is `alphanumeric`; for an ASCII character it is whether
/// the character is a letter or a digit.
#[verifier::external_body]
fn is_alphanumeric(c: char) -> (r: bool)
    ensures
        r == alphanumeric(c),
        (c as u32) < 128 ==> (r <==> (('a' <= c && c <= 'z') || ('A' <= c && c <= 'Z') || ('0' <= c && c <= '9'))),
{
    c.is_alphanumeric()
}

/// What `str::to_uppercase` returns: the Unicode upper-case mapping of each character.
pub uninterp spec fn uppercase_of(s: Seq<char>) -> Seq<char>;

/// `str::to_uppercase`.
#[verifier::external_body]
fn to_uppercase(s: &str) -> (r: String)
    ensures
        r@ == uppercase_of(s@),
{
    s.to_uppercase()
}

// ---------------------------------------------------------------- comments

/// A line's text before its first `--` (all of it when there is none).
pub open spec fn before_comment(t: Seq<char>) -> Seq<char>
    decreases t.len(),
{
    if t.len() < 2 {
        t
    } else if t[0] == '-' && t[1] == '-' {
        Seq::empty()
    } else {
        seq![t[0]] + before_comment(t.drop_first())
    }
}

/// What a line of a migration contributes to the cleaned text: the trimmed line up to its first
/// `--`, followed by a space, or nothing when that is empty (a comment line or a blank one).
pub open spec fn clean_line(line: Seq<char>) -> Seq<char> {
    let c = before_comment(trim_spec(line));
    if c.len() == 0 {
        Seq::empty()
    } else {
        c.push(' ')
    }
}

/// The cleaned text of some lines, in order.
pub open spec fn clean_lines(lines: Seq<Seq<char>>) -> Seq<char>
    decreases lines.len(),
{
    if lines.len() == 0 {
        Seq::empty()
    } else {
        clean_lines(lines.drop_last()) + clean_line(lines.last())
    }
}

/// A migration's text without comments, one line after another.
pub open spec fn clean_sql(sql: Seq<char>) -> Seq<char> {
    clean_lines(split_spec(sql, seq!['\n']))
}

proof fn lemma_before_comment_step(t: Seq<char>, i: int)
    requires
        0 <= i,
        i + 1 < t.len(),
        !(t[i] == '-' && t[i + 1] == '-'),
    ensures
        before_comment(t.skip(i)) == seq![t[i]] + before_comment(t.skip(i + 1)),
{
    let s = t.skip(i);
    assert(s[0] == t[i]);
    assert(s[1] == t[i + 1]);
    assert(s.drop_first() =~= t.skip(i + 1));
}

fn before_comment_chars(v: &Vec<char>) -> (r: Vec<char>)
    ensures
        r@ == before_comment(v@),
{
    let n = v.len();
    let mut r: Vec<char> = Vec::new();
    let mut i: usize = 0;
    assert(v@.skip(0) =~= v@);
    while i < n && i + 1 < n && !(v[i] == '-' && v[i + 1] == '-')
        invariant
            n == v@.len(),
            i <= n,
            before_comment(v@) == r@ + before_comment(v@.skip(i as int)),
        decreases n - i,
    {
        proof {
            lemma_before_comment_step(v@, i as int);
        }
        r.push(v[i]);
        assert(before_comment(v@) =~= r@ + before_comment(v@.skip(i + 1)));
        i = i + 1;
    }
    if i < n && i + 1 < n {
        proof {
            let s = v@.skip(i as int);
            assert(s[0] == v@[i as int] && s[1] == v@[i + 1]);
            assert(r@ + before_comment(s) =~= r@);
        }
    } else {
        assert(before_comment(v@.skip(i as int)) == v@.skip(i as int));
        while i < n
            invariant
                n == v@.len(),
                i <= n,
                before_comment(v@) == r@ + v@.skip(i as int),
            decreases n - i,
        {
            r.push(v[i]);
            assert(r@ + v@.skip(i + 1) =~= r@.drop_last() + v@.skip(i as int));
            i = i + 1;
        }
        assert(v@.skip(n as int) =~= Seq::<char>::empty());
        assert(r@ =~= r@ + v@.skip(n as int));
    }
    r
}

/// A migration's text without comments: each line trimmed and cut at its first `--`, the
/// non-empty ones joined, each followed by a space.
pub fn clean_migration_sql(sql: &str) -> (r: Vec<char>)
    ensures
        r@ == clean_sql(sql@),
{
    let chars = chars_of(sql);
    let mut nl: Vec<char> = Vec::new();
    nl.push('\n');
    assert(nl@ =~= seq!['\n']);
    let lines = split_chars(&chars, &nl);
    let mut out: Vec<char> = Vec::new();
    let mut i: usize = 0;
    while i < lines.len()
        invariant
            i <= lines@.len(),
            string_views(lines@) == split_spec(sql@, seq!['\n']),
            out@ == clean_lines(string_views(lines@).take(i as int)),
        decreases lines@.len() - i,
    {
        let line = chars_of(lines[i].as_str());
        let t = trim_chars(&line);
        let c = before_comment_chars(&t);
        let ghost before = out@;
        if c.len() > 0 {
            let mut j: usize = 0;
            while j < c.len()
                invariant
                    j <= c@.len(),
                    out@ == before + c@.take(j as int),
                decreases c@.len() - j,
            {
                out.push(c[j]);
                assert(c@.take(j + 1) =~= c@.take(j as int).push(c@[j as int]));
                j = j + 1;
            }
            out.push(' ');
            assert(c@.take(c@.len() as int) =~= c@);
        }
        proof {
            let ls = string_views(lines@);
            assert(ls.take(i + 1).drop_last() =~= ls.take(i as int));
            assert(ls.take(i + 1).last() == lines@[i as int]@);
            assert(out@ =~= clean_lines(ls.take(i as int)) + clean_line(lines@[i as int]@));
        }
        i = i + 1;
    }
    assert(string_views(lines@).take(lines@.len() as int) =~= string_views(lines@));
    out
}

// ---------------------------------------------------------------- statements

/// A character in lower case as far as ASCII goes (what `eq_ignore_ascii_case` compares).
pub open spec fn ascii_lower_code(c: char) -> u32 {
    if 'A' <= c && c <= 'Z' { ((c as u32) + 32) as u32 } else { c as u32 }
}

/// `s` ends with the word `w` (compared ignoring ASCII case), not preceded by an alphanumeric
/// character in `s` and not followed by one (`next`, the character after `s`, if any).
pub open spec fn keyword_at_end(s: Seq<char>, w: Seq<char>, next: Option<char>) -> bool {
    &&& s.len() >= w.len()
    &&& forall|i: int| 0 <= i < w.len() ==> ascii_lower_code(#[trigger] s[s.len() - w.len() + i]) == ascii_lower_code(w[i])
    &&& (s.len() == w.len() || !alphanumeric(s[s.len() - w.len() - 1]))
    &&& (next matches Some(c) ==> !alphanumeric(c))
}

/// Where the splitter stands: the statements so far, the statement being read, and how many
/// `BEGIN` blocks are open.
pub struct SplitState {
    pub statements: Seq<Seq<char>>,
    pub current: Seq<char>,
    pub depth: nat,
}

/// One character read: it joins the current statement; a `BEGIN` word that ends here opens a
/// block and an `END` word closes one; a `;` outside every block ends the statement, which is
/// kept trimmed unless it is empty.
pub open spec fn split_step(st: SplitState, c: char, next: Option<char>) -> SplitState {
    let cur = st.current.push(c);
    let d1 = if keyword_at_end(cur, "begin"@, next) { st.depth + 1 } else { st.depth };
    let d2: nat = if keyword_at_end(cur, "end"@, next) && d1 > 0 { (d1 - 1) as nat } else { d1 };
    if c == ';' && d2 == 0 {
        SplitState {
            statements: if trim_spec(cur).len() > 0 { st.statements.push(trim_spec(cur)) } else { st.statements },
            current: Seq::empty(),
            depth: d2,
        }
    } else {
        SplitState { statements: st.statements, current: cur, depth: d2 }
    }
}

/// The splitter after the first `n` characters of `text`.
pub open spec fn split_state(text: Seq<char>, n: nat) -> SplitState
    decreases n,
{
    if n == 0 {
        SplitState { statements: Seq::empty(), current: Seq::empty(), depth: 0 }
    } else {
        split_step(
            split_state(text, (n - 1) as nat),
            text[n - 1],
            if n < text.len() { Some(text[n as int]) } else { None },
        )
    }
}

/// The statements of a cleaned text: those the splitter ended, then what is left, trimmed,
/// unless it is empty.
pub open spec fn statements_of(text: Seq<char>) -> Seq<Seq<char>> {
    let st = split_state(text, text.len());
    if trim_spec(st.current).len() > 0 { st.statements.push(trim_spec(st.current)) } else { st.statements }
}

/// The statements of a migration, in order.
pub open spec fn sql_statements(sql: Seq<char>) -> Seq<Seq<char>> {
    statements_of(clean_sql(sql))
}

fn ascii_lower_code_exec(c: char) -> (r: u32)
    ensures
        r == ascii_lower_code(c),
{
    if 'A' <= c && c <= 'Z' { (c as u32) + 32 } else { c as u32 }
}

fn keyword_at_end_exec(s: &Vec<char>, w: &Vec<char>, next: Option<char>) -> (r: bool)
    ensures
        r == keyword_at_end(s@, w@, next),
{
    let n = s.len();
    let k = w.len();
    if n < k {
        return false;
    }
    let mut i: usize = 0;
    while i < k
        invariant
            n == s@.len(),
            k == w@.len(),
            k <= n,
            i <= k,
            forall|j: int| 0 <= j < i ==> ascii_lower_code(#[trigger] s@[n - k + j]) == ascii_lower_code(w@[j]),
        decreases k - i,
    {
        if ascii_lower_code_exec(s[n - k + i]) != ascii_lower_code_exec(w[i]) {
            assert(!(ascii_lower_code(s@[n - k + i as int]) == ascii_lower_code(w@[i as int])));
            return false;
        }
        i = i + 1;
    }
    if n > k && is_alphanumeric(s[n - k - 1]) {
        return false;
    }
    match next {
        Some(c) => !is_alphanumeric(c),
        None => true,
    }
}

fn push_trimmed(statements: &mut Vec<String>, current: &Vec<char>)
    ensures
        string_views(final(statements)@) == (if trim_spec(current@).len() > 0 {
            string_views(old(statements)@).push(trim_spec(current@))
        } else {
            string_views(old(statements)@)
        }),
{
    let t = trim_chars(current);
    if t.len() > 0 {
        let s = string_of(&t);
        let ghost before = statements@;
        statements.push(s);
        assert(string_views(statements@) =~= string_views(before).push(t@));
    }
}

/// Cuts a cleaned migration text into statements: at each `;` that stands outside every
/// `BEGIN … END` block, each statement trimmed and empty ones dropped.
pub fn split_statements(text: &Vec<char>) -> (r: Vec<String>)
    ensures
        string_views(r@) == statements_of(text@),
{
    let mut begin_word: Vec<char> = Vec::new();
    begin_word.push('b');
    begin_word.push('e');
    begin_word.push('g');
    begin_word.push('i');
    begin_word.push('n');
    let mut end_word: Vec<char> = Vec::new();
    end_word.push('e');
    end_word.push('n');
    end_word.push('d');
    proof {
        reveal_strlit("begin");
        reveal_strlit("end");
        assert(begin_word@ =~= "begin"@);
        assert(end_word@ =~= "end"@);
    }
    let n = text.len();
    let mut statements: Vec<String> = Vec::new();
    let mut current: Vec<char> = Vec::new();
    let mut depth: usize = 0;
    let mut i: usize = 0;
    while i < n
        invariant
            n == text@.len(),
            i <= n,
            begin_word@ == "begin"@,
            end_word@ == "end"@,
            depth <= i,
            string_views(statements@) == split_state(text@, i as nat).statements,
            current@ == split_state(text@, i as nat).current,
            depth as nat == split_state(text@, i as nat).depth,
        decreases n - i,
    {
        let c = text[i];
        let next = if i + 1 < n { Some(text[i + 1]) } else { None };
        current.push(c);
        if keyword_at_end_exec(&current, &begin_word, next) {
            depth = depth + 1;
        }
        if keyword_at_end_exec(&current, &end_word, next) && depth > 0 {
            depth = depth - 1;
        }
        if c == ';' && depth == 0 {
            push_trimmed(&mut statements, &current);
            current = Vec::new();
        }
        i = i + 1;
    }
    push_trimmed(&mut statements, &current);
    statements
}

/// Cuts a migration into the statements it runs, in order: comments are dropped, and a `;`
/// inside a `BEGIN … END` block (a trigger's body) does not end a statement.
pub fn split_migration_sql(sql: &str) -> (r: Vec<String>)
    ensures
        string_views(r@) == sql_statements(sql@),
{
    let cleaned = clean_migration_sql(sql);
    split_statements(&cleaned)
}

// ---------------------------------------------------------------- which migrations run

/// The indices of the versions that have not been applied, in order.
pub open spec fn pending_indices(applied: Seq<Seq<char>>, versions: Seq<Seq<char>>) -> Seq<int>
    decreases versions.len(),
{
    if versions.len() == 0 {
        Seq::empty()
    } else {
        let prev = pending_indices(applied, versions.drop_last());
        if applied.contains(versions.last()) { prev } else { prev.push(versions.len() - 1) }
    }
}

/// The migrations still to run: the indices, in order, of the versions that are not among the
/// applied ones.
pub fn pending_migrations(applied: &Vec<String>, versions: &Vec<String>) -> (r: Vec<usize>)
    ensures
        r@.len() == pending_indices(string_views(applied@), string_views(versions@)).len(),
        forall|k: int| 0 <= k < r@.len() ==> r@[k] as int == #[trigger] pending_indices(string_views(applied@), string_views(versions@))[k],
{
    let mut r: Vec<usize> = Vec::new();
    let mut i: usize = 0;
    while i < versions.len()
        invariant
            i <= versions@.len(),
            r@.len() == pending_indices(string_views(applied@), string_views(versions@).take(i as int)).len(),
            forall|k: int| 0 <= k < r@.len() ==> r@[k] as int == #[trigger] pending_indices(string_views(applied@), string_views(versions@).take(i as int))[k],
        decreases versions@.len() - i,
    {
        let vs = Ghost(string_views(versions@));
        assert(vs@.take(i + 1).drop_last() =~= vs@.take(i as int));
        assert(vs@.take(i + 1).last() == versions@[i as int]@);
        if !contains_string(applied, versions[i].as_str()) {
            r.push(i);
        }
        i = i + 1;
    }
    assert(string_views(versions@).take(versions@.len() as int) =~= string_views(versions@));
    r
}

/// What running one migration does.
#[derive(Debug, Clone)]
pub enum MigrationStep {
    /// It was applied before: nothing.
    AlreadyApplied,
    /// Its text is blank: nothing, and it is not recorded.
    Empty,
    /// Run these statements in one transaction, then record the version.
    Run(Vec<String>),
}

/// Decides what running a migration does: skip it when its version was applied, skip a blank
/// one, and otherwise run its statements.
pub fn plan_migration(applied: &Vec<String>, version: &str, sql: &str) -> (r: MigrationStep)
    ensures
        string_views(applied@).contains(version@) <==> r is AlreadyApplied,
        !string_views(applied@).contains(version@) ==> (trim_spec(sql@).len() == 0 <==> r is Empty),
        r matches MigrationStep::Run(s) ==> string_views(s@) == sql_statements(sql@),
{
    if contains_string(applied, version) {
        return MigrationStep::AlreadyApplied;
    }
    let t = trim_chars(&chars_of(sql));
    if t.len() == 0 {
        return MigrationStep::Empty;
    }
    MigrationStep::Run(split_migration_sql(sql))
}

/// A statement whose failure a migration tolerates: the creation of a vector index, which
/// needs `libsql_vector_idx` and is left out when the database lacks it.
pub open spec fn failure_tolerated(statement: Seq<char>) -> bool {
    has_substring(uppercase_of(statement), "LIBSQL_VECTOR_IDX"@)
}

/// Whether a migration goes on when this statement fails.
pub fn is_vector_index_statement(statement: &str) -> (r: bool)
    ensures
        r == failure_tolerated(statement@),
{
    let up = to_uppercase(statement);
    contains_str(&chars_of(up.as_str()), "LIBSQL_VECTOR_IDX")
}

} // verus!
