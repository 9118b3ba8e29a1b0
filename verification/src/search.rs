//! Search: resource type filters, query escaping, result filters, keyword-search paging and
//! the documents that the search index holds.

use vstd::prelude::*;
use crate::cursor::{cursor_key, cursor_of, decode, encode};
use crate::decimal::{decimal_of, lemma_parse_decimal, parse_usize, parse_usize_spec, usize_to_decimal};
use crate::error::{concat2, AppError};
use crate::fields::string_views;
use crate::text::{chars_of, push_char, push_str, seq_less, str_eq, str_less, to_lowercase, lowercase_of};

verus! {

/// Resource type filter for search.
#[derive(Debug, Clone, Copy, PartialEq, Eq, Structural)]
pub enum ResourceType {
    Entry,
    Task,
    SubTask,
    Goal,
    Tag,
    Bookmark,
}

/// The resource type a name denotes, compared in lower case.
pub open spec fn resource_type_named(s: Seq<char>) -> Option<ResourceType> {
    let l = lowercase_of(s);
    if l == "entry"@ {
        Some(ResourceType::Entry)
    } else if l == "task"@ {
        Some(ResourceType::Task)
    } else if l == "subtask"@ {
        Some(ResourceType::SubTask)
    } else if l == "goal"@ {
        Some(ResourceType::Goal)
    } else if l == "tag"@ {
        Some(ResourceType::Tag)
    } else if l == "bookmark"@ {
        Some(ResourceType::Bookmark)
    } else {
        None
    }
}

impl ResourceType {
    /// The resource type a name denotes, in any case (`"ENTRY"` is `Entry`).
    pub fn from_str(s: &str) -> (r: Option<Self>)
        ensures
            r == resource_type_named(s@),
    {
        let l = to_lowercase(s);
        let l = l.as_str();
        if str_eq(l, "entry") {
            Some(ResourceType::Entry)
        } else if str_eq(l, "task") {
            Some(ResourceType::Task)
        } else if str_eq(l, "subtask") {
            Some(ResourceType::SubTask)
        } else if str_eq(l, "goal") {
            Some(ResourceType::Goal)
        } else if str_eq(l, "tag") {
            Some(ResourceType::Tag)
        } else if str_eq(l, "bookmark") {
            Some(ResourceType::Bookmark)
        } else {
            None
        }
    }
}

/// All resource types, in the order search visits them.
pub open spec fn all_resource_types() -> Seq<ResourceType> {
    seq![
        ResourceType::Entry,
        ResourceType::Task,
        ResourceType::SubTask,
        ResourceType::Goal,
        ResourceType::Tag,
        ResourceType::Bookmark,
    ]
}

/// The resource types a search covers: the requested ones, or all of them.
pub fn search_types(types: Option<Vec<ResourceType>>) -> (r: Vec<ResourceType>)
    ensures
        types matches Some(t) ==> r@ == t@,
        types is None ==> r@ == all_resource_types(),
{
    match types {
        Some(t) => t,
        None => {
            let v = vec![
                ResourceType::Entry,
                ResourceType::Task,
                ResourceType::SubTask,
                ResourceType::Goal,
                ResourceType::Tag,
                ResourceType::Bookmark,
            ];
            assert(v@ =~= all_resource_types());
            v
        },
    }
}

/// The number of results a search returns: the requested limit, 50 by default, at most 100.
pub open spec fn result_limit(limit: Option<u32>) -> nat {
    let l = match limit {
        Some(l) => l as nat,
        None => 50,
    };
    if l < 100 {
        l
    } else {
        100
    }
}

/// The number of results a search returns.
pub fn search_limit(limit: Option<u32>) -> (r: usize)
    ensures
        r == result_limit(limit),
{
    let l: u32 = match limit {
        Some(l) => l,
        None => 50,
    };
    if l < 100 {
        l as usize
    } else {
        100
    }
}

/// The query with every double quote doubled, so FTS5 reads it as literal text.
pub open spec fn escaped_query(q: Seq<char>) -> Seq<char> {
    crate::sql::doubled(q, '"')
}

/// Escapes the special characters of an FTS5 query: each `"` becomes `""`.
pub fn escape_fts_query(query: &str) -> (r: String)
    ensures
        r@ == escaped_query(query@),
{
    let q = chars_of(query);
    let mut r = String::new();
    let mut i: usize = 0;
    while i < q.len()
        invariant
            i <= q.len(),
            r@ == escaped_query(q@.take(i as int)),
        decreases q.len() - i,
    {
        assert(q@.take(i + 1).drop_last() =~= q@.take(i as int));
        assert(q@.take(i + 1).last() == q@[i as int]);
        let c = q[i];
        let ghost before = r@;
        if c == '"' {
            push_char(&mut r, '"');
            push_char(&mut r, '"');
            assert(before.push('"').push('"') =~= before + seq!['"', '"']);
        } else {
            push_char(&mut r, c);
            assert(before.push(c) =~= before + seq![c]);
        }
        i = i + 1;
    }
    assert(q@.take(q.len() as int) =~= q@);
    r
}

/// A result of the given type passes the type filter: there is none, or it lists the type.
pub open spec fn type_allowed(resource_types: Option<Seq<Seq<char>>>, resource_type: Seq<char>) -> bool {
    match resource_types {
        Some(types) => types.contains(resource_type),
        None => true,
    }
}

/// Whether a result of the given type passes the type filter.
pub fn matches_resource_type(resource_types: &Option<Vec<String>>, resource_type: &str) -> (r: bool)
    ensures
        r == type_allowed(
            match resource_types {
                Some(t) => Some(string_views(t@)),
                None => None,
            },
            resource_type@,
        ),
{
    match resource_types {
        None => true,
        Some(types) => {
            let mut i: usize = 0;
            while i < types.len()
                invariant
                    i <= types.len(),
                    *resource_types == Some(*types),
                    forall|k: int| 0 <= k < i ==> types@[k]@ != resource_type@,
                decreases types.len() - i,
            {
                if str_eq(types[i].as_str(), resource_type) {
                    assert(string_views(types@)[i as int] == resource_type@);
                    assert(string_views(types@).contains(resource_type@));
                    return true;
                }
                i = i + 1;
            }
            assert(!string_views(types@).contains(resource_type@)) by {
                if string_views(types@).contains(resource_type@) {
                    let k = choose|k: int| 0 <= k < string_views(types@).len() && string_views(types@)[k] == resource_type@;
                    assert(types@[k]@ == resource_type@);
                }
            }
            false
        },
    }
}

/// A timestamp lies in the range: not before `date_from` and not after `date_to`, compared
/// as text.
pub open spec fn in_date_range(value: Seq<char>, date_from: Option<Seq<char>>, date_to: Option<Seq<char>>) -> bool {
    &&& (date_from matches Some(f) ==> !seq_less(value, f))
    &&& (date_to matches Some(t) ==> !seq_less(t, value))
}

/// Whether a timestamp lies in the date range.
pub fn matches_date_range(value: &str, date_from: Option<&str>, date_to: Option<&str>) -> (r: bool)
    ensures
        r == in_date_range(
            value@,
            match date_from { Some(f) => Some(f@), None => None },
            match date_to { Some(t) => Some(t@), None => None },
        ),
{
    if let Some(from) = date_from {
        if str_less(value, from) {
            return false;
        }
    }
    if let Some(to) = date_to {
        if str_less(to, value) {
            return false;
        }
    }
    true
}

/// The offset a keyword search starts at: the one the cursor stands for, or the requested
/// offset (0 by default) when there is no cursor.
pub fn search_offset(cursor: Option<&str>, offset: Option<u32>) -> (r: Result<usize, AppError>)
    ensures
        cursor is None ==> r == Ok::<usize, AppError>(match offset { Some(o) => o as usize, None => 0 }),
        cursor matches Some(c) ==> (r is Ok <==> (cursor_key(c@) matches Some(k) && parse_usize_spec(k) is Some)),
        cursor matches Some(c) ==> (r matches Ok(n) ==> cursor_key(c@) matches Some(k) && parse_usize_spec(k) == Some(n)),
        r matches Err(e) ==> e is BadRequest,
        cursor matches Some(c) ==> forall|n: usize| #[trigger] cursor_of(decimal_of(n as nat)) == c@ ==> r == Ok::<usize, AppError>(n),
{
    match cursor {
        None => Ok(match offset {
            Some(o) => o as usize,
            None => 0,
        }),
        Some(c) => {
            let decoded = decode(c)?;
            proof {
                assert forall|n: usize| #[trigger] cursor_of(decimal_of(n as nat)) == c@ implies parse_usize_spec(decoded@) == Some(n) by {
                    lemma_parse_decimal(n);
                }
            }
            match parse_usize(decoded.as_str()) {
                Some(n) => Ok(n),
                None => {
                    let mut m = concat2("Invalid search cursor offset '", decoded.as_str());
                    push_str(&mut m, "': invalid digit found in string");
                    Err(AppError::BadRequest(m))
                },
            }
        },
    }
}

/// One page of keyword results from the filtered list: up to `limit` results from
/// `offset`, whether more follow, and the cursor of the next page when they do.
pub open spec fn page_items<T>(results: Seq<T>, offset: nat, limit: nat) -> Seq<T> {
    let rest = if offset <= results.len() { results.skip(offset as int) } else { Seq::<T>::empty() };
    if rest.len() <= limit { rest } else { rest.take(limit as int) }
}

/// More results follow the page.
pub open spec fn page_has_more<T>(results: Seq<T>, offset: nat, limit: nat) -> bool {
    offset <= results.len() && results.len() - offset > limit
}

/// Cuts a page out of the filtered results: up to `limit` of them from `offset`. When more
/// follow, the cursor of the next page stands for the offset just past this page.
pub fn keyword_page<T>(results: Vec<T>, offset: usize, limit: usize) -> (r: (Vec<T>, Option<String>, bool))
    ensures
        r.0@ == page_items(results@, offset as nat, limit as nat),
        r.2 == page_has_more(results@, offset as nat, limit as nat),
        r.2 ==> (r.1 matches Some(c) && c@ == cursor_of(decimal_of((offset + r.0@.len()) as nat))),
        !r.2 ==> r.1 is None,
{
    let mut results = results;
    let n = results.len();
    let ghost orig = results@;
    let mut page: Vec<T> = Vec::new();
    if offset < n {
        let mut tail = results.split_off(offset);
        assert(tail@ =~= orig.skip(offset as int));
        let keep = if tail.len() <= limit { tail.len() } else { limit };
        tail.truncate(keep);
        page = tail;
    } else {
        assert(offset == n ==> orig.skip(offset as int) =~= Seq::<T>::empty());
    }
    let has_more = offset <= n && n - offset > limit;
    assert(page@ =~= page_items(orig, offset as nat, limit as nat));
    if has_more {
        assert(page@.len() == limit);
        let next = offset + page.len();
        let text = usize_to_decimal(next);
        proof {
            crate::decimal::lemma_decimal_small(next as u64);
        }
        let c = encode(text.as_str());
        (page, Some(c), true)
    } else {
        (page, None, false)
    }
}

/// Paging walks the results without gaps or repeats: a page followed by the page that starts
/// where it ends is the stretch of results of up to twice the limit from the first offset.
pub proof fn law_consecutive_pages<T>(results: Seq<T>, offset: nat, limit: nat)
    requires
        offset <= results.len(),
    ensures
        ({
            let first = page_items(results, offset, limit);
            let second = page_items(results, offset + first.len(), limit);
            let end = if offset + 2 * limit <= results.len() { (offset + 2 * limit) as int } else { results.len() as int };
            first + second == results.subrange(offset as int, end)
        }),
{
    let first = page_items(results, offset, limit);
    let mid = offset + first.len();
    let second = page_items(results, mid, limit);
    let end = if offset + 2 * limit <= results.len() { (offset + 2 * limit) as int } else { results.len() as int };
    assert(first =~= results.subrange(offset as int, mid as int));
    assert(mid <= results.len());
    let mid_end = if mid + limit <= results.len() { (mid + limit) as int } else { results.len() as int };
    assert(second =~= results.subrange(mid as int, mid_end));
    if first.len() < limit {
        assert(mid == results.len());
    }
    assert(first + second =~= results.subrange(offset as int, end));
}

/// A search returns as many results as asked for, up to a hundred, and fifty when nothing was
/// asked.
pub proof fn law_result_limit(limit: Option<u32>)
    ensures
        result_limit(limit) <= 100,
        limit is None ==> result_limit(limit) == 50,
        limit matches Some(l) ==> (l <= 100 ==> result_limit(limit) == l),
        limit matches Some(l) ==> (l > 100 ==> result_limit(limit) == 100),
{
}

} // verus!
