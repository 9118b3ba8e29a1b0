//! The search index's documents: what is indexed for each kind of resource, the id and hash
//! of a document, and the checks a keyword search makes on its filters.

use vstd::prelude::*;
use vstd::utf8::encode_utf8;
use crate::codec::{hex_encode, hex_lower, sha256, sha256_of, utf8_bytes};
use crate::decimal::{i64_decimal, i64_to_decimal};
use crate::error::{error_detail, AppError};
use crate::search_text::{first_line_trimmed, first_search_line, normalize_search_text, normalized_text, preview_of, truncate_preview};
use crate::text::{owned, push_str, str_eq};

verus! {

/// The filters of a keyword search over the index.
#[derive(Debug, Clone)]
pub struct SearchDocumentQuery {
    pub resource_types: Option<Vec<String>>,
    pub tag_ids: Option<Vec<String>>,
    pub date_from: Option<String>,
    pub date_to: Option<String>,
    pub limit: Option<u32>,
    pub offset: Option<u32>,
    pub cursor: Option<String>,
}

impl Default for SearchDocumentQuery {
    /// No filters.
    fn default() -> (r: Self)
        ensures
            r.resource_types is None && r.tag_ids is None && r.date_from is None && r.date_to is None,
            r.limit is None && r.offset is None && r.cursor is None,
    {
        SearchDocumentQuery {
            resource_types: None,
            tag_ids: None,
            date_from: None,
            date_to: None,
            limit: None,
            offset: None,
            cursor: None,
        }
    }
}

/// What is indexed for one resource.
#[derive(Debug, Clone)]
pub struct SearchDocumentInput {
    pub resource_type: String,
    pub resource_id: String,
    pub chunk_index: i64,
    pub title: String,
    pub text: String,
    pub source_updated_at: String,
}

/// How many documents the index holds, in all and per kind.
#[derive(Debug, Clone, Copy, PartialEq, Eq, Structural)]
pub struct SearchIndexStatus {
    pub total_documents: i64,
    pub entries: i64,
    pub tasks: i64,
    pub goals: i64,
    pub tags: i64,
    pub bookmarks: i64,
}

/// The id of an indexed document: resource type, resource id and chunk, colon-separated.
pub open spec fn document_id_of(resource_type: Seq<char>, resource_id: Seq<char>, chunk_index: i64) -> Seq<char> {
    resource_type + ":"@ + resource_id + ":"@ + i64_decimal(chunk_index)
}

/// The id of an indexed document (`task:task_1:0`).
pub fn document_id(resource_type: &str, resource_id: &str, chunk_index: i64) -> (r: String)
    ensures
        r@ == document_id_of(resource_type@, resource_id@, chunk_index),
{
    let mut r = owned(resource_type);
    push_str(&mut r, ":");
    push_str(&mut r, resource_id);
    push_str(&mut r, ":");
    let c = i64_to_decimal(chunk_index);
    push_str(&mut r, c.as_str());
    r
}

/// The hash of an indexed text: the lower-case hex SHA-256 of its UTF-8 bytes.
pub open spec fn text_hash_of(text: Seq<char>) -> Seq<char> {
    hex_lower(sha256_of(encode_utf8(text)))
}

/// The hash of an indexed text.
pub fn text_hash(text: &str) -> (r: String)
    ensures
        r@ == text_hash_of(text@),
{
    let bytes = utf8_bytes(text);
    let d = sha256(bytes.as_slice());
    hex_encode(d.as_slice())
}

/// A document as the index stores it.
#[derive(Debug, Clone)]
pub struct IndexedDocument {
    pub id: String,
    pub title: String,
    pub text: String,
    pub text_hash: String,
}

/// The stored form of a document: its id, its title and text with white space normalised,
/// and the hash of the normalised text.
pub fn index_document(input: &SearchDocumentInput) -> (r: IndexedDocument)
    ensures
        r.id@ == document_id_of(input.resource_type@, input.resource_id@, input.chunk_index),
        r.title@ == normalized_text(input.title@),
        r.text@ == normalized_text(input.text@),
        r.text_hash@ == text_hash_of(normalized_text(input.text@)),
{
    let text = normalize_search_text(input.text.as_str());
    let title = normalize_search_text(input.title.as_str());
    let hash = text_hash(text.as_str());
    IndexedDocument {
        id: document_id(input.resource_type.as_str(), input.resource_id.as_str(), input.chunk_index),
        title,
        text,
        text_hash: hash,
    }
}

/// An optional text, empty when absent.
pub open spec fn or_empty(o: Option<Seq<char>>) -> Seq<char> {
    match o {
        Some(s) => s,
        None => Seq::<char>::empty(),
    }
}

fn or_empty_exec(o: &Option<String>) -> (r: String)
    ensures
        r@ == or_empty(match o { Some(s) => Some(s@), None => None }),
{
    match o {
        Some(s) => s.clone(),
        None => String::new(),
    }
}

fn joined_with_space(a: &str, b: &str) -> (r: String)
    ensures
        r@ == a@ + " "@ + b@,
{
    let mut r = owned(a);
    push_str(&mut r, " ");
    push_str(&mut r, b);
    r
}

/// What is indexed for a task: its title, and the title and description joined by a space.
pub fn task_document(id: String, title: String, description: Option<String>, updated_at: String) -> (r: SearchDocumentInput)
    ensures
        r.resource_type@ == "task"@,
        r.resource_id == id,
        r.chunk_index == 0,
        r.title == title,
        r.text@ == title@ + " "@ + or_empty(match description { Some(s) => Some(s@), None => None }),
        r.source_updated_at == updated_at,
{
    let d = or_empty_exec(&description);
    let text = joined_with_space(title.as_str(), d.as_str());
    SearchDocumentInput { resource_type: owned("task"), resource_id: id, chunk_index: 0, title, text, source_updated_at: updated_at }
}

/// What is indexed for a goal: its name as title, and the name and description joined by a
/// space.
pub fn goal_document(id: String, name: String, description: Option<String>, updated_at: String) -> (r: SearchDocumentInput)
    ensures
        r.resource_type@ == "goal"@,
        r.resource_id == id,
        r.chunk_index == 0,
        r.title == name,
        r.text@ == name@ + " "@ + or_empty(match description { Some(s) => Some(s@), None => None }),
        r.source_updated_at == updated_at,
{
    let d = or_empty_exec(&description);
    let text = joined_with_space(name.as_str(), d.as_str());
    SearchDocumentInput { resource_type: owned("goal"), resource_id: id, chunk_index: 0, title: name, text, source_updated_at: updated_at }
}

/// What is indexed for a tag: its name, as title and text.
pub fn tag_document(id: String, name: String, updated_at: String) -> (r: SearchDocumentInput)
    ensures
        r.resource_type@ == "tag"@,
        r.resource_id == id,
        r.chunk_index == 0,
        r.title == name,
        r.text == name,
        r.source_updated_at == updated_at,
{
    SearchDocumentInput {
        resource_type: owned("tag"),
        resource_id: id,
        chunk_index: 0,
        title: name.clone(),
        text: name,
        source_updated_at: updated_at,
    }
}

/// What is indexed for a bookmark: its title (its URL when it has none), and the title,
/// description, site name, author and URL joined by spaces.
pub fn bookmark_document(
    id: String,
    url: String,
    title: Option<String>,
    description: Option<String>,
    site_name: Option<String>,
    author: Option<String>,
    updated_at: String,
) -> (r: SearchDocumentInput)
    ensures
        r.resource_type@ == "bookmark"@,
        r.resource_id == id,
        r.chunk_index == 0,
        r.title@ == (match title { Some(t) => t@, None => url@ }),
        r.text@ == r.title@ + " "@ + or_empty(match description { Some(s) => Some(s@), None => None }) + " "@
            + or_empty(match site_name { Some(s) => Some(s@), None => None }) + " "@ + or_empty(match author { Some(s) => Some(s@), None => None })
            + " "@ + url@,
        r.source_updated_at == updated_at,
{
    let t = match title {
        Some(t) => t,
        None => url.clone(),
    };
    let d = or_empty_exec(&description);
    let s = or_empty_exec(&site_name);
    let a = or_empty_exec(&author);
    let mut text = joined_with_space(t.as_str(), d.as_str());
    push_str(&mut text, " ");
    push_str(&mut text, s.as_str());
    push_str(&mut text, " ");
    push_str(&mut text, a.as_str());
    push_str(&mut text, " ");
    push_str(&mut text, url.as_str());
    SearchDocumentInput { resource_type: owned("bookmark"), resource_id: id, chunk_index: 0, title: t, text, source_updated_at: updated_at }
}

/// The title of an entry's document: the first line of its text, or when that is empty a
/// preview of the text cut at 80 characters.
pub open spec fn entry_title(text: Seq<char>) -> Seq<char> {
    if first_line_trimmed(text).len() == 0 {
        preview_of(text, 80)
    } else {
        first_line_trimmed(text)
    }
}

/// What is indexed for a journal entry, given the plain text of its document (empty when it
/// could not be read): the title as `entry_title` says, and the update time, or the creation
/// time when the entry has none.
pub fn entry_document(id: String, text: Option<String>, created_at: String, updated_at: String) -> (r: SearchDocumentInput)
    ensures
        r.resource_type@ == "entry"@,
        r.resource_id == id,
        r.chunk_index == 0,
        r.text@ == or_empty(match text { Some(s) => Some(s@), None => None }),
        r.title@ == entry_title(r.text@),
        r.source_updated_at@ == (if updated_at@.len() == 0 { created_at@ } else { updated_at@ }),
{
    let text = match text {
        Some(t) => t,
        None => String::new(),
    };
    let first = first_search_line(text.as_str());
    let title = if first.as_str().as_bytes().len() == 0 {
        proof {
            vstd::utf8::encode_utf8_decode_utf8(first@);
        }
        truncate_preview(text.as_str(), 80)
    } else {
        proof {
            if first@.len() == 0 {
                assert(first@ =~= Seq::<char>::empty());
            }
        }
        first
    };
    let updated_empty = updated_at.as_str().as_bytes().len() == 0;
    proof {
        vstd::utf8::encode_utf8_decode_utf8(updated_at@);
        if updated_at@.len() == 0 {
            assert(updated_at@ =~= Seq::<char>::empty());
        }
    }
    SearchDocumentInput {
        resource_type: owned("entry"),
        resource_id: id,
        chunk_index: 0,
        title,
        text,
        source_updated_at: if updated_empty { created_at } else { updated_at },
    }
}

/// The kinds of resource the index holds.
#[derive(Debug, Clone, Copy, PartialEq, Eq, Structural)]
pub enum IndexedKind {
    Entry,
    Task,
    Goal,
    Tag,
    Bookmark,
}

/// The indexed kind a resource type names.
pub open spec fn indexed_kind_named(t: Seq<char>) -> Option<IndexedKind> {
    if t == "entry"@ {
        Some(IndexedKind::Entry)
    } else if t == "task"@ {
        Some(IndexedKind::Task)
    } else if t == "goal"@ {
        Some(IndexedKind::Goal)
    } else if t == "tag"@ {
        Some(IndexedKind::Tag)
    } else if t == "bookmark"@ {
        Some(IndexedKind::Bookmark)
    } else {
        None
    }
}

/// The kind of resource to reindex; `BadRequest("Unsupported search resource type: ...")`
/// for any other type.
pub fn reindex_kind(resource_type: &str) -> (r: Result<IndexedKind, AppError>)
    ensures
        match indexed_kind_named(resource_type@) {
            Some(k) => r == Ok::<IndexedKind, AppError>(k),
            None => r matches Err(e) && e is BadRequest && error_detail(e) == "Unsupported search resource type: "@ + resource_type@,
        },
{
    if str_eq(resource_type, "entry") {
        Ok(IndexedKind::Entry)
    } else if str_eq(resource_type, "task") {
        Ok(IndexedKind::Task)
    } else if str_eq(resource_type, "goal") {
        Ok(IndexedKind::Goal)
    } else if str_eq(resource_type, "tag") {
        Ok(IndexedKind::Tag)
    } else if str_eq(resource_type, "bookmark") {
        Ok(IndexedKind::Bookmark)
    } else {
        let mut m = owned("Unsupported search resource type: ");
        push_str(&mut m, resource_type);
        Err(AppError::BadRequest(m))
    }
}

/// How a keyword result is checked against the tag filter.
#[derive(Debug, Clone, PartialEq, Eq)]
pub enum TagCheck {
    /// Decided without the database.
    Decided(bool),
    /// Kept if the resource has one of the tags in this relation table, under this id column.
    Lookup(&'static str, &'static str),
}

/// The relation table and id column holding the tags of a resource type.
pub open spec fn tag_relation_of(t: Seq<char>) -> Option<(Seq<char>, Seq<char>)> {
    if t == "entry"@ {
        Some(("entry_tags"@, "entry_id"@))
    } else if t == "task"@ {
        Some(("task_tags"@, "task_id"@))
    } else if t == "goal"@ {
        Some(("goal_tags"@, "goal_id"@))
    } else if t == "bookmark"@ {
        Some(("bookmark_tags"@, "bookmark_id"@))
    } else {
        None
    }
}

/// How a result is checked against the tag filter: with no filter, or an empty one, it is
/// kept; a tag is kept when it is one of the filter's tags; other resources are looked up in
/// their relation table, and a type with none is dropped.
pub fn tag_check(resource_type: &str, resource_id: &str, tag_ids: &Option<Vec<String>>) -> (r: TagCheck)
    ensures
        match tag_ids {
            None => r == TagCheck::Decided(true),
            Some(ids) => if ids@.len() == 0 {
                r == TagCheck::Decided(true)
            } else if resource_type@ == "tag"@ {
                r == TagCheck::Decided(crate::fields::string_views(ids@).contains(resource_id@))
            } else {
                match tag_relation_of(resource_type@) {
                    Some((table, column)) => r matches TagCheck::Lookup(t, c) && t@ == table && c@ == column,
                    None => r == TagCheck::Decided(false),
                }
            },
        },
{
    let ids = match tag_ids {
        None => { return TagCheck::Decided(true); },
        Some(ids) => ids,
    };
    if ids.len() == 0 {
        return TagCheck::Decided(true);
    }
    if str_eq(resource_type, "tag") {
        let mut i: usize = 0;
        while i < ids.len()
            invariant
                i <= ids@.len(),
                *tag_ids == Some(*ids),
                ids@.len() > 0,
                resource_type@ == "tag"@,
                forall|k: int| 0 <= k < i ==> ids@[k]@ != resource_id@,
            decreases ids@.len() - i,
        {
            if str_eq(ids[i].as_str(), resource_id) {
                assert(crate::fields::string_views(ids@)[i as int] == resource_id@);
                return TagCheck::Decided(true);
            }
            i = i + 1;
        }
        assert(!crate::fields::string_views(ids@).contains(resource_id@)) by {
            if crate::fields::string_views(ids@).contains(resource_id@) {
                let k = choose|k: int| 0 <= k < ids@.len() && crate::fields::string_views(ids@)[k] == resource_id@;
                assert(ids@[k]@ == resource_id@);
            }
        }
        return TagCheck::Decided(false);
    }
    proof {
        reveal_strlit("entry_tags");
        reveal_strlit("task_tags");
        reveal_strlit("goal_tags");
        reveal_strlit("bookmark_tags");
        reveal_strlit("entry_id");
        reveal_strlit("task_id");
        reveal_strlit("goal_id");
        reveal_strlit("bookmark_id");
    }
    if str_eq(resource_type, "entry") {
        TagCheck::Lookup("entry_tags", "entry_id")
    } else if str_eq(resource_type, "task") {
        TagCheck::Lookup("task_tags", "task_id")
    } else if str_eq(resource_type, "goal") {
        TagCheck::Lookup("goal_tags", "goal_id")
    } else if str_eq(resource_type, "bookmark") {
        TagCheck::Lookup("bookmark_tags", "bookmark_id")
    } else {
        TagCheck::Decided(false)
    }
}

// ---------------------------------------------------------------- embeddings

/// How many embeddings one model has, and of what size.
#[derive(Debug, Clone)]
pub struct SearchEmbeddingModelStatus {
    pub model_name: String,
    pub dimensions: i64,
    pub total_embeddings: i64,
}

/// How many embeddings the index holds, in all and per model.
#[derive(Debug, Clone)]
pub struct SearchEmbeddingStatus {
    pub total_embeddings: i64,
    pub models: Vec<SearchEmbeddingModelStatus>,
}

/// The id of an embedding: the document's id, a colon, and the model's name.
pub fn embedding_id(search_document_id: &str, model_name: &str) -> (r: String)
    ensures
        r@ == search_document_id@ + ":"@ + model_name@,
{
    let mut r = owned(search_document_id);
    push_str(&mut r, ":");
    push_str(&mut r, model_name);
    r
}

/// Checks an embedding before it is stored: its dimensions must be positive and its vector
/// that long; each failure is a `BadRequest` with its own message.
pub fn check_embedding_shape(dimensions: i64, vector_len: usize) -> (r: Result<(), AppError>)
    ensures
        r is Ok <==> (dimensions > 0 && vector_len == dimensions),
        dimensions <= 0 ==> (r matches Err(e) && e is BadRequest && error_detail(e) == "Embedding dimensions must be greater than zero"@),
        dimensions > 0 && vector_len != dimensions ==> (r matches Err(e) && e is BadRequest && error_detail(e)
            == "Embedding vector length "@ + crate::decimal::decimal_of(vector_len as nat) + " does not match dimensions "@
            + i64_decimal(dimensions)),
{
    if dimensions <= 0 {
        return Err(AppError::BadRequest(owned("Embedding dimensions must be greater than zero")));
    }
    if (vector_len as u128) != (dimensions as u128) {
        let mut m = owned("Embedding vector length ");
        let l = crate::decimal::usize_to_decimal(vector_len);
        push_str(&mut m, l.as_str());
        push_str(&mut m, " does not match dimensions ");
        let d = i64_to_decimal(dimensions);
        push_str(&mut m, d.as_str());
        return Err(AppError::BadRequest(m));
    }
    Ok(())
}

/// Checks a stored embedding's bytes against its dimensions: four bytes per dimension; an
/// `Internal` error otherwise.
pub fn check_stored_embedding(byte_len: usize, dimensions: i64) -> (r: Result<(), AppError>)
    ensures
        r is Ok <==> byte_len == 4 * dimensions,
        r matches Err(e) ==> e is Internal && error_detail(e) == "Stored embedding byte length "@
            + crate::decimal::decimal_of(byte_len as nat) + " does not match dimensions "@ + i64_decimal(dimensions),
{
    let expected: i128 = 4 * (dimensions as i128);
    if (byte_len as i128) != expected {
        let mut m = owned("Stored embedding byte length ");
        let l = crate::decimal::usize_to_decimal(byte_len);
        push_str(&mut m, l.as_str());
        push_str(&mut m, " does not match dimensions ");
        let d = i64_to_decimal(dimensions);
        push_str(&mut m, d.as_str());
        return Err(AppError::Internal(m));
    }
    Ok(())
}

} // verus!
