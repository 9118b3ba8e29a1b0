//! Bookmarks: the update a user sends, what it changes, and the refusal of a second bookmark
//! for one URL.

use vstd::prelude::*;
use crate::error::{error_detail, AppError};
use crate::text::{owned, push_str};

verus! {

/// An update of a bookmark's details. Each field that is given replaces the stored one; a
/// field that is not given is kept (an update never clears one). The publication time is
/// RFC 3339 text.
#[derive(Debug, Clone)]
pub struct UpdateBookmarkRequest {
    pub title: Option<String>,
    pub description: Option<String>,
    pub image_url: Option<String>,
    pub favicon_url: Option<String>,
    pub site_name: Option<String>,
    pub author: Option<String>,
    pub published_at: Option<String>,
    pub content_type: Option<String>,
    pub metadata_json: Option<serde_json::Value>,
    pub is_archived: Option<bool>,
}

/// The details of a stored bookmark that an update may change.
#[derive(Debug, Clone)]
pub struct BookmarkFields {
    pub title: Option<String>,
    pub description: Option<String>,
    pub image_url: Option<String>,
    pub favicon_url: Option<String>,
    pub site_name: Option<String>,
    pub author: Option<String>,
    pub published_at: Option<String>,
    pub content_type: Option<String>,
    pub metadata_json: Option<serde_json::Value>,
    pub is_archived: bool,
}

/// A stored value after an update that may give a new one.
pub open spec fn given_or_kept<T>(given: Option<T>, kept: Option<T>) -> Option<T> {
    match given {
        Some(v) => Some(v),
        None => kept,
    }
}

/// The bookmark after an update: each given field replaced, the others kept.
pub open spec fn bookmark_updated(b: BookmarkFields, u: UpdateBookmarkRequest) -> BookmarkFields {
    BookmarkFields {
        title: given_or_kept(u.title, b.title),
        description: given_or_kept(u.description, b.description),
        image_url: given_or_kept(u.image_url, b.image_url),
        favicon_url: given_or_kept(u.favicon_url, b.favicon_url),
        site_name: given_or_kept(u.site_name, b.site_name),
        author: given_or_kept(u.author, b.author),
        published_at: given_or_kept(u.published_at, b.published_at),
        content_type: given_or_kept(u.content_type, b.content_type),
        metadata_json: given_or_kept(u.metadata_json, b.metadata_json),
        is_archived: match u.is_archived { Some(a) => a, None => b.is_archived },
    }
}

/// Applies an update to a bookmark's details.
pub fn apply_bookmark_update(current: BookmarkFields, update: UpdateBookmarkRequest) -> (r: BookmarkFields)
    ensures
        r == bookmark_updated(current, update),
{
    let mut b = current;
    if let Some(v) = update.title {
        b.title = Some(v);
    }
    if let Some(v) = update.description {
        b.description = Some(v);
    }
    if let Some(v) = update.image_url {
        b.image_url = Some(v);
    }
    if let Some(v) = update.favicon_url {
        b.favicon_url = Some(v);
    }
    if let Some(v) = update.site_name {
        b.site_name = Some(v);
    }
    if let Some(v) = update.author {
        b.author = Some(v);
    }
    if let Some(v) = update.published_at {
        b.published_at = Some(v);
    }
    if let Some(v) = update.content_type {
        b.content_type = Some(v);
    }
    if let Some(v) = update.metadata_json {
        b.metadata_json = Some(v);
    }
    if let Some(a) = update.is_archived {
        b.is_archived = a;
    }
    b
}

/// Applying the same update twice is the same as applying it once, and an update never
/// removes a detail the bookmark had.
pub proof fn law_bookmark_update_idempotent(b: BookmarkFields, u: UpdateBookmarkRequest)
    ensures
        bookmark_updated(bookmark_updated(b, u), u) == bookmark_updated(b, u),
        b.title is Some ==> bookmark_updated(b, u).title is Some,
        b.description is Some ==> bookmark_updated(b, u).description is Some,
        b.published_at is Some ==> bookmark_updated(b, u).published_at is Some,
        b.metadata_json is Some ==> bookmark_updated(b, u).metadata_json is Some,
{
}

/// An update that gives nothing leaves the bookmark as it was.
pub proof fn law_empty_bookmark_update(b: BookmarkFields)
    ensures
        bookmark_updated(b, UpdateBookmarkRequest {
            title: None,
            description: None,
            image_url: None,
            favicon_url: None,
            site_name: None,
            author: None,
            published_at: None,
            content_type: None,
            metadata_json: None,
            is_archived: None,
        }) == b,
{
}

/// A new bookmark is refused when one with its URL is already saved: a `BadRequest` that
/// names the URL.
pub fn check_new_bookmark_url(already_saved: bool, url: &str) -> (r: Result<(), AppError>)
    ensures
        !already_saved ==> r is Ok,
        already_saved ==> (r matches Err(e) && e is BadRequest
            && error_detail(e) == "Bookmark with URL "@ + url@ + " already exists"@),
{
    if already_saved {
        let mut m = owned("Bookmark with URL ");
        push_str(&mut m, url);
        push_str(&mut m, " already exists");
        Err(AppError::BadRequest(m))
    } else {
        Ok(())
    }
}

/// An update sets what it gives and keeps the rest: each detail the update gives replaces the
/// stored one, and each detail it leaves out is kept.
pub proof fn law_bookmark_update_sets_given_fields(b: BookmarkFields, u: UpdateBookmarkRequest)
    ensures
        u.title matches Some(v) ==> bookmark_updated(b, u).title == Some(v),
        u.title is None ==> bookmark_updated(b, u).title == b.title,
        u.description matches Some(v) ==> bookmark_updated(b, u).description == Some(v),
        u.description is None ==> bookmark_updated(b, u).description == b.description,
        u.image_url matches Some(v) ==> bookmark_updated(b, u).image_url == Some(v),
        u.image_url is None ==> bookmark_updated(b, u).image_url == b.image_url,
        u.favicon_url matches Some(v) ==> bookmark_updated(b, u).favicon_url == Some(v),
        u.favicon_url is None ==> bookmark_updated(b, u).favicon_url == b.favicon_url,
        u.site_name matches Some(v) ==> bookmark_updated(b, u).site_name == Some(v),
        u.site_name is None ==> bookmark_updated(b, u).site_name == b.site_name,
        u.author matches Some(v) ==> bookmark_updated(b, u).author == Some(v),
        u.author is None ==> bookmark_updated(b, u).author == b.author,
        u.published_at matches Some(v) ==> bookmark_updated(b, u).published_at == Some(v),
        u.published_at is None ==> bookmark_updated(b, u).published_at == b.published_at,
        u.content_type matches Some(v) ==> bookmark_updated(b, u).content_type == Some(v),
        u.content_type is None ==> bookmark_updated(b, u).content_type == b.content_type,
        u.metadata_json matches Some(v) ==> bookmark_updated(b, u).metadata_json == Some(v),
        u.metadata_json is None ==> bookmark_updated(b, u).metadata_json == b.metadata_json,
        u.is_archived matches Some(a) ==> bookmark_updated(b, u).is_archived == a,
        u.is_archived is None ==> bookmark_updated(b, u).is_archived == b.is_archived,
{
}

} // verus!
