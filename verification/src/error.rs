//! The library's error type.

use vstd::prelude::*;
use crate::text::push_str;

verus! {

/// Errors reported by the application core. Errors of outside libraries (the database, JSON,
/// I/O and HTTP) are carried as their messages.
#[derive(Debug, Clone, PartialEq, Eq)]
pub enum AppError {
    LibSQL(String),
    Serialization(String),
    BadRequest(String),
    NotFound(String),
    Internal(String),
    Io(String),
    ModelError(String),
    EncryptionError(String),
    ProviderNotConfigured(String),
    Sync(String),
    Http(String),
}

/// The short name of the error's kind.
pub open spec fn error_kind(e: AppError) -> Seq<char> {
    match e {
        AppError::LibSQL(_) => "libsql"@,
        AppError::Serialization(_) => "serialization"@,
        AppError::BadRequest(_) => "bad_request"@,
        AppError::NotFound(_) => "not_found"@,
        AppError::Internal(_) => "internal"@,
        AppError::Io(_) => "io"@,
        AppError::ModelError(_) => "model"@,
        AppError::EncryptionError(_) => "encryption"@,
        AppError::ProviderNotConfigured(_) => "provider_not_configured"@,
        AppError::Sync(_) => "sync"@,
        AppError::Http(_) => "http"@,
    }
}

/// The text that introduces the error's detail in its message.
pub open spec fn error_prefix(e: AppError) -> Seq<char> {
    match e {
        AppError::LibSQL(_) => "LibSQL error: "@,
        AppError::Serialization(_) => "Serialization error: "@,
        AppError::BadRequest(_) => "Invalid request: "@,
        AppError::NotFound(_) => "Not found: "@,
        AppError::Internal(_) => "Internal server error: "@,
        AppError::Io(_) => "IO error: "@,
        AppError::ModelError(_) => "Model error: "@,
        AppError::EncryptionError(_) => "Encryption error: "@,
        AppError::ProviderNotConfigured(_) => "Provider not configured: "@,
        AppError::Sync(_) => "Sync error: "@,
        AppError::Http(_) => "HTTP error: "@,
    }
}

/// The detail that the error carries.
pub open spec fn error_detail(e: AppError) -> Seq<char> {
    match e {
        AppError::LibSQL(m) => m@,
        AppError::Serialization(m) => m@,
        AppError::BadRequest(m) => m@,
        AppError::NotFound(m) => m@,
        AppError::Internal(m) => m@,
        AppError::Io(m) => m@,
        AppError::ModelError(m) => m@,
        AppError::EncryptionError(m) => m@,
        AppError::ProviderNotConfigured(m) => m@,
        AppError::Sync(m) => m@,
        AppError::Http(m) => m@,
    }
}

impl AppError {
    /// The short name of the error's kind, as reported to the front end.
    pub fn kind(&self) -> (r: &'static str)
        ensures
            r@ == error_kind(*self),
    {
        match self {
            AppError::LibSQL(_) => "libsql",
            AppError::Serialization(_) => "serialization",
            AppError::BadRequest(_) => "bad_request",
            AppError::NotFound(_) => "not_found",
            AppError::Internal(_) => "internal",
            AppError::Io(_) => "io",
            AppError::ModelError(_) => "model",
            AppError::EncryptionError(_) => "encryption",
            AppError::ProviderNotConfigured(_) => "provider_not_configured",
            AppError::Sync(_) => "sync",
            AppError::Http(_) => "http",
        }
    }

    /// The detail that the error carries.
    pub fn detail(&self) -> (r: &String)
        ensures
            r@ == error_detail(*self),
    {
        match self {
            AppError::LibSQL(m) => m,
            AppError::Serialization(m) => m,
            AppError::BadRequest(m) => m,
            AppError::NotFound(m) => m,
            AppError::Internal(m) => m,
            AppError::Io(m) => m,
            AppError::ModelError(m) => m,
            AppError::EncryptionError(m) => m,
            AppError::ProviderNotConfigured(m) => m,
            AppError::Sync(m) => m,
            AppError::Http(m) => m,
        }
    }

    /// The error's message: the kind's introduction followed by the detail.
    pub fn message(&self) -> (r: String)
        ensures
            r@ == error_prefix(*self) + error_detail(*self),
    {
        let prefix = match self {
            AppError::LibSQL(_) => "LibSQL error: ",
            AppError::Serialization(_) => "Serialization error: ",
            AppError::BadRequest(_) => "Invalid request: ",
            AppError::NotFound(_) => "Not found: ",
            AppError::Internal(_) => "Internal server error: ",
            AppError::Io(_) => "IO error: ",
            AppError::ModelError(_) => "Model error: ",
            AppError::EncryptionError(_) => "Encryption error: ",
            AppError::ProviderNotConfigured(_) => "Provider not configured: ",
            AppError::Sync(_) => "Sync error: ",
            AppError::Http(_) => "HTTP error: ",
        };
        let mut r = String::new();
        push_str(&mut r, prefix);
        push_str(&mut r, self.detail().as_str());
        assert(Seq::<char>::empty() + error_prefix(*self) =~= error_prefix(*self));
        r
    }
}

/// Text made of a fixed introduction and a detail.
pub fn concat2(a: &str, b: &str) -> (r: String)
    ensures
        r@ == a@ + b@,
{
    let mut r = String::new();
    push_str(&mut r, a);
    push_str(&mut r, b);
    assert(Seq::<char>::empty() + a@ =~= a@);
    r
}

} // verus!
