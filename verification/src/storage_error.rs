//! The error type of the storage layer and its high-level categories.
//!
//! `StorageError` gives structured, typed errors for all storage operations
//! and wraps the errors of the underlying libraries, with `From` conversions
//! for `?` propagation. `StorageError::code` sorts each error into a
//! `StorageErrorCode` for telemetry, logging, API responses and retry logic.
use vstd::prelude::*;
use vstd::std_specs::convert::FromSpec;

verus! {

/// `serde_json::Error`, carried through unchanged.
#[verifier::external_type_specification]
#[verifier::external_body]
pub struct ExJsonError(serde_json::Error);

/// `std::io::Error`, carried through unchanged.
#[verifier::external_type_specification]
#[verifier::external_body]
pub struct ExIoError(std::io::Error);

/// The primary error type of the storage layer.
#[derive(Debug)]
pub enum StorageError {
    /// Underlying database error (connection, schema or query failure),
    /// held by the database driver's error message: the library does not link
    /// the database engine itself; the application-level error type keeps the
    /// driver's `duckdb::Error` and hands its message here.
    Database(String),
    /// Serialization or deserialization failure (JSON or BLOB parsing).
    Serialization(serde_json::Error),
    /// Standard I/O error (file not found, permission denied on the DB file).
    Io(std::io::Error),
    /// The caller handed the storage layer an input it cannot accept.
    InvalidInput(String),
    /// The requested entity (a Question, a Proposal, ...) was not found.
    NotFound(String),
    /// Error from a graph operation (cycle detection, invalid traversal).
    Graph(String),
    /// Error from a vector search (embedding dimension mismatch).
    VectorSearch(String),
}

/// High-level error categories for telemetry, logging or API responses.
#[derive(Debug, Clone, Copy, PartialEq, Eq, Structural)]
pub enum StorageErrorCode {
    /// Retryable (a database lock, a temporary I/O failure).
    Transient,
    /// Not retryable (invalid input, serialization).
    Permanent,
    /// The entity does not exist.
    NotFound,
    /// Unexpected state (graph, vector search).
    Internal,
}

/// The category of each kind of storage error.
pub open spec fn error_code(e: StorageError) -> StorageErrorCode {
    match e {
        StorageError::Database(_) | StorageError::Io(_) => StorageErrorCode::Transient,
        StorageError::Serialization(_)
        | StorageError::InvalidInput(_) => StorageErrorCode::Permanent,
        StorageError::NotFound(_) => StorageErrorCode::NotFound,
        StorageError::Graph(_) | StorageError::VectorSearch(_) => StorageErrorCode::Internal,
    }
}

impl StorageError {
    /// Returns the high-level category of the error, for telemetry or retry
    /// logic: database and I/O errors are transient, serialization and
    /// invalid-input errors permanent, a missing entity is `NotFound`, and
    /// graph and vector-search errors are internal.
    pub fn code(&self) -> (r: StorageErrorCode)
        ensures
            r == error_code(*self),
            r == StorageErrorCode::Transient <==> (self is Database || self is Io),
            r == StorageErrorCode::Permanent <==> (self is Serialization || self is InvalidInput),
            r == StorageErrorCode::NotFound <==> self is NotFound,
            r == StorageErrorCode::Internal <==> (self is Graph || self is VectorSearch),
    {
        match self {
            StorageError::Database(_) | StorageError::Io(_) => StorageErrorCode::Transient,
            StorageError::Serialization(_)
            | StorageError::InvalidInput(_) => StorageErrorCode::Permanent,
            StorageError::NotFound(_) => StorageErrorCode::NotFound,
            StorageError::Graph(_) | StorageError::VectorSearch(_) => StorageErrorCode::Internal,
        }
    }

    /// Returns `true` if the error is likely transient, so that a retry might
    /// succeed: exactly when its category is `Transient`.
    pub fn is_transient(&self) -> (r: bool)
        ensures
            r == (error_code(*self) == StorageErrorCode::Transient),
            r <==> (self is Database || self is Io),
    {
        self.code() == StorageErrorCode::Transient
    }
}

impl From<serde_json::Error> for StorageError {
    /// Wraps a JSON error as a serialization error.
    fn from(e: serde_json::Error) -> (r: StorageError) {
        StorageError::Serialization(e)
    }
}

impl vstd::std_specs::convert::FromSpecImpl<serde_json::Error> for StorageError {
    open spec fn obeys_from_spec() -> bool {
        true
    }

    open spec fn from_spec(e: serde_json::Error) -> StorageError {
        StorageError::Serialization(e)
    }
}

impl From<std::io::Error> for StorageError {
    /// Wraps an I/O error as an I/O storage error.
    fn from(e: std::io::Error) -> (r: StorageError) {
        StorageError::Io(e)
    }
}

impl vstd::std_specs::convert::FromSpecImpl<std::io::Error> for StorageError {
    open spec fn obeys_from_spec() -> bool {
        true
    }

    open spec fn from_spec(e: std::io::Error) -> StorageError {
        StorageError::Io(e)
    }
}

/// The category of an error depends on its kind alone, never on the message
/// or the wrapped error it carries: every database and I/O error is
/// transient (a lock may clear, so a retry may succeed), every serialization
/// and invalid-input error is permanent, every missing entity is `NotFound`,
/// and every graph and vector-search error is internal. So among all errors,
/// exactly the database and I/O errors are worth a retry.
pub proof fn lemma_code_by_kind(
    m: String,
    n: String,
    je: serde_json::Error,
    ie: std::io::Error,
    e: StorageError,
)
    ensures
        error_code(StorageError::Database(m)) == StorageErrorCode::Transient,
        error_code(StorageError::Io(ie)) == StorageErrorCode::Transient,
        error_code(StorageError::Serialization(je)) == StorageErrorCode::Permanent,
        error_code(StorageError::InvalidInput(m)) == StorageErrorCode::Permanent,
        error_code(StorageError::NotFound(m)) == StorageErrorCode::NotFound,
        error_code(StorageError::Graph(m)) == StorageErrorCode::Internal,
        error_code(StorageError::VectorSearch(m)) == StorageErrorCode::Internal,
        error_code(StorageError::Database(m)) == error_code(StorageError::Database(n)),
        error_code(StorageError::InvalidInput(m)) == error_code(StorageError::InvalidInput(n)),
        error_code(StorageError::NotFound(m)) == error_code(StorageError::NotFound(n)),
        error_code(StorageError::Graph(m)) == error_code(StorageError::Graph(n)),
        error_code(StorageError::VectorSearch(m)) == error_code(StorageError::VectorSearch(n)),
        (error_code(e) == StorageErrorCode::Transient) <==> (e is Database || e is Io),
{
}

/// Errors that arrive through the `From` conversions (as `?` produces them)
/// keep their category: a JSON error becomes a permanent, non-retryable
/// error, and an I/O error a transient, retryable one.
pub proof fn lemma_conversion_codes(je: serde_json::Error, ie: std::io::Error)
    ensures
        error_code(<StorageError as FromSpec<serde_json::Error>>::from_spec(je))
            == StorageErrorCode::Permanent,
        error_code(<StorageError as FromSpec<std::io::Error>>::from_spec(ie))
            == StorageErrorCode::Transient,
{
}

} // verus!
