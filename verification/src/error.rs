//! The error type shared by the indexing and query paths, with a kind that
//! callers can dispatch on (configuration, query-parse, index, metadata).

use vstd::prelude::*;

verus! {

/// The class of a failure, following the library's error taxonomy:
/// a missing repository is a configuration error, a malformed query a
/// parse error, index open/write/commit/read failures an index error,
/// and key-value store failures a metadata error.
#[derive(Clone, Copy, Debug, PartialEq, Eq, Structural)]
pub enum SearchErrorKind {
    RepoNotFound,
    QueryParse,
    Index,
    Metadata,
}

/// An error of the search engine: a kind plus a human-readable message.
#[derive(Debug)]
pub struct SearchError {
    pub kind: SearchErrorKind,
    pub error: String,
}

impl SearchError {
    /// The error for a repository name absent from the configuration.
    pub fn repo_not_found() -> (r: SearchError)
        ensures
            r.kind == SearchErrorKind::RepoNotFound,
    {
        SearchError { kind: SearchErrorKind::RepoNotFound, error: String::from_str("Repo not found") }
    }

    /// An error of the query-parse class.
    pub fn query_parse_err(msg: String) -> (r: SearchError)
        ensures
            r.kind == SearchErrorKind::QueryParse,
            r.error == msg,
    {
        SearchError { kind: SearchErrorKind::QueryParse, error: msg }
    }

    /// An error of the index class (open, write session, commit, read).
    pub fn index_err(msg: String) -> (r: SearchError)
        ensures
            r.kind == SearchErrorKind::Index,
            r.error == msg,
    {
        SearchError { kind: SearchErrorKind::Index, error: msg }
    }

    /// An error of the metadata-store class.
    pub fn metadata_err(msg: String) -> (r: SearchError)
        ensures
            r.kind == SearchErrorKind::Metadata,
            r.error == msg,
    {
        SearchError { kind: SearchErrorKind::Metadata, error: msg }
    }

    /// A copy of the message, for callers that report the error.
    pub fn message(&self) -> (r: String)
        ensures
            r@ == self.error@,
    {
        String::from_str(self.error.as_str())
    }
}

} // verus!
