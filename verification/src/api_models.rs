//! The request and response shapes of the API layer, as plain values: the
//! search and index forms, the health response, and the repository status
//! record handed back to callers.

use vstd::prelude::*;
use crate::engine::{RepoInfo, SearchOptions};

verus! {

/// The envelope of every API response: a payload or an error, plus the
/// time the request took in milliseconds.
pub struct StdResponse<T> {
    pub data: Option<T>,
    pub error: Option<String>,
    pub time_taken: Option<u64>,
}

/// A search request: a query string and an optional result limit.
pub struct SearchForm {
    pub query: String,
    pub limit: Option<usize>,
}

impl SearchForm {
    /// The engine options of this form: the query as given and the limit,
    /// which defaults to ten where the form leaves it out.
    pub fn to_options(self) -> (r: SearchOptions)
        ensures
            r.query == self.query,
            r.limit == (match self.limit {
                Some(l) => l,
                None => 10usize,
            }),
    {
        let limit: usize = match self.limit {
            Some(l) => l,
            None => 10,
        };
        SearchOptions { query: self.query, limit }
    }
}

/// An indexing request: the repository to index.
pub struct IndexForm {
    pub repo_name: String,
    pub force_reindex: bool,
}

/// A file-content request: a repository and a path inside it.
pub struct FileContentForm {
    pub path: String,
    pub repo_name: String,
}

/// The health-check payload.
pub struct HealthCheckResponse {
    pub status: String,
}

/// The repository status record handed to API callers.
pub struct RepoDto {
    pub name: String,
    pub last_indexed_time: Option<u64>,
    pub number_of_indexed_files: Option<u64>,
    pub indexing_status: String,
    pub path: String,
}

impl From<RepoInfo> for RepoDto {
    /// Repackages a status-report entry, dropping the repository type.
    fn from(repo_info: RepoInfo) -> (r: RepoDto) {
        RepoDto {
            name: repo_info.name,
            last_indexed_time: repo_info.last_indexed_time,
            number_of_indexed_files: repo_info.number_of_indexed_files,
            indexing_status: repo_info.indexing_status,
            path: repo_info.path,
        }
    }
}

impl vstd::std_specs::convert::FromSpecImpl<RepoInfo> for RepoDto {
    open spec fn obeys_from_spec() -> bool {
        true
    }

    open spec fn from_spec(t: RepoInfo) -> RepoDto {
        RepoDto {
            name: t.name,
            last_indexed_time: t.last_indexed_time,
            number_of_indexed_files: t.number_of_indexed_files,
            indexing_status: t.indexing_status,
            path: t.path,
        }
    }
}

} // verus!
