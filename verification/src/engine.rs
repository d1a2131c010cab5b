//! The search engine: the indexing coordinator, the query engine and the
//! status reporting, over the index store and the metadata store. One
//! indexing pass scans a handed-in entry list, filters and builds records,
//! appends them to the index, commits, and records the pass; a search runs
//! against the last committed snapshot; the repository list reports what
//! the metadata store knows.

use vstd::prelude::*;
use vstd::map::*;
use crate::builder::{
    FileEntry,
    spec_docs_of,
    spec_doc_of,
    is_eligible,
    build_document,
    lemma_docs_of_push,
    lemma_docs_of_len,
};
use crate::config::{Config, Repo, spec_has_repo, spec_repo_at, find_repo_index};
use crate::error::{SearchError, SearchErrorKind};
use crate::metadata::{
    EngineMetadataRepo,
    IndexingStatus,
    repo_meta_map,
    spec_last_ts,
    spec_file_count,
    spec_status,
    spec_ts_key,
    spec_count_key,
    spec_status_key,
    spec_indexed_bytes,
    empty_meta,
};
use crate::numcodec::spec_be8;
use crate::schema::{
    SchemaWrapperModel,
    DocRecord,
    SimpleSchemaWrapper,
    record_fields,
    doc_matches,
    default_search_fields,
};
use crate::store::{
    IndexStore,
    store_committed,
    store_pending,
    doc_fields,
    empty_docs,
    build_schema,
    resolve_search_fields,
};

verus! {

/// A free-text query and the greatest number of hits to return.
pub struct SearchOptions {
    pub query: String,
    pub limit: usize,
}

/// The options of one query, as the request layer hands them in.
pub struct SearchQueryOptions {
    pub query: String,
    pub limit: usize,
}

/// What the status report says of one repository.
#[derive(Debug)]
pub struct RepoInfo {
    pub name: String,
    pub path: String,
    pub type_: String,
    pub last_indexed_time: Option<u64>,
    pub number_of_indexed_files: Option<u64>,
    pub indexing_status: String,
}

/// Some committed stored document carries this record.
pub open spec fn spec_result_in(
    committed: Seq<Map<Seq<char>, Seq<char>>>,
    d: DocRecord,
) -> bool {
    exists|m: Map<Seq<char>, Seq<char>>| committed.contains(m) && doc_matches(m, d)
}

/// The stored forms of a record sequence, in order.
pub open spec fn spec_doc_maps(docs: Seq<DocRecord>) -> Seq<Map<Seq<char>, Seq<char>>> {
    docs.map_values(|d: DocRecord| record_fields(d))
}

/// The last-indexed timestamp a pass measures eligibility against: the
/// recorded one, or zero where none was recorded.
pub open spec fn spec_last_ts_or_zero(m: Map<Seq<char>, Seq<u8>>, name: Seq<char>) -> u64 {
    match spec_last_ts(m, name) {
        Some(t) => t,
        None => 0,
    }
}

/// A status-report entry is faithful to the metadata map: the repository
/// fields are copied verbatim; a reported timestamp or count is exactly
/// the recorded one; a reported status `indexed` or `indexing` is exactly
/// the recorded one; and the status is always one of the three strings.
pub open spec fn spec_repo_info_ok(repo: Repo, info: RepoInfo, m: Map<Seq<char>, Seq<u8>>) -> bool {
    &&& info.name@ == repo.name@
    &&& info.path@ == repo.path@
    &&& info.type_@ == repo.type_@
    &&& (info.last_indexed_time matches Some(t) ==> spec_last_ts(m, repo.name@) == Some(t))
    &&& (info.number_of_indexed_files matches Some(n) ==> spec_file_count(m, repo.name@) == Some(
        n,
    ))
    &&& (info.indexing_status@ == "indexed"@ ==> spec_status(m, repo.name@) == Some(
        IndexingStatus::Indexed,
    ))
    &&& (info.indexing_status@ == "indexing"@ ==> spec_status(m, repo.name@) == Some(
        IndexingStatus::Indexing,
    ))
    &&& (info.indexing_status@ == "Not indexed"@ || info.indexing_status@ == "indexed"@
        || info.indexing_status@ == "indexing"@)
}

/// The engine: the configuration, the full-text index store and the
/// metadata store.
pub struct FileSearchEngine {
    pub config: Config,
    store: IndexStore,
    meta: EngineMetadataRepo,
}

/// The engine's configuration, as a specification-level value.
pub closed spec fn engine_config(e: FileSearchEngine) -> Config {
    e.config
}

/// The committed snapshot of the engine's index store.
pub closed spec fn committed_docs(e: FileSearchEngine) -> Seq<Map<Seq<char>, Seq<char>>> {
    store_committed(e.store)
}

/// The pending batch of the engine's index store.
pub closed spec fn pending_docs(e: FileSearchEngine) -> Seq<Map<Seq<char>, Seq<char>>> {
    store_pending(e.store)
}

/// The metadata map of the engine's metadata store.
pub closed spec fn engine_meta(e: FileSearchEngine) -> Map<Seq<char>, Seq<u8>> {
    repo_meta_map(e.meta)
}

/// Relies on std::time::SystemTime::now: the seconds since the Unix
/// epoch, zero where the clock reads before it. Time-dependent, so
/// nothing is claimed of the value.
#[verifier::external_body]
fn now_secs() -> u64 {
    match std::time::SystemTime::now().duration_since(std::time::UNIX_EPOCH) {
        Ok(d) => d.as_secs(),
        Err(_) => 0,
    }
}

impl FileSearchEngine {
    /// Opens the engine against the configured on-disk index and metadata
    /// directories (which must exist), idempotently: safe to call again
    /// on the same location. The disk may already hold committed
    /// documents; no new document is pending.
    pub fn new(config: Config) -> (r: Result<FileSearchEngine, SearchError>)
        ensures
            r matches Ok(e) ==> engine_config(e) == config && pending_docs(e) == empty_docs(),
    {
        let meta_dir = config.index.metadata_dir();
        let meta = match EngineMetadataRepo::new(&meta_dir) {
            Ok(m) => m,
            Err(e) => {
                return Err(e);
            },
        };
        let wrapper = SimpleSchemaWrapper::create();
        let schema = build_schema(&wrapper.fields);
        let search_fields = match resolve_search_fields(&schema, &default_search_fields()) {
            Ok(f) => f,
            Err(e) => {
                return Err(e);
            },
        };
        let index_dir = config.index.index_dir();
        let store = match IndexStore::open_dir(&index_dir, &schema, &search_fields) {
            Ok(s) => s,
            Err(e) => {
                return Err(e);
            },
        };
        Ok(FileSearchEngine { config, store, meta })
    }

    /// An engine whose index lives in memory and whose metadata store is
    /// temporary: both start empty. For tests and temporary indexes.
    pub fn new_in_memory(config: Config) -> (r: Result<FileSearchEngine, SearchError>)
        ensures
            r matches Ok(e) ==> engine_config(e) == config && pending_docs(e) == empty_docs()
                && committed_docs(e) == empty_docs() && engine_meta(e) == empty_meta(),
    {
        let meta = match EngineMetadataRepo::new_temporary() {
            Ok(m) => m,
            Err(e) => {
                return Err(e);
            },
        };
        let wrapper = SimpleSchemaWrapper::create();
        let schema = build_schema(&wrapper.fields);
        let search_fields = match resolve_search_fields(&schema, &default_search_fields()) {
            Ok(f) => f,
            Err(e) => {
                return Err(e);
            },
        };
        let store = match IndexStore::open_ram(&schema, &search_fields) {
            Ok(s) => s,
            Err(e) => {
                return Err(e);
            },
        };
        Ok(FileSearchEngine { config, store, meta })
    }

    /// The first configured repository with this name, if any.
    pub fn get_repo(&self, name: &str) -> (r: Option<&Repo>)
        ensures
            match r {
                Some(repo) => exists|i: int|
                    spec_repo_at(engine_config(*self).repos@, name@, i) && *repo == engine_config(
                        *self,
                    ).repos@[i],
                None => !spec_has_repo(engine_config(*self).repos@, name@),
            },
    {
        match find_repo_index(&self.config.repos, name) {
            Some(i) => {
                proof {
                    assert(spec_repo_at(engine_config(*self).repos@, name@, i as int));
                }
                Some(&self.config.repos[i])
            },
            None => None,
        }
    }

    /// One full indexing pass for the named repository over the handed-in
    /// entries. Fails with a repo-not-found error exactly where the name
    /// is not configured, and then changes nothing. On success: the
    /// committed snapshot grew by exactly the records of the eligible
    /// entries, in order; the returned count is their number; nothing is
    /// left pending; and the metadata store records the pass — a fresh
    /// timestamp, the count, and the status `indexed`. A pass that fails
    /// with an index-class error (write session, add, commit) publishes
    /// nothing and leaves the metadata — the status in particular —
    /// exactly as it was.
    pub fn index_repo(&mut self, repo_name: &str, entries: &Vec<FileEntry>) -> (r: Result<
        u64,
        SearchError,
    >)
        ensures
            (r matches Err(e) && e.kind == SearchErrorKind::RepoNotFound) <==> !spec_has_repo(
                engine_config(*old(self)).repos@,
                repo_name@,
            ),
            r matches Err(e) && e.kind == SearchErrorKind::RepoNotFound ==> *final(self) == *old(
                self,
            ),
            r matches Err(e) && e.kind == SearchErrorKind::Index ==> engine_meta(*final(self))
                == engine_meta(*old(self)) && committed_docs(*final(self)) == committed_docs(
                *old(self),
            ),
            engine_config(*final(self)) == engine_config(*old(self)),
            r matches Ok(count) ==> pending_docs(*final(self)) == empty_docs() && forall|i: int|
                spec_repo_at(engine_config(*old(self)).repos@, repo_name@, i) ==> {
                    let repo = engine_config(*old(self)).repos@[i];
                    let docs = spec_docs_of(
                        repo,
                        spec_last_ts_or_zero(engine_meta(*old(self)), repo_name@),
                        entries@,
                    );
                    committed_docs(*final(self)) == committed_docs(*old(self)) + spec_doc_maps(
                        docs,
                    ) && count as int == docs.len() && (exists|t: u64|
                        engine_meta(*final(self)) == engine_meta(*old(self)).insert(
                            spec_ts_key(repo_name@),
                            spec_be8(t),
                        ).insert(spec_count_key(repo_name@), spec_be8(count)).insert(
                            spec_status_key(repo_name@),
                            spec_indexed_bytes(),
                        ))
                },
    {
        let idx = match find_repo_index(&self.config.repos, repo_name) {
            Some(i) => i,
            None => {
                return Err(SearchError::repo_not_found());
            },
        };
        let last_ts = match self.meta.get_last_indexed_timestamp(repo_name) {
            Ok(Some(t)) => t,
            Ok(None) => 0,
            Err(e) => {
                return Err(e);
            },
        };
        // A fresh write session: any batch a failed earlier pass left
        // behind is discarded, as the per-pass writer of the design would.
        match self.store.rollback() {
            Ok(_) => {},
            Err(e) => {
                return Err(e);
            },
        }
        let ghost repo = self.config.repos@[idx as int];
        let mut count: u64 = 0;
        let mut i: usize = 0;
        while i < entries.len()
            invariant
                i <= entries@.len(),
                0 <= idx < self.config.repos@.len(),
                self.config == old(self).config,
                repo == self.config.repos@[idx as int],
                spec_repo_at(engine_config(*old(self)).repos@, repo_name@, idx as int),
                committed_docs(*self) == committed_docs(*old(self)),
                engine_meta(*self) == engine_meta(*old(self)),
                last_ts == spec_last_ts_or_zero(engine_meta(*old(self)), repo_name@),
                pending_docs(*self) == spec_doc_maps(
                    spec_docs_of(repo, last_ts, entries@.take(i as int)),
                ),
                count as int == spec_docs_of(repo, last_ts, entries@.take(i as int)).len(),
            decreases entries@.len() - i,
        {
            let e = &entries[i];
            proof {
                assert(entries@.take(i as int + 1).drop_last() =~= entries@.take(i as int));
                assert(entries@.take(i as int + 1) =~= entries@.take(i as int).push(entries@[
                    i as int
                ]));
                lemma_docs_of_push(repo, last_ts, entries@.take(i as int), entries@[i as int]);
                lemma_docs_of_len(repo, last_ts, entries@.take(i as int));
            }
            if is_eligible(&self.config.repos[idx], last_ts, e) {
                let m = build_document(&self.config.repos[idx], e);
                match self.store.add_record(&m) {
                    Ok(_) => {},
                    Err(err) => {
                        proof {
                            assert(spec_has_repo(engine_config(*old(self)).repos@, repo_name@));
                        }
                        let _ = self.store.rollback();
                        return Err(err);
                    },
                }
                count = count + 1;
                proof {
                    assert(spec_doc_maps(spec_docs_of(repo, last_ts, entries@.take(i as int + 1)))
                        =~= spec_doc_maps(spec_docs_of(repo, last_ts, entries@.take(i as int)))
                        .push(record_fields(spec_doc_of(repo, entries@[i as int]))));
                }
            } else {
                proof {
                    assert(spec_docs_of(repo, last_ts, entries@.take(i as int + 1))
                        == spec_docs_of(repo, last_ts, entries@.take(i as int)));
                }
            }
            i = i + 1;
        }
        proof {
            assert(entries@.take(entries@.len() as int) =~= entries@);
        }
        match self.store.commit() {
            Ok(_) => {},
            Err(e) => {
                return Err(e);
            },
        }
        let t = now_secs();
        match self.meta.mark_repo_indexing_completed(repo_name, t, count) {
            Ok(_) => {},
            Err(e) => {
                return Err(e);
            },
        }
        proof {
            assert forall|j: int|
                spec_repo_at(old(self).config.repos@, repo_name@, j) implies j == idx as int by {
                if j < idx as int {
                    assert(old(self).config.repos@[j].name@ != repo_name@);
                } else if j > idx as int {
                    assert(old(self).config.repos@[idx as int].name@ != repo_name@);
                }
            }
        }
        Ok(count)
    }

    /// Runs a ranked query against the last committed snapshot: at most
    /// `limit` results, best first, each rebuilt from a committed stored
    /// document. An empty result is a success; a malformed query is a
    /// parse error; no error of this path touches the metadata classes.
    pub fn search(&self, options: &SearchOptions) -> (r: Result<Vec<SchemaWrapperModel>, SearchError>)
        ensures
            match r {
                Ok(results) => results@.len() <= options.limit && forall|i: int|
                    0 <= i < results@.len() ==> spec_result_in(
                        committed_docs(*self),
                        #[trigger] results@[i]@,
                    ),
                Err(e) => e.kind == SearchErrorKind::QueryParse || e.kind == SearchErrorKind::Index,
            },
    {
        if options.limit == 0 {
            let results: Vec<SchemaWrapperModel> = Vec::new();
            return Ok(results);
        }
        let docs = match self.store.search_docs(options.query.as_str(), options.limit) {
            Ok(d) => d,
            Err(e) => {
                return Err(e);
            },
        };
        let mut results: Vec<SchemaWrapperModel> = Vec::new();
        let mut i: usize = 0;
        while i < docs.len()
            invariant
                i <= docs@.len(),
                docs@.len() <= options.limit,
                results@.len() == i,
                forall|j: int|
                    0 <= j < docs@.len() ==> store_committed(self.store).contains(
                        doc_fields(docs@[j]),
                    ),
                forall|j: int|
                    0 <= j < i ==> spec_result_in(committed_docs(*self), #[trigger] results@[j]@),
            decreases docs@.len() - i,
        {
            match self.store.record_from_doc(&docs[i]) {
                Some(rec) => {
                    proof {
                        assert(committed_docs(*self).contains(doc_fields(docs@[i as int]))
                            && doc_matches(doc_fields(docs@[i as int]), rec@));
                        assert(spec_result_in(committed_docs(*self), rec@));
                    }
                    results.push(rec);
                },
                None => {
                    return Err(
                        SearchError::index_err(String::from_str("malformed stored document")),
                    );
                },
            }
            i = i + 1;
        }
        Ok(results)
    }

    /// The status report: one entry per configured repository, in order,
    /// carrying the repository's name, path and type, and what the
    /// metadata store records of it — fields read back exactly where
    /// present, absent (or `Not indexed`) where nothing usable is stored
    /// or the store could not be read.
    pub fn get_repo_list(&self) -> (r: Vec<RepoInfo>)
        ensures
            r@.len() == engine_config(*self).repos@.len(),
            forall|i: int|
                0 <= i < r@.len() ==> spec_repo_info_ok(
                    engine_config(*self).repos@[i],
                    #[trigger] r@[i],
                    engine_meta(*self),
                ),
    {
        proof {
            reveal_strlit("Not indexed");
            reveal_strlit("indexed");
            reveal_strlit("indexing");
            assert("Not indexed"@.len() == 11);
            assert("indexed"@.len() == 7);
            assert("indexing"@.len() == 8);
        }
        let mut out: Vec<RepoInfo> = Vec::new();
        let mut i: usize = 0;
        while i < self.config.repos.len()
            invariant
                i <= self.config.repos@.len(),
                out@.len() == i,
                forall|k: int|
                    0 <= k < i ==> spec_repo_info_ok(
                        self.config.repos@[k],
                        #[trigger] out@[k],
                        engine_meta(*self),
                    ),
                "Not indexed"@ != "indexed"@ && "Not indexed"@ != "indexing"@ && "indexed"@
                    != "indexing"@,
            decreases self.config.repos@.len() - i,
        {
            let repo = &self.config.repos[i];
            let name = repo.name.as_str();
            let last_indexed_time = match self.meta.get_last_indexed_timestamp(name) {
                Ok(o) => o,
                Err(_) => None,
            };
            let number_of_indexed_files = match self.meta.get_number_of_indexed_files(name) {
                Ok(o) => o,
                Err(_) => None,
            };
            let status_opt = match self.meta.get_indexing_status(name) {
                Ok(o) => o,
                Err(_) => None,
            };
            let indexing_status = match status_opt {
                Some(IndexingStatus::Indexed) => String::from_str("indexed"),
                Some(IndexingStatus::Indexing) => String::from_str("indexing"),
                _ => String::from_str("Not indexed"),
            };
            out.push(
                RepoInfo {
                    name: crate::strutil::copy_string(&repo.name),
                    path: crate::strutil::copy_string(&repo.path),
                    type_: crate::strutil::copy_string(&repo.type_),
                    last_indexed_time,
                    number_of_indexed_files,
                    indexing_status,
                },
            );
            i = i + 1;
        }
        out
    }
}

} // verus!
