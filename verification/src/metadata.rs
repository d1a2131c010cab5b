//! The metadata store: a small persistent key-value store recording, per
//! repository, the last-indexed timestamp, the number of indexed files and
//! the indexing status. The store itself is sled, held behind a narrow
//! trusted interface whose contents are modeled as a map from key strings
//! to byte strings; the key scheme and the value encodings are verified.

use vstd::prelude::*;
use vstd::map::*;
use crate::error::SearchError;
use crate::numcodec::{spec_be8, spec_be8_val, u64_to_be_bytes, be_bytes_to_u64, bytes_eq};

verus! {

/// The sled database holding the per-repository metadata. Opaque to the
/// verifier; its contents are spoken of through `meta_map`.
#[verifier::external_body]
pub struct MetadataStore {
    db: sled::Db,
}

/// What the key-value store holds: each key string maps to the bytes last
/// written under it.
pub uninterp spec fn meta_map(m: MetadataStore) -> Map<Seq<char>, Seq<u8>>;

impl MetadataStore {
    /// Relies on sled::open: opens (or creates) the database in the given
    /// directory. The on-disk contents are whatever an earlier process
    /// left, so nothing is claimed of the map.
    #[verifier::external_body]
    fn open_dir(path: &String) -> (r: Result<MetadataStore, SearchError>) {
        match sled::open(path.as_str()) {
            Ok(db) => Ok(MetadataStore { db }),
            Err(e) => Err(SearchError::metadata_err(format!("{}", e))),
        }
    }

    /// Relies on sled::Config::temporary: a store backed by a fresh
    /// temporary directory, removed on drop, so it starts empty.
    #[verifier::external_body]
    fn open_temporary() -> (r: Result<MetadataStore, SearchError>)
        ensures
            match r {
                Ok(m) => meta_map(m) == Map::<Seq<char>, Seq<u8>>::empty(),
                Err(_) => true,
            },
    {
        match sled::Config::new().temporary(true).open() {
            Ok(db) => Ok(MetadataStore { db }),
            Err(e) => Err(SearchError::metadata_err(format!("{}", e))),
        }
    }

    /// Relies on sled::Tree::get: the bytes last written under the key, or
    /// `None` where the key is absent; sled may fail with an I/O error, of
    /// which nothing is claimed.
    #[verifier::external_body]
    fn kv_get(&self, key: &String) -> (r: Result<Option<Vec<u8>>, SearchError>)
        ensures
            match r {
                Ok(o) => match o {
                    Some(v) => meta_map(*self).contains_key(key@) && meta_map(*self)[key@]
                        == v@,
                    None => !meta_map(*self).contains_key(key@),
                },
                Err(e) => e.kind == crate::error::SearchErrorKind::Metadata,
            },
    {
        match self.db.get(key.as_str()) {
            Ok(Some(v)) => Ok(Some(v.to_vec())),
            Ok(None) => Ok(None),
            Err(e) => Err(SearchError::metadata_err(format!("{}", e))),
        }
    }

    /// Relies on sled::Tree::insert: on success the key maps to the given
    /// bytes and every other key is untouched.
    #[verifier::external_body]
    fn kv_set(&mut self, key: &String, value: &Vec<u8>) -> (r: Result<(), SearchError>)
        ensures
            r matches Ok(_) ==> meta_map(*final(self)) == meta_map(*old(self)).insert(
                key@,
                value@,
            ),
            r matches Err(e) ==> e.kind == crate::error::SearchErrorKind::Metadata,
    {
        match self.db.insert(key.as_str(), value.as_slice()) {
            Ok(_) => Ok(()),
            Err(e) => Err(SearchError::metadata_err(format!("{}", e))),
        }
    }
}

/// An empty metadata map.
pub open spec fn empty_meta() -> Map<Seq<char>, Seq<u8>> {
    Map::empty()
}

/// A repository's indexing status, as the metadata store records it.
#[derive(Debug, Clone, Copy, PartialEq, Eq, Structural)]
pub enum IndexingStatus {
    NotIndexed,
    Indexing,
    Indexed,
}

/// The key under which a repository's last-indexed timestamp is stored.
pub open spec fn spec_ts_key(name: Seq<char>) -> Seq<char> {
    "last_indexed_time_"@ + name
}

/// The key under which a repository's indexed-file count is stored.
pub open spec fn spec_count_key(name: Seq<char>) -> Seq<char> {
    "number_of_indexed_files_"@ + name
}

/// The key under which a repository's indexing status is stored.
pub open spec fn spec_status_key(name: Seq<char>) -> Seq<char> {
    "indexing_status_"@ + name
}

/// The stored bytes of the status `indexed`.
pub open spec fn spec_indexed_bytes() -> Seq<u8> {
    seq!['i' as u8, 'n' as u8, 'd' as u8, 'e' as u8, 'x' as u8, 'e' as u8, 'd' as u8]
}

/// The stored bytes of the status `indexing`.
pub open spec fn spec_indexing_bytes() -> Seq<u8> {
    seq!['i' as u8, 'n' as u8, 'd' as u8, 'e' as u8, 'x' as u8, 'i' as u8, 'n' as u8, 'g' as u8]
}

/// The last-indexed timestamp a metadata map records for a repository:
/// present only where the key holds exactly eight bytes.
pub open spec fn spec_last_ts(m: Map<Seq<char>, Seq<u8>>, name: Seq<char>) -> Option<u64> {
    let k = spec_ts_key(name);
    if m.contains_key(k) && m[k].len() == 8 {
        Some(spec_be8_val(m[k]))
    } else {
        None
    }
}

/// The indexed-file count a metadata map records for a repository.
pub open spec fn spec_file_count(m: Map<Seq<char>, Seq<u8>>, name: Seq<char>) -> Option<u64> {
    let k = spec_count_key(name);
    if m.contains_key(k) && m[k].len() == 8 {
        Some(spec_be8_val(m[k]))
    } else {
        None
    }
}

/// The indexing status a metadata map records for a repository; bytes that
/// spell no known status count as absent.
pub open spec fn spec_status(m: Map<Seq<char>, Seq<u8>>, name: Seq<char>) -> Option<
    IndexingStatus,
> {
    let k = spec_status_key(name);
    if m.contains_key(k) {
        if m[k] == spec_indexed_bytes() {
            Some(IndexingStatus::Indexed)
        } else if m[k] == spec_indexing_bytes() {
            Some(IndexingStatus::Indexing)
        } else {
            None
        }
    } else {
        None
    }
}

/// The engine's view of the metadata store, with the key scheme and the
/// value encodings applied.
pub struct EngineMetadataRepo {
    store: MetadataStore,
}

/// The metadata map behind an `EngineMetadataRepo`.
pub closed spec fn repo_meta_map(r: EngineMetadataRepo) -> Map<Seq<char>, Seq<u8>> {
    meta_map(r.store)
}

fn ts_key(name: &str) -> (r: String)
    ensures
        r@ == spec_ts_key(name@),
{
    String::from_str("last_indexed_time_").concat(name)
}

fn count_key(name: &str) -> (r: String)
    ensures
        r@ == spec_count_key(name@),
{
    String::from_str("number_of_indexed_files_").concat(name)
}

fn status_key(name: &str) -> (r: String)
    ensures
        r@ == spec_status_key(name@),
{
    String::from_str("indexing_status_").concat(name)
}

fn indexed_bytes() -> (r: Vec<u8>)
    ensures
        r@ == spec_indexed_bytes(),
{
    let r: Vec<u8> = vec![
        'i' as u8,
        'n' as u8,
        'd' as u8,
        'e' as u8,
        'x' as u8,
        'e' as u8,
        'd' as u8,
    ];
    proof {
        assert(r@ =~= spec_indexed_bytes());
    }
    r
}

fn indexing_bytes() -> (r: Vec<u8>)
    ensures
        r@ == spec_indexing_bytes(),
{
    let r: Vec<u8> = vec![
        'i' as u8,
        'n' as u8,
        'd' as u8,
        'e' as u8,
        'x' as u8,
        'i' as u8,
        'n' as u8,
        'g' as u8,
    ];
    proof {
        assert(r@ =~= spec_indexing_bytes());
    }
    r
}

impl EngineMetadataRepo {
    /// Opens (or creates) the metadata database in the given directory.
    pub fn new(path: &String) -> Result<EngineMetadataRepo, SearchError> {
        match MetadataStore::open_dir(path) {
            Ok(store) => Ok(EngineMetadataRepo { store }),
            Err(e) => Err(e),
        }
    }

    /// A metadata store backed by a fresh temporary directory; it starts
    /// with no recorded repository.
    pub fn new_temporary() -> (r: Result<EngineMetadataRepo, SearchError>)
        ensures
            r matches Ok(m) ==> repo_meta_map(m) == empty_meta(),
    {
        match MetadataStore::open_temporary() {
            Ok(store) => Ok(EngineMetadataRepo { store }),
            Err(e) => Err(e),
        }
    }

    /// The repository's last-indexed timestamp, exactly as the map records
    /// it; a value of the wrong width counts as absent.
    pub fn get_last_indexed_timestamp(&self, repo_name: &str) -> (r: Result<
        Option<u64>,
        SearchError,
    >)
        ensures
            r matches Ok(o) ==> o == spec_last_ts(repo_meta_map(*self), repo_name@),
            r matches Err(e) ==> e.kind == crate::error::SearchErrorKind::Metadata,
    {
        let key = ts_key(repo_name);
        match self.store.kv_get(&key) {
            Ok(Some(v)) => {
                if v.len() == 8 {
                    Ok(Some(be_bytes_to_u64(&v)))
                } else {
                    Ok(None)
                }
            },
            Ok(None) => Ok(None),
            Err(e) => Err(e),
        }
    }

    /// Records the repository's last-indexed timestamp.
    pub fn set_last_indexed_timestamp(&mut self, repo_name: &str, timestamp: u64) -> (r: Result<
        (),
        SearchError,
    >)
        ensures
            r matches Ok(_) ==> repo_meta_map(*final(self)) == repo_meta_map(*old(self)).insert(
                spec_ts_key(repo_name@),
                spec_be8(timestamp),
            ),
            r matches Err(e) ==> e.kind == crate::error::SearchErrorKind::Metadata,
    {
        let key = ts_key(repo_name);
        let value = u64_to_be_bytes(timestamp);
        self.store.kv_set(&key, &value)
    }

    /// The repository's indexed-file count, exactly as the map records it.
    pub fn get_number_of_indexed_files(&self, repo_name: &str) -> (r: Result<
        Option<u64>,
        SearchError,
    >)
        ensures
            r matches Ok(o) ==> o == spec_file_count(repo_meta_map(*self), repo_name@),
            r matches Err(e) ==> e.kind == crate::error::SearchErrorKind::Metadata,
    {
        let key = count_key(repo_name);
        match self.store.kv_get(&key) {
            Ok(Some(v)) => {
                if v.len() == 8 {
                    Ok(Some(be_bytes_to_u64(&v)))
                } else {
                    Ok(None)
                }
            },
            Ok(None) => Ok(None),
            Err(e) => Err(e),
        }
    }

    /// Records the repository's indexed-file count.
    pub fn set_number_of_indexed_files(&mut self, repo_name: &str, number_of_files: u64) -> (r:
        Result<(), SearchError>)
        ensures
            r matches Ok(_) ==> repo_meta_map(*final(self)) == repo_meta_map(*old(self)).insert(
                spec_count_key(repo_name@),
                spec_be8(number_of_files),
            ),
            r matches Err(e) ==> e.kind == crate::error::SearchErrorKind::Metadata,
    {
        let key = count_key(repo_name);
        let value = u64_to_be_bytes(number_of_files);
        self.store.kv_set(&key, &value)
    }

    /// The repository's indexing status, exactly as the map records it.
    pub fn get_indexing_status(&self, repo_name: &str) -> (r: Result<
        Option<IndexingStatus>,
        SearchError,
    >)
        ensures
            r matches Ok(o) ==> o == spec_status(repo_meta_map(*self), repo_name@),
            r matches Err(e) ==> e.kind == crate::error::SearchErrorKind::Metadata,
    {
        let key = status_key(repo_name);
        match self.store.kv_get(&key) {
            Ok(Some(v)) => {
                if bytes_eq(&v, &indexed_bytes()) {
                    Ok(Some(IndexingStatus::Indexed))
                } else if bytes_eq(&v, &indexing_bytes()) {
                    Ok(Some(IndexingStatus::Indexing))
                } else {
                    Ok(None)
                }
            },
            Ok(None) => Ok(None),
            Err(e) => Err(e),
        }
    }

    /// Records the repository's indexing status.
    pub fn set_indexing_status(&mut self, repo_name: &str, status: IndexingStatus) -> (r: Result<
        (),
        SearchError,
    >)
        requires
            status != IndexingStatus::NotIndexed,
        ensures
            r matches Ok(_) ==> repo_meta_map(*final(self)) == repo_meta_map(*old(self)).insert(
                spec_status_key(repo_name@),
                if status == IndexingStatus::Indexed {
                    spec_indexed_bytes()
                } else {
                    spec_indexing_bytes()
                },
            ),
            r matches Err(e) ==> e.kind == crate::error::SearchErrorKind::Metadata,
    {
        let key = status_key(repo_name);
        let value = match status {
            IndexingStatus::Indexed => indexed_bytes(),
            _ => indexing_bytes(),
        };
        self.store.kv_set(&key, &value)
    }

    /// Whether the repository has ever completed an indexing pass.
    pub fn is_repo_indexed(&self, repo_name: &str) -> (r: Result<bool, SearchError>)
        ensures
            r matches Ok(b) ==> b == (spec_last_ts(repo_meta_map(*self), repo_name@) is Some),
            r matches Err(e) ==> e.kind == crate::error::SearchErrorKind::Metadata,
    {
        match self.get_last_indexed_timestamp(repo_name) {
            Ok(o) => Ok(o.is_some()),
            Err(e) => Err(e),
        }
    }

    /// Records a completed pass: the timestamp, then the file count, then
    /// the status `indexed`, in that order.
    pub fn mark_repo_indexing_completed(&mut self, repo_name: &str, timestamp: u64, count: u64) -> (r:
        Result<(), SearchError>)
        ensures
            r matches Ok(_) ==> repo_meta_map(*final(self)) == repo_meta_map(*old(self)).insert(
                spec_ts_key(repo_name@),
                spec_be8(timestamp),
            ).insert(spec_count_key(repo_name@), spec_be8(count)).insert(
                spec_status_key(repo_name@),
                spec_indexed_bytes(),
            ),
            r matches Err(e) ==> e.kind == crate::error::SearchErrorKind::Metadata,
    {
        match self.set_last_indexed_timestamp(repo_name, timestamp) {
            Ok(_) => {},
            Err(e) => {
                return Err(e);
            },
        }
        match self.set_number_of_indexed_files(repo_name, count) {
            Ok(_) => {},
            Err(e) => {
                return Err(e);
            },
        }
        self.set_indexing_status(repo_name, IndexingStatus::Indexed)
    }
}

} // verus!
