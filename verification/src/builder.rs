//! The document builder: the per-file policy of an indexing pass. Given a
//! scanned file entry and its repository, it decides eligibility — not under
//! a skipped directory, extension allowed, modified since the last pass,
//! content readable — and builds the indexable record. The whole pass over a
//! list of entries is specified as a filter-and-map, which the coordinator's
//! loop is proved to implement.

use vstd::prelude::*;
use crate::config::Repo;
use crate::schema::{SchemaWrapperModel, DocRecord};
use crate::strutil::{
    skip_matched,
    matches_any_pattern,
    spec_extension_of,
    extension_of,
    seq_contains_string,
    contains_string,
    spec_relative_path,
    relative_path,
    copy_string,
};

verus! {

/// One file-system entry handed in by the directory walk: its full path,
/// its bare name, its size and modification time, and its content — `None`
/// where the file could not be read or decoded as text, which is a soft
/// failure that skips the file.
#[derive(Debug)]
pub struct FileEntry {
    pub path: String,
    pub file_name: String,
    pub file_size: u64,
    pub mtime_millis: u64,
    pub content: Option<String>,
}

/// The entry's extension is one of the repository's allowed extensions.
pub open spec fn spec_ext_allowed(e: FileEntry, repo: Repo) -> bool {
    match spec_extension_of(e.file_name@) {
        Some(x) => seq_contains_string(repo.include_file_extensions@, x),
        None => false,
    }
}

/// A file must be (re)indexed: it lies under no skipped directory, its
/// extension is allowed, its modification time (in whole seconds) is not
/// strictly before the repository's last-indexed timestamp, and its
/// content was readable.
pub open spec fn spec_eligible(repo: Repo, last_ts: u64, e: FileEntry) -> bool {
    &&& !skip_matched(e.path@, repo.skip_dir_patterns@)
    &&& spec_ext_allowed(e, repo)
    &&& e.mtime_millis / 1000 >= last_ts
    &&& e.content is Some
}

/// The record built for an eligible entry: repository fields copied
/// verbatim, the path made relative to the repository root, the extension
/// and content as scanned, the modification time in milliseconds.
pub open spec fn spec_doc_of(repo: Repo, e: FileEntry) -> DocRecord {
    DocRecord {
        repo_name: repo.name@,
        repo_path: repo.path@,
        repo_type: repo.type_@,
        file_name: e.file_name@,
        file_path: spec_relative_path(e.path@, repo.path@),
        file_ext: match spec_extension_of(e.file_name@) {
            Some(x) => x,
            None => Seq::empty(),
        },
        file_size: e.file_size,
        file_content: match e.content {
            Some(c) => c@,
            None => Seq::empty(),
        },
        last_updated: e.mtime_millis,
    }
}

/// What one pass over these entries indexes: the eligible entries, in
/// order, each turned into its record.
pub open spec fn spec_docs_of(repo: Repo, last_ts: u64, entries: Seq<FileEntry>) -> Seq<
    DocRecord,
> {
    entries.filter(|e: FileEntry| spec_eligible(repo, last_ts, e)).map_values(
        |e: FileEntry| spec_doc_of(repo, e),
    )
}

/// Extending the entry list by one entry extends the pass by that entry's
/// record exactly where the entry is eligible.
pub proof fn lemma_docs_of_push(repo: Repo, last_ts: u64, entries: Seq<FileEntry>, e: FileEntry)
    ensures
        spec_docs_of(repo, last_ts, entries.push(e)) == if spec_eligible(repo, last_ts, e) {
            spec_docs_of(repo, last_ts, entries).push(spec_doc_of(repo, e))
        } else {
            spec_docs_of(repo, last_ts, entries)
        },
{
    reveal(Seq::filter);
    let pred = |x: FileEntry| spec_eligible(repo, last_ts, x);
    let f = |x: FileEntry| spec_doc_of(repo, x);
    let pushed = entries.push(e);
    assert(pushed.drop_last() =~= entries);
    assert(pushed.last() == e);
    if pred(e) {
        assert(pushed.filter(pred) == entries.filter(pred).push(e));
        assert(pushed.filter(pred).map_values(f) =~= entries.filter(pred).map_values(f).push(
            f(e),
        ));
    } else {
        assert(pushed.filter(pred) == entries.filter(pred));
    }
}

/// The number of records a pass yields never exceeds the number of entries.
pub proof fn lemma_docs_of_len(repo: Repo, last_ts: u64, entries: Seq<FileEntry>)
    ensures
        spec_docs_of(repo, last_ts, entries).len() <= entries.len(),
{
    let pred = |x: FileEntry| spec_eligible(repo, last_ts, x);
    entries.lemma_filter_len(pred);
}

/// Decides eligibility, exactly as `spec_eligible` defines it.
pub fn is_eligible(repo: &Repo, last_ts: u64, e: &FileEntry) -> (r: bool)
    ensures
        r == spec_eligible(*repo, last_ts, *e),
{
    if matches_any_pattern(e.path.as_str(), &repo.skip_dir_patterns) {
        return false;
    }
    let ext_ok = match extension_of(e.file_name.as_str()) {
        Some(x) => contains_string(&repo.include_file_extensions, x.as_str()),
        None => false,
    };
    if !ext_ok {
        return false;
    }
    if e.mtime_millis / 1000 < last_ts {
        return false;
    }
    e.content.is_some()
}

/// Builds the record for an eligible entry, exactly as `spec_doc_of`
/// defines it.
pub fn build_document(repo: &Repo, e: &FileEntry) -> (r: SchemaWrapperModel)
    requires
        e.content is Some,
    ensures
        r@ == spec_doc_of(*repo, *e),
{
    let content = copy_string(e.content.as_ref().unwrap());
    let ext = match extension_of(e.file_name.as_str()) {
        Some(x) => x,
        None => {
            proof {
                reveal_strlit("");
            }
            String::from_str("")
        },
    };
    proof {
        assert(spec_extension_of(e.file_name@) is None ==> ext@ =~= Seq::<char>::empty());
    }
    SchemaWrapperModel {
        repo_name: copy_string(&repo.name),
        repo_path: copy_string(&repo.path),
        repo_type: copy_string(&repo.type_),
        file_name: copy_string(&e.file_name),
        file_path: relative_path(e.path.as_str(), repo.path.as_str()),
        file_ext: ext,
        file_size: e.file_size,
        file_content: content,
        last_updated: e.mtime_millis,
    }
}

} // verus!
