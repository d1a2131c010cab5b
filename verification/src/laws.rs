//! The library's laws: what holds of every indexing pass and every search,
//! proved from the specifications the engine's contracts are written in.
//! `spec_docs_of` is what one pass indexes; `spec_result_in` is how the
//! engine's search contract ties results to the committed snapshot.

use vstd::prelude::*;
use vstd::map::*;
use crate::builder::{FileEntry, spec_docs_of, spec_doc_of, spec_eligible, spec_ext_allowed};
use crate::config::Repo;
use crate::engine::{spec_doc_maps, spec_result_in};
use crate::metadata::{
    IndexingStatus,
    spec_last_ts,
    spec_file_count,
    spec_status,
    spec_ts_key,
    spec_count_key,
    spec_status_key,
    spec_indexed_bytes,
};
use crate::numcodec::{lemma_be8_roundtrip, spec_be8};
use crate::schema::{DocRecord, record_fields, doc_matches, lemma_record_fields_matches};
use crate::strutil::{is_substring, is_substring_at, is_prefix, skip_matched, seq_contains_string};

verus! {

/// Idempotence: re-indexing an unchanged repository indexes nothing. Where
/// every entry's modification time (in whole seconds) lies strictly before
/// the last-indexed timestamp, the pass yields no document at all.
pub proof fn lemma_unchanged_pass_is_empty(repo: Repo, last_ts: u64, entries: Seq<FileEntry>)
    requires
        forall|i: int|
            0 <= i < entries.len() ==> (#[trigger] entries[i]).mtime_millis / 1000 < last_ts,
    ensures
        spec_docs_of(repo, last_ts, entries) == Seq::<DocRecord>::empty(),
    decreases entries.len(),
{
    reveal(Seq::filter);
    let pred = |e: FileEntry| spec_eligible(repo, last_ts, e);
    if entries.len() == 0 {
        assert(entries.filter(pred) =~= Seq::<FileEntry>::empty());
        assert(spec_docs_of(repo, last_ts, entries) =~= Seq::<DocRecord>::empty());
    } else {
        let prefix = entries.drop_last();
        assert(forall|i: int|
            0 <= i < prefix.len() ==> (#[trigger] prefix[i]).mtime_millis / 1000 < last_ts) by {
            assert(forall|i: int| 0 <= i < prefix.len() ==> prefix[i] == entries[i]);
        }
        lemma_unchanged_pass_is_empty(repo, last_ts, prefix);
        assert(entries[entries.len() - 1].mtime_millis / 1000 < last_ts);
        assert(!pred(entries.last()));
        assert(entries.filter(pred) == prefix.filter(pred));
        assert(spec_docs_of(repo, last_ts, entries) =~= Seq::<DocRecord>::empty());
    }
}

/// Incrementality: modifying exactly one file re-indexes exactly that
/// file. Where entry `j` is eligible and every other entry's modification
/// time lies strictly before the last-indexed timestamp, the pass yields
/// exactly entry `j`'s document.
pub proof fn lemma_single_modified_pass(
    repo: Repo,
    last_ts: u64,
    entries: Seq<FileEntry>,
    j: int,
)
    requires
        0 <= j < entries.len(),
        spec_eligible(repo, last_ts, entries[j]),
        forall|i: int|
            0 <= i < entries.len() && i != j ==> (#[trigger] entries[i]).mtime_millis / 1000
                < last_ts,
    ensures
        spec_docs_of(repo, last_ts, entries) == seq![spec_doc_of(repo, entries[j])],
    decreases entries.len(),
{
    reveal(Seq::filter);
    let pred = |e: FileEntry| spec_eligible(repo, last_ts, e);
    let prefix = entries.drop_last();
    if j == entries.len() - 1 {
        assert(forall|i: int|
            0 <= i < prefix.len() ==> (#[trigger] prefix[i]).mtime_millis / 1000 < last_ts) by {
            assert(forall|i: int| 0 <= i < prefix.len() ==> prefix[i] == entries[i]);
        }
        lemma_unchanged_pass_is_empty(repo, last_ts, prefix);
        assert(prefix.filter(pred).map_values(|e: FileEntry| spec_doc_of(repo, e)) == Seq::<
            DocRecord,
        >::empty());
        prefix.lemma_filter_len(pred);
        assert(prefix.filter(pred) =~= Seq::<FileEntry>::empty());
        assert(pred(entries.last()));
        assert(entries.filter(pred) == prefix.filter(pred).push(entries.last()));
        assert(entries.filter(pred) =~= seq![entries[j]]);
        assert(spec_docs_of(repo, last_ts, entries) =~= seq![spec_doc_of(repo, entries[j])]);
    } else {
        assert(forall|i: int|
            0 <= i < prefix.len() && i != j ==> (#[trigger] prefix[i]).mtime_millis / 1000
                < last_ts) by {
            assert(forall|i: int| 0 <= i < prefix.len() ==> prefix[i] == entries[i]);
        }
        assert(prefix[j] == entries[j]);
        lemma_single_modified_pass(repo, last_ts, prefix, j);
        assert(entries[entries.len() - 1].mtime_millis / 1000 < last_ts);
        assert(!pred(entries.last()));
        assert(entries.filter(pred) == prefix.filter(pred));
        assert(spec_docs_of(repo, last_ts, entries) == spec_docs_of(repo, last_ts, prefix));
    }
}

/// Every document a pass yields carries one of the repository's allowed
/// extensions: the extension filter admits no other entry.
pub proof fn lemma_pass_docs_have_allowed_ext(repo: Repo, last_ts: u64, entries: Seq<FileEntry>)
    ensures
        forall|k: int|
            0 <= k < spec_docs_of(repo, last_ts, entries).len() ==> seq_contains_string(
                repo.include_file_extensions@,
                (#[trigger] spec_docs_of(repo, last_ts, entries)[k]).file_ext,
            ),
{
    let pred = |e: FileEntry| spec_eligible(repo, last_ts, e);
    let filtered = entries.filter(pred);
    let docs = spec_docs_of(repo, last_ts, entries);
    assert forall|k: int| 0 <= k < docs.len() implies seq_contains_string(
        repo.include_file_extensions@,
        (#[trigger] docs[k]).file_ext,
    ) by {
        entries.lemma_filter_pred(pred, k);
        assert(docs[k] == spec_doc_of(repo, filtered[k]));
        assert(spec_eligible(repo, last_ts, filtered[k]));
        assert(spec_ext_allowed(filtered[k], repo));
    }
}

/// One successful pass preserves the extension invariant of the committed
/// snapshot: where every committed stored document already carries an
/// allowed extension, so does every document after appending a pass.
pub proof fn lemma_pass_preserves_ext_invariant(
    committed: Seq<Map<Seq<char>, Seq<char>>>,
    repo: Repo,
    last_ts: u64,
    entries: Seq<FileEntry>,
)
    requires
        forall|m: Map<Seq<char>, Seq<char>>|
            committed.contains(m) ==> m.contains_key("file_ext"@) && seq_contains_string(
                repo.include_file_extensions@,
                m["file_ext"@],
            ),
    ensures
        forall|m: Map<Seq<char>, Seq<char>>|
            (committed + spec_doc_maps(spec_docs_of(repo, last_ts, entries))).contains(m)
                ==> m.contains_key("file_ext"@) && seq_contains_string(
                repo.include_file_extensions@,
                m["file_ext"@],
            ),
{
    let docs = spec_docs_of(repo, last_ts, entries);
    let maps = spec_doc_maps(docs);
    lemma_pass_docs_have_allowed_ext(repo, last_ts, entries);
    assert forall|m: Map<Seq<char>, Seq<char>>| (committed + maps).contains(m) implies
        m.contains_key("file_ext"@) && seq_contains_string(
        repo.include_file_extensions@,
        m["file_ext"@],
    ) by {
        let k = choose|k: int| 0 <= k < (committed + maps).len() && (committed + maps)[k] == m;
        if k < committed.len() {
            assert(committed.contains(m)) by {
                assert(committed[k] == m);
            }
        } else {
            let i = k - committed.len();
            assert(maps[i] == m);
            assert(m == record_fields(docs[i]));
            lemma_record_fields_matches(docs[i]);
            assert(m["file_ext"@] == docs[i].file_ext);
        }
    }
}

/// Extension filtering end to end: where every committed stored document
/// carries an allowed extension, every search result does too — a file
/// with a disallowed extension is never present in search results.
pub proof fn lemma_search_respects_extension_filter(
    committed: Seq<Map<Seq<char>, Seq<char>>>,
    results: Seq<DocRecord>,
    allowed: Seq<String>,
)
    requires
        forall|m: Map<Seq<char>, Seq<char>>|
            committed.contains(m) ==> m.contains_key("file_ext"@) && seq_contains_string(
                allowed,
                m["file_ext"@],
            ),
        forall|i: int|
            0 <= i < results.len() ==> spec_result_in(committed, #[trigger] results[i]),
    ensures
        forall|i: int|
            0 <= i < results.len() ==> seq_contains_string(
                allowed,
                (#[trigger] results[i]).file_ext,
            ),
{
    assert forall|i: int| 0 <= i < results.len() implies seq_contains_string(
        allowed,
        (#[trigger] results[i]).file_ext,
    ) by {
        assert(spec_result_in(committed, results[i]));
        let m = choose|m: Map<Seq<char>, Seq<char>>|
            committed.contains(m) && doc_matches(m, results[i]);
        assert(m["file_ext"@] == results[i].file_ext);
    }
}

/// A completed pass is faithfully reported: after the three writes that
/// record a pass — the timestamp, the file count, the status `indexed` —
/// the metadata readers decode exactly the written timestamp, exactly the
/// written count, and the status `indexed`.
pub proof fn lemma_completed_pass_recorded(
    m: Map<Seq<char>, Seq<u8>>,
    name: Seq<char>,
    t: u64,
    count: u64,
)
    ensures
        ({
            let m2 = m.insert(spec_ts_key(name), spec_be8(t)).insert(
                spec_count_key(name),
                spec_be8(count),
            ).insert(spec_status_key(name), spec_indexed_bytes());
            spec_last_ts(m2, name) == Some(t) && spec_file_count(m2, name) == Some(count)
                && spec_status(m2, name) == Some(IndexingStatus::Indexed)
        }),
{
    reveal_strlit("last_indexed_time_");
    reveal_strlit("number_of_indexed_files_");
    reveal_strlit("indexing_status_");
    assert("last_indexed_time_"@[0] == 'l');
    assert("number_of_indexed_files_"@[0] == 'n');
    assert("indexing_status_"@[0] == 'i');
    assert(spec_ts_key(name)[0] == 'l');
    assert(spec_count_key(name)[0] == 'n');
    assert(spec_status_key(name)[0] == 'i');
    lemma_be8_roundtrip(t);
    lemma_be8_roundtrip(count);
}

/// Directory pruning covers whole subtrees: where a skip pattern occurs in
/// a directory's path and that path is a prefix of a file's path, the
/// pattern occurs in the file's path too, so the file is skip-matched.
pub proof fn lemma_skip_pattern_covers_subtree(
    dir: Seq<char>,
    file: Seq<char>,
    patterns: Seq<String>,
    k: int,
)
    requires
        0 <= k < patterns.len(),
        is_substring(dir, patterns[k]@),
        is_prefix(dir, file),
    ensures
        skip_matched(file, patterns),
{
    let p = patterns[k]@;
    let i = choose|i: int| is_substring_at(dir, p, i);
    assert(file.subrange(0, dir.len() as int) == dir);
    assert(file.subrange(i, i + p.len()) =~= p) by {
        assert forall|x: int| 0 <= x < p.len() implies file.subrange(i, i + p.len())[x] == p[x] by {
            assert(file[i + x] == file.subrange(0, dir.len() as int)[i + x]);
            assert(dir.subrange(i, i + p.len())[x] == dir[i + x]);
        }
    }
    assert(is_substring_at(file, p, i));
}

/// A file under a skipped directory is never indexed: a skip-matched entry
/// is not among the entries a pass turns into documents.
pub proof fn lemma_skipped_entry_not_indexed(
    repo: Repo,
    last_ts: u64,
    entries: Seq<FileEntry>,
    j: int,
)
    requires
        0 <= j < entries.len(),
        skip_matched(entries[j].path@, repo.skip_dir_patterns@),
    ensures
        !entries.filter(|e: FileEntry| spec_eligible(repo, last_ts, e)).contains(entries[j]),
{
    let pred = |e: FileEntry| spec_eligible(repo, last_ts, e);
    let filtered = entries.filter(pred);
    assert(!pred(entries[j]));
    if filtered.contains(entries[j]) {
        let k = choose|k: int| 0 <= k < filtered.len() && filtered[k] == entries[j];
        entries.lemma_filter_pred(pred, k);
    }
}

} // verus!
