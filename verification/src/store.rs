//! The index store: the full-text engine holding searchable documents. The
//! engine is tantivy, held behind a narrow trusted interface. Its state is
//! modeled as two sequences of stored documents — the committed snapshot
//! readers search, and the pending batch a commit publishes atomically — and
//! each stored document as a map from field name to stored text.

use vstd::prelude::*;
use vstd::map::*;
use tantivy::schema::Value;
use crate::error::{SearchError, SearchErrorKind};
use crate::schema::{
    FieldSpec,
    FieldKind,
    SchemaWrapperModel,
    record_fields,
    doc_matches,
    spec_doc_complete,
    spec_field_names_ok,
    lemma_schema_field_names_distinct,
};
use crate::numcodec::parse_u64;

verus! {

/// tantivy's stored-document type, declared so values of it can cross the
/// trusted interface; opaque to the verifier.
#[verifier::external_type_specification]
#[verifier::external_body]
pub struct ExTantivyDocument(tantivy::TantivyDocument);

/// tantivy's schema type, declared so the built schema can be handed from
/// one trusted item to the next; opaque to the verifier.
#[verifier::external_type_specification]
#[verifier::external_body]
pub struct ExSchema(tantivy::schema::Schema);

/// tantivy's field handle, declared so resolved default search fields can
/// be handed from one trusted item to the next; opaque to the verifier.
#[verifier::external_type_specification]
#[verifier::external_body]
pub struct ExField(tantivy::schema::Field);

/// A full-text index with its single writer and its resolved default
/// search fields. Opaque to the verifier; its contents are spoken of
/// through `store_committed` and `store_pending`.
#[verifier::external_body]
pub struct IndexStore {
    index: tantivy::Index,
    writer: tantivy::IndexWriter,
    schema: tantivy::schema::Schema,
    search_fields: Vec<tantivy::schema::Field>,
}

/// The committed snapshot: the stored documents visible to readers, in the
/// order they were added.
pub uninterp spec fn store_committed(s: IndexStore) -> Seq<Map<Seq<char>, Seq<char>>>;

/// The pending batch: documents added since the last commit, invisible to
/// readers until the next commit publishes them all at once.
pub uninterp spec fn store_pending(s: IndexStore) -> Seq<Map<Seq<char>, Seq<char>>>;

/// The text fields a stored document holds, by field name. Field names are
/// resolved against the library's single document schema, which every
/// store of this library is created with.
pub uninterp spec fn doc_fields(d: tantivy::TantivyDocument) -> Map<Seq<char>, Seq<char>>;

/// An empty sequence of stored documents.
pub open spec fn empty_docs() -> Seq<Map<Seq<char>, Seq<char>>> {
    Seq::empty()
}

/// A stored document with no fields.
pub open spec fn empty_doc_fields() -> Map<Seq<char>, Seq<char>> {
    Map::empty()
}

/// Relies on tantivy::schema::SchemaBuilder: one stored text field per
/// entry of the given table, in order, analyzed or exact or stored-only as
/// the entry says. The builder asserts that field names are valid and not
/// repeated, so exactly that is demanded of the table.
#[verifier::external_body]
pub(crate) fn build_schema(fields: &Vec<FieldSpec>) -> tantivy::schema::Schema
    requires
        spec_field_names_ok(fields@),
{
    let mut b = tantivy::schema::Schema::builder();
    for f in fields.iter() {
        let opts: tantivy::schema::TextOptions = match f.kind {
            FieldKind::Analyzed => tantivy::schema::TEXT | tantivy::schema::STORED,
            FieldKind::Exact => tantivy::schema::STRING | tantivy::schema::STORED,
            FieldKind::StoredOnly => tantivy::schema::STORED.into(),
        };
        b.add_text_field(f.name.as_str(), opts);
    }
    b.build()
}

/// Relies on tantivy::schema::Schema::get_field: the handle of each named
/// field, in order; an unknown name is an index error.
#[verifier::external_body]
pub(crate) fn resolve_search_fields(schema: &tantivy::schema::Schema, names: &Vec<String>) -> Result<
    Vec<tantivy::schema::Field>,
    SearchError,
> {
    let mut fs: Vec<tantivy::schema::Field> = Vec::new();
    for n in names.iter() {
        fs.push(schema.get_field(n.as_str()).map_err(|e| SearchError::index_err(format!("{}", e)))?);
    }
    Ok(fs)
}

impl IndexStore {
    /// Relies on tantivy::Index::open_or_create (idempotent against one
    /// on-disk location) and Index::writer (the exclusive writer). The
    /// disk may already hold committed documents, so only the pending
    /// batch is claimed empty.
    #[verifier::external_body]
    pub(crate) fn open_dir(
        path: &String,
        schema: &tantivy::schema::Schema,
        search_fields: &Vec<tantivy::schema::Field>,
    ) -> (r: Result<IndexStore, SearchError>)
        ensures
            match r {
                Ok(s) => store_pending(s) == empty_docs(),
                Err(_) => true,
            },
    {
        let dir = tantivy::directory::MmapDirectory::open(path.as_str()).map_err(|e| SearchError::index_err(format!("{}", e)))?;
        let index = tantivy::Index::open_or_create(dir, schema.clone()).map_err(|e| SearchError::index_err(format!("{}", e)))?;
        let writer = index.writer(50_000_000).map_err(|e| SearchError::index_err(format!("{}", e)))?;
        Ok(IndexStore { index, writer, schema: schema.clone(), search_fields: search_fields.clone() })
    }

    /// Relies on tantivy::Index::create_in_ram: a fresh, empty, anonymous
    /// index, useful for tests and temporary indexes.
    #[verifier::external_body]
    pub(crate) fn open_ram(
        schema: &tantivy::schema::Schema,
        search_fields: &Vec<tantivy::schema::Field>,
    ) -> (r: Result<IndexStore, SearchError>)
        ensures
            match r {
                Ok(s) => store_pending(s) == empty_docs() && store_committed(s)
                    == empty_docs(),
                Err(_) => true,
            },
    {
        let index = tantivy::Index::create_in_ram(schema.clone());
        let writer = index.writer(50_000_000).map_err(|e| SearchError::index_err(format!("{}", e)))?;
        Ok(IndexStore { index, writer, schema: schema.clone(), search_fields: search_fields.clone() })
    }

    /// Relies on tantivy::TantivyDocument::new: a document with no fields.
    #[verifier::external_body]
    pub(crate) fn new_doc() -> (d: tantivy::TantivyDocument)
        ensures
            doc_fields(d) == empty_doc_fields(),
    {
        tantivy::TantivyDocument::new()
    }

    /// Relies on Schema::get_field and TantivyDocument::add_text: on
    /// success the named field now holds the given text; an unknown field
    /// name is an error and leaves the document as it was. (add_text
    /// rejects field ids above the engine's 16-bit limit; the nine-field
    /// schema stays far below it.)
    #[verifier::external_body]
    pub(crate) fn doc_set_text(
        &self,
        d: &mut tantivy::TantivyDocument,
        name: &str,
        value: &str,
    ) -> (r: Result<(), SearchError>)
        requires
            !doc_fields(*old(d)).contains_key(name@),
        ensures
            r matches Ok(_) ==> doc_fields(*final(d)) == doc_fields(*old(d)).insert(
                name@,
                value@,
            ),
            r matches Err(e) ==> doc_fields(*final(d)) == doc_fields(*old(d)) && e.kind
                == SearchErrorKind::Index,
    {
        match self.schema.get_field(name) {
            Ok(f) => {
                d.add_text(f, value);
                Ok(())
            },
            Err(e) => Err(SearchError::index_err(format!("{}", e))),
        }
    }

    /// Relies on IndexWriter::add_document: on success the document joins
    /// the pending batch; the committed snapshot is untouched either way.
    #[verifier::external_body]
    pub(crate) fn add_doc(&mut self, d: tantivy::TantivyDocument) -> (r: Result<(), SearchError>)
        ensures
            r matches Ok(_) ==> store_pending(*final(self)) == store_pending(*old(self)).push(
                doc_fields(d),
            ) && store_committed(*final(self)) == store_committed(*old(self)),
            r matches Err(e) ==> store_committed(*final(self)) == store_committed(*old(self))
                && e.kind == SearchErrorKind::Index,
    {
        match self.writer.add_document(d) {
            Ok(_) => Ok(()),
            Err(e) => Err(SearchError::index_err(format!("{}", e))),
        }
    }

    /// Relies on IndexWriter::commit: on success the whole pending batch
    /// becomes visible to subsequent readers at once and is persisted; on
    /// failure nothing new becomes visible.
    #[verifier::external_body]
    pub(crate) fn commit(&mut self) -> (r: Result<(), SearchError>)
        ensures
            r matches Ok(_) ==> store_committed(*final(self)) == store_committed(*old(self))
                + store_pending(*old(self)) && store_pending(*final(self)) == empty_docs(),
            r matches Err(e) ==> store_committed(*final(self)) == store_committed(*old(self))
                && e.kind == SearchErrorKind::Index,
    {
        match self.writer.commit() {
            Ok(_) => Ok(()),
            Err(e) => Err(SearchError::index_err(format!("{}", e))),
        }
    }

    /// Relies on IndexWriter::rollback: on success the pending batch is
    /// discarded; the committed snapshot is untouched either way.
    #[verifier::external_body]
    pub(crate) fn rollback(&mut self) -> (r: Result<(), SearchError>)
        ensures
            r matches Ok(_) ==> store_pending(*final(self)) == empty_docs()
                && store_committed(*final(self)) == store_committed(*old(self)),
            r matches Err(e) ==> store_committed(*final(self)) == store_committed(*old(self))
                && e.kind == SearchErrorKind::Index,
    {
        match self.writer.rollback() {
            Ok(_) => Ok(()),
            Err(e) => Err(SearchError::index_err(format!("{}", e))),
        }
    }

    /// Relies on Index::reader, QueryParser::parse_query, Searcher::search
    /// with a TopDocs collector, and Searcher::doc: at most `limit` stored
    /// documents, each from the committed snapshot, best score first. A
    /// malformed query is a parse error; reader and fetch failures are
    /// index errors.
    #[verifier::external_body]
    pub(crate) fn search_docs(&self, query: &str, limit: usize) -> (r: Result<
        Vec<tantivy::TantivyDocument>,
        SearchError,
    >)
        requires
            limit >= 1,
        ensures
            match r {
                Ok(ds) => ds@.len() <= limit && forall|i: int|
                    0 <= i < ds@.len() ==> store_committed(*self).contains(doc_fields(ds@[i])),
                Err(e) => e.kind == SearchErrorKind::QueryParse || e.kind
                    == SearchErrorKind::Index,
            },
    {
        let ie = |e: tantivy::TantivyError| SearchError::index_err(format!("{}", e));
        let reader = self.index.reader().map_err(ie)?;
        let searcher = reader.searcher();
        let parser = tantivy::query::QueryParser::for_index(&self.index, self.search_fields.clone());
        let q = parser.parse_query(query).map_err(|e| SearchError::query_parse_err(format!("{}", e)))?;
        let collector = tantivy::collector::TopDocs::with_limit(limit).order_by_score();
        let top = searcher.search(&q, &collector).map_err(ie)?;
        let mut out: Vec<tantivy::TantivyDocument> = Vec::new();
        for (_score, addr) in top {
            out.push(searcher.doc(addr).map_err(ie)?);
        }
        Ok(out)
    }

    /// Builds the stored document for a record — every field of the schema,
    /// the numeric fields as decimal text — and adds it to the pending
    /// batch. On success the pending batch grew by exactly this record's
    /// stored form; the committed snapshot is untouched either way.
    pub(crate) fn add_record(&mut self, m: &SchemaWrapperModel) -> (r: Result<(), SearchError>)
        ensures
            r matches Ok(_) ==> store_pending(*final(self)) == store_pending(*old(self)).push(
                record_fields(m@),
            ) && store_committed(*final(self)) == store_committed(*old(self)),
            r matches Err(e) ==> store_committed(*final(self)) == store_committed(*old(self))
                && e.kind == SearchErrorKind::Index,
    {
        proof {
            lemma_schema_field_names_distinct();
        }
        let mut d = IndexStore::new_doc();
        match self.doc_set_text(&mut d, "repo_name", m.repo_name.as_str()) {
            Ok(_) => {},
            Err(e) => {
                return Err(e);
            },
        }
        match self.doc_set_text(&mut d, "repo_path", m.repo_path.as_str()) {
            Ok(_) => {},
            Err(e) => {
                return Err(e);
            },
        }
        match self.doc_set_text(&mut d, "repo_type", m.repo_type.as_str()) {
            Ok(_) => {},
            Err(e) => {
                return Err(e);
            },
        }
        match self.doc_set_text(&mut d, "file_name", m.file_name.as_str()) {
            Ok(_) => {},
            Err(e) => {
                return Err(e);
            },
        }
        match self.doc_set_text(&mut d, "file_path", m.file_path.as_str()) {
            Ok(_) => {},
            Err(e) => {
                return Err(e);
            },
        }
        match self.doc_set_text(&mut d, "file_ext", m.file_ext.as_str()) {
            Ok(_) => {},
            Err(e) => {
                return Err(e);
            },
        }
        let size_text = crate::numcodec::u64_to_dec_string(m.file_size);
        match self.doc_set_text(&mut d, "file_size", size_text.as_str()) {
            Ok(_) => {},
            Err(e) => {
                return Err(e);
            },
        }
        match self.doc_set_text(&mut d, "file_content", m.file_content.as_str()) {
            Ok(_) => {},
            Err(e) => {
                return Err(e);
            },
        }
        let upd_text = crate::numcodec::u64_to_dec_string(m.last_updated);
        match self.doc_set_text(&mut d, "last_updated", upd_text.as_str()) {
            Ok(_) => {},
            Err(e) => {
                return Err(e);
            },
        }
        proof {
            assert(doc_fields(d) =~= record_fields(m@));
        }
        self.add_doc(d)
    }

    /// Rebuilds a record from a stored document: the nine schema fields
    /// are read back and the numeric fields parsed. It succeeds on exactly
    /// the complete stored documents — every document this library stores
    /// is one — and the rebuilt record carries the stored fields back.
    pub(crate) fn record_from_doc(&self, d: &tantivy::TantivyDocument) -> (r: Option<
        SchemaWrapperModel,
    >)
        ensures
            r matches Some(m) ==> doc_matches(doc_fields(*d), m@),
            r is Some <==> spec_doc_complete(doc_fields(*d)),
    {
        let repo_name = match self.doc_get_text(d, "repo_name") {
            Some(s) => s,
            None => {
                return None;
            },
        };
        let repo_path = match self.doc_get_text(d, "repo_path") {
            Some(s) => s,
            None => {
                return None;
            },
        };
        let repo_type = match self.doc_get_text(d, "repo_type") {
            Some(s) => s,
            None => {
                return None;
            },
        };
        let file_name = match self.doc_get_text(d, "file_name") {
            Some(s) => s,
            None => {
                return None;
            },
        };
        let file_path = match self.doc_get_text(d, "file_path") {
            Some(s) => s,
            None => {
                return None;
            },
        };
        let file_ext = match self.doc_get_text(d, "file_ext") {
            Some(s) => s,
            None => {
                return None;
            },
        };
        let file_content = match self.doc_get_text(d, "file_content") {
            Some(s) => s,
            None => {
                return None;
            },
        };
        let size_text = match self.doc_get_text(d, "file_size") {
            Some(s) => s,
            None => {
                return None;
            },
        };
        let upd_text = match self.doc_get_text(d, "last_updated") {
            Some(s) => s,
            None => {
                return None;
            },
        };
        let file_size = match parse_u64(size_text.as_str()) {
            Some(v) => v,
            None => {
                return None;
            },
        };
        let last_updated = match parse_u64(upd_text.as_str()) {
            Some(v) => v,
            None => {
                return None;
            },
        };
        Some(
            SchemaWrapperModel {
                repo_name,
                repo_path,
                repo_type,
                file_name,
                file_path,
                file_ext,
                file_size,
                file_content,
                last_updated,
            },
        )
    }

    /// Relies on Schema::get_field, TantivyDocument::get_first and
    /// Value::as_str: the text the named field holds, or `None` where the
    /// document holds no text under that name.
    #[verifier::external_body]
    pub(crate) fn doc_get_text(&self, d: &tantivy::TantivyDocument, name: &str) -> (r: Option<
        String,
    >)
        ensures
            match r {
                Some(s) => doc_fields(*d).contains_key(name@) && doc_fields(*d)[name@] == s@,
                None => !doc_fields(*d).contains_key(name@),
            },
    {
        let f = match self.schema.get_field(name) {
            Ok(f) => f,
            Err(_) => {
                return None;
            },
        };
        match d.get_first(f).and_then(|v| v.as_str()) {
            Some(s) => Some(s.to_string()),
            None => None,
        }
    }
}

} // verus!
