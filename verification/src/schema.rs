//! The index schema and the document model: the named, typed fields every
//! stored document carries, the record built per source file, and the map
//! form of a record as the index stores it (numeric fields as decimal text).

use vstd::prelude::*;
use vstd::map::*;
use crate::numcodec::spec_u64_to_dec;

verus! {

/// How a field is indexed: analyzed full text, exact string, or stored only.
#[derive(Debug, Clone, Copy, PartialEq, Eq, Structural)]
pub enum FieldKind {
    Analyzed,
    Exact,
    StoredOnly,
}

/// A field of the schema: its name and how it is indexed. All fields are
/// also stored, so documents can be reconstructed from search hits.
#[derive(Debug, Clone)]
pub struct FieldSpec {
    pub name: String,
    pub kind: FieldKind,
}

/// The fields of the document schema.
#[derive(Debug, Clone, Copy)]
pub enum SchemaWrapperFields {
    RepoName,
    RepoPath,
    RepoType,
    FileName,
    FilePath,
    FileExt,
    FileSize,
    FileContent,
    LastUpdated,
}

/// The stored name of each schema field.
pub open spec fn spec_field_name(f: SchemaWrapperFields) -> Seq<char> {
    match f {
        SchemaWrapperFields::RepoName => "repo_name"@,
        SchemaWrapperFields::RepoPath => "repo_path"@,
        SchemaWrapperFields::RepoType => "repo_type"@,
        SchemaWrapperFields::FileName => "file_name"@,
        SchemaWrapperFields::FilePath => "file_path"@,
        SchemaWrapperFields::FileExt => "file_ext"@,
        SchemaWrapperFields::FileSize => "file_size"@,
        SchemaWrapperFields::FileContent => "file_content"@,
        SchemaWrapperFields::LastUpdated => "last_updated"@,
    }
}

/// How each schema field is indexed: exact strings for the repo-scoped tags
/// and the extension, analyzed text for the searchable paths and content,
/// stored-only for the numeric fields.
pub open spec fn spec_field_kind(f: SchemaWrapperFields) -> FieldKind {
    match f {
        SchemaWrapperFields::RepoName => FieldKind::Exact,
        SchemaWrapperFields::RepoPath => FieldKind::Analyzed,
        SchemaWrapperFields::RepoType => FieldKind::Exact,
        SchemaWrapperFields::FileName => FieldKind::Analyzed,
        SchemaWrapperFields::FilePath => FieldKind::Analyzed,
        SchemaWrapperFields::FileExt => FieldKind::Exact,
        SchemaWrapperFields::FileSize => FieldKind::StoredOnly,
        SchemaWrapperFields::FileContent => FieldKind::Analyzed,
        SchemaWrapperFields::LastUpdated => FieldKind::StoredOnly,
    }
}

impl SchemaWrapperFields {
    /// The stored name of the field.
    pub fn get_name(&self) -> (r: &'static str)
        ensures
            r@ == spec_field_name(*self),
    {
        match self {
            SchemaWrapperFields::RepoName => "repo_name",
            SchemaWrapperFields::RepoPath => "repo_path",
            SchemaWrapperFields::RepoType => "repo_type",
            SchemaWrapperFields::FileName => "file_name",
            SchemaWrapperFields::FilePath => "file_path",
            SchemaWrapperFields::FileExt => "file_ext",
            SchemaWrapperFields::FileSize => "file_size",
            SchemaWrapperFields::FileContent => "file_content",
            SchemaWrapperFields::LastUpdated => "last_updated",
        }
    }

    /// How the field is indexed.
    pub fn get_type(&self) -> (r: FieldKind)
        ensures
            r == spec_field_kind(*self),
    {
        match self {
            SchemaWrapperFields::RepoName => FieldKind::Exact,
            SchemaWrapperFields::RepoPath => FieldKind::Analyzed,
            SchemaWrapperFields::RepoType => FieldKind::Exact,
            SchemaWrapperFields::FileName => FieldKind::Analyzed,
            SchemaWrapperFields::FilePath => FieldKind::Analyzed,
            SchemaWrapperFields::FileExt => FieldKind::Exact,
            SchemaWrapperFields::FileSize => FieldKind::StoredOnly,
            SchemaWrapperFields::FileContent => FieldKind::Analyzed,
            SchemaWrapperFields::LastUpdated => FieldKind::StoredOnly,
        }
    }
}

/// The schema as a value: the ordered field list handed to the index store.
pub struct SimpleSchemaWrapper {
    pub fields: Vec<FieldSpec>,
}

/// A list of field specifications acceptable to the index engine: the
/// names are pairwise distinct, non-empty and do not start with `-`.
pub open spec fn spec_field_names_ok(fields: Seq<FieldSpec>) -> bool {
    &&& forall|a: int, b: int| 0 <= a < b < fields.len() ==> fields[a].name@ != fields[b].name@
    &&& forall|a: int|
        0 <= a < fields.len() ==> (#[trigger] fields[a]).name@.len() >= 1 && fields[a].name@[0]
            != '-'
}

impl SimpleSchemaWrapper {
    /// Builds the document schema: one entry per `SchemaWrapperFields`
    /// variant, in declaration order, with its name and kind. The names
    /// are pairwise distinct and well formed, which is what the index
    /// engine demands of a schema.
    pub fn create() -> (r: SimpleSchemaWrapper)
        ensures
            r.fields@.len() == 9,
            r.fields@[0].name@ == "repo_name"@ && r.fields@[0].kind == FieldKind::Exact,
            r.fields@[1].name@ == "repo_path"@ && r.fields@[1].kind == FieldKind::Analyzed,
            r.fields@[2].name@ == "repo_type"@ && r.fields@[2].kind == FieldKind::Exact,
            r.fields@[3].name@ == "file_name"@ && r.fields@[3].kind == FieldKind::Analyzed,
            r.fields@[4].name@ == "file_path"@ && r.fields@[4].kind == FieldKind::Analyzed,
            r.fields@[5].name@ == "file_ext"@ && r.fields@[5].kind == FieldKind::Exact,
            r.fields@[6].name@ == "file_size"@ && r.fields@[6].kind == FieldKind::StoredOnly,
            r.fields@[7].name@ == "file_content"@ && r.fields@[7].kind == FieldKind::Analyzed,
            r.fields@[8].name@ == "last_updated"@ && r.fields@[8].kind == FieldKind::StoredOnly,
            spec_field_names_ok(r.fields@),
    {
        let names: [SchemaWrapperFields; 9] = [
            SchemaWrapperFields::RepoName,
            SchemaWrapperFields::RepoPath,
            SchemaWrapperFields::RepoType,
            SchemaWrapperFields::FileName,
            SchemaWrapperFields::FilePath,
            SchemaWrapperFields::FileExt,
            SchemaWrapperFields::FileSize,
            SchemaWrapperFields::FileContent,
            SchemaWrapperFields::LastUpdated,
        ];
        let mut fields: Vec<FieldSpec> = Vec::new();
        let mut i: usize = 0;
        while i < 9
            invariant
                i <= 9,
                fields@.len() == i,
                forall|k: int|
                    0 <= k < i ==> fields@[k].name@ == spec_field_name(#[trigger] spec_schema_order()[k])
                        && fields@[k].kind == spec_field_kind(spec_schema_order()[k]),
                forall|k: int| 0 <= k < 9 ==> names@[k] == spec_schema_order()[k],
            decreases 9 - i,
        {
            let f = names[i];
            fields.push(FieldSpec { name: String::from_str(f.get_name()), kind: f.get_type() });
            i += 1;
        }
        proof {
            lemma_schema_field_names_distinct();
            lemma_schema_field_names_wellformed();
            lemma_schema_order_positions();
            assert forall|a: int, b: int|
                0 <= a < b < fields@.len() implies fields@[a].name@ != fields@[b].name@ by {
                assert(spec_field_position(spec_schema_order()[a]) == a);
                assert(spec_field_position(spec_schema_order()[b]) == b);
                assert(spec_schema_order()[a] != spec_schema_order()[b]);
            }
            assert forall|a: int|
                0 <= a < fields@.len() implies (#[trigger] fields@[a]).name@.len() >= 1
                && fields@[a].name@[0] != '-' by {
                assert(fields@[a].name@ == spec_field_name(spec_schema_order()[a]));
            }
        }
        SimpleSchemaWrapper { fields }
    }
}

/// The position of each field in the schema's declaration order.
pub open spec fn spec_field_position(f: SchemaWrapperFields) -> int {
    match f {
        SchemaWrapperFields::RepoName => 0,
        SchemaWrapperFields::RepoPath => 1,
        SchemaWrapperFields::RepoType => 2,
        SchemaWrapperFields::FileName => 3,
        SchemaWrapperFields::FilePath => 4,
        SchemaWrapperFields::FileExt => 5,
        SchemaWrapperFields::FileSize => 6,
        SchemaWrapperFields::FileContent => 7,
        SchemaWrapperFields::LastUpdated => 8,
    }
}

/// The declaration order puts each field at its own position, so no field
/// occurs twice in it.
pub proof fn lemma_schema_order_positions()
    ensures
        forall|k: int|
            0 <= k < 9 ==> spec_field_position(#[trigger] spec_schema_order()[k]) == k,
{
}

/// Every schema field name is non-empty and does not start with `-`, the
/// well-formedness the index engine demands of field names.
pub proof fn lemma_schema_field_names_wellformed()
    ensures
        forall|f: SchemaWrapperFields|
            (#[trigger] spec_field_name(f)).len() >= 1 && spec_field_name(f)[0] != '-',
{
    reveal_strlit("repo_name");
    reveal_strlit("repo_path");
    reveal_strlit("repo_type");
    reveal_strlit("file_name");
    reveal_strlit("file_path");
    reveal_strlit("file_ext");
    reveal_strlit("file_size");
    reveal_strlit("file_content");
    reveal_strlit("last_updated");
    assert("repo_name"@.len() >= 1 && "repo_name"@[0] == 'r');
    assert("repo_path"@.len() >= 1 && "repo_path"@[0] == 'r');
    assert("repo_type"@.len() >= 1 && "repo_type"@[0] == 'r');
    assert("file_name"@.len() >= 1 && "file_name"@[0] == 'f');
    assert("file_path"@.len() >= 1 && "file_path"@[0] == 'f');
    assert("file_ext"@.len() >= 1 && "file_ext"@[0] == 'f');
    assert("file_size"@.len() >= 1 && "file_size"@[0] == 'f');
    assert("file_content"@.len() >= 1 && "file_content"@[0] == 'f');
    assert("last_updated"@.len() >= 1 && "last_updated"@[0] == 'l');
}

/// The schema fields in declaration order.
pub open spec fn spec_schema_order() -> Seq<SchemaWrapperFields> {
    seq![
        SchemaWrapperFields::RepoName,
        SchemaWrapperFields::RepoPath,
        SchemaWrapperFields::RepoType,
        SchemaWrapperFields::FileName,
        SchemaWrapperFields::FilePath,
        SchemaWrapperFields::FileExt,
        SchemaWrapperFields::FileSize,
        SchemaWrapperFields::FileContent,
        SchemaWrapperFields::LastUpdated,
    ]
}

/// The fields queries are parsed against, in order: content first, then
/// file name, then file path.
pub fn default_search_fields() -> (r: Vec<String>)
    ensures
        r.deep_view() == seq!["file_content"@, "file_name"@, "file_path"@],
{
    let r: Vec<String> = vec![
        String::from_str("file_content"),
        String::from_str("file_name"),
        String::from_str("file_path"),
    ];
    proof {
        assert(r.deep_view() =~= seq!["file_content"@, "file_name"@, "file_path"@]);
    }
    r
}

/// The indexable record derived from one source file. `file_path` is
/// relative to the repository root; `last_updated` is the file's
/// modification time in milliseconds since the epoch.
#[derive(Debug)]
pub struct SchemaWrapperModel {
    pub repo_name: String,
    pub repo_path: String,
    pub repo_type: String,
    pub file_name: String,
    pub file_path: String,
    pub file_ext: String,
    pub file_size: u64,
    pub file_content: String,
    pub last_updated: u64,
}

/// The mathematical view of a document record.
pub ghost struct DocRecord {
    pub repo_name: Seq<char>,
    pub repo_path: Seq<char>,
    pub repo_type: Seq<char>,
    pub file_name: Seq<char>,
    pub file_path: Seq<char>,
    pub file_ext: Seq<char>,
    pub file_size: u64,
    pub file_content: Seq<char>,
    pub last_updated: u64,
}

impl View for SchemaWrapperModel {
    type V = DocRecord;

    open spec fn view(&self) -> DocRecord {
        DocRecord {
            repo_name: self.repo_name@,
            repo_path: self.repo_path@,
            repo_type: self.repo_type@,
            file_name: self.file_name@,
            file_path: self.file_path@,
            file_ext: self.file_ext@,
            file_size: self.file_size,
            file_content: self.file_content@,
            last_updated: self.last_updated,
        }
    }
}

/// A stored document as the index holds it: field name to stored text,
/// the numeric fields rendered as decimal text.
pub open spec fn record_fields(d: DocRecord) -> Map<Seq<char>, Seq<char>> {
    map![
        "repo_name"@ => d.repo_name,
        "repo_path"@ => d.repo_path,
        "repo_type"@ => d.repo_type,
        "file_name"@ => d.file_name,
        "file_path"@ => d.file_path,
        "file_ext"@ => d.file_ext,
        "file_size"@ => spec_u64_to_dec(d.file_size as int),
        "file_content"@ => d.file_content,
        "last_updated"@ => spec_u64_to_dec(d.last_updated as int),
    ]
}

/// A stored document carries this record: each text field holds the
/// record's string, and the numeric fields parse back to the record's
/// numbers. The document may hold further fields beyond these nine.
pub open spec fn doc_matches(m: Map<Seq<char>, Seq<char>>, d: DocRecord) -> bool {
    &&& m.contains_key("repo_name"@) && m["repo_name"@] == d.repo_name
    &&& m.contains_key("repo_path"@) && m["repo_path"@] == d.repo_path
    &&& m.contains_key("repo_type"@) && m["repo_type"@] == d.repo_type
    &&& m.contains_key("file_name"@) && m["file_name"@] == d.file_name
    &&& m.contains_key("file_path"@) && m["file_path"@] == d.file_path
    &&& m.contains_key("file_ext"@) && m["file_ext"@] == d.file_ext
    &&& m.contains_key("file_content"@) && m["file_content"@] == d.file_content
    &&& m.contains_key("file_size"@) && crate::numcodec::spec_parse_dec(m["file_size"@])
        == Some(d.file_size as int)
    &&& m.contains_key("last_updated"@) && crate::numcodec::spec_parse_dec(m["last_updated"@])
        == Some(d.last_updated as int)
}

/// A stored document is complete: it carries every schema field, and its
/// two numeric fields hold decimal text whose value fits a `u64`. Exactly
/// the stored documents a record can be rebuilt from.
pub open spec fn spec_doc_complete(m: Map<Seq<char>, Seq<char>>) -> bool {
    &&& m.contains_key("repo_name"@)
    &&& m.contains_key("repo_path"@)
    &&& m.contains_key("repo_type"@)
    &&& m.contains_key("file_name"@)
    &&& m.contains_key("file_path"@)
    &&& m.contains_key("file_ext"@)
    &&& m.contains_key("file_content"@)
    &&& m.contains_key("file_size"@)
    &&& (crate::numcodec::spec_parse_dec(m["file_size"@]) matches Some(v) && v <= u64::MAX)
    &&& m.contains_key("last_updated"@)
    &&& (crate::numcodec::spec_parse_dec(m["last_updated"@]) matches Some(v) && v <= u64::MAX)
}

/// The stored form of a record is complete and carries that record back.
pub proof fn lemma_record_fields_matches(d: DocRecord)
    ensures
        doc_matches(record_fields(d), d),
        spec_doc_complete(record_fields(d)),
{
    crate::numcodec::lemma_dec_roundtrip(d.file_size as int);
    crate::numcodec::lemma_dec_roundtrip(d.last_updated as int);
    lemma_schema_field_names_distinct();
}

/// The nine field names are pairwise distinct; each pair differs at the
/// first, the second or the sixth character.
pub proof fn lemma_schema_field_names_distinct()
    ensures
        forall|f: SchemaWrapperFields, g: SchemaWrapperFields|
            spec_field_name(f) == spec_field_name(g) ==> f == g,
        "repo_name"@ != "repo_path"@ && "repo_name"@ != "repo_type"@ && "repo_path"@
            != "repo_type"@,
        "file_name"@ != "file_path"@ && "file_name"@ != "file_ext"@ && "file_name"@
            != "file_size"@ && "file_name"@ != "file_content"@,
        "file_path"@ != "file_ext"@ && "file_path"@ != "file_size"@ && "file_path"@
            != "file_content"@,
        "file_ext"@ != "file_size"@ && "file_ext"@ != "file_content"@,
        "file_size"@ != "file_content"@,
        "repo_name"@ != "file_name"@ && "repo_name"@ != "file_path"@ && "repo_name"@
            != "file_ext"@ && "repo_name"@ != "file_size"@ && "repo_name"@ != "file_content"@,
        "repo_path"@ != "file_name"@ && "repo_path"@ != "file_path"@ && "repo_path"@
            != "file_ext"@ && "repo_path"@ != "file_size"@ && "repo_path"@ != "file_content"@,
        "repo_type"@ != "file_name"@ && "repo_type"@ != "file_path"@ && "repo_type"@
            != "file_ext"@ && "repo_type"@ != "file_size"@ && "repo_type"@ != "file_content"@,
        "last_updated"@ != "repo_name"@ && "last_updated"@ != "repo_path"@ && "last_updated"@
            != "repo_type"@ && "last_updated"@ != "file_name"@ && "last_updated"@
            != "file_path"@ && "last_updated"@ != "file_ext"@ && "last_updated"@
            != "file_size"@ && "last_updated"@ != "file_content"@,
{
    reveal_strlit("repo_name");
    reveal_strlit("repo_path");
    reveal_strlit("repo_type");
    reveal_strlit("file_name");
    reveal_strlit("file_path");
    reveal_strlit("file_ext");
    reveal_strlit("file_size");
    reveal_strlit("file_content");
    reveal_strlit("last_updated");
    assert("repo_name"@[0] == 'r' && "repo_name"@[5] == 'n');
    assert("repo_path"@[0] == 'r' && "repo_path"@[5] == 'p');
    assert("repo_type"@[0] == 'r' && "repo_type"@[5] == 't');
    assert("file_name"@[0] == 'f' && "file_name"@[5] == 'n');
    assert("file_path"@[0] == 'f' && "file_path"@[5] == 'p');
    assert("file_ext"@[0] == 'f' && "file_ext"@[5] == 'e');
    assert("file_size"@[0] == 'f' && "file_size"@[5] == 's');
    assert("file_content"@[0] == 'f' && "file_content"@[5] == 'c');
    assert("last_updated"@[0] == 'l');
    assert("repo_name"@[1] == 'e' && "file_name"@[1] == 'i' && "last_updated"@[1] == 'a');
}

} // verus!
