use searchcode::api_models::SearchForm;
use searchcode::engine::RepoInfo;
use searchcode::api_models::RepoDto;
use searchcode::error::{SearchError, SearchErrorKind};
use searchcode::metadata::{EngineMetadataRepo, IndexingStatus};
use searchcode::schema::{FieldKind, SchemaWrapperFields, SimpleSchemaWrapper};
use searchcode::simple_text::SimpleTextIndexFieldNames;
use searchcode::utils::get_language;

#[test]
fn schema_field_names() {
    assert_eq!(SchemaWrapperFields::RepoName.get_name(), "repo_name");
    assert_eq!(SchemaWrapperFields::FileContent.get_name(), "file_content");
    assert_eq!(SchemaWrapperFields::LastUpdated.get_name(), "last_updated");
    assert_eq!(SchemaWrapperFields::RepoName.get_type(), FieldKind::Exact);
    assert_eq!(SchemaWrapperFields::FileContent.get_type(), FieldKind::Analyzed);
    assert_eq!(SchemaWrapperFields::FileSize.get_type(), FieldKind::StoredOnly);
}

#[test]
fn schema_wrapper_table() {
    let w = SimpleSchemaWrapper::create();
    assert_eq!(w.fields.len(), 9);
    assert_eq!(w.fields[0].name, "repo_name");
    assert_eq!(w.fields[7].name, "file_content");
    assert_eq!(w.fields[8].name, "last_updated");
    assert_eq!(w.fields[8].kind, FieldKind::StoredOnly);
}

#[test]
fn simple_text_field_names_roundtrip() {
    let all = [
        SimpleTextIndexFieldNames::RepoName,
        SimpleTextIndexFieldNames::RepoPath,
        SimpleTextIndexFieldNames::RepoType,
        SimpleTextIndexFieldNames::FileName,
        SimpleTextIndexFieldNames::FilePath,
        SimpleTextIndexFieldNames::FileExt,
        SimpleTextIndexFieldNames::FileSize,
        SimpleTextIndexFieldNames::FileLastUpdated,
        SimpleTextIndexFieldNames::FileLanguage,
        SimpleTextIndexFieldNames::FileContent,
    ];
    for f in all {
        assert_eq!(SimpleTextIndexFieldNames::from_name(f.get_name()), Some(f));
    }
    assert_eq!(SimpleTextIndexFieldNames::from_name("no_such_field"), None);
    assert_eq!(
        SimpleTextIndexFieldNames::FileLastUpdated.get_name(),
        "file_last_updated"
    );
}

#[test]
fn language_mapping() {
    assert_eq!(get_language("main.rs").as_deref(), Some("rust"));
    assert_eq!(get_language("app.kt").as_deref(), Some("kotlin"));
    assert_eq!(get_language("a.yml").as_deref(), Some("yaml"));
    assert_eq!(get_language("a.yaml").as_deref(), Some("yaml"));
    assert_eq!(get_language("notes.md").as_deref(), Some("markdown"));
    assert_eq!(get_language("header.hpp").as_deref(), Some("cpp.h"));
    assert_eq!(get_language("data.unknownext").as_deref(), Some("unknownext"));
    assert_eq!(get_language("Makefile").as_deref(), None);
}

#[test]
fn metadata_roundtrips() {
    let mut meta = EngineMetadataRepo::new_temporary().unwrap();
    assert_eq!(meta.get_last_indexed_timestamp("demo").unwrap(), None);
    assert_eq!(meta.get_number_of_indexed_files("demo").unwrap(), None);
    assert_eq!(meta.get_indexing_status("demo").unwrap(), None);
    assert!(!meta.is_repo_indexed("demo").unwrap());

    meta.set_last_indexed_timestamp("demo", 42).unwrap();
    assert_eq!(meta.get_last_indexed_timestamp("demo").unwrap(), Some(42));
    assert!(meta.is_repo_indexed("demo").unwrap());

    meta.set_number_of_indexed_files("demo", 7).unwrap();
    assert_eq!(meta.get_number_of_indexed_files("demo").unwrap(), Some(7));

    meta.set_indexing_status("demo", IndexingStatus::Indexing).unwrap();
    assert_eq!(meta.get_indexing_status("demo").unwrap(), Some(IndexingStatus::Indexing));

    meta.mark_repo_indexing_completed("demo", 100, 3).unwrap();
    assert_eq!(meta.get_last_indexed_timestamp("demo").unwrap(), Some(100));
    assert_eq!(meta.get_number_of_indexed_files("demo").unwrap(), Some(3));
    assert_eq!(meta.get_indexing_status("demo").unwrap(), Some(IndexingStatus::Indexed));

    // Another repository's keys are untouched.
    assert_eq!(meta.get_last_indexed_timestamp("other").unwrap(), None);
}

#[test]
fn search_form_default_limit() {
    let with_limit = SearchForm { query: "q".to_string(), limit: Some(3) };
    assert_eq!(with_limit.to_options().limit, 3);
    let without = SearchForm { query: "q".to_string(), limit: None };
    let opts = without.to_options();
    assert_eq!(opts.limit, 10);
    assert_eq!(opts.query, "q");
}

#[test]
fn repo_dto_from_info() {
    let info = RepoInfo {
        name: "demo".to_string(),
        path: "/repo/demo".to_string(),
        type_: "fs".to_string(),
        last_indexed_time: Some(5),
        number_of_indexed_files: Some(2),
        indexing_status: "indexed".to_string(),
    };
    let dto = RepoDto::from(info);
    assert_eq!(dto.name, "demo");
    assert_eq!(dto.path, "/repo/demo");
    assert_eq!(dto.last_indexed_time, Some(5));
    assert_eq!(dto.number_of_indexed_files, Some(2));
    assert_eq!(dto.indexing_status, "indexed");
}

#[test]
fn error_constructors_carry_kind_and_message() {
    assert_eq!(SearchError::repo_not_found().kind, SearchErrorKind::RepoNotFound);
    let e = SearchError::query_parse_err("bad query".to_string());
    assert_eq!(e.kind, SearchErrorKind::QueryParse);
    assert_eq!(e.message(), "bad query");
    assert_eq!(SearchError::index_err("x".to_string()).kind, SearchErrorKind::Index);
    assert_eq!(SearchError::metadata_err("x".to_string()).kind, SearchErrorKind::Metadata);
}
