use searchcode::builder::FileEntry;
use searchcode::config::{Config, IndexConfig, Repo, ServerConfig, default_skip_dir_patterns};
use searchcode::engine::{FileSearchEngine, SearchOptions};
use searchcode::error::SearchErrorKind;

fn demo_config(allowed: &[&str]) -> Config {
    Config {
        server: ServerConfig { host: "127.0.0.1".to_string(), port: 3030 },
        repos: vec![
            Repo {
                name: "demo".to_string(),
                type_: "fs".to_string(),
                path: "/repo/demo".to_string(),
                skip_dir_patterns: default_skip_dir_patterns(),
                include_file_extensions: allowed.iter().map(|s| s.to_string()).collect(),
            },
        ],
        index: IndexConfig {
            data_dir: "/tmp/searchcode-data".to_string(),
            index_dir_name: "index".to_string(),
            metadata_dir_name: "metadata".to_string(),
        },
    }
}

fn entry(path: &str, name: &str, content: &str, mtime_millis: u64) -> FileEntry {
    FileEntry {
        path: path.to_string(),
        file_name: name.to_string(),
        file_size: content.len() as u64,
        mtime_millis,
        content: Some(content.to_string()),
    }
}

fn demo_entries() -> Vec<FileEntry> {
    vec![
        entry("/repo/demo/a.go", "a.go", "package main", 1_000_000),
        entry("/repo/demo/b.txt", "b.txt", "hello", 1_000_000),
    ]
}

#[test]
fn end_to_end_demo_scenario() {
    let mut engine = FileSearchEngine::new_in_memory(demo_config(&["go"])).unwrap();
    let count = engine.index_repo("demo", &demo_entries()).unwrap();
    assert_eq!(count, 1);

    let hits = engine
        .search(&SearchOptions { query: "package".to_string(), limit: 10 })
        .unwrap();
    assert_eq!(hits.len(), 1);
    assert_eq!(hits[0].file_name, "a.go");
    assert_eq!(hits[0].repo_name, "demo");
    assert_eq!(hits[0].repo_type, "fs");
    assert_eq!(hits[0].file_path, "a.go");
    assert_eq!(hits[0].file_ext, "go");
    assert_eq!(hits[0].file_content, "package main");
    assert_eq!(hits[0].file_size, "package main".len() as u64);
    assert_eq!(hits[0].last_updated, 1_000_000);

    let none = engine
        .search(&SearchOptions { query: "hello".to_string(), limit: 10 })
        .unwrap();
    assert_eq!(none.len(), 0);
}

#[test]
fn status_scenario() {
    let mut engine = FileSearchEngine::new_in_memory(demo_config(&["go"])).unwrap();

    let before = engine.get_repo_list();
    assert_eq!(before.len(), 1);
    assert_eq!(before[0].name, "demo");
    assert_eq!(before[0].path, "/repo/demo");
    assert_eq!(before[0].type_, "fs");
    assert_eq!(before[0].indexing_status, "Not indexed");
    assert!(before[0].last_indexed_time.is_none());
    assert!(before[0].number_of_indexed_files.is_none());

    engine.index_repo("demo", &demo_entries()).unwrap();

    let after = engine.get_repo_list();
    assert_eq!(after[0].indexing_status, "indexed");
    assert!(after[0].last_indexed_time.is_some());
    assert_eq!(after[0].number_of_indexed_files, Some(1));
}

#[test]
fn unknown_repo_is_rejected_and_changes_nothing() {
    let mut engine = FileSearchEngine::new_in_memory(demo_config(&["go"])).unwrap();
    let err = engine.index_repo("nonexistent", &demo_entries()).unwrap_err();
    assert_eq!(err.kind, SearchErrorKind::RepoNotFound);

    let report = engine.get_repo_list();
    assert_eq!(report[0].indexing_status, "Not indexed");
    assert!(report[0].last_indexed_time.is_none());
    assert!(report[0].number_of_indexed_files.is_none());
}

#[test]
fn second_pass_over_unchanged_repo_indexes_nothing() {
    let mut engine = FileSearchEngine::new_in_memory(demo_config(&["go"])).unwrap();
    let first = engine.index_repo("demo", &demo_entries()).unwrap();
    assert_eq!(first, 1);
    let second = engine.index_repo("demo", &demo_entries()).unwrap();
    assert_eq!(second, 0);
}

#[test]
fn modifying_one_file_reindexes_exactly_that_file() {
    let mut engine = FileSearchEngine::new_in_memory(demo_config(&["go"])).unwrap();
    let mut entries = vec![
        entry("/repo/demo/a.go", "a.go", "package main", 1_000_000),
        entry("/repo/demo/b.go", "b.go", "package other", 1_000_000),
        entry("/repo/demo/c.go", "c.go", "package third", 1_000_000),
    ];
    assert_eq!(engine.index_repo("demo", &entries).unwrap(), 3);

    // One file's content changes; its modification time moves past the pass.
    entries[1] = entry("/repo/demo/b.go", "b.go", "package changed", 4_102_444_800_000);
    assert_eq!(engine.index_repo("demo", &entries).unwrap(), 1);
}

#[test]
fn higher_term_frequency_ranks_first() {
    let mut engine = FileSearchEngine::new_in_memory(demo_config(&["go"])).unwrap();
    let entries = vec![
        entry("/repo/demo/low.go", "low.go", "apple banana cherry", 1_000_000),
        entry("/repo/demo/high.go", "high.go", "apple apple apple", 1_000_000),
    ];
    assert_eq!(engine.index_repo("demo", &entries).unwrap(), 2);

    let hits = engine
        .search(&SearchOptions { query: "apple".to_string(), limit: 10 })
        .unwrap();
    assert_eq!(hits.len(), 2);
    assert_eq!(hits[0].file_name, "high.go");
    assert_eq!(hits[1].file_name, "low.go");
}

#[test]
fn skipped_directories_are_never_indexed() {
    let mut engine = FileSearchEngine::new_in_memory(demo_config(&["go"])).unwrap();
    let entries = vec![
        entry("/repo/demo/src/main.go", "main.go", "package main", 1_000_000),
        entry("/repo/demo/vendor/dep.go", "dep.go", "package vendored", 1_000_000),
        entry("/repo/demo/.git/hook.go", "hook.go", "package hook", 1_000_000),
    ];
    assert_eq!(engine.index_repo("demo", &entries).unwrap(), 1);

    let hits = engine
        .search(&SearchOptions { query: "package".to_string(), limit: 10 })
        .unwrap();
    assert_eq!(hits.len(), 1);
    assert_eq!(hits[0].file_name, "main.go");
}

#[test]
fn unreadable_content_is_skipped_softly() {
    let mut engine = FileSearchEngine::new_in_memory(demo_config(&["go"])).unwrap();
    let entries = vec![
        entry("/repo/demo/a.go", "a.go", "package main", 1_000_000),
        FileEntry {
            path: "/repo/demo/bad.go".to_string(),
            file_name: "bad.go".to_string(),
            file_size: 4,
            mtime_millis: 1_000_000,
            content: None,
        },
    ];
    assert_eq!(engine.index_repo("demo", &entries).unwrap(), 1);
}

#[test]
fn malformed_query_is_a_parse_error() {
    let mut engine = FileSearchEngine::new_in_memory(demo_config(&["go"])).unwrap();
    engine.index_repo("demo", &demo_entries()).unwrap();
    let err = engine
        .search(&SearchOptions { query: "no_such_field_xyz:value".to_string(), limit: 10 })
        .unwrap_err();
    assert_eq!(err.kind, SearchErrorKind::QueryParse);
}

#[test]
fn search_respects_the_limit() {
    let mut engine = FileSearchEngine::new_in_memory(demo_config(&["go"])).unwrap();
    let entries: Vec<FileEntry> = (0..5)
        .map(|i| {
            entry(
                &format!("/repo/demo/f{}.go", i),
                &format!("f{}.go", i),
                "package common",
                1_000_000,
            )
        })
        .collect();
    assert_eq!(engine.index_repo("demo", &entries).unwrap(), 5);

    let hits = engine
        .search(&SearchOptions { query: "common".to_string(), limit: 2 })
        .unwrap();
    assert_eq!(hits.len(), 2);
    let none = engine
        .search(&SearchOptions { query: "common".to_string(), limit: 0 })
        .unwrap();
    assert_eq!(none.len(), 0);
}

#[test]
fn get_repo_finds_configured_repos() {
    let engine = FileSearchEngine::new_in_memory(demo_config(&["go"])).unwrap();
    assert!(engine.get_repo("demo").is_some());
    assert_eq!(engine.get_repo("demo").unwrap().path, "/repo/demo");
    assert!(engine.get_repo("other").is_none());
}

#[test]
fn relative_paths_are_stored_for_nested_files() {
    let mut engine = FileSearchEngine::new_in_memory(demo_config(&["go"])).unwrap();
    let entries = vec![
        entry("/repo/demo/pkg/util/helper.go", "helper.go", "package util", 1_000_000),
    ];
    assert_eq!(engine.index_repo("demo", &entries).unwrap(), 1);
    let hits = engine
        .search(&SearchOptions { query: "util".to_string(), limit: 10 })
        .unwrap();
    assert_eq!(hits.len(), 1);
    assert_eq!(hits[0].file_path, "pkg/util/helper.go");
}

fn two_repo_config() -> Config {
    let mut c = demo_config(&["go"]);
    c.repos.push(Repo {
        name: "docs".to_string(),
        type_: "fs".to_string(),
        path: "/repo/docs".to_string(),
        skip_dir_patterns: default_skip_dir_patterns(),
        include_file_extensions: vec!["md".to_string()],
    });
    c
}

#[test]
fn repos_are_indexed_independently() {
    let mut engine = FileSearchEngine::new_in_memory(two_repo_config()).unwrap();
    assert_eq!(engine.index_repo("demo", &demo_entries()).unwrap(), 1);

    let report = engine.get_repo_list();
    assert_eq!(report.len(), 2);
    assert_eq!(report[0].name, "demo");
    assert_eq!(report[0].indexing_status, "indexed");
    assert_eq!(report[1].name, "docs");
    assert_eq!(report[1].indexing_status, "Not indexed");
    assert!(report[1].last_indexed_time.is_none());

    let docs_entries = vec![entry("/repo/docs/guide.md", "guide.md", "package notes", 1_000_000)];
    assert_eq!(engine.index_repo("docs", &docs_entries).unwrap(), 1);

    // Both repositories' documents share the index and are both searchable.
    let hits = engine
        .search(&SearchOptions { query: "package".to_string(), limit: 10 })
        .unwrap();
    assert_eq!(hits.len(), 2);
    assert!(hits.iter().any(|h| h.repo_name == "demo"));
    assert!(hits.iter().any(|h| h.repo_name == "docs"));
}

#[test]
fn numeric_fields_survive_the_store_exactly() {
    let mut engine = FileSearchEngine::new_in_memory(demo_config(&["go"])).unwrap();
    let entries = vec![FileEntry {
        path: "/repo/demo/big.go".to_string(),
        file_name: "big.go".to_string(),
        file_size: u64::MAX,
        mtime_millis: u64::MAX,
        content: Some("package big".to_string()),
    }];
    assert_eq!(engine.index_repo("demo", &entries).unwrap(), 1);
    let hits = engine
        .search(&SearchOptions { query: "big".to_string(), limit: 10 })
        .unwrap();
    assert_eq!(hits.len(), 1);
    assert_eq!(hits[0].file_size, u64::MAX);
    assert_eq!(hits[0].last_updated, u64::MAX);
}
