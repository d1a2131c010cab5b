use searchcode::config::{
    default_skip_dir_patterns, default_include_file_extensions, default_host, default_port,
    default_index_dir_name, default_metadata_dir_name, validate_repo_type,
    validate_at_least_one_item, validate_string_in_patterns, find_repo_index, IndexConfig, Repo,
};

fn repo(name: &str) -> Repo {
    Repo {
        name: name.to_string(),
        type_: "fs".to_string(),
        path: format!("/repo/{}", name),
        skip_dir_patterns: default_skip_dir_patterns(),
        include_file_extensions: default_include_file_extensions(),
    }
}

#[test]
fn default_skip_patterns_exact() {
    let p = default_skip_dir_patterns();
    assert_eq!(p.len(), 23);
    assert_eq!(p[0], ".git");
    assert_eq!(p[1], ".hg");
    assert_eq!(p[2], ".svn");
    assert_eq!(p[3], "node_modules");
    assert_eq!(p[22], "logs");
    assert!(p.contains(&"vendor".to_string()));
    assert!(p.contains(&".idea".to_string()));
}

#[test]
fn default_extensions_exact() {
    let e = default_include_file_extensions();
    assert_eq!(e.len(), 39);
    assert_eq!(e[0], "c");
    assert_eq!(e[7], "go");
    assert_eq!(e[38], "sql");
    assert!(e.contains(&"rs".to_string()));
    assert!(e.contains(&"md".to_string()));
    assert!(!e.contains(&"txt".to_string()));
}

#[test]
fn server_defaults() {
    assert_eq!(default_host(), "0.0.0.0");
    assert_eq!(default_port(), 3030);
}

#[test]
fn index_config_dirs() {
    assert_eq!(default_index_dir_name(), "index");
    assert_eq!(default_metadata_dir_name(), "metadata");
    let c = IndexConfig {
        data_dir: "/data".to_string(),
        index_dir_name: "index".to_string(),
        metadata_dir_name: "metadata".to_string(),
    };
    assert_eq!(c.index_dir(), "/data/index");
    assert_eq!(c.metadata_dir(), "/data/metadata");
}

#[test]
fn validators_basics() {
    assert!(validate_repo_type("fs"));
    assert!(!validate_repo_type("git"));
    assert!(validate_at_least_one_item(&vec![1]));
    assert!(!validate_at_least_one_item::<u32>(&Vec::new()));
    let pats = vec!["fs".to_string(), "git".to_string()];
    assert!(validate_string_in_patterns("git", &pats));
    assert!(!validate_string_in_patterns("svn", &pats));
}

#[test]
fn find_repo_index_basics() {
    let repos = vec![repo("one"), repo("two")];
    assert_eq!(find_repo_index(&repos, "one"), Some(0));
    assert_eq!(find_repo_index(&repos, "two"), Some(1));
    assert_eq!(find_repo_index(&repos, "three"), None);
}
