use searchcode::strutil::{
    str_eq, str_contains, str_starts_with, extension_of, relative_path, join_path,
    contains_string, matches_any_pattern, copy_string,
};

#[test]
fn str_eq_basics() {
    assert!(str_eq("abc", "abc"));
    assert!(!str_eq("abc", "abd"));
    assert!(!str_eq("abc", "abcd"));
    assert!(str_eq("", ""));
}

#[test]
fn str_contains_basics() {
    assert!(str_contains("a/b/node_modules/c", "node_modules"));
    assert!(str_contains("abc", ""));
    assert!(str_contains("abc", "abc"));
    assert!(!str_contains("abc", "abcd"));
    assert!(!str_contains("a/b/c", ".git"));
    assert!(str_contains("x.git", ".git"));
}

#[test]
fn str_starts_with_basics() {
    assert!(str_starts_with("/repo/demo/a.go", "/repo/demo"));
    assert!(!str_starts_with("/repo/demo", "/repo/demo/a.go"));
    assert!(str_starts_with("abc", ""));
}

#[test]
fn extension_of_basics() {
    assert_eq!(extension_of("a.go").as_deref(), Some("go"));
    assert_eq!(extension_of("archive.tar.gz").as_deref(), Some("gz"));
    assert_eq!(extension_of("README").as_deref(), None);
    assert_eq!(extension_of(".gitignore").as_deref(), None);
    assert_eq!(extension_of("trailing.").as_deref(), Some(""));
}

#[test]
fn relative_path_basics() {
    assert_eq!(relative_path("/repo/demo/sub/a.go", "/repo/demo"), "sub/a.go");
    assert_eq!(relative_path("/repo/demo/a.go", "/repo/demo/"), "a.go");
    assert_eq!(relative_path("/elsewhere/a.go", "/repo/demo"), "/elsewhere/a.go");
}

#[test]
fn join_path_basics() {
    assert_eq!(join_path("/data", "index"), "/data/index");
    assert_eq!(join_path("/data/", "index"), "/data/index");
    assert_eq!(join_path("", "index"), "/index");
}

#[test]
fn contains_string_basics() {
    let v = vec!["go".to_string(), "rs".to_string()];
    assert!(contains_string(&v, "go"));
    assert!(!contains_string(&v, "txt"));
    let empty: Vec<String> = Vec::new();
    assert!(!contains_string(&empty, "go"));
}

#[test]
fn matches_any_pattern_basics() {
    let patterns = vec![".git".to_string(), "node_modules".to_string()];
    assert!(matches_any_pattern("/r/.git/config", &patterns));
    assert!(matches_any_pattern("/r/node_modules/x/y.js", &patterns));
    assert!(!matches_any_pattern("/r/src/main.go", &patterns));
}

#[test]
fn copy_string_keeps_content() {
    let s = "hello".to_string();
    assert_eq!(copy_string(&s), "hello");
}
