//! Configuration model: repositories to index, index/metadata directory
//! layout, server address, the built-in defaults, and the validation rules
//! the loader applies. Loading the YAML file itself is left to the caller;
//! this module owns the values and the policy around them.

use vstd::prelude::*;
use crate::strutil::{join_path, str_eq, seq_contains_string, contains_string};

verus! {

/// A named, configured file-system subtree to be scanned and indexed.
/// Immutable after load.
#[derive(Debug, Clone)]
pub struct Repo {
    pub name: String,
    pub type_: String,
    pub path: String,
    pub skip_dir_patterns: Vec<String>,
    pub include_file_extensions: Vec<String>,
}

/// Where the index and the metadata store live on disk: a data directory
/// plus one fixed sub-name for each.
#[derive(Debug, Clone)]
pub struct IndexConfig {
    pub data_dir: String,
    pub index_dir_name: String,
    pub metadata_dir_name: String,
}

impl IndexConfig {
    /// The on-disk directory of the full-text index.
    pub fn index_dir(&self) -> (r: String)
        ensures
            r@ == crate::strutil::spec_join_path(self.data_dir@, self.index_dir_name@),
    {
        join_path(self.data_dir.as_str(), self.index_dir_name.as_str())
    }

    /// The on-disk directory of the metadata store.
    pub fn metadata_dir(&self) -> (r: String)
        ensures
            r@ == crate::strutil::spec_join_path(self.data_dir@, self.metadata_dir_name@),
    {
        join_path(self.data_dir.as_str(), self.metadata_dir_name.as_str())
    }
}

impl Default for IndexConfig {
    /// The default layout: a per-user data directory holding `index` and
    /// `metadata` sub-directories.
    fn default() -> (r: IndexConfig)
        ensures
            r.index_dir_name@ == "index"@,
            r.metadata_dir_name@ == "metadata"@,
    {
        IndexConfig {
            data_dir: default_data_dir(),
            index_dir_name: default_index_dir_name(),
            metadata_dir_name: default_metadata_dir_name(),
        }
    }
}

/// Relies on dirs::data_local_dir: the platform's per-user data directory,
/// if the platform defines one. The result depends on the machine and the
/// environment, so nothing is claimed of it.
#[verifier::external_body]
fn local_data_dir() -> Option<String> {
    dirs::data_local_dir().and_then(|p| p.to_str().map(|s| s.to_string()))
}

/// The default data directory: the per-user data directory joined with the
/// application's own sub-name, or that sub-name alone where the platform
/// defines no such directory. Machine-dependent, so nothing more is claimed.
pub fn default_data_dir() -> String {
    match local_data_dir() {
        Some(d) => join_path(d.as_str(), "searchcode-rs"),
        None => String::from_str("searchcode-rs"),
    }
}

/// The fixed sub-name of the index directory.
pub fn default_index_dir_name() -> (r: String)
    ensures
        r@ == "index"@,
{
    String::from_str("index")
}

/// The fixed sub-name of the metadata directory.
pub fn default_metadata_dir_name() -> (r: String)
    ensures
        r@ == "metadata"@,
{
    String::from_str("metadata")
}

/// The address the API server binds to.
#[derive(Debug, Clone)]
pub struct ServerConfig {
    pub host: String,
    pub port: u16,
}

impl Default for ServerConfig {
    fn default() -> (r: ServerConfig)
        ensures
            r.host@ == "0.0.0.0"@,
            r.port == 3030,
    {
        ServerConfig { host: default_host(), port: default_port() }
    }
}

/// The default bind host.
pub fn default_host() -> (r: String)
    ensures
        r@ == "0.0.0.0"@,
{
    String::from_str("0.0.0.0")
}

/// The default bind port.
pub fn default_port() -> (r: u16)
    ensures
        r == 3030,
{
    3030
}

/// The whole configuration: server address, repositories, index layout.
#[derive(Debug, Clone)]
pub struct Config {
    pub server: ServerConfig,
    pub repos: Vec<Repo>,
    pub index: IndexConfig,
}

/// The directory-name patterns skipped by default: version control, build
/// and dependency outputs, package managers, IDE metadata, temp and logs.
pub open spec fn spec_default_skip_dir_patterns() -> Seq<Seq<char>> {
    seq![
        ".git"@,
        ".hg"@,
        ".svn"@,
        "node_modules"@,
        "target"@,
        "dist"@,
        "build"@,
        "out"@,
        "bin"@,
        "obj"@,
        "vendor"@,
        "bower_components"@,
        "jspm_packages"@,
        "elm-stuff"@,
        ".idea"@,
        ".vscode"@,
        ".eclipse"@,
        ".metadata"@,
        "tmp"@,
        "temp"@,
        "cache"@,
        "log"@,
        "logs"@,
    ]
}

/// The default directory-skip patterns, exactly as
/// `spec_default_skip_dir_patterns` lists them.
pub fn default_skip_dir_patterns() -> (r: Vec<String>)
    ensures
        r.deep_view() == spec_default_skip_dir_patterns(),
{
    let r: Vec<String> = vec![
        String::from_str(".git"),
        String::from_str(".hg"),
        String::from_str(".svn"),
        String::from_str("node_modules"),
        String::from_str("target"),
        String::from_str("dist"),
        String::from_str("build"),
        String::from_str("out"),
        String::from_str("bin"),
        String::from_str("obj"),
        String::from_str("vendor"),
        String::from_str("bower_components"),
        String::from_str("jspm_packages"),
        String::from_str("elm-stuff"),
        String::from_str(".idea"),
        String::from_str(".vscode"),
        String::from_str(".eclipse"),
        String::from_str(".metadata"),
        String::from_str("tmp"),
        String::from_str("temp"),
        String::from_str("cache"),
        String::from_str("log"),
        String::from_str("logs"),
    ];
    proof {
        assert(r.deep_view() =~= spec_default_skip_dir_patterns());
    }
    r
}

/// The file extensions included by default: common source, web, markup,
/// scripting, configuration and database extensions.
pub open spec fn spec_default_include_file_extensions() -> Seq<Seq<char>> {
    seq![
        "c"@,
        "cc"@,
        "cpp"@,
        "cxx"@,
        "h"@,
        "hpp"@,
        "cs"@,
        "go"@,
        "java"@,
        "kt"@,
        "m"@,
        "mm"@,
        "php"@,
        "py"@,
        "rb"@,
        "rs"@,
        "swift"@,
        "html"@,
        "css"@,
        "js"@,
        "ts"@,
        "jsx"@,
        "tsx"@,
        "less"@,
        "sass"@,
        "scss"@,
        "xml"@,
        "json"@,
        "yaml"@,
        "yml"@,
        "md"@,
        "sh"@,
        "bash"@,
        "ps1"@,
        "cfg"@,
        "conf"@,
        "ini"@,
        "toml"@,
        "sql"@,
    ]
}

/// The default allowed file extensions, exactly as
/// `spec_default_include_file_extensions` lists them.
pub fn default_include_file_extensions() -> (r: Vec<String>)
    ensures
        r.deep_view() == spec_default_include_file_extensions(),
{
    let r: Vec<String> = vec![
        String::from_str("c"),
        String::from_str("cc"),
        String::from_str("cpp"),
        String::from_str("cxx"),
        String::from_str("h"),
        String::from_str("hpp"),
        String::from_str("cs"),
        String::from_str("go"),
        String::from_str("java"),
        String::from_str("kt"),
        String::from_str("m"),
        String::from_str("mm"),
        String::from_str("php"),
        String::from_str("py"),
        String::from_str("rb"),
        String::from_str("rs"),
        String::from_str("swift"),
        String::from_str("html"),
        String::from_str("css"),
        String::from_str("js"),
        String::from_str("ts"),
        String::from_str("jsx"),
        String::from_str("tsx"),
        String::from_str("less"),
        String::from_str("sass"),
        String::from_str("scss"),
        String::from_str("xml"),
        String::from_str("json"),
        String::from_str("yaml"),
        String::from_str("yml"),
        String::from_str("md"),
        String::from_str("sh"),
        String::from_str("bash"),
        String::from_str("ps1"),
        String::from_str("cfg"),
        String::from_str("conf"),
        String::from_str("ini"),
        String::from_str("toml"),
        String::from_str("sql"),
    ];
    proof {
        assert(r.deep_view() =~= spec_default_include_file_extensions());
    }
    r
}

/// The only accepted repository type tag.
pub fn validate_repo_type(value: &str) -> (r: bool)
    ensures
        r == (value@ == "fs"@),
{
    str_eq(value, "fs")
}

/// At least one item must be present (used for the repository list).
pub fn validate_at_least_one_item<T>(v: &Vec<T>) -> (r: bool)
    ensures
        r == (v@.len() >= 1),
{
    v.len() >= 1
}

/// The string must be one of the given patterns, by content.
pub fn validate_string_in_patterns(string: &str, patterns: &Vec<String>) -> (r: bool)
    ensures
        r == seq_contains_string(patterns@, string@),
{
    contains_string(patterns, string)
}

/// There is a repository with this name.
pub open spec fn spec_has_repo(repos: Seq<Repo>, name: Seq<char>) -> bool {
    exists|i: int| 0 <= i < repos.len() && repos[i].name@ == name
}

/// `i` is the first index whose repository carries this name.
pub open spec fn spec_repo_at(repos: Seq<Repo>, name: Seq<char>, i: int) -> bool {
    &&& 0 <= i < repos.len()
    &&& repos[i].name@ == name
    &&& forall|j: int| 0 <= j < i ==> repos[j].name@ != name
}

/// Finds the first repository with the given name, as the configuration
/// lookup of the indexing coordinator does.
pub fn find_repo_index(repos: &Vec<Repo>, name: &str) -> (r: Option<usize>)
    ensures
        match r {
            Some(i) => spec_repo_at(repos@, name@, i as int),
            None => !spec_has_repo(repos@, name@),
        },
{
    let mut i: usize = 0;
    while i < repos.len()
        invariant
            i <= repos.len(),
            forall|j: int| 0 <= j < i ==> repos@[j].name@ != name@,
        decreases repos.len() - i,
    {
        if str_eq(repos[i].name.as_str(), name) {
            return Some(i);
        }
        i += 1;
    }
    None
}

} // verus!
