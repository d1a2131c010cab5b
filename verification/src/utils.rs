//! Small helpers around file names: mapping an extension to the language
//! tag stored with a document.

use vstd::prelude::*;
use crate::strutil::{spec_extension_of, extension_of, str_eq};

verus! {

/// The language tag of a file extension; an unknown extension is its own
/// tag.
pub open spec fn spec_language_of(ext: Seq<char>) -> Seq<char> {
    if ext == "java"@ {
        "java"@
    } else if ext == "kt"@ {
        "kotlin"@
    } else if ext == "rs"@ {
        "rust"@
    } else if ext == "go"@ {
        "go"@
    } else if ext == "py"@ {
        "python"@
    } else if ext == "js"@ {
        "javascript"@
    } else if ext == "ts"@ {
        "typescript"@
    } else if ext == "html"@ {
        "html"@
    } else if ext == "css"@ {
        "css"@
    } else if ext == "json"@ {
        "json"@
    } else if ext == "xml"@ {
        "xml"@
    } else if ext == "yaml"@ {
        "yaml"@
    } else if ext == "yml"@ {
        "yaml"@
    } else if ext == "toml"@ {
        "toml"@
    } else if ext == "md"@ {
        "markdown"@
    } else if ext == "sh"@ {
        "shell"@
    } else if ext == "bat"@ {
        "batch"@
    } else if ext == "ps1"@ {
        "powershell"@
    } else if ext == "c"@ {
        "c"@
    } else if ext == "h"@ {
        "c"@
    } else if ext == "cpp"@ {
        "cpp"@
    } else if ext == "hpp"@ {
        "cpp.h"@
    } else {
        ext
    }
}

/// The language of a file, from its name's extension: `None` where the
/// name has no extension, else the extension's language tag.
pub fn get_language(file_name: &str) -> (r: Option<String>)
    ensures
        match r {
            Some(l) => spec_extension_of(file_name@) matches Some(x) && l@ == spec_language_of(
                x,
            ),
            None => spec_extension_of(file_name@) is None,
        },
{
    let ext = match extension_of(file_name) {
        Some(x) => x,
        None => {
            return None;
        },
    };
    let e = ext.as_str();
    let l: String = if str_eq(e, "java") {
        String::from_str("java")
    } else if str_eq(e, "kt") {
        String::from_str("kotlin")
    } else if str_eq(e, "rs") {
        String::from_str("rust")
    } else if str_eq(e, "go") {
        String::from_str("go")
    } else if str_eq(e, "py") {
        String::from_str("python")
    } else if str_eq(e, "js") {
        String::from_str("javascript")
    } else if str_eq(e, "ts") {
        String::from_str("typescript")
    } else if str_eq(e, "html") {
        String::from_str("html")
    } else if str_eq(e, "css") {
        String::from_str("css")
    } else if str_eq(e, "json") {
        String::from_str("json")
    } else if str_eq(e, "xml") {
        String::from_str("xml")
    } else if str_eq(e, "yaml") {
        String::from_str("yaml")
    } else if str_eq(e, "yml") {
        String::from_str("yaml")
    } else if str_eq(e, "toml") {
        String::from_str("toml")
    } else if str_eq(e, "md") {
        String::from_str("markdown")
    } else if str_eq(e, "sh") {
        String::from_str("shell")
    } else if str_eq(e, "bat") {
        String::from_str("batch")
    } else if str_eq(e, "ps1") {
        String::from_str("powershell")
    } else if str_eq(e, "c") {
        String::from_str("c")
    } else if str_eq(e, "h") {
        String::from_str("c")
    } else if str_eq(e, "cpp") {
        String::from_str("cpp")
    } else if str_eq(e, "hpp") {
        String::from_str("cpp.h")
    } else {
        ext
    };
    Some(l)
}

} // verus!
