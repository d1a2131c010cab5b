//! The extended field-name vocabulary of the text index: the document
//! fields plus the modification-time and language fields, with the mapping
//! between variants and stored names in both directions.

use vstd::prelude::*;

verus! {

/// The fields of the extended text-index schema.
#[derive(Debug, Clone, Copy, PartialEq, Eq, Structural)]
pub enum SimpleTextIndexFieldNames {
    RepoName,
    RepoPath,
    RepoType,
    FileName,
    FilePath,
    FileExt,
    FileSize,
    FileLastUpdated,
    FileLanguage,
    FileContent,
}

/// The stored name of each field.
pub open spec fn spec_stif_name(f: SimpleTextIndexFieldNames) -> Seq<char> {
    match f {
        SimpleTextIndexFieldNames::RepoName => "repo_name"@,
        SimpleTextIndexFieldNames::RepoPath => "repo_path"@,
        SimpleTextIndexFieldNames::RepoType => "repo_type"@,
        SimpleTextIndexFieldNames::FileName => "file_name"@,
        SimpleTextIndexFieldNames::FilePath => "file_path"@,
        SimpleTextIndexFieldNames::FileExt => "file_ext"@,
        SimpleTextIndexFieldNames::FileSize => "file_size"@,
        SimpleTextIndexFieldNames::FileLastUpdated => "file_last_updated"@,
        SimpleTextIndexFieldNames::FileLanguage => "file_language"@,
        SimpleTextIndexFieldNames::FileContent => "file_content"@,
    }
}

/// The field a stored name denotes, if any; the inverse of
/// `spec_stif_name`.
pub open spec fn spec_stif_from_name(s: Seq<char>) -> Option<SimpleTextIndexFieldNames> {
    if s == "repo_name"@ {
        Some(SimpleTextIndexFieldNames::RepoName)
    } else if s == "repo_path"@ {
        Some(SimpleTextIndexFieldNames::RepoPath)
    } else if s == "repo_type"@ {
        Some(SimpleTextIndexFieldNames::RepoType)
    } else if s == "file_name"@ {
        Some(SimpleTextIndexFieldNames::FileName)
    } else if s == "file_path"@ {
        Some(SimpleTextIndexFieldNames::FilePath)
    } else if s == "file_ext"@ {
        Some(SimpleTextIndexFieldNames::FileExt)
    } else if s == "file_size"@ {
        Some(SimpleTextIndexFieldNames::FileSize)
    } else if s == "file_last_updated"@ {
        Some(SimpleTextIndexFieldNames::FileLastUpdated)
    } else if s == "file_language"@ {
        Some(SimpleTextIndexFieldNames::FileLanguage)
    } else if s == "file_content"@ {
        Some(SimpleTextIndexFieldNames::FileContent)
    } else {
        None
    }
}

impl SimpleTextIndexFieldNames {
    /// The stored name of the field.
    pub fn get_name(&self) -> (r: &'static str)
        ensures
            r@ == spec_stif_name(*self),
    {
        match self {
            SimpleTextIndexFieldNames::RepoName => "repo_name",
            SimpleTextIndexFieldNames::RepoPath => "repo_path",
            SimpleTextIndexFieldNames::RepoType => "repo_type",
            SimpleTextIndexFieldNames::FileName => "file_name",
            SimpleTextIndexFieldNames::FilePath => "file_path",
            SimpleTextIndexFieldNames::FileExt => "file_ext",
            SimpleTextIndexFieldNames::FileSize => "file_size",
            SimpleTextIndexFieldNames::FileLastUpdated => "file_last_updated",
            SimpleTextIndexFieldNames::FileLanguage => "file_language",
            SimpleTextIndexFieldNames::FileContent => "file_content",
        }
    }

    /// The field a stored name denotes, exactly as `spec_stif_from_name`
    /// defines it.
    pub fn from_name(name: &str) -> (r: Option<SimpleTextIndexFieldNames>)
        ensures
            r == spec_stif_from_name(name@),
    {
        if crate::strutil::str_eq(name, "repo_name") {
            Some(SimpleTextIndexFieldNames::RepoName)
        } else if crate::strutil::str_eq(name, "repo_path") {
            Some(SimpleTextIndexFieldNames::RepoPath)
        } else if crate::strutil::str_eq(name, "repo_type") {
            Some(SimpleTextIndexFieldNames::RepoType)
        } else if crate::strutil::str_eq(name, "file_name") {
            Some(SimpleTextIndexFieldNames::FileName)
        } else if crate::strutil::str_eq(name, "file_path") {
            Some(SimpleTextIndexFieldNames::FilePath)
        } else if crate::strutil::str_eq(name, "file_ext") {
            Some(SimpleTextIndexFieldNames::FileExt)
        } else if crate::strutil::str_eq(name, "file_size") {
            Some(SimpleTextIndexFieldNames::FileSize)
        } else if crate::strutil::str_eq(name, "file_last_updated") {
            Some(SimpleTextIndexFieldNames::FileLastUpdated)
        } else if crate::strutil::str_eq(name, "file_language") {
            Some(SimpleTextIndexFieldNames::FileLanguage)
        } else if crate::strutil::str_eq(name, "file_content") {
            Some(SimpleTextIndexFieldNames::FileContent)
        } else {
            None
        }
    }
}

/// Round trip: looking a field's stored name back up finds that field.
pub proof fn lemma_stif_name_roundtrip(f: SimpleTextIndexFieldNames)
    ensures
        spec_stif_from_name(spec_stif_name(f)) == Some(f),
{
    reveal_strlit("repo_name");
    reveal_strlit("repo_path");
    reveal_strlit("repo_type");
    reveal_strlit("file_name");
    reveal_strlit("file_path");
    reveal_strlit("file_ext");
    reveal_strlit("file_size");
    reveal_strlit("file_last_updated");
    reveal_strlit("file_language");
    reveal_strlit("file_content");
    assert("repo_name"@[0] == 'r' && "repo_name"@[5] == 'n');
    assert("repo_path"@[0] == 'r' && "repo_path"@[5] == 'p');
    assert("repo_type"@[0] == 'r' && "repo_type"@[5] == 't');
    assert("file_name"@[0] == 'f' && "file_name"@[5] == 'n');
    assert("file_path"@[0] == 'f' && "file_path"@[5] == 'p');
    assert("file_ext"@[0] == 'f' && "file_ext"@[5] == 'e');
    assert("file_size"@[0] == 'f' && "file_size"@[5] == 's');
    assert("file_content"@.len() == 12 && "file_content"@[5] == 'c');
    assert("file_last_updated"@.len() == 17);
    assert("file_language"@.len() == 13);
}

} // verus!
