//! Verified string utilities: substring and prefix tests, path-relative
//! computation, file-name extension extraction, and path joining. These are
//! the policies the directory scanner and the document builder are made of.

use vstd::prelude::*;

verus! {

/// The needle occurs in the haystack starting exactly at position `i`.
pub open spec fn is_substring_at(hay: Seq<char>, needle: Seq<char>, i: int) -> bool {
    0 <= i && i + needle.len() <= hay.len() && hay.subrange(i, i + needle.len()) == needle
}

/// The needle occurs somewhere in the haystack.
pub open spec fn is_substring(hay: Seq<char>, needle: Seq<char>) -> bool {
    exists|i: int| is_substring_at(hay, needle, i)
}

/// `p` is a prefix of `s`.
pub open spec fn is_prefix(p: Seq<char>, s: Seq<char>) -> bool {
    p.len() <= s.len() && s.subrange(0, p.len() as int) == p
}

/// Copies a string, keeping its view.
pub fn copy_string(s: &String) -> (r: String)
    ensures
        r@ == s@,
{
    String::from_str(s.as_str())
}

/// Character-for-character string equality.
pub fn str_eq(a: &str, b: &str) -> (r: bool)
    ensures
        r == (a@ == b@),
{
    let n = a.unicode_len();
    let m = b.unicode_len();
    if n != m {
        return false;
    }
    let mut i: usize = 0;
    while i < n
        invariant
            i <= n,
            n == a@.len(),
            n == b@.len(),
            forall|k: int| 0 <= k < i ==> a@[k] == b@[k],
        decreases n - i,
    {
        if a.get_char(i) != b.get_char(i) {
            return false;
        }
        i += 1;
    }
    proof {
        assert(a@ =~= b@);
    }
    true
}

/// Whether the needle occurs in the haystack exactly at position `i`.
fn match_at(hay: &str, needle: &str, i: usize) -> (r: bool)
    requires
        i + needle@.len() <= hay@.len(),
    ensures
        r == is_substring_at(hay@, needle@, i as int),
{
    let n = hay.unicode_len();
    let m = needle.unicode_len();
    let mut j: usize = 0;
    while j < m
        invariant
            j <= m,
            m == needle@.len(),
            n == hay@.len(),
            i + m <= n,
            forall|k: int| 0 <= k < j ==> hay@[i + k] == needle@[k],
        decreases m - j,
    {
        if hay.get_char(i + j) != needle.get_char(j) {
            proof {
                assert(hay@.subrange(i as int, i + m) != needle@) by {
                    if hay@.subrange(i as int, i + m) == needle@ {
                        assert(hay@.subrange(i as int, i + m)[j as int] == needle@[j as int]);
                    }
                }
            }
            return false;
        }
        j += 1;
    }
    proof {
        assert(hay@.subrange(i as int, i + m) =~= needle@);
    }
    true
}

/// Substring search; quadratic, which is fine for path-sized inputs.
pub fn str_contains(hay: &str, needle: &str) -> (r: bool)
    ensures
        r == is_substring(hay@, needle@),
{
    let n = hay.unicode_len();
    let m = needle.unicode_len();
    if m > n {
        return false;
    }
    if m == 0 {
        proof {
            assert(hay@.subrange(0, 0) =~= needle@);
            assert(is_substring_at(hay@, needle@, 0));
        }
        return true;
    }
    let mut i: usize = 0;
    while i <= n - m
        invariant
            1 <= m <= n,
            n == hay@.len(),
            m == needle@.len(),
            i <= n - m + 1,
            forall|j: int| 0 <= j < i ==> !is_substring_at(hay@, needle@, j),
        decreases n - m + 1 - i,
    {
        if match_at(hay, needle, i) {
            return true;
        }
        i += 1;
    }
    false
}

/// `p` occurs at the very start of `s`.
pub fn str_starts_with(s: &str, p: &str) -> (r: bool)
    ensures
        r == is_prefix(p@, s@),
{
    let n = s.unicode_len();
    let m = p.unicode_len();
    if m <= n {
        match_at(s, p, 0)
    } else {
        false
    }
}

/// The index of the last `.` strictly below `i`, or `-1` if there is none.
pub open spec fn last_dot_from(s: Seq<char>, i: int) -> int
    decreases i,
{
    if i <= 0 {
        -1
    } else if s[i - 1] == '.' {
        i - 1
    } else {
        last_dot_from(s, i - 1)
    }
}

/// The extension of a file name: the characters after the last dot, provided
/// that dot is not the leading character (so dotfiles have no extension).
pub open spec fn spec_extension_of(name: Seq<char>) -> Option<Seq<char>> {
    let d = last_dot_from(name, name.len() as int);
    if d >= 1 {
        Some(name.subrange(d + 1, name.len() as int))
    } else {
        None
    }
}

/// Extracts the extension of a file name, as `spec_extension_of` defines it.
pub fn extension_of(name: &str) -> (r: Option<String>)
    ensures
        match r {
            Some(e) => spec_extension_of(name@) == Some(e@),
            None => spec_extension_of(name@) is None,
        },
{
    let n = name.unicode_len();
    let mut i: usize = n;
    while i > 0
        invariant
            i <= n,
            n == name@.len(),
            last_dot_from(name@, n as int) == last_dot_from(name@, i as int),
        decreases i,
    {
        if name.get_char(i - 1) == '.' {
            if i - 1 >= 1 {
                let e = name.substring_char(i, n);
                return Some(String::from_str(e));
            } else {
                return None;
            }
        }
        i -= 1;
    }
    None
}

/// The first position at or after `i` holding no `/`.
pub open spec fn spec_skip_slashes(s: Seq<char>, i: int) -> int
    decreases s.len() - i,
{
    if i < s.len() && s[i] == '/' {
        spec_skip_slashes(s, i + 1)
    } else {
        i
    }
}

/// A path made relative to a root: the root prefix and the separators after
/// it are dropped; a path not under the root is left as it is.
pub open spec fn spec_relative_path(path: Seq<char>, root: Seq<char>) -> Seq<char> {
    if is_prefix(root, path) {
        path.subrange(spec_skip_slashes(path, root.len() as int), path.len() as int)
    } else {
        path
    }
}

/// Strips the repository root (and the separators that follow it) from an
/// entry path, as `spec_relative_path` defines it.
pub fn relative_path(path: &str, root: &str) -> (r: String)
    ensures
        r@ == spec_relative_path(path@, root@),
{
    let n = path.unicode_len();
    let rl = root.unicode_len();
    if str_starts_with(path, root) {
        let mut i: usize = rl;
        while i < n && path.get_char(i) == '/'
            invariant
                rl <= i <= n,
                n == path@.len(),
                spec_skip_slashes(path@, rl as int) == spec_skip_slashes(path@, i as int),
            decreases n - i,
        {
            i += 1;
        }
        let sub = path.substring_char(i, n);
        String::from_str(sub)
    } else {
        String::from_str(path)
    }
}

/// A root and a name joined with `/`, unless the root already ends in one.
pub open spec fn spec_join_path(a: Seq<char>, b: Seq<char>) -> Seq<char> {
    if a.len() > 0 && a[a.len() - 1] == '/' {
        a + b
    } else {
        a + seq!['/'] + b
    }
}

/// Joins a directory and a name with `/`, as `spec_join_path` defines it.
pub fn join_path(a: &str, b: &str) -> (r: String)
    ensures
        r@ == spec_join_path(a@, b@),
{
    let n = a.unicode_len();
    let mut r = String::from_str(a);
    if n == 0 || a.get_char(n - 1) != '/' {
        r.append("/");
        proof {
            reveal_strlit("/");
            assert(r@ =~= a@ + seq!['/']);
        }
    }
    r.append(b);
    proof {
        assert(r@ =~= spec_join_path(a@, b@));
    }
    r
}

/// Some string of the vector reads exactly `s`.
pub open spec fn seq_contains_string(v: Seq<String>, s: Seq<char>) -> bool {
    exists|i: int| 0 <= i < v.len() && v[i]@ == s
}

/// Membership of `s` in a vector of strings, by content.
pub fn contains_string(v: &Vec<String>, s: &str) -> (r: bool)
    ensures
        r == seq_contains_string(v@, s@),
{
    let mut i: usize = 0;
    while i < v.len()
        invariant
            i <= v.len(),
            forall|k: int| 0 <= k < i ==> v@[k]@ != s@,
        decreases v.len() - i,
    {
        if str_eq(v[i].as_str(), s) {
            return true;
        }
        i += 1;
    }
    false
}

/// Some pattern of the list occurs in the path as a substring.
pub open spec fn skip_matched(path: Seq<char>, patterns: Seq<String>) -> bool {
    exists|i: int| 0 <= i < patterns.len() && is_substring(path, patterns[i]@)
}

/// Whether any skip pattern occurs in the path; the directory scanner prunes
/// on this test.
pub fn matches_any_pattern(path: &str, patterns: &Vec<String>) -> (r: bool)
    ensures
        r == skip_matched(path@, patterns@),
{
    let mut i: usize = 0;
    while i < patterns.len()
        invariant
            i <= patterns.len(),
            forall|k: int| 0 <= k < i ==> !is_substring(path@, patterns@[k]@),
        decreases patterns.len() - i,
    {
        if str_contains(path, patterns[i].as_str()) {
            return true;
        }
        i += 1;
    }
    false
}

} // verus!
