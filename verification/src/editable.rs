//! The "content editable" rule of directory listings: a file can be opened
//! in the inline editor when it is small enough and its (case-insensitive)
//! name looks text-like, either as a whole or by its extension.

use vstd::prelude::*;
use crate::strutil::str_eq;

verus! {

/// Largest file size, in bytes, accepted for inline reading and editing.
pub const INLINE_EDIT_CEILING: u64 = 2 * 1024 * 1024;

/// What `str::to_lowercase` returns for a string with these characters.
pub uninterp spec fn lower_of(s: Seq<char>) -> Seq<char>;

/// Relies on str::to_lowercase: the result depends on the characters alone.
#[verifier::external_body]
fn lowercase(s: &str) -> (r: String)
    ensures
        r@ == lower_of(s@),
{
    s.to_lowercase()
}

/// The extension of a bare file name: the part after the last '.', provided
/// that dot is not the leading character; none otherwise.
pub open spec fn extension_of(s: Seq<char>) -> Option<Seq<char>>
    decreases s.len(),
{
    if s.len() <= 1 {
        None
    } else if s.last() == '.' {
        Some(Seq::empty())
    } else {
        match extension_of(s.drop_last()) {
            Some(e) => Some(e.push(s.last())),
            None => None,
        }
    }
}

proof fn lemma_extension_at(s: Seq<char>, k: int)
    requires
        2 <= k <= s.len(),
        s[k - 1] == '.',
        forall|j: int| k <= j < s.len() ==> s[j] != '.',
    ensures
        extension_of(s) == Some(s.skip(k)),
    decreases s.len(),
{
    if k == s.len() {
        assert(s.last() == '.');
        assert(s.skip(k) =~= Seq::<char>::empty());
    } else {
        assert(s.last() != '.');
        let t = s.drop_last();
        lemma_extension_at(t, k);
        assert(t.skip(k).push(s.last()) =~= s.skip(k));
    }
}

proof fn lemma_extension_none(s: Seq<char>)
    requires
        forall|j: int| 1 <= j < s.len() ==> s[j] != '.',
    ensures
        extension_of(s) is None,
    decreases s.len(),
{
    if s.len() > 1 {
        assert(s.last() != '.');
        lemma_extension_none(s.drop_last());
    }
}

/// Extract the extension of a bare file name, if it has one.
pub fn extension_str(s: &str) -> (r: Option<&str>)
    ensures
        match r {
            Some(e) => extension_of(s@) == Some(e@),
            None => extension_of(s@) is None,
        },
{
    let n = s.unicode_len();
    let mut k: usize = n;
    while k > 0 && s.get_char(k - 1) != '.'
        invariant
            0 <= k <= n,
            n == s@.len(),
            forall|j: int| k <= j < n ==> s@[j] != '.',
        decreases k,
    {
        k = k - 1;
    }
    if k <= 1 {
        proof {
            lemma_extension_none(s@);
        }
        None
    } else {
        proof {
            lemma_extension_at(s@, k as int);
        }
        let e = s.substring_char(k, n);
        proof {
            assert(e@ =~= s@.skip(k as int));
        }
        Some(e)
    }
}

/// The file names that are edited as a whole, without an extension.
pub open spec fn is_bare_editable(s: Seq<char>) -> bool {
    ||| s == "dockerfile"@
    ||| s == "makefile"@
    ||| s == "procfile"@
    ||| s == "caddyfile"@
}

/// The extensions treated as text.
pub open spec fn is_text_extension(e: Seq<char>) -> bool {
    ||| e == "txt"@
    ||| e == "md"@
    ||| e == "json"@
    ||| e == "js"@
    ||| e == "ts"@
    ||| e == "jsx"@
    ||| e == "tsx"@
    ||| e == "html"@
    ||| e == "css"@
    ||| e == "scss"@
    ||| e == "py"@
    ||| e == "sh"@
    ||| e == "yml"@
    ||| e == "yaml"@
    ||| e == "xml"@
    ||| e == "rs"@
    ||| e == "go"@
    ||| e == "java"@
    ||| e == "c"@
    ||| e == "cpp"@
    ||| e == "sql"@
    ||| e == "env"@
    ||| e == "conf"@
    ||| e == "ini"@
    ||| e == "log"@
    ||| e == "list"@
    ||| e == "local"@
    ||| e == "dockerfile"@
    ||| e == "makefile"@
    ||| e == "gitignore"@
    ||| e == "prettierrc"@
    ||| e == "eslintrc"@
    ||| e == "babelrc"@
    ||| e == "toml"@
    ||| e == "php"@
    ||| e == "rb"@
    ||| e == "lua"@
    ||| e == "swift"@
    ||| e == "kt"@
    ||| e == "kts"@
    ||| e == "dart"@
    ||| e == "scala"@
    ||| e == "pl"@
    ||| e == "r"@
    ||| e == "cs"@
    ||| e == "m"@
    ||| e == "mm"@
    ||| e == "hs"@
    ||| e == "clj"@
    ||| e == "ex"@
    ||| e == "exs"@
    ||| e == "erl"@
    ||| e == "fs"@
}

/// Whether a lower-cased bare file name looks text-like.
pub open spec fn editable_name(lowered: Seq<char>) -> bool {
    ||| is_bare_editable(lowered)
    ||| match extension_of(lowered) {
        Some(e) => is_text_extension(e),
        None => false,
    }
}

/// The content-editable rule over the lower-cased name and the size.
pub open spec fn editable_spec(lowered: Seq<char>, size: u64) -> bool {
    size <= INLINE_EDIT_CEILING && editable_name(lowered)
}

fn is_text_extension_str(e: &str) -> (r: bool)
    ensures
        r == is_text_extension(e@),
{
    str_eq(e, "txt") || str_eq(e, "md") || str_eq(e, "json") || str_eq(e, "js") || str_eq(
        e,
        "ts",
    ) || str_eq(e, "jsx") || str_eq(e, "tsx") || str_eq(e, "html") || str_eq(e, "css") || str_eq(
        e,
        "scss",
    ) || str_eq(e, "py") || str_eq(e, "sh") || str_eq(e, "yml") || str_eq(e, "yaml") || str_eq(
        e,
        "xml",
    ) || str_eq(e, "rs") || str_eq(e, "go") || str_eq(e, "java") || str_eq(e, "c") || str_eq(
        e,
        "cpp",
    ) || str_eq(e, "sql") || str_eq(e, "env") || str_eq(e, "conf") || str_eq(e, "ini") || str_eq(
        e,
        "log",
    ) || str_eq(e, "list") || str_eq(e, "local") || str_eq(e, "dockerfile") || str_eq(
        e,
        "makefile",
    ) || str_eq(e, "gitignore") || str_eq(e, "prettierrc") || str_eq(e, "eslintrc") || str_eq(
        e,
        "babelrc",
    ) || str_eq(e, "toml") || str_eq(e, "php") || str_eq(e, "rb") || str_eq(e, "lua") || str_eq(
        e,
        "swift",
    ) || str_eq(e, "kt") || str_eq(e, "kts") || str_eq(e, "dart") || str_eq(e, "scala") || str_eq(
        e,
        "pl",
    ) || str_eq(e, "r") || str_eq(e, "cs") || str_eq(e, "m") || str_eq(e, "mm") || str_eq(
        e,
        "hs",
    ) || str_eq(e, "clj") || str_eq(e, "ex") || str_eq(e, "exs") || str_eq(e, "erl") || str_eq(
        e,
        "fs",
    )
}

/// The content-editable rule applied to an already lower-cased name.
pub fn editable_lowered(lowered: &str, size: u64) -> (r: bool)
    ensures
        r == editable_spec(lowered@, size),
{
    if size > INLINE_EDIT_CEILING {
        return false;
    }
    if str_eq(lowered, "dockerfile") || str_eq(lowered, "makefile") || str_eq(lowered, "procfile")
        || str_eq(lowered, "caddyfile") {
        return true;
    }
    match extension_str(lowered) {
        Some(e) => is_text_extension_str(e),
        None => false,
    }
}

/// Whether a directory entry can be opened in the inline editor: its size is
/// at or below the ceiling and its lower-cased name is a known text-like
/// name or carries a known text extension.
pub fn is_content_editable(name: &str, size: u64) -> (r: bool)
    ensures
        r == editable_spec(lower_of(name@), size),
{
    let low = lowercase(name);
    editable_lowered(low.as_str(), size)
}

} // verus!
