//! Verified path handling for the file-transfer bridge: splitting a remote
//! path into segments, the prefixes to create when making parent directories,
//! trailing-slash trimming, and base-name extraction.
//!
//! Paths here are plain slash-separated strings as the file-transfer protocol
//! carries them; the rules below treat them purely as character sequences.

use vstd::prelude::*;
use crate::strutil::{join_with, lemma_join_step};

verus! {

/// Index of the first '/' in `s`, or `s.len()` if there is none.
pub open spec fn first_slash(s: Seq<char>) -> int
    decreases s.len(),
{
    if s.len() == 0 {
        0
    } else if s[0] == '/' {
        0
    } else {
        1 + first_slash(s.drop_first())
    }
}

pub proof fn lemma_first_slash(s: Seq<char>)
    ensures
        0 <= first_slash(s) <= s.len(),
        forall|j: int| 0 <= j < first_slash(s) ==> s[j] != '/',
        first_slash(s) < s.len() ==> s[first_slash(s)] == '/',
    decreases s.len(),
{
    if s.len() != 0 && s[0] != '/' {
        lemma_first_slash(s.drop_first());
        assert forall|j: int| 0 <= j < first_slash(s) implies s[j] != '/' by {
            if j > 0 {
                assert(s.drop_first()[j - 1] == s[j]);
            }
        }
    }
}

/// A scan that stops at the first '/' finds exactly `first_slash`.
pub proof fn lemma_first_slash_unique(s: Seq<char>, k: int)
    requires
        0 <= k <= s.len(),
        forall|j: int| 0 <= j < k ==> s[j] != '/',
        k < s.len() ==> s[k] == '/',
    ensures
        k == first_slash(s),
{
    lemma_first_slash(s);
    let f = first_slash(s);
    if f < k {
        assert(s[f] == '/');
    }
    if k < f {
        assert(s[k] == '/');
    }
}

/// The non-empty segments of `s` between '/' separators, in order.
pub open spec fn split_segments(s: Seq<char>) -> Seq<Seq<char>>
    decreases s.len(),
    via split_segments_decreases
{
    if s.len() == 0 {
        Seq::empty()
    } else if s[0] == '/' {
        split_segments(s.drop_first())
    } else {
        let k = first_slash(s);
        seq![s.take(k)] + split_segments(s.skip(k))
    }
}

#[via_fn]
proof fn split_segments_decreases(s: Seq<char>) {
    lemma_first_slash(s);
    if s.len() != 0 && s[0] != '/' {
        assert(first_slash(s) >= 1);
    }
}

/// Split a path into its non-empty '/'-separated segments.
pub fn path_segments(s: &str) -> (r: Vec<String>)
    ensures
        r@.map_values(|p: String| p@) == split_segments(s@),
    decreases s@.len(),
{
    let n = s.unicode_len();
    if n == 0 {
        let r: Vec<String> = Vec::new();
        proof {
            assert(r@.map_values(|p: String| p@) =~= split_segments(s@));
        }
        r
    } else if s.get_char(0) == '/' {
        let rest = s.substring_char(1, n);
        proof {
            assert(rest@ =~= s@.drop_first());
        }
        path_segments(rest)
    } else {
        let mut k: usize = 0;
        while k < n && s.get_char(k) != '/'
            invariant
                0 <= k <= n,
                n == s@.len(),
                forall|j: int| 0 <= j < k ==> s@[j] != '/',
            decreases n - k,
        {
            k = k + 1;
        }
        proof {
            lemma_first_slash_unique(s@, k as int);
        }
        let seg = s.substring_char(0, k).to_owned();
        let rest = s.substring_char(k, n);
        let mut tail = path_segments(rest);
        let mut r: Vec<String> = Vec::new();
        r.push(seg);
        r.append(&mut tail);
        proof {
            assert(rest@ =~= s@.skip(k as int));
            assert(seg@ =~= s@.take(k as int));
            assert(r@.map_values(|p: String| p@) =~= split_segments(s@));
        }
        r
    }
}

/// `s` without its trailing '/' characters.
pub open spec fn trim_trailing(s: Seq<char>) -> Seq<char>
    decreases s.len(),
{
    if s.len() == 0 {
        s
    } else if s.last() == '/' {
        trim_trailing(s.drop_last())
    } else {
        s
    }
}

/// Remove every trailing '/' from a path.
pub fn trim_trailing_slashes(s: &str) -> (r: String)
    ensures
        r@ == trim_trailing(s@),
{
    let n = s.unicode_len();
    proof {
        assert(s@.take(n as int) =~= s@);
    }
    let mut end: usize = n;
    while end > 0 && s.get_char(end - 1) == '/'
        invariant
            0 <= end <= n,
            n == s@.len(),
            trim_trailing(s@) == trim_trailing(s@.take(end as int)),
        decreases end,
    {
        proof {
            let t = s@.take(end as int);
            assert(t.last() == '/');
            assert(t.drop_last() =~= s@.take(end - 1));
        }
        end = end - 1;
    }
    proof {
        let t = s@.take(end as int);
        if end > 0 {
            assert(t.last() == s@[end - 1]);
            assert(t.last() != '/');
        }
        assert(trim_trailing(t) == t);
    }
    let r = s.substring_char(0, end).to_owned();
    proof {
        assert(r@ =~= s@.take(end as int));
    }
    r
}

/// The suffix of `s` after its last '/', or all of `s` if it has none.
pub open spec fn after_last_slash(s: Seq<char>) -> Seq<char>
    decreases s.len(),
    via after_last_slash_decreases
{
    let k = first_slash(s);
    if k == s.len() {
        s
    } else {
        after_last_slash(s.skip(k + 1))
    }
}

#[via_fn]
proof fn after_last_slash_decreases(s: Seq<char>) {
    lemma_first_slash(s);
}

/// A split point with no '/' at or after it, and a '/' just before it,
/// marks exactly the suffix `after_last_slash` names.
pub proof fn lemma_after_last_slash_at(s: Seq<char>, k: int)
    requires
        0 <= k <= s.len(),
        forall|j: int| k <= j < s.len() ==> s[j] != '/',
        k > 0 ==> s[k - 1] == '/',
    ensures
        after_last_slash(s) == s.skip(k),
    decreases s.len(),
{
    lemma_first_slash(s);
    let f = first_slash(s);
    if k == 0 {
        if f < s.len() {
            assert(s[f] == '/');
            assert(false);
        }
        assert(s.skip(0) =~= s);
    } else {
        assert(s[k - 1] == '/');
        assert(f <= k - 1);
        let t = s.skip(f + 1);
        lemma_after_last_slash_at(t, k - f - 1);
        assert(t.skip(k - f - 1) =~= s.skip(k));
    }
}

/// A single leading '/' of `s`, if it has one.
pub open spec fn lead_slash(s: Seq<char>) -> Seq<char> {
    if s.len() > 0 && s[0] == '/' {
        seq!['/']
    } else {
        Seq::empty()
    }
}

/// The directory paths to create, shortest first, so that every parent of
/// the last one exists: one prefix per segment of the path, keeping a
/// leading '/' when the path is absolute.
pub fn dir_prefixes(path: &str) -> (r: Vec<String>)
    ensures
        r@.len() == split_segments(path@).len(),
        forall|i: int|
            0 <= i < r@.len() ==> r@[i]@ == lead_slash(path@) + join_with(
                #[trigger] split_segments(path@).take(i + 1),
                seq!['/'],
            ),
{
    let ghost lead = lead_slash(path@);
    let ghost segs = split_segments(path@);
    let parts = path_segments(path);
    let n = path.unicode_len();
    let mut current = String::new();
    if n > 0 && path.get_char(0) == '/' {
        current.append("/");
        proof {
            reveal_strlit("/");
            assert(current@ =~= lead);
        }
    }
    proof {
        assert(current@ =~= lead);
    }
    let mut r: Vec<String> = Vec::new();
    let mut i: usize = 0;
    while i < parts.len()
        invariant
            0 <= i <= parts@.len(),
            segs == split_segments(path@),
            lead == lead_slash(path@),
            parts@.map_values(|p: String| p@) == segs,
            segs.len() == parts@.len(),
            r@.len() == i,
            forall|j: int|
                0 <= j < i ==> r@[j]@ == lead + join_with(
                    #[trigger] segs.take(j + 1),
                    seq!['/'],
                ),
            current@ == if i == 0 {
                lead
            } else {
                lead + join_with(segs.take(i as int), seq!['/']) + seq!['/']
            },
        decreases parts@.len() - i,
    {
        current.append(parts[i].as_str());
        proof {
            assert(parts@[i as int]@ == segs[i as int]);
            if i == 0 {
                assert(segs.take(1) =~= seq![segs[0]]);
                assert(join_with(segs.take(1), seq!['/']) == segs[0]);
                assert(current@ =~= lead + join_with(segs.take(1), seq!['/']));
            } else {
                lemma_join_step(segs, seq!['/'], i as int);
                assert(current@ =~= lead + join_with(segs.take(i + 1), seq!['/']));
            }
        }
        r.push(current.clone());
        current.append("/");
        proof {
            reveal_strlit("/");
            assert("/"@ =~= seq!['/']);
        }
        i = i + 1;
    }
    r
}

/// The base file name of a path: the part after the last '/', with trailing
/// slashes ignored; none when that part is empty, `.` or `..`.
pub open spec fn base_name(s: Seq<char>) -> Option<Seq<char>> {
    let b = after_last_slash(trim_trailing(s));
    if b.len() == 0 || b == seq!['.'] || b == seq!['.', '.'] {
        None
    } else {
        Some(b)
    }
}

/// Extract the base file name of a path, if it has one.
pub fn base_name_of(s: &str) -> (r: Option<String>)
    ensures
        match r {
            Some(b) => base_name(s@) == Some(b@),
            None => base_name(s@) is None,
        },
{
    let t = trim_trailing_slashes(s);
    let n = t.as_str().unicode_len();
    let mut k: usize = n;
    while k > 0 && t.as_str().get_char(k - 1) != '/'
        invariant
            0 <= k <= n,
            n == t@.len(),
            forall|j: int| k <= j < n ==> t@[j] != '/',
        decreases k,
    {
        k = k - 1;
    }
    proof {
        lemma_after_last_slash_at(t@, k as int);
    }
    let b = t.as_str().substring_char(k, n);
    proof {
        assert(b@ =~= t@.skip(k as int));
        reveal_strlit(".");
        reveal_strlit("..");
        assert("."@ =~= seq!['.']);
        assert(".."@ =~= seq!['.', '.']);
    }
    if b.unicode_len() == 0 {
        None
    } else if crate::strutil::str_eq(b, ".") || crate::strutil::str_eq(b, "..") {
        None
    } else {
        Some(b.to_owned())
    }
}

/// Join a file name onto a directory path: the directory without its
/// trailing slashes, one '/', then the name.
pub fn join_under_dir(dir: &str, name: &str) -> (r: String)
    ensures
        r@ == trim_trailing(dir@) + seq!['/'] + name@,
{
    let mut r = trim_trailing_slashes(dir);
    r.append("/");
    r.append(name);
    proof {
        reveal_strlit("/");
        assert("/"@ =~= seq!['/']);
    }
    r
}

/// The parent directory of a path that is worth creating: the part before
/// the last '/' (trailing slashes ignored); none when the path has no '/'
/// or the parent is empty or the bare root.
pub open spec fn parent_to_create(s: Seq<char>) -> Option<Seq<char>> {
    let t = trim_trailing(s);
    let b = after_last_slash(t);
    if b.len() == t.len() {
        None
    } else {
        let p = trim_trailing(t.take(t.len() - b.len()));
        if p.len() == 0 {
            None
        } else {
            Some(p)
        }
    }
}

/// The parent directory to create ahead of writing a remote file, if any.
pub fn parent_dir_to_create(s: &str) -> (r: Option<String>)
    ensures
        match r {
            Some(p) => parent_to_create(s@) == Some(p@),
            None => parent_to_create(s@) is None,
        },
{
    let t = trim_trailing_slashes(s);
    let n = t.as_str().unicode_len();
    let mut k: usize = n;
    while k > 0 && t.as_str().get_char(k - 1) != '/'
        invariant
            0 <= k <= n,
            n == t@.len(),
            forall|j: int| k <= j < n ==> t@[j] != '/',
        decreases k,
    {
        k = k - 1;
    }
    proof {
        lemma_after_last_slash_at(t@, k as int);
        assert(after_last_slash(t@) =~= t@.skip(k as int));
    }
    if k == 0 {
        proof {
            assert(t@.skip(0) =~= t@);
        }
        None
    } else {
        let head = t.as_str().substring_char(0, k);
        proof {
            assert(head@ =~= t@.take(k as int));
            assert(t@.skip(k as int).len() == n - k);
        }
        let p = trim_trailing_slashes(head);
        if p.as_str().unicode_len() == 0 {
            None
        } else {
            Some(p)
        }
    }
}

} // verus!
