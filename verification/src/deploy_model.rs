//! The deployment data model and the path-suggestion rules: execution
//! plans, tasks and history records as plain data, and the verified parts
//! of the path-autocomplete endpoint — how a typed path splits into a
//! directory and a prefix, how one directory entry becomes a suggestion,
//! and the order suggestions are reported in.

use vstd::prelude::*;
use vstd::multiset::Multiset;
use vstd::relations::sorted_by;
use crate::paths::{after_last_slash, trim_trailing};
use crate::strutil::{str_eq, str_starts_with};

verus! {

/// A path-autocomplete request.
#[derive(Debug)]
pub struct PathAutocompleteRequest {
    pub path: String,
}

/// One path suggestion.
#[derive(Debug)]
pub struct PathSuggestion {
    pub path: String,
    pub entry_type: String,
    pub size: Option<u64>,
}

/// A path-autocomplete response.
#[derive(Debug)]
pub struct PathAutocompleteResponse {
    pub suggestions: Vec<PathSuggestion>,
}

/// A stored execution plan.
#[derive(Debug)]
pub struct ExecutionPlan {
    pub id: i64,
    pub name: String,
    pub description: Option<String>,
    pub steps: String,
    pub version: Option<String>,
    pub created_at: String,
    pub updated_at: Option<String>,
}

/// A stored deployment task.
#[derive(Debug)]
pub struct DeploymentTask {
    pub id: i64,
    pub name: String,
    pub description: Option<String>,
    pub plan_id: i64,
    pub plan_name: String,
    pub server_groups: String,
    pub strategy: String,
    pub status: String,
    pub created_at: String,
    pub started_at: Option<String>,
    pub completed_at: Option<String>,
}

/// A stored execution-history record.
#[derive(Debug)]
pub struct ExecutionHistory {
    pub id: i64,
    pub task_id: i64,
    pub task_name: String,
    pub plan_id: i64,
    pub plan_name: String,
    pub status: String,
    pub total_steps: i64,
    pub progress: i64,
    pub start_time: String,
    pub end_time: Option<String>,
    pub duration: Option<i64>,
    pub server_groups: String,
    pub created_at: String,
}

/// One stored execution-log line.
#[derive(Debug)]
pub struct ExecutionLog {
    pub id: i64,
    pub history_id: i64,
    pub timestamp: String,
    pub level: String,
    pub message: String,
    pub server_id: Option<i64>,
    pub server_name: Option<String>,
    pub step_id: Option<String>,
    pub step_name: Option<String>,
}

/// One log line of a history-creation request.
#[derive(Debug)]
pub struct CreateLogRequest {
    pub timestamp: String,
    pub level: String,
    pub message: String,
    pub server_id: Option<i64>,
    pub server_name: Option<String>,
    pub step_id: Option<String>,
    pub step_name: Option<String>,
}

/// A history record together with its log lines.
#[derive(Debug)]
pub struct ExecutionHistoryDetail {
    pub history: ExecutionHistory,
    pub logs: Vec<ExecutionLog>,
}

/// How a typed path splits for completion: a path ending in '/' is all
/// directory with an empty prefix; otherwise everything up to and including
/// the last '/' is the directory and the rest is the prefix; a path with no
/// '/' completes inside the root.
pub open spec fn autocomplete_split(s: Seq<char>) -> (Seq<char>, Seq<char>) {
    if s.len() > 0 && s.last() == '/' {
        (s, Seq::empty())
    } else {
        let b = after_last_slash(s);
        if b.len() == s.len() {
            (seq!['/'], s)
        } else {
            (s.take(s.len() - b.len()), b)
        }
    }
}

/// Split a typed path into the directory to scan and the name prefix to
/// match.
pub fn split_autocomplete_path(target: &str) -> (r: (String, String))
    ensures
        r.0@ == autocomplete_split(target@).0,
        r.1@ == autocomplete_split(target@).1,
{
    let n = target.unicode_len();
    if n > 0 && target.get_char(n - 1) == '/' {
        (target.to_owned(), String::new())
    } else {
        let mut k: usize = n;
        while k > 0 && target.get_char(k - 1) != '/'
            invariant
                0 <= k <= n,
                n == target@.len(),
                forall|j: int| k <= j < n ==> target@[j] != '/',
            decreases k,
        {
            k = k - 1;
        }
        proof {
            crate::paths::lemma_after_last_slash_at(target@, k as int);
            assert(after_last_slash(target@) =~= target@.skip(k as int));
        }
        if k == 0 {
            proof {
                assert(target@.skip(0) =~= target@);
                reveal_strlit("/");
                assert("/"@ =~= seq!['/']);
            }
            (String::from_str("/"), target.to_owned())
        } else {
            let dir = target.substring_char(0, k);
            let pre = target.substring_char(k, n);
            proof {
                assert(dir@ =~= target@.take(k as int));
                assert(pre@ =~= target@.skip(k as int));
                assert(target@.skip(k as int).len() == n - k);
            }
            (dir.to_owned(), pre.to_owned())
        }
    }
}

/// Whether a directory entry matches the typed prefix.
pub fn entry_matches_prefix(file_name: &str, prefix: &str) -> (r: bool)
    ensures
        r == prefix@.is_prefix_of(file_name@),
{
    str_starts_with(file_name, prefix)
}

/// Build the suggestion for one matching directory entry: the directory
/// joined with the entry's name, a trailing '/' and no size for a
/// directory, the reported length for a file.
pub fn path_suggestion(dir: &str, file_name: &str, is_dir: bool, len: Option<u64>) -> (s:
    PathSuggestion)
    ensures
        s.path@ == dir@ + file_name@ + if is_dir {
            seq!['/']
        } else {
            Seq::empty()
        },
        s.entry_type@ == if is_dir {
            "directory"@
        } else {
            "file"@
        },
        s.size == if is_dir {
            None::<u64>
        } else {
            len
        },
{
    let mut path = String::from_str(dir);
    path.append(file_name);
    if is_dir {
        path.append("/");
        proof {
            reveal_strlit("/");
            assert("/"@ =~= seq!['/']);
        }
    }
    PathSuggestion {
        path,
        entry_type: if is_dir {
            String::from_str("directory")
        } else {
            String::from_str("file")
        },
        size: if is_dir {
            None
        } else {
            len
        },
    }
}

/// Character-wise lexicographic order on names.
pub open spec fn lex_le(a: Seq<char>, b: Seq<char>) -> bool
    decreases a.len(),
{
    if a.len() == 0 {
        true
    } else if b.len() == 0 {
        false
    } else if (a[0] as u32) < (b[0] as u32) {
        true
    } else if (a[0] as u32) > (b[0] as u32) {
        false
    } else {
        lex_le(a.drop_first(), b.drop_first())
    }
}

/// The lexicographic order relates every two names, one way or the other.
pub proof fn lemma_lex_le_total(a: Seq<char>, b: Seq<char>)
    ensures
        lex_le(a, b) || lex_le(b, a),
    decreases a.len(),
{
    if a.len() > 0 && b.len() > 0 && (a[0] as u32) == (b[0] as u32) {
        lemma_lex_le_total(a.drop_first(), b.drop_first());
    }
}

/// The lexicographic order chains.
pub proof fn lemma_lex_le_trans(a: Seq<char>, b: Seq<char>, c: Seq<char>)
    requires
        lex_le(a, b),
        lex_le(b, c),
    ensures
        lex_le(a, c),
    decreases a.len(),
{
    if a.len() > 0 && b.len() > 0 && c.len() > 0 && (a[0] as u32) == (b[0] as u32) && (b[0] as u32)
        == (c[0] as u32) {
        lemma_lex_le_trans(a.drop_first(), b.drop_first(), c.drop_first());
    }
}

/// Compare two names lexicographically.
pub fn str_lex_le(a: &str, b: &str) -> (r: bool)
    ensures
        r == lex_le(a@, b@),
    decreases a@.len(),
{
    let na = a.unicode_len();
    let nb = b.unicode_len();
    if na == 0 {
        true
    } else if nb == 0 {
        false
    } else {
        let ca = a.get_char(0);
        let cb = b.get_char(0);
        if (ca as u32) < (cb as u32) {
            true
        } else if (ca as u32) > (cb as u32) {
            false
        } else {
            let ra = a.substring_char(1, na);
            let rb = b.substring_char(1, nb);
            proof {
                assert(ra@ =~= a@.drop_first());
                assert(rb@ =~= b@.drop_first());
            }
            str_lex_le(ra, rb)
        }
    }
}

/// The reporting order of suggestions: directories before files, and the
/// paths lexicographically within each kind.
pub open spec fn suggestion_le(a: PathSuggestion, b: PathSuggestion) -> bool {
    let ad = a.entry_type@ == "directory"@;
    let bd = b.entry_type@ == "directory"@;
    if ad && !bd {
        true
    } else if !ad && bd {
        false
    } else {
        lex_le(a.path@, b.path@)
    }
}

/// The reporting order relates every two suggestions.
pub proof fn lemma_suggestion_le_total(a: PathSuggestion, b: PathSuggestion)
    ensures
        suggestion_le(a, b) || suggestion_le(b, a),
{
    lemma_lex_le_total(a.path@, b.path@);
}

/// The reporting order chains.
pub proof fn lemma_suggestion_le_trans(a: PathSuggestion, b: PathSuggestion, c: PathSuggestion)
    requires
        suggestion_le(a, b),
        suggestion_le(b, c),
    ensures
        suggestion_le(a, c),
{
    let ad = a.entry_type@ == "directory"@;
    let bd = b.entry_type@ == "directory"@;
    let cd = c.entry_type@ == "directory"@;
    if ad == bd && bd == cd {
        lemma_lex_le_trans(a.path@, b.path@, c.path@);
    }
}

/// Decide the reporting order of two suggestions.
pub fn suggestion_precedes(a: &PathSuggestion, b: &PathSuggestion) -> (r: bool)
    ensures
        r == suggestion_le(*a, *b),
{
    let ad = str_eq(a.entry_type.as_str(), "directory");
    let bd = str_eq(b.entry_type.as_str(), "directory");
    if ad && !bd {
        true
    } else if !ad && bd {
        false
    } else {
        str_lex_le(a.path.as_str(), b.path.as_str())
    }
}

/// Sort suggestions into their reporting order: directories before files,
/// each kind by path; the result is a reordering of the input and nothing
/// else.
pub fn sort_suggestions(v: Vec<PathSuggestion>) -> (r: Vec<PathSuggestion>)
    ensures
        r@.to_multiset() == v@.to_multiset(),
        sorted_by(r@, |x: PathSuggestion, y: PathSuggestion| suggestion_le(x, y)),
{
    broadcast use vstd::seq_lib::to_multiset_insert;
    broadcast use vstd::seq_lib::to_multiset_remove;
    broadcast use vstd::multiset::group_multiset_axioms;

    let ghost leq = |x: PathSuggestion, y: PathSuggestion| suggestion_le(x, y);
    let mut input = v;
    let mut out: Vec<PathSuggestion> = Vec::new();
    proof {
        out@.to_multiset_ensures();
        assert(out@.to_multiset().add(input@.to_multiset()) =~= v@.to_multiset());
    }
    while input.len() > 0
        invariant
            out@.to_multiset().add(input@.to_multiset()) == v@.to_multiset(),
            sorted_by(out@, leq),
            leq == (|x: PathSuggestion, y: PathSuggestion| suggestion_le(x, y)),
        decreases input@.len(),
    {
        let ghost old_out = out@;
        let ghost old_input = input@;
        let x = input.remove(0);
        let mut j: usize = 0;
        while j < out.len() && suggestion_precedes(&out[j], &x)
            invariant
                0 <= j <= out@.len(),
                out@ == old_out,
                forall|k: int| 0 <= k < j ==> suggestion_le(#[trigger] out@[k], x),
            decreases out@.len() - j,
        {
            j = j + 1;
        }
        proof {
            if (j as int) < old_out.len() {
                lemma_suggestion_le_total(old_out[j as int], x);
                assert(suggestion_le(x, old_out[j as int]));
            }
        }
        out.insert(j, x);
        proof {
            let jj = j as int;
            assert forall|p: int, q: int| 0 <= p < q < out@.len() implies #[trigger] leq(
                out@[p],
                out@[q],
            ) by {
                if q < jj {
                    assert(leq(old_out[p], old_out[q]));
                } else if p < jj && q == jj {
                    assert(suggestion_le(old_out[p], x));
                } else if p < jj && q > jj {
                    assert(leq(old_out[p], old_out[q - 1]));
                } else if p == jj {
                    if q == jj + 1 {
                        assert(suggestion_le(x, old_out[jj]));
                    } else {
                        assert(leq(old_out[jj], old_out[q - 1]));
                        lemma_suggestion_le_trans(x, old_out[jj], old_out[q - 1]);
                    }
                } else {
                    assert(leq(old_out[p - 1], old_out[q - 1]));
                }
            }
            assert(input@ =~= old_input.remove(0));
            vstd::seq_lib::to_multiset_remove(old_input, 0);
            assert(input@.to_multiset() == old_input.to_multiset().remove(old_input[0]));
            assert(out@ == old_out.insert(jj, x));
            vstd::seq_lib::to_multiset_insert(old_out, jj, x);
            assert(out@.to_multiset() == old_out.to_multiset().insert(x));
            old_input.to_multiset_ensures();
            assert(old_input.contains(old_input[0]));
            assert(old_input.to_multiset().count(x) > 0);
            assert(out@.to_multiset().add(input@.to_multiset()) =~= old_out.to_multiset().add(
                old_input.to_multiset(),
            ));
        }
    }
    proof {
        input@.to_multiset_ensures();
        assert(input@.to_multiset() =~= Multiset::<PathSuggestion>::empty());
        assert(out@.to_multiset().add(Multiset::<PathSuggestion>::empty()) =~= out@.to_multiset());
    }
    out
}

/// At most this many suggestions are reported.
pub const SUGGESTION_LIMIT: usize = 20;

/// Cut a sorted suggestion list down to the reporting limit.
pub fn limit_suggestions(v: &mut Vec<PathSuggestion>)
    ensures
        final(v)@ == if old(v)@.len() <= SUGGESTION_LIMIT {
            old(v)@
        } else {
            old(v)@.take(SUGGESTION_LIMIT as int)
        },
{
    if v.len() > SUGGESTION_LIMIT {
        v.truncate(SUGGESTION_LIMIT);
        proof {
            assert(v@ =~= old(v)@.take(SUGGESTION_LIMIT as int));
        }
    }
}

} // verus!
