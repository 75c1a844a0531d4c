//! The version-control facts that the pipeline decides on: where a feature's
//! worktree stands, what its branch is called, and how a commit ended.
use vstd::prelude::*;

use crate::config::{joined, join_path, GitConfig};
use crate::text::{chars_of, contains, contains_in, index_of, find_char, starts_with, has_prefix};

verus! {

/// `s` with every occurrence of `p` replaced by `r`, scanning from the left.
pub open spec fn replaced(s: Seq<char>, p: Seq<char>, r: Seq<char>) -> Seq<char>
    decreases s.len(),
{
    if s.len() == 0 || p.len() == 0 {
        s
    } else if starts_with(s, p) {
        r + replaced(s.subrange(p.len() as int, s.len() as int), p, r)
    } else {
        seq![s[0]] + replaced(s.drop_first(), p, r)
    }
}

/// Replaces every occurrence of the non-empty `p` in `s` by `r`.
pub fn replace_all(s: &str, p: &str, r: &str) -> (out: String)
    requires
        p@.len() > 0,
    ensures
        out@ == replaced(s@, p@, r@),
{
    let chars = chars_of(s);
    let n = chars.len();
    let plen = p.unicode_len();
    let mut out = String::new();
    let mut i: usize = 0;
    assert(chars@.subrange(0, n as int) =~= s@);
    assert(out@ + replaced(s@, p@, r@) =~= replaced(s@, p@, r@));
    while i < n
        invariant
            chars@ == s@,
            n == chars@.len(),
            plen == p@.len(),
            plen > 0,
            i <= n,
            out@ + replaced(chars@.subrange(i as int, n as int), p@, r@) == replaced(s@, p@, r@),
        decreases n - i,
    {
        let ghost rest = chars@.subrange(i as int, n as int);
        if has_prefix(&chars, i, n, p) {
            assert(rest.subrange(plen as int, rest.len() as int) =~= chars@.subrange(
                i + plen,
                n as int,
            ));
            let ghost before = out@;
            out.append(r);
            assert(before + (r@ + replaced(chars@.subrange(i + plen, n as int), p@, r@)) =~= out@
                + replaced(chars@.subrange(i + plen, n as int), p@, r@));
            i = i + plen;
        } else {
            assert(rest.drop_first() =~= chars@.subrange(i + 1, n as int));
            let one = s.substring_char(i, i + 1);
            assert(one@ =~= seq![rest[0]]);
            let ghost before = out@;
            out.append(one);
            assert(before + (seq![rest[0]] + replaced(rest.drop_first(), p@, r@)) =~= out@
                + replaced(rest.drop_first(), p@, r@));
            i = i + 1;
        }
    }
    assert(chars@.subrange(n as int, n as int) =~= Seq::<char>::empty());
    assert(out@ + Seq::<char>::empty() =~= out@);
    out
}

/// The leading part of `slug` before the first underscore, or all of it.
pub open spec fn slug_head(slug: Seq<char>) -> Seq<char> {
    let k = index_of(slug, '_');
    if k < 0 {
        slug
    } else {
        slug.subrange(0, k)
    }
}

/// Every character is an ASCII digit.
pub open spec fn all_digits(s: Seq<char>) -> bool {
    forall|i: int| 0 <= i < s.len() ==> '0' <= #[trigger] s[i] <= '9'
}

/// The numeric id of a slug: its leading underscore-delimited part where that
/// part is not empty and all digits, otherwise the whole slug.
pub open spec fn id_of(slug: Seq<char>) -> Seq<char> {
    if slug_head(slug).len() > 0 && all_digits(slug_head(slug)) {
        slug_head(slug)
    } else {
        slug
    }
}

/// Reads the numeric id of a slug: `0001` of `0001_feature`; a slug without
/// one is its own id.
pub fn extract_id(slug: &str) -> (r: &str)
    ensures
        r@ == id_of(slug@),
{
    let chars = chars_of(slug);
    let n = chars.len();
    assert(chars@.subrange(0, n as int) =~= chars@);
    let end = match find_char(&chars, 0, n, '_') {
        Some(k) => k,
        None => n,
    };
    assert(slug_head(slug@) =~= chars@.subrange(0, end as int));
    if end == 0 {
        return slug;
    }
    let mut i: usize = 0;
    while i < end
        invariant
            chars@ == slug@,
            end <= n == chars@.len(),
            i <= end,
            slug_head(slug@) == chars@.subrange(0, end as int),
            forall|j: int| 0 <= j < i ==> '0' <= #[trigger] chars@[j] <= '9',
        decreases end - i,
    {
        let c = chars[i];
        if !('0' <= c && c <= '9') {
            assert(!('0' <= chars@.subrange(0, end as int)[i as int] <= '9'));
            return slug;
        }
        i = i + 1;
    }
    assert(all_digits(chars@.subrange(0, end as int)));
    slug.substring_char(0, end)
}

/// Computes where a feature's worktree stands and what its branch is called.
#[derive(Clone, Debug, PartialEq, Eq)]
pub struct GitOps {
    pub repo_path: String,
    pub git_config: GitConfig,
}

/// The branch name for `slug` under `pattern`: `{slug}` becomes the slug,
/// then `{id}` its numeric id.
pub open spec fn branch_of(pattern: Seq<char>, slug: Seq<char>) -> Seq<char> {
    replaced(replaced(pattern, "{slug}"@, slug), "{id}"@, id_of(slug))
}

impl GitOps {
    pub fn new(repo_path: String, config: GitConfig) -> (r: Self)
        ensures
            r.repo_path == repo_path,
            r.git_config == config,
    {
        GitOps { repo_path, git_config: config }
    }

    /// `<repo>/.trees/<slug>`.
    pub fn worktree_path(&self, slug: &str) -> (r: String)
        ensures
            r@ == joined(joined(self.repo_path@, ".trees"@), slug@),
    {
        let trees = join_path(self.repo_path.as_str(), ".trees");
        join_path(trees.as_str(), slug)
    }

    /// The feature branch of `slug`, from the configured pattern.
    pub fn branch_name(&self, slug: &str) -> (r: String)
        ensures
            r@ == branch_of(self.git_config.branch_pattern@, slug@),
    {
        proof {
            reveal_strlit("{slug}");
            reveal_strlit("{id}");
        }
        let with_slug = replace_all(self.git_config.branch_pattern.as_str(), "{slug}", slug);
        replace_all(with_slug.as_str(), "{id}", extract_id(slug))
    }
}

/// How an attempt to commit ended.
#[derive(Clone, Debug, PartialEq, Eq)]
pub enum CommitOutcome {
    /// A commit was made; its hash.
    Committed(String),
    /// There was nothing to commit.
    NoChanges,
    /// Any other failure, with the tool's message.
    Failed(String),
}

/// The version-control tool reports that there was nothing to commit.
pub open spec fn is_noop_message(msg: Seq<char>) -> bool {
    contains(msg, "nothing to commit"@)
}

/// Classifies the result of a commit: a failure whose message says that
/// there was nothing to commit is no failure, and leaves no hash.
pub fn classify_commit(result: Result<String, String>) -> (r: CommitOutcome)
    ensures
        match result {
            Ok(h) => r == CommitOutcome::Committed(h),
            Err(m) => if is_noop_message(m@) {
                r == CommitOutcome::NoChanges
            } else {
                r == CommitOutcome::Failed(m)
            },
        },
{
    match result {
        Ok(h) => CommitOutcome::Committed(h),
        Err(m) => {
            let chars = chars_of(m.as_str());
            let n = chars.len();
            assert(chars@.subrange(0, n as int) =~= chars@);
            if contains_in(&chars, 0, n, "nothing to commit") {
                CommitOutcome::NoChanges
            } else {
                CommitOutcome::Failed(m)
            }
        },
    }
}

} // verus!
