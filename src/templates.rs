//! Named text templates: how a template file's path gives its name, and the
//! names of the tasks that the pipeline renders.
use vstd::prelude::*;

use crate::error::PmError;
use crate::text::{chars_of, equals_at, has_prefix, starts_with};

verus! {

/// A template and its source.
#[derive(Clone, Debug, PartialEq, Eq)]
pub struct PromptTemplate {
    /// The name it is looked up by, such as `init/system`.
    pub name: String,
    pub source: String,
}

/// How an agent runs: with the collaborator's built-in tools (`preset`) or
/// as plain text analysis, and which tools it may use.
#[derive(Clone, Debug, PartialEq, Eq)]
pub struct AgentConfig {
    pub preset: bool,
    /// Empty: every tool.
    pub tools: Vec<String>,
    pub disallowed_tools: Vec<String>,
}

/// `path` lies under the directory `dir`: it is `dir`, or continues it
/// after a separator.
pub open spec fn is_under(path: Seq<char>, dir: Seq<char>) -> bool {
    starts_with(path, dir) && (path.len() == dir.len() || (dir.len() > 0 && dir.last() == '/')
        || path[dir.len() as int] == '/')
}

/// Whether `path` lies under the directory `dir`.
pub fn path_is_under(path: &str, dir: &str) -> (r: bool)
    ensures
        r == is_under(path@, dir@),
{
    let chars = chars_of(path);
    let n = chars.len();
    assert(chars@.subrange(0, n as int) =~= chars@);
    if !has_prefix(&chars, 0, n, dir) {
        return false;
    }
    let d = dir.unicode_len();
    if d == n {
        return true;
    }
    (d > 0 && dir.get_char(d - 1) == '/') || chars[d] == '/'
}

/// The part of `path` after the directory `base` and its separator.
pub open spec fn relative_to(path: Seq<char>, base: Seq<char>) -> Seq<char> {
    let rest = path.subrange(base.len() as int, path.len() as int);
    if rest.len() > 0 && rest[0] == '/' {
        rest.drop_first()
    } else {
        rest
    }
}

/// `s` with each backslash turned into a slash.
pub open spec fn forward_slashes(s: Seq<char>) -> Seq<char> {
    s.map_values(|c: char| if c == '\\' { '/' } else { c })
}

/// The name of the template at `path` under `base`: its path relative to
/// `base`, with forward slashes and without `.md.j2`.
pub open spec fn template_name_of(base: Seq<char>, path: Seq<char>) -> Option<Seq<char>> {
    if !is_under(path, base) {
        None
    } else {
        let rel = forward_slashes(relative_to(path, base));
        if rel.len() >= 6 && rel.subrange(rel.len() - 6, rel.len() as int) == ".md.j2"@ {
            Some(rel.subrange(0, rel.len() - 6))
        } else {
            None
        }
    }
}

/// Names the template at `path` under `base`; a path outside `base` or
/// without the `.md.j2` extension is an invalid template.
pub fn template_name_from_path(base: &str, path: &str) -> (r: Result<String, PmError>)
    ensures
        match r {
            Ok(name) => template_name_of(base@, path@) == Some(name@),
            Err(e) => template_name_of(base@, path@) is None && e is InvalidTemplate,
        },
{
    if !path_is_under(path, base) {
        return Err(PmError::InvalidTemplate(String::from_str(path)));
    }
    let chars = chars_of(path);
    let n = chars.len();
    let b = base.unicode_len();
    let start = if b < n && chars[b] == '/' {
        b + 1
    } else {
        b
    };
    let ghost rel = relative_to(path@, base@);
    assert(rel =~= chars@.subrange(start as int, n as int));
    let mut out: Vec<char> = Vec::new();
    let mut i = start;
    while i < n
        invariant
            start <= i <= n == chars@.len(),
            out@ =~= forward_slashes(chars@.subrange(start as int, i as int)),
        decreases n - i,
    {
        let c = chars[i];
        out.push(if c == '\\' { '/' } else { c });
        assert(chars@.subrange(start as int, i + 1) =~= chars@.subrange(start as int, i as int).push(c));
        i = i + 1;
    }
    assert(chars@.subrange(start as int, i as int) =~= chars@.subrange(start as int, n as int));
    let m = out.len();
    if m < 6 || !equals_at(&out, m - 6, m, ".md.j2") {
        return Err(PmError::InvalidTemplate(String::from_str(path)));
    }
    let mut name = String::new();
    let mut k: usize = 0;
    while k < m - 6
        invariant
            m == out@.len(),
            m >= 6,
            k <= m - 6,
            name@ == out@.subrange(0, k as int),
            m == n - start,
            start <= n == chars@.len(),
            out@ =~= forward_slashes(chars@.subrange(start as int, n as int)),
            chars@ == path@,
        decreases m - 6 - k,
    {
        proof {
            reveal_strlit("/");
        }
        if chars[start + k] == '\\' {
            name.append("/");
        } else {
            name.append(path.substring_char(start + k, start + k + 1));
        }
        assert(name@ =~= out@.subrange(0, k + 1));
        k = k + 1;
    }
    Ok(name)
}

} // verus!
