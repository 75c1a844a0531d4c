//! Keeping the worktree directory out of version control.
use vstd::prelude::*;

use crate::text::{chars_of, equals_at, line_ranges, line_ranges_match, range_is, split_lines, trim, trim_range};

verus! {

/// Some line of `content`, trimmed, is `.trees/`.
pub open spec fn lists_trees(content: Seq<char>) -> bool {
    exists|k: int| 0 <= k < split_lines(content).len() && trim(#[trigger] split_lines(content)[k]) == ".trees/"@
}

/// `content` with a `.trees/` line appended, on a line of its own.
pub open spec fn with_trees_line(content: Seq<char>) -> Seq<char> {
    if content.len() > 0 && content.last() != '\n' {
        content + seq!['\n'] + ".trees/\n"@
    } else {
        content + ".trees/\n"@
    }
}

/// The new content of `.gitignore` where it does not list `.trees/` yet,
/// or none where it does.
pub fn gitignore_update(content: &str) -> (r: Option<String>)
    ensures
        match r {
            Some(c) => !lists_trees(content@) && c@ == with_trees_line(content@),
            None => lists_trees(content@),
        },
{
    let chars = chars_of(content);
    let ranges = line_ranges(&chars);
    let ghost lines = split_lines(chars@);
    let mut k: usize = 0;
    while k < ranges.len()
        invariant
            chars@ == content@,
            lines == split_lines(chars@),
            line_ranges_match(chars@, ranges@),
            k <= ranges@.len(),
            forall|j: int| 0 <= j < k ==> trim(#[trigger] lines[j]) != ".trees/"@,
        decreases ranges@.len() - k,
    {
        let (la, lb) = ranges[k];
        assert(range_is(chars@, ranges@[k as int], lines[k as int]));
        let (a, b) = trim_range(&chars, la, lb);
        if equals_at(&chars, a, b, ".trees/") {
            return None;
        }
        k = k + 1;
    }
    let mut out = String::from_str(content);
    let n = chars.len();
    proof {
        reveal_strlit("\n");
        reveal_strlit(".trees/\n");
    }
    if n > 0 && chars[n - 1] != '\n' {
        out.append("\n");
    }
    out.append(".trees/\n");
    Some(out)
}

} // verus!
