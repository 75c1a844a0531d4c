//! Finding the address of a created pull request in a transcript.
use vstd::prelude::*;

use crate::text::{
    chars_of, contains, contains_in, find, find_in, is_whitespace, is_ws, line_ranges,
    line_ranges_match, range_is, split_lines, trim, trim_range,
};

use crate::run::Outcome;

verus! {

/// A character that ends an address: whitespace or a closing quote or parenthesis.
pub open spec fn is_url_stop(c: char) -> bool {
    is_ws(c) || c == '"' || c == '\'' || c == ')'
}

/// `i` is the first position of a stop character in `l`.
pub open spec fn first_stop(l: Seq<char>, i: int) -> bool {
    0 <= i < l.len() && is_url_stop(l[i]) && forall|j: int| 0 <= j < i ==> !is_url_stop(l[j])
}

/// Where the address at the start of `l` ends.
pub open spec fn url_end(l: Seq<char>) -> int {
    if exists|i: int| 0 <= i < l.len() && is_url_stop(l[i]) {
        choose|i: int| first_stop(l, i)
    } else {
        l.len() as int
    }
}

/// The pull-request address in one trimmed line: the address that starts at
/// the first `https://github.com/`, where it holds `/pull/`.
pub open spec fn url_in_line(t: Seq<char>) -> Option<Seq<char>> {
    let st = find(t, "https://github.com/"@);
    if st < 0 {
        None
    } else {
        let up = t.subrange(st, t.len() as int);
        let url = up.subrange(0, url_end(up));
        if contains(url, "/pull/"@) {
            Some(url)
        } else {
            None
        }
    }
}

/// The first pull-request address in the lines, in order.
pub open spec fn url_in_lines(lines: Seq<Seq<char>>) -> Option<Seq<char>>
    decreases lines.len(),
{
    if lines.len() == 0 {
        None
    } else {
        match url_in_lines(lines.drop_last()) {
            Some(u) => Some(u),
            None => url_in_line(trim(lines.last())),
        }
    }
}

/// Once an address is found among the first `m` lines, later lines do not change it.
pub proof fn lemma_url_found_early(lines: Seq<Seq<char>>, m: int)
    requires
        0 <= m <= lines.len(),
        url_in_lines(lines.subrange(0, m)) is Some,
    ensures
        url_in_lines(lines) == url_in_lines(lines.subrange(0, m)),
    decreases lines.len() - m,
{
    if m < lines.len() {
        assert(lines.subrange(0, m + 1).drop_last() =~= lines.subrange(0, m));
        lemma_url_found_early(lines, m + 1);
    } else {
        assert(lines.subrange(0, m) =~= lines);
    }
}

/// The first pull-request address in a transcript.
pub open spec fn pr_url_of(s: Seq<char>) -> Option<Seq<char>> {
    url_in_lines(split_lines(s))
}

/// The end of the address that starts at `a`, searching up to `b`.
fn scan_url_end(chars: &Vec<char>, a: usize, b: usize) -> (e: usize)
    requires
        a <= b <= chars@.len(),
    ensures
        a <= e <= b,
        url_end(chars@.subrange(a as int, b as int)) == e - a,
{
    let ghost l = chars@.subrange(a as int, b as int);
    let mut i: usize = a;
    while i < b
        invariant
            a <= i <= b <= chars@.len(),
            l == chars@.subrange(a as int, b as int),
            forall|j: int| 0 <= j < i - a ==> !is_url_stop(l[j]),
        decreases b - i,
    {
        let c = chars[i];
        if is_whitespace(c) || c == '"' || c == '\'' || c == ')' {
            proof {
                assert(first_stop(l, i - a));
                let k = choose|k: int| first_stop(l, k);
                assert(k == i - a);
            }
            return i;
        }
        i = i + 1;
    }
    i
}

/// Finds the first pull-request address in a transcript: the text from a
/// `https://github.com/` to the next whitespace, quote or closing
/// parenthesis, where it holds `/pull/`.
pub fn extract_pr_url(output: &str) -> (r: Option<String>)
    ensures
        match r {
            Some(u) => pr_url_of(output@) == Some(u@),
            None => pr_url_of(output@) is None,
        },
{
    let chars = chars_of(output);
    let ranges = line_ranges(&chars);
    let ghost lines = split_lines(chars@);
    let mut k: usize = 0;
    while k < ranges.len()
        invariant
            chars@ == output@,
            lines == split_lines(chars@),
            line_ranges_match(chars@, ranges@),
            k <= ranges@.len(),
            url_in_lines(lines.subrange(0, k as int)) is None,
        decreases ranges@.len() - k,
    {
        let (la, lb) = ranges[k];
        assert(range_is(chars@, ranges@[k as int], lines[k as int]));
        assert(lines.subrange(0, k + 1).drop_last() =~= lines.subrange(0, k as int));
        let (a, b) = trim_range(&chars, la, lb);
        let ghost t = chars@.subrange(a as int, b as int);
        match find_in(&chars, a, b, "https://github.com/") {
            Some(st) => {
                let e = scan_url_end(&chars, a + st, b);
                assert(t.subrange(st as int, t.len() as int) =~= chars@.subrange(a + st, b as int));
                assert(t.subrange(st as int, t.len() as int).subrange(0, e - (a + st))
                    =~= chars@.subrange(a + st, e as int));
                if contains_in(&chars, a + st, e, "/pull/") {
                    proof {
                        lemma_url_found_early(lines, k + 1);
                    }
                    return Some(output.substring_char(a + st, e).to_owned());
                }
            },
            None => {},
        }
        k = k + 1;
    }
    assert(lines.subrange(0, k as int) =~= lines);
    None
}

/// The outcome of the request for a pull request, from its transcript: the
/// first address found, or a failure whose detail holds the transcript.
pub fn pr_outcome(transcript: &str) -> (r: Outcome)
    ensures
        match pr_url_of(transcript@) {
            Some(u) => r matches Outcome::PrCreated(url) && url@ == u,
            None => r matches Outcome::PrFailed(d) && d@ == "PR URL not detected in agent output: "@
                + transcript@,
        },
{
    match extract_pr_url(transcript) {
        Some(u) => Outcome::PrCreated(u),
        None => {
            let mut d = String::from_str("PR URL not detected in agent output: ");
            d.append(transcript);
            Outcome::PrFailed(d)
        },
    }
}

} // verus!
