//! Review issues: the severity vocabulary, and the two textual layouts in
//! which a review collaborator reports findings.
//!
//! Block layout, one field per line, a new `severity:` line closing the
//! previous record:
//!
//! ```text
//! - severity: error
//!   file: src/main.rs
//!   description: Missing error handling
//! ```
//!
//! Inline layout, one record per line: `- [error] src/main.rs: Missing error handling`.
//! The inline layout is read only where the block layout yields nothing.
use vstd::prelude::*;

use crate::text::{
    chars_of, equals_at, find_char, has_prefix, index_of, line_ranges, line_ranges_match,
    lower_of, lowercase, range_is, split_lines, starts_with, trim, trim_range, after, trim_start,
    trim_end, is_ws,
};

verus! {

/// How serious a review finding is.
#[derive(Clone, Copy, Debug, PartialEq, Eq, Structural)]
pub enum Severity {
    Error,
    Warning,
    Suggestion,
}

/// One finding of a review.
#[derive(Clone, Debug, PartialEq, Eq)]
pub struct Issue {
    pub severity: Severity,
    pub file: String,
    pub description: String,
}

/// An issue as plain values: severity, file, description.
pub type IssueModel = (Severity, Seq<char>, Seq<char>);

impl View for Issue {
    type V = IssueModel;

    open spec fn view(&self) -> IssueModel {
        (self.severity, self.file@, self.description@)
    }
}

/// The issues of a vector, as plain values.
pub open spec fn issues_view(v: Seq<Issue>) -> Seq<IssueModel> {
    v.map_values(|i: Issue| i@)
}

/// The severity that a lower-case, trimmed word names.
pub open spec fn severity_word(w: Seq<char>) -> Option<Severity> {
    if w == "error"@ {
        Some(Severity::Error)
    } else if w == "warning"@ || w == "warn"@ {
        Some(Severity::Warning)
    } else if w == "suggestion"@ || w == "info"@ || w == "note"@ {
        Some(Severity::Suggestion)
    } else {
        None
    }
}

/// The severity that `s` names, in any case and with surrounding whitespace.
pub open spec fn severity_of(s: Seq<char>) -> Option<Severity> {
    severity_word(trim(lower_of(s)))
}

/// Reads a severity word that is already in lower case, around whitespace.
pub fn severity_of_lowered(lower: &str) -> (r: Option<Severity>)
    ensures
        r == severity_word(trim(lower@)),
{
    let chars = chars_of(lower);
    let (a, b) = trim_range(&chars, 0, chars.len());
    assert(chars@.subrange(0, chars@.len() as int) =~= chars@);
    if equals_at(&chars, a, b, "error") {
        Some(Severity::Error)
    } else if equals_at(&chars, a, b, "warning") || equals_at(&chars, a, b, "warn") {
        Some(Severity::Warning)
    } else if equals_at(&chars, a, b, "suggestion") || equals_at(&chars, a, b, "info")
        || equals_at(&chars, a, b, "note") {
        Some(Severity::Suggestion)
    } else {
        None
    }
}

/// Reads a severity word: `error`; `warning` or `warn`; `suggestion`, `info`
/// or `note`; case does not matter.
pub fn parse_severity(s: &str) -> (r: Option<Severity>)
    ensures
        r == severity_of(s@),
{
    let lower = lowercase(s);
    severity_of_lowered(lower.as_str())
}

/// The issue that one trimmed line of the inline layout describes:
/// `- [<severity>] <file>: <description>`, with a known severity and a file
/// and a description that are not empty once trimmed.
pub open spec fn inline_issue(t: Seq<char>) -> Option<IssueModel> {
    if !starts_with(t, "-"@) {
        None
    } else {
        let c1 = trim(after(t, "-"@));
        if !starts_with(c1, "["@) {
            None
        } else {
            let c2 = after(c1, "["@);
            let be = index_of(c2, ']');
            if be < 0 {
                None
            } else {
                let sev = severity_of(c2.subrange(0, be));
                let rest = trim(c2.subrange(be + 1, c2.len() as int));
                let cp = index_of(rest, ':');
                if sev is None || cp < 0 {
                    None
                } else {
                    let file = trim(rest.subrange(0, cp));
                    let desc = trim(rest.subrange(cp + 1, rest.len() as int));
                    if file.len() == 0 || desc.len() == 0 {
                        None
                    } else {
                        Some((sev->0, file, desc))
                    }
                }
            }
        }
    }
}

/// The inline issue held by `s[a..b]`, where `chars` holds the characters of `s`.
fn inline_issue_at(s: &str, chars: &Vec<char>, a: usize, b: usize) -> (r: Option<Issue>)
    requires
        chars@ == s@,
        a <= b <= chars@.len(),
    ensures
        match r {
            Some(i) => inline_issue(chars@.subrange(a as int, b as int)) == Some(i@),
            None => inline_issue(chars@.subrange(a as int, b as int)) is None,
        },
{
    let ghost t = chars@.subrange(a as int, b as int);
    if !has_prefix(chars, a, b, "-") {
        return None;
    }
    proof {
        reveal_strlit("-");
        assert(after(t, "-"@) =~= chars@.subrange(a + 1, b as int));
    }
    let (c1a, c1b) = trim_range(chars, a + 1, b);
    let ghost c1 = chars@.subrange(c1a as int, c1b as int);
    if !has_prefix(chars, c1a, c1b, "[") {
        return None;
    }
    proof {
        reveal_strlit("[");
        assert(after(c1, "["@) =~= chars@.subrange(c1a + 1, c1b as int));
    }
    let ghost c2 = chars@.subrange(c1a + 1, c1b as int);
    let be = match find_char(chars, c1a + 1, c1b, ']') {
        Some(be) => be,
        None => {
            return None;
        },
    };
    let sa = c1a + 1;
    let sev = parse_severity(s.substring_char(sa, sa + be));
    assert(c2.subrange(0, be as int) =~= chars@.subrange(sa as int, sa + be));
    let (ra, rb) = trim_range(chars, sa + be + 1, c1b);
    assert(c2.subrange(be + 1, c2.len() as int) =~= chars@.subrange(sa + be + 1, c1b as int));
    let ghost rest = chars@.subrange(ra as int, rb as int);
    let cp = match find_char(chars, ra, rb, ':') {
        Some(cp) => cp,
        None => {
            return None;
        },
    };
    let severity = match sev {
        Some(v) => v,
        None => {
            return None;
        },
    };
    let (fa, fb) = trim_range(chars, ra, ra + cp);
    assert(rest.subrange(0, cp as int) =~= chars@.subrange(ra as int, ra + cp));
    let (da, db) = trim_range(chars, ra + cp + 1, rb);
    assert(rest.subrange(cp + 1, rest.len() as int) =~= chars@.subrange(ra + cp + 1, rb as int));
    if fa == fb || da == db {
        return None;
    }
    let file = s.substring_char(fa, fb).to_owned();
    let description = s.substring_char(da, db).to_owned();
    Some(Issue { severity, file, description })
}

/// Reads one line of the inline layout.
pub fn parse_inline_issue(line: &str) -> (r: Option<Issue>)
    ensures
        match r {
            Some(i) => inline_issue(line@) == Some(i@),
            None => inline_issue(line@) is None,
        },
{
    let chars = chars_of(line);
    assert(chars@.subrange(0, chars@.len() as int) =~= chars@);
    inline_issue_at(line, &chars, 0, chars.len())
}

/// What the block layout has read so far: the records closed, and the
/// fields of the open record.
pub type BlockModel = (Seq<IssueModel>, Option<Severity>, Option<Seq<char>>, Option<Seq<char>>);

/// The records of `st` with the open one closed, where it is complete.
pub open spec fn flush(st: BlockModel) -> Seq<IssueModel> {
    match (st.1, st.2, st.3) {
        (Some(sev), Some(file), Some(desc)) => if file.len() > 0 && desc.len() > 0 {
            st.0.push((sev, file, desc))
        } else {
            st.0
        },
        _ => st.0,
    }
}

/// Reads one trimmed line of the block layout.
pub open spec fn block_line(st: BlockModel, t: Seq<char>) -> BlockModel {
    if starts_with(t, "severity:"@) {
        (flush(st), severity_of(trim(after(t, "severity:"@))), None, None)
    } else if starts_with(t, "- severity:"@) {
        (flush(st), severity_of(trim(after(t, "- severity:"@))), None, None)
    } else if starts_with(t, "file:"@) {
        (st.0, st.1, Some(trim(after(t, "file:"@))), st.3)
    } else if starts_with(t, "description:"@) {
        (st.0, st.1, st.2, Some(trim(after(t, "description:"@))))
    } else {
        st
    }
}

/// Reads the lines in order.
pub open spec fn block_fold(lines: Seq<Seq<char>>) -> BlockModel
    decreases lines.len(),
{
    if lines.len() == 0 {
        (Seq::empty(), None, None, None)
    } else {
        block_line(block_fold(lines.drop_last()), trim(lines.last()))
    }
}

/// The records of the block layout in `s`, in the order they stand.
pub open spec fn block_issues(s: Seq<char>) -> Seq<IssueModel> {
    flush(block_fold(split_lines(s)))
}

/// The records of the inline layout in the lines, in order.
pub open spec fn inline_fold(lines: Seq<Seq<char>>) -> Seq<IssueModel>
    decreases lines.len(),
{
    if lines.len() == 0 {
        Seq::empty()
    } else {
        let prev = inline_fold(lines.drop_last());
        match inline_issue(trim(lines.last())) {
            Some(i) => prev.push(i),
            None => prev,
        }
    }
}

/// The issues that a review reports: those of the block layout, or where it
/// has none, those of the inline layout.
pub open spec fn review_issues(s: Seq<char>) -> Seq<IssueModel> {
    if block_issues(s).len() > 0 {
        block_issues(s)
    } else {
        inline_fold(split_lines(s))
    }
}

/// The field value after `p` in `s[a..b]`: its trimmed remainder, cut out of `s`.
fn field_after(s: &str, chars: &Vec<char>, a: usize, b: usize, p: &str) -> (r: String)
    requires
        chars@ == s@,
        a <= b <= chars@.len(),
        starts_with(chars@.subrange(a as int, b as int), p@),
    ensures
        r@ == trim(after(chars@.subrange(a as int, b as int), p@)),
{
    let n = p.unicode_len();
    assert(after(chars@.subrange(a as int, b as int), p@) =~= chars@.subrange(a + n, b as int));
    let (x, y) = trim_range(chars, a + n, b);
    s.substring_char(x, y).to_owned()
}

/// Closes the open record into `issues`, where it is complete.
fn flush_into(
    issues: &mut Vec<Issue>,
    sev: Option<Severity>,
    file: &Option<String>,
    desc: &Option<String>,
)
    ensures
        issues_view(final(issues)@) == flush(
            (
                issues_view(old(issues)@),
                sev,
                match file {
                    Some(f) => Some(f@),
                    None => None,
                },
                match desc {
                    Some(d) => Some(d@),
                    None => None,
                },
            ),
        ),
{
    match (sev, file, desc) {
        (Some(sv), Some(f), Some(d)) => {
            if f.unicode_len() > 0 && d.unicode_len() > 0 {
                let ghost before = issues@;
                issues.push(Issue { severity: sv, file: f.clone(), description: d.clone() });
                assert(issues_view(issues@) =~= issues_view(before).push(
                    (sv, f@, d@),
                ));
            }
        },
        _ => {},
    }
}

/// Reads the block layout.
pub fn parse_block_format(output: &str) -> (r: Vec<Issue>)
    ensures
        issues_view(r@) == block_issues(output@),
{
    let chars = chars_of(output);
    let ranges = line_ranges(&chars);
    let ghost lines = split_lines(chars@);
    let mut issues: Vec<Issue> = Vec::new();
    let mut sev: Option<Severity> = None;
    let mut file: Option<String> = None;
    let mut desc: Option<String> = None;
    let mut k: usize = 0;
    while k < ranges.len()
        invariant
            chars@ == output@,
            lines == split_lines(chars@),
            line_ranges_match(chars@, ranges@),
            k <= ranges@.len(),
            block_fold(lines.subrange(0, k as int)) == (
                issues_view(issues@),
                sev,
                match file {
                    Some(f) => Some(f@),
                    None => None,
                },
                match desc {
                    Some(d) => Some(d@),
                    None => None,
                },
            ),
        decreases ranges@.len() - k,
    {
        let (la, lb) = ranges[k];
        assert(range_is(chars@, ranges@[k as int], lines[k as int]));
        assert(lines.subrange(0, k + 1).drop_last() =~= lines.subrange(0, k as int));
        let (a, b) = trim_range(&chars, la, lb);
        proof {
            reveal_strlit("severity:");
            reveal_strlit("- severity:");
            reveal_strlit("file:");
            reveal_strlit("description:");
        }
        if has_prefix(&chars, a, b, "severity:") {
            let f = field_after(output, &chars, a, b, "severity:");
            flush_into(&mut issues, sev, &file, &desc);
            sev = parse_severity(f.as_str());
            file = None;
            desc = None;
        } else if has_prefix(&chars, a, b, "- severity:") {
            let f = field_after(output, &chars, a, b, "- severity:");
            flush_into(&mut issues, sev, &file, &desc);
            sev = parse_severity(f.as_str());
            file = None;
            desc = None;
        } else if has_prefix(&chars, a, b, "file:") {
            file = Some(field_after(output, &chars, a, b, "file:"));
        } else if has_prefix(&chars, a, b, "description:") {
            desc = Some(field_after(output, &chars, a, b, "description:"));
        }
        k = k + 1;
    }
    assert(lines.subrange(0, k as int) =~= lines);
    flush_into(&mut issues, sev, &file, &desc);
    issues
}

/// Reads the issues that a review reports: the block layout, or where it
/// yields nothing, one inline record per line.
pub fn parse_review_issues(output: &str) -> (r: Vec<Issue>)
    ensures
        issues_view(r@) == review_issues(output@),
{
    let block = parse_block_format(output);
    if block.len() > 0 {
        return block;
    }
    let chars = chars_of(output);
    let ranges = line_ranges(&chars);
    let ghost lines = split_lines(chars@);
    let mut issues: Vec<Issue> = Vec::new();
    let mut k: usize = 0;
    while k < ranges.len()
        invariant
            chars@ == output@,
            lines == split_lines(chars@),
            line_ranges_match(chars@, ranges@),
            k <= ranges@.len(),
            inline_fold(lines.subrange(0, k as int)) == issues_view(issues@),
        decreases ranges@.len() - k,
    {
        let (la, lb) = ranges[k];
        assert(range_is(chars@, ranges@[k as int], lines[k as int]));
        assert(lines.subrange(0, k + 1).drop_last() =~= lines.subrange(0, k as int));
        let (a, b) = trim_range(&chars, la, lb);
        let ghost before = issues@;
        match inline_issue_at(output, &chars, a, b) {
            Some(issue) => {
                issues.push(issue);
                assert(issues_view(issues@) =~= issues_view(before).push(issue@));
            },
            None => {},
        }
        k = k + 1;
    }
    assert(lines.subrange(0, k as int) =~= lines);
    issues
}

/// The three lines of one block-layout record.
pub open spec fn record_lines(r: (Seq<char>, Seq<char>, Seq<char>)) -> Seq<Seq<char>> {
    seq!["severity: "@ + r.0, "file: "@ + r.1, "description: "@ + r.2]
}

/// The lines of block-layout records, one record after another.
pub open spec fn records_lines(recs: Seq<(Seq<char>, Seq<char>, Seq<char>)>) -> Seq<Seq<char>>
    decreases recs.len(),
{
    if recs.len() == 0 {
        Seq::empty()
    } else {
        records_lines(recs.drop_last()) + record_lines(recs.last())
    }
}

/// A record is well formed: a severity word that names a severity, and a
/// file and a description that are not empty, all without surrounding
/// whitespace.
pub open spec fn well_formed_record(r: (Seq<char>, Seq<char>, Seq<char>)) -> bool {
    &&& r.0.len() > 0 && trim(r.0) == r.0 && severity_of(r.0) is Some
    &&& r.1.len() > 0 && trim(r.1) == r.1
    &&& r.2.len() > 0 && trim(r.2) == r.2
}

/// The issues that well-formed records describe.
pub open spec fn record_issues(recs: Seq<(Seq<char>, Seq<char>, Seq<char>)>) -> Seq<IssueModel> {
    recs.map_values(|r: (Seq<char>, Seq<char>, Seq<char>)| (severity_of(r.0)->0, r.1, r.2))
}

proof fn lemma_trim_start_len(l: Seq<char>)
    ensures
        trim_start(l).len() <= l.len(),
        l.len() > 0 && is_ws(l[0]) ==> trim_start(l).len() < l.len(),
    decreases l.len(),
{
    if l.len() > 0 && is_ws(l[0]) {
        lemma_trim_start_len(l.drop_first());
    }
}

proof fn lemma_trim_end_len(l: Seq<char>)
    ensures
        trim_end(l).len() <= l.len(),
        l.len() > 0 && is_ws(l.last()) ==> trim_end(l).len() < l.len(),
    decreases l.len(),
{
    if l.len() > 0 && is_ws(l.last()) {
        lemma_trim_end_len(l.drop_last());
    }
}

/// A trimmed, non-empty sequence neither starts nor ends with whitespace.
proof fn lemma_trimmed_ends(x: Seq<char>)
    requires
        x.len() > 0,
        trim(x) == x,
    ensures
        !is_ws(x[0]),
        !is_ws(x.last()),
{
    lemma_trim_start_len(x);
    lemma_trim_end_len(trim_start(x));
    if is_ws(x.last()) {
        if trim_start(x) == x {
            lemma_trim_end_len(x);
        }
    }
}

/// A prefix that starts without whitespace, before a trimmed non-empty
/// sequence, is kept whole by trimming.
proof fn lemma_trim_concat(p: Seq<char>, x: Seq<char>)
    requires
        p.len() > 0,
        !is_ws(p[0]),
        x.len() > 0,
        trim(x) == x,
    ensures
        trim(p + x) == p + x,
{
    lemma_trimmed_ends(x);
    let px = p + x;
    assert(px[0] == p[0]);
    assert(trim_start(px) == px);
    assert(px.last() == x.last());
}

/// Trimming ignores one leading space.
proof fn lemma_trim_space(x: Seq<char>)
    ensures
        trim(seq![' '] + x) == trim(x),
{
    assert((seq![' '] + x).drop_first() =~= x);
}

proof fn lemma_block_records(recs: Seq<(Seq<char>, Seq<char>, Seq<char>)>)
    requires
        forall|j: int| 0 <= j < recs.len() ==> well_formed_record(#[trigger] recs[j]),
    ensures
        recs.len() == 0 ==> block_fold(records_lines(recs)) == (
            Seq::<IssueModel>::empty(),
            None::<Severity>,
            None::<Seq<char>>,
            None::<Seq<char>>,
        ),
        recs.len() > 0 ==> block_fold(records_lines(recs)) == (
            record_issues(recs.drop_last()),
            severity_of(recs.last().0),
            Some(recs.last().1),
            Some(recs.last().2),
        ),
    decreases recs.len(),
{
    if recs.len() > 0 {
        let prev = recs.drop_last();
        let r = recs.last();
        assert forall|j: int| 0 <= j < prev.len() implies well_formed_record(#[trigger] prev[j]) by {
            assert(prev[j] == recs[j]);
        }
        lemma_block_records(prev);
        assert(well_formed_record(recs[recs.len() - 1]));
        let base = records_lines(prev);
        let l1 = "severity: "@ + r.0;
        let l2 = "file: "@ + r.1;
        let l3 = "description: "@ + r.2;
        let all = records_lines(recs);
        assert(all =~= base.push(l1).push(l2).push(l3));
        assert(all.drop_last() =~= base.push(l1).push(l2));
        assert(all.drop_last().drop_last() =~= base.push(l1));
        assert(all.drop_last().drop_last().drop_last() =~= base);
        reveal_strlit("severity: ");
        reveal_strlit("file: ");
        reveal_strlit("description: ");
        reveal_strlit("severity:");
        reveal_strlit("- severity:");
        reveal_strlit("file:");
        reveal_strlit("description:");
        lemma_trim_concat("severity: "@, r.0);
        lemma_trim_concat("file: "@, r.1);
        lemma_trim_concat("description: "@, r.2);
        assert(starts_with(l1, "severity:"@)) by {
            assert(l1.subrange(0, 9) =~= "severity:"@);
        }
        assert(after(l1, "severity:"@) =~= seq![' '] + r.0);
        lemma_trim_space(r.0);
        assert(l2[0] == 'f');
        assert(!starts_with(l2, "severity:"@)) by {
            if l2.len() >= 9 {
                assert(l2.subrange(0, 9)[0] == l2[0]);
            }
        }
        assert(!starts_with(l2, "- severity:"@)) by {
            if l2.len() >= 11 {
                assert(l2.subrange(0, 11)[0] == l2[0]);
            }
        }
        assert(starts_with(l2, "file:"@)) by {
            assert(l2.subrange(0, 5) =~= "file:"@);
        }
        assert(after(l2, "file:"@) =~= seq![' '] + r.1);
        lemma_trim_space(r.1);
        assert(!starts_with(l3, "severity:"@)) by {
            assert(l3.subrange(0, 9)[0] == l3[0]);
        }
        assert(!starts_with(l3, "- severity:"@)) by {
            assert(l3.subrange(0, 11)[0] == l3[0]);
        }
        assert(!starts_with(l3, "file:"@)) by {
            assert(l3.subrange(0, 5)[0] == l3[0]);
        }
        assert(starts_with(l3, "description:"@)) by {
            assert(l3.subrange(0, 12) =~= "description:"@);
        }
        assert(after(l3, "description:"@) =~= seq![' '] + r.2);
        lemma_trim_space(r.2);
        let st0 = block_fold(base);
        if prev.len() > 0 {
            let q = prev.last();
            assert(well_formed_record(prev[prev.len() - 1]));
            assert(record_issues(prev) =~= record_issues(prev.drop_last()).push(
                (severity_of(q.0)->0, q.1, q.2),
            ));
        } else {
            assert(record_issues(prev) =~= Seq::<IssueModel>::empty());
        }
        assert(flush(st0) == record_issues(prev));
        let b1 = base.push(l1);
        let b2 = b1.push(l2);
        assert(b1.drop_last() =~= base);
        assert(b2.drop_last() =~= b1);
        let st1 = block_fold(b1);
        assert(st1 == block_line(st0, trim(l1)));
        assert(st1 == (record_issues(prev), severity_of(r.0), None::<Seq<char>>, None::<Seq<char>>));
        let st2 = block_fold(b2);
        assert(st2 == block_line(st1, trim(l2)));
        assert(st2 == (record_issues(prev), severity_of(r.0), Some(r.1), None::<Seq<char>>));
        assert(block_fold(all) == block_line(st2, trim(l3)));
    }
}

/// A text whose lines are well-formed block records, one after another,
/// reads as exactly those records' issues, in the order they stand.
pub proof fn law_block_records_read_in_order(
    output: Seq<char>,
    recs: Seq<(Seq<char>, Seq<char>, Seq<char>)>,
)
    requires
        split_lines(output) == records_lines(recs),
        forall|j: int| 0 <= j < recs.len() ==> well_formed_record(#[trigger] recs[j]),
    ensures
        block_issues(output) == record_issues(recs),
        recs.len() > 0 ==> review_issues(output) == record_issues(recs),
{
    lemma_block_records(recs);
    if recs.len() > 0 {
        let q = recs.last();
        assert(well_formed_record(recs[recs.len() - 1]));
        assert(record_issues(recs) =~= record_issues(recs.drop_last()).push(
            (severity_of(q.0)->0, q.1, q.2),
        ));
    } else {
        assert(record_issues(recs) =~= Seq::<IssueModel>::empty());
    }
}

} // verus!
