//! Character-level helpers over string slices.
//!
//! The parsers of this crate scan a `Vec<char>` copy of their input and cut
//! results out of the original `&str` by character positions. Every helper
//! here is specified over `Seq<char>`, the view of a string.
use vstd::prelude::*;

verus! {

/// Unicode `White_Space`, the set that `char::is_whitespace` tests.
pub open spec fn is_ws(c: char) -> bool {
    ('\u{9}' <= c && c <= '\u{d}') || c == ' ' || c == '\u{85}' || c == '\u{a0}' || c == '\u{1680}'
        || ('\u{2000}' <= c && c <= '\u{200a}') || c == '\u{2028}' || c == '\u{2029}' || c
        == '\u{202f}' || c == '\u{205f}' || c == '\u{3000}'
}

pub fn is_whitespace(c: char) -> (r: bool)
    ensures
        r == is_ws(c),
{
    ('\u{9}' <= c && c <= '\u{d}') || c == ' ' || c == '\u{85}' || c == '\u{a0}' || c == '\u{1680}'
        || ('\u{2000}' <= c && c <= '\u{200a}') || c == '\u{2028}' || c == '\u{2029}' || c
        == '\u{202f}' || c == '\u{205f}' || c == '\u{3000}'
}

/// `l` without its leading whitespace.
pub open spec fn trim_start(l: Seq<char>) -> Seq<char>
    decreases l.len(),
{
    if l.len() > 0 && is_ws(l[0]) {
        trim_start(l.drop_first())
    } else {
        l
    }
}

/// `l` without its trailing whitespace.
pub open spec fn trim_end(l: Seq<char>) -> Seq<char>
    decreases l.len(),
{
    if l.len() > 0 && is_ws(l.last()) {
        trim_end(l.drop_last())
    } else {
        l
    }
}

/// `l` without whitespace at either end.
pub open spec fn trim(l: Seq<char>) -> Seq<char> {
    trim_end(trim_start(l))
}

/// `l` begins with `p`.
pub open spec fn starts_with(l: Seq<char>, p: Seq<char>) -> bool {
    p.len() <= l.len() && l.subrange(0, p.len() as int) == p
}

/// What follows the prefix `p` in `l`.
pub open spec fn after(l: Seq<char>, p: Seq<char>) -> Seq<char> {
    l.subrange(p.len() as int, l.len() as int)
}

/// `p` occurs in `l` at position `i`.
pub open spec fn occurs_at(l: Seq<char>, p: Seq<char>, i: int) -> bool {
    0 <= i && i + p.len() <= l.len() && l.subrange(i, i + p.len()) == p
}

/// `p` occurs somewhere in `l`.
pub open spec fn contains(l: Seq<char>, p: Seq<char>) -> bool {
    exists|i: int| occurs_at(l, p, i)
}

/// `i` is the first position where `p` occurs in `l`.
pub open spec fn first_occurrence(l: Seq<char>, p: Seq<char>, i: int) -> bool {
    occurs_at(l, p, i) && forall|j: int| 0 <= j < i ==> !occurs_at(l, p, j)
}

/// The first position of `p` in `l`, or -1 where it does not occur.
pub open spec fn find(l: Seq<char>, p: Seq<char>) -> int {
    if contains(l, p) {
        choose|i: int| first_occurrence(l, p, i)
    } else {
        -1
    }
}

/// `i` is the first position of `c` in `l`.
pub open spec fn first_char(l: Seq<char>, c: char, i: int) -> bool {
    0 <= i < l.len() && l[i] == c && forall|j: int| 0 <= j < i ==> l[j] != c
}

/// The first position of `c` in `l`, or -1.
pub open spec fn index_of(l: Seq<char>, c: char) -> int {
    if exists|i: int| 0 <= i < l.len() && l[i] == c {
        choose|i: int| first_char(l, c, i)
    } else {
        -1
    }
}

/// The lines of `s`: the pieces between line feeds, the last one included
/// even where it is empty. A carriage return stays at the end of its line;
/// every parser here trims its lines, which removes it.
pub open spec fn split_lines(s: Seq<char>) -> Seq<Seq<char>>
    decreases s.len(),
{
    if s.len() == 0 {
        seq![Seq::<char>::empty()]
    } else {
        let prev = split_lines(s.drop_last());
        if s.last() == '\n' {
            prev.push(Seq::<char>::empty())
        } else {
            prev.update(prev.len() - 1, prev.last().push(s.last()))
        }
    }
}

pub proof fn lemma_split_lines_nonempty(s: Seq<char>)
    ensures
        split_lines(s).len() >= 1,
    decreases s.len(),
{
    if s.len() > 0 {
        lemma_split_lines_nonempty(s.drop_last());
    }
}

/// `s[rk.0..rk.1]` is `line`.
pub open spec fn range_is(s: Seq<char>, rk: (usize, usize), line: Seq<char>) -> bool {
    rk.0 <= rk.1 <= s.len() && s.subrange(rk.0 as int, rk.1 as int) == line
}

/// `r` holds the bounds of the lines of `s`, in order.
pub open spec fn line_ranges_match(s: Seq<char>, r: Seq<(usize, usize)>) -> bool {
    r.len() == split_lines(s).len() && forall|k: int|
        0 <= k < r.len() ==> range_is(s, #[trigger] r[k], split_lines(s)[k])
}

/// The bounds of each line of `chars`, in order.
pub fn line_ranges(chars: &Vec<char>) -> (r: Vec<(usize, usize)>)
    ensures
        line_ranges_match(chars@, r@),
{
    let mut r: Vec<(usize, usize)> = Vec::new();
    let mut ls: usize = 0;
    let mut i: usize = 0;
    while i < chars.len()
        invariant
            ls <= i <= chars@.len(),
            split_lines(chars@.subrange(0, i as int)).len() == r@.len() + 1,
            split_lines(chars@.subrange(0, i as int)).last() == chars@.subrange(
                ls as int,
                i as int,
            ),
            forall|k: int|
                0 <= k < r@.len() ==> range_is(
                    chars@,
                    #[trigger] r@[k],
                    split_lines(chars@.subrange(0, i as int))[k],
                ),
        decreases chars@.len() - i,
    {
        let ghost p = chars@.subrange(0, i as int);
        let ghost q = chars@.subrange(0, i + 1);
        assert(q.drop_last() =~= p);
        assert(q.last() == chars@[i as int]);
        proof {
            lemma_split_lines_nonempty(p);
        }
        let ghost sp = split_lines(p);
        let ghost sq = split_lines(q);
        let ghost r0 = r@;
        let ghost ls0 = ls;
        if chars[i] == '\n' {
            assert(sq == sp.push(Seq::<char>::empty()));
            r.push((ls, i));
            ls = i + 1;
            assert(chars@.subrange(ls as int, i + 1) =~= Seq::<char>::empty());
            assert forall|k: int| 0 <= k < r@.len() implies range_is(
                chars@,
                #[trigger] r@[k],
                sq[k],
            ) by {
                assert(sq[k] == sp[k]);
                if k < r0.len() {
                    assert(r@[k] == r0[k]);
                    assert(range_is(chars@, r0[k], sp[k]));
                } else {
                    assert(r@[k] == (ls0, i));
                }
            }
        } else {
            assert(sq == sp.update(sp.len() - 1, sp.last().push(chars@[i as int])));
            assert(chars@.subrange(ls as int, i + 1) =~= chars@.subrange(ls as int, i as int).push(
                chars@[i as int],
            ));
            assert forall|k: int| 0 <= k < r@.len() implies range_is(
                chars@,
                #[trigger] r@[k],
                sq[k],
            ) by {
                assert(sq[k] == sp[k]);
                assert(range_is(chars@, r0[k], sp[k]));
            }
        }
        i = i + 1;
        assert(chars@.subrange(0, i as int) == q);
    }
    assert(chars@.subrange(0, i as int) =~= chars@);
    let ghost r0 = r@;
    r.push((ls, i));
    assert forall|k: int| 0 <= k < r@.len() implies range_is(
        chars@,
        #[trigger] r@[k],
        split_lines(chars@)[k],
    ) by {
        if k < r0.len() {
            assert(r@[k] == r0[k]);
            assert(range_is(chars@, r0[k], split_lines(chars@)[k]));
        }
    }
    assert(line_ranges_match(chars@, r@));
    r
}

/// Collects the characters of a string slice into a vector.
pub fn chars_of(s: &str) -> (r: Vec<char>)
    ensures
        r@ == s@,
{
    let mut r: Vec<char> = Vec::new();
    for c in it: s.chars()
        invariant
            r@ == it.seq().subrange(0, it.index() as int),
    {
        r.push(c);
    }
    r
}

/// First position in `a..b` that is not whitespace: `chars[i..b]` is the
/// trimmed start of `chars[a..b]`.
pub fn skip_ws(chars: &Vec<char>, a: usize, b: usize) -> (i: usize)
    requires
        a <= b <= chars@.len(),
    ensures
        a <= i <= b,
        trim_start(chars@.subrange(a as int, b as int)) == chars@.subrange(i as int, b as int),
{
    let mut i = a;
    while i < b && is_whitespace(chars[i])
        invariant
            a <= i <= b <= chars@.len(),
            trim_start(chars@.subrange(a as int, b as int)) == trim_start(
                chars@.subrange(i as int, b as int),
            ),
        decreases b - i,
    {
        assert(chars@.subrange(i as int, b as int).drop_first() =~= chars@.subrange(
            i + 1,
            b as int,
        ));
        i = i + 1;
    }
    i
}

/// End of `a..b` once trailing whitespace is dropped.
pub fn skip_ws_back(chars: &Vec<char>, a: usize, b: usize) -> (j: usize)
    requires
        a <= b <= chars@.len(),
    ensures
        a <= j <= b,
        trim_end(chars@.subrange(a as int, b as int)) == chars@.subrange(a as int, j as int),
{
    let mut j = b;
    while j > a && is_whitespace(chars[j - 1])
        invariant
            a <= j <= b <= chars@.len(),
            trim_end(chars@.subrange(a as int, b as int)) == trim_end(
                chars@.subrange(a as int, j as int),
            ),
        decreases j - a,
    {
        assert(chars@.subrange(a as int, j as int).drop_last() =~= chars@.subrange(
            a as int,
            j - 1,
        ));
        j = j - 1;
    }
    j
}

/// The bounds of `trim(chars[a..b])`.
pub fn trim_range(chars: &Vec<char>, a: usize, b: usize) -> (r: (usize, usize))
    requires
        a <= b <= chars@.len(),
    ensures
        a <= r.0 <= r.1 <= b,
        trim(chars@.subrange(a as int, b as int)) == chars@.subrange(r.0 as int, r.1 as int),
{
    let i = skip_ws(chars, a, b);
    let j = skip_ws_back(chars, i, b);
    (i, j)
}

/// Whether `chars[a..b]` begins with `p`.
pub fn has_prefix(chars: &Vec<char>, a: usize, b: usize, p: &str) -> (r: bool)
    requires
        a <= b <= chars@.len(),
    ensures
        r == starts_with(chars@.subrange(a as int, b as int), p@),
{
    let n = p.unicode_len();
    if n > b - a {
        return false;
    }
    let mut k: usize = 0;
    while k < n
        invariant
            n == p@.len(),
            p@.len() <= b - a,
            a <= b <= chars@.len(),
            k <= p@.len(),
            forall|m: int| 0 <= m < k ==> chars@[a + m] == p@[m],
        decreases p@.len() - k,
    {
        if chars[a + k] != p.get_char(k) {
            assert(chars@.subrange(a as int, b as int).subrange(0, p@.len() as int)[k as int]
                != p@[k as int]);
            return false;
        }
        k = k + 1;
    }
    assert(chars@.subrange(a as int, b as int).subrange(0, p@.len() as int) =~= p@);
    true
}

/// Whether `p` occurs in `chars[a..b]` at offset `i`.
fn occurs_here(chars: &Vec<char>, a: usize, b: usize, p: &str, i: usize) -> (r: bool)
    requires
        a <= b <= chars@.len(),
        i <= b - a,
    ensures
        r == occurs_at(chars@.subrange(a as int, b as int), p@, i as int),
{
    let r = has_prefix(chars, a + i, b, p);
    proof {
        let l = chars@.subrange(a as int, b as int);
        if p@.len() <= b - a - i {
            assert(chars@.subrange((a + i) as int, b as int).subrange(0, p@.len() as int)
                =~= l.subrange(i as int, i + p@.len()));
        }
    }
    r
}

/// The first offset of `p` in `chars[a..b]`.
pub fn find_in(chars: &Vec<char>, a: usize, b: usize, p: &str) -> (r: Option<usize>)
    requires
        a <= b <= chars@.len(),
    ensures
        match r {
            Some(i) => i + p@.len() <= b - a && find(chars@.subrange(a as int, b as int), p@)
                == i as int,
            None => find(chars@.subrange(a as int, b as int), p@) == -1 && !contains(
                chars@.subrange(a as int, b as int),
                p@,
            ),
        },
{
    let ghost l = chars@.subrange(a as int, b as int);
    let plen = p.unicode_len();
    if plen > b - a {
        assert forall|j: int| !occurs_at(l, p@, j) by {}
        return None;
    }
    let n = b - a - plen;
    let mut i: usize = 0;
    loop
        invariant
            a <= b <= chars@.len(),
            p@.len() <= b - a,
            n == b - a - p@.len(),
            l == chars@.subrange(a as int, b as int),
            i <= n,
            forall|j: int| 0 <= j < i ==> !occurs_at(l, p@, j),
        ensures
            forall|j: int| 0 <= j <= n ==> !occurs_at(l, p@, j),
        decreases n - i,
    {
        if occurs_here(chars, a, b, p, i) {
            proof {
                assert(first_occurrence(l, p@, i as int));
                let k = choose|k: int| first_occurrence(l, p@, k);
                assert(k == i as int);
            }
            return Some(i);
        }
        if i == n {
            break;
        }
        i = i + 1;
    }
    proof {
        assert forall|j: int| !occurs_at(l, p@, j) by {
            if occurs_at(l, p@, j) {
                assert(j <= b - a - p@.len());
            }
        }
    }
    None
}

/// Whether `p` occurs in `chars[a..b]`.
pub fn contains_in(chars: &Vec<char>, a: usize, b: usize, p: &str) -> (r: bool)
    requires
        a <= b <= chars@.len(),
    ensures
        r == contains(chars@.subrange(a as int, b as int), p@),
{
    let f = find_in(chars, a, b, p);
    f.is_some()
}

/// A name for what `str::to_lowercase` returns.
pub uninterp spec fn lower_of(s: Seq<char>) -> Seq<char>;

/// Relies on `str::to_lowercase`: the lower-case mapping of each character,
/// which depends on the characters alone.
#[verifier::external_body]
pub(crate) fn lowercase(s: &str) -> (r: String)
    ensures
        r@ == lower_of(s@),
{
    s.to_lowercase()
}

/// Whether `chars[a..b]` is exactly `w`.
pub fn equals_at(chars: &Vec<char>, a: usize, b: usize, w: &str) -> (r: bool)
    requires
        a <= b <= chars@.len(),
    ensures
        r == (chars@.subrange(a as int, b as int) == w@),
{
    let p = has_prefix(chars, a, b, w);
    if p && w.unicode_len() == b - a {
        assert(chars@.subrange(a as int, b as int) =~= chars@.subrange(a as int, b as int).subrange(0, w@.len() as int));
        true
    } else {
        proof {
            if chars@.subrange(a as int, b as int) == w@ {
                assert(chars@.subrange(a as int, b as int).subrange(0, w@.len() as int) =~= w@);
            }
        }
        false
    }
}

/// The first offset of `c` in `chars[a..b]`.
pub fn find_char(chars: &Vec<char>, a: usize, b: usize, c: char) -> (r: Option<usize>)
    requires
        a <= b <= chars@.len(),
    ensures
        match r {
            Some(i) => i < b - a && index_of(chars@.subrange(a as int, b as int), c) == i as int,
            None => index_of(chars@.subrange(a as int, b as int), c) == -1 && forall|j: int|
                0 <= j < b - a ==> #[trigger] chars@[a + j] != c,
        },
{
    let ghost l = chars@.subrange(a as int, b as int);
    let mut i: usize = 0;
    while i < b - a
        invariant
            a <= b <= chars@.len(),
            l == chars@.subrange(a as int, b as int),
            i <= b - a,
            forall|j: int| 0 <= j < i ==> l[j] != c,
        decreases b - a - i,
    {
        if chars[a + i] == c {
            proof {
                assert(first_char(l, c, i as int));
                let k = choose|k: int| first_char(l, c, k);
                assert(k == i as int);
            }
            return Some(i);
        }
        i = i + 1;
    }
    proof {
        assert forall|j: int| 0 <= j < b - a implies #[trigger] chars@[a + j] != c by {
            assert(l[j] == chars@[a + j]);
        }
    }
    None
}

} // verus!
