//! Character-level text helpers: whitespace classification, scanning,
//! trimming, string equality and substring search, all specified over
//! `Seq<char>` views.

use vstd::prelude::*;

verus! {

use vstd::string::StrSliceExecFns;

/// Whitespace as the trimming and field-splitting rules understand it:
/// the characters with the Unicode White_Space property.
pub open spec fn is_ws(c: char) -> bool {
    c == ' ' || c == '\t' || c == '\n' || c == '\r' || c == '\u{b}' || c == '\u{c}'
        || c == '\u{85}' || c == '\u{a0}' || c == '\u{1680}' || ('\u{2000}' <= c && c
        <= '\u{200a}') || c == '\u{2028}' || c == '\u{2029}' || c == '\u{202f}' || c == '\u{205f}'
        || c == '\u{3000}'
}

pub fn is_ws_char(c: char) -> (b: bool)
    ensures
        b == is_ws(c),
{
    c == ' ' || c == '\t' || c == '\n' || c == '\r' || c == '\u{b}' || c == '\u{c}'
        || c == '\u{85}' || c == '\u{a0}' || c == '\u{1680}' || ('\u{2000}' <= c && c
        <= '\u{200a}') || c == '\u{2028}' || c == '\u{2029}' || c == '\u{202f}' || c == '\u{205f}'
        || c == '\u{3000}'
}

/// Index of the first position at or after `from` whose character satisfies
/// `p`, or `s.len()` when no such position exists.
pub open spec fn scan_from(s: Seq<char>, from: int, p: spec_fn(char) -> bool) -> int
    decreases s.len() - from,
{
    if from < 0 || from >= s.len() {
        s.len() as int
    } else if p(s[from]) {
        from
    } else {
        scan_from(s, from + 1, p)
    }
}

/// What `scan_from` returns: a position in bounds, nothing before it
/// satisfies `p`, and the character there does unless the end was reached.
pub proof fn lemma_scan_from(s: Seq<char>, from: int, p: spec_fn(char) -> bool)
    requires
        0 <= from <= s.len(),
    ensures
        from <= scan_from(s, from, p) <= s.len(),
        forall|j: int| from <= j < scan_from(s, from, p) ==> !p(#[trigger] s[j]),
        scan_from(s, from, p) < s.len() ==> p(s[scan_from(s, from, p)]),
    decreases s.len() - from,
{
    if from < s.len() && !p(s[from]) {
        lemma_scan_from(s, from + 1, p);
    }
}

/// A position with those three properties is the one `scan_from` returns.
pub proof fn lemma_scan_from_pins(s: Seq<char>, from: int, p: spec_fn(char) -> bool, r: int)
    requires
        0 <= from <= r <= s.len(),
        forall|j: int| from <= j < r ==> !p(#[trigger] s[j]),
        r == s.len() || p(s[r]),
    ensures
        scan_from(s, from, p) == r,
    decreases r - from,
{
    if from < r {
        lemma_scan_from_pins(s, from + 1, p, r);
    }
}

/// First non-whitespace position at or after `from`.
pub open spec fn non_ws_from(s: Seq<char>, from: int) -> int {
    scan_from(s, from, |c: char| !is_ws(c))
}

/// First whitespace position at or after `from`.
pub open spec fn ws_from(s: Seq<char>, from: int) -> int {
    scan_from(s, from, |c: char| is_ws(c))
}

/// First newline at or after `from`.
pub open spec fn nl_from(s: Seq<char>, from: int) -> int {
    scan_from(s, from, |c: char| c == '\n')
}

/// First slash at or after `from`.
pub open spec fn slash_from(s: Seq<char>, from: int) -> int {
    scan_from(s, from, |c: char| c == '/')
}

pub fn find_non_ws(s: &str, from: usize) -> (r: usize)
    requires
        from <= s@.len(),
    ensures
        from <= r <= s@.len(),
        r as int == non_ws_from(s@, from as int),
{
    let n = s.unicode_len();
    let mut i: usize = from;
    while i < n && is_ws_char(s.get_char(i))
        invariant
            from <= i <= n,
            n == s@.len(),
            forall|j: int| from <= j < i ==> is_ws(#[trigger] s@[j]),
        decreases n - i,
    {
        i = i + 1;
    }
    proof {
        lemma_scan_from_pins(s@, from as int, |c: char| !is_ws(c), i as int);
    }
    i
}

pub fn find_ws(s: &str, from: usize) -> (r: usize)
    requires
        from <= s@.len(),
    ensures
        from <= r <= s@.len(),
        r as int == ws_from(s@, from as int),
{
    let n = s.unicode_len();
    let mut i: usize = from;
    while i < n && !is_ws_char(s.get_char(i))
        invariant
            from <= i <= n,
            n == s@.len(),
            forall|j: int| from <= j < i ==> !is_ws(#[trigger] s@[j]),
        decreases n - i,
    {
        i = i + 1;
    }
    proof {
        lemma_scan_from_pins(s@, from as int, |c: char| is_ws(c), i as int);
    }
    i
}

pub fn find_newline(s: &str, from: usize) -> (r: usize)
    requires
        from <= s@.len(),
    ensures
        from <= r <= s@.len(),
        r as int == nl_from(s@, from as int),
{
    let n = s.unicode_len();
    let mut i: usize = from;
    while i < n && s.get_char(i) != '\n'
        invariant
            from <= i <= n,
            n == s@.len(),
            forall|j: int| from <= j < i ==> #[trigger] s@[j] != '\n',
        decreases n - i,
    {
        i = i + 1;
    }
    proof {
        lemma_scan_from_pins(s@, from as int, |c: char| c == '\n', i as int);
    }
    i
}

pub fn find_slash(s: &str, from: usize) -> (r: usize)
    requires
        from <= s@.len(),
    ensures
        from <= r <= s@.len(),
        r as int == slash_from(s@, from as int),
{
    let n = s.unicode_len();
    let mut i: usize = from;
    while i < n && s.get_char(i) != '/'
        invariant
            from <= i <= n,
            n == s@.len(),
            forall|j: int| from <= j < i ==> #[trigger] s@[j] != '/',
        decreases n - i,
    {
        i = i + 1;
    }
    proof {
        lemma_scan_from_pins(s@, from as int, |c: char| c == '/', i as int);
    }
    i
}

/// End of the content once trailing whitespace is dropped: the index one
/// past the last non-whitespace character, or zero when there is none.
pub open spec fn last_non_ws_end(s: Seq<char>) -> int
    decreases s.len(),
{
    if s.len() == 0 {
        0
    } else if is_ws(s[s.len() - 1]) {
        last_non_ws_end(s.drop_last())
    } else {
        s.len() as int
    }
}

/// A bound below which everything trailing is whitespace, whose last
/// character is not, is where `last_non_ws_end` lands.
pub proof fn lemma_last_end_pins(s: Seq<char>, r: int)
    requires
        0 <= r <= s.len(),
        forall|j: int| r <= j < s.len() ==> is_ws(#[trigger] s[j]),
        r == 0 || !is_ws(s[r - 1]),
    ensures
        last_non_ws_end(s) == r,
    decreases s.len(),
{
    if r < s.len() {
        assert(is_ws(s[s.len() - 1]));
        assert(forall|j: int| r <= j < s.drop_last().len() ==> is_ws(#[trigger] s.drop_last()[j]));
        if r > 0 {
            assert(s.drop_last()[r - 1] == s[r - 1]);
        }
        lemma_last_end_pins(s.drop_last(), r);
    }
}

/// The input with leading and trailing whitespace removed.
pub open spec fn trim_spec(s: Seq<char>) -> Seq<char> {
    if non_ws_from(s, 0) == s.len() {
        Seq::empty()
    } else {
        s.subrange(non_ws_from(s, 0), last_non_ws_end(s))
    }
}

pub fn trim_str(s: &str) -> (r: String)
    ensures
        r@ == trim_spec(s@),
{
    let n = s.unicode_len();
    let a = find_non_ws(s, 0);
    if a == n {
        return String::new();
    }
    proof {
        lemma_scan_from(s@, 0, |c: char| !is_ws(c));
    }
    let mut b: usize = n;
    while is_ws_char(s.get_char(b - 1))
        invariant
            a < b <= n,
            n == s@.len(),
            !is_ws(s@[a as int]),
            forall|j: int| b <= j < n ==> is_ws(#[trigger] s@[j]),
        decreases b,
    {
        b = b - 1;
    }
    proof {
        lemma_last_end_pins(s@, b as int);
    }
    let r = s.substring_char(a, b);
    r.to_owned()
}

/// `p` occurs somewhere in `s` as a contiguous run.
pub open spec fn contains_seq(s: Seq<char>, p: Seq<char>) -> bool {
    exists|i: int|
        0 <= i && i + p.len() <= s.len() && #[trigger] s.subrange(i, i + p.len() as int) == p
}

pub fn str_eq(a: &str, b: &str) -> (r: bool)
    ensures
        r == (a@ == b@),
{
    let an = a.unicode_len();
    let bn = b.unicode_len();
    if an != bn {
        return false;
    }
    let mut i: usize = 0;
    while i < an
        invariant
            i <= an,
            an == a@.len(),
            bn == b@.len(),
            an == bn,
            forall|j: int| 0 <= j < i ==> a@[j] == b@[j],
        decreases an - i,
    {
        if a.get_char(i) != b.get_char(i) {
            return false;
        }
        i = i + 1;
    }
    proof {
        assert(a@ =~= b@);
    }
    true
}

fn match_at(s: &str, p: &str, at: usize) -> (r: bool)
    requires
        at + p@.len() <= s@.len(),
    ensures
        r == (s@.subrange(at as int, at + p@.len()) == p@),
{
    let sn = s.unicode_len();
    let pn = p.unicode_len();
    let mut j: usize = 0;
    while j < pn
        invariant
            j <= pn,
            pn == p@.len(),
            sn == s@.len(),
            at + pn <= sn,
            forall|k: int| 0 <= k < j ==> s@[at + k] == p@[k],
        decreases pn - j,
    {
        if s.get_char(at + j) != p.get_char(j) {
            proof {
                assert(s@.subrange(at as int, at + p@.len())[j as int] == s@[at + j]);
            }
            return false;
        }
        j = j + 1;
    }
    proof {
        assert(s@.subrange(at as int, at + p@.len()) =~= p@);
    }
    true
}

pub fn contains_str(s: &str, p: &str) -> (r: bool)
    ensures
        r == contains_seq(s@, p@),
{
    let sn = s.unicode_len();
    let pn = p.unicode_len();
    if pn > sn {
        return false;
    }
    if pn == 0 {
        proof {
            assert(s@.subrange(0, 0 + p@.len() as int) =~= p@);
        }
        return true;
    }
    let mut i: usize = 0;
    while i <= sn - pn
        invariant
            i <= sn - pn + 1,
            0 < pn <= sn,
            sn == s@.len(),
            pn == p@.len(),
            forall|k: int| 0 <= k < i ==> #[trigger] s@.subrange(k, k + p@.len()) != p@,
        decreases sn - i,
    {
        if match_at(s, p, i) {
            return true;
        }
        i = i + 1;
    }
    false
}

} // verus!
