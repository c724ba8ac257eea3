//! The IP probe: scans the captured output of the host's address-listing
//! utility line by line and returns the first non-loopback address, with any
//! `/prefix` suffix removed.

use vstd::prelude::*;

verus! {

use vstd::string::StrSliceExecFns;
use crate::text::contains_seq;
use crate::text::contains_str;
use crate::text::find_newline;
use crate::text::find_non_ws;
use crate::text::find_slash;
use crate::text::find_ws;
use crate::text::lemma_scan_from;
use crate::text::nl_from;
use crate::text::non_ws_from;
use crate::text::slash_from;
use crate::text::ws_from;

/// A line is an address line of interest: it mentions `inet` and neither
/// loopback literal.
pub open spec fn line_matches(l: Seq<char>) -> bool {
    contains_seq(l, "inet"@) && !contains_seq(l, "127.0.0.1"@) && !contains_seq(l, "::1"@)
}

/// The second whitespace-delimited field of a line, if the line has one.
pub open spec fn second_field(l: Seq<char>) -> Option<Seq<char>> {
    let a = non_ws_from(l, 0);
    let b = ws_from(l, a);
    let c = non_ws_from(l, b);
    if c < l.len() {
        Some(l.subrange(c, ws_from(l, c)))
    } else {
        None
    }
}

/// Everything before the first `/`, or the whole text when it has none.
pub open spec fn before_slash(t: Seq<char>) -> Seq<char> {
    t.subrange(0, slash_from(t, 0))
}

/// The address a single line contributes: the second field of a matching
/// line, stripped of its prefix length. `None` when the line does not match
/// or has no second field.
pub open spec fn line_yield(l: Seq<char>) -> Option<Seq<char>> {
    match second_field(l) {
        Some(f) => if line_matches(l) {
            Some(before_slash(f))
        } else {
            None
        },
        None => None,
    }
}

/// The text split at newlines. Empty text is one empty line; a trailing
/// newline yields a final empty line, which never matches.
pub open spec fn lines_of(s: Seq<char>) -> Seq<Seq<char>>
    decreases s.len(),
    via lines_of_dec
{
    let j = nl_from(s, 0);
    if j == s.len() {
        seq![s]
    } else {
        seq![s.subrange(0, j)] + lines_of(s.subrange(j + 1, s.len() as int))
    }
}

#[via_fn]
proof fn lines_of_dec(s: Seq<char>) {
    lemma_scan_from(s, 0, |c: char| c == '\n');
}

/// The probe's answer over a sequence of lines: what the first line that
/// yields an address yields, or `None` when no line does.
pub open spec fn probe_lines(ls: Seq<Seq<char>>) -> Option<Seq<char>>
    decreases ls.len(),
{
    if ls.len() == 0 {
        None
    } else {
        match line_yield(ls[0]) {
            Some(ip) => Some(ip),
            None => probe_lines(ls.drop_first()),
        }
    }
}

/// The probe's answer over the raw captured output.
pub open spec fn probe_of(s: Seq<char>) -> Option<Seq<char>> {
    probe_lines(lines_of(s))
}

/// Peeling one line off the front of the line sequence.
proof fn lemma_probe_cons(a: Seq<char>, tail: Seq<Seq<char>>)
    ensures
        probe_lines(seq![a] + tail) == (match line_yield(a) {
            Some(ip) => Some(ip),
            None => probe_lines(tail),
        }),
{
    let ls = seq![a] + tail;
    assert(ls[0] == a);
    assert(ls.drop_first() =~= tail);
}

/// When some line yields an address, the probe returns exactly what the
/// first such line yields: earlier lines have no say, later lines none
/// either.
pub proof fn lemma_probe_first_yield(ls: Seq<Seq<char>>, i: int)
    requires
        0 <= i < ls.len(),
        line_yield(ls[i]) is Some,
        forall|j: int| 0 <= j < i ==> line_yield(#[trigger] ls[j]) is None,
    ensures
        probe_lines(ls) == line_yield(ls[i]),
    decreases i,
{
    if i > 0 {
        assert(line_yield(ls[0]) is None);
        lemma_probe_first_yield(ls.drop_first(), i - 1);
        assert(ls.drop_first()[i - 1] == ls[i]);
    }
}

/// The probe succeeds exactly when some line yields an address.
pub proof fn lemma_probe_some_iff(ls: Seq<Seq<char>>)
    ensures
        probe_lines(ls) is Some <==> exists|j: int|
            0 <= j < ls.len() && line_yield(#[trigger] ls[j]) is Some,
    decreases ls.len(),
{
    if ls.len() > 0 {
        let tail = ls.drop_first();
        lemma_probe_some_iff(tail);
        if line_yield(ls[0]) is None {
            if probe_lines(tail) is Some {
                let j = choose|j: int|
                    0 <= j < tail.len() && line_yield(#[trigger] tail[j]) is Some;
                assert(line_yield(ls[j + 1]) is Some);
            }
            if exists|j: int| 0 <= j < ls.len() && line_yield(#[trigger] ls[j]) is Some {
                let j = choose|j: int| 0 <= j < ls.len() && line_yield(#[trigger] ls[j]) is Some;
                assert(line_yield(tail[j - 1]) is Some);
            }
        }
    }
}

/// When no line yields an address, the probe reports none.
pub proof fn lemma_probe_no_yield(ls: Seq<Seq<char>>)
    requires
        forall|j: int| 0 <= j < ls.len() ==> line_yield(#[trigger] ls[j]) is None,
    ensures
        probe_lines(ls) is None,
    decreases ls.len(),
{
    if ls.len() > 0 {
        lemma_probe_no_yield(ls.drop_first());
    }
}

/// The address a single line contributes, if any.
fn line_yields(line: &str) -> (r: Option<String>)
    ensures
        match r {
            Some(ip) => line_yield(line@) == Some(ip@),
            None => line_yield(line@) is None,
        },
{
    let matches = contains_str(line, "inet") && !contains_str(line, "127.0.0.1")
        && !contains_str(line, "::1");
    if !matches {
        return None;
    }
    let n = line.unicode_len();
    let a = find_non_ws(line, 0);
    let b = find_ws(line, a);
    let c = find_non_ws(line, b);
    if c == n {
        return None;
    }
    let d = find_ws(line, c);
    let field = line.substring_char(c, d);
    let e = find_slash(field, 0);
    let ip = field.substring_char(0, e);
    Some(ip.to_owned())
}

/// Scans the captured address listing and returns the first non-loopback
/// address with any `/prefix` suffix removed, or `None` when every line is
/// loopback or no address line is present.
pub fn extract_ip(listing: &str) -> (r: Option<String>)
    ensures
        match r {
            Some(ip) => probe_of(listing@) == Some(ip@),
            None => probe_of(listing@) is None,
        },
{
    let mut rest: &str = listing;
    loop
        invariant
            probe_of(listing@) == probe_of(rest@),
        decreases rest@.len(),
    {
        let n = rest.unicode_len();
        let j = find_newline(rest, 0);
        if j == n {
            proof {
                assert(lines_of(rest@) == seq![rest@]);
            }
            let y = line_yields(rest);
            proof {
                assert(seq![rest@].drop_first() =~= Seq::<Seq<char>>::empty());
                assert(probe_lines(Seq::<Seq<char>>::empty()) is None);
            }
            return y;
        }
        let line = rest.substring_char(0, j);
        let tail = rest.substring_char(j + 1, n);
        proof {
            assert(lines_of(rest@) == seq![line@] + lines_of(tail@));
            lemma_probe_cons(line@, lines_of(tail@));
        }
        if let Some(ip) = line_yields(line) {
            return Some(ip);
        }
        rest = tail;
    }
}

} // verus!
