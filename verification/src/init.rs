//! Bootstrap helpers: the node address grammar, the discovery-service
//! peer list shape, and the bounded schedule for resolving the node's
//! own address.
//!
//! An address is accepted in exactly two forms: four 1-to-3-digit
//! groups separated by dots followed by a colon and a port (`IP:Port`),
//! or a URL-like name — an optional `http://` or `https://` scheme, a
//! host of letters, digits, dots and hyphens, a final dot, a top-level
//! label of at least two letters, and an optional `:port` suffix.

use vstd::prelude::*;
use crate::node::Node;
use crate::text::spec_has_prefix;
use crate::text::has_prefix;

verus! {

/// How often a failed address resolution may be retried.
pub const RESOLVE_MAX_ATTEMPTS: u64 = 5;

/// The delay grows by this many seconds with each failed attempt.
pub const RESOLVE_DELAY_STEP_SECS: u64 = 5;

/// The peer list as the discovery service serves it and the local
/// mirror file stores it.
pub struct NodeInfo {
    pub nodes: Vec<Node>,
}

/// What to do after one address-resolution attempt.
#[derive(Clone, Copy, Debug, PartialEq, Eq, Structural)]
pub enum ResolveStep {
    /// The address answered; resolution is done.
    Resolved,
    /// Wait this many seconds, then try again.
    RetryAfter(u64),
    /// Every attempt failed; give the address up.
    GiveUp,
}

/// Decide what follows resolution attempt number `attempt` (counted
/// from one): success resolves; a failure waits five seconds per
/// attempt already made, until the attempts are exhausted.
pub fn resolve_step(attempt: u64, ok: bool) -> (r: ResolveStep)
    requires
        1 <= attempt <= RESOLVE_MAX_ATTEMPTS,
    ensures
        ok ==> r == ResolveStep::Resolved,
        !ok && attempt < RESOLVE_MAX_ATTEMPTS ==> r == ResolveStep::RetryAfter(
            (RESOLVE_DELAY_STEP_SECS * attempt) as u64,
        ),
        !ok && attempt == RESOLVE_MAX_ATTEMPTS ==> r == ResolveStep::GiveUp,
{
    if ok {
        ResolveStep::Resolved
    } else if attempt < RESOLVE_MAX_ATTEMPTS {
        ResolveStep::RetryAfter(RESOLVE_DELAY_STEP_SECS * attempt)
    } else {
        ResolveStep::GiveUp
    }
}

/// A decimal digit.
pub open spec fn spec_is_digit(c: char) -> bool {
    48 <= c as u32 <= 57
}

/// An ASCII letter.
pub open spec fn spec_is_alpha(c: char) -> bool {
    (97 <= c as u32 <= 122) || (65 <= c as u32 <= 90)
}

/// A character allowed in the host part of a URL-like address.
pub open spec fn spec_is_host_char(c: char) -> bool {
    spec_is_alpha(c) || spec_is_digit(c) || c == '.' || c == '-'
}

/// `s` decomposes as `IP:Port` with dots at `d1 < d2 < d3`, the colon
/// at `co`, four digit groups of one to three digits, and a non-empty
/// all-digit port.
pub open spec fn spec_ip_port_shape(s: Seq<char>, d1: int, d2: int, d3: int, co: int) -> bool {
    &&& 0 < d1 < d2 < d3 < co < s.len() - 1
    &&& s[d1] == '.'
    &&& s[d2] == '.'
    &&& s[d3] == '.'
    &&& s[co] == ':'
    &&& 1 <= d1 <= 3
    &&& 1 <= d2 - d1 - 1 <= 3
    &&& 1 <= d3 - d2 - 1 <= 3
    &&& 1 <= co - d3 - 1 <= 3
    &&& forall|i: int| 0 <= i < co && i != d1 && i != d2 && i != d3 ==> spec_is_digit(s[i])
    &&& forall|i: int| co < i < s.len() ==> spec_is_digit(s[i])
}

/// `s` is an `IP:Port` address.
pub open spec fn spec_is_ip_port(s: Seq<char>) -> bool {
    exists|d1: int, d2: int, d3: int, co: int| spec_ip_port_shape(s, d1, d2, d3, co)
}

/// The body of a URL-like address (scheme already stripped): host
/// characters up to the last dot at `dot`, at least two letters from
/// there to `hend`, and, when `hend` is not the end, a colon and a
/// non-empty all-digit port.
pub open spec fn spec_url_shape(b: Seq<char>, dot: int, hend: int) -> bool {
    &&& 1 <= dot
    &&& dot + 3 <= hend <= b.len()
    &&& b[dot] == '.'
    &&& (forall|i: int| 0 <= i < dot ==> spec_is_host_char(b[i]))
    &&& (forall|i: int| dot < i < hend ==> spec_is_alpha(b[i]))
    &&& (hend < b.len() ==> b[hend] == ':' && hend + 1 < b.len())
    &&& (forall|i: int| hend < i < b.len() ==> spec_is_digit(b[i]))
}

/// The scheme-stripped body of `b` is URL-like.
pub open spec fn spec_url_body(b: Seq<char>) -> bool {
    exists|dot: int, hend: int| spec_url_shape(b, dot, hend)
}

/// `s` is a URL-like address: an optional scheme, then a URL body.
pub open spec fn spec_is_url(s: Seq<char>) -> bool {
    if spec_has_prefix(s, "https://"@) {
        spec_url_body(s.skip(8))
    } else if spec_has_prefix(s, "http://"@) {
        spec_url_body(s.skip(7))
    } else {
        spec_url_body(s)
    }
}

/// The first index at or after `from` that does not carry a digit (or
/// the string's end).
fn scan_digits(s: &str, from: usize) -> (end: usize)
    requires
        from <= s@.len(),
    ensures
        from <= end <= s@.len(),
        forall|i: int| from <= i < end ==> spec_is_digit(s@[i]),
        end < s@.len() ==> !spec_is_digit(s@[end as int]),
{
    let len = s.unicode_len();
    let mut end = from;
    while end < len
        invariant
            len == s@.len(),
            from <= end <= len,
            forall|i: int| from <= i < end ==> spec_is_digit(s@[i]),
        decreases len - end,
    {
        let c = s.get_char(end);
        if !(48 <= c as u32 && c as u32 <= 57) {
            return end;
        }
        end = end + 1;
    }
    end
}

/// A digit scan that stopped at `end` must have stopped exactly at a
/// known non-digit position `pos` whose left side is all digits.
proof fn lemma_scan_stops_at(s: Seq<char>, from: int, end: int, pos: int)
    requires
        from <= pos < s.len(),
        !spec_is_digit(s[pos]),
        forall|i: int| from <= i < pos ==> spec_is_digit(s[i]),
        from <= end <= s.len(),
        forall|i: int| from <= i < end ==> spec_is_digit(s[i]),
        end < s.len() ==> !spec_is_digit(s[end]),
    ensures
        end == pos,
{
    if end < pos {
        assert(spec_is_digit(s[end]));
    }
    if pos < end {
        assert(spec_is_digit(s[pos]));
    }
}

/// Whether `s` is an `IP:Port` address: four 1-to-3-digit groups
/// separated by dots, then a colon and at least one port digit. The
/// separator positions of any valid decomposition are forced — each is
/// the first non-digit at or after the previous group — so one
/// deterministic scan decides the grammar both ways.
pub fn is_ip_port(s: &str) -> (r: bool)
    ensures
        r == spec_is_ip_port(s@),
{
    proof {
        assert(!spec_is_digit('.'));
        assert(!spec_is_digit(':'));
    }
    let len = s.unicode_len();
    let e1 = scan_digits(s, 0);
    if e1 >= len || e1 < 1 || e1 > 3 || s.get_char(e1) != '.' {
        proof {
            if spec_is_ip_port(s@) {
                let (d1, d2, d3, co) = choose|d1: int, d2: int, d3: int, co: int|
                    spec_ip_port_shape(s@, d1, d2, d3, co);
                lemma_scan_stops_at(s@, 0, e1 as int, d1);
            }
        }
        return false;
    }
    let e2 = scan_digits(s, e1 + 1);
    if e2 >= len || e2 < e1 + 2 || e2 > e1 + 4 || s.get_char(e2) != '.' {
        proof {
            if spec_is_ip_port(s@) {
                let (d1, d2, d3, co) = choose|d1: int, d2: int, d3: int, co: int|
                    spec_ip_port_shape(s@, d1, d2, d3, co);
                lemma_scan_stops_at(s@, 0, e1 as int, d1);
                lemma_scan_stops_at(s@, d1 + 1, e2 as int, d2);
            }
        }
        return false;
    }
    let e3 = scan_digits(s, e2 + 1);
    if e3 >= len || e3 < e2 + 2 || e3 > e2 + 4 || s.get_char(e3) != '.' {
        proof {
            if spec_is_ip_port(s@) {
                let (d1, d2, d3, co) = choose|d1: int, d2: int, d3: int, co: int|
                    spec_ip_port_shape(s@, d1, d2, d3, co);
                lemma_scan_stops_at(s@, 0, e1 as int, d1);
                lemma_scan_stops_at(s@, d1 + 1, e2 as int, d2);
                lemma_scan_stops_at(s@, d2 + 1, e3 as int, d3);
            }
        }
        return false;
    }
    let e4 = scan_digits(s, e3 + 1);
    if e4 >= len || e4 < e3 + 2 || e4 > e3 + 4 || s.get_char(e4) != ':' {
        proof {
            if spec_is_ip_port(s@) {
                let (d1, d2, d3, co) = choose|d1: int, d2: int, d3: int, co: int|
                    spec_ip_port_shape(s@, d1, d2, d3, co);
                lemma_scan_stops_at(s@, 0, e1 as int, d1);
                lemma_scan_stops_at(s@, d1 + 1, e2 as int, d2);
                lemma_scan_stops_at(s@, d2 + 1, e3 as int, d3);
                lemma_scan_stops_at(s@, d3 + 1, e4 as int, co);
            }
        }
        return false;
    }
    let e5 = scan_digits(s, e4 + 1);
    if e5 == len && e5 > e4 + 1 {
        proof {
            assert forall|i: int|
                0 <= i < e4 && i != e1 && i != e2 && i != e3 implies spec_is_digit(s@[i]) by {}
            assert(spec_ip_port_shape(s@, e1 as int, e2 as int, e3 as int, e4 as int));
        }
        return true;
    }
    proof {
        if spec_is_ip_port(s@) {
            let (d1, d2, d3, co) = choose|d1: int, d2: int, d3: int, co: int|
                spec_ip_port_shape(s@, d1, d2, d3, co);
            lemma_scan_stops_at(s@, 0, e1 as int, d1);
            lemma_scan_stops_at(s@, d1 + 1, e2 as int, d2);
            lemma_scan_stops_at(s@, d2 + 1, e3 as int, d3);
            lemma_scan_stops_at(s@, d3 + 1, e4 as int, co);
            if e5 < len {
                assert(spec_is_digit(s@[e5 as int]));
            }
            assert(false);
        }
    }
    false
}

/// The first index at or after `from` carrying `target` (or the end).
fn scan_to_char(s: &str, from: usize, target: char) -> (pos: usize)
    requires
        from <= s@.len(),
    ensures
        from <= pos <= s@.len(),
        forall|i: int| from <= i < pos ==> s@[i] != target,
        pos < s@.len() ==> s@[pos as int] == target,
{
    let len = s.unicode_len();
    let mut pos = from;
    while pos < len
        invariant
            len == s@.len(),
            from <= pos <= len,
            forall|i: int| from <= i < pos ==> s@[i] != target,
        decreases len - pos,
    {
        if s.get_char(pos) == target {
            return pos;
        }
        pos = pos + 1;
    }
    pos
}

/// The last `.` strictly before `end`, if any.
fn last_dot_before(s: &str, end: usize) -> (r: Option<usize>)
    requires
        end <= s@.len(),
    ensures
        match r {
            Some(d) => d < end && s@[d as int] == '.' && (forall|i: int|
                d < i < end ==> s@[i] != '.'),
            None => forall|i: int| 0 <= i < end ==> s@[i] != '.',
        },
{
    let mut i = end;
    while i > 0
        invariant
            end <= s@.len(),
            i <= end,
            forall|j: int| i <= j < end ==> s@[j] != '.',
        decreases i,
    {
        i = i - 1;
        if s.get_char(i) == '.' {
            return Some(i);
        }
    }
    None
}

/// Whether every character of `s` in `[from, to)` is an ASCII letter.
fn all_alpha_in(s: &str, from: usize, to: usize) -> (r: bool)
    requires
        from <= to <= s@.len(),
    ensures
        r == (forall|i: int| from <= i < to ==> spec_is_alpha(s@[i])),
{
    let mut i = from;
    while i < to
        invariant
            from <= i <= to <= s@.len(),
            forall|j: int| from <= j < i ==> spec_is_alpha(s@[j]),
        decreases to - i,
    {
        let c = s.get_char(i);
        let u = c as u32;
        if !((97 <= u && u <= 122) || (65 <= u && u <= 90)) {
            return false;
        }
        i = i + 1;
    }
    true
}

/// Whether every character of `s` in `[from, to)` may stand in a host
/// name: a letter, a digit, a dot or a hyphen.
fn all_host_chars_in(s: &str, from: usize, to: usize) -> (r: bool)
    requires
        from <= to <= s@.len(),
    ensures
        r == (forall|i: int| from <= i < to ==> spec_is_host_char(s@[i])),
{
    let mut i = from;
    while i < to
        invariant
            from <= i <= to <= s@.len(),
            forall|j: int| from <= j < i ==> spec_is_host_char(s@[j]),
        decreases to - i,
    {
        let c = s.get_char(i);
        let u = c as u32;
        if !((97 <= u && u <= 122) || (65 <= u && u <= 90) || (48 <= u && u <= 57) || c == '.'
            || c == '-') {
            return false;
        }
        i = i + 1;
    }
    true
}

/// In any URL-body decomposition, the host's end is forced: it is the
/// first colon, or the end of the body when there is none.
proof fn lemma_url_hend_determined(b: Seq<char>, dot: int, hend: int, first_colon: int)
    requires
        spec_url_shape(b, dot, hend),
        0 <= first_colon <= b.len(),
        forall|i: int| 0 <= i < first_colon ==> b[i] != ':',
        first_colon < b.len() ==> b[first_colon] == ':',
    ensures
        hend == first_colon,
{
    assert(!spec_is_host_char(':'));
    assert(!spec_is_alpha(':'));
    assert(!spec_is_digit(':'));
    if hend < first_colon {
        assert(b[hend] == ':');
        assert(false);
    }
    if first_colon < hend {
        assert(b[first_colon] == ':');
        if first_colon < dot {
            assert(spec_is_host_char(b[first_colon]));
        } else if first_colon == dot {
            assert(b[dot] == '.');
        } else {
            assert(spec_is_alpha(b[first_colon]));
        }
        assert(false);
    }
}

/// In any URL-body decomposition, the host/label separator is forced:
/// it is the last dot before the host's end.
proof fn lemma_url_dot_determined(b: Seq<char>, dot: int, hend: int, last_dot: int)
    requires
        spec_url_shape(b, dot, hend),
        0 <= last_dot < hend,
        b[last_dot] == '.',
        forall|i: int| last_dot < i < hend ==> b[i] != '.',
    ensures
        dot == last_dot,
{
    assert(!spec_is_alpha('.'));
    if dot < last_dot {
        assert(spec_is_alpha(b[last_dot]));
        assert(false);
    }
    if last_dot < dot {
        assert(b[dot] == '.');
        assert(false);
    }
}

/// Whether the scheme-stripped body `b` is URL-like: host characters,
/// a last dot, a label of at least two letters, an optional all-digit
/// port. The host's end and the label's dot of any valid decomposition
/// are forced, so one deterministic scan decides the grammar both
/// ways.
fn is_url_body(b: &str) -> (r: bool)
    ensures
        r == spec_url_body(b@),
{
    let len = b.unicode_len();
    let hend = scan_to_char(b, 0, ':');
    if hend < len {
        let pend = scan_digits(b, hend + 1);
        if !(pend == len && hend + 1 < len) {
            proof {
                if spec_url_body(b@) {
                    let (dot, h) = choose|dot: int, h: int| spec_url_shape(b@, dot, h);
                    lemma_url_hend_determined(b@, dot, h, hend as int);
                    if pend < len {
                        assert(spec_is_digit(b@[pend as int]));
                    }
                    assert(false);
                }
            }
            return false;
        }
    }
    let dot_found = last_dot_before(b, hend);
    match dot_found {
        None => {
            proof {
                if spec_url_body(b@) {
                    let (dot, h) = choose|dot: int, h: int| spec_url_shape(b@, dot, h);
                    lemma_url_hend_determined(b@, dot, h, hend as int);
                    assert(b@[dot] == '.');
                    assert(false);
                }
            }
            false
        },
        Some(dot) => {
            if dot < 1 || hend - dot < 3 || !all_alpha_in(b, dot + 1, hend) || !all_host_chars_in(
                b,
                0,
                dot,
            ) {
                proof {
                    if spec_url_body(b@) {
                        let (d, h) = choose|d: int, h: int| spec_url_shape(b@, d, h);
                        lemma_url_hend_determined(b@, d, h, hend as int);
                        lemma_url_dot_determined(b@, d, h, dot as int);
                        assert(false);
                    }
                }
                return false;
            }
            proof {
                assert(spec_url_shape(b@, dot as int, hend as int));
            }
            true
        },
    }
}

/// Whether `s` is a URL-like address: an optional `http://` or
/// `https://` scheme, then a URL body.
pub fn is_url(s: &str) -> (r: bool)
    ensures
        r == spec_is_url(s@),
{
    let len = s.unicode_len();
    if has_prefix(s, "https://") {
        proof {
            reveal_strlit("https://");
        }
        let body = s.substring_char(8, len);
        proof {
            assert(body@ =~= s@.skip(8));
        }
        is_url_body(body)
    } else if has_prefix(s, "http://") {
        proof {
            reveal_strlit("http://");
        }
        let body = s.substring_char(7, len);
        proof {
            assert(body@ =~= s@.skip(7));
        }
        is_url_body(body)
    } else {
        is_url_body(s)
    }
}

/// Whether `input` is an acceptable node address: `IP:Port`, or a
/// URL-like name with an optional scheme and port.
pub fn validate_address(input: &str) -> (r: bool)
    ensures
        r == (spec_is_ip_port(input@) || spec_is_url(input@)),
{
    if is_ip_port(input) {
        true
    } else {
        is_url(input)
    }
}

} // verus!
