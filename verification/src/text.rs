//! Verified text helpers: character-level string comparison, prefix and
//! suffix handling, and decimal rendering of integers. These back the
//! URL derivation and storage-key logic of the node.

use vstd::prelude::*;

verus! {

/// Relies on `String::push`: appends one character to the string.
#[verifier::external_body]
pub fn push_char(s: &mut String, c: char)
    ensures
        final(s)@ == old(s)@.push(c),
{
    s.push(c);
}

/// Character-by-character string equality.
pub fn str_eq(a: &str, b: &str) -> (r: bool)
    ensures
        r == (a@ == b@),
{
    let alen = a.unicode_len();
    let blen = b.unicode_len();
    if alen != blen {
        return false;
    }
    let mut i: usize = 0;
    while i < alen
        invariant
            alen == a@.len(),
            alen == b@.len(),
            i <= alen,
            forall|j: int| 0 <= j < i ==> a@[j] == b@[j],
        decreases alen - i,
    {
        if a.get_char(i) != b.get_char(i) {
            return false;
        }
        i = i + 1;
    }
    proof {
        assert(a@ =~= b@);
    }
    true
}

/// `p` is a prefix of `s`.
pub open spec fn spec_has_prefix(s: Seq<char>, p: Seq<char>) -> bool {
    p.len() <= s.len() && s.subrange(0, p.len() as int) == p
}

/// Whether `s` starts with `p`, compared character by character.
pub fn has_prefix(s: &str, p: &str) -> (r: bool)
    ensures
        r == spec_has_prefix(s@, p@),
{
    let plen = p.unicode_len();
    let slen = s.unicode_len();
    if plen > slen {
        return false;
    }
    let mut i: usize = 0;
    while i < plen
        invariant
            plen == p@.len(),
            slen == s@.len(),
            plen <= slen,
            i <= plen,
            forall|j: int| 0 <= j < i ==> s@[j] == p@[j],
        decreases plen - i,
    {
        if s.get_char(i) != p.get_char(i) {
            proof {
                assert(s@.subrange(0, p@.len() as int)[i as int] == s@[i as int]);
            }
            return false;
        }
        i = i + 1;
    }
    proof {
        assert(s@.subrange(0, p@.len() as int) =~= p@);
    }
    true
}

/// The length of `s` once trailing `/` characters are dropped.
pub open spec fn spec_trimmed_len(s: Seq<char>, upto: int) -> int
    decreases upto,
{
    if upto <= 0 {
        0
    } else if s[upto - 1] == '/' {
        spec_trimmed_len(s, upto - 1)
    } else {
        upto
    }
}

/// `s` with trailing `/` characters removed.
pub open spec fn spec_trim_end_slashes(s: Seq<char>) -> Seq<char> {
    s.subrange(0, spec_trimmed_len(s, s.len() as int))
}

/// Copy of `s` with every trailing `/` removed.
pub fn trim_end_slashes(s: &str) -> (r: String)
    ensures
        r@ == spec_trim_end_slashes(s@),
{
    let len = s.unicode_len();
    let mut end: usize = len;
    while end > 0 && s.get_char(end - 1) == '/'
        invariant
            len == s@.len(),
            end <= len,
            spec_trimmed_len(s@, len as int) == spec_trimmed_len(s@, end as int),
        decreases end,
    {
        end = end - 1;
    }
    let mut r = String::new();
    let mut i: usize = 0;
    while i < end
        invariant
            len == s@.len(),
            end <= len,
            i <= end,
            r@ =~= s@.subrange(0, i as int),
        decreases end - i,
    {
        let c = s.get_char(i);
        push_char(&mut r, c);
        proof {
            assert(r@ =~= s@.subrange(0, i + 1));
        }
        i = i + 1;
    }
    proof {
        if end > 0 {
            assert(spec_trimmed_len(s@, end as int) == end as int);
        }
        assert(r@ =~= spec_trim_end_slashes(s@));
    }
    r
}

/// The decimal digit character for `d`.
pub open spec fn spec_digit_char(d: nat) -> char
    recommends
        d < 10,
{
    ((48 + d) as u8) as char
}

/// The decimal rendering of `n`, most significant digit first.
pub open spec fn spec_u64_decimal(n: nat) -> Seq<char>
    decreases n,
{
    if n < 10 {
        seq![spec_digit_char(n)]
    } else {
        spec_u64_decimal(n / 10).push(spec_digit_char(n % 10))
    }
}

/// Render `n` in decimal; a payload's numeric secret is stringified
/// this way to form its storage key.
pub fn u64_to_string(n: u64) -> (r: String)
    ensures
        r@ == spec_u64_decimal(n as nat),
{
    let mut digits: Vec<char> = Vec::new();
    let mut m: u64 = n;
    loop
        invariant_except_break
            spec_u64_decimal(n as nat) == spec_u64_decimal(m as nat) + digits@,
        ensures
            spec_u64_decimal(n as nat) == digits@,
        decreases m,
    {
        let d: u64 = m % 10;
        let c: char = (48 + d as u8) as char;
        proof {
            assert(c == spec_digit_char((m % 10) as nat));
            if m >= 10 {
                assert(spec_u64_decimal((m / 10) as nat).push(c) + digits@
                    =~= spec_u64_decimal((m / 10) as nat) + (seq![c] + digits@));
            } else {
                assert(seq![c] + digits@ =~= spec_u64_decimal(m as nat) + digits@);
            }
        }
        digits.insert(0, c);
        if m < 10 {
            break;
        }
        m = m / 10;
    }
    let mut r = String::new();
    let mut i: usize = 0;
    while i < digits.len()
        invariant
            r@ =~= digits@.subrange(0, i as int),
            i <= digits@.len(),
            spec_u64_decimal(n as nat) == digits@,
        decreases digits@.len() - i,
    {
        push_char(&mut r, digits[i]);
        proof {
            assert(r@ =~= digits@.subrange(0, i + 1));
        }
        i = i + 1;
    }
    proof {
        assert(r@ =~= digits@);
    }
    r
}

} // verus!
