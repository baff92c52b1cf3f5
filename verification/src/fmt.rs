//! Decimal rendering of unsigned numbers, for error messages.

use vstd::prelude::*;
use vstd::string::{StringExecFns, StrSliceExecFns};

verus! {

/// The character for one decimal digit.
pub open spec fn dec_digit(d: int) -> char {
    if d == 0 {
        '0'
    } else if d == 1 {
        '1'
    } else if d == 2 {
        '2'
    } else if d == 3 {
        '3'
    } else if d == 4 {
        '4'
    } else if d == 5 {
        '5'
    } else if d == 6 {
        '6'
    } else if d == 7 {
        '7'
    } else if d == 8 {
        '8'
    } else {
        '9'
    }
}

/// The decimal rendering of `n`, most significant digit first.
pub open spec fn dec_str(n: nat) -> Seq<char>
    decreases n,
{
    if n < 10 {
        seq![dec_digit(n as int)]
    } else {
        dec_str(n / 10) + seq![dec_digit((n % 10) as int)]
    }
}

fn digit_str(d: u128) -> (r: &'static str)
    requires
        d < 10,
    ensures
        r@ == seq![dec_digit(d as int)],
{
    proof {
        reveal_strlit("0");
        reveal_strlit("1");
        reveal_strlit("2");
        reveal_strlit("3");
        reveal_strlit("4");
        reveal_strlit("5");
        reveal_strlit("6");
        reveal_strlit("7");
        reveal_strlit("8");
        reveal_strlit("9");
    }
    let r: &'static str = match d {
        0 => "0",
        1 => "1",
        2 => "2",
        3 => "3",
        4 => "4",
        5 => "5",
        6 => "6",
        7 => "7",
        8 => "8",
        _ => "9",
    };
    proof {
        assert(r@ =~= seq![dec_digit(d as int)]);
    }
    r
}

/// Appends the decimal rendering of `n` to `s`.
pub fn push_u128(s: &mut String, n: u128)
    ensures
        final(s)@ == old(s)@ + dec_str(n as nat),
    decreases n,
{
    if n >= 10 {
        push_u128(s, n / 10);
    }
    let d = digit_str(n % 10);
    s.append(d);
    proof {
        assert(s@ =~= old(s)@ + dec_str(n as nat));
    }
}

/// The decimal rendering of `n` as a fresh string.
pub fn u128_string(n: u128) -> (r: String)
    ensures
        r@ == dec_str(n as nat),
{
    let mut s = String::new();
    push_u128(&mut s, n);
    proof {
        assert(s@ =~= dec_str(n as nat));
    }
    s
}

/// Whether `needle` occurs somewhere in `haystack`.
pub open spec fn contains_seq(haystack: Seq<char>, needle: Seq<char>) -> bool {
    exists|i: int|
        0 <= i && i + needle.len() <= haystack.len() && #[trigger] haystack.subrange(
            i,
            i + needle.len(),
        ) == needle
}

fn matches_at(h: &str, n: &str, i: usize) -> (r: bool)
    requires
        i + n@.len() <= h@.len(),
        h@.len() <= usize::MAX,
    ensures
        r == (h@.subrange(i as int, i as int + n@.len()) == n@),
{
    let nl = n.unicode_len();
    let mut j: usize = 0;
    while j < nl
        invariant
            h@.len() <= usize::MAX,
            nl == n@.len(),
            i + nl <= h@.len(),
            j <= nl,
            forall|k: int| 0 <= k < j ==> h@[i + k] == n@[k],
        decreases nl - j,
    {
        if h.get_char(i + j) != n.get_char(j) {
            proof {
                assert(h@.subrange(i as int, i as int + n@.len())[j as int] != n@[j as int]);
            }
            return false;
        }
        j = j + 1;
    }
    proof {
        assert(h@.subrange(i as int, i as int + n@.len()) =~= n@);
    }
    true
}

/// Whether `needle` occurs somewhere in `haystack`.
pub fn str_contains(haystack: &String, needle: &str) -> (r: bool)
    ensures
        r == contains_seq(haystack@, needle@),
{
    let h = haystack.as_str();
    let hl = h.unicode_len();
    let nl = needle.unicode_len();
    if nl > hl {
        return false;
    }
    if nl == 0 {
        proof {
            assert(haystack@.subrange(0, 0 + needle@.len() as int) =~= needle@);
            assert(contains_seq(haystack@, needle@));
        }
        return true;
    }
    let mut i: usize = 0;
    while i <= hl - nl
        invariant
            h@ == haystack@,
            hl == haystack@.len(),
            nl == needle@.len(),
            1 <= nl <= hl,
            i <= hl - nl + 1,
            forall|k: int|
                0 <= k < i ==> #[trigger] haystack@.subrange(k, k + needle@.len()) != needle@,
        decreases hl - nl + 1 - i,
    {
        if matches_at(h, needle, i) {
            return true;
        }
        i = i + 1;
    }
    false
}

} // verus!
