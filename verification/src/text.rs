//! Fixed-length text fields: null-padded ASCII byte regions.
//!
//! The format pads text fields with embedded zero bytes. A field's content is
//! the bytes before the first zero, with surrounding whitespace removed.

use vstd::prelude::*;
use vstd::slice::slice_subrange;

verus! {

/// Whitespace bytes removed from the ends of a text field.
pub open spec fn is_ws(b: u8) -> bool {
    b == 0x20 || b == 0x09 || b == 0x0a || b == 0x0b || b == 0x0c || b == 0x0d
}

/// Index of the first zero byte of `s`, or `s.len()` if there is none.
pub open spec fn first_nul(s: Seq<u8>) -> int
    decreases s.len(),
{
    if s.len() == 0 {
        0
    } else if s[0] == 0 {
        0
    } else {
        1 + first_nul(s.drop_first())
    }
}

/// Number of leading whitespace bytes of `s`.
pub open spec fn ws_prefix(s: Seq<u8>) -> int
    decreases s.len(),
{
    if s.len() == 0 {
        0
    } else if !is_ws(s[0]) {
        0
    } else {
        1 + ws_prefix(s.drop_first())
    }
}

/// Number of trailing whitespace bytes of `s`.
pub open spec fn ws_suffix(s: Seq<u8>) -> int
    decreases s.len(),
{
    if s.len() == 0 {
        0
    } else if !is_ws(s[s.len() - 1]) {
        0
    } else {
        1 + ws_suffix(s.drop_last())
    }
}

/// The content of a text field: the bytes before the first zero byte, with
/// leading and trailing whitespace removed.
pub open spec fn field_text(s: Seq<u8>) -> Seq<u8> {
    let c = s.take(first_nul(s));
    if ws_prefix(c) == c.len() {
        Seq::empty()
    } else {
        c.subrange(ws_prefix(c), c.len() - ws_suffix(c))
    }
}

pub proof fn lemma_first_nul(s: Seq<u8>)
    ensures
        0 <= first_nul(s) <= s.len(),
        forall|j: int| 0 <= j < first_nul(s) ==> s[j] != 0,
        first_nul(s) < s.len() ==> s[first_nul(s)] == 0,
    decreases s.len(),
{
    if s.len() != 0 && s[0] != 0 {
        lemma_first_nul(s.drop_first());
        assert forall|j: int| 0 <= j < first_nul(s) implies s[j] != 0 by {
            if j > 0 {
                assert(s.drop_first()[j - 1] != 0);
            }
        }
    }
}

pub proof fn lemma_ws_prefix(s: Seq<u8>)
    ensures
        0 <= ws_prefix(s) <= s.len(),
        forall|j: int| 0 <= j < ws_prefix(s) ==> is_ws(s[j]),
        ws_prefix(s) < s.len() ==> !is_ws(s[ws_prefix(s)]),
    decreases s.len(),
{
    if s.len() != 0 && is_ws(s[0]) {
        lemma_ws_prefix(s.drop_first());
        assert forall|j: int| 0 <= j < ws_prefix(s) implies is_ws(s[j]) by {
            if j > 0 {
                assert(is_ws(s.drop_first()[j - 1]));
            }
        }
    }
}

pub proof fn lemma_ws_suffix(s: Seq<u8>)
    ensures
        0 <= ws_suffix(s) <= s.len(),
        forall|j: int| s.len() - ws_suffix(s) <= j < s.len() ==> is_ws(s[j]),
        ws_suffix(s) < s.len() ==> !is_ws(s[s.len() - ws_suffix(s) - 1]),
    decreases s.len(),
{
    if s.len() != 0 && is_ws(s[s.len() - 1]) {
        lemma_ws_suffix(s.drop_last());
        assert forall|j: int| s.len() - ws_suffix(s) <= j < s.len() implies is_ws(s[j]) by {
            if j < s.len() - 1 {
                assert(is_ws(s.drop_last()[j]));
            }
        }
    }
}

/// When a non-whitespace byte exists before the first zero, the leading and
/// trailing whitespace runs cannot overlap.
pub proof fn lemma_trim_bounds(c: Seq<u8>)
    requires
        ws_prefix(c) < c.len(),
    ensures
        0 <= ws_prefix(c),
        ws_prefix(c) + ws_suffix(c) < c.len(),
{
    lemma_ws_prefix(c);
    lemma_ws_suffix(c);
    if ws_prefix(c) + ws_suffix(c) >= c.len() {
        // The byte just past the whitespace prefix would also lie in the
        // trailing whitespace run, contradicting both characterizations.
        assert(is_ws(c[ws_prefix(c)]));
    }
}

/// Executable twin of [`is_ws`].
pub fn is_ws_byte(b: u8) -> (r: bool)
    ensures
        r == is_ws(b),
{
    b == 0x20 || b == 0x09 || b == 0x0a || b == 0x0b || b == 0x0c || b == 0x0d
}

/// Extracts the content of the text field `s[start..start + len]`: bytes up
/// to the first zero, then trimmed of surrounding whitespace.
pub fn trim_field(s: &[u8], start: usize, len: usize) -> (r: Vec<u8>)
    requires
        start + len <= s@.len(),
    ensures
        r@ == field_text(s@.subrange(start as int, start + len)),
{
    let total: usize = s.len();
    let field: &[u8] = slice_subrange(s, start, start + len);
    let ghost f = field@;
    // Locate the first zero byte.
    let mut nul: usize = 0;
    while nul < len && field[nul] != 0
        invariant
            f == field@,
            f.len() == len,
            0 <= nul <= len,
            forall|j: int| 0 <= j < nul ==> f[j] != 0,
        decreases len - nul,
    {
        nul = nul + 1;
    }
    proof {
        lemma_first_nul(f);
        if first_nul(f) < nul {
            assert(f[first_nul(f)] == 0);
        }
        if first_nul(f) > nul {
            assert(nul < f.len());
        }
        assert(first_nul(f) == nul);
    }
    let ghost c = f.take(first_nul(f));
    // Skip leading whitespace.
    let mut lo: usize = 0;
    while lo < nul && is_ws_byte(field[lo])
        invariant
            f == field@,
            f.len() == len,
            0 <= lo <= nul <= len,
            c == f.take(nul as int),
            forall|j: int| 0 <= j < lo ==> is_ws(c[j]),
        decreases nul - lo,
    {
        lo = lo + 1;
    }
    proof {
        lemma_ws_prefix(c);
        if lo < nul {
            assert(!is_ws(c[lo as int]));
        }
        if ws_prefix(c) < lo {
            assert(is_ws(c[ws_prefix(c)]));
        }
        assert(ws_prefix(c) == lo);
    }
    if lo == nul {
        let r: Vec<u8> = Vec::new();
        proof {
            assert(field_text(f) =~= r@);
        }
        return r;
    }
    // Skip trailing whitespace.
    let mut hi: usize = nul;
    while hi > lo && is_ws_byte(field[hi - 1])
        invariant
            f == field@,
            f.len() == len,
            0 <= lo < nul <= len,
            lo <= hi <= nul,
            c == f.take(nul as int),
            ws_prefix(c) == lo,
            forall|j: int| hi <= j < nul ==> is_ws(c[j]),
        decreases hi,
    {
        hi = hi - 1;
    }
    proof {
        lemma_ws_suffix(c);
        lemma_trim_bounds(c);
        if hi == lo {
            // Exiting here would mean every byte from `lo` on is whitespace,
            // although `lo` is the whitespace prefix's first non-space byte.
            assert(is_ws(c[lo as int]));
            assert(!is_ws(c[ws_prefix(c)]));
        }
        if hi > lo {
            assert(!is_ws(c[hi - 1]));
        }
        if ws_suffix(c) < nul - hi {
            assert(is_ws(c[c.len() - ws_suffix(c) - 1]));
        }
        if ws_suffix(c) > nul - hi {
            assert(is_ws(c[hi - 1]));
        }
        assert(ws_suffix(c) == nul - hi);
    }
    let mut r: Vec<u8> = Vec::new();
    let mut i: usize = lo;
    while i < hi
        invariant
            f == field@,
            f.len() == len,
            lo <= i <= hi <= len,
            r@ == f.subrange(lo as int, i as int),
        decreases hi - i,
    {
        r.push(field[i]);
        i = i + 1;
    }
    proof {
        assert(field_text(f) =~= r@);
    }
    r
}

} // verus!
