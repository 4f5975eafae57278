//! Verified text utilities: byte-level ASCII trimming, NUL splitting,
//! substring search over character sequences, and the lossy UTF-8 decoding
//! relied on for presenting tool output as text.

use vstd::prelude::*;
use vstd::slice::{slice_index_get, slice_subrange};

verus! {

/// The ASCII whitespace bytes: space, tab, line feed, form feed, carriage
/// return.
pub open spec fn spec_is_ascii_ws(b: u8) -> bool {
    b == 32 || b == 9 || b == 10 || b == 12 || b == 13
}

pub fn is_ascii_ws(b: u8) -> (r: bool)
    ensures
        r == spec_is_ascii_ws(b),
{
    b == 32 || b == 9 || b == 10 || b == 12 || b == 13
}

/// How many elements at the start of `s` satisfy `p`.
pub open spec fn count_prefix(s: Seq<u8>, p: spec_fn(u8) -> bool) -> int
    decreases s.len(),
{
    if s.len() == 0 || !p(s[0]) {
        0
    } else {
        1 + count_prefix(s.drop_first(), p)
    }
}

/// How many elements at the end of `s` satisfy `p`.
pub open spec fn count_suffix(s: Seq<u8>, p: spec_fn(u8) -> bool) -> int
    decreases s.len(),
{
    if s.len() == 0 || !p(s.last()) {
        0
    } else {
        1 + count_suffix(s.drop_last(), p)
    }
}

pub proof fn lemma_count_prefix(s: Seq<u8>, p: spec_fn(u8) -> bool, k: int)
    requires
        0 <= k <= s.len(),
        forall|i: int| 0 <= i < k ==> p(s[i]),
        k == s.len() || !p(s[k]),
    ensures
        count_prefix(s, p) == k,
    decreases k,
{
    if k == 0 {
        assert(s.len() == 0 || !p(s[0]));
    } else {
        assert(p(s[0]));
        let rest = s.drop_first();
        assert(forall|i: int| 0 <= i < k - 1 ==> rest[i] == s[i + 1] && p(rest[i]));
        lemma_count_prefix(rest, p, k - 1);
    }
}

pub proof fn lemma_count_suffix(s: Seq<u8>, p: spec_fn(u8) -> bool, k: int)
    requires
        0 <= k <= s.len(),
        forall|i: int| s.len() - k <= i < s.len() ==> p(s[i]),
        k == s.len() || !p(s[s.len() - k - 1]),
    ensures
        count_suffix(s, p) == k,
    decreases k,
{
    if k == 0 {
        assert(s.len() == 0 || !p(s.last()));
    } else {
        assert(p(s.last()));
        let rest = s.drop_last();
        assert(forall|i: int| rest.len() - (k - 1) <= i < rest.len() ==> rest[i] == s[i] && p(
            rest[i],
        ));
        lemma_count_suffix(rest, p, k - 1);
    }
}

pub proof fn lemma_count_prefix_props(s: Seq<u8>, p: spec_fn(u8) -> bool)
    ensures
        0 <= count_prefix(s, p) <= s.len(),
        forall|i: int| 0 <= i < count_prefix(s, p) ==> p(s[i]),
        count_prefix(s, p) < s.len() ==> !p(s[count_prefix(s, p)]),
    decreases s.len(),
{
    if s.len() == 0 || !p(s[0]) {
    } else {
        let rest = s.drop_first();
        lemma_count_prefix_props(rest, p);
        assert(forall|i: int| 0 <= i < rest.len() ==> rest[i] == s[i + 1]);
        assert forall|i: int| 0 <= i < count_prefix(s, p) implies p(s[i]) by {
            if i > 0 {
                assert(p(rest[i - 1]));
            }
        }
    }
}

pub proof fn lemma_count_suffix_props(s: Seq<u8>, p: spec_fn(u8) -> bool)
    ensures
        0 <= count_suffix(s, p) <= s.len(),
        forall|i: int| s.len() - count_suffix(s, p) <= i < s.len() ==> p(s[i]),
        count_suffix(s, p) < s.len() ==> !p(s[s.len() - count_suffix(s, p) - 1]),
    decreases s.len(),
{
    if s.len() == 0 || !p(s.last()) {
    } else {
        let rest = s.drop_last();
        lemma_count_suffix_props(rest, p);
        assert(forall|i: int| 0 <= i < rest.len() ==> rest[i] == s[i]);
        assert forall|i: int| s.len() - count_suffix(s, p) <= i < s.len() implies p(s[i]) by {
            if i < s.len() - 1 {
                assert(p(rest[i]));
            }
        }
    }
}

/// `s` with ASCII whitespace removed from both ends.
pub open spec fn spec_trim_ascii(s: Seq<u8>) -> Seq<u8> {
    let lo = count_prefix(s, |b: u8| spec_is_ascii_ws(b));
    let hi = s.len() - count_suffix(s, |b: u8| spec_is_ascii_ws(b));
    if lo <= hi {
        s.subrange(lo, hi)
    } else {
        Seq::empty()
    }
}

/// Remove ASCII whitespace from both ends of a byte slice.
pub fn trim_ascii<'a>(v: &'a [u8]) -> (r: &'a [u8])
    ensures
        r@ == spec_trim_ascii(v@),
{
    let ghost ws = |b: u8| spec_is_ascii_ws(b);
    let n = v.len();
    let mut lo: usize = 0;
    while lo < n && is_ascii_ws(*slice_index_get(v, lo))
        invariant
            0 <= lo <= n,
            n == v@.len(),
            forall|i: int| 0 <= i < lo ==> spec_is_ascii_ws(v@[i]),
        decreases n - lo,
    {
        lo = lo + 1;
    }
    let mut hi: usize = n;
    while hi > lo && is_ascii_ws(*slice_index_get(v, hi - 1))
        invariant
            lo <= hi <= n,
            n == v@.len(),
            forall|i: int| 0 <= i < lo ==> spec_is_ascii_ws(v@[i]),
            forall|i: int| hi <= i < n ==> spec_is_ascii_ws(v@[i]),
        decreases hi,
    {
        hi = hi - 1;
    }
    proof {
        if lo == n {
            // the whole slice is whitespace
            lemma_count_prefix(v@, ws, n as int);
            lemma_count_suffix(v@, ws, n as int);
            assert(v@.subrange(lo as int, hi as int) =~= spec_trim_ascii(v@));
        } else {
            assert(!spec_is_ascii_ws(v@[lo as int]));
            // the tail scan cannot cross the non-whitespace byte at `lo`
            assert(hi > lo) by {
                if hi == lo {
                    assert(spec_is_ascii_ws(v@[lo as int]));
                }
            }
            assert(!spec_is_ascii_ws(v@[hi - 1]));
            lemma_count_prefix(v@, ws, lo as int);
            lemma_count_suffix(v@, ws, n - hi);
            assert(v@.subrange(lo as int, hi as int) =~= spec_trim_ascii(v@));
        }
    }
    slice_subrange(v, lo, hi)
}

/// What `String::from_utf8_lossy` yields for the given bytes: a pure
/// function of the bytes alone.
pub uninterp spec fn lossy_decode(bytes: Seq<u8>) -> Seq<char>;

/// Relies on `String::from_utf8_lossy`: the decoding depends on the bytes
/// alone, yields nothing for no bytes, and yields at least one character
/// (possibly a replacement character) for at least one byte.
#[verifier::external_body]
pub fn decode_lossy(v: &[u8]) -> (r: String)
    ensures
        r@ == lossy_decode(v@),
        v@.len() == 0 ==> r@.len() == 0,
        v@.len() > 0 ==> r@.len() > 0,
{
    String::from_utf8_lossy(v).into_owned()
}

/// Equality of two string slices, decided character by character.
pub fn str_eq(a: &str, b: &str) -> (r: bool)
    ensures
        r == (a@ == b@),
{
    let alen = a.unicode_len();
    let blen = b.unicode_len();
    if alen != blen {
        return false;
    }
    let mut i: usize = 0;
    while i < alen
        invariant
            0 <= i <= alen,
            alen == a@.len(),
            alen == b@.len(),
            forall|j: int| 0 <= j < i ==> a@[j] == b@[j],
        decreases alen - i,
    {
        if a.get_char(i) != b.get_char(i) {
            return false;
        }
        i = i + 1;
    }
    proof {
        assert(a@ =~= b@);
    }
    true
}

/// Does `s` start with `p`?
pub open spec fn spec_starts_with(s: Seq<char>, p: Seq<char>) -> bool {
    p.len() <= s.len() && s.subrange(0, p.len() as int) == p
}

pub fn str_starts_with(s: &str, p: &str) -> (r: bool)
    ensures
        r == spec_starts_with(s@, p@),
{
    let slen = s.unicode_len();
    let plen = p.unicode_len();
    if plen > slen {
        return false;
    }
    let mut i: usize = 0;
    while i < plen
        invariant
            0 <= i <= plen,
            plen <= slen,
            slen == s@.len(),
            plen == p@.len(),
            forall|j: int| 0 <= j < i ==> s@[j] == p@[j],
        decreases plen - i,
    {
        if s.get_char(i) != p.get_char(i) {
            proof {
                assert(s@.subrange(0, p@.len() as int)[i as int] != p@[i as int]);
            }
            return false;
        }
        i = i + 1;
    }
    proof {
        assert(s@.subrange(0, p@.len() as int) =~= p@);
    }
    true
}

/// Does `s` contain `sub` as a contiguous run?
pub open spec fn spec_contains(s: Seq<char>, sub: Seq<char>) -> bool {
    exists|i: int| 0 <= i <= s.len() - sub.len() && #[trigger] s.subrange(i, i + sub.len()) == sub
}

pub fn str_contains(s: &str, sub: &str) -> (r: bool)
    ensures
        r == spec_contains(s@, sub@),
{
    let n = s.unicode_len();
    let m = sub.unicode_len();
    if m > n {
        return false;
    }
    if m == 0 {
        proof {
            assert(s@.subrange(0, 0 + sub@.len() as int) =~= sub@);
        }
        return true;
    }
    let mut i: usize = 0;
    while i <= n - m
        invariant
            0 <= i <= n - m + 1,
            0 < m <= n,
            n == s@.len(),
            m == sub@.len(),
            forall|k: int| 0 <= k < i ==> #[trigger] s@.subrange(k, k + sub@.len()) != sub@,
        decreases n - m + 1 - i,
    {
        let mut j: usize = 0;
        let mut matched = true;
        while j < m
            invariant
                0 <= j <= m,
                i + m <= n,
                n == s@.len(),
                m == sub@.len(),
                matched ==> forall|t: int| 0 <= t < j ==> s@[i + t] == sub@[t],
                !matched ==> s@.subrange(i as int, i + sub@.len()) != sub@,
            decreases m - j,
        {
            if s.get_char(i + j) != sub.get_char(j) {
                proof {
                    assert(s@.subrange(i as int, i + sub@.len())[j as int] != sub@[j as int]);
                }
                matched = false;
                j = m;
            } else {
                j = j + 1;
            }
        }
        if matched {
            proof {
                assert(s@.subrange(i as int, i + sub@.len()) =~= sub@);
            }
            return true;
        }
        i = i + 1;
    }
    proof {
        assert forall|k: int| 0 <= k <= s@.len() - sub@.len() implies #[trigger] s@.subrange(
            k,
            k + sub@.len(),
        ) != sub@ by {
            assert(k < i);
        }
    }
    false
}

/// The parts joined by single spaces, in order.
pub open spec fn spec_join_space(parts: Seq<Seq<char>>) -> Seq<char>
    decreases parts.len(),
{
    if parts.len() == 0 {
        Seq::empty()
    } else if parts.len() == 1 {
        parts[0]
    } else {
        parts[0] + " "@ + spec_join_space(parts.drop_first())
    }
}

/// Join the parts with single spaces.
pub fn join_space(parts: &[String]) -> (r: String)
    ensures
        r@ == spec_join_space(parts.deep_view()),
    decreases parts@.len(),
{
    if parts.len() == 0 {
        let r = String::new();
        proof {
            assert(parts.deep_view().len() == 0);
        }
        r
    } else if parts.len() == 1 {
        let r = slice_index_get(parts, 0).clone();
        proof {
            assert(parts.deep_view().len() == 1);
            assert(parts.deep_view()[0] == r@);
        }
        r
    } else {
        let mut head = slice_index_get(parts, 0).clone();
        head.append(" ");
        let rest = slice_subrange(parts, 1, parts.len());
        let tail = join_space(rest);
        let r = head.concat(tail.as_str());
        proof {
            assert(rest.deep_view() =~= parts.deep_view().drop_first());
            assert(parts.deep_view()[0] == parts@[0]@);
        }
        r
    }
}

} // verus!
