//! Byte-sequence utilities for line normalization, token search and
//! field splitting.

use vstd::prelude::*;

verus! {

/// Bytes that count as surrounding whitespace when a raw line is normalized.
pub open spec fn is_space(b: u8) -> bool {
    b == 0x20 || b == 0x09 || b == 0x0a || b == 0x0b || b == 0x0c || b == 0x0d
}

/// The sequence with leading whitespace removed.
pub open spec fn trim_front(s: Seq<u8>) -> Seq<u8>
    decreases s.len(),
{
    if s.len() > 0 && is_space(s[0]) {
        trim_front(s.skip(1))
    } else {
        s
    }
}

/// The sequence with trailing whitespace removed.
pub open spec fn trim_back(s: Seq<u8>) -> Seq<u8>
    decreases s.len(),
{
    if s.len() > 0 && is_space(s[s.len() - 1]) {
        trim_back(s.take(s.len() - 1))
    } else {
        s
    }
}

/// The sequence with whitespace removed at both ends.
pub open spec fn trim_spec(s: Seq<u8>) -> Seq<u8> {
    trim_back(trim_front(s))
}

/// The sequence with every tab byte removed.
pub open spec fn strip_tabs(s: Seq<u8>) -> Seq<u8>
    decreases s.len(),
{
    if s.len() == 0 {
        Seq::empty()
    } else if s.last() == 0x09 {
        strip_tabs(s.drop_last())
    } else {
        strip_tabs(s.drop_last()).push(s.last())
    }
}

/// A raw line after normalization: trimmed, then cleared of embedded tabs.
pub open spec fn normalize_spec(s: Seq<u8>) -> Seq<u8> {
    strip_tabs(trim_spec(s))
}

proof fn lemma_trim_front_at(s: Seq<u8>, lo: int)
    requires
        0 <= lo <= s.len(),
        forall|k: int| 0 <= k < lo ==> is_space(s[k]),
        lo == s.len() || !is_space(s[lo]),
    ensures
        trim_front(s) == s.skip(lo),
    decreases lo,
{
    if lo == 0 {
        assert(s.skip(0) =~= s);
    } else {
        lemma_trim_front_at(s.skip(1), lo - 1);
        assert(s.skip(1).skip(lo - 1) =~= s.skip(lo));
    }
}

proof fn lemma_trim_back_at(s: Seq<u8>, hi: int)
    requires
        0 <= hi <= s.len(),
        forall|k: int| hi <= k < s.len() ==> is_space(s[k]),
        hi == 0 || !is_space(s[hi - 1]),
    ensures
        trim_back(s) == s.take(hi),
    decreases s.len() - hi,
{
    if hi == s.len() {
        assert(s.take(hi) =~= s);
    } else {
        lemma_trim_back_at(s.take(s.len() - 1), hi);
        assert(s.take(s.len() - 1).take(hi) =~= s.take(hi));
    }
}

/// True when `b` is an ASCII whitespace byte.
fn byte_is_space(b: u8) -> (r: bool)
    ensures
        r == is_space(b),
{
    b == 0x20 || b == 0x09 || b == 0x0a || b == 0x0b || b == 0x0c || b == 0x0d
}

/// Removes surrounding whitespace and embedded tabs from a raw line.
pub fn normalize(s: &Vec<u8>) -> (r: Vec<u8>)
    ensures
        r@ == normalize_spec(s@),
{
    let t = trim_vec(s);
    let n = t.len();
    let mut r: Vec<u8> = Vec::new();
    let mut i: usize = 0;
    while i < n
        invariant
            0 <= i <= n == t@.len(),
            t@ == trim_spec(s@),
            r@ == strip_tabs(t@.take(i as int)),
        decreases n - i,
    {
        proof {
            assert(t@.take(i + 1).drop_last() =~= t@.take(i as int));
            assert(t@.take(i + 1).last() == t@[i as int]);
        }
        if t[i] != 0x09 {
            r.push(t[i]);
        }
        i = i + 1;
    }
    proof {
        assert(t@.take(n as int) =~= t@);
    }
    r
}

/// Copies the bytes of `s` between `lo` and `hi`.
pub fn copy_range(s: &Vec<u8>, lo: usize, hi: usize) -> (r: Vec<u8>)
    requires
        lo <= hi <= s@.len(),
    ensures
        r@ == s@.subrange(lo as int, hi as int),
{
    let mut r: Vec<u8> = Vec::new();
    let mut i: usize = lo;
    while i < hi
        invariant
            lo <= i <= hi <= s@.len(),
            r@ == s@.subrange(lo as int, i as int),
        decreases hi - i,
    {
        r.push(s[i]);
        proof {
            assert(r@ =~= s@.subrange(lo as int, i + 1));
        }
        i = i + 1;
    }
    r
}

/// Removes surrounding whitespace from a byte vector.
pub fn trim_vec(s: &Vec<u8>) -> (r: Vec<u8>)
    ensures
        r@ == trim_spec(s@),
{
    let n = s.len();
    let mut lo: usize = 0;
    while lo < n && byte_is_space(s[lo])
        invariant
            0 <= lo <= n == s@.len(),
            forall|k: int| 0 <= k < lo ==> is_space(s@[k]),
        decreases n - lo,
    {
        lo = lo + 1;
    }
    let mut hi: usize = n;
    while hi > lo && byte_is_space(s[hi - 1])
        invariant
            lo <= hi <= n == s@.len(),
            forall|k: int| hi <= k < n ==> is_space(s@[k]),
        decreases hi,
    {
        hi = hi - 1;
    }
    proof {
        lemma_trim_front_at(s@, lo as int);
        if hi == lo {
            lemma_trim_back_at(s@.skip(lo as int), 0);
        } else {
            lemma_trim_back_at(s@.skip(lo as int), hi - lo);
        }
        assert(s@.skip(lo as int).take(hi - lo) =~= s@.subrange(lo as int, hi as int));
    }
    copy_range(s, lo, hi)
}

/// True when `t` occurs in `s` starting at index `i`.
pub open spec fn match_at(s: Seq<u8>, t: Seq<u8>, i: int) -> bool {
    0 <= i && i + t.len() <= s.len() && s.subrange(i, i + t.len()) == t
}

/// True when `t` occurs somewhere in `s`.
pub open spec fn contains_seq(s: Seq<u8>, t: Seq<u8>) -> bool {
    exists|i: int| match_at(s, t, i)
}

/// The index of the first occurrence of `t` in `s` (meaningful only when
/// `contains_seq(s, t)` holds).
pub open spec fn first_match(s: Seq<u8>, t: Seq<u8>) -> int {
    choose|i: int| match_at(s, t, i) && (forall|k: int| 0 <= k < i ==> !match_at(s, t, k))
}

/// A first occurrence is unique, so any index that matches with nothing
/// earlier is `first_match`.
pub proof fn lemma_first_match_is(s: Seq<u8>, t: Seq<u8>, i: int)
    requires
        match_at(s, t, i),
        forall|k: int| 0 <= k < i ==> !match_at(s, t, k),
    ensures
        first_match(s, t) == i,
{
    let j = choose|j: int|
        match_at(s, t, j) && (forall|k: int| 0 <= k < j ==> !match_at(s, t, k));
    assert(match_at(s, t, j) && (forall|k: int| 0 <= k < j ==> !match_at(s, t, k))) by {
        assert(match_at(s, t, i) && (forall|k: int| 0 <= k < i ==> !match_at(s, t, k)));
    }
}

/// Finds the first occurrence of `t` in `s`, if any.
pub fn find_first(s: &Vec<u8>, t: &Vec<u8>) -> (r: Option<usize>)
    ensures
        match r {
            Some(i) => match_at(s@, t@, i as int) && first_match(s@, t@) == i as int
                && (forall|k: int| 0 <= k < i ==> !match_at(s@, t@, k)),
            None => !contains_seq(s@, t@),
        },
        r is Some <==> contains_seq(s@, t@),
{
    let n = s.len();
    let m = t.len();
    if m > n {
        return None;
    }
    let mut i: usize = 0;
    while i <= n - m
        invariant
            m <= n == s@.len(),
            m == t@.len(),
            0 <= i <= n - m + 1,
            forall|k: int| 0 <= k < i ==> !match_at(s@, t@, k),
        decreases n - i,
    {
        let mut j: usize = 0;
        while j < m && s[i + j] == t[j]
            invariant
                m <= n == s@.len(),
                m == t@.len(),
                0 <= i <= n - m,
                0 <= j <= m,
                forall|p: int| 0 <= p < j ==> s@[i + p] == t@[p],
            decreases m - j,
        {
            j = j + 1;
        }
        if j == m {
            proof {
                assert(s@.subrange(i as int, i + m) =~= t@);
                lemma_first_match_is(s@, t@, i as int);
                assert(contains_seq(s@, t@)) by {
                    assert(match_at(s@, t@, i as int));
                }
            }
            return Some(i);
        }
        proof {
            assert(s@.subrange(i as int, i + m)[j as int] != t@[j as int]);
            assert(!match_at(s@, t@, i as int));
        }
        i = i + 1;
    }
    proof {
        assert forall|k: int| !match_at(s@, t@, k) by {
            if 0 <= k <= n - m {
                assert(!match_at(s@, t@, k));
            }
        }
    }
    None
}

/// The comma-separated fields of a payload, splitting on every comma.
pub open spec fn split_commas(s: Seq<u8>) -> Seq<Seq<u8>>
    decreases s.len(),
{
    if s.len() == 0 {
        seq![Seq::<u8>::empty()]
    } else if s.last() == 0x2c {
        split_commas(s.drop_last()).push(Seq::<u8>::empty())
    } else {
        let r = split_commas(s.drop_last());
        r.update(r.len() - 1, r.last().push(s.last()))
    }
}

/// Splitting yields at least one field.
pub proof fn lemma_split_commas_len(s: Seq<u8>)
    ensures
        split_commas(s).len() >= 1,
    decreases s.len(),
{
    if s.len() > 0 {
        lemma_split_commas_len(s.drop_last());
    }
}

/// Splits a payload on commas; the result always holds at least one field.
pub fn split_fields(s: &Vec<u8>) -> (r: Vec<Vec<u8>>)
    ensures
        r.deep_view() == split_commas(s@),
        r.len() >= 1,
{
    let mut fields: Vec<Vec<u8>> = Vec::new();
    let mut cur: Vec<u8> = Vec::new();
    let n = s.len();
    let mut i: usize = 0;
    proof {
        assert(fields.deep_view().push(cur@) =~~= split_commas(s@.take(0)));
    }
    while i < n
        invariant
            0 <= i <= n == s@.len(),
            fields.deep_view().push(cur@) == split_commas(s@.take(i as int)),
        decreases n - i,
    {
        proof {
            assert(s@.take(i + 1).drop_last() =~= s@.take(i as int));
            assert(s@.take(i + 1).last() == s@[i as int]);
        }
        let ghost pre = fields.deep_view().push(cur@);
        if s[i] == 0x2c {
            fields.push(cur);
            cur = Vec::new();
            proof {
                assert(fields.deep_view().push(cur@) =~~= pre.push(Seq::<u8>::empty()));
            }
        } else {
            cur.push(s[i]);
            proof {
                assert(fields.deep_view().push(cur@) =~~= pre.update(
                    pre.len() - 1,
                    pre.last().push(s@[i as int]),
                ));
            }
        }
        i = i + 1;
    }
    proof {
        assert(s@.take(n as int) =~= s@);
    }
    let ghost pre = fields.deep_view().push(cur@);
    fields.push(cur);
    proof {
        assert(fields.deep_view() =~~= pre);
        lemma_split_commas_len(s@);
    }
    fields
}

/// True when the two byte vectors hold the same bytes.
pub fn bytes_eq(a: &Vec<u8>, b: &Vec<u8>) -> (r: bool)
    ensures
        r == (a@ == b@),
{
    if a.len() != b.len() {
        return false;
    }
    let n = a.len();
    let mut i: usize = 0;
    while i < n
        invariant
            0 <= i <= n,
            n == a@.len() == b@.len(),
            forall|k: int| 0 <= k < i ==> a@[k] == b@[k],
        decreases n - i,
    {
        if a[i] != b[i] {
            return false;
        }
        i = i + 1;
    }
    proof {
        assert(a@ =~= b@);
    }
    true
}

} // verus!
