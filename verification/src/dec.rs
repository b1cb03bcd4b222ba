//! Decimal rendering of run numbers.

use vstd::prelude::*;

verus! {

/// The decimal digits of `n`, most significant first.
pub open spec fn dec_rep(n: nat) -> Seq<u8>
    decreases n,
{
    if n < 10 {
        seq![(0x30 + n) as u8]
    } else {
        dec_rep(n / 10).push((0x30 + n % 10) as u8)
    }
}

/// Renders `n` in decimal.
pub fn u64_to_dec(n: u64) -> (r: Vec<u8>)
    ensures
        r@ == dec_rep(n as nat),
{
    let mut rev: Vec<u8> = Vec::new();
    let mut m: u64 = n;
    let ghost mut suf: Seq<u8> = Seq::empty();
    proof {
        assert(dec_rep(n as nat) =~= dec_rep(n as nat) + suf);
    }
    loop
        invariant_except_break
            dec_rep(n as nat) == dec_rep(m as nat) + suf,
            suf.len() == rev@.len(),
            forall|j: int| 0 <= j < suf.len() ==> suf[j] == rev@[rev@.len() - 1 - j],
        ensures
            dec_rep(n as nat) == suf,
            suf.len() == rev@.len(),
            forall|j: int| 0 <= j < suf.len() ==> suf[j] == rev@[rev@.len() - 1 - j],
        decreases m,
    {
        let d: u8 = 0x30 + (m % 10) as u8;
        let ghost presuf = suf;
        rev.push(d);
        proof {
            suf = seq![d].add(presuf);
        }
        let m0 = m;
        m = m / 10;
        proof {
            if m0 < 10 {
                assert(dec_rep(m0 as nat) =~= seq![d]);
                assert(dec_rep(m0 as nat) + presuf =~= suf);
            } else {
                assert(m0 as nat / 10 == m as nat);
                assert(dec_rep(m0 as nat) == dec_rep(m as nat).push(d));
                assert(dec_rep(m as nat).push(d) + presuf =~= dec_rep(m as nat) + suf);
            }
            assert(m0 >= 10 ==> m0 / 10 < m0 && m0 / 10 >= 1);
        }
        if m == 0 {
            break;
        }
    }
    let k = rev.len();
    let mut out: Vec<u8> = Vec::new();
    let mut i: usize = 0;
    while i < k
        invariant
            0 <= i <= k == rev@.len() == suf.len(),
            forall|j: int| 0 <= j < suf.len() ==> suf[j] == rev@[rev@.len() - 1 - j],
            out@.len() == i,
            forall|j: int| 0 <= j < i ==> out@[j] == suf[j],
        decreases k - i,
    {
        out.push(rev[k - 1 - i]);
        i = i + 1;
    }
    proof {
        assert(out@ =~= suf);
    }
    out
}

} // verus!
