//! In-place substitution of a literal byte pattern inside a buffer.
//!
//! The scan walks the buffer left to right one byte at a time; wherever the
//! pattern matches the current contents it writes the same-length replacement
//! over it and moves on by a single byte, so later positions see the bytes
//! that were just written.

use vstd::prelude::*;

verus! {

/// The pattern occurs in `buf` starting at position `i`.
pub open spec fn match_at(buf: Seq<u8>, pat: Seq<u8>, i: int) -> bool {
    &&& 0 <= i
    &&& i + pat.len() <= buf.len()
    &&& buf.subrange(i, i + pat.len()) == pat
}

/// `buf` with the bytes at `i .. i + rep.len()` overwritten by `rep`.
pub open spec fn splice(buf: Seq<u8>, rep: Seq<u8>, i: int) -> Seq<u8> {
    buf.take(i) + rep + buf.skip(i + rep.len())
}

/// The rest of one left-to-right pass, from position `i` on.
pub open spec fn scan_replace_from(buf: Seq<u8>, pat: Seq<u8>, rep: Seq<u8>, i: int) -> Seq<u8>
    decreases buf.len() + pat.len() - i
        when 0 <= i && 1 <= pat.len() && pat.len() == rep.len()
{
    if i + pat.len() > buf.len() {
        buf
    } else if match_at(buf, pat, i) {
        scan_replace_from(splice(buf, rep, i), pat, rep, i + 1)
    } else {
        scan_replace_from(buf, pat, rep, i + 1)
    }
}

/// A whole pass: every match of `pat`, taken left to right over the evolving
/// contents, is overwritten with `rep`.
pub open spec fn scan_replace(buf: Seq<u8>, pat: Seq<u8>, rep: Seq<u8>) -> Seq<u8> {
    scan_replace_from(buf, pat, rep, 0)
}

/// Whether `pat` matches the bytes of `buf` at position `i`.
fn matches_at(buf: &Vec<u8>, pat: &[u8], i: usize) -> (r: bool)
    requires
        i + pat@.len() <= buf@.len(),
    ensures
        r == match_at(buf@, pat@, i as int),
{
    let n = pat.len();
    let m = buf.len();
    let mut j: usize = 0;
    while j < n
        invariant
            n == pat@.len(),
            m == buf@.len(),
            i + n <= buf@.len(),
            j <= n,
            forall|k: int| 0 <= k < j ==> buf@[i + k] == pat@[k],
        decreases n - j,
    {
        if buf[i + j] != pat[j] {
            proof {
                assert(buf@.subrange(i as int, i + n) != pat@) by {
                    assert(buf@.subrange(i as int, i + n)[j as int] == buf@[i + j]);
                }
            }
            return false;
        }
        j += 1;
    }
    proof {
        assert(buf@.subrange(i as int, i + n) =~= pat@);
    }
    true
}

/// Overwrite every match of `pat` in `buf` with the same-length `rep`,
/// scanning left to right one byte at a time.
pub fn replace_pattern(buf: &mut Vec<u8>, pat: &[u8], rep: &[u8])
    requires
        pat@.len() == rep@.len(),
        pat@.len() >= 1,
    ensures
        final(buf)@ == scan_replace(old(buf)@, pat@, rep@),
        final(buf)@.len() == old(buf)@.len(),
{
    let n = pat.len();
    if buf.len() < n {
        return;
    }
    let m = buf.len();
    let last = m - n;
    let mut i: usize = 0;
    while i <= last
        invariant
            n == pat@.len(),
            n == rep@.len(),
            1 <= n <= buf@.len(),
            m == buf@.len(),
            buf@.len() == old(buf)@.len(),
            last == buf@.len() - n,
            i <= last + 1,
            scan_replace_from(buf@, pat@, rep@, i as int)
                == scan_replace_from(old(buf)@, pat@, rep@, 0),
        decreases last + 1 - i,
    {
        if matches_at(buf, pat, i) {
            let ghost prev = buf@;
            let mut j: usize = 0;
            while j < n
                invariant
                    n == pat@.len(),
                    n == rep@.len(),
                    m == buf@.len(),
                    i + n <= buf@.len(),
                    buf@.len() == prev.len(),
                    j <= n,
                    forall|k: int| 0 <= k < buf@.len() && !(i <= k < i + j)
                        ==> buf@[k] == prev[k],
                    forall|k: int| i <= k < i + j ==> buf@[k] == rep@[k - i],
                decreases n - j,
            {
                buf[i + j] = rep[j];
                j += 1;
            }
            proof {
                assert(buf@ =~= splice(prev, rep@, i as int));
                assert(scan_replace_from(prev, pat@, rep@, i as int)
                    == scan_replace_from(buf@, pat@, rep@, i + 1));
            }
        }
        i += 1;
    }
}

} // verus!
