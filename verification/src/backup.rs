//! Reading a console answer: the line counts as a yes exactly when it is
//! the single letter `y` once ASCII whitespace is stripped from both ends.

use vstd::prelude::*;
use vstd::string::StringSliceAdditionalSpecFns;

verus! {

/// ASCII whitespace: space, tab, line feed, carriage return.
pub open spec fn is_ascii_ws(b: u8) -> bool {
    b == 32 || b == 9 || b == 10 || b == 13
}

/// Index of the first byte at or after `i` that is not ASCII whitespace,
/// or the length when there is none.
pub open spec fn first_non_ws(s: Seq<u8>, i: int) -> int
    decreases s.len() - i
        when 0 <= i <= s.len()
{
    if i >= s.len() {
        i
    } else if is_ascii_ws(s[i]) {
        first_non_ws(s, i + 1)
    } else {
        i
    }
}

/// Index of the last byte at or before `i` that is not ASCII whitespace,
/// or -1 when there is none.
pub open spec fn last_non_ws(s: Seq<u8>, i: int) -> int
    decreases i + 1
        when i < s.len()
{
    if i < 0 {
        -1
    } else if is_ascii_ws(s[i]) {
        last_non_ws(s, i - 1)
    } else {
        i
    }
}

/// The line with ASCII whitespace stripped from both ends.
pub open spec fn trimmed(s: Seq<u8>) -> Seq<u8> {
    let lo = first_non_ws(s, 0);
    let hi = last_non_ws(s, s.len() - 1);
    if lo <= hi {
        s.subrange(lo, hi + 1)
    } else {
        Seq::empty()
    }
}

/// A line of nothing but whitespace has no last non-whitespace byte.
proof fn lemma_all_ws_last(s: Seq<u8>, i: int)
    requires
        i < s.len(),
        forall|k: int| 0 <= k <= i ==> is_ascii_ws(s[k]),
    ensures
        last_non_ws(s, i) == -1,
    decreases i + 1,
{
    if i >= 0 {
        lemma_all_ws_last(s, i - 1);
    }
}

/// Whether the console line is an affirmative answer: stripped of ASCII
/// whitespace at both ends, it is exactly the byte of the letter `y`.
pub fn answer_is_yes(answer: &str) -> (r: bool)
    ensures
        r == (trimmed(answer.spec_bytes()) == seq![121u8]),
{
    let bytes = answer.as_bytes();
    let ghost s = answer.spec_bytes();
    let n = bytes.len();
    let mut lo: usize = 0;
    while lo < n && (bytes[lo] == 32 || bytes[lo] == 9 || bytes[lo] == 10 || bytes[lo] == 13)
        invariant
            s == bytes@,
            n == s.len(),
            lo <= n,
            forall|k: int| 0 <= k < lo ==> is_ascii_ws(s[k]),
            first_non_ws(s, 0) == first_non_ws(s, lo as int),
        decreases n - lo,
    {
        lo += 1;
    }
    assert(first_non_ws(s, 0) == lo);
    if lo == n {
        proof {
            if n > 0 {
                lemma_all_ws_last(s, n - 1);
            }
            assert(trimmed(s) =~= Seq::<u8>::empty());
            assert(trimmed(s) != seq![121u8]) by {
                assert(seq![121u8].len() == 1);
            }
        }
        return false;
    }
    let mut hi: usize = n;
    while hi > lo && (bytes[hi - 1] == 32 || bytes[hi - 1] == 9 || bytes[hi - 1] == 10
        || bytes[hi - 1] == 13)
        invariant
            s == bytes@,
            n == s.len(),
            lo < n,
            !is_ascii_ws(s[lo as int]),
            lo <= hi <= n,
            forall|k: int| hi <= k < n ==> is_ascii_ws(s[k]),
            last_non_ws(s, n - 1) == last_non_ws(s, hi - 1),
        decreases hi,
    {
        hi -= 1;
    }
    assert(hi > lo);
    assert(last_non_ws(s, n - 1) == hi - 1);
    let ghost t = trimmed(s);
    proof {
        assert(t =~= s.subrange(lo as int, hi as int));
    }
    if hi - lo == 1 && bytes[lo] == 121 {
        proof {
            assert(t =~= seq![121u8]);
        }
        true
    } else {
        proof {
            assert(t != seq![121u8]) by {
                assert(t.len() == hi - lo);
                if t.len() == 1 {
                    assert(t[0] == s[lo as int]);
                    assert(seq![121u8][0] == 121u8);
                }
            }
        }
        false
    }
}

} // verus!
