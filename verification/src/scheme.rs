//! Scheme-prefix validation: a candidate deep-link URL is accepted exactly
//! when it starts with the registered scheme prefix.

use vstd::prelude::*;
use vstd::string::StrSliceExecFns;

verus! {

/// `p` is a prefix of `u`: `u` is at least as long as `p` and agrees with it
/// character for character.
pub open spec fn spec_prefix_of(p: Seq<char>, u: Seq<char>) -> bool {
    p.len() <= u.len() && u.subrange(0, p.len() as int) == p
}

/// Character-by-character prefix test, the executable form of
/// [`spec_prefix_of`]. Works on arbitrary (not only ASCII) strings.
pub fn starts_with_prefix(url: &str, prefix: &str) -> (b: bool)
    ensures
        b == spec_prefix_of(prefix@, url@),
{
    let n = prefix.unicode_len();
    let m = url.unicode_len();
    if n > m {
        return false;
    }
    let mut i: usize = 0;
    while i < n
        invariant
            0 <= i <= n,
            n == prefix@.len(),
            m == url@.len(),
            n <= m,
            forall|j: int| 0 <= j < i ==> url@[j] == prefix@[j],
        decreases n - i,
    {
        if url.get_char(i) != prefix.get_char(i) {
            proof {
                if spec_prefix_of(prefix@, url@) {
                    assert(url@.subrange(0, n as int)[i as int] == prefix@[i as int]);
                }
            }
            return false;
        }
        i = i + 1;
    }
    proof {
        assert(url@.subrange(0, n as int) =~= prefix@);
    }
    true
}

} // verus!
