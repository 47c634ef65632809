//! Classification of bandwidth-throttle failures.
//!
//! Installing or removing the OS traffic-control policy is the platform
//! shell's work; what is decided here, over the tool's error text, is
//! whether a failure is the common "insufficient privilege" case that
//! deserves its own message.

use vstd::prelude::*;
use vstd::string::StringSliceAdditionalSpecFns;

verus! {

/// `n` occurs as a contiguous subrange of `h`.
pub open spec fn contains_bytes(h: Seq<u8>, n: Seq<u8>) -> bool {
    exists|i: int| 0 <= i && i + n.len() <= h.len() && #[trigger] h.subrange(i, i + n.len()) == n
}

/// Byte-level substring search.
#[verifier::loop_isolation(false)]
pub fn contains_subslice(h: &[u8], n: &[u8]) -> (r: bool)
    ensures
        r == contains_bytes(h@, n@),
{
    if n.len() > h.len() {
        return false;
    }
    if n.len() == 0 {
        proof {
            assert(h@.subrange(0, 0 + n@.len() as int) =~= n@);
        }
        return true;
    }
    let bound = h.len() - n.len();
    let mut i: usize = 0;
    while i <= bound
        invariant
            forall|k: int| 0 <= k < i ==> #[trigger] h@.subrange(k, k + n@.len()) != n@,
        decreases bound + 1 - i,
    {
        let mut j: usize = 0;
        while j < n.len() && h[i + j] == n[j]
            invariant
                j <= n@.len(),
                forall|t: int| 0 <= t < j ==> h@[i + t] == #[trigger] n@[t],
            decreases n@.len() - j,
        {
            j = j + 1;
        }
        if j == n.len() {
            proof {
                assert(h@.subrange(i as int, i + n@.len()) =~= n@);
            }
            return true;
        }
        proof {
            assert(h@.subrange(i as int, i + n@.len())[j as int] == h@[i + j]);
            assert(h@.subrange(i as int, i + n@.len()) != n@);
        }
        i = i + 1;
    }
    proof {
        assert forall|k: int| !(0 <= k && k + n@.len() <= h@.len() && #[trigger] h@.subrange(
            k,
            k + n@.len(),
        ) == n@) by {
            if 0 <= k && k + n@.len() <= h@.len() {
                assert(k < i);
            }
        }
    }
    false
}

/// Whether the tool's error text names the common cause of a throttle
/// failure: the process lacking administrative privilege.
pub fn admin_denial_hint(stderr: &str) -> (r: bool)
    ensures
        r == (contains_bytes(stderr.spec_bytes(), "Access is denied".spec_bytes())
            || contains_bytes(stderr.spec_bytes(), "Administrator".spec_bytes())),
{
    let denied = contains_subslice(stderr.as_bytes(), "Access is denied".as_bytes());
    let admin = contains_subslice(stderr.as_bytes(), "Administrator".as_bytes());
    denied || admin
}

} // verus!
