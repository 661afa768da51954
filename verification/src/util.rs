//! The terminated-prefix scan used for the embedded path strings of module
//! records: the bytes before the first 0 byte, the whole slice if none.

use vstd::prelude::*;

verus! {

/// The length of the prefix of `b` before its first 0 byte, capped at the
/// length of `b` itself.
pub fn nul_terminated_length(b: &Vec<u8>) -> (r: usize)
    ensures
        r <= b@.len(),
        forall|j: int| 0 <= j < r ==> b@[j] != 0,
        r < b@.len() ==> b@[r as int] == 0,
{
    let n = b.len();
    let mut i: usize = 0;
    while i < n
        invariant
            i <= n,
            n == b@.len(),
            forall|j: int| 0 <= j < i ==> b@[j] != 0,
        decreases n - i,
    {
        if b[i] == 0 {
            return i;
        }
        i = i + 1;
    }
    n
}

} // verus!
