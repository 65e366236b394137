//! Small fully verified helpers on byte strings.

use vstd::prelude::*;

verus! {

/// Append every byte of `bytes` to `v`, in order.
pub fn push_bytes(v: &mut Vec<u8>, bytes: &[u8])
    ensures
        final(v)@ == old(v)@ + bytes@,
{
    let mut i: usize = 0;
    while i < bytes.len()
        invariant
            i <= bytes@.len(),
            v@ == old(v)@ + bytes@.take(i as int),
        decreases bytes@.len() - i,
    {
        let b = bytes[i];
        v.push(b);
        proof {
            assert((old(v)@ + bytes@.take(i as int)).push(bytes@[i as int]) =~= old(v)@
                + bytes@.take(i as int + 1));
        }
        i = i + 1;
    }
    proof {
        assert(old(v)@ + bytes@.take(bytes@.len() as int) =~= old(v)@ + bytes@);
    }
}

/// Byte-for-byte equality of two byte strings.
pub fn bytes_eq(a: &[u8], b: &[u8]) -> (r: bool)
    ensures
        r <==> a@ == b@,
{
    if a.len() != b.len() {
        proof {
            assert(a@ != b@);
        }
        return false;
    }
    let mut i: usize = 0;
    while i < a.len()
        invariant
            i <= a@.len(),
            a@.len() == b@.len(),
            forall|k: int| 0 <= k < i ==> a@[k] == b@[k],
        decreases a@.len() - i,
    {
        if a[i] != b[i] {
            proof {
                assert(a@ != b@);
            }
            return false;
        }
        i = i + 1;
    }
    proof {
        assert(a@ =~= b@);
    }
    true
}

} // verus!
