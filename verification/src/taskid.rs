//! Canonical on-wire form of a task identifier.
//!
//! A task identifier arrives as free-form text; on the wire it is always
//! exactly eight bytes: the text truncated to its first eight bytes if
//! longer, or right-padded with ASCII spaces if shorter.

use vstd::prelude::*;

verus! {

/// The eight-byte wire form of a task identifier.
pub open spec fn spec_task_id_bytes(id: Seq<u8>) -> Seq<u8> {
    Seq::new(8, |i: int| if i < id.len() { id[i] } else { 32u8 })
}

/// Encode a task identifier into its eight-byte wire form.
pub fn encode_task_id(id: &[u8]) -> (r: Vec<u8>)
    ensures
        r@ == spec_task_id_bytes(id@),
{
    let mut v: Vec<u8> = Vec::new();
    let mut i: usize = 0;
    while i < 8
        invariant
            i <= 8,
            v@.len() == i,
            forall|k: int| 0 <= k < i ==> v@[k] == spec_task_id_bytes(id@)[k],
        decreases 8 - i,
    {
        if i < id.len() {
            v.push(id[i]);
        } else {
            v.push(32u8);
        }
        i = i + 1;
    }
    proof {
        assert(v@ =~= spec_task_id_bytes(id@));
    }
    v
}

/// An identifier of at most eight bytes is carried unchanged and
/// right-padded with ASCII spaces up to exactly eight bytes.
pub proof fn lemma_task_id_pad(id: Seq<u8>)
    requires
        id.len() <= 8,
    ensures
        spec_task_id_bytes(id).len() == 8,
        forall|i: int| 0 <= i < id.len() ==> spec_task_id_bytes(id)[i] == id[i],
        forall|i: int| id.len() <= i < 8 ==> spec_task_id_bytes(id)[i] == 32u8,
{
}

/// An identifier longer than eight bytes is cut down to exactly its
/// first eight bytes, with no padding.
pub proof fn lemma_task_id_truncate(id: Seq<u8>)
    requires
        id.len() > 8,
    ensures
        spec_task_id_bytes(id).len() == 8,
        spec_task_id_bytes(id) == id.take(8),
{
    assert(spec_task_id_bytes(id) =~= id.take(8));
}

} // verus!
