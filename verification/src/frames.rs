//! The wire frames of the loader protocol.
//!
//! Every frame starts with a fixed eight-byte ASCII magic tag naming its
//! kind, followed by a kind-specific payload. All multi-byte integers are
//! little-endian. The Load frame carries the image length, the resolved
//! symbol address, the eight-byte task identifier, and the raw image
//! bytes; Kill and Relaunch carry only the task identifier; List is the
//! bare magic.

use vstd::bytes::lemma_auto_spec_u64_to_from_le_bytes;
use vstd::bytes::spec_u64_from_le_bytes;
use vstd::bytes::spec_u64_to_le_bytes;
use vstd::bytes::u64_from_le_bytes;
use vstd::bytes::u64_to_le_bytes;
use vstd::prelude::*;
use vstd::slice::slice_subrange;
use vstd::slice::slice_to_vec;

use crate::bytesutil::bytes_eq;
use crate::bytesutil::push_bytes;
use crate::taskid::encode_task_id;
use crate::taskid::spec_task_id_bytes;

verus! {

/// The ASCII bytes of "LOADPROG".
pub open spec fn spec_load_magic() -> Seq<u8> {
    seq![76u8, 79u8, 65u8, 68u8, 80u8, 82u8, 79u8, 71u8]
}

/// The ASCII bytes of "KILLTASK".
pub open spec fn spec_kill_magic() -> Seq<u8> {
    seq![75u8, 73u8, 76u8, 76u8, 84u8, 65u8, 83u8, 75u8]
}

/// The ASCII bytes of "RELAUNCH".
pub open spec fn spec_relaunch_magic() -> Seq<u8> {
    seq![82u8, 69u8, 76u8, 65u8, 85u8, 78u8, 67u8, 72u8]
}

/// The ASCII bytes of "LISTTASK", the canonical List magic.
pub open spec fn spec_list_magic() -> Seq<u8> {
    seq![76u8, 73u8, 83u8, 84u8, 84u8, 65u8, 83u8, 75u8]
}

/// The magic tag "LOADPROG" as bytes.
pub fn load_magic() -> (r: Vec<u8>)
    ensures
        r@ == spec_load_magic(),
{
    let mut v: Vec<u8> = Vec::new();
    v.push(76u8);
    v.push(79u8);
    v.push(65u8);
    v.push(68u8);
    v.push(80u8);
    v.push(82u8);
    v.push(79u8);
    v.push(71u8);
    proof {
        assert(v@ =~= spec_load_magic());
    }
    v
}

/// The magic tag "KILLTASK" as bytes.
pub fn kill_magic() -> (r: Vec<u8>)
    ensures
        r@ == spec_kill_magic(),
{
    let mut v: Vec<u8> = Vec::new();
    v.push(75u8);
    v.push(73u8);
    v.push(76u8);
    v.push(76u8);
    v.push(84u8);
    v.push(65u8);
    v.push(83u8);
    v.push(75u8);
    proof {
        assert(v@ =~= spec_kill_magic());
    }
    v
}

/// The magic tag "RELAUNCH" as bytes.
pub fn relaunch_magic() -> (r: Vec<u8>)
    ensures
        r@ == spec_relaunch_magic(),
{
    let mut v: Vec<u8> = Vec::new();
    v.push(82u8);
    v.push(69u8);
    v.push(76u8);
    v.push(65u8);
    v.push(85u8);
    v.push(78u8);
    v.push(67u8);
    v.push(72u8);
    proof {
        assert(v@ =~= spec_relaunch_magic());
    }
    v
}

/// The magic tag "LISTTASK" as bytes.
pub fn list_magic() -> (r: Vec<u8>)
    ensures
        r@ == spec_list_magic(),
{
    let mut v: Vec<u8> = Vec::new();
    v.push(76u8);
    v.push(73u8);
    v.push(83u8);
    v.push(84u8);
    v.push(84u8);
    v.push(65u8);
    v.push(83u8);
    v.push(75u8);
    proof {
        assert(v@ =~= spec_list_magic());
    }
    v
}

/// The Load frame: magic, image length (LE64), symbol address (LE64),
/// eight-byte task identifier, then the raw image bytes.
pub open spec fn spec_load_frame(image: Seq<u8>, addr: u64, id: Seq<u8>) -> Seq<u8> {
    spec_load_magic() + spec_u64_to_le_bytes(image.len() as u64) + spec_u64_to_le_bytes(addr)
        + spec_task_id_bytes(id) + image
}

/// The Kill frame: magic, then the eight-byte task identifier.
pub open spec fn spec_kill_frame(id: Seq<u8>) -> Seq<u8> {
    spec_kill_magic() + spec_task_id_bytes(id)
}

/// The Relaunch frame: magic, then the eight-byte task identifier.
pub open spec fn spec_relaunch_frame(id: Seq<u8>) -> Seq<u8> {
    spec_relaunch_magic() + spec_task_id_bytes(id)
}

/// The List frame: the bare magic, nothing else.
pub open spec fn spec_list_frame() -> Seq<u8> {
    spec_list_magic()
}

/// Build a Load frame from the image bytes, the resolved symbol address
/// and the task identifier.
pub fn encode_load_frame(image: &[u8], addr: u64, id: &[u8]) -> (r: Vec<u8>)
    ensures
        r@ == spec_load_frame(image@, addr, id@),
{
    let mut v = load_magic();
    let size_bytes = u64_to_le_bytes(image.len() as u64);
    push_bytes(&mut v, size_bytes.as_slice());
    let addr_bytes = u64_to_le_bytes(addr);
    push_bytes(&mut v, addr_bytes.as_slice());
    let tid = encode_task_id(id);
    push_bytes(&mut v, tid.as_slice());
    push_bytes(&mut v, image);
    v
}

/// Build a Kill frame from the task identifier.
pub fn encode_kill_frame(id: &[u8]) -> (r: Vec<u8>)
    ensures
        r@ == spec_kill_frame(id@),
{
    let mut v = kill_magic();
    let tid = encode_task_id(id);
    push_bytes(&mut v, tid.as_slice());
    v
}

/// Build a Relaunch frame from the task identifier.
pub fn encode_relaunch_frame(id: &[u8]) -> (r: Vec<u8>)
    ensures
        r@ == spec_relaunch_frame(id@),
{
    let mut v = relaunch_magic();
    let tid = encode_task_id(id);
    push_bytes(&mut v, tid.as_slice());
    v
}

/// Build a List frame: exactly the eight magic bytes.
pub fn encode_list_frame() -> (r: Vec<u8>)
    ensures
        r@ == spec_list_frame(),
{
    list_magic()
}

/// The fields recovered from a well-formed Load frame.
pub struct LoadFrameParts {
    /// The image length carried in the frame.
    pub size: u64,
    /// The symbol address carried in the frame.
    pub addr: u64,
    /// The eight-byte task identifier field.
    pub task_id: Vec<u8>,
    /// The raw image bytes after the fixed header.
    pub image: Vec<u8>,
}

/// What a Load frame parses to: the frame must be at least 32 bytes and
/// begin with the Load magic; the rest splits into the three header
/// fields and the trailing image bytes.
pub open spec fn spec_parse_load_frame(f: Seq<u8>) -> Option<(u64, u64, Seq<u8>, Seq<u8>)> {
    if f.len() >= 32 && f.take(8) == spec_load_magic() {
        Some(
            (
                spec_u64_from_le_bytes(f.subrange(8, 16)),
                spec_u64_from_le_bytes(f.subrange(16, 24)),
                f.subrange(24, 32),
                f.skip(32),
            ),
        )
    } else {
        None
    }
}

/// Split a byte sequence back into the fields of a Load frame, if it is
/// one.
pub fn parse_load_frame(f: &[u8]) -> (r: Option<LoadFrameParts>)
    ensures
        match r {
            Some(p) => spec_parse_load_frame(f@) == Some((p.size, p.addr, p.task_id@, p.image@)),
            None => spec_parse_load_frame(f@) is None,
        },
{
    if f.len() < 32 {
        return None;
    }
    let magic = load_magic();
    let head = slice_subrange(f, 0, 8);
    proof {
        assert(f@.take(8) =~= f@.subrange(0, 8));
    }
    if !bytes_eq(head, magic.as_slice()) {
        return None;
    }
    let size = u64_from_le_bytes(slice_subrange(f, 8, 16));
    let addr = u64_from_le_bytes(slice_subrange(f, 16, 24));
    let task_id = slice_to_vec(slice_subrange(f, 24, 32));
    let image = slice_to_vec(slice_subrange(f, 32, f.len()));
    proof {
        assert(f@.skip(32) =~= f@.subrange(32, f@.len() as int));
    }
    Some(LoadFrameParts { size, addr, task_id, image })
}

/// Round trip: a Load frame built from an image, an address and an
/// identifier parses back to exactly the image length, the address, the
/// padded identifier and the image bytes.
pub proof fn lemma_load_frame_round_trip(image: Seq<u8>, addr: u64, id: Seq<u8>)
    requires
        image.len() <= u64::MAX,
    ensures
        spec_parse_load_frame(spec_load_frame(image, addr, id)) == Some(
            ((image.len() as u64), addr, spec_task_id_bytes(id), image),
        ),
{
    lemma_auto_spec_u64_to_from_le_bytes();
    let f = spec_load_frame(image, addr, id);
    assert(spec_u64_to_le_bytes(image.len() as u64).len() == 8);
    assert(spec_u64_to_le_bytes(addr).len() == 8);
    assert(f.len() == 32 + image.len());
    assert(f.take(8) =~= spec_load_magic());
    assert(f.subrange(8, 16) =~= spec_u64_to_le_bytes(image.len() as u64));
    assert(f.subrange(16, 24) =~= spec_u64_to_le_bytes(addr));
    assert(f.subrange(24, 32) =~= spec_task_id_bytes(id));
    assert(f.skip(32) =~= image);
}

} // verus!
