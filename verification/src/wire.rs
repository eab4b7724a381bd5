//! The page-oracle wire format.
//!
//! A request is exactly 16 bytes: the little-endian physical address followed
//! by the little-endian length.  The response carries exactly `length` raw
//! bytes with no framing; a failed round trip is signalled out of band as a
//! fatal abort, never in the byte stream.

use vstd::prelude::*;
use vstd::bytes::{
    lemma_auto_spec_u64_to_from_le_bytes, spec_u64_from_le_bytes, spec_u64_to_le_bytes,
    u64_from_le_bytes, u64_to_le_bytes,
};
use vstd::slice::slice_subrange;

verus! {

/// Number of bytes in an encoded page-oracle request.
pub const PAGE_REQUEST_LEN: usize = 16;

/// The 16-byte oracle request asking for `length` bytes at `paddr`.
pub open spec fn spec_page_request(paddr: u64, length: u64) -> Seq<u8> {
    spec_u64_to_le_bytes(paddr) + spec_u64_to_le_bytes(length)
}

/// Build the oracle request the enclave sends for one page fetch.
pub fn encode_page_request(paddr: u64, length: u64) -> (r: Vec<u8>)
    ensures
        r@ == spec_page_request(paddr, length),
        r@.len() == PAGE_REQUEST_LEN,
{
    proof {
        lemma_auto_spec_u64_to_from_le_bytes();
    }
    let mut r = u64_to_le_bytes(paddr);
    let mut tail = u64_to_le_bytes(length);
    r.append(&mut tail);
    r
}

/// Decode an oracle request on the bridge side.  Succeeds exactly on
/// well-formed 16-byte requests and recovers the encoded address and length.
pub fn decode_page_request(buf: &[u8]) -> (r: Option<(u64, u64)>)
    ensures
        match r {
            Some(req) => buf@ == spec_page_request(req.0, req.1),
            None => buf@.len() != PAGE_REQUEST_LEN,
        },
{
    if buf.len() != PAGE_REQUEST_LEN {
        return None;
    }
    let paddr = u64_from_le_bytes(slice_subrange(buf, 0, 8));
    let length = u64_from_le_bytes(slice_subrange(buf, 8, 16));
    proof {
        lemma_auto_spec_u64_to_from_le_bytes();
        assert(buf@ =~= buf@.subrange(0, 8) + buf@.subrange(8, 16));
    }
    Some((paddr, length))
}

/// Requests are unambiguous: equal request bytes can only have been encoded
/// from the same address and length.
pub proof fn lemma_page_request_injective(p1: u64, l1: u64, p2: u64, l2: u64)
    requires
        spec_page_request(p1, l1) == spec_page_request(p2, l2),
    ensures
        p1 == p2,
        l1 == l2,
{
    lemma_auto_spec_u64_to_from_le_bytes();
    assert(spec_page_request(p1, l1).subrange(0, 8) =~= spec_u64_to_le_bytes(p1));
    assert(spec_page_request(p1, l1).subrange(8, 16) =~= spec_u64_to_le_bytes(l1));
    assert(spec_page_request(p2, l2).subrange(0, 8) =~= spec_u64_to_le_bytes(p2));
    assert(spec_page_request(p2, l2).subrange(8, 16) =~= spec_u64_to_le_bytes(l2));
    assert(p1 == spec_u64_from_le_bytes(spec_u64_to_le_bytes(p1)));
    assert(l1 == spec_u64_from_le_bytes(spec_u64_to_le_bytes(l1)));
}

} // verus!
