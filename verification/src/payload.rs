//! Datagram payloads. Payloads are opaque byte sequences capped by a small
//! receive buffer; the demo's fixed probe and the per-family fixed responses
//! are defined here, together with truncation to a received length and an
//! exact equality check.

use vstd::prelude::*;

use crate::addr::Family;

verus! {

/// Size of the receive buffer on both sides; longer datagrams are truncated
/// by the receive call.
pub const RECV_BUFFER_LEN: usize = 64;

/// The probe the client sends: the bytes of "Hello from client!".
pub open spec fn probe_bytes() -> Seq<u8> {
    seq![
        72u8, 101u8, 108u8, 108u8, 111u8, 32u8, 102u8, 114u8, 111u8, 109u8, 32u8, 99u8, 108u8,
        105u8, 101u8, 110u8, 116u8, 33u8,
    ]
}

/// The fixed response the listener for a family answers with: the bytes of
/// "ipv4" or of "ipv6".
pub open spec fn response_bytes(f: Family) -> Seq<u8> {
    match f {
        Family::V4 => seq![105u8, 112u8, 118u8, 52u8],
        Family::V6 => seq![105u8, 112u8, 118u8, 54u8],
    }
}

/// Build the probe payload, "Hello from client!".
pub fn probe_payload() -> (r: Vec<u8>)
    ensures
        r@ == probe_bytes(),
{
    let mut v: Vec<u8> = Vec::new();
    v.push(72u8);
    v.push(101u8);
    v.push(108u8);
    v.push(108u8);
    v.push(111u8);
    v.push(32u8);
    v.push(102u8);
    v.push(114u8);
    v.push(111u8);
    v.push(109u8);
    v.push(32u8);
    v.push(99u8);
    v.push(108u8);
    v.push(105u8);
    v.push(101u8);
    v.push(110u8);
    v.push(116u8);
    v.push(33u8);
    proof {
        assert(v@ =~= probe_bytes());
    }
    v
}

/// Build a family's fixed response payload, "ipv4" or "ipv6".
pub fn response_payload(f: Family) -> (r: Vec<u8>)
    ensures
        r@ == response_bytes(f),
{
    let mut v: Vec<u8> = Vec::new();
    v.push(105u8);
    v.push(112u8);
    v.push(118u8);
    match f {
        Family::V4 => v.push(52u8),
        Family::V6 => v.push(54u8),
    }
    proof {
        assert(v@ =~= response_bytes(f));
    }
    v
}

/// Copy a payload, byte for byte.
pub fn copy_bytes(v: &Vec<u8>) -> (r: Vec<u8>)
    ensures
        r@ == v@,
{
    let mut out: Vec<u8> = Vec::new();
    let mut i: usize = 0;
    while i < v.len()
        invariant
            i <= v.len(),
            out@ =~= v@.subrange(0, i as int),
        decreases v.len() - i,
    {
        out.push(v[i]);
        i = i + 1;
    }
    proof {
        assert(out@ =~= v@);
    }
    out
}

/// The first `len` bytes of a receive buffer: what a receive call that
/// reported `len` bytes actually delivered.
pub fn truncate_to(buf: &Vec<u8>, len: usize) -> (r: Vec<u8>)
    requires
        len <= buf.len(),
    ensures
        r@ == buf@.subrange(0, len as int),
{
    let mut out: Vec<u8> = Vec::new();
    let mut i: usize = 0;
    while i < len
        invariant
            i <= len,
            len <= buf.len(),
            out@ =~= buf@.subrange(0, i as int),
        decreases len - i,
    {
        out.push(buf[i]);
        i = i + 1;
    }
    out
}

/// Whether two payloads hold exactly the same bytes.
pub fn payload_matches(a: &Vec<u8>, b: &Vec<u8>) -> (r: bool)
    ensures
        r == (a@ == b@),
{
    if a.len() != b.len() {
        return false;
    }
    let mut i: usize = 0;
    while i < a.len()
        invariant
            i <= a.len(),
            a.len() == b.len(),
            forall|j: int| 0 <= j < i ==> a@[j] == b@[j],
        decreases a.len() - i,
    {
        if a[i] != b[i] {
            return false;
        }
        i = i + 1;
    }
    proof {
        assert(a@ =~= b@);
    }
    true
}

} // verus!
