//! Byte buffers for synthesized wire responses.
//!
//! The proxy builds protocol frames in `bytes::BytesMut` buffers. The buffer
//! type is opaque to the verifier, so this module declares it and gives each
//! operation the library relies on a contract over `buf_bytes`, the sequence
//! of bytes a buffer holds. All frame-building logic on top of these
//! operations is verified.

use vstd::prelude::*;

verus! {

#[verifier::external_type_specification]
#[verifier::external_body]
pub struct ExBytesMut(bytes::BytesMut);

/// The bytes held by a `bytes::BytesMut` buffer, in order.
pub uninterp spec fn buf_bytes(b: bytes::BytesMut) -> Seq<u8>;

/// The byte sequences held by a vector of buffers, in order.
pub open spec fn rows_view(rows: Seq<bytes::BytesMut>) -> Seq<Seq<u8>> {
    rows.map_values(|b: bytes::BytesMut| buf_bytes(b))
}

/// The byte sequences held by each per-statement response, in order.
pub open spec fn responses_view(rs: Seq<Vec<bytes::BytesMut>>) -> Seq<Seq<Seq<u8>>> {
    rs.map_values(|v: Vec<bytes::BytesMut>| rows_view(v@))
}

/// The two big-endian bytes of a 16-bit value.
pub open spec fn be16(v: u16) -> Seq<u8> {
    seq![(v >> 8) as u8, v as u8]
}

/// The four big-endian bytes of a 32-bit value.
pub open spec fn be32(v: u32) -> Seq<u8> {
    seq![(v >> 24) as u8, (v >> 16) as u8, (v >> 8) as u8, v as u8]
}

/// Relies on `bytes::BytesMut::new`: a freshly created buffer is empty.
#[verifier::external_body]
pub fn buf_new() -> (r: bytes::BytesMut)
    ensures
        buf_bytes(r) == Seq::<u8>::empty(),
{
    bytes::BytesMut::new()
}

/// Relies on `bytes::BytesMut::len`: the number of bytes the buffer holds.
#[verifier::external_body]
pub fn buf_len(b: &bytes::BytesMut) -> (r: usize)
    ensures
        r == buf_bytes(*b).len(),
{
    b.len()
}

/// Relies on `bytes::BufMut::put_u8` for `BytesMut`: appends the byte.
#[verifier::external_body]
pub fn buf_put_u8(b: &mut bytes::BytesMut, v: u8)
    requires
        buf_bytes(*old(b)).len() + 1 <= usize::MAX,
    ensures
        buf_bytes(*final(b)) == buf_bytes(*old(b)).push(v),
{
    bytes::BufMut::put_u8(b, v)
}

/// Relies on `bytes::BufMut::put_u16` for `BytesMut`: appends the two
/// big-endian bytes of the value.
#[verifier::external_body]
pub fn buf_put_u16(b: &mut bytes::BytesMut, v: u16)
    requires
        buf_bytes(*old(b)).len() + 2 <= usize::MAX,
    ensures
        buf_bytes(*final(b)) == buf_bytes(*old(b)) + be16(v),
{
    bytes::BufMut::put_u16(b, v)
}

/// Relies on `bytes::BufMut::put_u32` for `BytesMut`: appends the four
/// big-endian bytes of the value.
#[verifier::external_body]
pub fn buf_put_u32(b: &mut bytes::BytesMut, v: u32)
    requires
        buf_bytes(*old(b)).len() + 4 <= usize::MAX,
    ensures
        buf_bytes(*final(b)) == buf_bytes(*old(b)) + be32(v),
{
    bytes::BufMut::put_u32(b, v)
}

/// Relies on `bytes::BytesMut::extend_from_slice`: appends a copy of the
/// slice's bytes.
#[verifier::external_body]
pub fn buf_extend_from_vec(b: &mut bytes::BytesMut, v: &Vec<u8>)
    requires
        buf_bytes(*old(b)).len() + v@.len() <= usize::MAX,
    ensures
        buf_bytes(*final(b)) == buf_bytes(*old(b)) + v@,
{
    b.extend_from_slice(v)
}

/// Relies on `bytes::BytesMut::extend_from_slice` (through the buffer's
/// `Deref` to `[u8]`): appends a copy of the other buffer's bytes.
#[verifier::external_body]
pub fn buf_extend_from_buf(b: &mut bytes::BytesMut, other: &bytes::BytesMut)
    requires
        buf_bytes(*old(b)).len() + buf_bytes(*other).len() <= usize::MAX,
    ensures
        buf_bytes(*final(b)) == buf_bytes(*old(b)) + buf_bytes(*other),
{
    b.extend_from_slice(other)
}

/// Relies on `Clone` for `bytes::BytesMut`: the clone holds a copy of the
/// same bytes.
#[verifier::external_body]
pub fn buf_clone(b: &bytes::BytesMut) -> (r: bytes::BytesMut)
    ensures
        buf_bytes(r) == buf_bytes(*b),
{
    b.clone()
}

/// Deep-copies a vector of buffers, preserving the bytes each one holds.
pub fn clone_rows(rows: &Vec<bytes::BytesMut>) -> (r: Vec<bytes::BytesMut>)
    ensures
        rows_view(r@) == rows_view(rows@),
{
    let mut r: Vec<bytes::BytesMut> = Vec::new();
    for i in 0..rows.len()
        invariant
            r@.len() == i,
            forall|j: int| 0 <= j < i ==> buf_bytes(#[trigger] r@[j]) == buf_bytes(rows@[j]),
    {
        r.push(buf_clone(&rows[i]));
    }
    proof {
        assert(rows_view(r@) =~= rows_view(rows@));
    }
    r
}

} // verus!
