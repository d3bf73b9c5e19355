//! The byte containers of the `bytes` crate (re-exported by `tokio_util`) that
//! frames are read from and written to, with the contracts this library relies on.
use vstd::prelude::*;

use tokio_util::bytes::{Buf, BufMut, Bytes, BytesMut};

verus! {

/// `bytes::BytesMut`; the bytes it holds are `bytes_mut_view`.
#[verifier::external_type_specification]
#[verifier::external_body]
pub struct ExBytesMut(BytesMut);

/// `bytes::Bytes`; the bytes it holds are `bytes_view`.
#[verifier::external_type_specification]
#[verifier::external_body]
pub struct ExBytes(Bytes);

/// The bytes a `BytesMut` holds, first to last.
pub uninterp spec fn bytes_mut_view(b: BytesMut) -> Seq<u8>;

/// The bytes a `Bytes` holds, first to last.
pub uninterp spec fn bytes_view(b: Bytes) -> Seq<u8>;

/// `BytesMut::len`: the number of bytes the buffer holds.
#[verifier::external_body]
pub(crate) fn buf_len(b: &BytesMut) -> (n: usize)
    ensures
        n == bytes_mut_view(*b).len(),
{
    b.len()
}

/// Indexing a `BytesMut` (through its `Deref` to `[u8]`): the byte at `i`.
#[verifier::external_body]
pub(crate) fn buf_byte_at(b: &BytesMut, i: usize) -> (x: u8)
    requires
        i < bytes_mut_view(*b).len(),
    ensures
        x == bytes_mut_view(*b)[i as int],
{
    b[i]
}

/// `Buf::get_u8` on a `BytesMut`: takes the first byte off the front.
/// It panics on an empty buffer, which `requires` leaves out.
#[verifier::external_body]
pub(crate) fn buf_get_u8(b: &mut BytesMut) -> (x: u8)
    requires
        bytes_mut_view(*old(b)).len() >= 1,
    ensures
        x == bytes_mut_view(*old(b))[0],
        bytes_mut_view(*final(b)) == bytes_mut_view(*old(b)).drop_first(),
{
    b.get_u8()
}

/// `BytesMut::split_to`: the first `at` bytes leave the buffer and are returned.
/// It panics when `at` exceeds the length, which `requires` leaves out.
#[verifier::external_body]
pub(crate) fn buf_split_to(b: &mut BytesMut, at: usize) -> (head: BytesMut)
    requires
        at <= bytes_mut_view(*old(b)).len(),
    ensures
        bytes_mut_view(head) == bytes_mut_view(*old(b)).take(at as int),
        bytes_mut_view(*final(b)) == bytes_mut_view(*old(b)).skip(at as int),
{
    b.split_to(at)
}

/// `BytesMut::freeze`: the same bytes as an immutable `Bytes`.
#[verifier::external_body]
pub(crate) fn buf_freeze(b: BytesMut) -> (r: Bytes)
    ensures
        bytes_view(r) == bytes_mut_view(b),
{
    b.freeze()
}

/// `BufMut::put_u8` on a `BytesMut`: appends one byte. Growing past
/// `isize::MAX` bytes panics, which `requires` leaves out.
#[verifier::external_body]
pub(crate) fn buf_put_u8(b: &mut BytesMut, x: u8)
    requires
        bytes_mut_view(*old(b)).len() + 1 <= isize::MAX,
    ensures
        bytes_mut_view(*final(b)) == bytes_mut_view(*old(b)).push(x),
{
    b.put_u8(x)
}

/// `BufMut::put` of a `Bytes` into a `BytesMut`: appends all of its bytes.
/// Growing past `isize::MAX` bytes panics, which `requires` leaves out.
#[verifier::external_body]
pub(crate) fn buf_put_bytes(b: &mut BytesMut, data: Bytes)
    requires
        bytes_mut_view(*old(b)).len() + bytes_view(data).len() <= isize::MAX,
    ensures
        bytes_mut_view(*final(b)) == bytes_mut_view(*old(b)) + bytes_view(data),
{
    b.put(data)
}

/// `Bytes::len`: the number of bytes held.
#[verifier::external_body]
pub(crate) fn bytes_len(b: &Bytes) -> (n: usize)
    ensures
        n == bytes_view(*b).len(),
{
    b.len()
}

/// Indexing a `Bytes` (through its `Deref` to `[u8]`): the byte at `i`.
#[verifier::external_body]
pub(crate) fn bytes_at(b: &Bytes, i: usize) -> (x: u8)
    requires
        i < bytes_view(*b).len(),
    ensures
        x == bytes_view(*b)[i as int],
{
    b[i]
}

/// `Bytes::clone`: another handle on the same bytes.
pub assume_specification[ <Bytes as Clone>::clone ](b: &Bytes) -> (r: Bytes)
    ensures
        bytes_view(r) == bytes_view(*b),
;

} // verus!
