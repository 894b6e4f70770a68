//! The byte buffer that the codec reads from and writes to: `bytes::BytesMut`,
//! held behind trusted declarations, with its contents modelled as a
//! `Seq<u8>`, and the big-endian split of a 16-bit value into two bytes.

use vstd::prelude::*;

use bytes::{Buf, BufMut, BytesMut, IntoBuf};

verus! {

/// The bytes that a `bytes::BytesMut` buffer holds, front first.
pub uninterp spec fn bytes_view(b: BytesMut) -> Seq<u8>;

/// `bytes::BytesMut`: the growable byte buffer of the `bytes` crate, opaque
/// to this library but for the contents named by [`bytes_view`].
#[verifier::external_type_specification]
#[verifier::external_body]
pub struct ExBytesMut(BytesMut);

/// The high byte of `v` in big-endian order.
pub open spec fn be_hi(v: u16) -> u8 {
    (v / 256) as u8
}

/// The low byte of `v` in big-endian order.
pub open spec fn be_lo(v: u16) -> u8 {
    (v % 256) as u8
}

/// The 16-bit value read back from two bytes in big-endian order.
pub open spec fn be_u16(hi: u8, lo: u8) -> u16 {
    (hi as int * 256 + lo as int) as u16
}

/// Big-endian round trip: splitting a 16-bit value into its two bytes and
/// reading them back yields the original value, so a nonzero value never
/// comes back as the rejected identifier 0.
pub proof fn lemma_be_round_trip(v: u16)
    ensures
        be_u16(be_hi(v), be_lo(v)) == v,
        v != 0 ==> be_u16(be_hi(v), be_lo(v)) != 0,
{
    vstd::arithmetic::div_mod::lemma_fundamental_div_mod(v as int, 256);
}

/// Relies on `bytes::BytesMut::split_to`: the first `at` bytes leave the
/// front of the buffer and come back as a buffer of their own. It panics
/// when `at` exceeds the length, which the precondition rules out.
#[verifier::external_body]
pub fn split_front(b: &mut BytesMut, at: usize) -> (r: BytesMut)
    requires
        at <= bytes_view(*old(b)).len(),
    ensures
        bytes_view(r) == bytes_view(*old(b)).take(at as int),
        bytes_view(*final(b)) == bytes_view(*old(b)).skip(at as int),
{
    b.split_to(at)
}

/// Relies on `bytes::Buf::get_u16_be`, reached through `bytes::IntoBuf` for
/// `bytes::BytesMut`: reads the first two bytes as a big-endian unsigned
/// 16-bit integer. It panics on a shorter buffer, which the precondition
/// rules out.
#[verifier::external_body]
pub fn read_u16_be(b: BytesMut) -> (r: u16)
    requires
        bytes_view(b).len() >= 2,
    ensures
        r == be_u16(bytes_view(b)[0], bytes_view(b)[1]),
{
    b.into_buf().get_u16_be()
}

/// Relies on `bytes::BufMut::put_u16_be` and `bytes::BufMut::remaining_mut`
/// for `bytes::BytesMut`, whose writes never grow the buffer and panic past
/// its capacity: when two bytes of spare capacity remain the value is
/// appended as two big-endian bytes, and otherwise the buffer is left
/// unchanged.
#[verifier::external_body]
pub fn try_put_u16_be(b: &mut BytesMut, v: u16) -> (ok: bool)
    ensures
        ok ==> bytes_view(*final(b)) == bytes_view(*old(b)).push(be_hi(v)).push(be_lo(v)),
        !ok ==> bytes_view(*final(b)) == bytes_view(*old(b)),
{
    if b.remaining_mut() >= 2 {
        b.put_u16_be(v);
        true
    } else {
        false
    }
}

} // verus!
