//! The MQTT packet identifier: a 16-bit value restricted to `[1, 65535]`.
//!
//! Zero is excluded at construction, and the wraparound arithmetic that
//! advances or rewinds an identifier sequence skips zero: the valid values
//! form a cyclic ring of size 65535 over `{1, ..., 65535}`.

use vstd::prelude::*;

use bytes::BytesMut;

use crate::buffer::{be_hi, be_lo, be_u16, bytes_view, read_u16_be, split_front, try_put_u16_be};
use crate::error::Error;

verus! {

/// Successor arithmetic on the ring `{1, ..., 65535}`: adding `d` to `cur`
/// moves `d` steps forward, wrapping `65535 -> 1` and never landing on 0.
pub open spec fn pid_add(cur: int, d: int) -> int {
    if cur + d <= 0xFFFF {
        cur + d
    } else {
        cur + d - 0xFFFF
    }
}

/// Predecessor arithmetic on the ring `{1, ..., 65535}`: subtracting `d`
/// from `cur` moves `d` steps back, wrapping `1 -> 65535` and never landing
/// on 0.
pub open spec fn pid_sub(cur: int, d: int) -> int {
    if cur - d >= 1 {
        cur - d
    } else {
        cur - d + 0xFFFF
    }
}

/// Packet identifier.
///
/// Carried by packets whose delivery requires acknowledgement
/// (`QoS::AtLeastOnce` or `QoS::ExactlyOnce`); the MQTT specification
/// disallows a packet identifier of 0.
#[derive(Debug, Clone, Copy, PartialEq, Eq, PartialOrd, Ord, Hash)]
pub struct Pid(u16);

impl View for Pid {
    type V = u16;

    closed spec fn view(&self) -> u16 {
        self.0
    }
}

impl Pid {
    /// A packet identifier never holds 0.
    #[verifier::type_invariant]
    pub open spec fn inv(self) -> bool {
        1 <= self@
    }

    /// Returns a new `Pid` with value `1`.
    pub fn new() -> (r: Self)
        ensures
            r@ == 1,
    {
        Pid(1)
    }

    /// Returns a new `Pid` with the given value; rejects 0.
    pub fn try_from(u: u16) -> (r: Result<Self, Error>)
        ensures
            u == 0 ==> r == Err::<Pid, Error>(Error::InvalidPid),
            u != 0 ==> (r matches Ok(p) && p@ == u),
    {
        if u == 0 {
            Err(Error::InvalidPid)
        } else {
            Ok(Pid(u))
        }
    }

    /// Get the `Pid` as a raw `u16`.
    pub fn get(self) -> (r: u16)
        ensures
            r == self@,
            1 <= r <= 0xFFFF,
    {
        proof {
            use_type_invariant(self);
        }
        self.0
    }

    /// Advance the identifier `d` steps forward on the ring; total, and the
    /// result is never 0.
    pub fn add(self, d: u16) -> (r: Pid)
        ensures
            r@ == pid_add(self@ as int, d as int),
    {
        proof {
            use_type_invariant(self);
        }
        let s: u32 = self.0 as u32 + d as u32;
        let n: u16 = if s <= 0xFFFF {
            s as u16
        } else {
            (s - 0xFFFF) as u16
        };
        Pid(n)
    }

    /// Rewind the identifier `d` steps back on the ring; total, and the
    /// result is never 0.
    pub fn sub(self, d: u16) -> (r: Pid)
        ensures
            r@ == pid_sub(self@ as int, d as int),
    {
        proof {
            use_type_invariant(self);
        }
        let cur: u32 = self.0 as u32;
        let n: u16 = if cur > d as u32 {
            (cur - d as u32) as u16
        } else {
            (cur + 0xFFFF - d as u32) as u16
        };
        Pid(n)
    }

    /// Consume exactly 2 bytes from the front of the buffer, interpret them
    /// as a big-endian unsigned 16-bit integer, and reject the value 0 as
    /// [`Pid::try_from`] does. The bytes are consumed whether or not the
    /// value is accepted.
    pub fn from_buffer(buf: &mut BytesMut) -> (r: Result<Self, Error>)
        requires
            bytes_view(*old(buf)).len() >= 2,
        ensures
            bytes_view(*final(buf)) == bytes_view(*old(buf)).skip(2),
            ({
                let v = be_u16(bytes_view(*old(buf))[0], bytes_view(*old(buf))[1]);
                &&& v == 0 ==> r == Err::<Pid, Error>(Error::InvalidPid)
                &&& v != 0 ==> (r matches Ok(p) && p@ == v)
            }),
    {
        let head = split_front(buf, 2);
        let v = read_u16_be(head);
        Self::try_from(v)
    }

    /// Append the value as 2 big-endian bytes. The buffer is never grown:
    /// when it lacks 2 bytes of spare capacity, the write fails with
    /// [`Error::WriteZero`] and the buffer is left unchanged.
    pub fn to_buffer(self, buf: &mut BytesMut) -> (r: Result<(), Error>)
        ensures
            r is Ok ==> bytes_view(*final(buf)) == bytes_view(*old(buf)).push(be_hi(self@)).push(
                be_lo(self@),
            ),
            r is Err ==> r == Err::<(), Error>(Error::WriteZero) && bytes_view(*final(buf))
                == bytes_view(*old(buf)),
    {
        if try_put_u16_be(buf, self.get()) {
            Ok(())
        } else {
            Err(Error::WriteZero)
        }
    }
}

/// Wire round-trip law: encoding any valid packet identifier into a 2-byte
/// buffer as [`Pid::to_buffer`] does, then decoding the two bytes back as
/// [`Pid::from_buffer`] does, yields the original identifier — in
/// particular, never the rejected value 0.
pub proof fn lemma_pid_wire_round_trip(p: Pid)
    requires
        1 <= p@,
    ensures
        ({
            let enc = Seq::<u8>::empty().push(be_hi(p@)).push(be_lo(p@));
            &&& enc.len() == 2
            &&& be_u16(enc[0], enc[1]) == p@
            &&& be_u16(enc[0], enc[1]) != 0
        }),
{
    crate::buffer::lemma_be_round_trip(p@);
}

/// Ring arithmetic stays within `[1, 65535]`: neither operation ever
/// produces 0.
pub proof fn lemma_ring_in_range(cur: int, d: int)
    requires
        1 <= cur <= 0xFFFF,
        0 <= d <= 0xFFFF,
    ensures
        1 <= pid_add(cur, d) <= 0xFFFF,
        1 <= pid_sub(cur, d) <= 0xFFFF,
{
}

/// Round-trip law of the identifier arithmetic: for any current value in
/// `[1, 65535]` and any delta in `[0, 65535]`, adding then subtracting the
/// delta — or subtracting then adding it — returns the original value.
pub proof fn lemma_add_sub_round_trip(cur: int, d: int)
    requires
        1 <= cur <= 0xFFFF,
        0 <= d <= 0xFFFF,
    ensures
        pid_sub(pid_add(cur, d), d) == cur,
        pid_add(pid_sub(cur, d), d) == cur,
{
}

} // verus!
