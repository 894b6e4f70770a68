//! The packet delivery quality-of-service level: a 3-valued enum mapped to
//! the wire bytes 0, 1 and 2; every other byte is a decode error.

use vstd::prelude::*;

use crate::error::Error;

verus! {

/// Packet delivery quality-of-service level.
#[derive(Debug, Clone, Copy, PartialEq, Eq)]
pub enum QoS {
    /// `QoS 0`. No ack needed.
    AtMostOnce,
    /// `QoS 1`. One ack needed.
    AtLeastOnce,
    /// `QoS 2`. Two acks needed.
    ExactlyOnce,
}

/// The wire byte of a quality-of-service level.
pub open spec fn qos_to_byte(q: QoS) -> u8 {
    match q {
        QoS::AtMostOnce => 0,
        QoS::AtLeastOnce => 1,
        QoS::ExactlyOnce => 2,
    }
}

/// The quality-of-service level a wire byte in `[0, 2]` decodes to.
pub open spec fn qos_of_byte(byte: u8) -> QoS
    recommends
        byte <= 2,
{
    if byte == 0 {
        QoS::AtMostOnce
    } else if byte == 1 {
        QoS::AtLeastOnce
    } else {
        QoS::ExactlyOnce
    }
}

/// The byte mapping round-trips both ways: every level comes back from its
/// own byte, and every byte in `[0, 2]` comes back from its own level.
pub proof fn lemma_qos_byte_round_trip(q: QoS, byte: u8)
    requires
        byte <= 2,
    ensures
        qos_of_byte(qos_to_byte(q)) == q,
        qos_to_byte(qos_of_byte(byte)) == byte,
{
}

impl QoS {
    /// Encode the level as its wire byte: 0, 1 or 2. Total.
    pub fn to_u8(&self) -> (r: u8)
        ensures
            r == qos_to_byte(*self),
            r <= 2,
    {
        match *self {
            QoS::AtMostOnce => 0,
            QoS::AtLeastOnce => 1,
            QoS::ExactlyOnce => 2,
        }
    }

    /// Decode a wire byte: 0, 1 and 2 map to the three levels, and any
    /// other byte fails with [`Error::InvalidQos`] carrying that byte.
    pub fn from_u8(byte: u8) -> (r: Result<QoS, Error>)
        ensures
            byte <= 2 ==> r == Ok::<QoS, Error>(qos_of_byte(byte)),
            byte > 2 ==> r == Err::<QoS, Error>(Error::InvalidQos(byte)),
    {
        match byte {
            0 => Ok(QoS::AtMostOnce),
            1 => Ok(QoS::AtLeastOnce),
            2 => Ok(QoS::ExactlyOnce),
            n => Err(Error::InvalidQos(n)),
        }
    }
}

} // verus!
