//! The combined quality-of-service/identifier discriminant carried by
//! PUBLISH packets. A packet identifier is present if and only if the level
//! is not `AtMostOnce`, and the coupling is structural: no shape of this
//! type can hold an acknowledged level without an identifier.

use vstd::prelude::*;

use crate::pid::Pid;
use crate::qos::{qos_of_byte, QoS};

verus! {

/// Combined [`QoS`]/[`Pid`], used in PUBLISH packets.
#[derive(Debug, Clone, Copy, PartialEq, Eq)]
pub enum QosPid {
    AtMostOnce,
    AtLeastOnce(Pid),
    ExactlyOnce(Pid),
}

/// The packet identifier a `QosPid` carries, if any.
pub open spec fn qospid_pid(qp: QosPid) -> Option<Pid> {
    match qp {
        QosPid::AtMostOnce => None,
        QosPid::AtLeastOnce(p) => Some(p),
        QosPid::ExactlyOnce(p) => Some(p),
    }
}

/// The quality-of-service level of a `QosPid`, ignoring any identifier.
pub open spec fn qospid_qos(qp: QosPid) -> QoS {
    match qp {
        QosPid::AtMostOnce => QoS::AtMostOnce,
        QosPid::AtLeastOnce(_) => QoS::AtLeastOnce,
        QosPid::ExactlyOnce(_) => QoS::ExactlyOnce,
    }
}

/// The structural invariant of the coupling: a packet identifier is present
/// if and only if the quality-of-service level requires acknowledgement,
/// that is, differs from `AtMostOnce`.
pub proof fn lemma_pid_present_iff_acknowledged(qp: QosPid)
    ensures
        qospid_pid(qp) is Some <==> qospid_qos(qp) != QoS::AtMostOnce,
{
}

impl QosPid {
    /// Build the shape that a level byte and a raw identifier call for:
    /// level 0 carries no identifier, levels 1 and 2 carry the identifier.
    pub fn from_u8u16(qos: u8, pid: u16) -> (r: Self)
        requires
            qos <= 2,
            qos != 0 ==> pid != 0,
        ensures
            qospid_qos(r) == qos_of_byte(qos),
            qos == 0 ==> r == QosPid::AtMostOnce,
            qos != 0 ==> (qospid_pid(r) matches Some(p) && p@ == pid),
    {
        match qos {
            0 => QosPid::AtMostOnce,
            1 => QosPid::AtLeastOnce(Pid::try_from(pid).unwrap()),
            _ => QosPid::ExactlyOnce(Pid::try_from(pid).unwrap()),
        }
    }

    /// Extract the [`Pid`] from a `QosPid`, if any: `None` exactly on
    /// [`QosPid::AtMostOnce`]. Total.
    pub fn pid(self) -> (r: Option<Pid>)
        ensures
            r == qospid_pid(self),
            r is Some <==> !(self is AtMostOnce),
            r matches Some(p) ==> 1 <= p@ <= 0xFFFF,
    {
        match self {
            QosPid::AtMostOnce => None,
            QosPid::AtLeastOnce(p) => {
                proof {
                    use_type_invariant(p);
                }
                Some(p)
            },
            QosPid::ExactlyOnce(p) => {
                proof {
                    use_type_invariant(p);
                }
                Some(p)
            },
        }
    }

    /// Extract the [`QoS`] from a `QosPid`: the structural projection to
    /// the level, ignoring any carried identifier. Total.
    pub fn qos(self) -> (r: QoS)
        ensures
            r == qospid_qos(self),
    {
        match self {
            QosPid::AtMostOnce => QoS::AtMostOnce,
            QosPid::AtLeastOnce(_) => QoS::AtLeastOnce,
            QosPid::ExactlyOnce(_) => QoS::ExactlyOnce,
        }
    }
}

} // verus!
