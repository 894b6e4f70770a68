//! Core value types of an MQTT packet codec: the packet identifier (`Pid`),
//! the quality-of-service level (`QoS`), their coupling (`QosPid`), and the
//! error taxonomy shared by every encode/decode operation.

pub mod buffer;
pub mod error;
pub mod pid;
pub mod qos;
pub mod qospid;

pub use error::Error;
pub use pid::Pid;
pub use qos::QoS;
pub use qospid::QosPid;
