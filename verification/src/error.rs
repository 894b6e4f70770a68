//! The closed set of failure reasons shared by every encode/decode operation
//! of the codec. An `Error` is always returned as a value; nothing in this
//! library panics or aborts on malformed input.

use vstd::prelude::*;

verus! {

/// `std::str::Utf8Error` carried as an opaque payload by
/// [`Error::InvalidString`]; this library never inspects it.
#[verifier::external_type_specification]
#[verifier::external_body]
pub struct ExUtf8Error(std::str::Utf8Error);

/// `std::io::ErrorKind` carried as an opaque payload by [`Error::IoError`];
/// this library never inspects it.
#[verifier::external_type_specification]
#[verifier::external_body]
pub struct ExIoErrorKind(std::io::ErrorKind);

/// Relies on the derived `Clone` of `std::io::ErrorKind`, a `Copy` enum:
/// cloning returns the value itself.
pub assume_specification[ <std::io::ErrorKind as Clone>::clone ](
    v: &std::io::ErrorKind,
) -> (r: std::io::ErrorKind)
    ensures
        r == *v,
;

/// Relies on the derived `Clone` of `std::str::Utf8Error`, a `Copy` struct:
/// cloning returns the value itself.
pub assume_specification[ <std::str::Utf8Error as Clone>::clone ](
    v: &std::str::Utf8Error,
) -> (r: std::str::Utf8Error)
    ensures
        r == *v,
;

/// Errors returned by the encode and decode operations of the codec.
#[derive(Debug, Clone, PartialEq, Eq)]
pub enum Error {
    /// Not enough space in the write buffer.
    ///
    /// It is the caller's responsibility to pass a big enough buffer.
    WriteZero,
    /// Tried to encode or decode a packet identifier equal to 0.
    InvalidPid,
    /// Tried to decode a QoS byte > 2; carries the offending byte.
    InvalidQos(u8),
    /// Tried to decode a connect return code > 5; carries the offending byte.
    InvalidConnectReturnCode(u8),
    /// Tried to decode an unknown protocol; carries its name and level byte.
    InvalidProtocol(String, u8),
    /// Tried to decode an invalid fixed header (packet type, flags, or
    /// remaining length).
    InvalidHeader,
    /// Tried to encode or decode an invalid or corrupt length field, as
    /// opposed to a buffer-size issue.
    InvalidLength,
    /// Tried to decode a non-utf8 string.
    InvalidString(std::str::Utf8Error),
    /// Catch-all wrapping a lower-level I/O failure's kind and message.
    IoError(std::io::ErrorKind, String),
}

} // verus!
