//! Failures of a command exchange.

use crate::packet::Packet;
use vstd::prelude::*;

verus! {

/// Why a command exchange did not yield its result.
#[derive(Clone, Debug, PartialEq, Eq)]
pub enum Error {
    /// A reply names an unknown identifier or is shorter than its shape requires.
    InvalidPacket,
    /// A configuration was to be written and none is cached.
    EmptyConfig,
    /// A transport call failed.
    Disconnect,
    /// A read delivered nothing.
    Timeout,
    /// The payload of a configuration reply could not be decoded as a record.
    ConfigCborParseFailed,
    /// A configuration field holds a value outside its range: the field and the value.
    ConfigDataCheckFailed(&'static str, usize),
    /// The device answered with another identifier than the success marker.
    UnexceptedResponse(Packet),
    /// The device refused the command with this request identifier.
    CommandFailed(u8),
    /// A text reply is not UTF-8.
    Utf8Error,
    /// Any other failure, in words.
    Other(&'static str),
}

} // verus!
