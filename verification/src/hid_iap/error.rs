//! Failures of a programming session.

use crate::hid_iap::packet::IAPCommand;
use vstd::prelude::*;

verus! {

/// Why a step of a programming session did not succeed.
#[derive(Clone, Copy, Debug, PartialEq, Eq)]
pub enum Error {
    /// The device answered this command with a status other than `(0, 0)`.
    CommandFailed(IAPCommand),
    /// A transport call failed or delivered nothing.
    Disconnect,
    /// A step was asked for and no image is stored.
    NoFirmwareData,
    /// Any other failure, in words.
    Other(&'static str),
}

} // verus!
