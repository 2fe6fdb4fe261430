//! What a reply packet means: the parts that every family reads the same way.

use crate::dispatch::OK;
use crate::error::Error;
use crate::models::{KeyHallConfig, KeyRTStatus, KeyState};
use crate::packet::{Packet, PacketModel};
use crate::wire::{read_u16_be, u16_from_be};
use vstd::prelude::*;
use vstd::slice::slice_subrange;
use vstd::utf8::{decode_utf8, valid_utf8};

verus! {

/// `r` is what a reply gives to a command that the device may refuse:
/// nothing if it carries the success marker, else the refusal of the
/// request with identifier `request`.
pub open spec fn grants(request: u8, reply: PacketModel, r: Result<(), Error>) -> bool {
    if reply.id == OK {
        r is Ok
    } else {
        r == Err::<(), Error>(Error::CommandFailed(request))
    }
}

/// Reads the reply to a command that the device may refuse.
pub fn parse_granted(request: u8, reply: &Packet) -> (r: Result<(), Error>)
    ensures
        grants(request, reply@, r),
{
    if reply.id == OK {
        Ok(())
    } else {
        Err(Error::CommandFailed(request))
    }
}

/// Calls `String::from_utf8`, which gives the text that the bytes encode
/// if they are valid UTF-8 and fails otherwise.
#[verifier::external_body]
fn utf8_to_string(bytes: Vec<u8>) -> (r: Option<String>)
    ensures
        r is Some <==> valid_utf8(bytes@),
        r matches Some(s) ==> s@ == decode_utf8(bytes@),
{
    String::from_utf8(bytes).ok()
}

/// `r` is what a reply gives to a command that asks for a text.
pub open spec fn text_answer(reply: PacketModel, r: Result<String, Error>) -> bool {
    if reply.id != OK {
        r matches Err(Error::UnexceptedResponse(p)) && p@ == reply
    } else if valid_utf8(reply.data) {
        r matches Ok(s) && s@ == decode_utf8(reply.data)
    } else {
        r == Err::<String, Error>(Error::Utf8Error)
    }
}

/// Reads the reply to a command that asks for a text.
pub fn parse_text(reply: Packet) -> (r: Result<String, Error>)
    ensures
        text_answer(reply@, r),
{
    if reply.id != OK {
        return Err(Error::UnexceptedResponse(reply));
    }
    match utf8_to_string(reply.data) {
        Some(s) => Ok(s),
        None => Err(Error::Utf8Error),
    }
}

/// The big-endian number that the two bytes at `at` hold.
pub open spec fn be16_at(data: Seq<u8>, at: int) -> u16 {
    u16_from_be(data[at], data[at + 1]) as u16
}

/// Reads the big-endian number at `at`.
pub fn read_be16(data: &Vec<u8>, at: usize) -> (r: u16)
    requires
        at + 2 <= data.len(),
    ensures
        r == be16_at(data@, at as int),
{
    read_u16_be(slice_subrange(data.as_slice(), at, at + 2))
}

/// The sensor calibration that the six bytes at `at` hold: the highest
/// reading, the lowest reading, and the middle point.
pub open spec fn hall_at(data: Seq<u8>, at: int) -> KeyHallConfig {
    KeyHallConfig {
        adc_max: be16_at(data, at),
        adc_min: be16_at(data, at + 2),
        hall_middle: be16_at(data, at + 4),
    }
}

/// Reads the sensor calibration at `at`.
pub fn read_hall(data: &Vec<u8>, at: usize) -> (r: KeyHallConfig)
    requires
        at + 6 <= data.len(),
    ensures
        r == hall_at(data@, at as int),
{
    KeyHallConfig {
        adc_max: read_be16(data, at),
        adc_min: read_be16(data, at + 2),
        hall_middle: read_be16(data, at + 4),
    }
}

/// The live readings that the six bytes at `at` hold, if the last of them
/// names a key state: raw value, linearized value, press percentage, state.
pub open spec fn status_at(data: Seq<u8>, at: int) -> Option<KeyRTStatus> {
    match KeyState::of_code(data[at + 5] as int) {
        Some(key_state) => Some(
            KeyRTStatus {
                adc_value: be16_at(data, at),
                linear_value: be16_at(data, at + 2),
                press_percentage: data[at + 4],
                key_state,
            },
        ),
        None => None,
    }
}

/// Reads the live readings at `at`.
pub fn read_status(data: &Vec<u8>, at: usize) -> (r: Option<KeyRTStatus>)
    requires
        at + 6 <= data.len(),
    ensures
        r == status_at(data@, at as int),
{
    match KeyState::from_u8(data[at + 5]) {
        Some(key_state) => Some(
            KeyRTStatus {
                adc_value: read_be16(data, at),
                linear_value: read_be16(data, at + 2),
                press_percentage: data[at + 4],
                key_state,
            },
        ),
        None => None,
    }
}

/// The live readings that the eight bytes at `at` hold in the wide form,
/// where percentage and state take two bytes each and the percentage keeps
/// its low byte.
pub open spec fn wide_status_at(data: Seq<u8>, at: int) -> Option<KeyRTStatus> {
    match KeyState::of_code(be16_at(data, at + 6) as int) {
        Some(key_state) => Some(
            KeyRTStatus {
                adc_value: be16_at(data, at),
                linear_value: be16_at(data, at + 2),
                press_percentage: data[at + 5],
                key_state,
            },
        ),
        None => None,
    }
}

/// Reads the live readings at `at` in the wide form.
pub fn read_wide_status(data: &Vec<u8>, at: usize) -> (r: Option<KeyRTStatus>)
    requires
        at + 8 <= data.len(),
    ensures
        r == wide_status_at(data@, at as int),
{
    match KeyState::from_u16(read_be16(data, at + 6)) {
        Some(key_state) => Some(
            KeyRTStatus {
                adc_value: read_be16(data, at),
                linear_value: read_be16(data, at + 2),
                press_percentage: data[at + 5],
                key_state,
            },
        ),
        None => None,
    }
}

/// The live readings of `keys` keys that a payload of six bytes per key holds.
pub open spec fn readings_of(data: Seq<u8>, keys: int) -> Seq<KeyRTStatus> {
    Seq::new(keys as nat, |i: int| status_at(data, 6 * i)->0)
}

/// The live readings of `keys` keys that a payload of eight bytes per key holds.
pub open spec fn wide_readings_of(data: Seq<u8>, keys: int) -> Seq<KeyRTStatus> {
    Seq::new(keys as nat, |i: int| wide_status_at(data, 8 * i)->0)
}

/// The sensor calibrations of `keys` keys that a payload of six bytes per key holds.
pub open spec fn halls_of(data: Seq<u8>, keys: int) -> Seq<KeyHallConfig> {
    Seq::new(keys as nat, |i: int| hall_at(data, 6 * i))
}

} // verus!
