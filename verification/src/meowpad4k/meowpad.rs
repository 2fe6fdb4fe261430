//! The command dispatcher of the four-key keypad.

use crate::device::{events_since, Device, IoEvent, Transport};
use crate::dispatch::{answers, command, command_rule, exchange, Family, Phase, Rule, Shape, OK};
use crate::error::Error;
use crate::meowpad4k::cbor;
use crate::meowpad4k::packet_id::PacketID;
use crate::models::{DeviceStatus, KeyHallConfig, KeyRTStatus};
use crate::packet::{Packet, PacketModel, MAX_PAYLOAD};
use crate::replies::{
    grants, hall_at, halls_of, parse_granted, parse_text, read_hall, read_wide_status,
    wide_readings_of, wide_status_at,
};
use vstd::prelude::*;
use vstd::utf8::{decode_utf8, valid_utf8};

verus! {

/// Keys of the keypad.
pub const KEYS: usize = 4;

/// Milliseconds that a ping waits for its reply.
pub const PING_WAIT: i32 = 1000;

/// What the dispatcher has cached from the device.
pub ghost struct Cached {
    pub key_config: Option<cbor::Keyboard>,
    pub light_config: Option<cbor::Light>,
    pub device_name: Option<Seq<char>>,
    pub firmware_version: Option<Seq<char>>,
}

/// The dispatcher of one keypad. `key_config` and `light_config` hold the
/// configuration records that were last decoded from the device or assigned
/// by the caller.
pub struct Meowpad<D: Device> {
    pub key_config: Option<cbor::Keyboard>,
    pub light_config: Option<cbor::Light>,
    pub device_name: Option<String>,
    pub firmware_version: Option<String>,
    pub link: Transport<D>,
}

impl<D: Device> View for Meowpad<D> {
    type V = Cached;

    open spec fn view(&self) -> Cached {
        Cached {
            key_config: self.key_config,
            light_config: self.light_config,
            device_name: match self.device_name {
                Some(s) => Some(s@),
                None => None,
            },
            firmware_version: match self.firmware_version {
                Some(s) => Some(s@),
                None => None,
            },
        }
    }
}

/// The rule of a keypad command.
pub open spec fn rule(id: PacketID, payload: Seq<u8>) -> Rule {
    command_rule(Family::Meowpad4k, id.code(), payload)
}

/// The device state that a status payload holds.
pub open spec fn status_of(data: Seq<u8>) -> DeviceStatus {
    DeviceStatus {
        key: data[0] != 0,
        light: Some(data[1] != 0),
        hall: data[2] != 0,
        enabled: data[3] != 0,
    }
}

impl<D: Device> Meowpad<D> {
    /// Every call made on the device so far.
    pub open spec fn trace(&self) -> Seq<IoEvent> {
        self.link.trace()
    }

    pub fn new(device: D) -> (pad: Meowpad<D>)
        ensures
            pad@ == (Cached {
                key_config: None,
                light_config: None,
                device_name: None,
                firmware_version: None,
            }),
            pad.trace() == Seq::<IoEvent>::empty(),
    {
        Meowpad {
            link: Transport::new(device),
            key_config: None,
            light_config: None,
            device_name: None,
            firmware_version: None,
        }
    }

    /// Whether the device answers a ping with a ping within the wait. Any
    /// other reply and no reply at all give `false`; only a failed
    /// transport call is an error.
    pub fn ping(&mut self) -> (r: Result<bool, Error>)
        ensures
            final(self)@ == old(self)@,
            old(self).trace().is_prefix_of(final(self).trace()),
            match (Rule {
                family: Family::Meowpad4k,
                wait: Some(PING_WAIT),
                request: Some(PacketModel { id: PacketID::Ping.code(), data: Seq::empty() }),
            }).run(events_since(old(self).trace(), final(self).trace())) {
                Phase::Done(Ok(reply)) => r == Ok::<bool, Error>(reply.id == PacketID::Ping.code()),
                Phase::Done(Err(Error::Disconnect)) => r == Err::<bool, Error>(Error::Disconnect),
                Phase::Done(Err(_)) => r == Ok::<bool, Error>(false),
                _ => false,
            },
    {
        let request = Packet::new(PacketID::Ping.to_u8(), Vec::new());
        match exchange(&mut self.link, Family::Meowpad4k, Some(PING_WAIT), Some(&request)) {
            Ok(reply) => Ok(reply.id == PacketID::Ping.to_u8()),
            Err(Error::Disconnect) => Err(Error::Disconnect),
            Err(_) => Ok(false),
        }
    }

    /// Sends a command and gives its reply if it is of the shape expected.
    fn ask(&mut self, id: PacketID, payload: Vec<u8>, shape: Shape) -> (r: Result<Packet, Error>)
        requires
            payload@.len() <= MAX_PAYLOAD,
        ensures
            final(self)@ == old(self)@,
            old(self).trace().is_prefix_of(final(self).trace()),
            answers(
                rule(id, payload@).run(events_since(old(self).trace(), final(self).trace())),
                shape,
                r,
                |reply: PacketModel, p: Packet| p@ == reply && p.wf(),
            ),
    {
        let request = Packet::new(id.to_u8(), payload);
        command(&mut self.link, Family::Meowpad4k, &request, shape)
    }

    /// Asks for the device name and caches it.
    pub fn get_device_name(&mut self) -> (r: Result<(), Error>)
        ensures
            old(self).trace().is_prefix_of(final(self).trace()),
            match rule(PacketID::GetDeviceName, Seq::empty()).run(
                events_since(old(self).trace(), final(self).trace()),
            ) {
                Phase::Done(Ok(reply)) => if reply.id == OK && valid_utf8(reply.data) {
                    r is Ok && final(self)@ == (Cached {
                        device_name: Some(decode_utf8(reply.data)),
                        ..old(self)@
                    })
                } else {
                    final(self)@ == old(self)@ && if reply.id != OK {
                        r matches Err(Error::UnexceptedResponse(p)) && p@ == reply
                    } else {
                        r == Err::<(), Error>(Error::Utf8Error)
                    }
                },
                Phase::Done(Err(e)) => r == Err::<(), Error>(e) && final(self)@ == old(self)@,
                _ => false,
            },
    {
        let request = Packet::new(PacketID::GetDeviceName.to_u8(), Vec::new());
        let reply = match exchange(&mut self.link, Family::Meowpad4k, None, Some(&request)) {
            Ok(reply) => reply,
            Err(e) => {
                return Err(e);
            },
        };
        match parse_text(reply) {
            Ok(name) => {
                self.device_name = Some(name);
                Ok(())
            },
            Err(e) => Err(e),
        }
    }

    /// Asks for the firmware version and caches it.
    pub fn get_firmware_version(&mut self) -> (r: Result<(), Error>)
        ensures
            old(self).trace().is_prefix_of(final(self).trace()),
            match rule(PacketID::GetFirmwareVersion, Seq::empty()).run(
                events_since(old(self).trace(), final(self).trace()),
            ) {
                Phase::Done(Ok(reply)) => if reply.id == OK && valid_utf8(reply.data) {
                    r is Ok && final(self)@ == (Cached {
                        firmware_version: Some(decode_utf8(reply.data)),
                        ..old(self)@
                    })
                } else {
                    final(self)@ == old(self)@ && if reply.id != OK {
                        r matches Err(Error::UnexceptedResponse(p)) && p@ == reply
                    } else {
                        r == Err::<(), Error>(Error::Utf8Error)
                    }
                },
                Phase::Done(Err(e)) => r == Err::<(), Error>(e) && final(self)@ == old(self)@,
                _ => false,
            },
    {
        let request = Packet::new(PacketID::GetFirmwareVersion.to_u8(), Vec::new());
        let reply = match exchange(&mut self.link, Family::Meowpad4k, None, Some(&request)) {
            Ok(reply) => reply,
            Err(e) => {
                return Err(e);
            },
        };
        match parse_text(reply) {
            Ok(version) => {
                self.firmware_version = Some(version);
                Ok(())
            },
            Err(e) => Err(e),
        }
    }

    /// Asks whether a key configuration and a light configuration are
    /// stored, whether the keys are calibrated, and whether they are enabled.
    pub fn get_status(&mut self) -> (r: Result<DeviceStatus, Error>)
        ensures
            final(self)@ == old(self)@,
            old(self).trace().is_prefix_of(final(self).trace()),
            answers(
                rule(PacketID::GetStatus, Seq::empty()).run(
                    events_since(old(self).trace(), final(self).trace()),
                ),
                Shape::AtLeast(4),
                r,
                |reply: PacketModel, v: DeviceStatus| v == status_of(reply.data),
            ),
    {
        match self.ask(PacketID::GetStatus, Vec::new(), Shape::AtLeast(4)) {
            Ok(reply) => Ok(
                DeviceStatus {
                    key: reply.data[0] != 0,
                    light: Some(reply.data[1] != 0),
                    hall: reply.data[2] != 0,
                    enabled: reply.data[3] != 0,
                },
            ),
            Err(e) => Err(e),
        }
    }

    /// Asks for the live readings of the four keys.
    pub fn get_debug_value(&mut self) -> (r: Result<[KeyRTStatus; 4], Error>)
        ensures
            final(self)@ == old(self)@,
            old(self).trace().is_prefix_of(final(self).trace()),
            answers(
                rule(PacketID::Debug, Seq::empty()).run(
                    events_since(old(self).trace(), final(self).trace()),
                ),
                Shape::WideReadings(KEYS),
                r,
                |reply: PacketModel, v: [KeyRTStatus; 4]|
                    v@ == wide_readings_of(reply.data, KEYS as int),
            ),
    {
        let reply = match self.ask(PacketID::Debug, Vec::new(), Shape::WideReadings(KEYS)) {
            Ok(reply) => reply,
            Err(e) => {
                return Err(e);
            },
        };
        let mut keys = [KeyRTStatus::default();4];
        let mut i: usize = 0;
        while i < KEYS
            invariant
                i <= KEYS,
                Shape::WideReadings(KEYS).holds(reply.data@),
                forall|j: int| 0 <= j < i ==> keys@[j] == wide_status_at(reply.data@, 8 * j)->0,
            decreases KEYS - i,
        {
            assert(wide_status_at(reply.data@, 8 * (i as int)) is Some);
            match read_wide_status(&reply.data, 8 * i) {
                Some(key) => {
                    keys[i] = key;
                },
                None => {},
            }
            i += 1;
        }
        assert(keys@ =~= wide_readings_of(reply.data@, KEYS as int));
        Ok(keys)
    }

    /// Asks for the sensor calibration of the four keys.
    pub fn get_hall_config(&mut self) -> (r: Result<[KeyHallConfig; 4], Error>)
        ensures
            final(self)@ == old(self)@,
            old(self).trace().is_prefix_of(final(self).trace()),
            answers(
                rule(PacketID::GetHallConfig, Seq::empty()).run(
                    events_since(old(self).trace(), final(self).trace()),
                ),
                Shape::AtLeast(24),
                r,
                |reply: PacketModel, v: [KeyHallConfig; 4]| v@ == halls_of(reply.data, KEYS as int),
            ),
    {
        let reply = match self.ask(PacketID::GetHallConfig, Vec::new(), Shape::AtLeast(24)) {
            Ok(reply) => reply,
            Err(e) => {
                return Err(e);
            },
        };
        let mut keys = [KeyHallConfig::default();4];
        let mut i: usize = 0;
        while i < KEYS
            invariant
                i <= KEYS,
                reply.data@.len() >= 24,
                forall|j: int| 0 <= j < i ==> keys@[j] == hall_at(reply.data@, 6 * j),
            decreases KEYS - i,
        {
            keys[i] = read_hall(&reply.data, 6 * i);
            i += 1;
        }
        assert(keys@ =~= halls_of(reply.data@, KEYS as int));
        Ok(keys)
    }

    /// Asks for the stored key configuration and gives the payload
    /// of the reply, which holds the encoded record. The cache is left as it
    /// is: see [`Self::cache_key_config`].
    pub fn load_key_config(&mut self) -> (r: Result<Vec<u8>, Error>)
        ensures
            final(self)@ == old(self)@,
            old(self).trace().is_prefix_of(final(self).trace()),
            answers(
                rule(PacketID::GetKeyConfig, Seq::empty()).run(
                    events_since(old(self).trace(), final(self).trace()),
                ),
                Shape::AtLeast(0),
                r,
                |reply: PacketModel, v: Vec<u8>| v@ == reply.data,
            ),
    {
        match self.ask(PacketID::GetKeyConfig, Vec::new(), Shape::AtLeast(0)) {
            Ok(reply) => Ok(reply.data),
            Err(e) => Err(e),
        }
    }

    /// Caches the key configuration that was decoded from a loaded
    /// payload. A payload that could not be decoded (`None`) is an error and
    /// leaves the cache as it was. Nothing is sent.
    pub fn cache_key_config(&mut self, decoded: Option<cbor::Keyboard>) -> (r: Result<(), Error>)
        ensures
            final(self).trace() == old(self).trace(),
            match decoded {
                Some(record) => r is Ok && final(self)@ == (Cached {
                    key_config: Some(record),
                    ..old(self)@
                }),
                None => r == Err::<(), Error>(Error::ConfigCborParseFailed) && final(self)@ == old(
                    self,
                )@,
            },
    {
        match decoded {
            Some(record) => {
                self.key_config = Some(record);
                Ok(())
            },
            None => Err(Error::ConfigCborParseFailed),
        }
    }

    /// Asks for the stored light configuration and gives the payload
    /// of the reply, which holds the encoded record. The cache is left as it
    /// is: see [`Self::cache_light_config`].
    pub fn load_light_config(&mut self) -> (r: Result<Vec<u8>, Error>)
        ensures
            final(self)@ == old(self)@,
            old(self).trace().is_prefix_of(final(self).trace()),
            answers(
                rule(PacketID::GetLightConfig, Seq::empty()).run(
                    events_since(old(self).trace(), final(self).trace()),
                ),
                Shape::AtLeast(0),
                r,
                |reply: PacketModel, v: Vec<u8>| v@ == reply.data,
            ),
    {
        match self.ask(PacketID::GetLightConfig, Vec::new(), Shape::AtLeast(0)) {
            Ok(reply) => Ok(reply.data),
            Err(e) => Err(e),
        }
    }

    /// Caches the light configuration that was decoded from a loaded
    /// payload. A payload that could not be decoded (`None`) is an error and
    /// leaves the cache as it was. Nothing is sent.
    pub fn cache_light_config(&mut self, decoded: Option<cbor::Light>) -> (r: Result<(), Error>)
        ensures
            final(self).trace() == old(self).trace(),
            match decoded {
                Some(record) => r is Ok && final(self)@ == (Cached {
                    light_config: Some(record),
                    ..old(self)@
                }),
                None => r == Err::<(), Error>(Error::ConfigCborParseFailed) && final(self)@ == old(
                    self,
                )@,
            },
    {
        match decoded {
            Some(record) => {
                self.light_config = Some(record);
                Ok(())
            },
            None => Err(Error::ConfigCborParseFailed),
        }
    }

    /// Sends the key configuration to the device: `encoded` holds the
    /// cached record as the caller has encoded it. Without a cached
    /// configuration, or with an encoding too long for a packet, nothing is sent.
    pub fn set_key_config(&mut self, encoded: Vec<u8>) -> (r: Result<(), Error>)
        ensures
            final(self)@ == old(self)@,
            old(self).trace().is_prefix_of(final(self).trace()),
            if old(self)@.key_config is None {
                r == Err::<(), Error>(Error::EmptyConfig) && final(self).trace() == old(
                    self,
                ).trace()
            } else if encoded@.len() > MAX_PAYLOAD {
                r == Err::<(), Error>(Error::InvalidPacket) && final(self).trace() == old(
                    self,
                ).trace()
            } else {
                answers(
                    rule(PacketID::SetKeyConfig, encoded@).run(
                        events_since(old(self).trace(), final(self).trace()),
                    ),
                    Shape::AtLeast(0),
                    r,
                    |reply: PacketModel, v: ()| true,
                )
            },
    {
        if self.key_config.is_none() {
            return Err(Error::EmptyConfig);
        }
        if encoded.len() > MAX_PAYLOAD {
            return Err(Error::InvalidPacket);
        }
        match self.ask(PacketID::SetKeyConfig, encoded, Shape::AtLeast(0)) {
            Ok(_) => Ok(()),
            Err(e) => Err(e),
        }
    }

    /// Sends the light configuration to the device: `encoded` holds the
    /// cached record as the caller has encoded it. Without a cached
    /// configuration, or with an encoding too long for a packet, nothing is sent.
    pub fn set_light_config(&mut self, encoded: Vec<u8>) -> (r: Result<(), Error>)
        ensures
            final(self)@ == old(self)@,
            old(self).trace().is_prefix_of(final(self).trace()),
            if old(self)@.light_config is None {
                r == Err::<(), Error>(Error::EmptyConfig) && final(self).trace() == old(
                    self,
                ).trace()
            } else if encoded@.len() > MAX_PAYLOAD {
                r == Err::<(), Error>(Error::InvalidPacket) && final(self).trace() == old(
                    self,
                ).trace()
            } else {
                answers(
                    rule(PacketID::SetLightConfig, encoded@).run(
                        events_since(old(self).trace(), final(self).trace()),
                    ),
                    Shape::AtLeast(0),
                    r,
                    |reply: PacketModel, v: ()| true,
                )
            },
    {
        if self.light_config.is_none() {
            return Err(Error::EmptyConfig);
        }
        if encoded.len() > MAX_PAYLOAD {
            return Err(Error::InvalidPacket);
        }
        match self.ask(PacketID::SetLightConfig, encoded, Shape::AtLeast(0)) {
            Ok(_) => Ok(()),
            Err(e) => Err(e),
        }
    }

    /// Tells the device to store the key configuration it holds.
    pub fn save_key_config(&mut self) -> (r: Result<(), Error>)
        ensures
            final(self)@ == old(self)@,
            old(self).trace().is_prefix_of(final(self).trace()),
            answers(
                rule(PacketID::SaveKeyConfig, Seq::empty()).run(
                    events_since(old(self).trace(), final(self).trace()),
                ),
                Shape::AtLeast(0),
                r,
                |reply: PacketModel, v: ()| true,
            ),
    {
        match self.ask(PacketID::SaveKeyConfig, Vec::new(), Shape::AtLeast(0)) {
            Ok(_) => Ok(()),
            Err(e) => Err(e),
        }
    }

    /// Tells the device to store the light configuration it holds.
    pub fn save_light_config(&mut self) -> (r: Result<(), Error>)
        ensures
            final(self)@ == old(self)@,
            old(self).trace().is_prefix_of(final(self).trace()),
            answers(
                rule(PacketID::SaveLightConfig, Seq::empty()).run(
                    events_since(old(self).trace(), final(self).trace()),
                ),
                Shape::AtLeast(0),
                r,
                |reply: PacketModel, v: ()| true,
            ),
    {
        match self.ask(PacketID::SaveLightConfig, Vec::new(), Shape::AtLeast(0)) {
            Ok(_) => Ok(()),
            Err(e) => Err(e),
        }
    }

    /// Tells the device to forget its stored key configuration.
    pub fn clear_key_config(&mut self) -> (r: Result<(), Error>)
        ensures
            final(self)@ == old(self)@,
            old(self).trace().is_prefix_of(final(self).trace()),
            answers(
                rule(PacketID::ClearKeyConfig, Seq::empty()).run(
                    events_since(old(self).trace(), final(self).trace()),
                ),
                Shape::AtLeast(0),
                r,
                |reply: PacketModel, v: ()| true,
            ),
    {
        match self.ask(PacketID::ClearKeyConfig, Vec::new(), Shape::AtLeast(0)) {
            Ok(_) => Ok(()),
            Err(e) => Err(e),
        }
    }

    /// Tells the device to forget its stored light configuration.
    pub fn clear_light_config(&mut self) -> (r: Result<(), Error>)
        ensures
            final(self)@ == old(self)@,
            old(self).trace().is_prefix_of(final(self).trace()),
            answers(
                rule(PacketID::ClearLightConfig, Seq::empty()).run(
                    events_since(old(self).trace(), final(self).trace()),
                ),
                Shape::AtLeast(0),
                r,
                |reply: PacketModel, v: ()| true,
            ),
    {
        match self.ask(PacketID::ClearLightConfig, Vec::new(), Shape::AtLeast(0)) {
            Ok(_) => Ok(()),
            Err(e) => Err(e),
        }
    }

    /// Tells the device to forget its sensor calibration.
    pub fn clear_hall_config(&mut self) -> (r: Result<(), Error>)
        ensures
            final(self)@ == old(self)@,
            old(self).trace().is_prefix_of(final(self).trace()),
            answers(
                rule(PacketID::ClearHallConfig, Seq::empty()).run(
                    events_since(old(self).trace(), final(self).trace()),
                ),
                Shape::AtLeast(0),
                r,
                |reply: PacketModel, v: ()| true,
            ),
    {
        match self.ask(PacketID::ClearHallConfig, Vec::new(), Shape::AtLeast(0)) {
            Ok(_) => Ok(()),
            Err(e) => Err(e),
        }
    }

    /// Sets the middle point of the sensors anew. A reply without the success
    /// marker is a refusal.
    pub fn reset_middle_point(&mut self) -> (r: Result<(), Error>)
        ensures
            final(self)@ == old(self)@,
            old(self).trace().is_prefix_of(final(self).trace()),
            match rule(PacketID::SetMiddlePoint, Seq::empty()).run(
                events_since(old(self).trace(), final(self).trace()),
            ) {
                Phase::Done(Ok(reply)) => grants(PacketID::SetMiddlePoint.code(), reply, r),
                Phase::Done(Err(e)) => r == Err::<(), Error>(e),
                _ => false,
            },
    {
        let request = Packet::new(PacketID::SetMiddlePoint.to_u8(), Vec::new());
        match exchange(&mut self.link, Family::Meowpad4k, None, Some(&request)) {
            Ok(reply) => parse_granted(PacketID::SetMiddlePoint.to_u8(), &reply),
            Err(e) => Err(e),
        }
    }

    /// Calibrates the keys. A reply without the success marker is a refusal.
    pub fn calibration_key(&mut self) -> (r: Result<(), Error>)
        ensures
            final(self)@ == old(self)@,
            old(self).trace().is_prefix_of(final(self).trace()),
            match rule(PacketID::CalibrationKey, Seq::empty()).run(
                events_since(old(self).trace(), final(self).trace()),
            ) {
                Phase::Done(Ok(reply)) => grants(PacketID::CalibrationKey.code(), reply, r),
                Phase::Done(Err(e)) => r == Err::<(), Error>(e),
                _ => false,
            },
    {
        let request = Packet::new(PacketID::CalibrationKey.to_u8(), Vec::new());
        match exchange(&mut self.link, Family::Meowpad4k, None, Some(&request)) {
            Ok(reply) => parse_granted(PacketID::CalibrationKey.to_u8(), &reply),
            Err(e) => Err(e),
        }
    }

    /// Erases the firmware, which leaves the device in update mode. A reply
    /// without the success marker is a refusal.
    pub fn erase_firmware(&mut self) -> (r: Result<(), Error>)
        ensures
            final(self)@ == old(self)@,
            old(self).trace().is_prefix_of(final(self).trace()),
            match rule(PacketID::EraseFirmware, Seq::empty()).run(
                events_since(old(self).trace(), final(self).trace()),
            ) {
                Phase::Done(Ok(reply)) => grants(PacketID::EraseFirmware.code(), reply, r),
                Phase::Done(Err(e)) => r == Err::<(), Error>(e),
                _ => false,
            },
    {
        let request = Packet::new(PacketID::EraseFirmware.to_u8(), Vec::new());
        match exchange(&mut self.link, Family::Meowpad4k, None, Some(&request)) {
            Ok(reply) => parse_granted(PacketID::EraseFirmware.to_u8(), &reply),
            Err(e) => Err(e),
        }
    }

    /// Restarts the device.
    pub fn reset_device(&mut self) -> (r: Result<(), Error>)
        ensures
            final(self)@ == old(self)@,
            old(self).trace().is_prefix_of(final(self).trace()),
            answers(
                rule(PacketID::Reset, Seq::empty()).run(
                    events_since(old(self).trace(), final(self).trace()),
                ),
                Shape::AtLeast(0),
                r,
                |reply: PacketModel, v: ()| true,
            ),
    {
        match self.ask(PacketID::Reset, Vec::new(), Shape::AtLeast(0)) {
            Ok(_) => Ok(()),
            Err(e) => Err(e),
        }
    }

    /// Reads one packet that the device sends without a request.
    pub fn read(&mut self) -> (r: Result<Packet, Error>)
        ensures
            final(self)@ == old(self)@,
            old(self).trace().is_prefix_of(final(self).trace()),
            (Rule { family: Family::Meowpad4k, wait: None, request: None }).run(
                events_since(old(self).trace(), final(self).trace()),
            ) == Phase::Done(crate::dispatch::outcome_view(r)),
            r matches Ok(p) ==> p.wf(),
    {
        exchange(&mut self.link, Family::Meowpad4k, None, None)
    }
}

} // verus!
