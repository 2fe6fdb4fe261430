//! The command dispatcher of the 64-key keyboard.

use crate::device::{events_since, Device, IoEvent, Transport};
use crate::dispatch::{
    answers, answers_all, command, command_rule, command_rules, exchange, gather, run_all, Family,
    Phase, Rule, Shape, OK,
};
use crate::error::Error;
use crate::meowboard::cbor;
use crate::meowboard::packet_id::PacketID;
use crate::models::{DeviceStatus, KeyHallConfig, KeyRTStatus, KeyState};
use crate::packet::{Packet, PacketModel, MAX_PAYLOAD};
use crate::replies::{
    be16_at, grants, hall_at, halls_of, parse_granted, parse_text, read_be16, read_hall,
    read_status, readings_of, status_at,
};
use vstd::prelude::*;
use vstd::slice::slice_to_vec;
use vstd::utf8::{decode_utf8, valid_utf8};

verus! {

/// Keys of the keyboard.
pub const KEYS: usize = 64;

/// Keys that one reply about readings or calibrations covers.
pub const PART_KEYS: usize = 8;

/// Keys that one reply about states or flags covers.
pub const HALF_KEYS: usize = 32;

/// Milliseconds that a ping waits for its reply.
pub const PING_WAIT: i32 = 1000;

/// What the dispatcher has cached from the device.
pub ghost struct Cached {
    pub key_config: Option<cbor::Device>,
    pub device_name: Option<Seq<char>>,
    pub firmware_version: Option<Seq<char>>,
}

/// The dispatcher of one keyboard. `key_config` holds the configuration
/// record that was last decoded from the device or assigned by the caller.
pub struct Meowboard<D: Device> {
    pub key_config: Option<cbor::Device>,
    pub device_name: Option<String>,
    pub firmware_version: Option<String>,
    pub link: Transport<D>,
}

impl<D: Device> View for Meowboard<D> {
    type V = Cached;

    open spec fn view(&self) -> Cached {
        Cached {
            key_config: self.key_config,
            device_name: match self.device_name {
                Some(s) => Some(s@),
                None => None,
            },
            firmware_version: match self.firmware_version {
                Some(s) => Some(s@),
                None => None,
            },
        }
    }
}

/// The rule of a keyboard command.
pub open spec fn rule(id: PacketID, payload: Seq<u8>) -> Rule {
    command_rule(Family::Meowboard, id.code(), payload)
}

/// The rules of the commands that ask for the parts `0` to `parts - 1` under `id`.
pub open spec fn part_rules(id: PacketID, parts: int) -> Seq<Rule> {
    Seq::new(parts as nat, |k: int| rule(id, seq![k as u8]))
}

/// The device state that a status payload holds.
pub open spec fn status_of(data: Seq<u8>) -> DeviceStatus {
    DeviceStatus { key: data[0] != 0, hall: data[1] != 0, enabled: data[2] != 0, light: None }
}

/// The readings of all keys that the replies to the eight part requests hold.
pub open spec fn all_readings(replies: Seq<PacketModel>) -> Seq<KeyRTStatus> {
    Seq::new(KEYS as nat, |k: int| status_at(replies[k / 8].data, 6 * (k % 8))->0)
}

/// The calibrations of all keys that the replies to the eight part requests hold.
pub open spec fn all_halls(replies: Seq<PacketModel>) -> Seq<KeyHallConfig> {
    Seq::new(KEYS as nat, |k: int| hall_at(replies[k / 8].data, 6 * (k % 8)))
}

/// The states of all keys that the replies to the two part requests hold.
pub open spec fn all_states(replies: Seq<PacketModel>) -> Seq<KeyState> {
    Seq::new(KEYS as nat, |k: int| KeyState::of_code(replies[k / 32].data[k % 32] as int)->0)
}

/// The calibration flags of all keys that the replies to the two part requests hold.
pub open spec fn all_flags(replies: Seq<PacketModel>) -> Seq<bool> {
    Seq::new(KEYS as nat, |k: int| replies[k / 32].data[k % 32] != 0)
}

/// The raw values of all keys that the replies to the three part requests
/// hold: thirty in each of the first two, four in the last.
pub open spec fn all_values(replies: Seq<PacketModel>) -> Seq<u16> {
    Seq::new(KEYS as nat, |k: int| be16_at(replies[k / 30].data, 2 * (k % 30)))
}

/// The requests for the parts `0` to `parts - 1` under `id`.
fn part_requests(id: PacketID, parts: u8) -> (out: Vec<Packet>)
    requires
        parts >= 1,
    ensures
        out@.len() == parts,
        forall|k: int| 0 <= k < out@.len() ==> (#[trigger] out@[k]).wf(),
        command_rules(Family::Meowboard, crate::dispatch::packets_view(out@)) == part_rules(
            id,
            parts as int,
        ),
{
    let mut out: Vec<Packet> = Vec::new();
    let mut k: u8 = 0;
    while k < parts
        invariant
            k <= parts,
            out@.len() == k,
            forall|j: int| 0 <= j < out@.len() ==> (#[trigger] out@[j]).wf(),
            forall|j: int|
                0 <= j < out@.len() ==> (#[trigger] out@[j])@ == (PacketModel {
                    id: id.code(),
                    data: seq![j as u8],
                }),
        decreases parts - k,
    {
        let payload = vec![k];
        assert(payload@ =~= seq![k]);
        out.push(Packet::new(id.to_u8(), payload));
        k += 1;
    }
    assert(command_rules(Family::Meowboard, crate::dispatch::packets_view(out@)) =~= part_rules(
        id,
        parts as int,
    ));
    out
}

/// As many copies of `shape` as there are parts.
fn part_shapes(shape: Shape, parts: u8) -> (out: Vec<Shape>)
    ensures
        out@ == Seq::new(parts as nat, |k: int| shape),
{
    let mut out: Vec<Shape> = Vec::new();
    let mut k: u8 = 0;
    while k < parts
        invariant
            k <= parts,
            out@ == Seq::new(k as nat, |j: int| shape),
        decreases parts - k,
    {
        out.push(shape);
        assert(out@ =~= Seq::new((k + 1) as nat, |j: int| shape));
        k += 1;
    }
    out
}

impl<D: Device> Meowboard<D> {
    /// Every call made on the device so far.
    pub open spec fn trace(&self) -> Seq<IoEvent> {
        self.link.trace()
    }

    pub fn new(device: D) -> (board: Meowboard<D>)
        ensures
            board@ == (Cached { key_config: None, device_name: None, firmware_version: None }),
            board.trace() == Seq::<IoEvent>::empty(),
    {
        Meowboard {
            link: Transport::new(device),
            key_config: None,
            device_name: None,
            firmware_version: None,
        }
    }

    /// Whether the device answers a ping with a ping within the wait. Any
    /// other reply and no reply at all give `false`; only a failed
    /// transport call is an error.
    pub fn ping(&mut self) -> (r: Result<bool, Error>)
        ensures
            final(self)@ == old(self)@,
            old(self).trace().is_prefix_of(final(self).trace()),
            match (Rule {
                family: Family::Meowboard,
                wait: Some(PING_WAIT),
                request: Some(PacketModel { id: PacketID::Ping.code(), data: Seq::empty() }),
            }).run(events_since(old(self).trace(), final(self).trace())) {
                Phase::Done(Ok(reply)) => r == Ok::<bool, Error>(reply.id == PacketID::Ping.code()),
                Phase::Done(Err(Error::Disconnect)) => r == Err::<bool, Error>(Error::Disconnect),
                Phase::Done(Err(_)) => r == Ok::<bool, Error>(false),
                _ => false,
            },
    {
        let request = Packet::new(PacketID::Ping.to_u8(), Vec::new());
        match exchange(&mut self.link, Family::Meowboard, Some(PING_WAIT), Some(&request)) {
            Ok(reply) => Ok(reply.id == PacketID::Ping.to_u8()),
            Err(Error::Disconnect) => Err(Error::Disconnect),
            Err(_) => Ok(false),
        }
    }

    /// Sends a command and gives its reply if it is of the shape expected.
    fn ask(&mut self, id: PacketID, payload: Vec<u8>, shape: Shape) -> (r: Result<Packet, Error>)
        requires
            payload@.len() <= MAX_PAYLOAD,
        ensures
            final(self)@ == old(self)@,
            old(self).trace().is_prefix_of(final(self).trace()),
            answers(
                rule(id, payload@).run(events_since(old(self).trace(), final(self).trace())),
                shape,
                r,
                |reply: PacketModel, p: Packet| p@ == reply && p.wf(),
            ),
    {
        let request = Packet::new(id.to_u8(), payload);
        command(&mut self.link, Family::Meowboard, &request, shape)
    }

    /// Asks for the device name and caches it.
    pub fn get_device_name(&mut self) -> (r: Result<(), Error>)
        ensures
            old(self).trace().is_prefix_of(final(self).trace()),
            match rule(PacketID::GetDeviceName, Seq::empty()).run(
                events_since(old(self).trace(), final(self).trace()),
            ) {
                Phase::Done(Ok(reply)) => if reply.id == OK && valid_utf8(reply.data) {
                    r is Ok && final(self)@ == (Cached {
                        device_name: Some(decode_utf8(reply.data)),
                        ..old(self)@
                    })
                } else {
                    final(self)@ == old(self)@ && if reply.id != OK {
                        r matches Err(Error::UnexceptedResponse(p)) && p@ == reply
                    } else {
                        r == Err::<(), Error>(Error::Utf8Error)
                    }
                },
                Phase::Done(Err(e)) => r == Err::<(), Error>(e) && final(self)@ == old(self)@,
                _ => false,
            },
    {
        let request = Packet::new(PacketID::GetDeviceName.to_u8(), Vec::new());
        let reply = match exchange(&mut self.link, Family::Meowboard, None, Some(&request)) {
            Ok(reply) => reply,
            Err(e) => {
                return Err(e);
            },
        };
        match parse_text(reply) {
            Ok(name) => {
                self.device_name = Some(name);
                Ok(())
            },
            Err(e) => Err(e),
        }
    }

    /// Asks for the firmware version and caches it.
    pub fn get_firmware_version(&mut self) -> (r: Result<(), Error>)
        ensures
            old(self).trace().is_prefix_of(final(self).trace()),
            match rule(PacketID::GetFirmwareVersion, Seq::empty()).run(
                events_since(old(self).trace(), final(self).trace()),
            ) {
                Phase::Done(Ok(reply)) => if reply.id == OK && valid_utf8(reply.data) {
                    r is Ok && final(self)@ == (Cached {
                        firmware_version: Some(decode_utf8(reply.data)),
                        ..old(self)@
                    })
                } else {
                    final(self)@ == old(self)@ && if reply.id != OK {
                        r matches Err(Error::UnexceptedResponse(p)) && p@ == reply
                    } else {
                        r == Err::<(), Error>(Error::Utf8Error)
                    }
                },
                Phase::Done(Err(e)) => r == Err::<(), Error>(e) && final(self)@ == old(self)@,
                _ => false,
            },
    {
        let request = Packet::new(PacketID::GetFirmwareVersion.to_u8(), Vec::new());
        let reply = match exchange(&mut self.link, Family::Meowboard, None, Some(&request)) {
            Ok(reply) => reply,
            Err(e) => {
                return Err(e);
            },
        };
        match parse_text(reply) {
            Ok(version) => {
                self.firmware_version = Some(version);
                Ok(())
            },
            Err(e) => Err(e),
        }
    }

    /// Asks whether a key configuration is stored, whether the keys are
    /// calibrated, and whether they are enabled.
    pub fn get_status(&mut self) -> (r: Result<DeviceStatus, Error>)
        ensures
            final(self)@ == old(self)@,
            old(self).trace().is_prefix_of(final(self).trace()),
            answers(
                rule(PacketID::GetStatus, Seq::empty()).run(
                    events_since(old(self).trace(), final(self).trace()),
                ),
                Shape::AtLeast(3),
                r,
                |reply: PacketModel, v: DeviceStatus| v == status_of(reply.data),
            ),
    {
        match self.ask(PacketID::GetStatus, Vec::new(), Shape::AtLeast(3)) {
            Ok(reply) => Ok(
                DeviceStatus {
                    key: reply.data[0] != 0,
                    hall: reply.data[1] != 0,
                    enabled: reply.data[2] != 0,
                    light: None,
                },
            ),
            Err(e) => Err(e),
        }
    }

    /// Asks for the live readings of the eight keys of part `index`.
    pub fn get_debug_value_part(&mut self, index: u8) -> (r: Result<[KeyRTStatus; 8], Error>)
        ensures
            final(self)@ == old(self)@,
            old(self).trace().is_prefix_of(final(self).trace()),
            answers(
                rule(PacketID::Debug, seq![index]).run(
                    events_since(old(self).trace(), final(self).trace()),
                ),
                Shape::Readings(PART_KEYS),
                r,
                |reply: PacketModel, v: [KeyRTStatus; 8]|
                    v@ == readings_of(reply.data, PART_KEYS as int),
            ),
    {
        let payload = vec![index];
        assert(payload@ =~= seq![index]);
        let reply = match self.ask(PacketID::Debug, payload, Shape::Readings(PART_KEYS)) {
            Ok(reply) => reply,
            Err(e) => {
                return Err(e);
            },
        };
        let mut keys = [KeyRTStatus::default();8];
        let mut i: usize = 0;
        while i < PART_KEYS
            invariant
                i <= PART_KEYS,
                Shape::Readings(PART_KEYS).holds(reply.data@),
                forall|j: int| 0 <= j < i ==> keys@[j] == status_at(reply.data@, 6 * j)->0,
            decreases PART_KEYS - i,
        {
            assert(status_at(reply.data@, 6 * (i as int)) is Some);
            match read_status(&reply.data, 6 * i) {
                Some(key) => {
                    keys[i] = key;
                },
                None => {},
            }
            i += 1;
        }
        assert(keys@ =~= readings_of(reply.data@, PART_KEYS as int));
        Ok(keys)
    }

    /// Asks for the live readings of all keys, eight at a time.
    pub fn get_debug_value(&mut self) -> (r: Result<[KeyRTStatus; 64], Error>)
        ensures
            final(self)@ == old(self)@,
            old(self).trace().is_prefix_of(final(self).trace()),
            answers_all(
                run_all(
                    part_rules(PacketID::Debug, 8),
                    Seq::new(8, |k: int| Shape::Readings(PART_KEYS)),
                    events_since(old(self).trace(), final(self).trace()),
                ),
                8,
                Seq::new(8, |k: int| Shape::Readings(PART_KEYS)),
                r,
                |replies: Seq<PacketModel>, v: [KeyRTStatus; 64]| v@ == all_readings(replies),
            ),
    {
        let requests = part_requests(PacketID::Debug, 8);
        let shapes = part_shapes(Shape::Readings(PART_KEYS), 8);
        let replies = match gather(&mut self.link, Family::Meowboard, &requests, &shapes) {
            Ok(replies) => replies,
            Err(e) => {
                return Err(e);
            },
        };
        let mut keys = [KeyRTStatus::default();64];
        let mut k: usize = 0;
        while k < KEYS
            invariant
                k <= KEYS,
                replies@.len() == 8,
                forall|j: int|
                    0 <= j < 8 ==> Shape::Readings(PART_KEYS).holds((#[trigger] replies@[j])@.data),
                forall|j: int|
                    0 <= j < k ==> keys@[j] == status_at(replies@[j / 8]@.data, 6 * (j % 8))->0,
            decreases KEYS - k,
        {
            let part = &replies[k / 8];
            assert(Shape::Readings(PART_KEYS).holds(part@.data));
            assert(status_at(part.data@, 6 * ((k % 8) as int)) is Some);
            match read_status(&part.data, 6 * (k % 8)) {
                Some(key) => {
                    keys[k] = key;
                },
                None => {},
            }
            k += 1;
        }
        assert(keys@ =~= all_readings(crate::dispatch::packets_view(replies@)));
        Ok(keys)
    }

    /// Asks for the state of every key, thirty-two at a time.
    pub fn get_keystates(&mut self) -> (r: Result<[KeyState; 64], Error>)
        ensures
            final(self)@ == old(self)@,
            old(self).trace().is_prefix_of(final(self).trace()),
            answers_all(
                run_all(
                    part_rules(PacketID::DebugKeyState, 2),
                    Seq::new(2, |k: int| Shape::States(HALF_KEYS)),
                    events_since(old(self).trace(), final(self).trace()),
                ),
                2,
                Seq::new(2, |k: int| Shape::States(HALF_KEYS)),
                r,
                |replies: Seq<PacketModel>, v: [KeyState; 64]| v@ == all_states(replies),
            ),
    {
        let requests = part_requests(PacketID::DebugKeyState, 2);
        let shapes = part_shapes(Shape::States(HALF_KEYS), 2);
        let replies = match gather(&mut self.link, Family::Meowboard, &requests, &shapes) {
            Ok(replies) => replies,
            Err(e) => {
                return Err(e);
            },
        };
        let mut keys = [KeyState::Pressed;64];
        let mut k: usize = 0;
        while k < KEYS
            invariant
                k <= KEYS,
                replies@.len() == 2,
                forall|j: int|
                    0 <= j < 2 ==> Shape::States(HALF_KEYS).holds((#[trigger] replies@[j])@.data),
                forall|j: int|
                    0 <= j < k ==> keys@[j] == KeyState::of_code(
                        replies@[j / 32]@.data[j % 32] as int,
                    )->0,
            decreases KEYS - k,
        {
            let part = &replies[k / 32];
            assert(Shape::States(HALF_KEYS).holds(part@.data));
            assert(KeyState::of_code(part.data@[(k % 32) as int] as int) is Some);
            match KeyState::from_u8(part.data[k % 32]) {
                Some(state) => {
                    keys[k] = state;
                },
                None => {},
            }
            k += 1;
        }
        assert(keys@ =~= all_states(crate::dispatch::packets_view(replies@)));
        Ok(keys)
    }

    /// Asks of every key whether it is calibrated, thirty-two keys at a time.
    pub fn get_key_calibrate_status(&mut self) -> (r: Result<[bool; 64], Error>)
        ensures
            final(self)@ == old(self)@,
            old(self).trace().is_prefix_of(final(self).trace()),
            answers_all(
                run_all(
                    part_rules(PacketID::CalibrateKeyStatus, 2),
                    Seq::new(2, |k: int| Shape::AtLeast(HALF_KEYS)),
                    events_since(old(self).trace(), final(self).trace()),
                ),
                2,
                Seq::new(2, |k: int| Shape::AtLeast(HALF_KEYS)),
                r,
                |replies: Seq<PacketModel>, v: [bool; 64]| v@ == all_flags(replies),
            ),
    {
        let requests = part_requests(PacketID::CalibrateKeyStatus, 2);
        let shapes = part_shapes(Shape::AtLeast(HALF_KEYS), 2);
        let replies = match gather(&mut self.link, Family::Meowboard, &requests, &shapes) {
            Ok(replies) => replies,
            Err(e) => {
                return Err(e);
            },
        };
        let mut keys = [false;64];
        let mut k: usize = 0;
        while k < KEYS
            invariant
                k <= KEYS,
                replies@.len() == 2,
                forall|j: int|
                    0 <= j < 2 ==> Shape::AtLeast(HALF_KEYS).holds((#[trigger] replies@[j])@.data),
                forall|j: int| 0 <= j < k ==> keys@[j] == (replies@[j / 32]@.data[j % 32] != 0),
            decreases KEYS - k,
        {
            let part = &replies[k / 32];
            assert(Shape::AtLeast(HALF_KEYS).holds(part@.data));
            keys[k] = part.data[k % 32] != 0;
            k += 1;
        }
        assert(keys@ =~= all_flags(crate::dispatch::packets_view(replies@)));
        Ok(keys)
    }

    /// Asks for the raw value of every key: thirty in each of two replies
    /// and four in a third.
    pub fn get_keyvalues(&mut self) -> (r: Result<[u16; 64], Error>)
        ensures
            final(self)@ == old(self)@,
            old(self).trace().is_prefix_of(final(self).trace()),
            answers_all(
                run_all(
                    part_rules(PacketID::DebugValue, 3),
                    seq![Shape::AtLeast(60), Shape::AtLeast(60), Shape::AtLeast(8)],
                    events_since(old(self).trace(), final(self).trace()),
                ),
                3,
                seq![Shape::AtLeast(60), Shape::AtLeast(60), Shape::AtLeast(8)],
                r,
                |replies: Seq<PacketModel>, v: [u16; 64]| v@ == all_values(replies),
            ),
    {
        let requests = part_requests(PacketID::DebugValue, 3);
        let shapes = vec![Shape::AtLeast(60), Shape::AtLeast(60), Shape::AtLeast(8)];
        assert(shapes@ =~= seq![Shape::AtLeast(60), Shape::AtLeast(60), Shape::AtLeast(8)]);
        let replies = match gather(&mut self.link, Family::Meowboard, &requests, &shapes) {
            Ok(replies) => replies,
            Err(e) => {
                return Err(e);
            },
        };
        let mut keys = [0u16;64];
        let mut k: usize = 0;
        while k < KEYS
            invariant
                k <= KEYS,
                replies@.len() == 3,
                replies@[0]@.data.len() >= 60,
                replies@[1]@.data.len() >= 60,
                replies@[2]@.data.len() >= 8,
                forall|j: int|
                    0 <= j < k ==> keys@[j] == be16_at(replies@[j / 30]@.data, 2 * (j % 30)),
            decreases KEYS - k,
        {
            let part = &replies[k / 30];
            keys[k] = read_be16(&part.data, 2 * (k % 30));
            k += 1;
        }
        assert(keys@ =~= all_values(crate::dispatch::packets_view(replies@)));
        Ok(keys)
    }

    /// Asks for the sensor calibration of the eight keys of part `index`.
    pub fn get_hall_config_part(&mut self, index: u8) -> (r: Result<[KeyHallConfig; 8], Error>)
        ensures
            final(self)@ == old(self)@,
            old(self).trace().is_prefix_of(final(self).trace()),
            answers(
                rule(PacketID::GetHallConfig, seq![index]).run(
                    events_since(old(self).trace(), final(self).trace()),
                ),
                Shape::AtLeast(48),
                r,
                |reply: PacketModel, v: [KeyHallConfig; 8]|
                    v@ == halls_of(reply.data, PART_KEYS as int),
            ),
    {
        let payload = vec![index];
        assert(payload@ =~= seq![index]);
        let reply = match self.ask(PacketID::GetHallConfig, payload, Shape::AtLeast(48)) {
            Ok(reply) => reply,
            Err(e) => {
                return Err(e);
            },
        };
        let mut keys = [KeyHallConfig::default();8];
        let mut i: usize = 0;
        while i < PART_KEYS
            invariant
                i <= PART_KEYS,
                reply.data@.len() >= 48,
                forall|j: int| 0 <= j < i ==> keys@[j] == hall_at(reply.data@, 6 * j),
            decreases PART_KEYS - i,
        {
            keys[i] = read_hall(&reply.data, 6 * i);
            i += 1;
        }
        assert(keys@ =~= halls_of(reply.data@, PART_KEYS as int));
        Ok(keys)
    }

    /// Asks for the sensor calibration of all keys, eight at a time.
    pub fn get_hall_config(&mut self) -> (r: Result<[KeyHallConfig; 64], Error>)
        ensures
            final(self)@ == old(self)@,
            old(self).trace().is_prefix_of(final(self).trace()),
            answers_all(
                run_all(
                    part_rules(PacketID::GetHallConfig, 8),
                    Seq::new(8, |k: int| Shape::AtLeast(48)),
                    events_since(old(self).trace(), final(self).trace()),
                ),
                8,
                Seq::new(8, |k: int| Shape::AtLeast(48)),
                r,
                |replies: Seq<PacketModel>, v: [KeyHallConfig; 64]| v@ == all_halls(replies),
            ),
    {
        let requests = part_requests(PacketID::GetHallConfig, 8);
        let shapes = part_shapes(Shape::AtLeast(48), 8);
        let replies = match gather(&mut self.link, Family::Meowboard, &requests, &shapes) {
            Ok(replies) => replies,
            Err(e) => {
                return Err(e);
            },
        };
        let mut keys = [KeyHallConfig::default();64];
        let mut k: usize = 0;
        while k < KEYS
            invariant
                k <= KEYS,
                replies@.len() == 8,
                forall|j: int|
                    0 <= j < 8 ==> Shape::AtLeast(48).holds((#[trigger] replies@[j])@.data),
                forall|j: int|
                    0 <= j < k ==> keys@[j] == hall_at(replies@[j / 8]@.data, 6 * (j % 8)),
            decreases KEYS - k,
        {
            let part = &replies[k / 8];
            assert(Shape::AtLeast(48).holds(part@.data));
            keys[k] = read_hall(&part.data, 6 * (k % 8));
            k += 1;
        }
        assert(keys@ =~= all_halls(crate::dispatch::packets_view(replies@)));
        Ok(keys)
    }

    /// Asks for the stored key configuration and gives the payload
    /// of the reply, which holds the encoded record. The cache is left as it
    /// is: see [`Self::cache_key_config`].
    pub fn load_key_config(&mut self) -> (r: Result<Vec<u8>, Error>)
        ensures
            final(self)@ == old(self)@,
            old(self).trace().is_prefix_of(final(self).trace()),
            answers(
                rule(PacketID::GetKeyConfig, Seq::empty()).run(
                    events_since(old(self).trace(), final(self).trace()),
                ),
                Shape::AtLeast(0),
                r,
                |reply: PacketModel, v: Vec<u8>| v@ == reply.data,
            ),
    {
        match self.ask(PacketID::GetKeyConfig, Vec::new(), Shape::AtLeast(0)) {
            Ok(reply) => Ok(reply.data),
            Err(e) => Err(e),
        }
    }

    /// Caches the key configuration that was decoded from a loaded
    /// payload. A payload that could not be decoded (`None`) is an error and
    /// leaves the cache as it was. Nothing is sent.
    pub fn cache_key_config(&mut self, decoded: Option<cbor::Device>) -> (r: Result<(), Error>)
        ensures
            final(self).trace() == old(self).trace(),
            match decoded {
                Some(record) => r is Ok && final(self)@ == (Cached {
                    key_config: Some(record),
                    ..old(self)@
                }),
                None => r == Err::<(), Error>(Error::ConfigCborParseFailed) && final(self)@ == old(
                    self,
                )@,
            },
    {
        match decoded {
            Some(record) => {
                self.key_config = Some(record);
                Ok(())
            },
            None => Err(Error::ConfigCborParseFailed),
        }
    }

    /// Sends the key configuration to the device: `encoded` holds the
    /// cached record as the caller has encoded it. Without a cached
    /// configuration, or with an encoding too long for a packet, nothing is sent.
    pub fn set_key_config(&mut self, encoded: Vec<u8>) -> (r: Result<(), Error>)
        ensures
            final(self)@ == old(self)@,
            old(self).trace().is_prefix_of(final(self).trace()),
            if old(self)@.key_config is None {
                r == Err::<(), Error>(Error::EmptyConfig) && final(self).trace() == old(
                    self,
                ).trace()
            } else if encoded@.len() > MAX_PAYLOAD {
                r == Err::<(), Error>(Error::InvalidPacket) && final(self).trace() == old(
                    self,
                ).trace()
            } else {
                answers(
                    rule(PacketID::SetKeyConfig, encoded@).run(
                        events_since(old(self).trace(), final(self).trace()),
                    ),
                    Shape::AtLeast(0),
                    r,
                    |reply: PacketModel, v: ()| true,
                )
            },
    {
        if self.key_config.is_none() {
            return Err(Error::EmptyConfig);
        }
        if encoded.len() > MAX_PAYLOAD {
            return Err(Error::InvalidPacket);
        }
        match self.ask(PacketID::SetKeyConfig, encoded, Shape::AtLeast(0)) {
            Ok(_) => Ok(()),
            Err(e) => Err(e),
        }
    }

    /// Tells the device to store the key configuration it holds.
    pub fn save_key_config(&mut self) -> (r: Result<(), Error>)
        ensures
            final(self)@ == old(self)@,
            old(self).trace().is_prefix_of(final(self).trace()),
            answers(
                rule(PacketID::SaveKeyConfig, Seq::empty()).run(
                    events_since(old(self).trace(), final(self).trace()),
                ),
                Shape::AtLeast(0),
                r,
                |reply: PacketModel, v: ()| true,
            ),
    {
        match self.ask(PacketID::SaveKeyConfig, Vec::new(), Shape::AtLeast(0)) {
            Ok(_) => Ok(()),
            Err(e) => Err(e),
        }
    }

    /// Tells the device to forget its stored key configuration.
    pub fn clear_key_config(&mut self) -> (r: Result<(), Error>)
        ensures
            final(self)@ == old(self)@,
            old(self).trace().is_prefix_of(final(self).trace()),
            answers(
                rule(PacketID::ClearKeyConfig, Seq::empty()).run(
                    events_since(old(self).trace(), final(self).trace()),
                ),
                Shape::AtLeast(0),
                r,
                |reply: PacketModel, v: ()| true,
            ),
    {
        match self.ask(PacketID::ClearKeyConfig, Vec::new(), Shape::AtLeast(0)) {
            Ok(_) => Ok(()),
            Err(e) => Err(e),
        }
    }

    /// Tells the device to forget its sensor calibration.
    pub fn clear_hall_config(&mut self) -> (r: Result<(), Error>)
        ensures
            final(self)@ == old(self)@,
            old(self).trace().is_prefix_of(final(self).trace()),
            answers(
                rule(PacketID::ClearHallConfig, Seq::empty()).run(
                    events_since(old(self).trace(), final(self).trace()),
                ),
                Shape::AtLeast(0),
                r,
                |reply: PacketModel, v: ()| true,
            ),
    {
        match self.ask(PacketID::ClearHallConfig, Vec::new(), Shape::AtLeast(0)) {
            Ok(_) => Ok(()),
            Err(e) => Err(e),
        }
    }

    /// Sets the middle point of the sensors anew. A reply without the success marker is a refusal.
    pub fn reset_middle_point(&mut self) -> (r: Result<(), Error>)
        ensures
            final(self)@ == old(self)@,
            old(self).trace().is_prefix_of(final(self).trace()),
            match rule(PacketID::SetMiddlePoint, Seq::empty()).run(
                events_since(old(self).trace(), final(self).trace()),
            ) {
                Phase::Done(Ok(reply)) => grants(PacketID::SetMiddlePoint.code(), reply, r),
                Phase::Done(Err(e)) => r == Err::<(), Error>(e),
                _ => false,
            },
    {
        let request = Packet::new(PacketID::SetMiddlePoint.to_u8(), Vec::new());
        match exchange(&mut self.link, Family::Meowboard, None, Some(&request)) {
            Ok(reply) => parse_granted(PacketID::SetMiddlePoint.to_u8(), &reply),
            Err(e) => Err(e),
        }
    }

    /// Calibrates the keys with the given indices. A reply without the
    /// success marker is a refusal; indices too many for a packet are not sent.
    pub fn calibration_key(&mut self, key_indexs: &[u8]) -> (r: Result<(), Error>)
        ensures
            final(self)@ == old(self)@,
            old(self).trace().is_prefix_of(final(self).trace()),
            if key_indexs@.len() > MAX_PAYLOAD {
                r == Err::<(), Error>(Error::InvalidPacket) && final(self).trace() == old(
                    self,
                ).trace()
            } else {
                match rule(PacketID::CalibrationKey, key_indexs@).run(
                    events_since(old(self).trace(), final(self).trace()),
                ) {
                    Phase::Done(Ok(reply)) => grants(PacketID::CalibrationKey.code(), reply, r),
                    Phase::Done(Err(e)) => r == Err::<(), Error>(e),
                    _ => false,
                }
            },
    {
        if key_indexs.len() > MAX_PAYLOAD {
            return Err(Error::InvalidPacket);
        }
        let request = Packet::new(PacketID::CalibrationKey.to_u8(), slice_to_vec(key_indexs));
        match exchange(&mut self.link, Family::Meowboard, None, Some(&request)) {
            Ok(reply) => parse_granted(PacketID::CalibrationKey.to_u8(), &reply),
            Err(e) => Err(e),
        }
    }

    /// Erases the firmware, which leaves the device in update mode. A reply without the success marker is a refusal.
    pub fn erase_firmware(&mut self) -> (r: Result<(), Error>)
        ensures
            final(self)@ == old(self)@,
            old(self).trace().is_prefix_of(final(self).trace()),
            match rule(PacketID::EraseFirmware, Seq::empty()).run(
                events_since(old(self).trace(), final(self).trace()),
            ) {
                Phase::Done(Ok(reply)) => grants(PacketID::EraseFirmware.code(), reply, r),
                Phase::Done(Err(e)) => r == Err::<(), Error>(e),
                _ => false,
            },
    {
        let request = Packet::new(PacketID::EraseFirmware.to_u8(), Vec::new());
        match exchange(&mut self.link, Family::Meowboard, None, Some(&request)) {
            Ok(reply) => parse_granted(PacketID::EraseFirmware.to_u8(), &reply),
            Err(e) => Err(e),
        }
    }

    /// Restarts the device.
    pub fn reset_device(&mut self) -> (r: Result<(), Error>)
        ensures
            final(self)@ == old(self)@,
            old(self).trace().is_prefix_of(final(self).trace()),
            answers(
                rule(PacketID::Reset, Seq::empty()).run(
                    events_since(old(self).trace(), final(self).trace()),
                ),
                Shape::AtLeast(0),
                r,
                |reply: PacketModel, v: ()| true,
            ),
    {
        match self.ask(PacketID::Reset, Vec::new(), Shape::AtLeast(0)) {
            Ok(_) => Ok(()),
            Err(e) => Err(e),
        }
    }

    /// Reads one packet that the device sends without a request.
    pub fn read(&mut self) -> (r: Result<Packet, Error>)
        ensures
            final(self)@ == old(self)@,
            old(self).trace().is_prefix_of(final(self).trace()),
            (Rule { family: Family::Meowboard, wait: None, request: None }).run(
                events_since(old(self).trace(), final(self).trace()),
            ) == Phase::Done(crate::dispatch::outcome_view(r)),
            r matches Ok(p) ==> p.wf(),
    {
        exchange(&mut self.link, Family::Meowboard, None, None)
    }
}

} // verus!
