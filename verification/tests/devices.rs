use meowpad::device::{Device, Transport};
use meowpad::error::Error;
use meowpad::hid_iap::error::Error as IapError;
use meowpad::hid_iap::iap::{IAPState, IAP};
use meowpad::hid_iap::packet::{IAPCommand, IAPacket};
use meowpad::meowboard::cbor as board_cbor;
use meowpad::meowboard::meowboard::Meowboard;
use meowpad::meowpad4k::cbor as pad_cbor;
use meowpad::meowpad4k::meowpad::Meowpad;
use meowpad::models::{DeviceStatus, KeyHallConfig, KeyRTStatus, KeyState};
use meowpad::packet::Packet;
use std::cell::RefCell;
use std::collections::VecDeque;
use std::rc::Rc;

#[derive(Clone)]
enum Reply {
    Report(Vec<u8>),
    Nothing,
    Fail,
}

/// A device that records what is written and answers from a list.
struct Script {
    written: Rc<RefCell<Vec<Vec<u8>>>>,
    reads: Rc<RefCell<Vec<Option<i32>>>>,
    replies: RefCell<VecDeque<Reply>>,
    fail_write_at: Option<usize>,
}

impl Script {
    fn new(replies: Vec<Reply>) -> (Script, Rc<RefCell<Vec<Vec<u8>>>>) {
        let written = Rc::new(RefCell::new(Vec::new()));
        let script = Script {
            written: written.clone(),
            reads: Rc::new(RefCell::new(Vec::new())),
            replies: RefCell::new(replies.into()),
            fail_write_at: None,
        };
        (script, written)
    }

    fn answer(&self, buf: &mut [u8]) -> Result<usize, Error> {
        match self.replies.borrow_mut().pop_front() {
            Some(Reply::Report(bytes)) => {
                let n = bytes.len().min(buf.len());
                buf[..n].copy_from_slice(&bytes[..n]);
                Ok(n)
            }
            Some(Reply::Nothing) => Ok(0),
            Some(Reply::Fail) | None => Err(Error::Other("no such device")),
        }
    }
}

impl Device for Script {
    fn get_serial(&self) -> Result<String, Error> {
        Ok(String::from("MP-0001"))
    }

    fn write(&self, data: &[u8]) -> Result<usize, Error> {
        let mut written = self.written.borrow_mut();
        if self.fail_write_at == Some(written.len()) {
            return Err(Error::Other("write refused"));
        }
        written.push(data.to_vec());
        Ok(data.len())
    }

    fn read(&self, buf: &mut [u8]) -> Result<usize, Error> {
        self.reads.borrow_mut().push(None);
        self.answer(buf)
    }

    fn read_timeout(&self, buf: &mut [u8], timeout: i32) -> Result<usize, Error> {
        self.reads.borrow_mut().push(Some(timeout));
        self.answer(buf)
    }
}

/// A device on which every call fails, each with an error of its own.
struct Unplugged;

impl Device for Unplugged {
    fn get_serial(&self) -> Result<String, Error> {
        Err(Error::EmptyConfig)
    }

    fn write(&self, _data: &[u8]) -> Result<usize, Error> {
        Err(Error::InvalidPacket)
    }

    fn read(&self, _buf: &mut [u8]) -> Result<usize, Error> {
        Err(Error::Utf8Error)
    }

    fn read_timeout(&self, _buf: &mut [u8], _timeout: i32) -> Result<usize, Error> {
        Err(Error::Timeout)
    }
}

#[test]
fn the_serial_number_is_what_the_device_gives() {
    let (script, written) = Script::new(vec![]);
    let reads = script.reads.clone();
    let link = Transport::new(script);
    assert_eq!(link.serial(), Ok(String::from("MP-0001")));
    assert!(written.borrow().is_empty());
    assert!(reads.borrow().is_empty());
}

#[test]
fn every_failure_of_the_device_is_a_disconnect() {
    let mut link = Transport::new(Unplugged);
    assert_eq!(link.serial(), Err(Error::Disconnect));
    assert_eq!(link.send(&[0u8, 1]), Err(Error::Disconnect));
    assert_eq!(link.receive(None), Err(Error::Disconnect));
    assert_eq!(link.receive(Some(5)), Err(Error::Disconnect));
    assert_eq!(link.receive_status(), Err(Error::Disconnect));
}

/// One report that opens a reply: identifier, declared length, payload.
fn report(id: u8, declared: u16, payload: &[u8]) -> Reply {
    let mut bytes = vec![0u8; 64];
    bytes[0] = id;
    bytes[1] = (declared >> 8) as u8;
    bytes[2] = declared as u8;
    bytes[3..3 + payload.len()].copy_from_slice(payload);
    Reply::Report(bytes)
}

/// A whole short reply.
fn reply(id: u8, payload: &[u8]) -> Reply {
    report(id, payload.len() as u16, payload)
}

fn frame(bytes: &[u8]) -> Vec<u8> {
    let mut out = vec![0u8; 65];
    out[..bytes.len()].copy_from_slice(bytes);
    out
}

#[test]
fn ping_is_true_when_the_device_answers_with_ping() {
    let (script, written) = Script::new(vec![reply(3, &[])]);
    let reads = script.reads.clone();
    let mut board = Meowboard::new(script);
    assert_eq!(board.ping(), Ok(true));
    assert_eq!(*written.borrow(), vec![frame(&[0, 3, 0, 0])]);
    assert_eq!(*reads.borrow(), vec![Some(1000)]);
}

#[test]
fn ping_is_false_for_any_other_reply_and_for_none() {
    // another identifier
    let (script, _) = Script::new(vec![reply(1, &[])]);
    assert_eq!(Meowboard::new(script).ping(), Ok(false));
    // an identifier that the family does not know
    let (script, _) = Script::new(vec![reply(0x77, &[])]);
    assert_eq!(Meowboard::new(script).ping(), Ok(false));
    // no reply within the wait
    let (script, _) = Script::new(vec![Reply::Nothing]);
    assert_eq!(Meowboard::new(script).ping(), Ok(false));
    let (script, _) = Script::new(vec![Reply::Nothing]);
    assert_eq!(Meowpad::new(script).ping(), Ok(false));
    let (script, _) = Script::new(vec![reply(3, &[])]);
    assert_eq!(Meowpad::new(script).ping(), Ok(true));
}

#[test]
fn ping_fails_only_when_the_transport_fails() {
    let (script, _) = Script::new(vec![Reply::Fail]);
    assert_eq!(Meowboard::new(script).ping(), Err(Error::Disconnect));
    let (mut script, written) = Script::new(vec![reply(3, &[])]);
    script.fail_write_at = Some(0);
    assert_eq!(Meowboard::new(script).ping(), Err(Error::Disconnect));
    assert!(written.borrow().is_empty());
}

#[test]
fn status_of_the_keyboard_has_three_flags() {
    let (script, written) = Script::new(vec![reply(1, &[1, 0, 1])]);
    let mut board = Meowboard::new(script);
    assert_eq!(
        board.get_status(),
        Ok(DeviceStatus { key: true, light: None, hall: false, enabled: true })
    );
    assert_eq!(*written.borrow(), vec![frame(&[0, 16, 0, 0])]);
}

#[test]
fn status_of_the_keypad_has_four_flags() {
    let (script, _) = Script::new(vec![reply(1, &[0, 1, 1, 0])]);
    let mut pad = Meowpad::new(script);
    assert_eq!(
        pad.get_status(),
        Ok(DeviceStatus { key: false, light: Some(true), hall: true, enabled: false })
    );
    let (script, _) = Script::new(vec![reply(1, &[0, 1, 1])]);
    assert_eq!(Meowpad::new(script).get_status(), Err(Error::InvalidPacket));
}

#[test]
fn each_failure_of_a_command_has_its_error() {
    // a reply without the success marker
    let (script, _) = Script::new(vec![reply(2, &[9, 9])]);
    assert_eq!(
        Meowboard::new(script).get_status(),
        Err(Error::UnexceptedResponse(Packet::new(2, vec![9, 9])))
    );
    // a payload shorter than the status
    let (script, _) = Script::new(vec![reply(1, &[1, 1])]);
    assert_eq!(Meowboard::new(script).get_status(), Err(Error::InvalidPacket));
    // an identifier outside the table of the family
    let (script, _) = Script::new(vec![reply(101, &[1, 1, 1])]);
    assert_eq!(Meowboard::new(script).get_status(), Err(Error::InvalidPacket));
    // the same identifier is known to the keypad
    let (script, _) = Script::new(vec![reply(101, &[1, 1, 1, 1])]);
    assert_eq!(
        Meowpad::new(script).get_status(),
        Err(Error::UnexceptedResponse(Packet::new(101, vec![1, 1, 1, 1])))
    );
    // a read without any byte
    let (script, _) = Script::new(vec![Reply::Nothing]);
    assert_eq!(Meowboard::new(script).get_status(), Err(Error::Timeout));
    // a failed read and a failed write
    let (script, _) = Script::new(vec![Reply::Fail]);
    assert_eq!(Meowboard::new(script).get_status(), Err(Error::Disconnect));
    let (mut script, _) = Script::new(vec![reply(1, &[1, 1, 1])]);
    script.fail_write_at = Some(0);
    assert_eq!(Meowboard::new(script).get_status(), Err(Error::Disconnect));
}

#[test]
fn name_and_version_are_cached_as_text() {
    let (script, written) =
        Script::new(vec![reply(1, b"Pure64"), reply(1, b"1.2.3"), reply(1, &[0xFF, 0xFE])]);
    let mut board = Meowboard::new(script);
    assert_eq!(board.get_device_name(), Ok(()));
    assert_eq!(board.device_name.as_deref(), Some("Pure64"));
    assert_eq!(board.get_firmware_version(), Ok(()));
    assert_eq!(board.firmware_version.as_deref(), Some("1.2.3"));
    assert_eq!(board.get_device_name(), Err(Error::Utf8Error));
    assert_eq!(board.device_name.as_deref(), Some("Pure64"));
    assert_eq!(
        *written.borrow(),
        vec![frame(&[0, 8, 0, 0]), frame(&[0, 7, 0, 0]), frame(&[0, 8, 0, 0])]
    );
}

/// A report after the first: the marker, then payload.
fn later(payload: &[u8]) -> Reply {
    let mut bytes = vec![0u8; 64];
    bytes[0] = 0xFE;
    bytes[1..1 + payload.len()].copy_from_slice(payload);
    Reply::Report(bytes)
}

#[test]
fn long_reply_is_asked_for_report_by_report() {
    // 200 declared bytes: 61 in the first report, then 63, 63 and 13
    let (script, written) = Script::new(vec![
        report(1, 200, &[0x11; 61]),
        later(&[0x22; 63]),
        later(&[0x33; 63]),
        later(&[0x44; 63]),
    ]);
    let reads = script.reads.clone();
    let mut board = Meowboard::new(script);
    let config = board.load_key_config().unwrap();
    assert_eq!(config.len(), 200);
    assert!(config[..61].iter().all(|b| *b == 0x11));
    assert!(config[61..124].iter().all(|b| *b == 0x22));
    assert!(config[124..187].iter().all(|b| *b == 0x33));
    assert!(config[187..].iter().all(|b| *b == 0x44));
    assert_eq!(
        *written.borrow(),
        vec![
            frame(&[0, 100, 0, 0]),
            frame(&[0, 1, 0, 1, 1]),
            frame(&[0, 1, 0, 1, 2]),
            frame(&[0, 1, 0, 1, 3]),
        ]
    );
    assert_eq!(*reads.borrow(), vec![None, None, None, None]);
}

#[test]
fn a_reply_that_stops_short_fails_the_exchange() {
    let (script, written) = Script::new(vec![report(1, 200, &[0x11; 61]), Reply::Nothing]);
    let mut board = Meowboard::new(script);
    assert_eq!(board.load_key_config(), Err(Error::Timeout));
    assert_eq!(board.key_config, None);
    assert_eq!(written.borrow().len(), 2);
}

#[test]
fn the_cache_is_replaced_only_by_a_decoded_record() {
    let (script, written) = Script::new(vec![reply(1, &[]), reply(2, &[1]), reply(1, &[9, 9])]);
    let mut board = Meowboard::new(script);
    // a reply with the success marker and a payload that is no record
    assert_eq!(board.load_key_config(), Ok(vec![]));
    assert_eq!(board.key_config, None);
    assert_eq!(board.cache_key_config(None), Err(Error::ConfigCborParseFailed));
    assert_eq!(board.key_config, None);
    // a reply without the success marker
    assert_eq!(
        board.load_key_config(),
        Err(Error::UnexceptedResponse(Packet::new(2, vec![1])))
    );
    assert_eq!(board.key_config, None);
    // a record that was decoded
    let record = board_cbor::Device::default();
    assert_eq!(board.load_key_config(), Ok(vec![9, 9]));
    assert_eq!(board.cache_key_config(Some(record)), Ok(()));
    assert_eq!(board.key_config, Some(record));
    // a later failure keeps it
    assert_eq!(board.cache_key_config(None), Err(Error::ConfigCborParseFailed));
    assert_eq!(board.key_config, Some(record));
    assert_eq!(written.borrow().len(), 3);
}

#[test]
fn a_configuration_is_sent_only_when_one_is_cached() {
    let encoded: Vec<u8> = (0..70u8).collect();
    let (script, written) = Script::new(vec![reply(1, &[]), reply(1, &[])]);
    let mut board = Meowboard::new(script);
    assert_eq!(board.set_key_config(encoded.clone()), Err(Error::EmptyConfig));
    assert!(written.borrow().is_empty());
    board.key_config = Some(board_cbor::Device::default());
    assert_eq!(board.set_key_config(vec![0u8; 65536]), Err(Error::InvalidPacket));
    assert!(written.borrow().is_empty());
    assert_eq!(board.set_key_config(encoded.clone()), Ok(()));
    assert_eq!(board.save_key_config(), Ok(()));
    let written = written.borrow();
    // two frames of the record, then the save
    assert_eq!(written.len(), 3);
    let mut first = vec![0u8, 102, 0, 70];
    first.extend_from_slice(&encoded[..61]);
    assert_eq!(written[0], first);
    let mut second = vec![0u8, 0xFE];
    second.extend_from_slice(&encoded[61..]);
    assert_eq!(written[1], frame(&second));
    assert_eq!(written[2], frame(&[0, 104, 0, 0]));
}

#[test]
fn keypad_configurations_are_kept_apart() {
    let (script, written) =
        Script::new(vec![reply(1, &[1, 2, 3]), reply(1, &[4, 5]), reply(1, &[]), reply(2, &[])]);
    let mut pad = Meowpad::new(script);
    assert_eq!(pad.set_light_config(vec![4, 5]), Err(Error::EmptyConfig));
    assert_eq!(pad.load_key_config(), Ok(vec![1, 2, 3]));
    assert_eq!(pad.load_light_config(), Ok(vec![4, 5]));
    assert_eq!(pad.key_config, None);
    assert_eq!(pad.light_config, None);
    assert_eq!(pad.cache_light_config(Some(pad_cbor::Light::default())), Ok(()));
    assert_eq!(pad.key_config, None);
    assert_eq!(pad.light_config, Some(pad_cbor::Light::default()));
    assert_eq!(pad.set_key_config(vec![1, 2, 3]), Err(Error::EmptyConfig));
    assert_eq!(pad.set_light_config(vec![4, 5]), Ok(()));
    assert_eq!(pad.cache_key_config(None), Err(Error::ConfigCborParseFailed));
    assert_eq!(pad.cache_key_config(Some(pad_cbor::Keyboard::default())), Ok(()));
    assert_eq!(
        pad.set_key_config(vec![1, 2, 3]),
        Err(Error::UnexceptedResponse(Packet::new(2, vec![])))
    );
    assert_eq!(
        *written.borrow(),
        vec![
            frame(&[0, 100, 0, 0]),
            frame(&[0, 101, 0, 0]),
            frame(&[0, 103, 0, 2, 4, 5]),
            frame(&[0, 102, 0, 3, 1, 2, 3]),
        ]
    );
}

fn readings(state: u8) -> Vec<u8> {
    let mut data = Vec::new();
    for key in 0..8u8 {
        data.extend_from_slice(&[1, key, 2, key, 10 + key, state]);
    }
    data
}

#[test]
fn readings_of_one_part_are_six_bytes_a_key() {
    let (script, written) = Script::new(vec![reply(1, &readings(1))]);
    let mut board = Meowboard::new(script);
    let keys = board.get_debug_value_part(5).unwrap();
    for key in 0..8u16 {
        assert_eq!(
            keys[key as usize],
            KeyRTStatus {
                adc_value: 256 + key,
                linear_value: 512 + key,
                press_percentage: 10 + key as u8,
                key_state: KeyState::Released,
            }
        );
    }
    assert_eq!(*written.borrow(), vec![frame(&[0, 11, 0, 1, 5])]);
    // a state byte that names no state
    let (script, _) = Script::new(vec![reply(1, &readings(3))]);
    assert_eq!(Meowboard::new(script).get_debug_value_part(0), Err(Error::InvalidPacket));
    // one byte short
    let (script, _) = Script::new(vec![reply(1, &readings(0)[..47])]);
    assert_eq!(Meowboard::new(script).get_debug_value_part(0), Err(Error::InvalidPacket));
}

#[test]
fn readings_of_all_keys_come_from_eight_parts() {
    let mut replies = Vec::new();
    for part in 0..8u8 {
        let mut data = Vec::new();
        for key in 0..8u8 {
            data.extend_from_slice(&[0, part * 8 + key, 0, part, key, 2]);
        }
        replies.push(reply(1, &data));
    }
    let (script, written) = Script::new(replies);
    let mut board = Meowboard::new(script);
    let keys = board.get_debug_value().unwrap();
    for k in 0..64usize {
        assert_eq!(keys[k].adc_value, k as u16);
        assert_eq!(keys[k].linear_value, (k / 8) as u16);
        assert_eq!(keys[k].press_percentage, (k % 8) as u8);
        assert_eq!(keys[k].key_state, KeyState::Calibrating);
    }
    let written = written.borrow();
    assert_eq!(written.len(), 8);
    for part in 0..8u8 {
        assert_eq!(written[part as usize], frame(&[0, 11, 0, 1, part]));
    }
}

#[test]
fn a_bad_part_stops_the_parts_after_it() {
    let (script, written) = Script::new(vec![
        reply(1, &readings(0)),
        reply(2, &[]),
        reply(1, &readings(0)),
    ]);
    let mut board = Meowboard::new(script);
    assert_eq!(
        board.get_debug_value(),
        Err(Error::UnexceptedResponse(Packet::new(2, vec![])))
    );
    assert_eq!(written.borrow().len(), 2);
}

#[test]
fn states_and_flags_come_in_two_halves() {
    let first: Vec<u8> = (0..32u8).map(|i| i % 3).collect();
    let second: Vec<u8> = (0..32u8).map(|i| (i + 1) % 3).collect();
    let (script, written) = Script::new(vec![
        reply(1, &first),
        reply(1, &second),
        reply(1, &first),
        reply(1, &second),
    ]);
    let mut board = Meowboard::new(script);
    let states = board.get_keystates().unwrap();
    let names = [KeyState::Pressed, KeyState::Released, KeyState::Calibrating];
    for k in 0..32usize {
        assert_eq!(states[k], names[k % 3]);
        assert_eq!(states[32 + k], names[(k + 1) % 3]);
    }
    let flags = board.get_key_calibrate_status().unwrap();
    for k in 0..32usize {
        assert_eq!(flags[k], k % 3 != 0);
        assert_eq!(flags[32 + k], (k + 1) % 3 != 0);
    }
    assert_eq!(
        *written.borrow(),
        vec![
            frame(&[0, 51, 0, 1, 0]),
            frame(&[0, 51, 0, 1, 1]),
            frame(&[0, 52, 0, 1, 0]),
            frame(&[0, 52, 0, 1, 1]),
        ]
    );
    // a state byte that names no state
    let (script, _) = Script::new(vec![reply(1, &[7u8; 32])]);
    assert_eq!(Meowboard::new(script).get_keystates(), Err(Error::InvalidPacket));
}

#[test]
fn raw_values_come_in_thirty_thirty_and_four() {
    let part = |from: u16, count: u16| -> Vec<u8> {
        let mut data = Vec::new();
        for v in from..from + count {
            data.extend_from_slice(&(1000 + v).to_be_bytes());
        }
        data
    };
    let (script, written) =
        Script::new(vec![reply(1, &part(0, 30)), reply(1, &part(30, 30)), reply(1, &part(60, 4))]);
    let mut board = Meowboard::new(script);
    let values = board.get_keyvalues().unwrap();
    for k in 0..64u16 {
        assert_eq!(values[k as usize], 1000 + k);
    }
    assert_eq!(
        *written.borrow(),
        vec![frame(&[0, 50, 0, 1, 0]), frame(&[0, 50, 0, 1, 1]), frame(&[0, 50, 0, 1, 2])]
    );
}

#[test]
fn calibrations_are_highest_lowest_middle() {
    let mut data = Vec::new();
    for key in 0..8u8 {
        data.extend_from_slice(&[0x0F, key, 0x01, key, 0x08, key]);
    }
    let (script, _) = Script::new(vec![reply(1, &data)]);
    let keys = Meowboard::new(script).get_hall_config_part(2).unwrap();
    for key in 0..8u16 {
        assert_eq!(
            keys[key as usize],
            KeyHallConfig { adc_max: 0x0F00 + key, adc_min: 0x0100 + key, hall_middle: 0x0800 + key }
        );
    }
    let mut replies = Vec::new();
    for part in 0..8u8 {
        let mut data = Vec::new();
        for key in 0..8u8 {
            data.extend_from_slice(&[0, part * 8 + key, 0, 0, 0, 0]);
        }
        replies.push(reply(1, &data));
    }
    let (script, _) = Script::new(replies);
    let all = Meowboard::new(script).get_hall_config().unwrap();
    for k in 0..64usize {
        assert_eq!(all[k].adc_max, k as u16);
    }
    let (script, _) = Script::new(vec![reply(1, &data[..24])]);
    let four = Meowpad::new(script).get_hall_config().unwrap();
    assert_eq!(four[3], KeyHallConfig { adc_max: 0x0F03, adc_min: 0x0103, hall_middle: 0x0803 });
}

#[test]
fn keypad_readings_are_eight_bytes_a_key() {
    let mut data = Vec::new();
    for key in 0..4u8 {
        data.extend_from_slice(&[3, key, 4, key, 0, 50 + key, 0, 1]);
    }
    let (script, written) = Script::new(vec![reply(1, &data)]);
    let keys = Meowpad::new(script).get_debug_value().unwrap();
    for key in 0..4u16 {
        assert_eq!(
            keys[key as usize],
            KeyRTStatus {
                adc_value: 768 + key,
                linear_value: 1024 + key,
                press_percentage: 50 + key as u8,
                key_state: KeyState::Released,
            }
        );
    }
    assert_eq!(*written.borrow(), vec![frame(&[0, 11, 0, 0])]);
    data[7] = 3;
    let (script, _) = Script::new(vec![reply(1, &data)]);
    assert_eq!(Meowpad::new(script).get_debug_value(), Err(Error::InvalidPacket));
    data[7] = 1;
    data[6] = 1;
    let (script, _) = Script::new(vec![reply(1, &data)]);
    assert_eq!(Meowpad::new(script).get_debug_value(), Err(Error::InvalidPacket));
}

#[test]
fn a_refused_command_names_the_request() {
    let (script, written) =
        Script::new(vec![reply(2, &[]), reply(1, &[]), reply(2, &[1]), reply(2, &[]), reply(1, &[])]);
    let mut board = Meowboard::new(script);
    assert_eq!(board.calibration_key(&[4, 5, 6]), Err(Error::CommandFailed(9)));
    assert_eq!(board.calibration_key(&[]), Ok(()));
    assert_eq!(board.reset_middle_point(), Err(Error::CommandFailed(13)));
    assert_eq!(board.erase_firmware(), Err(Error::CommandFailed(10)));
    assert_eq!(board.erase_firmware(), Ok(()));
    assert_eq!(written.borrow()[0], frame(&[0, 9, 0, 3, 4, 5, 6]));
    let (script, _) = Script::new(vec![reply(2, &[])]);
    assert_eq!(Meowpad::new(script).calibration_key(), Err(Error::CommandFailed(9)));
}

#[test]
fn commands_without_result_want_the_success_marker() {
    let (script, written) = Script::new(vec![
        reply(1, &[]),
        reply(1, &[]),
        reply(1, &[]),
        reply(3, &[]),
    ]);
    let mut board = Meowboard::new(script);
    assert_eq!(board.clear_key_config(), Ok(()));
    assert_eq!(board.clear_hall_config(), Ok(()));
    assert_eq!(board.reset_device(), Ok(()));
    assert_eq!(board.reset_device(), Err(Error::UnexceptedResponse(Packet::new(3, vec![]))));
    assert_eq!(
        *written.borrow(),
        vec![
            frame(&[0, 106, 0, 0]),
            frame(&[0, 109, 0, 0]),
            frame(&[0, 15, 0, 0]),
            frame(&[0, 15, 0, 0]),
        ]
    );
    let (script, written) = Script::new(vec![reply(1, &[]), reply(1, &[]), reply(1, &[])]);
    let mut pad = Meowpad::new(script);
    assert_eq!(pad.clear_light_config(), Ok(()));
    assert_eq!(pad.save_light_config(), Ok(()));
    assert_eq!(pad.clear_key_config(), Ok(()));
    assert_eq!(
        *written.borrow(),
        vec![frame(&[0, 107, 0, 0]), frame(&[0, 105, 0, 0]), frame(&[0, 106, 0, 0])]
    );
}

#[test]
fn a_packet_can_be_read_without_a_request() {
    let (script, written) = Script::new(vec![reply(16, &[1, 2, 3])]);
    let mut board = Meowboard::new(script);
    assert_eq!(board.read(), Ok(Packet::new(16, vec![1, 2, 3])));
    assert!(written.borrow().is_empty());
}

fn status(a: u8, b: u8) -> Reply {
    Reply::Report(vec![a, b])
}

fn command_frame(opcode: u8, len: u8, addr: u16, data: &[u8]) -> Vec<u8> {
    let mut out = vec![0u8; 65];
    out[1] = opcode;
    out[2] = len;
    out[3] = addr as u8;
    out[4] = (addr >> 8) as u8;
    out[5..5 + data.len()].copy_from_slice(data);
    out
}

#[test]
fn command_frame_is_selector_opcode_length_address_data() {
    let mut buf = [0u8; 60];
    buf[0] = 0xAA;
    buf[59] = 0xBB;
    let packet = IAPacket { cmd: IAPCommand::Verify, len: 60, addr: [0x34, 0x12], buf };
    let wire = packet.packet();
    assert_eq!(wire.len(), 65);
    assert_eq!(&wire[..6], &[0u8, 0x82, 60, 0x34, 0x12, 0xAA]);
    assert_eq!(wire[64], 0xBB);
    assert_eq!(u8::from(IAPCommand::Erase), 0x80);
    assert_eq!(u8::from(IAPCommand::Program), 0x81);
    assert_eq!(u8::from(IAPCommand::Verify), 0x82);
    assert_eq!(u8::from(IAPCommand::End), 0x83);
    let image: Vec<u8> = (0..100u8).collect();
    let chunk = IAPacket::chunk(IAPCommand::Program, &image, 60, 100);
    assert_eq!(chunk.packet().to_vec(), command_frame(0x81, 40, 60, &image[60..]));
}

#[test]
fn program_outside_the_programming_pass_touches_nothing() {
    let (script, written) = Script::new(vec![]);
    let reads = script.reads.clone();
    let mut iap = IAP::new(script);
    assert!(iap.state == IAPState::Idle);
    assert_eq!(iap.program(), Err(IapError::Other("IAP is not in programming state")));
    assert_eq!(iap.verify(), Err(IapError::Other("IAP is not in verifying state")));
    assert!(iap.state == IAPState::Idle);
    assert!(written.borrow().is_empty());
    assert!(reads.borrow().is_empty());
}

#[test]
fn a_step_without_an_image_has_no_firmware_data() {
    let (script, written) = Script::new(vec![]);
    let mut iap = IAP::new(script);
    iap.state = IAPState::Programming;
    assert_eq!(iap.program(), Err(IapError::NoFirmwareData));
    iap.state = IAPState::Verifying;
    assert_eq!(iap.verify(), Err(IapError::NoFirmwareData));
    assert!(written.borrow().is_empty());
}

#[test]
fn a_failed_program_step_names_the_opcode_and_keeps_the_state() {
    let image = vec![5u8; 100];
    let (script, written) = Script::new(vec![status(0, 0), status(0x01, 0x00)]);
    let mut iap = IAP::new(script);
    assert_eq!(iap.start_program(image), Ok(100));
    assert_eq!(iap.program(), Err(IapError::CommandFailed(IAPCommand::Program)));
    assert!(iap.state == IAPState::Programming);
    assert_eq!(written.borrow().len(), 2);
}

#[test]
fn a_failed_erase_leaves_the_session_idle() {
    let (script, written) = Script::new(vec![status(0, 1)]);
    let mut iap = IAP::new(script);
    assert_eq!(iap.start_program(vec![1u8; 10]), Err(IapError::CommandFailed(IAPCommand::Erase)));
    assert!(iap.state == IAPState::Idle);
    assert_eq!(*written.borrow(), vec![command_frame(0x80, 0, 0, &[])]);
    let (script, _) = Script::new(vec![Reply::Fail]);
    assert_eq!(IAP::new(script).start_program(vec![1u8; 10]), Err(IapError::Disconnect));
    let (script, _) = Script::new(vec![Reply::Nothing]);
    assert_eq!(IAP::new(script).start_program(vec![1u8; 10]), Err(IapError::Disconnect));
    let (mut script, _) = Script::new(vec![status(0, 0)]);
    script.fail_write_at = Some(0);
    assert_eq!(IAP::new(script).start_program(vec![1u8; 10]), Err(IapError::Disconnect));
}

#[test]
fn an_image_beyond_the_address_space_is_refused_unsent() {
    let (script, written) = Script::new(vec![status(0, 0)]);
    let mut iap = IAP::new(script);
    assert_eq!(
        iap.start_program(vec![0u8; 65536]),
        Err(IapError::Other("firmware image exceeds the flash address space"))
    );
    assert!(written.borrow().is_empty());
    assert!(iap.state == IAPState::Idle);
    assert_eq!(iap.start_program(vec![0u8; 65535]), Ok(65535));
}

fn run_cycle(len: usize) -> (Vec<u16>, Vec<u16>, Vec<Vec<u8>>) {
    let image: Vec<u8> = (0..len).map(|i| (i % 253) as u8).collect();
    let chunks = (len + 59) / 60;
    let (script, written) = Script::new(vec![status(0, 0); 1 + 2 * chunks]);
    let mut iap = IAP::new(script);
    assert_eq!(iap.start_program(image), Ok(len));
    let mut programmed = Vec::new();
    while iap.state == IAPState::Programming {
        programmed.push(iap.program().unwrap());
    }
    let mut verified = Vec::new();
    while iap.state == IAPState::Verifying {
        verified.push(iap.verify().unwrap());
    }
    assert!(iap.state == IAPState::Idle);
    let frames = written.borrow().clone();
    (programmed, verified, frames)
}

#[test]
fn a_cycle_sends_every_chunk_twice_at_the_same_addresses() {
    let image: Vec<u8> = (0..130usize).map(|i| (i % 253) as u8).collect();
    let (programmed, verified, frames) = run_cycle(130);
    // three chunk steps, then the step that changes the pass
    assert_eq!(programmed, vec![60, 120, 130, 0]);
    assert_eq!(verified, vec![60, 120, 130, 130]);
    assert_eq!(
        frames,
        vec![
            command_frame(0x80, 0, 0, &[]),
            command_frame(0x81, 60, 0, &image[..60]),
            command_frame(0x81, 60, 60, &image[60..120]),
            command_frame(0x81, 10, 120, &image[120..]),
            command_frame(0x82, 60, 0, &image[..60]),
            command_frame(0x82, 60, 60, &image[60..120]),
            command_frame(0x82, 10, 120, &image[120..]),
            command_frame(0x83, 2, 0, &[]),
        ]
    );
}

#[test]
fn chunk_steps_number_the_image_length_over_sixty_rounded_up() {
    for len in [0usize, 1, 59, 60, 61, 120, 513, 1000] {
        let chunks = (len + 59) / 60;
        let (programmed, verified, frames) = run_cycle(len);
        assert_eq!(programmed.len(), chunks + 1, "image of {} bytes", len);
        assert_eq!(verified.len(), chunks + 1);
        assert_eq!(frames.len(), 2 + 2 * chunks);
        if len > 0 {
            let last = if len % 60 == 0 { 60 } else { len % 60 };
            // the address that the last chunk of each pass carries
            let sent = &frames[chunks];
            assert_eq!(sent[3] as usize + 256 * sent[4] as usize, len - last);
            assert_eq!(sent[2] as usize, last);
            let checked = &frames[2 * chunks];
            assert_eq!(checked[3] as usize + 256 * checked[4] as usize, len - last);
        }
        for window in programmed[..chunks].windows(2) {
            assert!(window[0] <= window[1]);
        }
    }
}

#[test]
fn a_failed_verify_step_names_the_opcode() {
    let (script, _) = Script::new(vec![status(0, 0), status(0, 0), status(0, 2)]);
    let mut iap = IAP::new(script);
    assert_eq!(iap.start_program(vec![9u8; 30]), Ok(30));
    assert_eq!(iap.program(), Ok(30));
    assert_eq!(iap.program(), Ok(0));
    assert!(iap.state == IAPState::Verifying);
    assert_eq!(iap.verify(), Err(IapError::CommandFailed(IAPCommand::Verify)));
    assert!(iap.state == IAPState::Verifying);
}

#[test]
fn the_end_command_needs_no_status() {
    let (mut script, written) = Script::new(vec![status(0, 0), status(0, 0), status(0, 0)]);
    script.fail_write_at = Some(3);
    let mut iap = IAP::new(script);
    assert_eq!(iap.start_program(vec![9u8; 30]), Ok(30));
    assert_eq!(iap.program(), Ok(30));
    assert_eq!(iap.program(), Ok(0));
    assert_eq!(iap.verify(), Ok(30));
    // the write of the end command fails: the session is closed all the same
    assert_eq!(iap.verify(), Err(IapError::Disconnect));
    assert!(iap.state == IAPState::Idle);
    assert_eq!(written.borrow().len(), 3);
}
