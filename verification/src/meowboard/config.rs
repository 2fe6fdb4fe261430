//! The configuration of the keyboard as the caller sees it.

use crate::color::{blue_of, green_of, red_of, unpack_argb};
use crate::error::Error;
use crate::keycode::KeyValue;
use crate::meowboard::cbor;
use crate::meowboard::keymap::{layer_of, KeyMap};
use crate::rgb::RGB;
use vstd::prelude::*;

verus! {

/// The trigger settings of one key.
#[derive(Clone, Debug, Copy, PartialEq, Eq, Structural)]
pub struct KeyConfig {
    pub press_percentage: u8,
    pub release_percentage: u8,
    /// 0-30
    pub dead_zone: u8,
    /// 0-30
    pub release_dead_zone: u8,
    pub rt_enabled: bool,
}

/// The configuration of a keyboard.
#[derive(Clone, Debug, Copy, PartialEq, Eq)]
pub struct Device {
    pub keys: [KeyConfig; 64],
    pub normal_layer: [KeyValue; 64],
    pub fn_layer: [KeyValue; 64],
    pub jitters_elimination_time: u16,
    pub high_reportrate: bool,
    pub key_proof: bool,
    pub auto_calibration: bool,
    pub hall_filter: u8,
    pub max_brightness: u8,
    pub led_color: RGB<u8>,
}

/// The trigger settings that a record holds for a key.
pub open spec fn key_config(cfg: cbor::KeyRTConfig) -> KeyConfig {
    KeyConfig {
        press_percentage: cfg.PressPercentage,
        release_percentage: cfg.ReleasePercentage,
        dead_zone: cfg.DeadZone,
        release_dead_zone: cfg.ReleaseDeadZone,
        rt_enabled: cfg.RtEnabled,
    }
}

/// `cfg` is the configuration that `record` holds.
pub open spec fn reads(record: cbor::Device, cfg: Device) -> bool {
    &&& forall|i: int| 0 <= i < 64 ==> cfg.keys@[i] == key_config(#[trigger] record.KeyConfigs@[i])
    &&& cfg.normal_layer@ == layer_of(record.KeyMap@, 0)
    &&& cfg.fn_layer@ == layer_of(record.KeyMap@, 1)
    &&& cfg.jitters_elimination_time == record.JittersEliminationTime
    &&& cfg.high_reportrate == record.HighReportRate
    &&& cfg.key_proof == record.KeyProof
    &&& cfg.auto_calibration == record.AutoCalibration
    &&& cfg.hall_filter == record.HallFilter
    &&& cfg.max_brightness == record.MaxBrightness
    &&& cfg.led_color.r == red_of(record.led_color)
    &&& cfg.led_color.g == green_of(record.led_color)
    &&& cfg.led_color.b == blue_of(record.led_color)
}

/// The record of a configuration reads back as that configuration.
pub proof fn lemma_record_round_trip(cfg: Device, record: cbor::Device, back: Device)
    requires
        cbor::records(cfg, record),
        reads(record, back),
    ensures
        back == cfg,
{
    crate::meowboard::keymap::lemma_layers_round_trip(cfg.normal_layer@, cfg.fn_layer@);
    crate::color::lemma_pack_round_trip(0xFF, cfg.led_color);
    assert(back.keys@ =~= cfg.keys@);
    assert(back.normal_layer@ =~= cfg.normal_layer@);
    assert(back.fn_layer@ =~= cfg.fn_layer@);
    assert(back.keys == cfg.keys);
    assert(back.normal_layer == cfg.normal_layer);
    assert(back.fn_layer == cfg.fn_layer);
    assert(back.led_color == cfg.led_color);
}

impl KeyConfig {
    /// The trigger settings that a record holds for a key.
    pub fn from(cfg: cbor::KeyRTConfig) -> (r: KeyConfig)
        ensures
            r == key_config(cfg),
    {
        KeyConfig {
            press_percentage: cfg.PressPercentage,
            release_percentage: cfg.ReleasePercentage,
            dead_zone: cfg.DeadZone,
            release_dead_zone: cfg.ReleaseDeadZone,
            rt_enabled: cfg.RtEnabled,
        }
    }
}

impl Default for KeyConfig {
    fn default() -> (r: KeyConfig)
        ensures
            r == (KeyConfig {
                press_percentage: 0,
                release_percentage: 0,
                dead_zone: 0,
                release_dead_zone: 0,
                rt_enabled: false,
            }),
    {
        KeyConfig {
            press_percentage: 0,
            release_percentage: 0,
            dead_zone: 0,
            release_dead_zone: 0,
            rt_enabled: false,
        }
    }
}

impl Device {
    /// The configuration that a record holds. Every record of a keyboard holds one.
    pub fn try_from(cfg: &cbor::Device) -> (r: Result<Device, Error>)
        ensures
            r matches Ok(d) && reads(*cfg, d),
    {
        let mut keys = [KeyConfig::default();64];
        let mut i: usize = 0;
        while i < 64
            invariant
                i <= 64,
                forall|j: int| 0 <= j < i ==> keys@[j] == key_config(cfg.KeyConfigs@[j]),
            decreases 64 - i,
        {
            keys[i] = KeyConfig::from(cfg.KeyConfigs[i]);
            i += 1;
        }
        let map = KeyMap::from_bytes(cfg.KeyMap);
        Ok(
            Device {
                keys,
                normal_layer: map.layer(0),
                fn_layer: map.layer(1),
                high_reportrate: cfg.HighReportRate,
                key_proof: cfg.KeyProof,
                auto_calibration: cfg.AutoCalibration,
                hall_filter: cfg.HallFilter,
                jitters_elimination_time: cfg.JittersEliminationTime,
                max_brightness: cfg.MaxBrightness,
                led_color: unpack_argb(cfg.led_color),
            },
        )
    }
}

impl Default for Device {
    fn default() -> (r: Device)
        ensures
            forall|i: int|
                0 <= i < 64 ==> (#[trigger] r.keys@[i]) == key_config(cbor::default_key()),
            r.normal_layer@ == layer_of(crate::meowboard::keymap::default_bytes(), 0),
            r.fn_layer@ == layer_of(crate::meowboard::keymap::default_bytes(), 1),
            r.jitters_elimination_time == 120,
            r.high_reportrate,
            r.key_proof,
            r.auto_calibration,
            r.hall_filter == 1,
            r.max_brightness == 50,
            r.led_color == (RGB { r: 255u8, g: 255u8, b: 255u8 }),
    {
        let record = cbor::Device::default();
        let r = Device::try_from(&record).unwrap();
        assert forall|i: int| 0 <= i < 64 implies (#[trigger] r.keys@[i]) == key_config(
            cbor::default_key(),
        ) by {
            assert(r.keys@[i] == key_config(record.KeyConfigs@[i]));
        }
        r
    }
}

} // verus!
