//! The configuration record of the keyboard as the device stores it.

use crate::color::pack_argb;
use crate::meowboard::config;
use crate::meowboard::keymap::{bytes_of, default_bytes, KeyMap};
use crate::rgb::RGB;
use vstd::prelude::*;

verus! {

/// The trigger settings of one key in the record.
#[allow(non_snake_case)]
#[derive(Debug, Copy, Clone, PartialEq, Eq, Structural)]
pub struct KeyRTConfig {
    pub PressPercentage: u8,
    pub ReleasePercentage: u8,
    pub DeadZone: u8,
    pub ReleaseDeadZone: u8,
    pub RtEnabled: bool,
}

/// The record of a keyboard: 64 keys, the key map, and the global settings.
#[allow(non_snake_case)]
#[derive(Debug, Copy, Clone, PartialEq, Eq)]
pub struct Device {
    pub KeyConfigs: [KeyRTConfig; 64],
    pub KeyMap: [u8; 256],
    pub JittersEliminationTime: u16,
    pub HighReportRate: bool,
    pub KeyProof: bool,
    pub AutoCalibration: bool,
    pub HallFilter: u8,
    pub MaxBrightness: u8,
    pub led_color: u32,
}

/// The trigger settings of a key in the record.
pub open spec fn key_record(cfg: config::KeyConfig) -> KeyRTConfig {
    KeyRTConfig {
        PressPercentage: cfg.press_percentage,
        ReleasePercentage: cfg.release_percentage,
        DeadZone: cfg.dead_zone,
        ReleaseDeadZone: cfg.release_dead_zone,
        RtEnabled: cfg.rt_enabled,
    }
}

/// The trigger settings that a key has before it is configured.
pub open spec fn default_key() -> KeyRTConfig {
    KeyRTConfig {
        PressPercentage: 16,
        ReleasePercentage: 16,
        DeadZone: 30,
        ReleaseDeadZone: 0,
        RtEnabled: true,
    }
}

/// `record` holds the configuration `cfg`: the same settings for every
/// key, the layers as a key map, the colour packed as opaque, and the
/// global settings as they are.
pub open spec fn records(cfg: config::Device, record: Device) -> bool {
    &&& forall|i: int| 0 <= i < 64 ==> record.KeyConfigs@[i] == key_record(#[trigger] cfg.keys@[i])
    &&& record.KeyMap@ == bytes_of(cfg.normal_layer@, cfg.fn_layer@)
    &&& record.JittersEliminationTime == cfg.jitters_elimination_time
    &&& record.HighReportRate == cfg.high_reportrate
    &&& record.KeyProof == cfg.key_proof
    &&& record.AutoCalibration == cfg.auto_calibration
    &&& record.HallFilter == cfg.hall_filter
    &&& record.MaxBrightness == cfg.max_brightness
    &&& record.led_color as int == crate::color::argb(0xFF, cfg.led_color)
}

impl KeyRTConfig {
    /// The trigger settings of a key as the record holds them.
    pub fn from(cfg: config::KeyConfig) -> (r: KeyRTConfig)
        ensures
            r == key_record(cfg),
    {
        KeyRTConfig {
            PressPercentage: cfg.press_percentage,
            ReleasePercentage: cfg.release_percentage,
            DeadZone: cfg.dead_zone,
            ReleaseDeadZone: cfg.release_dead_zone,
            RtEnabled: cfg.rt_enabled,
        }
    }
}

impl Default for KeyRTConfig {
    fn default() -> (r: KeyRTConfig)
        ensures
            r == default_key(),
    {
        KeyRTConfig {
            PressPercentage: 16,
            ReleasePercentage: 16,
            DeadZone: 30,
            ReleaseDeadZone: 0,
            RtEnabled: true,
        }
    }
}

impl Device {
    /// The record that holds a configuration.
    pub fn from(cfg: &config::Device) -> (r: Device)
        ensures
            records(*cfg, r),
    {
        let mut key_configs = [KeyRTConfig::default();64];
        let mut i: usize = 0;
        while i < 64
            invariant
                i <= 64,
                forall|j: int| 0 <= j < i ==> key_configs@[j] == key_record(cfg.keys@[j]),
            decreases 64 - i,
        {
            key_configs[i] = KeyRTConfig::from(cfg.keys[i]);
            i += 1;
        }
        let layers = [cfg.normal_layer, cfg.fn_layer];
        let map = KeyMap::from_layers(&layers).to_bytes();
        Device {
            KeyConfigs: key_configs,
            KeyMap: map,
            HighReportRate: cfg.high_reportrate,
            KeyProof: cfg.key_proof,
            AutoCalibration: cfg.auto_calibration,
            JittersEliminationTime: cfg.jitters_elimination_time,
            HallFilter: cfg.hall_filter,
            MaxBrightness: cfg.max_brightness,
            led_color: pack_argb(cfg.led_color),
        }
    }
}

impl Default for Device {
    fn default() -> (r: Device)
        ensures
            forall|i: int| 0 <= i < 64 ==> (#[trigger] r.KeyConfigs@[i]) == default_key(),
            r.KeyMap@ == default_bytes(),
            r.JittersEliminationTime == 120,
            r.HighReportRate,
            r.KeyProof,
            r.AutoCalibration,
            r.HallFilter == 1,
            r.MaxBrightness == 50,
            r.led_color == 0xFFFF_FFFF,
    {
        Device {
            KeyConfigs: [KeyRTConfig::default();64],
            KeyMap: KeyMap::default().to_bytes(),
            HighReportRate: true,
            KeyProof: true,
            AutoCalibration: true,
            JittersEliminationTime: 15 * 8,
            HallFilter: 1,
            MaxBrightness: 50,
            led_color: pack_argb(RGB::new(255, 255, 255)),
        }
    }
}

} // verus!
