//! The configuration records of the three-key keypad as the device stores them.

use crate::color::pack_argb;
use crate::kbreport::{bytes_of_key, bytes_of_keys, write_key, write_keys};
use crate::keycode::KeyCode;
use crate::meowpad3k::config;
use crate::rgb::RGB;
use vstd::prelude::*;

verus! {

/// The trigger settings and the keys of one key of the keypad in the record.
#[allow(non_snake_case)]
#[derive(Debug, Copy, Clone, PartialEq, Eq)]
pub struct KeyRTConfig {
    pub PressPercentage: u8,
    pub ReleasePercentage: u8,
    pub DeadZone: u8,
    pub KeyData: [u8; 6],
}

/// The key record of a keypad.
#[allow(non_snake_case)]
#[derive(Debug, Copy, Clone, PartialEq, Eq)]
pub struct Keyboard {
    pub KeyConfigs: [KeyRTConfig; 3],
    pub SideBtnKeyData: [u8; 6],
    pub JittersEliminationTime: u16,
    pub ContinuousReport: bool,
    pub KalmanFilter: bool,
}

/// The light record of a keypad. Colours are packed as `0xAARRGGBB`,
/// modes are the numbers of [`config::LightingMode`].
#[derive(Debug, Copy, Clone, PartialEq, Eq)]
pub struct Light {
    pub led_colors: [u32; 3],
    pub led_mode: u8,
    pub max_brightness: u8,
    pub sleep_time: u16,
}

/// `record` holds the settings `cfg` of one key.
pub open spec fn records_key(cfg: config::KeyConfig, record: KeyRTConfig) -> bool {
    &&& record.PressPercentage == cfg.press_percentage
    &&& record.ReleasePercentage == cfg.release_percentage
    &&& record.DeadZone == cfg.dead_zone
    &&& record.KeyData@ == bytes_of_keys(cfg.key_data@)
}

/// `record` holds the key configuration `cfg`.
pub open spec fn records_keys(cfg: config::Key, record: Keyboard) -> bool {
    &&& forall|i: int|
        0 <= i < 3 ==> records_key(#[trigger] cfg.keys@[i], record.KeyConfigs@[i])
    &&& record.SideBtnKeyData@ == bytes_of_keys(cfg.side_btn@)
    &&& record.JittersEliminationTime == cfg.jitters_elimination_time
    &&& record.ContinuousReport == cfg.continuous_report
    &&& record.KalmanFilter == cfg.kalman_filter
}

/// `record` holds the light configuration `cfg`.
pub open spec fn records_light(cfg: config::Light, record: Light) -> bool {
    &&& forall|i: int|
        0 <= i < 3 ==> (#[trigger] record.led_colors@[i]) as int == crate::color::argb(
            0xFF,
            cfg.led_colors@[i],
        )
    &&& record.led_mode == cfg.lighting_mode.number()
    &&& record.max_brightness == cfg.max_brightness
    &&& record.sleep_time == cfg.sleep_time
}

/// The settings that a key has before it is configured, without its keys.
pub open spec fn default_key(record: KeyRTConfig) -> bool {
    &&& record.PressPercentage == 10
    &&& record.ReleasePercentage == 10
    &&& record.DeadZone == 20
}

impl Default for KeyRTConfig {
    fn default() -> (r: KeyRTConfig)
        ensures
            default_key(r),
            r.KeyData@ == Seq::new(6, |i: int| 0u8),
    {
        let r = KeyRTConfig {
            PressPercentage: 10,
            ReleasePercentage: 10,
            DeadZone: 20,
            KeyData: [0u8;6],
        };
        assert(r.KeyData@ =~= Seq::new(6, |i: int| 0u8));
        r
    }
}

impl KeyRTConfig {
    /// The settings of an unconfigured key that sends `key`.
    pub fn with_key(key: KeyCode) -> (r: KeyRTConfig)
        ensures
            default_key(r),
            r.KeyData@ == bytes_of_key(key),
    {
        KeyRTConfig {
            PressPercentage: 10,
            ReleasePercentage: 10,
            DeadZone: 20,
            KeyData: write_key(key),
        }
    }

    /// The settings of a key as the record holds them.
    pub fn from(cfg: &config::KeyConfig) -> (r: KeyRTConfig)
        ensures
            records_key(*cfg, r),
    {
        KeyRTConfig {
            PressPercentage: cfg.press_percentage,
            ReleasePercentage: cfg.release_percentage,
            DeadZone: cfg.dead_zone,
            KeyData: write_keys(&cfg.key_data),
        }
    }
}

impl Keyboard {
    /// The record that holds a key configuration.
    pub fn from(cfg: &config::Key) -> (r: Keyboard)
        ensures
            records_keys(*cfg, r),
    {
        let mut key_configs = [KeyRTConfig::default();3];
        let mut i: usize = 0;
        while i < 3
            invariant
                i <= 3,
                forall|j: int| 0 <= j < i ==> records_key(cfg.keys@[j], key_configs@[j]),
            decreases 3 - i,
        {
            key_configs[i] = KeyRTConfig::from(&cfg.keys[i]);
            i += 1;
        }
        Keyboard {
            KeyConfigs: key_configs,
            SideBtnKeyData: write_keys(&cfg.side_btn),
            JittersEliminationTime: cfg.jitters_elimination_time,
            ContinuousReport: cfg.continuous_report,
            KalmanFilter: cfg.kalman_filter,
        }
    }
}

impl Default for Keyboard {
    fn default() -> (r: Keyboard)
        ensures
            default_key(r.KeyConfigs@[0]) && r.KeyConfigs@[0].KeyData@ == bytes_of_key(KeyCode::Z),
            default_key(r.KeyConfigs@[1]) && r.KeyConfigs@[1].KeyData@ == bytes_of_key(KeyCode::X),
            default_key(r.KeyConfigs@[2]) && r.KeyConfigs@[2].KeyData@ == bytes_of_key(KeyCode::C),
            r.SideBtnKeyData@ == bytes_of_key(KeyCode::Escape),
            r.JittersEliminationTime == 15,
            !r.ContinuousReport,
            r.KalmanFilter,
    {
        Keyboard {
            KeyConfigs: [
                KeyRTConfig::with_key(KeyCode::Z),
                KeyRTConfig::with_key(KeyCode::X),
                KeyRTConfig::with_key(KeyCode::C),
            ],
            SideBtnKeyData: write_key(KeyCode::Escape),
            JittersEliminationTime: 15,
            ContinuousReport: false,
            KalmanFilter: true,
        }
    }
}

impl Light {
    /// The record that holds a light configuration.
    pub fn from(cfg: &config::Light) -> (r: Light)
        ensures
            records_light(*cfg, r),
    {
        let mut led_colors = [0u32;3];
        let mut i: usize = 0;
        while i < 3
            invariant
                i <= 3,
                forall|j: int|
                    0 <= j < i ==> led_colors@[j] as int == crate::color::argb(
                        0xFF,
                        cfg.led_colors@[j],
                    ),
            decreases 3 - i,
        {
            led_colors[i] = pack_argb(cfg.led_colors[i]);
            i += 1;
        }
        Light {
            led_colors,
            led_mode: cfg.lighting_mode.to_u8(),
            max_brightness: cfg.max_brightness,
            sleep_time: cfg.sleep_time,
        }
    }
}

impl Default for Light {
    fn default() -> (r: Light)
        ensures
            forall|i: int|
                0 <= i < 3 ==> (#[trigger] r.led_colors@[i]) as int == crate::color::argb(
                    0xFF,
                    RGB { r: 255, g: 255, b: 255 },
                ),
            r.led_mode == config::LightingMode::Solid.number(),
            r.max_brightness == 50,
            r.sleep_time == 120,
    {
        let white = pack_argb(RGB::new(255, 255, 255));
        Light {
            led_colors: [white;3],
            led_mode: config::LightingMode::Solid.to_u8(),
            max_brightness: 50,
            sleep_time: 120,
        }
    }
}

} // verus!
