//! The configuration records of the four-key keypad as the device stores them.

use crate::color::pack_rgb;
use crate::kbreport::{bytes_of_key, bytes_of_keys, write_key, write_keys};
use crate::keycode::KeyCode;
use crate::meowpad4k::config;
use crate::rgb::RGB;
use vstd::prelude::*;

verus! {

/// The trigger settings and the keys of one key of the keypad in the record.
#[allow(non_snake_case)]
#[derive(Debug, Copy, Clone, PartialEq, Eq)]
pub struct KeyRTConfig {
    pub PressPercentage: u8,
    pub ReleasePercentage: u8,
    pub DeadZone: u8,
    pub KeyData: [u8; 6],
}

/// The key record of a keypad.
#[allow(non_snake_case)]
#[derive(Debug, Copy, Clone, PartialEq, Eq)]
pub struct Keyboard {
    pub KeyConfigs: [KeyRTConfig; 4],
    pub JittersEliminationTime: u16,
    pub ContinuousReport: bool,
    pub KalmanFilter: bool,
    pub EnableHS: bool,
}

/// The light record of a keypad. Colours are packed as `0xAARRGGBB`,
/// modes are the numbers of [`config::LightingMode`].
#[derive(Debug, Copy, Clone, PartialEq, Eq)]
pub struct Light {
    pub led_colors: [u32; 4],
    pub led_mode: u8,
    pub led_mode_sleep: u8,
    pub max_brightness: u8,
    pub sleep_time: u16,
    pub rainbow_flow_speed: u16,
    pub color_change_rate: u8,
    pub is_flow_delay: bool,
    pub rainbow_speed: u16,
    pub breathing_speed: u16,
    pub max_keep_time: u16,
    pub min_keep_time: u16,
    pub breaths_before_color_switch: u8,
    pub rain_drop_speed: u16,
    pub random_rain_chance: u16,
    pub tap_to_glow_speed: u16,
    pub max_lum_freeze_time: u8,
    pub change_color_when_pressed: bool,
    pub random_color_mode: bool,
    pub speed_light_mode_speed: u16,
    pub attenuation_speed: u16,
    pub increase_difficulty: u8,
    pub low_speed_color: u32,
    pub high_speed_color: u32,
}

/// `record` holds the settings `cfg` of one key.
pub open spec fn records_key(cfg: config::KeyConfig, record: KeyRTConfig) -> bool {
    &&& record.PressPercentage == cfg.press_percentage
    &&& record.ReleasePercentage == cfg.release_percentage
    &&& record.DeadZone == cfg.dead_zone
    &&& record.KeyData@ == bytes_of_keys(cfg.key_data@)
}

/// `record` holds the key configuration `cfg`.
pub open spec fn records_keys(cfg: config::Key, record: Keyboard) -> bool {
    &&& forall|i: int|
        0 <= i < 4 ==> records_key(#[trigger] cfg.keys@[i], record.KeyConfigs@[i])
    &&& record.JittersEliminationTime == cfg.jitters_elimination_time
    &&& record.ContinuousReport == cfg.continuous_report
    &&& record.KalmanFilter == cfg.kalman_filter
    &&& record.EnableHS == cfg.enable_hs
}

/// `record` holds the light configuration `cfg`.
pub open spec fn records_light(cfg: config::Light, record: Light) -> bool {
    &&& forall|i: int|
        0 <= i < 4 ==> (#[trigger] record.led_colors@[i]) as int == crate::color::argb(
            0,
            cfg.led_colors@[i],
        )
    &&& record.led_mode == cfg.lighting_mode.number()
    &&& record.led_mode_sleep == cfg.lighting_mode_sleep.number()
    &&& record.max_brightness == cfg.max_brightness
    &&& record.sleep_time == cfg.sleep_time
    &&& record.rainbow_flow_speed == cfg.rainbow_flow_speed
    &&& record.color_change_rate == cfg.color_change_rate
    &&& record.is_flow_delay == cfg.is_flow_delay
    &&& record.rainbow_speed == cfg.rainbow_speed
    &&& record.breathing_speed == cfg.breathing_speed
    &&& record.max_keep_time == cfg.max_keep_time
    &&& record.min_keep_time == cfg.min_keep_time
    &&& record.breaths_before_color_switch == cfg.breaths_before_color_switch
    &&& record.rain_drop_speed == cfg.rain_drop_speed
    &&& record.random_rain_chance == cfg.random_rain_chance
    &&& record.tap_to_glow_speed == cfg.tap_to_glow_speed
    &&& record.max_lum_freeze_time == cfg.max_lum_freeze_time
    &&& record.change_color_when_pressed == cfg.change_color_when_pressed
    &&& record.random_color_mode == cfg.random_color_mode
    &&& record.speed_light_mode_speed == cfg.speed_light_mode_speed
    &&& record.attenuation_speed == cfg.attenuation_speed
    &&& record.increase_difficulty == cfg.increase_difficulty
    &&& record.low_speed_color as int == crate::color::argb(0, cfg.low_speed_color)
    &&& record.high_speed_color as int == crate::color::argb(0, cfg.high_speed_color)
}

/// The settings that a key has before it is configured, without its keys.
pub open spec fn default_key(record: KeyRTConfig) -> bool {
    &&& record.PressPercentage == 8
    &&& record.ReleasePercentage == 8
    &&& record.DeadZone == 15
}

impl Default for KeyRTConfig {
    fn default() -> (r: KeyRTConfig)
        ensures
            default_key(r),
            r.KeyData@ == Seq::new(6, |i: int| 0u8),
    {
        let r = KeyRTConfig {
            PressPercentage: 8,
            ReleasePercentage: 8,
            DeadZone: 15,
            KeyData: [0u8;6],
        };
        assert(r.KeyData@ =~= Seq::new(6, |i: int| 0u8));
        r
    }
}

impl KeyRTConfig {
    /// The settings of an unconfigured key that sends `key`.
    pub fn with_key(key: KeyCode) -> (r: KeyRTConfig)
        ensures
            default_key(r),
            r.KeyData@ == bytes_of_key(key),
    {
        KeyRTConfig {
            PressPercentage: 8,
            ReleasePercentage: 8,
            DeadZone: 15,
            KeyData: write_key(key),
        }
    }

    /// The settings of a key as the record holds them.
    pub fn from(cfg: &config::KeyConfig) -> (r: KeyRTConfig)
        ensures
            records_key(*cfg, r),
    {
        KeyRTConfig {
            PressPercentage: cfg.press_percentage,
            ReleasePercentage: cfg.release_percentage,
            DeadZone: cfg.dead_zone,
            KeyData: write_keys(&cfg.key_data),
        }
    }
}

impl Keyboard {
    /// The record that holds a key configuration.
    pub fn from(cfg: &config::Key) -> (r: Keyboard)
        ensures
            records_keys(*cfg, r),
    {
        let mut key_configs = [KeyRTConfig::default();4];
        let mut i: usize = 0;
        while i < 4
            invariant
                i <= 4,
                forall|j: int| 0 <= j < i ==> records_key(cfg.keys@[j], key_configs@[j]),
            decreases 4 - i,
        {
            key_configs[i] = KeyRTConfig::from(&cfg.keys[i]);
            i += 1;
        }
        Keyboard {
            KeyConfigs: key_configs,
            JittersEliminationTime: cfg.jitters_elimination_time,
            ContinuousReport: cfg.continuous_report,
            KalmanFilter: cfg.kalman_filter,
            EnableHS: cfg.enable_hs,
        }
    }
}

impl Default for Keyboard {
    fn default() -> (r: Keyboard)
        ensures
            default_key(r.KeyConfigs@[0]) && r.KeyConfigs@[0].KeyData@ == bytes_of_key(KeyCode::Z),
            default_key(r.KeyConfigs@[1]) && r.KeyConfigs@[1].KeyData@ == bytes_of_key(KeyCode::X),
            default_key(r.KeyConfigs@[2]) && r.KeyConfigs@[2].KeyData@ == bytes_of_key(KeyCode::C),
            default_key(r.KeyConfigs@[3]) && r.KeyConfigs@[3].KeyData@ == bytes_of_key(KeyCode::V),
            r.JittersEliminationTime == 120,
            !r.ContinuousReport,
            r.KalmanFilter,
            r.EnableHS,
    {
        Keyboard {
            KeyConfigs: [
                KeyRTConfig::with_key(KeyCode::Z),
                KeyRTConfig::with_key(KeyCode::X),
                KeyRTConfig::with_key(KeyCode::C),
                KeyRTConfig::with_key(KeyCode::V),
            ],
            JittersEliminationTime: 120,
            ContinuousReport: false,
            KalmanFilter: true,
            EnableHS: true,
        }
    }
}

impl Light {
    /// The record that holds a light configuration.
    pub fn from(cfg: &config::Light) -> (r: Light)
        ensures
            records_light(*cfg, r),
    {
        let mut led_colors = [0u32;4];
        let mut i: usize = 0;
        while i < 4
            invariant
                i <= 4,
                forall|j: int|
                    0 <= j < i ==> led_colors@[j] as int == crate::color::argb(
                        0,
                        cfg.led_colors@[j],
                    ),
            decreases 4 - i,
        {
            led_colors[i] = pack_rgb(cfg.led_colors[i]);
            i += 1;
        }
        Light {
            led_colors,
            led_mode: cfg.lighting_mode.to_u8(),
            led_mode_sleep: cfg.lighting_mode_sleep.to_u8(),
            max_brightness: cfg.max_brightness,
            sleep_time: cfg.sleep_time,
            rainbow_flow_speed: cfg.rainbow_flow_speed,
            color_change_rate: cfg.color_change_rate,
            is_flow_delay: cfg.is_flow_delay,
            rainbow_speed: cfg.rainbow_speed,
            breathing_speed: cfg.breathing_speed,
            max_keep_time: cfg.max_keep_time,
            min_keep_time: cfg.min_keep_time,
            breaths_before_color_switch: cfg.breaths_before_color_switch,
            rain_drop_speed: cfg.rain_drop_speed,
            random_rain_chance: cfg.random_rain_chance,
            tap_to_glow_speed: cfg.tap_to_glow_speed,
            max_lum_freeze_time: cfg.max_lum_freeze_time,
            change_color_when_pressed: cfg.change_color_when_pressed,
            random_color_mode: cfg.random_color_mode,
            speed_light_mode_speed: cfg.speed_light_mode_speed,
            attenuation_speed: cfg.attenuation_speed,
            increase_difficulty: cfg.increase_difficulty,
            low_speed_color: pack_rgb(cfg.low_speed_color),
            high_speed_color: pack_rgb(cfg.high_speed_color),
        }
    }
}

impl Default for Light {
    fn default() -> (r: Light)
        ensures
            forall|i: int|
                0 <= i < 4 ==> (#[trigger] r.led_colors@[i]) as int == crate::color::argb(
                    0,
                    RGB { r: 255, g: 255, b: 255 },
                ),
            r.led_mode == config::LightingMode::BreatheGlowMode.number(),
            r.led_mode_sleep == config::LightingMode::Off.number(),
            r.max_brightness == 50,
            r.sleep_time == 120,
            r.rainbow_flow_speed == 100,
            r.color_change_rate == 1,
            r.is_flow_delay,
            r.rainbow_speed == 2,
            r.breathing_speed == 8,
            r.max_keep_time == 500,
            r.min_keep_time == 0,
            r.breaths_before_color_switch == 3,
            r.rain_drop_speed == 2,
            r.random_rain_chance == 400,
            r.tap_to_glow_speed == 10,
            r.max_lum_freeze_time == 50,
            r.change_color_when_pressed,
            !r.random_color_mode,
            r.speed_light_mode_speed == 2,
            r.attenuation_speed == 80,
            r.increase_difficulty == 24,
            r.low_speed_color as int == crate::color::argb(0, RGB { r: 255, g: 255, b: 255 }),
            r.high_speed_color as int == crate::color::argb(0, RGB { r: 255, g: 0, b: 0 }),
    {
        let white = pack_rgb(RGB::new(255, 255, 255));
        Light {
            led_colors: [white;4],
            led_mode: config::LightingMode::BreatheGlowMode.to_u8(),
            led_mode_sleep: config::LightingMode::Off.to_u8(),
            max_brightness: 50,
            sleep_time: 120,
            rainbow_flow_speed: 100,
            color_change_rate: 1,
            is_flow_delay: true,
            rainbow_speed: 2,
            breathing_speed: 8,
            max_keep_time: 500,
            min_keep_time: 0,
            breaths_before_color_switch: 3,
            rain_drop_speed: 2,
            random_rain_chance: 400,
            tap_to_glow_speed: 10,
            max_lum_freeze_time: 50,
            change_color_when_pressed: true,
            random_color_mode: false,
            speed_light_mode_speed: 2,
            attenuation_speed: 80,
            increase_difficulty: 24,
            low_speed_color: pack_rgb(RGB::new(255, 255, 255)),
            high_speed_color: pack_rgb(RGB::new(255, 0, 0)),
        }
    }
}

} // verus!
