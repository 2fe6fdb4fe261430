//! The configurations of the four-key keypad as the caller sees them.

use crate::color::{blue_of, green_of, red_of, unpack_argb};
use crate::error::Error;
use crate::kbreport::{keys_of_bytes, read_keys};
use crate::keycode::KeyCode;
use crate::meowpad4k::cbor;
use crate::rgb::RGB;
use vstd::prelude::*;

verus! {

/// How the lights behave.
#[derive(Copy, Clone, Debug, Eq, PartialEq, Structural)]
pub enum LightingMode {
    Off,
    Calibration,
    Error,
    Solid,
    RainbowMode,
    RainbowFlowMode,
    PressRadianceMode,
    BreatheGlowMode,
    BreatheGlowAsyncMode,
    RainDropMode,
    TapToGlowMode,
    SpeedLightMode,
}

impl LightingMode {
    /// The number that stands for the mode in a record.
    pub open spec fn number(self) -> u8 {
        match self {
            LightingMode::Off => 0,
            LightingMode::Calibration => 1,
            LightingMode::Error => 2,
            LightingMode::Solid => 3,
            LightingMode::RainbowMode => 4,
            LightingMode::RainbowFlowMode => 5,
            LightingMode::PressRadianceMode => 6,
            LightingMode::BreatheGlowMode => 7,
            LightingMode::BreatheGlowAsyncMode => 8,
            LightingMode::RainDropMode => 9,
            LightingMode::TapToGlowMode => 10,
            LightingMode::SpeedLightMode => 11,
        }
    }

    /// The mode that a number stands for, if any.
    pub open spec fn of_number(n: u8) -> Option<LightingMode> {
        if n == 0 {
            Some(LightingMode::Off)
        } else if n == 1 {
            Some(LightingMode::Calibration)
        } else if n == 2 {
            Some(LightingMode::Error)
        } else if n == 3 {
            Some(LightingMode::Solid)
        } else if n == 4 {
            Some(LightingMode::RainbowMode)
        } else if n == 5 {
            Some(LightingMode::RainbowFlowMode)
        } else if n == 6 {
            Some(LightingMode::PressRadianceMode)
        } else if n == 7 {
            Some(LightingMode::BreatheGlowMode)
        } else if n == 8 {
            Some(LightingMode::BreatheGlowAsyncMode)
        } else if n == 9 {
            Some(LightingMode::RainDropMode)
        } else if n == 10 {
            Some(LightingMode::TapToGlowMode)
        } else if n == 11 {
            Some(LightingMode::SpeedLightMode)
        } else {
            None
        }
    }

    pub fn to_u8(self) -> (r: u8)
        ensures
            r == self.number(),
    {
        match self {
            LightingMode::Off => 0,
            LightingMode::Calibration => 1,
            LightingMode::Error => 2,
            LightingMode::Solid => 3,
            LightingMode::RainbowMode => 4,
            LightingMode::RainbowFlowMode => 5,
            LightingMode::PressRadianceMode => 6,
            LightingMode::BreatheGlowMode => 7,
            LightingMode::BreatheGlowAsyncMode => 8,
            LightingMode::RainDropMode => 9,
            LightingMode::TapToGlowMode => 10,
            LightingMode::SpeedLightMode => 11,
        }
    }

    pub fn from_u8(n: u8) -> (r: Option<LightingMode>)
        ensures
            r == LightingMode::of_number(n),
    {
        match n {
            0 => Some(LightingMode::Off),
            1 => Some(LightingMode::Calibration),
            2 => Some(LightingMode::Error),
            3 => Some(LightingMode::Solid),
            4 => Some(LightingMode::RainbowMode),
            5 => Some(LightingMode::RainbowFlowMode),
            6 => Some(LightingMode::PressRadianceMode),
            7 => Some(LightingMode::BreatheGlowMode),
            8 => Some(LightingMode::BreatheGlowAsyncMode),
            9 => Some(LightingMode::RainDropMode),
            10 => Some(LightingMode::TapToGlowMode),
            11 => Some(LightingMode::SpeedLightMode),
            _ => None,
        }
    }
}

/// The trigger settings and the keys of one key of the keypad.
#[derive(Clone, Debug, Copy, PartialEq, Eq)]
pub struct KeyConfig {
    pub press_percentage: u8,
    pub release_percentage: u8,
    /// 0-30
    pub dead_zone: u8,
    pub key_data: [KeyCode; 6],
}

/// The key configuration of a keypad.
#[derive(Clone, Debug, Copy, PartialEq, Eq)]
pub struct Key {
    pub keys: [KeyConfig; 4],
    pub jitters_elimination_time: u16,
    pub continuous_report: bool,
    pub kalman_filter: bool,
    pub enable_hs: bool,
}

/// The light configuration of a keypad.
#[derive(Clone, Debug, Copy, PartialEq, Eq)]
pub struct Light {
    /// LED colours
    pub led_colors: [RGB<u8>; 4],
    pub lighting_mode: LightingMode,
    pub lighting_mode_sleep: LightingMode,
    pub max_brightness: u8,
    pub sleep_time: u16,
    pub rainbow_flow_speed: u16,
    pub color_change_rate: u8,
    pub is_flow_delay: bool,
    pub rainbow_speed: u16,
    pub breathing_speed: u16,
    pub max_keep_time: u16,
    pub min_keep_time: u16,
    pub breaths_before_color_switch: u8,
    pub rain_drop_speed: u16,
    pub random_rain_chance: u16,
    pub tap_to_glow_speed: u16,
    pub max_lum_freeze_time: u8,
    pub change_color_when_pressed: bool,
    pub random_color_mode: bool,
    pub speed_light_mode_speed: u16,
    pub attenuation_speed: u16,
    pub increase_difficulty: u8,
    pub low_speed_color: RGB<u8>,
    pub high_speed_color: RGB<u8>,
}

/// The colour that a packed number holds.
pub open spec fn color_of(packed: u32) -> RGB<u8> {
    RGB { r: red_of(packed), g: green_of(packed), b: blue_of(packed) }
}

/// `cfg` holds the settings of one key that `record` holds.
pub open spec fn reads_key(record: cbor::KeyRTConfig, cfg: KeyConfig) -> bool {
    &&& cfg.press_percentage == record.PressPercentage
    &&& cfg.release_percentage == record.ReleasePercentage
    &&& cfg.dead_zone == record.DeadZone
    &&& cfg.key_data@ == keys_of_bytes(record.KeyData@)
}

/// `cfg` is the key configuration that `record` holds.
pub open spec fn reads_keys(record: cbor::Keyboard, cfg: Key) -> bool {
    &&& forall|i: int|
        0 <= i < 4 ==> reads_key(#[trigger] record.KeyConfigs@[i], cfg.keys@[i])
    &&& cfg.jitters_elimination_time == record.JittersEliminationTime
    &&& cfg.continuous_report == record.ContinuousReport
    &&& cfg.kalman_filter == record.KalmanFilter
    &&& cfg.enable_hs == record.EnableHS
}

/// `cfg` is the light configuration that `record` holds.
pub open spec fn reads_light(record: cbor::Light, cfg: Light) -> bool {
    &&& forall|i: int|
        0 <= i < 4 ==> cfg.led_colors@[i] == color_of(#[trigger] record.led_colors@[i])
    &&& LightingMode::of_number(record.led_mode) == Some(cfg.lighting_mode)
    &&& LightingMode::of_number(record.led_mode_sleep) == Some(cfg.lighting_mode_sleep)
    &&& cfg.max_brightness == record.max_brightness
    &&& cfg.sleep_time == record.sleep_time
    &&& cfg.rainbow_flow_speed == record.rainbow_flow_speed
    &&& cfg.color_change_rate == record.color_change_rate
    &&& cfg.is_flow_delay == record.is_flow_delay
    &&& cfg.rainbow_speed == record.rainbow_speed
    &&& cfg.breathing_speed == record.breathing_speed
    &&& cfg.max_keep_time == record.max_keep_time
    &&& cfg.min_keep_time == record.min_keep_time
    &&& cfg.breaths_before_color_switch == record.breaths_before_color_switch
    &&& cfg.rain_drop_speed == record.rain_drop_speed
    &&& cfg.random_rain_chance == record.random_rain_chance
    &&& cfg.tap_to_glow_speed == record.tap_to_glow_speed
    &&& cfg.max_lum_freeze_time == record.max_lum_freeze_time
    &&& cfg.change_color_when_pressed == record.change_color_when_pressed
    &&& cfg.random_color_mode == record.random_color_mode
    &&& cfg.speed_light_mode_speed == record.speed_light_mode_speed
    &&& cfg.attenuation_speed == record.attenuation_speed
    &&& cfg.increase_difficulty == record.increase_difficulty
    &&& cfg.low_speed_color == color_of(record.low_speed_color)
    &&& cfg.high_speed_color == color_of(record.high_speed_color)
}

/// The first mode field of a light record whose number stands for no mode,
/// with that number; `None` if every mode field is in range.
pub open spec fn mode_fault(record: cbor::Light) -> Option<(&'static str, usize)> {
    if LightingMode::of_number(record.led_mode) is None {
        Some(("lighting_mode", record.led_mode as usize))
    } else if LightingMode::of_number(record.led_mode_sleep) is None {
        Some(("lighting_mode_sleep", record.led_mode_sleep as usize))
    } else {
        None
    }
}

/// The light record of a light configuration reads back as that configuration.
pub proof fn lemma_light_round_trip(cfg: Light, record: cbor::Light, back: Light)
    requires
        cbor::records_light(cfg, record),
        reads_light(record, back),
    ensures
        mode_fault(record) is None,
        back == cfg,
{
    assert forall|i: int| 0 <= i < 4 implies back.led_colors@[i] == cfg.led_colors@[i] by {
        crate::color::lemma_pack_round_trip(0, cfg.led_colors@[i]);
        assert(back.led_colors@[i] == color_of(record.led_colors@[i]));
    }
    assert(back.led_colors@ =~= cfg.led_colors@);
    assert(back.led_colors == cfg.led_colors);
    crate::color::lemma_pack_round_trip(0, cfg.low_speed_color);
    crate::color::lemma_pack_round_trip(0, cfg.high_speed_color);
}

impl KeyConfig {
    /// The settings that a record holds for a key.
    pub fn from(cfg: &cbor::KeyRTConfig) -> (r: KeyConfig)
        ensures
            reads_key(*cfg, r),
    {
        KeyConfig {
            press_percentage: cfg.PressPercentage,
            release_percentage: cfg.ReleasePercentage,
            dead_zone: cfg.DeadZone,
            key_data: read_keys(&cfg.KeyData),
        }
    }
}

impl Default for KeyConfig {
    fn default() -> (r: KeyConfig)
        ensures
            r.press_percentage == 0,
            r.release_percentage == 0,
            r.dead_zone == 0,
            r.key_data@ == Seq::new(6, |i: int| KeyCode::No),
    {
        let r = KeyConfig {
            press_percentage: 0,
            release_percentage: 0,
            dead_zone: 0,
            key_data: [KeyCode::No;6],
        };
        assert(r.key_data@ =~= Seq::new(6, |i: int| KeyCode::No));
        r
    }
}

impl Key {
    /// The key configuration that a record holds. Every key record holds one.
    pub fn try_from(cfg: &cbor::Keyboard) -> (r: Result<Key, Error>)
        ensures
            r matches Ok(k) && reads_keys(*cfg, k),
    {
        let mut keys = [KeyConfig::default();4];
        let mut i: usize = 0;
        while i < 4
            invariant
                i <= 4,
                forall|j: int| 0 <= j < i ==> reads_key(cfg.KeyConfigs@[j], keys@[j]),
            decreases 4 - i,
        {
            keys[i] = KeyConfig::from(&cfg.KeyConfigs[i]);
            i += 1;
        }
        Ok(
            Key {
                keys,
                jitters_elimination_time: cfg.JittersEliminationTime,
                continuous_report: cfg.ContinuousReport,
                kalman_filter: cfg.KalmanFilter,
                enable_hs: cfg.EnableHS,
            },
        )
    }
}

impl Light {
    /// The light configuration that a record holds. A record with a mode
    /// number out of range is refused with the name of the first such field
    /// and the number.
    pub fn try_from(cfg: &cbor::Light) -> (r: Result<Light, Error>)
        ensures
            match mode_fault(*cfg) {
                Some(fault) => r == Err::<Light, Error>(
                    Error::ConfigDataCheckFailed(fault.0, fault.1),
                ),
                None => r matches Ok(light) && reads_light(*cfg, light),
            },
    {
        let mut led_colors = [RGB::new(0u8, 0u8, 0u8);4];
        let mut i: usize = 0;
        while i < 4
            invariant
                i <= 4,
                forall|j: int| 0 <= j < i ==> led_colors@[j] == color_of(cfg.led_colors@[j]),
            decreases 4 - i,
        {
            led_colors[i] = unpack_argb(cfg.led_colors[i]);
            i += 1;
        }
        let lighting_mode = match LightingMode::from_u8(cfg.led_mode) {
            Some(mode) => mode,
            None => {
                return Err(Error::ConfigDataCheckFailed("lighting_mode", cfg.led_mode as usize));
            },
        };
        let lighting_mode_sleep = match LightingMode::from_u8(cfg.led_mode_sleep) {
            Some(mode) => mode,
            None => {
                return Err(Error::ConfigDataCheckFailed("lighting_mode_sleep", cfg.led_mode_sleep as usize));
            },
        };
        Ok(
            Light {
                led_colors,
                lighting_mode,
                lighting_mode_sleep,
                max_brightness: cfg.max_brightness,
                sleep_time: cfg.sleep_time,
                rainbow_flow_speed: cfg.rainbow_flow_speed,
                color_change_rate: cfg.color_change_rate,
                is_flow_delay: cfg.is_flow_delay,
                rainbow_speed: cfg.rainbow_speed,
                breathing_speed: cfg.breathing_speed,
                max_keep_time: cfg.max_keep_time,
                min_keep_time: cfg.min_keep_time,
                breaths_before_color_switch: cfg.breaths_before_color_switch,
                rain_drop_speed: cfg.rain_drop_speed,
                random_rain_chance: cfg.random_rain_chance,
                tap_to_glow_speed: cfg.tap_to_glow_speed,
                max_lum_freeze_time: cfg.max_lum_freeze_time,
                change_color_when_pressed: cfg.change_color_when_pressed,
                random_color_mode: cfg.random_color_mode,
                speed_light_mode_speed: cfg.speed_light_mode_speed,
                attenuation_speed: cfg.attenuation_speed,
                increase_difficulty: cfg.increase_difficulty,
                low_speed_color: unpack_argb(cfg.low_speed_color),
                high_speed_color: unpack_argb(cfg.high_speed_color),
            },
        )
    }
}

} // verus!
