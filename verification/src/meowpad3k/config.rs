//! The configurations of the three-key keypad as the caller sees them.

use crate::color::{blue_of, green_of, red_of, unpack_argb};
use crate::error::Error;
use crate::kbreport::{keys_of_bytes, read_keys};
use crate::keycode::KeyCode;
use crate::meowpad3k::cbor;
use crate::rgb::RGB;
use vstd::prelude::*;

verus! {

/// How the lights behave.
#[derive(Copy, Clone, Debug, Eq, PartialEq, Structural)]
pub enum LightingMode {
    Off,
    Calibration,
    Error,
    Solid,
}

impl LightingMode {
    /// The number that stands for the mode in a record.
    pub open spec fn number(self) -> u8 {
        match self {
            LightingMode::Off => 0,
            LightingMode::Calibration => 1,
            LightingMode::Error => 2,
            LightingMode::Solid => 3,
        }
    }

    /// The mode that a number stands for, if any.
    pub open spec fn of_number(n: u8) -> Option<LightingMode> {
        if n == 0 {
            Some(LightingMode::Off)
        } else if n == 1 {
            Some(LightingMode::Calibration)
        } else if n == 2 {
            Some(LightingMode::Error)
        } else if n == 3 {
            Some(LightingMode::Solid)
        } else {
            None
        }
    }

    pub fn to_u8(self) -> (r: u8)
        ensures
            r == self.number(),
    {
        match self {
            LightingMode::Off => 0,
            LightingMode::Calibration => 1,
            LightingMode::Error => 2,
            LightingMode::Solid => 3,
        }
    }

    pub fn from_u8(n: u8) -> (r: Option<LightingMode>)
        ensures
            r == LightingMode::of_number(n),
    {
        match n {
            0 => Some(LightingMode::Off),
            1 => Some(LightingMode::Calibration),
            2 => Some(LightingMode::Error),
            3 => Some(LightingMode::Solid),
            _ => None,
        }
    }
}

/// The trigger settings and the keys of one key of the keypad.
#[derive(Clone, Debug, Copy, PartialEq, Eq)]
pub struct KeyConfig {
    pub press_percentage: u8,
    pub release_percentage: u8,
    /// 0-30
    pub dead_zone: u8,
    pub key_data: [KeyCode; 6],
}

/// The key configuration of a keypad.
#[derive(Clone, Debug, Copy, PartialEq, Eq)]
pub struct Key {
    pub keys: [KeyConfig; 3],
    pub side_btn: [KeyCode; 6],
    pub jitters_elimination_time: u16,
    pub continuous_report: bool,
    pub kalman_filter: bool,
}

/// The light configuration of a keypad.
#[derive(Clone, Debug, Copy, PartialEq, Eq)]
pub struct Light {
    /// LED colours
    pub led_colors: [RGB<u8>; 3],
    pub lighting_mode: LightingMode,
    pub max_brightness: u8,
    pub sleep_time: u16,
}

/// The colour that a packed number holds.
pub open spec fn color_of(packed: u32) -> RGB<u8> {
    RGB { r: red_of(packed), g: green_of(packed), b: blue_of(packed) }
}

/// `cfg` holds the settings of one key that `record` holds.
pub open spec fn reads_key(record: cbor::KeyRTConfig, cfg: KeyConfig) -> bool {
    &&& cfg.press_percentage == record.PressPercentage
    &&& cfg.release_percentage == record.ReleasePercentage
    &&& cfg.dead_zone == record.DeadZone
    &&& cfg.key_data@ == keys_of_bytes(record.KeyData@)
}

/// `cfg` is the key configuration that `record` holds.
pub open spec fn reads_keys(record: cbor::Keyboard, cfg: Key) -> bool {
    &&& forall|i: int|
        0 <= i < 3 ==> reads_key(#[trigger] record.KeyConfigs@[i], cfg.keys@[i])
    &&& cfg.side_btn@ == keys_of_bytes(record.SideBtnKeyData@)
    &&& cfg.jitters_elimination_time == record.JittersEliminationTime
    &&& cfg.continuous_report == record.ContinuousReport
    &&& cfg.kalman_filter == record.KalmanFilter
}

/// `cfg` is the light configuration that `record` holds.
pub open spec fn reads_light(record: cbor::Light, cfg: Light) -> bool {
    &&& forall|i: int|
        0 <= i < 3 ==> cfg.led_colors@[i] == color_of(#[trigger] record.led_colors@[i])
    &&& LightingMode::of_number(record.led_mode) == Some(cfg.lighting_mode)
    &&& cfg.max_brightness == record.max_brightness
    &&& cfg.sleep_time == record.sleep_time
}

/// The first mode field of a light record whose number stands for no mode,
/// with that number; `None` if every mode field is in range.
pub open spec fn mode_fault(record: cbor::Light) -> Option<(&'static str, usize)> {
    if LightingMode::of_number(record.led_mode) is None {
        Some(("lighting_mode", record.led_mode as usize))
    } else {
        None
    }
}

/// The light record of a light configuration reads back as that configuration.
pub proof fn lemma_light_round_trip(cfg: Light, record: cbor::Light, back: Light)
    requires
        cbor::records_light(cfg, record),
        reads_light(record, back),
    ensures
        mode_fault(record) is None,
        back == cfg,
{
    assert forall|i: int| 0 <= i < 3 implies back.led_colors@[i] == cfg.led_colors@[i] by {
        crate::color::lemma_pack_round_trip(0xFF, cfg.led_colors@[i]);
        assert(back.led_colors@[i] == color_of(record.led_colors@[i]));
    }
    assert(back.led_colors@ =~= cfg.led_colors@);
    assert(back.led_colors == cfg.led_colors);
}

impl KeyConfig {
    /// The settings that a record holds for a key.
    pub fn from(cfg: &cbor::KeyRTConfig) -> (r: KeyConfig)
        ensures
            reads_key(*cfg, r),
    {
        KeyConfig {
            press_percentage: cfg.PressPercentage,
            release_percentage: cfg.ReleasePercentage,
            dead_zone: cfg.DeadZone,
            key_data: read_keys(&cfg.KeyData),
        }
    }
}

impl Default for KeyConfig {
    fn default() -> (r: KeyConfig)
        ensures
            r.press_percentage == 0,
            r.release_percentage == 0,
            r.dead_zone == 0,
            r.key_data@ == Seq::new(6, |i: int| KeyCode::No),
    {
        let r = KeyConfig {
            press_percentage: 0,
            release_percentage: 0,
            dead_zone: 0,
            key_data: [KeyCode::No;6],
        };
        assert(r.key_data@ =~= Seq::new(6, |i: int| KeyCode::No));
        r
    }
}

impl Key {
    /// The key configuration that a record holds. Every key record holds one.
    pub fn try_from(cfg: &cbor::Keyboard) -> (r: Result<Key, Error>)
        ensures
            r matches Ok(k) && reads_keys(*cfg, k),
    {
        let mut keys = [KeyConfig::default();3];
        let mut i: usize = 0;
        while i < 3
            invariant
                i <= 3,
                forall|j: int| 0 <= j < i ==> reads_key(cfg.KeyConfigs@[j], keys@[j]),
            decreases 3 - i,
        {
            keys[i] = KeyConfig::from(&cfg.KeyConfigs[i]);
            i += 1;
        }
        Ok(
            Key {
                keys,
                side_btn: read_keys(&cfg.SideBtnKeyData),
                jitters_elimination_time: cfg.JittersEliminationTime,
                continuous_report: cfg.ContinuousReport,
                kalman_filter: cfg.KalmanFilter,
            },
        )
    }
}

impl Light {
    /// The light configuration that a record holds. A record with a mode
    /// number out of range is refused with the name of the first such field
    /// and the number.
    pub fn try_from(cfg: &cbor::Light) -> (r: Result<Light, Error>)
        ensures
            match mode_fault(*cfg) {
                Some(fault) => r == Err::<Light, Error>(
                    Error::ConfigDataCheckFailed(fault.0, fault.1),
                ),
                None => r matches Ok(light) && reads_light(*cfg, light),
            },
    {
        let mut led_colors = [RGB::new(0u8, 0u8, 0u8);3];
        let mut i: usize = 0;
        while i < 3
            invariant
                i <= 3,
                forall|j: int| 0 <= j < i ==> led_colors@[j] == color_of(cfg.led_colors@[j]),
            decreases 3 - i,
        {
            led_colors[i] = unpack_argb(cfg.led_colors[i]);
            i += 1;
        }
        let lighting_mode = match LightingMode::from_u8(cfg.led_mode) {
            Some(mode) => mode,
            None => {
                return Err(Error::ConfigDataCheckFailed("lighting_mode", cfg.led_mode as usize));
            },
        };
        Ok(
            Light {
                led_colors,
                lighting_mode,
                max_brightness: cfg.max_brightness,
                sleep_time: cfg.sleep_time,
            },
        )
    }
}

} // verus!
