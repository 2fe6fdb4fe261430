//! Values that the devices report about their keys and themselves.

use vstd::prelude::*;

verus! {

/// What a key is doing.
#[derive(Debug, Copy, Clone, PartialEq, Eq, Structural)]
pub enum KeyState {
    Pressed,
    Released,
    Calibrating,
}

impl KeyState {
    /// The state that a number stands for, if any.
    pub open spec fn of_code(code: int) -> Option<KeyState> {
        if code == 0 {
            Some(KeyState::Pressed)
        } else if code == 1 {
            Some(KeyState::Released)
        } else if code == 2 {
            Some(KeyState::Calibrating)
        } else {
            None
        }
    }

    pub fn from_u8(code: u8) -> (r: Option<KeyState>)
        ensures
            r == KeyState::of_code(code as int),
    {
        match code {
            0 => Some(KeyState::Pressed),
            1 => Some(KeyState::Released),
            2 => Some(KeyState::Calibrating),
            _ => None,
        }
    }

    pub fn from_u16(code: u16) -> (r: Option<KeyState>)
        ensures
            r == KeyState::of_code(code as int),
    {
        match code {
            0 => Some(KeyState::Pressed),
            1 => Some(KeyState::Released),
            2 => Some(KeyState::Calibrating),
            _ => None,
        }
    }
}

impl Default for KeyState {
    fn default() -> (r: KeyState)
        ensures
            r == KeyState::Pressed,
    {
        KeyState::Pressed
    }
}

/// Live readings of one key.
#[derive(Debug, Copy, Clone, PartialEq, Eq, Structural)]
pub struct KeyRTStatus {
    pub adc_value: u16,
    pub linear_value: u16,
    pub press_percentage: u8,
    pub key_state: KeyState,
}

impl Default for KeyRTStatus {
    fn default() -> (r: KeyRTStatus)
        ensures
            r == (KeyRTStatus {
                adc_value: 0,
                linear_value: 0,
                press_percentage: 0,
                key_state: KeyState::Pressed,
            }),
    {
        KeyRTStatus { adc_value: 0, linear_value: 0, press_percentage: 0, key_state: KeyState::Pressed }
    }
}

/// Calibration data of the Hall sensor of one key.
#[derive(Debug, Copy, Clone, PartialEq, Eq, Structural)]
pub struct KeyHallConfig {
    pub adc_min: u16,
    pub adc_max: u16,
    pub hall_middle: u16,
}

impl Default for KeyHallConfig {
    fn default() -> (r: KeyHallConfig)
        ensures
            r == (KeyHallConfig { adc_min: 0, adc_max: 0, hall_middle: 0 }),
    {
        KeyHallConfig { adc_min: 0, adc_max: 0, hall_middle: 0 }
    }
}

/// What a device says of its own state. `light` is `None` for a family
/// without a light configuration.
#[derive(Debug, Copy, Clone, PartialEq, Eq)]
pub struct DeviceStatus {
    pub key: bool,
    pub light: Option<bool>,
    pub hall: bool,
    pub enabled: bool,
}

impl Default for DeviceStatus {
    fn default() -> (r: DeviceStatus)
        ensures
            r == (DeviceStatus { key: false, light: None, hall: false, enabled: false }),
    {
        DeviceStatus { key: false, light: None, hall: false, enabled: false }
    }
}

} // verus!
