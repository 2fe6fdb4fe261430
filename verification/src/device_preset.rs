//! Presets: key layers and trigger settings of a keyboard, kept apart from any one device.

use crate::keycode::KeyValue;
use crate::meowboard::config;
use vstd::prelude::*;
use vstd::slice::slice_to_vec;

verus! {

/// Name under which keyboard presets are filed.
pub const PURE64: &'static str = "Pure64";

/// A named preset for a kind of device.
#[derive(Clone, Debug, PartialEq, Eq)]
pub struct DevicePreset {
    pub id: String,
    pub name: String,
    pub device: DevicePresetInfo,
    pub config: DevicePresetConfig,
}

/// The device that a preset was made for.
#[derive(Clone, Debug, PartialEq, Eq)]
pub struct DevicePresetInfo {
    pub device_name: String,
    pub serial_number: Option<String>,
}

/// What a preset sets: any of the key layers and the trigger settings.
#[derive(Clone, Debug, PartialEq, Eq)]
pub struct DevicePresetConfig {
    pub key_layers: Option<Vec<KeyLayer>>,
    pub key_configs: Option<Vec<KeyConfig>>,
}

/// What the keys of one layer do.
#[derive(Clone, Debug, PartialEq, Eq)]
pub struct KeyLayer {
    pub keys: Vec<KeyValue>,
}

/// The trigger settings of one key in a preset.
#[derive(Clone, Debug, Copy, PartialEq, Eq, Structural)]
pub struct KeyConfig {
    pub press_percentage: u32,
    pub release_percentage: u32,
    pub dead_zone: u32,
    pub release_dead_zone: u32,
    pub rt_enabled: Option<bool>,
}

/// The trigger settings of a key as a preset holds them.
pub open spec fn widened(value: config::KeyConfig) -> KeyConfig {
    KeyConfig {
        press_percentage: value.press_percentage as u32,
        release_percentage: value.release_percentage as u32,
        dead_zone: value.dead_zone as u32,
        release_dead_zone: value.release_dead_zone as u32,
        rt_enabled: Some(value.rt_enabled),
    }
}

/// The trigger settings that a preset gives a key: each number by its
/// low byte, and rapid trigger enabled unless the preset says otherwise.
pub open spec fn narrowed(value: KeyConfig) -> config::KeyConfig {
    config::KeyConfig {
        press_percentage: (value.press_percentage % 256) as u8,
        release_percentage: (value.release_percentage % 256) as u8,
        dead_zone: (value.dead_zone % 256) as u8,
        release_dead_zone: (value.release_dead_zone % 256) as u8,
        rt_enabled: match value.rt_enabled {
            Some(enabled) => enabled,
            None => true,
        },
    }
}

/// The settings of a key come back unchanged from a preset.
pub proof fn lemma_settings_round_trip(value: config::KeyConfig)
    ensures
        narrowed(widened(value)) == value,
{
}

impl KeyConfig {
    /// The trigger settings of a key as a preset holds them.
    pub fn from(value: config::KeyConfig) -> (r: KeyConfig)
        ensures
            r == widened(value),
    {
        KeyConfig {
            press_percentage: value.press_percentage as u32,
            release_percentage: value.release_percentage as u32,
            dead_zone: value.dead_zone as u32,
            release_dead_zone: value.release_dead_zone as u32,
            rt_enabled: Some(value.rt_enabled),
        }
    }

    /// The trigger settings that the preset gives a key.
    pub fn into(self) -> (r: config::KeyConfig)
        ensures
            r == narrowed(self),
    {
        config::KeyConfig {
            press_percentage: (self.press_percentage % 256) as u8,
            release_percentage: (self.release_percentage % 256) as u8,
            dead_zone: (self.dead_zone % 256) as u8,
            release_dead_zone: (self.release_dead_zone % 256) as u8,
            rt_enabled: match self.rt_enabled {
                Some(enabled) => enabled,
                None => true,
            },
        }
    }
}

impl DevicePresetInfo {
    /// The device of that name, whatever its serial number.
    pub fn from(value: &str) -> (r: DevicePresetInfo)
        ensures
            r.device_name@ == value@,
            r.serial_number is None,
    {
        DevicePresetInfo { device_name: value.to_owned(), serial_number: None }
    }

    /// The device of that name and serial number.
    pub fn new(device_name: String, serial_number: Option<String>) -> (r: DevicePresetInfo)
        ensures
            r.device_name == device_name,
            r.serial_number == serial_number,
    {
        DevicePresetInfo { device_name, serial_number }
    }
}

impl DevicePresetConfig {
    /// The preset of everything that a keyboard configuration sets: its
    /// two layers and the settings of its 64 keys.
    pub fn from(value: &config::Device) -> (r: DevicePresetConfig)
        ensures
            r.key_layers matches Some(layers) && layers@.len() == 2 && layers@[0].keys@
                == value.normal_layer@ && layers@[1].keys@ == value.fn_layer@,
            r.key_configs matches Some(keys) && keys@.len() == 64 && forall|i: int|
                0 <= i < 64 ==> keys@[i] == widened(#[trigger] value.keys@[i]),
    {
        let mut key_layers: Vec<KeyLayer> = Vec::new();
        key_layers.push(KeyLayer { keys: slice_to_vec(value.normal_layer.as_slice()) });
        key_layers.push(KeyLayer { keys: slice_to_vec(value.fn_layer.as_slice()) });
        let mut key_configs: Vec<KeyConfig> = Vec::new();
        let mut i: usize = 0;
        while i < 64
            invariant
                i <= 64,
                key_configs@.len() == i,
                forall|j: int| 0 <= j < i ==> key_configs@[j] == widened(value.keys@[j]),
            decreases 64 - i,
        {
            key_configs.push(KeyConfig::from(value.keys[i]));
            i += 1;
        }
        DevicePresetConfig { key_layers: Some(key_layers), key_configs: Some(key_configs) }
    }
}

impl DevicePreset {
    /// A preset under the given identifier, which the caller draws at random.
    pub fn new(id: String, name: &str, device: DevicePresetInfo, config: DevicePresetConfig) -> (r:
        DevicePreset)
        ensures
            r.id == id,
            r.name@ == name@,
            r.device == device,
            r.config == config,
    {
        DevicePreset { id, name: name.to_owned(), device, config }
    }
}

/// The layer `which` after a preset: the layer of the preset if it has
/// one for all 64 keys, else the layer as it was.
pub open spec fn layer_after(
    layers: Option<Vec<KeyLayer>>,
    which: int,
    before: Seq<KeyValue>,
) -> Seq<KeyValue> {
    match layers {
        Some(layers) => if which < layers@.len() && layers@[which].keys@.len() == 64 {
            layers@[which].keys@
        } else {
            before
        },
        None => before,
    }
}

/// The settings of the keys after a preset: those of the preset if it
/// has settings for all 64 keys, else the settings as they were.
pub open spec fn keys_after(keys: Option<Vec<KeyConfig>>, before: Seq<config::KeyConfig>) -> Seq<
    config::KeyConfig,
> {
    match keys {
        Some(keys) => if keys@.len() == 64 {
            Seq::new(64, |i: int| narrowed(keys@[i]))
        } else {
            before
        },
        None => before,
    }
}

/// Applies a preset to a keyboard configuration: the settings of the
/// keys and each of the two layers are replaced where the preset holds them
/// for all 64 keys; everything else stays.
pub fn load_preset_kb(config: config::Device, preset: &DevicePreset) -> (r: config::Device)
    ensures
        r.keys@ == keys_after(preset.config.key_configs, config.keys@),
        r.normal_layer@ == layer_after(preset.config.key_layers, 0, config.normal_layer@),
        r.fn_layer@ == layer_after(preset.config.key_layers, 1, config.fn_layer@),
        r.jitters_elimination_time == config.jitters_elimination_time,
        r.high_reportrate == config.high_reportrate,
        r.key_proof == config.key_proof,
        r.auto_calibration == config.auto_calibration,
        r.hall_filter == config.hall_filter,
        r.max_brightness == config.max_brightness,
        r.led_color == config.led_color,
{
    let mut config = config;
    let ghost before = config;
    match &preset.config.key_configs {
        Some(d) => {
            if d.len() == 64 {
                let mut i: usize = 0;
                while i < 64
                    invariant
                        i <= 64,
                        d@.len() == 64,
                        forall|j: int| 0 <= j < i ==> config.keys@[j] == narrowed(d@[j]),
                        config.normal_layer == before.normal_layer,
                        config.fn_layer == before.fn_layer,
                        config.jitters_elimination_time == before.jitters_elimination_time,
                        config.high_reportrate == before.high_reportrate,
                        config.key_proof == before.key_proof,
                        config.auto_calibration == before.auto_calibration,
                        config.hall_filter == before.hall_filter,
                        config.max_brightness == before.max_brightness,
                        config.led_color == before.led_color,
                    decreases 64 - i,
                {
                    config.keys[i] = d[i].into();
                    i += 1;
                }
                assert(config.keys@ =~= keys_after(preset.config.key_configs, before.keys@));
            }
        },
        None => {},
    }
    match &preset.config.key_layers {
        Some(d) => {
            if d.len() > 0 && d[0].keys.len() == 64 {
                config.normal_layer = copy_layer(&d[0].keys);
            }
            if d.len() > 1 && d[1].keys.len() == 64 {
                config.fn_layer = copy_layer(&d[1].keys);
            }
        },
        None => {},
    }
    config
}

/// The 64 entries of a layer as an array.
fn copy_layer(keys: &Vec<KeyValue>) -> (r: [KeyValue; 64])
    requires
        keys@.len() == 64,
    ensures
        r@ == keys@,
{
    let mut out = [KeyValue::Nothing;64];
    let mut j: usize = 0;
    while j < 64
        invariant
            j <= 64,
            keys@.len() == 64,
            forall|k: int| 0 <= k < j ==> out@[k] == keys@[k],
        decreases 64 - j,
    {
        out[j] = keys[j];
        j += 1;
    }
    assert(out@ =~= keys@);
    out
}

/// The preset of a keyboard configuration under the given name and identifier.
pub fn gen_preset_kb(id: String, name: &str, config: &config::Device) -> (r: DevicePreset)
    ensures
        r.id == id,
        r.name@ == name@,
        r.device.device_name@ == PURE64@,
        r.device.serial_number is None,
        r.config.key_layers matches Some(layers) && layers@.len() == 2 && layers@[0].keys@
            == config.normal_layer@ && layers@[1].keys@ == config.fn_layer@,
        r.config.key_configs matches Some(keys) && keys@.len() == 64 && forall|i: int|
            0 <= i < 64 ==> keys@[i] == widened(#[trigger] config.keys@[i]),
{
    DevicePreset::new(id, name, DevicePresetInfo::from(PURE64), DevicePresetConfig::from(config))
}

} // verus!
