use meowpad::device_preset::{
    gen_preset_kb, load_preset_kb, DevicePreset, DevicePresetConfig, DevicePresetInfo, KeyConfig,
    KeyLayer,
};
use meowpad::hid_iap::iap::check_firmware;
use meowpad::keycode::{KeyCode, KeyValue};
use meowpad::meowboard::config;
use meowpad::signs::{sign_of, sign_of_texts};
use meowpad::utils::compare_version;
use meowpad::version::parse_version;
use std::cmp::Ordering;

#[test]
fn firmware_has_its_mark_at_offset_fifty_two() {
    let mut image = vec![0u8; 513];
    assert!(!check_firmware(&image));
    image[52] = 0x73;
    image[54] = 0x10;
    assert!(check_firmware(&image));
    // exactly 512 bytes are too few
    assert!(!check_firmware(&image[..512]));
    image[53] = 1;
    assert!(!check_firmware(&image));
    image[53] = 0;
    image[55] = 1;
    assert!(!check_firmware(&image));
    assert!(!check_firmware(&[]));
}

#[test]
fn versions_compare_number_by_number() {
    assert_eq!(compare_version("1.2.3", "1.2.3"), Ordering::Equal);
    assert_eq!(compare_version("1.2.3", "1.2.4"), Ordering::Less);
    assert_eq!(compare_version("1.10", "1.9"), Ordering::Greater);
    assert_eq!(compare_version("2", "10"), Ordering::Less);
    // a missing number counts as zero
    assert_eq!(compare_version("1.0", "1"), Ordering::Equal);
    assert_eq!(compare_version("1.0.1", "1"), Ordering::Greater);
    assert_eq!(compare_version("1", "1.0.0.1"), Ordering::Less);
    assert_eq!(compare_version("0001.2", "1.02"), Ordering::Equal);
}

#[test]
fn a_text_that_is_no_version_compares_equal() {
    for bad in ["", ".", "1.", ".1", "1..2", "1.2a", "v1.2", "1 .2", "-1", "1.2\n"] {
        assert_eq!(compare_version(bad, "9.9"), Ordering::Equal, "{:?}", bad);
        assert_eq!(compare_version("0.1", bad), Ordering::Equal, "{:?}", bad);
        assert_eq!(parse_version(bad.as_bytes()), None, "{:?}", bad);
    }
    // a number beyond 64 bits
    assert_eq!(parse_version(b"18446744073709551615"), Some(vec![u64::MAX]));
    assert_eq!(parse_version(b"18446744073709551616"), None);
    assert_eq!(compare_version("18446744073709551616", "1"), Ordering::Equal);
    assert_eq!(parse_version(b"1.22.333"), Some(vec![1, 22, 333]));
    assert_eq!(sign_of(&vec![1, 2], &vec![1, 2, 0]), 0);
    assert_eq!(sign_of(&vec![1, 3], &vec![1, 2, 9]), 1);
    assert_eq!(sign_of_texts(b"1.2", b"1.3"), -1);
}

fn preset_with(layers: Option<Vec<KeyLayer>>, keys: Option<Vec<KeyConfig>>) -> DevicePreset {
    DevicePreset::new(
        String::from("id-1"),
        "mine",
        DevicePresetInfo::from("Pure64"),
        DevicePresetConfig { key_layers: layers, key_configs: keys },
    )
}

#[test]
fn a_preset_replaces_what_it_holds_for_all_keys() {
    let base = config::Device::default();
    let settings = KeyConfig {
        press_percentage: 300,
        release_percentage: 7,
        dead_zone: 9,
        release_dead_zone: 2,
        rt_enabled: None,
    };
    let layer = KeyLayer { keys: vec![KeyValue::Mouse(1); 64] };
    let preset = preset_with(
        Some(vec![KeyLayer { keys: vec![KeyValue::Custom(3); 10] }, layer.clone(), layer.clone()]),
        Some(vec![settings; 64]),
    );
    let after = load_preset_kb(base, &preset);
    // the first layer of the preset is too short and is passed over
    assert_eq!(after.normal_layer, base.normal_layer);
    assert_eq!(after.fn_layer, [KeyValue::Mouse(1); 64]);
    assert_eq!(
        after.keys[63],
        config::KeyConfig {
            press_percentage: 44,
            release_percentage: 7,
            dead_zone: 9,
            release_dead_zone: 2,
            rt_enabled: true,
        }
    );
    assert_eq!(after.led_color, base.led_color);
    assert_eq!(after.jitters_elimination_time, base.jitters_elimination_time);
    // settings for fewer keys are passed over, and so is a preset without anything
    let preset = preset_with(None, Some(vec![settings; 63]));
    assert_eq!(load_preset_kb(base, &preset), base);
    assert_eq!(load_preset_kb(base, &preset_with(None, None)), base);
    let preset = preset_with(Some(vec![layer]), None);
    let after = load_preset_kb(base, &preset);
    assert_eq!(after.normal_layer, [KeyValue::Mouse(1); 64]);
    assert_eq!(after.fn_layer, base.fn_layer);
}

#[test]
fn a_generated_preset_brings_a_configuration_back() {
    let mut cfg = config::Device::default();
    cfg.keys[3].press_percentage = 77;
    cfg.keys[3].rt_enabled = false;
    cfg.normal_layer[2] = KeyValue::Keyboard(KeyCode::F24);
    let preset = gen_preset_kb(String::from("0000"), "travel", &cfg);
    assert_eq!(preset.id, "0000");
    assert_eq!(preset.name, "travel");
    assert_eq!(preset.device, DevicePresetInfo::new(String::from("Pure64"), None));
    let layers = preset.config.key_layers.clone().unwrap();
    assert_eq!(layers.len(), 2);
    assert_eq!(layers[0].keys[2], KeyValue::Keyboard(KeyCode::F24));
    let keys = preset.config.key_configs.clone().unwrap();
    assert_eq!(keys.len(), 64);
    assert_eq!(keys[3], KeyConfig::from(cfg.keys[3]));
    assert_eq!(keys[3].press_percentage, 77);
    assert_eq!(keys[3].rt_enabled, Some(false));
    assert_eq!(keys[3].into(), cfg.keys[3]);
    assert_eq!(load_preset_kb(config::Device::default(), &preset), cfg);
}
