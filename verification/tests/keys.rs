use meowpad::error::Error;
use meowpad::kbreport::{read_keys, write_key, write_keys, KbReport};
use meowpad::keycode::{KeyCode, KeyValue};
use meowpad::meowboard::keymap::{read_value, write_value, KeyMap};
use meowpad::meowboard::{cbor, config};
use meowpad::meowpad3k::{cbor as cbor3, config as config3};
use meowpad::meowpad4k::{cbor as cbor4, config as config4};
use meowpad::rgb::RGB;

#[test]
fn kbparse() {
    let mut r = KbReport::default();
    r.pressed(KeyCode::A);
    r.pressed(KeyCode::A);
    r.pressed(KeyCode::B);
    r.pressed(KeyCode::C);
    r.pressed(KeyCode::LShift);
    r.pressed(KeyCode::LAlt);

    let r: Vec<KeyCode> = r.codes();
    println!("{:?}", &r);
    assert_eq!(r, vec![KeyCode::LShift, KeyCode::LAlt, KeyCode::A, KeyCode::B, KeyCode::C]);

    let mut r = KbReport::default();
    r.pressed(KeyCode::A);
    r.pressed(KeyCode::A);
    r.pressed(KeyCode::A);
    r.pressed(KeyCode::A);
    r.pressed(KeyCode::A);
    r.pressed(KeyCode::A);
    let r: Vec<KeyCode> = r.codes();
    println!("{:?}", &r);
    assert_eq!(r, vec![KeyCode::A]);

    let r = KbReport::default();
    let r: Vec<KeyCode> = r.codes();
    println!("{:?}", &r);
    assert_eq!(r, vec![]);
}

#[test]
fn key_codes_stand_for_their_bytes() {
    assert_eq!(KeyCode::No.to_u8(), 0x00);
    assert_eq!(KeyCode::A.to_u8(), 0x04);
    assert_eq!(KeyCode::M.to_u8(), 0x10);
    assert_eq!(KeyCode::Kb3.to_u8(), 0x20);
    assert_eq!(KeyCode::RBracket.to_u8(), 0x30);
    assert_eq!(KeyCode::F7.to_u8(), 0x40);
    assert_eq!(KeyCode::Left.to_u8(), 0x50);
    assert_eq!(KeyCode::Kp8.to_u8(), 0x60);
    assert_eq!(KeyCode::Application.to_u8(), 0x65);
    assert_eq!(KeyCode::F21.to_u8(), 0x70);
    assert_eq!(KeyCode::VolUp.to_u8(), 0x80);
    assert_eq!(KeyCode::Lang1.to_u8(), 0x90);
    assert_eq!(KeyCode::Out.to_u8(), 0xA0);
    assert_eq!(KeyCode::ExSel.to_u8(), 0xA4);
    assert_eq!(KeyCode::LCtrl.to_u8(), 0xE0);
    assert_eq!(KeyCode::RGui.to_u8(), 0xE7);
    assert_eq!(KeyCode::MediaPlayPause.to_u8(), 0xE8);
    assert_eq!(KeyCode::MediaWWW.to_u8(), 0xF0);
    assert_eq!(KeyCode::MediaCalc.to_u8(), 0xFB);
    for code in 0..=255u8 {
        let key = KeyCode::from(code);
        let known = code <= 0xA4 || (0xE0..=0xFB).contains(&code);
        if known {
            assert_eq!(key.to_u8(), code);
        } else {
            assert_eq!(key, KeyCode::No);
        }
    }
    assert_eq!(KeyCode::default(), KeyCode::No);
}

#[test]
fn modifiers_are_the_eight_keys_from_left_control() {
    assert!(KeyCode::LCtrl.is_modifier());
    assert!(KeyCode::RGui.is_modifier());
    assert!(!KeyCode::ExSel.is_modifier());
    assert!(!KeyCode::MediaPlayPause.is_modifier());
    assert_eq!(KeyCode::LCtrl.as_modifier_bit(), 0x01);
    assert_eq!(KeyCode::LShift.as_modifier_bit(), 0x02);
    assert_eq!(KeyCode::RAlt.as_modifier_bit(), 0x40);
    assert_eq!(KeyCode::RGui.as_modifier_bit(), 0x80);
    assert_eq!(KeyCode::A.as_modifier_bit(), 0);
}

#[test]
fn a_report_holds_six_keys_and_drops_the_seventh() {
    let mut r = KbReport::default();
    for key in [KeyCode::A, KeyCode::B, KeyCode::C, KeyCode::D, KeyCode::E, KeyCode::F, KeyCode::G] {
        r.pressed(key);
    }
    assert_eq!(
        r.codes(),
        vec![KeyCode::A, KeyCode::B, KeyCode::C, KeyCode::D, KeyCode::E, KeyCode::F]
    );
    // the error keys and the "no" key leave a report as it is
    let before = r;
    r.pressed(KeyCode::No);
    r.pressed(KeyCode::ErrorRollOver);
    r.pressed(KeyCode::PostFail);
    r.pressed(KeyCode::ErrorUndefined);
    assert_eq!(r, before);
}

#[test]
fn the_last_modifier_is_held_but_not_listed() {
    let mut r = KbReport::default();
    r.pressed(KeyCode::RGui);
    r.pressed(KeyCode::RAlt);
    r.pressed(KeyCode::LCtrl);
    assert_eq!(r.get_modifier_codes(), vec![KeyCode::LCtrl, KeyCode::RAlt]);
    assert_eq!(r.codes(), vec![KeyCode::LCtrl, KeyCode::RAlt]);
}

#[test]
fn keys_of_a_record_are_read_through_a_report() {
    assert_eq!(write_key(KeyCode::Z), [29, 0, 0, 0, 0, 0]);
    assert_eq!(write_key(KeyCode::Escape), [41, 0, 0, 0, 0, 0]);
    assert_eq!(write_key(KeyCode::LShift), [0xE1, 0, 0, 0, 0, 0]);
    assert_eq!(KeyCode::Z.to_report().to_bytes(), [29, 0, 0, 0, 0, 0]);
    assert_eq!(
        read_keys(&[4, 0, 5, 4, 0xE1, 0]),
        [KeyCode::LShift, KeyCode::A, KeyCode::B, KeyCode::No, KeyCode::No, KeyCode::No]
    );
    assert_eq!(
        write_keys(&[KeyCode::C, KeyCode::No, KeyCode::LAlt, KeyCode::C, KeyCode::D, KeyCode::No]),
        [0xE2, 6, 7, 0, 0, 0]
    );
    assert_eq!(
        KbReport::from_bytes(&[4, 5, 6, 7, 8, 9]).to_keys(),
        [KeyCode::A, KeyCode::B, KeyCode::C, KeyCode::D, KeyCode::E, KeyCode::F]
    );
    // with a modifier before them only five of six keys fit
    assert_eq!(
        KbReport::from_bytes(&[4, 5, 6, 7, 8, 0xE0]).to_keys(),
        [KeyCode::LCtrl, KeyCode::A, KeyCode::B, KeyCode::C, KeyCode::D, KeyCode::E]
    );
}

#[test]
fn key_values_are_a_kind_and_a_byte() {
    assert_eq!(read_value(0, 9), KeyValue::Nothing);
    assert_eq!(read_value(1, 4), KeyValue::Keyboard(KeyCode::A));
    assert_eq!(read_value(2, 7), KeyValue::Custom(7));
    assert_eq!(read_value(3, 1), KeyValue::Mouse(1));
    assert_eq!(read_value(4, 0xE9), KeyValue::Media(0xE9));
    assert_eq!(read_value(5, 4), KeyValue::Nothing);
    assert_eq!(write_value(KeyValue::Nothing), (0, 0));
    assert_eq!(write_value(KeyValue::Keyboard(KeyCode::Escape)), (1, 41));
    assert_eq!(write_value(KeyValue::Custom(2)), (2, 2));
    assert_eq!(write_value(KeyValue::Mouse(3)), (3, 3));
    assert_eq!(write_value(KeyValue::Media(0xB6)), (4, 0xB6));
    assert_eq!(KeyValue::default(), KeyValue::Nothing);
}

#[test]
fn the_default_key_map_starts_with_escape_and_has_a_function_key() {
    let map = KeyMap::default();
    let bytes = map.to_bytes();
    assert_eq!(bytes.len(), 256);
    let layers = map.to_layers();
    assert_eq!(layers[0][0], KeyValue::Keyboard(KeyCode::Escape));
    assert_eq!(layers[0][1], KeyValue::Keyboard(KeyCode::Kb1));
    assert_eq!(layers[0][13], KeyValue::Keyboard(KeyCode::BSpace));
    assert_eq!(layers[0][60], KeyValue::Custom(1));
    assert_eq!(layers[0][63], KeyValue::Keyboard(KeyCode::Right));
    assert_eq!(layers[1][0], KeyValue::Keyboard(KeyCode::Grave));
    assert_eq!(layers[1][1], KeyValue::Keyboard(KeyCode::F1));
    assert_eq!(layers[1][13], KeyValue::Nothing);
    assert_eq!(layers[1][35], KeyValue::Media(0xB6));
    assert_eq!(layers[1][56], KeyValue::Custom(2));
    assert_eq!(layers[1][61], KeyValue::Mouse(1));
    assert_eq!(layers[1][62], KeyValue::Keyboard(KeyCode::PgDown));
    assert_eq!(layers[1][63], KeyValue::Mouse(2));
    assert_eq!(map.layer(0), layers[0]);
    assert_eq!(map.layer(1), layers[1]);
}

#[test]
fn layers_round_trip_through_a_key_map() {
    let mut normal = [KeyValue::Nothing; 64];
    let mut function = [KeyValue::Nothing; 64];
    for i in 0..64u8 {
        normal[i as usize] = match i % 5 {
            0 => KeyValue::Nothing,
            1 => KeyValue::Keyboard(KeyCode::from(4 + i)),
            2 => KeyValue::Custom(i),
            3 => KeyValue::Mouse(i),
            _ => KeyValue::Media(i),
        };
        function[63 - i as usize] = normal[i as usize];
    }
    let map = KeyMap::from_layers(&[normal, function]);
    let bytes = map.to_bytes();
    assert_eq!(bytes[1], 1);
    assert_eq!(bytes[64 + 1], 5);
    assert_eq!(bytes[2], 2);
    assert_eq!(bytes[64 + 2], 2);
    assert_eq!(bytes[128 + 62], 1);
    assert_eq!(bytes[192 + 62], 5);
    assert_eq!(map.to_layers(), [normal, function]);
    assert_eq!(KeyMap::from_bytes(bytes).to_layers(), [normal, function]);
}

#[test]
fn colours_pack_as_alpha_red_green_blue() {
    // the keyboard packs its colour as opaque
    let mut board = config::Device::default();
    board.led_color = RGB::new(0x60, 0x7F, 0x00);
    let mut record = cbor::Device::from(&board);
    assert_eq!(record.led_color, 0xFF607F00);
    record.led_color = 0x12345678;
    assert_eq!(
        config::Device::try_from(&record).unwrap().led_color,
        RGB { r: 0x34, g: 0x56, b: 0x78 }
    );
    // the four-key keypad packs its colours with alpha zero
    let mut light = config4::Light::try_from(&cbor4::Light::default()).unwrap();
    light.led_colors[2] = RGB::new(0x60, 0x7F, 0x00);
    light.low_speed_color = RGB::new(1, 2, 3);
    let record = cbor4::Light::from(&light);
    assert_eq!(record.led_colors[2], 0x00607F00);
    assert_eq!(record.low_speed_color, 0x00010203);
    assert_eq!(config4::Light::try_from(&record), Ok(light));
    // the three-key keypad packs them as opaque
    let mut light = config3::Light::try_from(&cbor3::Light::default()).unwrap();
    light.led_colors[0] = RGB::new(9, 8, 7);
    assert_eq!(cbor3::Light::from(&light).led_colors[0], 0xFF090807);
}

#[test]
fn keyboard_configuration_round_trips_through_its_record() {
    let record = cbor::Device::default();
    assert_eq!(record.JittersEliminationTime, 120);
    assert_eq!(record.led_color, 0xFFFFFFFF);
    assert_eq!(record.KeyConfigs[63].DeadZone, 30);
    assert_eq!(record.KeyMap, KeyMap::default().to_bytes());
    let mut cfg = config::Device::default();
    assert_eq!(cfg.led_color, RGB::new(255, 255, 255));
    assert_eq!(cfg.keys[0].press_percentage, 16);
    assert!(cfg.keys[0].rt_enabled);
    assert_eq!(cfg.normal_layer[0], KeyValue::Keyboard(KeyCode::Escape));
    assert_eq!(cbor::Device::from(&cfg), record);
    cfg.keys[5].dead_zone = 12;
    cfg.fn_layer[7] = KeyValue::Mouse(9);
    cfg.led_color = RGB::new(1, 2, 3);
    cfg.hall_filter = 4;
    let record = cbor::Device::from(&cfg);
    assert_eq!(record.KeyConfigs[5].DeadZone, 12);
    assert_eq!(record.KeyMap[128 + 7], 3);
    assert_eq!(record.KeyMap[192 + 7], 9);
    assert_eq!(record.led_color, 0xFF010203);
    assert_eq!(config::Device::try_from(&record), Ok(cfg));
}

#[test]
fn a_mode_out_of_range_names_the_field_and_the_number() {
    let mut record = cbor3::Light::default();
    assert_eq!(record.led_mode, 3);
    assert_eq!(record.led_colors, [0xFFFFFFFF; 3]);
    let light = config3::Light::try_from(&record).unwrap();
    assert_eq!(light.lighting_mode, config3::LightingMode::Solid);
    assert_eq!(light.sleep_time, 120);
    assert_eq!(cbor3::Light::from(&light), record);
    record.led_mode = 4;
    assert_eq!(
        config3::Light::try_from(&record),
        Err(Error::ConfigDataCheckFailed("lighting_mode", 4))
    );
    let mut record = cbor4::Light::default();
    assert_eq!(record.led_mode, 7);
    assert_eq!(record.led_mode_sleep, 0);
    assert_eq!(record.led_colors, [0x00FFFFFF; 4]);
    assert_eq!(record.high_speed_color, 0x00FF0000);
    assert_eq!(record.random_rain_chance, 400);
    let light = config4::Light::try_from(&record).unwrap();
    assert_eq!(light.lighting_mode, config4::LightingMode::BreatheGlowMode);
    assert_eq!(light.high_speed_color, RGB::new(255, 0, 0));
    assert_eq!(cbor4::Light::from(&light), record);
    record.led_mode_sleep = 12;
    assert_eq!(
        config4::Light::try_from(&record),
        Err(Error::ConfigDataCheckFailed("lighting_mode_sleep", 12))
    );
    record.led_mode = 200;
    assert_eq!(
        config4::Light::try_from(&record),
        Err(Error::ConfigDataCheckFailed("lighting_mode", 200))
    );
    assert_eq!(config4::LightingMode::from_u8(11), Some(config4::LightingMode::SpeedLightMode));
    assert_eq!(config4::LightingMode::SpeedLightMode.to_u8(), 11);
}

#[test]
fn keypad_defaults_send_z_x_c_and_v() {
    let record = cbor3::Keyboard::default();
    assert_eq!(record.KeyConfigs[0].KeyData, [29, 0, 0, 0, 0, 0]);
    assert_eq!(record.KeyConfigs[1].KeyData, [27, 0, 0, 0, 0, 0]);
    assert_eq!(record.KeyConfigs[2].KeyData, [6, 0, 0, 0, 0, 0]);
    assert_eq!(record.KeyConfigs[2].PressPercentage, 10);
    assert_eq!(record.KeyConfigs[2].DeadZone, 20);
    assert_eq!(record.SideBtnKeyData, [41, 0, 0, 0, 0, 0]);
    assert_eq!(record.JittersEliminationTime, 15);
    assert!(record.KalmanFilter && !record.ContinuousReport);
    let keys = config3::Key::try_from(&record).unwrap();
    assert_eq!(keys.keys[0].key_data[0], KeyCode::Z);
    assert_eq!(keys.keys[0].key_data[1], KeyCode::No);
    assert_eq!(keys.side_btn[0], KeyCode::Escape);
    assert_eq!(cbor3::Keyboard::from(&keys), record);
    let record = cbor4::Keyboard::default();
    assert_eq!(record.KeyConfigs[3].KeyData, [25, 0, 0, 0, 0, 0]);
    assert_eq!(record.KeyConfigs[3].PressPercentage, 8);
    assert_eq!(record.KeyConfigs[3].DeadZone, 15);
    assert_eq!(record.JittersEliminationTime, 120);
    assert!(record.EnableHS);
    let keys = config4::Key::try_from(&record).unwrap();
    assert_eq!(keys.keys[3].key_data[0], KeyCode::V);
    assert!(keys.enable_hs);
    assert_eq!(cbor4::Keyboard::from(&keys), record);
    assert_eq!(cbor4::KeyRTConfig::default().KeyData, [0; 6]);
}
