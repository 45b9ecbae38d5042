use via_protocol_keychron::{
    VKAnalogCommandId, VKAnalogGamepadData, VKAnalogKeyConfig, VKAnalogKeyConfigAdvData,
    VKAnalogKeyConfigAdvMode, VKAnalogKeyConfigMode, VKAnalogProfile, VKAnalogProfileInfo,
    VKAnalogProtocolVersion, VKCommandId, VKError, VKOkmcActivation, VKOkmcConfig, VKOkmcTravel,
    VKSocdConfig, VKSocdKey, VKSocdType, ViaReportData,
};

fn reply(sub: u8, payload: &[u8]) -> ViaReportData {
    let mut data = [0u8; 32];
    data[0] = VKCommandId::AnalogMatrix.as_u8();
    data[1] = sub;
    data[2..2 + payload.len()].copy_from_slice(payload);
    data
}

#[test]
fn okmc_travel_accessors() {
    let mut okmc = VKOkmcTravel::try_from([0, 0, 0].as_slice()).unwrap();
    okmc.set_depth(VKOkmcActivation::ShallowActivation, 0x12);
    okmc.set_depth(VKOkmcActivation::ShallowDeactivation, 0x34);
    okmc.set_depth(VKOkmcActivation::DeepActivation, 0x15);
    okmc.set_depth(VKOkmcActivation::DeepDeactivation, 0x36);
    assert_eq!(0x12, okmc.get_depth(VKOkmcActivation::ShallowActivation));
    assert_eq!(0x34, okmc.get_depth(VKOkmcActivation::ShallowDeactivation));
    assert_eq!(0x15, okmc.get_depth(VKOkmcActivation::DeepActivation));
    assert_eq!(0x36, okmc.get_depth(VKOkmcActivation::DeepDeactivation));

    okmc.set_depth(VKOkmcActivation::ShallowDeactivation, 0);
    okmc.set_depth(VKOkmcActivation::DeepDeactivation, 0);
    assert_eq!(0x12, okmc.get_depth(VKOkmcActivation::ShallowActivation));
    assert_eq!(0, okmc.get_depth(VKOkmcActivation::ShallowDeactivation));
    assert_eq!(0x15, okmc.get_depth(VKOkmcActivation::DeepActivation));
    assert_eq!(0, okmc.get_depth(VKOkmcActivation::DeepDeactivation));

    okmc.set_depth(VKOkmcActivation::ShallowActivation, 0xFF);
    okmc.set_depth(VKOkmcActivation::DeepActivation, 0xFF);
    assert_eq!(0x3F, okmc.get_depth(VKOkmcActivation::ShallowActivation));
    assert_eq!(0, okmc.get_depth(VKOkmcActivation::ShallowDeactivation));
    assert_eq!(0x3F, okmc.get_depth(VKOkmcActivation::DeepActivation));
    assert_eq!(0, okmc.get_depth(VKOkmcActivation::DeepDeactivation));
}

#[test]
fn okmc_deep_activation_repeats_low_bits() {
    // bits 4-5 of the depth differ from bits 0-1: they do not read back
    let mut okmc = VKOkmcTravel::try_from([0, 0, 0].as_slice()).unwrap();
    okmc.set_depth(VKOkmcActivation::DeepActivation, 0x10);
    assert_eq!(0x00, okmc.get_depth(VKOkmcActivation::DeepActivation));
    okmc.set_depth(VKOkmcActivation::DeepActivation, 0x2A);
    assert_eq!(0x2A, okmc.get_depth(VKOkmcActivation::DeepActivation));
}

#[test]
fn okmc_travel_depth_frame() {
    let mut okmc = VKOkmcTravel::try_from([0xAB, 0xCD, 0xEF].as_slice()).unwrap();
    let before = okmc.iter_depth();
    okmc.set_depth(VKOkmcActivation::ShallowDeactivation, 7);
    let after = okmc.iter_depth();
    assert_eq!(before[0], after[0]);
    assert_eq!(7, after[1]);
    assert_eq!(before[2], after[2]);
    assert_eq!(before[3], after[3]);
}

#[test]
fn okmc_travel_bytes_and_empty() {
    let okmc = VKOkmcTravel::try_from([0x12, 0x34, 0x56, 0x78].as_slice()).unwrap();
    assert_eq!(vec![0x12, 0x34, 0x56], okmc.data);
    assert_eq!(vec![0x12, 0x10, 0x23, 0x15], okmc.iter_depth());
    assert!(!okmc.is_empty());
    assert!(VKOkmcTravel::try_from([0, 0, 0].as_slice()).unwrap().is_empty());
    assert_eq!(
        VKError::OkmcTravelTooSmall,
        VKOkmcTravel::try_from([1, 2].as_slice()).unwrap_err()
    );
}

#[test]
fn okmc_activation_order() {
    let acts = VKOkmcActivation::iter();
    assert_eq!(
        vec![
            VKOkmcActivation::ShallowActivation,
            VKOkmcActivation::ShallowDeactivation,
            VKOkmcActivation::DeepActivation,
            VKOkmcActivation::DeepDeactivation,
        ],
        acts
    );
    assert_eq!(Err(VKError::InvalidOkmcActivation(4)), VKOkmcActivation::try_from(4));
}

fn okmc_bytes() -> Vec<u8> {
    let mut d = vec![0u8; 19];
    d[0] = 0x05;
    d[3] = 0x04;
    d[4] = 0x01; // keycode 0: 0x0104
    d[5] = 0x29; // keycode 1: 0x0029
    d[11] = 0x21; // key 0: shallow activation Press, shallow deactivation Release|PreRealase... high nibble 2
    d[12] = 0x84;
    d
}

#[test]
fn okmc_config_accessors() {
    let okmc = VKOkmcConfig::try_from(&okmc_bytes(), 3).unwrap();
    assert_eq!(3, okmc.index);
    assert_eq!(Ok(0x0104), okmc.get_keycode(0));
    assert_eq!(Ok(0x0029), okmc.get_keycode(1));
    assert_eq!(Err(VKError::InvalidOkmcKeycodeIndex(4)), okmc.get_keycode(4));
    assert_eq!(vec![0x0104, 0x0029, 0, 0], okmc.iter_keycodes());
    let a = okmc.get_action(0, VKOkmcActivation::ShallowActivation).unwrap();
    assert_eq!(0x1, a.bits());
    let a = okmc.get_action(0, VKOkmcActivation::ShallowDeactivation).unwrap();
    assert_eq!(0x2, a.bits());
    assert!(a.contains(via_protocol_keychron::VKOkmcAction::Press));
    let a = okmc.get_action(0, VKOkmcActivation::DeepActivation).unwrap();
    assert_eq!(0x4, a.bits());
    let a = okmc.get_action(0, VKOkmcActivation::DeepDeactivation).unwrap();
    assert_eq!(0x8, a.bits());
    assert!(!okmc.is_empty());
    assert_eq!(
        VKError::OkmcTooSmall,
        VKOkmcConfig::try_from(&[0u8; 18], 0).unwrap_err()
    );
    let empty = VKOkmcConfig::try_from(&[0u8; 19], 0).unwrap();
    assert!(empty.is_empty());
}

#[test]
fn key_config_modes() {
    let mut key = VKAnalogKeyConfig::try_from(&[0x29, 0x85, 0x03, 0x07]).unwrap();
    assert_eq!(Ok(VKAnalogKeyConfigMode::Regular), key.get_mode());
    assert_eq!(0x0A, key.get_actuation_point());
    assert_eq!(0x05, key.get_rapid_trig_sen());
    assert_eq!(0x0E, key.get_rapid_trig_sen_deact());
    assert!(!key.is_empty());
    for mode in [
        VKAnalogKeyConfigMode::DKS,
        VKAnalogKeyConfigMode::Gamepad,
        VKAnalogKeyConfigMode::Toggle,
        VKAnalogKeyConfigMode::Global,
        VKAnalogKeyConfigMode::Rapid,
        VKAnalogKeyConfigMode::Regular,
    ] {
        key.set_mode(mode);
        assert_eq!(Ok(mode), key.get_mode());
        assert_eq!(0x0A, key.get_actuation_point());
        assert_eq!(0x05, key.get_rapid_trig_sen());
        assert_eq!(0x0E, key.get_rapid_trig_sen_deact());
    }
    key.set_mode(VKAnalogKeyConfigMode::Global);
    assert!(key.is_empty());
}

#[test]
fn key_config_invalid() {
    assert_eq!(
        VKError::KeyConfigTooSmall,
        VKAnalogKeyConfig::try_from(&[1, 2, 3]).unwrap_err()
    );
    assert_eq!(
        VKError::InvalidKeyConfigMode(7),
        VKAnalogKeyConfig::try_from(&[0, 0, 0x70, 0]).unwrap_err()
    );
    let key = VKAnalogKeyConfig { data: vec![0, 0, 0x70, 0], index: None, profile: None };
    assert!(key.is_empty());
}

#[test]
fn key_config_adv_data() {
    let mut key = VKAnalogKeyConfig::try_from(&[0x01, 0, 0, 0]).unwrap();
    assert_eq!(
        Err(VKError::NoAdvModeData(VKAnalogKeyConfigMode::Regular)),
        key.get_adv_mode_info()
    );
    assert_eq!(None, key.get_okmc_index());
    key.set_mode(VKAnalogKeyConfigMode::DKS);
    key.set_adv_mode_info(VKAnalogKeyConfigAdvData::Okmc { index: 2 });
    assert_eq!(Ok(VKAnalogKeyConfigAdvData::Okmc { index: 2 }), key.get_adv_mode_info());
    assert_eq!(Some(2), key.get_okmc_index());
    key.set_mode(VKAnalogKeyConfigMode::Gamepad);
    key.set_adv_mode_info(VKAnalogGamepadData::ButtonDown.into());
    assert_eq!(
        Ok(VKAnalogKeyConfigAdvData::Gamepad(VKAnalogGamepadData::ButtonDown)),
        key.get_adv_mode_info()
    );
    key.set_adv_mode_info(VKAnalogKeyConfigAdvData::from(11));
    assert_eq!(Err(VKError::InvalidGamepadData(11)), key.get_adv_mode_info());
    assert_eq!(24u8, u8::from(VKAnalogKeyConfigAdvData::Gamepad(VKAnalogGamepadData::ButtonDown)));
    assert_eq!(4u8, u8::from(VKAnalogKeyConfigAdvData::Okmc { index: 260 }));
}

#[test]
fn gamepad_bytes() {
    assert_eq!(Ok(VKAnalogGamepadData::RightJoystickUp), VKAnalogGamepadData::try_from(9));
    assert_eq!(Ok(VKAnalogGamepadData::ButtonA), VKAnalogGamepadData::try_from(13));
    assert_eq!(Ok(VKAnalogGamepadData::ButtonCancel), VKAnalogGamepadData::try_from(27));
    for v in [10u8, 11, 12, 28, 255] {
        assert_eq!(Err(VKError::InvalidGamepadData(v)), VKAnalogGamepadData::try_from(v));
    }
    for v in 0u8..=27 {
        if let Ok(g) = VKAnalogGamepadData::try_from(v) {
            assert_eq!(v, g.as_u8());
        }
    }
}

#[test]
fn key_config_travel_request() {
    let mut key = VKAnalogKeyConfig::try_from(&[0x29, 0x85, 0x03, 0x07]).unwrap();
    let req = key.travel_request(1, 0);
    assert_eq!(&[0x00, 0xA9, 0x14, 1, 0x01, 0x0A, 0x05, 0x0E, 1, 0], &req.report[0..10]);
    key.index = Some(2 * 16 + 9);
    let req = key.travel_request(1, 16);
    assert_eq!(&[0x00, 0xA9, 0x14, 1, 0x01, 0x0A, 0x05, 0x0E, 0], &req.report[0..9]);
    // row 2: mask at offset 6 + 2 * 4 of the payload
    assert_eq!(&[0, 0, 0, 0, 0, 0, 0, 0], &req.report[9..17]);
    assert_eq!(&[0x00, 0x02, 0x00, 0x00], &req.report[17..21]);
    assert!(req.report[21..].iter().all(|b| *b == 0));
}

#[test]
fn key_config_adv_requests() {
    let mut key = VKAnalogKeyConfig::try_from(&[0x01, 0, 0, 0]).unwrap();
    assert_eq!(
        VKError::GlobalKeyAdvMode,
        key.adv_mode_request(VKAnalogKeyConfigAdvMode::Clear, 0, 16, None).unwrap_err()
    );
    key.index = Some(20);
    assert_eq!(Ok(VKAnalogKeyConfigAdvMode::Clear), key.adv_mode());
    let req = key.adv_mode_request(VKAnalogKeyConfigAdvMode::Clear, 1, 16, None).unwrap();
    assert_eq!(&[0x00, 0xA9, 0x15, 1, 0, 1, 4], &req.report[0..7]);
    assert!(req.report[7..].iter().all(|b| *b == 0));

    key.set_mode(VKAnalogKeyConfigMode::DKS);
    key.set_adv_mode_info(VKAnalogKeyConfigAdvData::Okmc { index: 0 });
    assert_eq!(Ok(VKAnalogKeyConfigAdvMode::Okmc), key.adv_mode());
    assert_eq!(
        VKError::OkmcRequired,
        key.adv_mode_request(VKAnalogKeyConfigAdvMode::Okmc, 1, 16, None).unwrap_err()
    );
    let other = VKOkmcConfig::try_from(&okmc_bytes(), 1).unwrap();
    assert_eq!(
        VKError::OkmcIndexMismatch { key_okmc_index: 0, okmc_index: 1 },
        key.adv_mode_request(VKAnalogKeyConfigAdvMode::Okmc, 1, 16, Some(&other))
            .unwrap_err()
    );
    let okmc = VKOkmcConfig::try_from(&okmc_bytes(), 0).unwrap();
    let req = key
        .adv_mode_request(VKAnalogKeyConfigAdvMode::Okmc, 1, 16, Some(&okmc))
        .unwrap();
    assert_eq!(&[0x00, 0xA9, 0x15, 1, 1, 1, 4, 0], &req.report[0..8]);
    assert_eq!(okmc_bytes().as_slice(), &req.report[8..27]);

    key.set_mode(VKAnalogKeyConfigMode::Gamepad);
    key.set_adv_mode_info(VKAnalogGamepadData::ButtonY.into());
    let req = key
        .adv_mode_request(VKAnalogKeyConfigAdvMode::Gamepad, 2, 16, None)
        .unwrap();
    assert_eq!(&[0x00, 0xA9, 0x15, 2, 2, 1, 4, 16, 0], &req.report[0..9]);
}

#[test]
fn socd_config_accessors() {
    // key 1: row 1, column 3; key 2: row 0, column 5
    let socd = VKSocdConfig::try_from(&[(3 << 3) | 1, 5 << 3, 2], 16).unwrap();
    assert_eq!(Ok(VKSocdType::DeeperTravelSingle), socd.get_type());
    assert_eq!(16 | 3, socd.get_key(VKSocdKey::Key1));
    assert_eq!(5, socd.get_key(VKSocdKey::Key2));
    assert_eq!(vec![19, 5], socd.iter_key());
    assert!(!socd.is_empty());
    let off = VKSocdConfig::try_from(&[0, 0, 0], 16).unwrap();
    assert!(off.is_empty());
    assert_eq!(VKError::SocdTooSmall, VKSocdConfig::try_from(&[0, 0], 16).unwrap_err());
    assert_eq!(
        VKError::InvalidSocdType(7),
        VKSocdConfig::try_from(&[0, 0, 7], 16).unwrap_err()
    );
}

#[test]
fn socd_key_index_on_seventeen_columns() {
    // key 1: row 1, column 1; key 2: row 3, column 1
    let socd = VKSocdConfig::try_from(&[0x09, 0x0B, 2], 17).unwrap();
    assert_eq!(18, socd.get_key(VKSocdKey::Key1));
    assert_eq!(52, socd.get_key(VKSocdKey::Key2));
    assert_eq!(vec![18, 52], socd.iter_key());
}

fn profile_info() -> VKAnalogProfileInfo {
    let mut payload = [0u8; 30];
    payload[0] = 1; // current profile
    payload[1] = 3; // profiles
    payload[2] = 0x58; // raw size 0x0058 = 88
    payload[3] = 0x00;
    payload[4] = 1; // okmc
    payload[5] = 2; // socd
    VKAnalogProfileInfo::try_from(reply(VKAnalogCommandId::GetProfilesInfo.as_u8(), &payload))
        .unwrap()
}

#[test]
fn profile_info_accessors() {
    let mut info = profile_info();
    assert_eq!(1, info.get_current_profile());
    assert_eq!(3, info.get_profile_count());
    assert_eq!(88, info.get_raw_profile_byte_size());
    assert_eq!(1, info.get_okmc_count());
    assert_eq!(2, info.get_socd_count());
    assert_eq!(0, info.get_key_count());
    let sizes = reply(VKAnalogCommandId::GetCalibratedValue.as_u8(), &[2, 0, 3]);
    info.load_key_count(&sizes).unwrap();
    assert_eq!(2, info.get_row_count());
    assert_eq!(3, info.get_col_count());
    assert_eq!(6, info.get_key_count());
    let bad = reply(VKAnalogCommandId::GetProfilesInfo.as_u8(), &[9, 9, 9]);
    assert_eq!(
        Err(VKError::CorruptedSubCmd { expected: 0x42, got: 0x10 }),
        info.load_key_count(&bad)
    );
    assert_eq!(6, info.get_key_count());
    info.set_current_profile(2);
    assert_eq!(2, info.get_current_profile());
    let req = VKAnalogProfileInfo::key_count_request();
    assert_eq!(&[0x00, 0xA9, 0x42, 0xFF, 0xFF, 0], &req.report[0..6]);
    let req = VKAnalogProfileInfo::select_request(2);
    assert_eq!(&[0x00, 0xA9, 0x11, 2, 0], &req.report[0..5]);
    let req = VKAnalogProfileInfo::save_request(1);
    assert_eq!(&[0x00, 0xA9, 0x1F, 1, 0], &req.report[0..5]);
}

#[test]
fn analog_protocol_version() {
    let v = VKAnalogProtocolVersion::try_from(reply(0x01, &[7])).unwrap();
    assert_eq!(7, v.version);
    let mut bad = reply(0x01, &[7]);
    bad[0] = 0xA8;
    assert_eq!(
        Err(VKError::CorruptedCmd { expected: 0xA9, got: 0xA8 }),
        VKAnalogProtocolVersion::try_from(bad)
    );
}

/// A profile of 2 x 3 keys, one OKMC configuration, two SOCD configurations
/// and the name field: 4 * 7 + 19 + 6 + 30 = 83 bytes.
fn profile() -> VKAnalogProfile {
    let mut data = vec![0u8; 83];
    data[0] = 0x02; // global: rapid
    data[4] = 0x29; // key 0: regular
    data[4 + 4 * 2 + 2] = 0x70; // key 2: invalid mode
    data[4 * 7] = 0x05; // okmc travel
    data[4 * 7 + 19 + 2] = 2; // socd 0: deeper travel single
    data[4 * 7 + 19 + 3 + 2] = 9; // socd 1: invalid type
    VKAnalogProfile {
        data,
        index: 1,
        key_count: 6,
        okmc_count: 1,
        socd_count: 2,
        row_count: 2,
        col_count: 3,
    }
}

#[test]
fn profile_parts() {
    let p = profile();
    let global = p.get_global_key_config().unwrap();
    assert_eq!(Ok(VKAnalogKeyConfigMode::Rapid), global.get_mode());
    assert_eq!(None, global.index);
    let key = p.get_key_config(0).unwrap();
    assert_eq!(Ok(VKAnalogKeyConfigMode::Regular), key.get_mode());
    assert_eq!(Some(0), key.index);
    assert_eq!(Some(1), key.profile);
    assert_eq!(Err(VKError::InvalidKeyConfigMode(7)), p.get_key_config(2));
    assert_eq!(Err(VKError::NoSuchKey(6)), p.get_key_config(6));
    let keys = p.iter_key_config();
    assert_eq!(5, keys.len());
    assert_eq!(
        vec![Some(0), Some(1), Some(3), Some(4), Some(5)],
        keys.iter().map(|k| k.index).collect::<Vec<_>>()
    );
    let okmc = p.get_okmc_config(0).unwrap();
    assert_eq!(0x05, okmc.data[0]);
    assert_eq!(VKError::NoSuchOkmc(1), p.get_okmc_config(1).unwrap_err());
    assert_eq!(1, p.iter_okmc_config().len());
    let socd = p.get_socd_config(0).unwrap();
    assert_eq!(Ok(VKSocdType::DeeperTravelSingle), socd.get_type());
    assert_eq!(VKError::InvalidSocdType(9), p.get_socd_config(1).unwrap_err());
    assert_eq!(VKError::NoSuchSocd(2), p.get_socd_config(2).unwrap_err());
    assert_eq!(1, p.iter_socd_config().len());
}

#[test]
fn profile_name_roundtrip() {
    let mut p = profile();
    assert_eq!(Ok(String::new()), p.get_name());
    p.set_name("pwet").unwrap();
    assert_eq!(Ok("pwet".to_string()), p.get_name());
    assert_eq!(&[0, b'p', 0, b'w', 0, b'e', 0, b't', 0, 0], &p.data[53..63]);
    p.set_name("h\u{e9}llo \u{1F600}").unwrap();
    assert_eq!(Ok("h\u{e9}llo \u{1F600}".to_string()), p.get_name());
    p.set_name("fourteen chars").unwrap();
    assert_eq!(Ok("fourteen chars".to_string()), p.get_name());
    assert_eq!(Err(VKError::NameTooLong), p.set_name("fifteen chars!!"));
    assert_eq!(&b"\0f\0i\0f\0t\0e\0e\0n\0 \0c\0h\0a\0r\0s\0!"[..], &p.data[53..81]);
    let req = p.name_request();
    assert_eq!(&[0x00, 0xA9, 0x13, 1, 28], &req.report[0..5]);
    assert_eq!(&p.data[53..81], &req.report[5..33]);
}

#[test]
fn profile_name_invalid_utf16() {
    let mut p = profile();
    p.data[53] = 0xDC;
    p.data[54] = 0x00;
    assert_eq!(Err(VKError::InvalidUtf16), p.get_name());
}

#[test]
fn profile_load() {
    let info = profile_info();
    let total = info.get_raw_profile_byte_size();
    let mut p = VKAnalogProfile::new_load(2, &info);
    assert_eq!(1, p.okmc_count);
    assert_eq!(2, p.socd_count);
    let mut requests = 0;
    while let Some(req) = p.load_request(total) {
        let offset = p.data.len();
        let size = (total - offset).min(26);
        assert_eq!(
            &[0x00, 0xA9, 0x12, 2, offset as u8, (offset >> 8) as u8, size as u8],
            &req.report[0..7]
        );
        let mut payload = [0u8; 30];
        for (i, b) in payload[4..4 + size].iter_mut().enumerate() {
            *b = (offset + i) as u8;
        }
        p.load_reply(total, &reply(0x12, &payload)).unwrap();
        requests += 1;
    }
    assert_eq!(4, requests);
    assert_eq!(88, p.data.len());
    assert!(p.data.iter().enumerate().all(|(i, b)| *b == i as u8));
    let mut q = VKAnalogProfile::new_load(2, &info);
    assert_eq!(
        Err(VKError::CorruptedSubCmd { expected: 0x12, got: 0x10 }),
        q.load_reply(total, &reply(0x10, &[]))
    );
    assert_eq!(0, q.data.len());
}

#[test]
fn key_config_send_requests() {
    let mut key = VKAnalogKeyConfig::try_from(&[0x29, 0x85, 0x03, 0x07]).unwrap();
    assert_eq!(VKError::MissingProfile, key.send_requests(16, None).unwrap_err());
    key.profile = Some(2);
    // the global configuration: the travel request goes, the advanced mode is refused
    let (travel, adv) = key.send_requests(0, None).unwrap();
    assert_eq!(&[0x00, 0xA9, 0x14, 2, 0x01, 0x0A, 0x05, 0x0E, 1], &travel.report[0..9]);
    assert_eq!(VKError::GlobalKeyAdvMode, adv.unwrap_err());
    key.index = Some(17);
    let (travel, adv) = key.send_requests(16, None).unwrap();
    assert_eq!(&[0x00, 0xA9, 0x14, 2, 0x01, 0x0A, 0x05, 0x0E, 0], &travel.report[0..9]);
    assert_eq!(&[0, 0, 0, 0, 0x02, 0, 0, 0], &travel.report[9..17]);
    let adv = adv.unwrap();
    assert_eq!(&[0x00, 0xA9, 0x15, 2, 0, 1, 1], &adv.report[0..7]);
    key.set_mode(VKAnalogKeyConfigMode::DKS);
    let (_, adv) = key.send_requests(16, None).unwrap();
    assert_eq!(VKError::OkmcRequired, adv.unwrap_err());
    key.set_mode(VKAnalogKeyConfigMode::Toggle);
    let (_, adv) = key.send_requests(16, None).unwrap();
    assert_eq!(&[0x00, 0xA9, 0x15, 2, 3, 1, 1, 0], &adv.unwrap().report[0..8]);
}

#[test]
fn key_config_requests_without_index_or_profile() {
    // a short OKMC block and short key bytes are never read without an index
    let key = VKAnalogKeyConfig { data: vec![0x01, 0, 0x30], index: None, profile: None };
    let short = VKOkmcConfig { data: vec![1, 2], index: 5 };
    assert_eq!(
        VKError::GlobalKeyAdvMode,
        key.adv_mode_request(VKAnalogKeyConfigAdvMode::Okmc, 0, 16, Some(&short)).unwrap_err()
    );
    assert_eq!(VKError::MissingProfile, key.send_requests(16, Some(&short)).unwrap_err());
    let empty = VKAnalogKeyConfig { data: vec![], index: Some(1), profile: None };
    assert_eq!(VKError::MissingProfile, empty.send_requests(0, None).unwrap_err());
    // an OKMC block the key does not refer to is refused before its bytes are read
    let mut key = VKAnalogKeyConfig::try_from(&[0x01, 0, 0x30, 2]).unwrap();
    key.index = Some(3);
    assert_eq!(
        VKError::OkmcIndexMismatch { key_okmc_index: 2, okmc_index: 5 },
        key.adv_mode_request(VKAnalogKeyConfigAdvMode::Okmc, 0, 16, Some(&short)).unwrap_err()
    );
}

