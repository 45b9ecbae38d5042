use via_protocol_keychron::{
    VKCommandId, VKDebounceConfig, VKDebounceType, VKDfuChipType, VKDfuInfo, VKDfuInfoType,
    VKError, VKLanguageLayout, VKMiscCommandId, VKNkroConfig, VKReportRateConfig, VKSnapClick,
    VKSnapClickConfig, VKSnapClickType, VKWirelessLpmConfig, ViaReportData,
};

fn misc_reply(sub: VKMiscCommandId, payload: &[u8]) -> ViaReportData {
    let mut data = [0u8; 32];
    data[0] = VKCommandId::MiscCmdGroup.as_u8();
    data[1] = sub.as_u8();
    data[3..3 + payload.len()].copy_from_slice(payload);
    data
}

#[test]
fn debounce_parse() {
    assert_eq!(VKDebounceType::try_from(2).unwrap(), VKDebounceType::SymDeferPerKey);
    VKDebounceType::try_from(42).expect_err("should fail to convert");
}

#[test]
fn dfu_parse() {
    let mut data = ViaReportData::default();

    let info = VKDfuInfo::try_from(data).expect_err("should fail");
    assert!(matches!(info, VKError::CorruptedCmd { .. }), "invalid err: {:?}", info);
    data[0] = VKCommandId::MiscCmdGroup.as_u8();

    let info = VKDfuInfo::try_from(data).expect_err("should fail");
    assert!(matches!(info, VKError::CorruptedSubCmd { .. }), "invalid err: {:?}", info);

    data[1] = VKMiscCommandId::DfuInfoGet.as_u8();
    // both type and name must be set
    VKDfuInfo::try_from(data).expect_err("should fail");

    data[3] = VKDfuInfoType::ChipType.as_u8();
    data[4] = 1;
    data[5] = 42;
    VKDfuInfo::try_from(data).expect_err("should fail");
    data[5] = VKDfuChipType::STM32.as_u8();
    VKDfuInfo::try_from(data).expect_err("should fail");

    data[6] = VKDfuInfoType::ChipName.as_u8();
    data[7] = 3;
    data[8] = b't';
    data[9] = b's';
    data[10] = b't';
    let info = VKDfuInfo::try_from(data).unwrap();
    assert_eq!(info.name.as_str(), "tst");

    data[11] = 44;
    VKDfuInfo::try_from(data).expect_err("should fail");
}

#[test]
fn dfu_errors() {
    let mut data = misc_reply(VKMiscCommandId::DfuInfoGet, &[2, 1, 42]);
    assert!(VKDfuInfo::is_decodable(&data));
    assert_eq!(VKError::InvalidDfuChipType(42), VKDfuInfo::try_from(data).unwrap_err());
    data[5] = 1;
    assert_eq!(VKError::InvalidDfuInfo, VKDfuInfo::try_from(data).unwrap_err());
    data[6] = 1;
    data[7] = 40;
    assert_eq!(VKError::DfuStringTooLarge, VKDfuInfo::try_from(data).unwrap_err());
    data[7] = 2;
    data[8] = 0xC3;
    data[9] = 0x28;
    assert_eq!(VKError::InvalidUtf8, VKDfuInfo::try_from(data).unwrap_err());
    data[8] = 0xC3;
    data[9] = 0xA9;
    let info = VKDfuInfo::try_from(data).unwrap();
    assert_eq!("\u{e9}", info.name);
    assert_eq!(VKDfuChipType::STM32, info.chip);
    data[10] = 9;
    assert_eq!(VKError::InvalidDfuInfoType(9), VKDfuInfo::try_from(data).unwrap_err());
    data[7] = 255;
    assert!(!VKDfuInfo::is_decodable(&data));
}

#[test]
fn debounce_config() {
    let mut payload = [0u8; 29];
    payload[0] = 4;
    payload[1] = 10;
    let mut cfg = VKDebounceConfig::try_from(misc_reply(VKMiscCommandId::DebounceGet, &payload))
        .unwrap();
    assert_eq!(VKDebounceType::SymEagerPerKey, cfg.get_type());
    assert_eq!(10, cfg.get_time());
    cfg.set_type(VKDebounceType::Off);
    cfg.set_time(25);
    assert_eq!(VKDebounceType::Off, cfg.get_type());
    assert_eq!(25, cfg.get_time());
    let req = cfg.send_request();
    assert_eq!(&[0x00, 0xA7, 0x06, 6, 25, 0], &req.report[0..6]);
    payload[0] = 8;
    assert_eq!(
        VKError::InvalidDebounceType(8),
        VKDebounceConfig::try_from(misc_reply(VKMiscCommandId::DebounceGet, &payload))
            .unwrap_err()
    );
    let mut failed = misc_reply(VKMiscCommandId::DebounceGet, &[]);
    failed[2] = 1;
    assert_eq!(
        VKError::CommandFailed { sub_command: 0x05, ret: 1 },
        VKDebounceConfig::try_from(failed).unwrap_err()
    );
}

#[test]
fn nkro_config() {
    let mut cfg =
        VKNkroConfig::try_from(misc_reply(VKMiscCommandId::NkroGet, &[0b110])).unwrap();
    assert!(!cfg.is_enabled());
    assert!(cfg.is_available());
    assert!(cfg.is_adaptive());
    cfg.set_enabled(true);
    assert!(cfg.is_enabled());
    assert!(cfg.is_available());
    assert!(cfg.is_adaptive());
    let req = cfg.send_request();
    assert_eq!(&[0x00, 0xA7, 0x13, 1, 0], &req.report[0..5]);
    cfg.set_enabled(false);
    assert!(!cfg.is_enabled());
    assert!(cfg.is_adaptive());
}

#[test]
fn wireless_lpm_config() {
    let mut cfg = VKWirelessLpmConfig::try_from(misc_reply(
        VKMiscCommandId::WirelessLpmGet,
        &[0x2C, 0x01, 0x58, 0x02],
    ))
    .unwrap();
    assert_eq!(300, cfg.get_backlit_disable_time());
    assert_eq!(600, cfg.get_connected_idle_time());
    cfg.set_connected_idle_time(0x1234);
    assert_eq!(0x1234, cfg.get_connected_idle_time());
    assert_eq!(300, cfg.get_backlit_disable_time());
    cfg.set_backlit_disable_time(5);
    assert_eq!(5, cfg.get_backlit_disable_time());
    assert_eq!(0x1234, cfg.get_connected_idle_time());
    let req = cfg.send_request();
    assert_eq!(&[0x00, 0xA7, 0x0C, 5, 0, 0x34, 0x12], &req.report[0..7]);
}

#[test]
fn report_rate_config() {
    let mut cfg =
        VKReportRateConfig::try_from(misc_reply(VKMiscCommandId::ReportRateGet, &[3])).unwrap();
    assert_eq!(3, cfg.get_div());
    cfg.set_div(1);
    assert_eq!(1, cfg.get_div());
    let req = cfg.send_request();
    assert_eq!(&[0x00, 0xA7, 0x0E, 1], &req.report[0..4]);
}

#[test]
fn language_layout() {
    assert_eq!(Ok(VKLanguageLayout::DE_CH), VKLanguageLayout::try_from(7));
    assert_eq!(VKLanguageLayout::FR_CH, VKLanguageLayout::DE_CH);
    assert_eq!(Err(VKError::InvalidLanguage(0)), VKLanguageLayout::try_from(0));
    let l = VKLanguageLayout::from_reply(&misc_reply(VKMiscCommandId::LanguageGet, &[16]));
    assert_eq!(Ok(VKLanguageLayout::NL), l);
    let req = VKLanguageLayout::KO.set_request();
    assert_eq!(&[0x00, 0xA7, 0x04, 17], &req.report[0..4]);
}

#[test]
fn snap_click_roundtrip() {
    let cfg = VKSnapClickConfig {
        start: 2,
        config: vec![
            VKSnapClick { snap_type: VKSnapClickType::Neutral, keycode: [0x04, 0x07] },
            VKSnapClick { snap_type: VKSnapClickType::LastInput, keycode: [0x16, 0x1A] },
        ],
    };
    let req = cfg.send_request().unwrap();
    assert_eq!(&[0x00, 0xA7, 0x09, 2, 2, 5, 0x04, 0x07, 2, 0x16, 0x1A, 0], &req.report[0..12]);
    let back = VKSnapClick::try_from(&req.report[5..8]).unwrap();
    assert_eq!(VKSnapClickType::Neutral, back.snap_type);
    assert_eq!([0x04, 0x07], back.keycode);
    assert_eq!(VKError::SnapClickTooShort, VKSnapClick::try_from(&[1, 2]).unwrap_err());
    assert_eq!(VKError::InvalidSnapClickType(6), VKSnapClick::try_from(&[6, 0, 0]).unwrap_err());
    let too_many = VKSnapClickConfig {
        start: 0,
        config: (0..10)
            .map(|_| VKSnapClick { snap_type: VKSnapClickType::Off, keycode: [0, 0] })
            .collect(),
    };
    assert_eq!(VKError::TooManySnapClicks(10), too_many.send_request().unwrap_err());
    assert_eq!(6, VKSnapClickType::iter().len());
}

#[test]
fn snap_click_load() {
    let total = 11u8;
    let mut cfg = VKSnapClickConfig::new_load();
    let mut n = 0;
    while let Some(req) = cfg.load_request(total) {
        let start = cfg.config.len() as u8;
        let count = (total - start).min(9);
        assert_eq!(&[0x00, 0xA7, 0x08, start, count], &req.report[0..5]);
        let mut payload = [0u8; 29];
        for i in 0..9 {
            payload[3 * i] = 1;
            payload[3 * i + 1] = start + i as u8;
        }
        cfg.load_reply(total, &misc_reply(VKMiscCommandId::SnapClickGet, &payload)).unwrap();
        n += 1;
    }
    assert_eq!(2, n);
    assert_eq!(11, cfg.config.len());
    assert!(cfg.config.iter().enumerate().all(|(i, c)| c.keycode[0] == i as u8));
    assert_eq!(
        Ok(4),
        VKSnapClickConfig::count_from_reply(&misc_reply(VKMiscCommandId::SnapClickGetInfo, &[4]))
    );
}
