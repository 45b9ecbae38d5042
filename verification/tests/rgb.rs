use via_protocol_keychron::{
    VKCommandId, VKError, VKHsv, VKRgb, VKRgbCommandId, VKRgbIndicators, VKRgbIndicatorsConfig,
    VKRgbInfo, VKRgbLayoutLoader, VKRgbMixedEffect, VKRgbMixedEffectList, VKRgbMixedInfo,
    VKRgbMixedRegions, VKRgbPerKeyConfig, VKRgbPerKeyType, VKRgbProtocolVersion, ViaReportData,
};

fn rgb_reply(sub: VKRgbCommandId, payload: &[u8]) -> ViaReportData {
    let mut data = [0u8; 32];
    data[0] = VKCommandId::KeychronRgb.as_u8();
    data[1] = sub.as_u8();
    data[3..3 + payload.len()].copy_from_slice(payload);
    data
}

#[test]
fn hsv_roundtrip() {
    let c = VKHsv { hue: 170, saturation: 255, value: 128 };
    let mut buf = [9u8; 5];
    c.serialize(&mut buf).unwrap();
    assert_eq!([170, 255, 128, 9, 9], buf);
    assert_eq!(Ok(c), VKHsv::try_from(&buf));
    assert_eq!(Err(VKError::HsvBufferTooSmall), c.serialize(&mut [0u8; 2]));
    assert_eq!(Err(VKError::InvalidHsv), VKHsv::try_from(&[1, 2]));
}

#[test]
fn mixed_effect_roundtrip() {
    let e = VKRgbMixedEffect { effect: 3, hue: 30, saturation: 255, speed: 100, time: 2000 };
    let mut buf = [0u8; 10];
    e.serialize(&mut buf).unwrap();
    assert_eq!([3, 30, 255, 100, 0xD0, 0x07, 0, 0, 0, 0], buf);
    assert_eq!(Ok(e), VKRgbMixedEffect::try_from(&buf));
    assert_eq!(Err(VKError::MixedEffectBufferTooSmall), e.serialize(&mut [0u8; 7]));
    assert_eq!(Err(VKError::InvalidMixedEffect), VKRgbMixedEffect::try_from(&[0u8; 7]));
}

#[test]
fn indicators_config() {
    let mut payload = [0u8; 29];
    payload[0] = VKRgbIndicators::CAPS_LOCK | VKRgbIndicators::NUM_LOCK;
    payload[1] = 0;
    payload[2] = 10;
    payload[3] = 20;
    payload[4] = 30;
    let mut cfg =
        VKRgbIndicatorsConfig::try_from(rgb_reply(VKRgbCommandId::GetIndicatorsConfig, &payload))
            .unwrap();
    assert!(cfg.get_indicators().contains(VKRgbIndicators::CAPS_LOCK));
    assert!(!cfg.get_indicators().contains(VKRgbIndicators::SCROLL_LOCK));
    assert!(!cfg.is_enabled());
    assert_eq!(VKHsv { hue: 10, saturation: 20, value: 30 }, cfg.get_color());
    cfg.enable(true);
    cfg.set_color(&VKHsv { hue: 1, saturation: 2, value: 3 });
    assert!(cfg.is_enabled());
    assert_eq!(VKHsv { hue: 1, saturation: 2, value: 3 }, cfg.get_color());
    let req = cfg.send_request();
    assert_eq!(&[0x00, 0xA8, 0x04, 1, 1, 2, 3, 0], &req.report[0..8]);
}

#[test]
fn rgb_info_replies() {
    let v = VKRgbProtocolVersion::try_from(rgb_reply(VKRgbCommandId::RgbGetProtocolVer, &[1, 2]))
        .unwrap();
    assert_eq!((1, 2), (v.major, v.minor));
    assert_eq!(
        Ok(84),
        VKRgbInfo::led_count_from_reply(&rgb_reply(VKRgbCommandId::RgbGetLedCount, &[84]))
    );
    let mut failed = rgb_reply(VKRgbCommandId::RgbGetLedCount, &[84]);
    failed[2] = 3;
    assert_eq!(
        Err(VKError::CommandFailed { sub_command: 5, ret: 3 }),
        VKRgbInfo::led_count_from_reply(&failed)
    );
    let req = VKRgb::save_request();
    assert_eq!(&[0x00, 0xA8, 0x02, 0], &req.report[0..4]);
    let mut info_payload = [0u8; 29];
    info_payload[0] = 2;
    info_payload[1] = 5;
    let info =
        VKRgbMixedInfo::try_from(rgb_reply(VKRgbCommandId::MixedEffectRgbGetInfo, &info_payload))
            .unwrap();
    assert_eq!(2, info.get_region_count());
    assert_eq!(5, info.get_effects_per_region());
}

#[test]
fn per_key_type() {
    assert_eq!(Ok(VKRgbPerKeyType::ReactiveSplash), VKRgbPerKeyType::try_from(4));
    assert_eq!(Err(VKError::InvalidPerKeyType(5)), VKRgbPerKeyType::try_from(5));
    assert_eq!(
        Ok(VKRgbPerKeyType::Breathing),
        VKRgbPerKeyType::from_reply(rgb_reply(VKRgbCommandId::PerKeyRgbGetType, &[1]))
    );
    let req = VKRgbPerKeyType::ReactiveSimple.set_request();
    assert_eq!(&[0x00, 0xA8, 0x08, 2], &req.report[0..4]);
}

#[test]
fn per_key_load_and_send() {
    let total = 12usize;
    let mut cfg = VKRgbPerKeyConfig::new_load();
    while let Some(req) = cfg.load_request(total) {
        let start = cfg.config.len();
        let count = (total - start).min(9);
        assert_eq!(&[0x00, 0xA8, 0x09, start as u8, count as u8], &req.report[0..5]);
        let mut payload = [0u8; 29];
        for i in 0..count {
            payload[3 * i] = (start + i) as u8;
        }
        cfg.load_reply(total, &rgb_reply(VKRgbCommandId::PerKeyRgbGetColor, &payload)).unwrap();
    }
    assert_eq!(12, cfg.config.len());
    assert!(cfg.config.iter().enumerate().all(|(i, c)| c.hue == i as u8));
    let reqs = cfg.send_requests();
    assert_eq!(2, reqs.len());
    assert_eq!(&[0x00, 0xA8, 0x0A, 0, 9, 0, 0, 0, 1], &reqs[0].report[0..9]);
    assert_eq!(&[0x00, 0xA8, 0x0A, 9, 3, 9, 0, 0, 10], &reqs[1].report[0..9]);
}

#[test]
fn mixed_regions() {
    let mut payload = [0u8; 29];
    payload[0] = 1;
    payload[1] = 0;
    payload[2] = 1;
    let r = VKRgbMixedRegions::try_from(
        rgb_reply(VKRgbCommandId::MixedEffectRgbGetRegions, &payload),
        4,
        3,
    )
    .unwrap();
    assert_eq!(VKRgbMixedRegions { start: 4, regions: vec![1, 0, 1] }, r);
    assert_eq!(
        Err(VKError::InvalidRegionCount(29)),
        VKRgbMixedRegions::try_from(
            rgb_reply(VKRgbCommandId::MixedEffectRgbGetRegions, &payload),
            0,
            29
        )
    );
    let regions = VKRgbMixedRegions { start: 0, regions: (0..30).map(|i| (i % 2) as u8).collect() };
    let reqs = regions.send_requests();
    assert_eq!(2, reqs.len());
    assert_eq!(&[0x00, 0xA8, 0x0D, 0, 28, 0, 1], &reqs[0].report[0..7]);
    assert_eq!(&[0x00, 0xA8, 0x0D, 28, 2, 0, 1, 0], &reqs[1].report[0..8]);
}

#[test]
fn mixed_effect_list() {
    let mut payload = [0u8; 29];
    payload[0] = 7;
    payload[4] = 0x10;
    let list = VKRgbMixedEffectList::from_part_reply(
        &rgb_reply(VKRgbCommandId::MixedEffectRgbGetEffectList, &payload),
        1,
        0,
        1,
    )
    .unwrap();
    assert_eq!(1, list.effects.len());
    assert_eq!(7, list.effects[0].effect);
    assert_eq!(0x10, list.effects[0].time);
    let reqs = list.send_requests();
    assert_eq!(1, reqs.len());
    assert_eq!(&[0x00, 0xA8, 0x0F, 1, 0, 1, 7, 0, 0, 0, 0x10], &reqs[0].report[0..11]);
}

#[test]
fn layout_loader() {
    let mut loader = VKRgbLayoutLoader::new(5);
    let req = loader.next_request().unwrap();
    assert_eq!(&[0x00, 0xA8, 0x06, 0, 0xFF, 0xFF], &req.report[0..6]);
    let mut row = [0xFFu8; 29];
    row[0] = 0;
    row[1] = 1;
    row[3] = 2;
    loader.accept(&rgb_reply(VKRgbCommandId::RgbGetLedIdx, &row)).unwrap();
    let req = loader.next_request().unwrap();
    assert_eq!(&[0x00, 0xA8, 0x06, 1, 0xFF], &req.report[0..5]);
    let mut row = [0xFFu8; 29];
    row[1] = 3;
    row[4] = 4;
    loader.accept(&rgb_reply(VKRgbCommandId::RgbGetLedIdx, &row)).unwrap();
    assert!(loader.next_request().is_none());
    let layout = loader.finish();
    assert_eq!(2, layout.get_row_count());
    assert_eq!(5, layout.get_col_count());
    assert_eq!(vec![Some(0), Some(1), None, Some(2), None], layout.matrix[0]);
    assert_eq!(vec![None, Some(3), None, None, Some(4)], layout.matrix[1]);
}

#[test]
fn layout_loader_refused() {
    let mut loader = VKRgbLayoutLoader::new(5);
    let mut refused = rgb_reply(VKRgbCommandId::RgbGetLedIdx, &[]);
    refused[2] = 1;
    assert_eq!(
        Err(VKError::CommandFailed { sub_command: 6, ret: 1 }),
        loader.accept(&refused)
    );
    assert!(loader.next_request().is_some());
}
