use via_protocol_keychron::{
    default_layer_from_reply, firmware_version_from_reply, is_keychron_keyboard, DebugIter,
    VKCommandId, VKCommandMaker, VKError, VKFeatures, VKMiscFeatures, VKMiscInfo,
    VKProtocolType, VKProtocolVersion, ViaReportData, KEYCHRON_VENDOR_ID, VIA_USAGE,
    VIA_USAGE_PAGE,
};

#[test]
fn debug_iter() {
    let value = [1, 2, 3];
    assert_eq!(
        "[1, 2, 3]",
        DebugIter::new(value.iter().collect()).debug_string().as_str()
    );
}

#[test]
fn debug_iter_consumes_items() {
    let mut printer = DebugIter::new(vec![1, 2, 3]);
    assert_eq!("[1, 2, 3]", printer.debug_string());
    assert_eq!("[]", printer.debug_string());
}

#[test]
fn debug_iter_empty_and_single() {
    assert_eq!("[]", DebugIter::<u8>::new(vec![]).debug_string());
    assert_eq!("[\"a\"]", DebugIter::new(vec!["a"]).debug_string());
}

#[test]
fn keychron_detection() {
    assert!(is_keychron_keyboard(0x3434, 0xFF60, 0x61));
    assert_eq!(0x3434, KEYCHRON_VENDOR_ID);
    assert_eq!((0xFF60, 0x61), (VIA_USAGE_PAGE, VIA_USAGE));
    assert!(!is_keychron_keyboard(0x1234, 0xFF60, 0x61));
    assert!(!is_keychron_keyboard(0x3434, 0x0001, 0x61));
    assert!(!is_keychron_keyboard(0x3434, 0xFF60, 0x06));
}

fn reply(cmd: VKCommandId, payload: &[u8]) -> ViaReportData {
    let mut data = [0u8; 32];
    data[0] = cmd.as_u8();
    data[1..1 + payload.len()].copy_from_slice(payload);
    data
}

#[test]
fn firmware_version() {
    let r = reply(VKCommandId::GetFirmwareVersion, b"v1.2.3\0junk");
    assert_eq!(Ok("v1.2.3".to_string()), firmware_version_from_reply(&r));
    let r = reply(VKCommandId::GetFirmwareVersion, &[0xFF, 0xFE, 0]);
    assert_eq!(Err(VKError::InvalidUtf8), firmware_version_from_reply(&r));
    let r = reply(VKCommandId::GetDefaultLayer, &[0]);
    assert_eq!(
        Err(VKError::CorruptedCmd { expected: 0xA1, got: 0xA3 }),
        firmware_version_from_reply(&r)
    );
}

#[test]
fn default_layer() {
    let r = reply(VKCommandId::GetDefaultLayer, &[1, 3]);
    assert_eq!(Ok((1, 3)), default_layer_from_reply(&r));
}

#[test]
fn protocol_version_and_features() {
    let r = reply(VKCommandId::GetProtocolVersion, &[2, 0, 5]);
    let v = VKProtocolVersion::try_from(&r).unwrap();
    assert_eq!(VKProtocolType::Qmk, v.protocol);
    assert_eq!(5, v.version);
    let r = reply(VKCommandId::GetProtocolVersion, &[0, 0, 5]);
    assert_eq!(Err(VKError::InvalidProtocolType(0)), VKProtocolVersion::try_from(&r));
    let f = VKFeatures::from_payload(&[0x08, 0x01, 0x00], VKProtocolType::Zmk);
    assert!(f.contains(VKFeatures::ANALOG_MATRIX));
    assert!(!f.contains(VKFeatures::NKRO));
    assert_eq!(0x0108, f.bits());
    let f = VKFeatures::from_payload(&[0x00, 0x80, 0x02], VKProtocolType::Qmk);
    assert!(f.contains(VKFeatures::KEYCHRON_RGB));
    assert!(f.contains(VKFeatures::NKRO));
    let info = VKMiscInfo::from_payload(&[3, 0, 0xFF], VKProtocolType::Zmk);
    assert_eq!(3, info.protocol_version);
    assert_eq!(VKMiscFeatures::DEBOUNCE, info.features.bits());
    let info = VKMiscInfo::from_payload(&[3, 0, 0x81], VKProtocolType::Qmk);
    assert!(info.features.contains(VKMiscFeatures::NKRO | VKMiscFeatures::DFU_INFO));
}

#[test]
fn request_layout() {
    let req = VKCommandId::GetFirmwareVersion.to_cmd();
    assert_eq!(33, req.report.len());
    assert_eq!(&[0x00, 0xA1, 0], &req.report[0..3]);
    let req = VKCommandId::GetSupportFeature.to_req(&[1, 2, 3]);
    assert_eq!(&[0x00, 0xA2, 1, 2, 3, 0], &req.report[0..6]);
    let long = [7u8; 40];
    let req = VKCommandId::GetSupportFeature.to_req(&long);
    assert!(req.report[2..32].iter().all(|b| *b == 7));
    assert_eq!(0, req.report[32]);
}
