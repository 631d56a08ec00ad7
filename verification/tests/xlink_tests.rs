use lib::xlink::{DeviceDesc, XLinkDeviceState, XLinkError, XLinkPlatform, XLinkProtocol};

#[test]
fn test_device_desc_default() {
    let desc = DeviceDesc::default();
    assert_eq!(desc.platform, XLinkPlatform::AnyPlatform);
    assert_eq!(desc.state, XLinkDeviceState::AnyState);
    assert_eq!(desc.protocol, XLinkProtocol::UsbVsc);
    assert_eq!(desc.status, XLinkError::Success);
    assert_eq!(desc.name_hint_only, false);
    assert_eq!(desc.get_name(), "");
    assert_eq!(desc.get_mxid(), "");
}

#[test]
fn test_device_desc_with_name() {
    let desc = DeviceDesc::new().with_name("test_device");
    assert_eq!(desc.get_name(), "test_device");
}

#[test]
fn test_device_desc_with_mxid() {
    let desc = DeviceDesc::new().with_mxid("1844301041C3D907");
    assert_eq!(desc.get_mxid(), "1844301041C3D907");
}

#[test]
fn test_device_desc_with_platform() {
    let desc = DeviceDesc::new().with_platform(XLinkPlatform::Rvc4);
    assert_eq!(desc.platform, XLinkPlatform::Rvc4);
}

#[test]
fn test_device_desc_long_name() {
    let long_name = "this_is_a_very_long_device_name_that_exceeds_63_characters_limit";
    let desc = DeviceDesc::new().with_name(long_name);
    let result_name = desc.get_name();

    // Name should be truncated to fit in 63 characters (with null terminator)
    assert!(result_name.len() <= 63);
    assert!(long_name.starts_with(&result_name));
}

#[test]
fn test_device_desc_builder_pattern() {
    let desc = DeviceDesc::new()
        .with_name("my_device")
        .with_mxid("1844301041C3D907")
        .with_platform(XLinkPlatform::Rvc3)
        .with_state(XLinkDeviceState::Booted)
        .with_protocol(XLinkProtocol::TcpIp)
        .with_status(XLinkError::Success)
        .with_name_hint_only(false);

    assert_eq!(desc.get_name(), "my_device");
    assert_eq!(desc.get_mxid(), "1844301041C3D907");
    assert_eq!(desc.platform, XLinkPlatform::Rvc3);
    assert_eq!(desc.state, XLinkDeviceState::Booted);
    assert_eq!(desc.protocol, XLinkProtocol::TcpIp);
    assert_eq!(desc.status, XLinkError::Success);
    assert_eq!(desc.name_hint_only, false);
}

#[test]
fn test_xlink_enums() {
    // Test that enums have the correct numeric values from XLink headers
    assert_eq!(XLinkPlatform::AnyPlatform.to_raw(), 0);
    assert_eq!(XLinkPlatform::Myriad2.to_raw(), 2450);
    assert_eq!(XLinkPlatform::MyriadX.to_raw(), 2480);
    assert_eq!(XLinkPlatform::Rvc3.to_raw(), 3000);
    assert_eq!(XLinkPlatform::Rvc4.to_raw(), 4000);

    assert_eq!(XLinkDeviceState::AnyState.to_raw(), 0);
    assert_eq!(XLinkDeviceState::Booted.to_raw(), 1);
    assert_eq!(XLinkDeviceState::Unbooted.to_raw(), 2);
    assert_eq!(XLinkDeviceState::Bootloader.to_raw(), 3);
    assert_eq!(XLinkDeviceState::FlashBooted.to_raw(), 4);

    assert_eq!(XLinkProtocol::UsbVsc.to_raw(), 0);
    assert_eq!(XLinkProtocol::UsbCdc.to_raw(), 1);
    assert_eq!(XLinkProtocol::Pcie.to_raw(), 2);
    assert_eq!(XLinkProtocol::TcpIp.to_raw(), 4);

    assert_eq!(XLinkError::Success.to_raw(), 0);
    assert_eq!(XLinkError::DeviceNotFound.to_raw(), 5);
    assert_eq!(XLinkError::DeviceAlreadyInUse.to_raw(), 10);
}

#[test]
fn name_fields_hold_exact_bytes() {
    let desc = DeviceDesc::new().with_name("ab");
    assert_eq!(desc.name[0], b'a' as i8);
    assert_eq!(desc.name[1], b'b' as i8);
    assert!(desc.name[2..].iter().all(|&c| c == 0));
    // 63 bytes fit, the 64th is cut off
    let exact: String = "x".repeat(63);
    assert_eq!(DeviceDesc::new().with_name(&exact).get_name(), exact);
    let over: String = "y".repeat(64);
    assert_eq!(DeviceDesc::new().with_name(&over).get_name(), "y".repeat(63));
    let mx: String = "z".repeat(40);
    assert_eq!(DeviceDesc::new().with_mxid(&mx).get_mxid(), "z".repeat(31));
}

#[test]
fn names_round_trip_with_unicode() {
    let desc = DeviceDesc::new().with_name("kamera-\u{e9}\u{6f22}");
    assert_eq!(desc.get_name(), "kamera-\u{e9}\u{6f22}");
    // a name cut inside a multi-byte character reads back with a replacement mark
    let cut: String = format!("{}\u{e9}", "a".repeat(62));
    assert_eq!(DeviceDesc::new().with_name(&cut).get_name(), format!("{}\u{fffd}", "a".repeat(62)));
    // a NUL ends the stored text
    assert_eq!(DeviceDesc::new().with_name("ab\0cd").get_name(), "ab");
}

#[test]
fn setting_one_field_keeps_the_others() {
    let base = DeviceDesc::new().with_name("n").with_mxid("m").with_state(XLinkDeviceState::Gate);
    let d = base.with_protocol(XLinkProtocol::Ipc).with_status(XLinkError::Timeout).with_name_hint_only(true);
    assert_eq!(d.get_name(), "n");
    assert_eq!(d.get_mxid(), "m");
    assert_eq!(d.state, XLinkDeviceState::Gate);
    assert_eq!(d.protocol, XLinkProtocol::Ipc);
    assert_eq!(d.status, XLinkError::Timeout);
    assert!(d.name_hint_only);
    assert_eq!(XLinkDeviceState::BOOTED_NON_EXCLUSIVE, XLinkDeviceState::FlashBooted);
    assert_eq!(XLinkError::InitPcieError.to_raw(), 16);
    assert_eq!(XLinkProtocol::AnyProtocol.to_raw(), 8);
}

#[test]
fn xlink_codes_are_distinct() {
    let platforms = [
        XLinkPlatform::AnyPlatform,
        XLinkPlatform::Myriad2,
        XLinkPlatform::MyriadX,
        XLinkPlatform::Rvc3,
        XLinkPlatform::Rvc4,
    ];
    let codes: Vec<u32> = platforms.iter().map(|p| p.to_raw()).collect();
    for i in 0..codes.len() {
        for j in 0..codes.len() {
            assert_eq!(codes[i] == codes[j], i == j);
        }
    }
    let errors = [
        XLinkError::Success,
        XLinkError::Timeout,
        XLinkError::InitPcieError,
        XLinkError::DeviceNotFound,
    ];
    let codes: Vec<u32> = errors.iter().map(|e| e.to_raw()).collect();
    assert_eq!(codes, vec![0, 6, 16, 5]);
}
