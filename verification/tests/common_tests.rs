use lib::common::{
    CameraBoardSocket, CameraCapabilities, CameraImageOrientation, CameraModel, CameraSensorType,
    DeviceInfo, UsbSpeed, Version,
};

#[test]
fn test_camera_board_socket_conversion() {
    let socket = CameraBoardSocket::CamA;
    let c_value = socket.to_c();
    let back_converted = CameraBoardSocket::from_c(c_value).unwrap();
    assert_eq!(socket, back_converted);
}

#[test]
fn test_version_comparison() {
    let v1 = Version::new(2, 1, 0);
    let v2 = Version::new(2, 0, 5);
    let v3 = Version::new(2, 1, 0);

    assert!(v1.is_newer_than(&v2));
    assert!(!v2.is_newer_than(&v1));
    assert!(!v1.is_newer_than(&v3));
    assert!(!v3.is_newer_than(&v1));

    assert_eq!(v1.version_string(), "2.1.0");
}

#[test]
fn test_usb_speed() {
    let speed = UsbSpeed::Super;
    assert_eq!(speed.description(), "SuperSpeed (5 Gbps)");

    let c_value = speed.to_c();
    let back_converted = UsbSpeed::from_c(c_value).unwrap();
    assert_eq!(speed, back_converted);
}

#[test]
fn socket_codes_and_labels() {
    let all = [
        CameraBoardSocket::Auto,
        CameraBoardSocket::CamA,
        CameraBoardSocket::CamB,
        CameraBoardSocket::CamC,
        CameraBoardSocket::CamD,
        CameraBoardSocket::CamE,
        CameraBoardSocket::CamF,
        CameraBoardSocket::CamG,
        CameraBoardSocket::CamH,
    ];
    for (i, s) in all.iter().enumerate() {
        assert_eq!(s.to_c(), i as u32);
        assert_eq!(CameraBoardSocket::from_c(i as u32), Some(*s));
    }
    assert_eq!(CameraBoardSocket::from_c(9), None);
    assert_eq!(CameraBoardSocket::from_c(u32::MAX), None);
    assert_eq!(CameraBoardSocket::CamA.to_string(), "CAM_A");
    assert_eq!(CameraBoardSocket::Auto.to_string(), "AUTO");
    assert_eq!(CameraBoardSocket::CamH.to_string(), "CAM_H");
    assert_eq!(CameraBoardSocket::default(), CameraBoardSocket::Auto);
}

#[test]
fn other_enum_round_trips() {
    for v in 0..4u32 {
        assert_eq!(CameraSensorType::from_c(v).unwrap().to_c(), v);
    }
    assert_eq!(CameraSensorType::from_c(4), None);
    assert_eq!(CameraSensorType::Thermal.to_string(), "THERMAL");
    assert_eq!(CameraSensorType::default(), CameraSensorType::Color);
    for v in 0..7u32 {
        assert_eq!(CameraImageOrientation::from_c(v).unwrap().to_c(), v);
    }
    assert_eq!(CameraImageOrientation::from_c(7), None);
    assert_eq!(CameraImageOrientation::Rotate180Deg.to_c(), 3);
    assert_eq!(CameraImageOrientation::default(), CameraImageOrientation::Auto);
    for v in 0..6u32 {
        assert_eq!(CameraModel::from_c(v).unwrap().to_c(), v);
    }
    assert_eq!(CameraModel::from_c(6), None);
    assert_eq!(CameraModel::Tilted.to_c(), 5);
    assert_eq!(CameraModel::default(), CameraModel::Perspective);
    for v in 0..6u32 {
        assert_eq!(UsbSpeed::from_c(v).unwrap().to_c(), v);
    }
    assert_eq!(UsbSpeed::from_c(6), None);
    assert_eq!(UsbSpeed::SuperPlus.description(), "SuperSpeed+ (10 Gbps)");
    assert_eq!(UsbSpeed::Low.to_string(), "Low Speed (1.5 Mbps)");
    assert_eq!(UsbSpeed::default(), UsbSpeed::Unknown);
}

#[test]
fn version_text_and_precedence() {
    let mut rc = Version::new(2, 1, 0);
    rc.pre_release_type = "rc".to_string();
    rc.pre_release_version = 2;
    assert_eq!(rc.version_string(), "2.1.0-rc.2");
    assert_eq!(rc.to_string(), "2.1.0-rc.2");
    let release = Version::new(2, 1, 0);
    assert!(release.is_newer_than(&rc));
    assert!(!rc.is_newer_than(&release));
    let mut rc3 = rc.clone();
    rc3.pre_release_version = 3;
    assert!(rc3.is_newer_than(&rc));
    assert!(!rc.is_newer_than(&rc3));
    assert!(!rc.is_newer_than(&rc));
    assert!(Version::new(3, 0, 0).is_newer_than(&Version::new(2, 99, 99)));
    assert!(Version::new(2, 2, 0).is_newer_than(&Version::new(2, 1, 7)));
    assert_eq!(Version::new(4294967295, 0, 10).version_string(), "4294967295.0.10");
    assert_eq!(Version::default().version_string(), "0.0.0");
}

#[test]
fn version_precedence_is_transitive_on_samples() {
    let a = Version::new(1, 2, 3);
    let mut b = Version::new(1, 2, 3);
    b.pre_release_type = "beta".to_string();
    b.pre_release_version = 7;
    let mut c = Version::new(1, 2, 3);
    c.pre_release_type = "alpha".to_string();
    c.pre_release_version = 1;
    assert!(a.is_newer_than(&b));
    assert!(b.is_newer_than(&c));
    assert!(a.is_newer_than(&c));
}

#[test]
fn device_info_protocols() {
    let mut d = DeviceInfo::new();
    assert!(d.device_name.is_empty() && d.protocol.is_empty() && d.state.is_empty());
    assert!(!d.is_usb());
    assert!(!d.is_ethernet());
    d.protocol = "X_LINK_USB_VSC".to_string();
    assert!(d.is_usb());
    assert!(!d.is_ethernet());
    d.protocol = "TCP_IP".to_string();
    assert!(!d.is_usb());
    assert!(d.is_ethernet());
    d.protocol = "Ethernet".to_string();
    assert!(d.is_ethernet());
    d.protocol = "usb".to_string();
    assert!(d.is_usb());
    let e = DeviceInfo::default();
    assert!(e.mx_id.is_empty());
}

#[test]
fn device_record_display_text() {
    let mut d = DeviceInfo::new();
    assert_eq!(d.to_string(), " () -  via ");
    d.device_name = "OAK-D".to_string();
    d.mx_id = "1844301041C3D907".to_string();
    d.state = "X_LINK_BOOTED".to_string();
    d.protocol = "X_LINK_USB_VSC".to_string();
    assert_eq!(d.to_string(), "OAK-D (1844301041C3D907) - X_LINK_BOOTED via X_LINK_USB_VSC");
}

#[test]
fn camera_capabilities_answers() {
    let caps = CameraCapabilities {
        width: 4056,
        height: 3040,
        supported_types: vec![CameraSensorType::Color],
        has_autofocus_ic: false,
        has_autofocus: true,
    };
    assert_eq!(caps.max_resolution(), (4056, 3040));
    assert_eq!(caps.max_pixel_count(), 4056 * 3040);
    assert!(caps.supports_type(CameraSensorType::Color));
    assert!(!caps.supports_type(CameraSensorType::Mono));
    assert!(caps.supports_autofocus());
    let none = CameraCapabilities {
        width: -1,
        height: -1,
        supported_types: vec![],
        has_autofocus_ic: false,
        has_autofocus: false,
    };
    assert_eq!(none.max_pixel_count(), 1);
    assert!(!none.supports_type(CameraSensorType::Color));
    assert!(!none.supports_autofocus());
}
