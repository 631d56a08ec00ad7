use lib::device::{connected_socket_codes, device_platform_from_raw, DevicePlatform, Platform};
use lib::device_info::{DeviceInfo, DeviceProtocol, DeviceState, NativeDeviceInfo};

#[test]
fn test_device_info_default() {
    let device_info = DeviceInfo::default();
    assert_eq!(device_info.state(), DeviceState::Unconnected);
    assert_eq!(device_info.protocol(), DeviceProtocol::Usb);
    assert_eq!(device_info.platform(), Platform::Rvc2);
    assert_eq!(device_info.status(), 0);
}

#[test]
fn test_device_info_state_conversion() {
    let mut device_info = DeviceInfo::default();
    device_info.inner_mut().state = 1;
    assert_eq!(device_info.state(), DeviceState::Connected);
    assert!(device_info.is_connected());

    device_info.inner_mut().state = 2;
    assert_eq!(device_info.state(), DeviceState::Bootloader);
    assert!(device_info.is_bootloader());
}

#[test]
fn test_device_info_protocol_conversion() {
    let mut device_info = DeviceInfo::default();
    device_info.inner_mut().protocol = 0;
    assert_eq!(device_info.protocol(), DeviceProtocol::Usb);
    assert!(device_info.is_usb());

    device_info.inner_mut().protocol = 1;
    assert_eq!(device_info.protocol(), DeviceProtocol::Tcp);
    assert!(device_info.is_tcp());
}

#[test]
fn test_device_info_platform_conversion() {
    let mut device_info = DeviceInfo::default();
    device_info.inner_mut().platform = 0;
    assert_eq!(device_info.platform(), Platform::Rvc2);

    device_info.inner_mut().platform = 1;
    assert_eq!(device_info.platform(), Platform::Rvc3);
}

#[test]
fn test_device_info_cache_invalidation() {
    let mut device_info = DeviceInfo::default();

    // Access cached value
    let _name = device_info.name();
    assert!(device_info.cached_name().is_some());

    // Modify inner - should clear cache
    device_info.inner_mut();
    assert!(device_info.cached_name().is_none());
}

#[test]
fn test_device_info_clone() {
    let mut device_info = DeviceInfo::default();
    device_info.inner_mut().state = 1;
    device_info.inner_mut().protocol = 1;

    let cloned = device_info.clone();
    assert_eq!(cloned.state(), DeviceState::Connected);
    assert_eq!(cloned.protocol(), DeviceProtocol::Tcp);
}

#[test]
fn test_device_info_string_access() {
    let device_info = DeviceInfo::default();

    // Direct access to the descriptor's text fields
    let name = device_info.get_name();
    let device_id = device_info.get_device_id();

    // These should not panic even if strings are empty
    let _ = format!("Name: {}, ID: {}", name, device_id);
}

#[test]
fn test_device_info_cached_access() {
    let mut device_info = DeviceInfo::default();

    // Test cached access
    let name1 = device_info.name();
    let name1_ptr = name1.as_ptr();
    let name2 = device_info.name();
    // Should be the same reference
    assert_eq!(name1_ptr, name2.as_ptr());

    let device_id1 = device_info.device_id();
    let device_id1_ptr = device_id1.as_ptr();
    let device_id2 = device_info.device_id();
    assert_eq!(device_id1_ptr, device_id2.as_ptr());
}

fn sample() -> NativeDeviceInfo {
    NativeDeviceInfo {
        name: "1.3".to_string(),
        device_id: "18443010D1AE2F1200".to_string(),
        state: 4,
        protocol: 7,
        platform: 9,
        status: 3,
    }
}

#[test]
fn descriptor_fields_decode() {
    let d = DeviceInfo::from_inner(sample());
    assert_eq!(d.state(), DeviceState::Failed);
    assert_eq!(d.protocol(), DeviceProtocol::Unknown(7));
    assert_eq!(d.platform(), Platform::Unknown(9));
    assert_eq!(d.status(), 3);
    assert!(!d.is_connected() && !d.is_bootloader() && !d.is_usb() && !d.is_tcp());
    assert_eq!(d.get_name(), "1.3");
    assert_eq!(d.get_mxid(), "18443010D1AE2F1200");
    assert_eq!(d.inner().device_id, "18443010D1AE2F1200");
    let mut d = d;
    d.inner_mut().state = 3;
    assert_eq!(d.state(), DeviceState::Initializing);
    d.inner_mut().state = 77;
    assert_eq!(d.state(), DeviceState::Unknown(77));
    d.inner_mut().platform = 2;
    assert_eq!(d.platform(), Platform::Rvc4);
}

#[test]
fn cached_text_follows_modification() {
    let mut d = DeviceInfo::from_inner(sample());
    assert_eq!(d.name(), "1.3");
    assert_eq!(d.mxid(), "18443010D1AE2F1200");
    assert_eq!(d.device_id(), "18443010D1AE2F1200");
    d.inner_mut().name = "2.1".to_string();
    assert!(d.cached_name().is_none());
    assert_eq!(d.name(), "2.1");
    let c = d.clone();
    assert_eq!(c.cached_name().as_deref(), Some("2.1"));
    let n = DeviceInfo::new();
    assert_eq!(n.get_name(), "");
    assert!(n.cached_name().is_none());
}

#[test]
fn platform_numbers() {
    assert_eq!(device_platform_from_raw(0, None).unwrap(), DevicePlatform::Rvc2);
    assert_eq!(device_platform_from_raw(1, None).unwrap(), DevicePlatform::Rvc3);
    assert_eq!(device_platform_from_raw(2, None).unwrap(), DevicePlatform::Rvc4);
    let e = device_platform_from_raw(3, None).unwrap_err();
    assert_eq!(e.to_string(), "unknown device platform");
    let e = device_platform_from_raw(-1, Some("device lost".to_string())).unwrap_err();
    assert_eq!(e.to_string(), "device lost");
    let e = device_platform_from_raw(5, Some(String::new())).unwrap_err();
    assert_eq!(e.to_string(), "unknown device platform");
}

#[test]
fn test_device_info_debug_display() {
    let device_info = DeviceInfo::default();
    let debug_str = format!("{:?}", device_info);
    assert!(debug_str.contains("DeviceInfo"));
    assert!(debug_str.contains("state"));
    assert!(debug_str.contains("protocol"));
}

#[test]
fn device_info_display_text() {
    let d = DeviceInfo::default();
    assert_eq!(d.display_string(), "DeviceInfo(name: , id: , state: Unconnected, protocol: Usb)");
    let mut e = DeviceInfo::new();
    {
        let raw = e.inner_mut();
        raw.name = "oak".to_string();
        raw.device_id = "1844301041C3D907".to_string();
        raw.state = 9;
        raw.protocol = 1;
    }
    assert_eq!(
        e.display_string(),
        "DeviceInfo(name: oak, id: 1844301041C3D907, state: Unknown(9), protocol: Tcp)"
    );
    {
        let raw = e.inner_mut();
        raw.state = 1;
        raw.protocol = 12;
    }
    assert_eq!(
        e.display_string(),
        "DeviceInfo(name: oak, id: 1844301041C3D907, state: Connected, protocol: Unknown(12))"
    );
}

#[test]
fn connected_camera_query_reading() {
    let raw = [1, 2, 3, 0, 0];
    assert_eq!(connected_socket_codes(&raw, 3, None).unwrap(), vec![1, 2, 3]);
    assert_eq!(connected_socket_codes(&raw, 9, None).unwrap(), vec![1, 2, 3, 0, 0]);
    assert_eq!(connected_socket_codes(&raw, 0, None).unwrap(), Vec::<i32>::new());
    assert_eq!(connected_socket_codes(&raw, -1, None).unwrap(), Vec::<i32>::new());
    let e = connected_socket_codes(&raw, 0, Some("usb reset".to_string())).unwrap_err();
    assert_eq!(e.to_string(), "usb reset");
    let e = connected_socket_codes(&raw, -2, Some(String::new())).unwrap_err();
    assert_eq!(e.to_string(), "failed to query connected cameras");
    assert_eq!(connected_socket_codes(&raw, 2, Some("ignored".to_string())).unwrap(), vec![1, 2]);
}
