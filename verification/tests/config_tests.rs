use lib::pipeline::nodes::camera::{CameraBoardSocket, CameraResolution};
use lib::pipeline::nodes::depth::{DepthConfig, MedianFilter};
use lib::pipeline::nodes::input::XLinkInConfig;
use lib::pipeline::nodes::mono_camera::MonoCameraResolution;
use lib::pipeline::nodes::output::XLinkOutConfig;
use lib::rerun_host_node::{bgr_to_rgb, rerun_err, RerunHostNodeConfig, RerunViewer, RerunWebConfig};

#[test]
fn node_codes() {
    assert_eq!(CameraBoardSocket::Rgb.as_u32(), 0);
    assert_eq!(CameraBoardSocket::Right.as_u32(), 2);
    assert_eq!(CameraResolution::default(), CameraResolution::The1080P);
    assert_eq!(MedianFilter::Kernel7x7.as_type(), 2);
    assert_eq!(MedianFilter::Kernel5x5.as_type(), 1);
}

#[test]
fn mono_resolutions() {
    assert_eq!(MonoCameraResolution::The800P.dimensions(), (1280, 800));
    assert_eq!(MonoCameraResolution::The400P.pixel_count(), 256000);
    assert_eq!(MonoCameraResolution::The1200P.pixel_count(), 1920 * 1200);
    assert_eq!(MonoCameraResolution::default(), MonoCameraResolution::The400P);
}

#[test]
fn stream_defaults() {
    let i = XLinkInConfig::default();
    assert_eq!(i.stream_name, "input");
    assert_eq!(i.max_data_size, None);
    assert_eq!(i.num_frames, Some(8));
    let o = XLinkOutConfig::default();
    assert_eq!(o.stream_name, "output");
    assert!(!o.metadata_only);
    let d = DepthConfig::default();
    assert!(d.preset.is_none() && d.median_filter.is_none());
    assert!(!d.left_right_check && !d.extended_disparity && !d.subpixel);
}

#[test]
fn rerun_defaults_and_errors() {
    let w = RerunWebConfig::default();
    assert_eq!(w.bind_ip, "0.0.0.0");
    assert_eq!(w.web_port, 0);
    assert!(w.open_browser);
    assert!(w.connect_url.is_none());
    let c = RerunHostNodeConfig::default();
    assert_eq!(c.app_id, "depthai_rerun");
    assert_eq!(c.entity_path, "camera");
    assert_eq!(c.input_name, "in");
    assert!(matches!(c.viewer, RerunViewer::Web(_)));
    assert_eq!(rerun_err("socket closed").to_string(), "rerun error: socket closed");
}

#[test]
fn bgr_reordering() {
    assert_eq!(bgr_to_rgb(vec![1, 2, 3, 4, 5, 6]), vec![3, 2, 1, 6, 5, 4]);
    // a trailing partial pixel is left alone
    assert_eq!(bgr_to_rgb(vec![1, 2, 3, 4, 5]), vec![3, 2, 1, 4, 5]);
    assert_eq!(bgr_to_rgb(vec![]), Vec::<u8>::new());
    let x = vec![9, 8, 7, 6, 5, 4, 3];
    assert_eq!(bgr_to_rgb(bgr_to_rgb(x.clone())), x);
}
