use lib::error::DaiError;
use lib::pipeline::builder::PipelineBuilder;
use lib::pipeline::nodes::depth::{Depth, DepthConfig, DepthPreset, MedianFilter};
use lib::pipeline::nodes::input::{XLinkIn, XLinkInConfig};
use lib::pipeline::nodes::output::{XLinkOut, XLinkOutConfig};
use lib::pipeline::node::{check_c_name, check_link_names, is_c_compatible};
use lib::pipeline::PipelineNode;

#[test]
fn test_xlink_out_creation() {
    let xlink = XLinkOut::new("test_xlink", "video_stream");
    assert_eq!(xlink.id(), "test_xlink");
    assert_eq!(xlink.node_type(), "XLinkOut");
    assert_eq!(xlink.stream_name(), "video_stream");
}

#[test]
fn test_xlink_out_configuration() {
    let config = XLinkOutConfig {
        stream_name: "custom_stream".to_string(),
        metadata_only: true,
    };

    let xlink = XLinkOut::with_config("test_xlink", config);
    assert_eq!(xlink.config().stream_name, "custom_stream");
    assert_eq!(xlink.config().metadata_only, true);
}

#[test]
fn test_empty_stream_name_validation() {
    let config = XLinkOutConfig {
        stream_name: String::new(),
        ..Default::default()
    };

    let mut xlink = XLinkOut::with_config("test_xlink", config);
    let result = xlink.configure();
    assert!(result.is_err());
}

#[test]
fn test_depth_creation() {
    let depth = Depth::new("test_depth");
    assert_eq!(depth.id(), "test_depth");
    assert_eq!(depth.node_type(), "StereoDepth");
}

#[test]
fn test_depth_configuration() {
    let config = DepthConfig {
        preset: Some(DepthPreset::HighAccuracy),
        left_right_check: false,
        subpixel: true,
        extended_disparity: true,
        median_filter: Some(MedianFilter::Kernel5x5),
    };

    let depth = Depth::with_config("test_depth", config);
    assert_eq!(depth.config().left_right_check, false);
    assert_eq!(depth.config().subpixel, true);
    assert_eq!(depth.config().extended_disparity, true);
}

#[test]
fn xlink_out_error_text_and_success() {
    let mut empty = XLinkOut::new("o", "");
    match empty.configure() {
        Err(DaiError::InvalidConfiguration(m)) => assert_eq!(m, "XLinkOut stream name is required"),
        other => panic!("unexpected {:?}", other),
    }
    let mut named = XLinkOut::new("o", "video");
    assert!(named.configure().is_ok());
    assert!(named.outputs().is_empty());
}

#[test]
fn xlink_out_setters_and_input_binding() {
    let mut xlink = XLinkOut::new("o", "a");
    xlink.set_stream_name("b");
    xlink.set_metadata_only(true);
    assert_eq!(xlink.stream_name(), "b");
    assert!(xlink.config().metadata_only);
    assert!(xlink.inputs().is_empty());
    assert_eq!(xlink.request_input("frames").unwrap(), "frames");
    assert_eq!(xlink.inputs(), vec!["frames".to_string()]);
    assert_eq!(xlink.request_input("other").unwrap(), "other");
    assert_eq!(xlink.inputs(), vec!["other".to_string()]);
}

#[test]
fn xlink_in_configures_once() {
    let mut xin = XLinkIn::new("in");
    assert_eq!(xin.config.stream_name, "input");
    assert_eq!(xin.config.num_frames, Some(8));
    assert!(xin.configure().is_ok());
    assert!(matches!(xin.configure(), Err(DaiError::AlreadyInitialized)));
    assert_eq!(xin.node_type(), "XLinkIn");
    assert!(xin.inputs().is_empty());
    assert_eq!(xin.outputs(), vec!["out".to_string()]);
}

#[test]
fn xlink_in_chained_setters() {
    let mut xin = XLinkIn::with_config(
        "in",
        XLinkInConfig { stream_name: "s".to_string(), max_data_size: None, num_frames: None },
    );
    xin.set_stream_name("control").set_max_data_size(1024).set_num_frames(4);
    assert_eq!(xin.config.stream_name, "control");
    assert_eq!(xin.config.max_data_size, Some(1024));
    assert_eq!(xin.config.num_frames, Some(4));
    assert_eq!(xin.id(), "in");
}

#[test]
fn depth_ports_in_order() {
    let mut depth = Depth::new("d");
    assert!(depth.inputs().is_empty());
    assert!(depth.outputs().is_empty());
    assert_eq!(depth.request_right_input("right_cam").unwrap(), "right_cam");
    assert_eq!(depth.request_left_input("left_cam").unwrap(), "left_cam");
    assert_eq!(depth.inputs(), vec!["left_cam".to_string(), "right_cam".to_string()]);
    depth.request_left_input("left2").unwrap();
    assert_eq!(depth.inputs(), vec!["left2".to_string(), "right_cam".to_string()]);
    depth.request_rectified_right_output("rr").unwrap();
    depth.request_depth_output("dd").unwrap();
    depth.request_disparity_output("disp").unwrap();
    depth.request_rectified_left_output("rl").unwrap();
    assert_eq!(
        depth.outputs(),
        vec!["dd".to_string(), "disp".to_string(), "rl".to_string(), "rr".to_string()]
    );
    assert!(depth.configure().is_ok());
}

#[test]
fn depth_setters() {
    let mut depth = Depth::new("d");
    assert_eq!(depth.config().preset, None);
    depth.set_preset(DepthPreset::MediumDensity);
    depth.set_left_right_check(true);
    depth.set_subpixel(true);
    depth.set_extended_disparity(true);
    depth.set_median_filter(MedianFilter::Kernel7x7);
    let c = depth.config();
    assert_eq!(c.preset, Some(DepthPreset::MediumDensity));
    assert!(c.left_right_check && c.subpixel && c.extended_disparity);
    assert_eq!(c.median_filter, Some(MedianFilter::Kernel7x7));
}

#[test]
fn builder_collects_nodes_and_links() {
    let builder = PipelineBuilder::new()
        .add_stereo_depth()
        .preset(DepthPreset::HighDensity)
        .left_right_check(true)
        .subpixel(true)
        .median_filter(MedianFilter::Kernel3x3)
        .finish()
        .add_output("video")
        .metadata_only(true)
        .finish()
        .add_input("control")
        .max_data_size(4096)
        .num_frames(300)
        .id("ctl")
        .finish()
        .connect("stereo_depth", "depth", "output_video", "in")
        .connect("ctl", "out", "stereo_depth", "inputConfig");

    assert_eq!(builder.depth_nodes().len(), 1);
    let (id, depth) = &builder.depth_nodes()[0];
    assert_eq!(id, "stereo_depth");
    assert_eq!(depth.id(), "stereo_depth");
    assert_eq!(depth.config().preset, Some(DepthPreset::HighDensity));
    assert_eq!(depth.config().median_filter, Some(MedianFilter::Kernel3x3));

    assert_eq!(builder.output_nodes().len(), 1);
    let (id, out) = &builder.output_nodes()[0];
    assert_eq!(id, "output_video");
    assert_eq!(out.stream_name(), "video");
    assert!(out.config().metadata_only);

    assert_eq!(builder.input_nodes().len(), 1);
    let (id, input) = &builder.input_nodes()[0];
    assert_eq!(id, "ctl");
    assert_eq!(input.config.stream_name, "control");
    assert_eq!(input.config.max_data_size, Some(4096));
    assert_eq!(input.config.num_frames, Some(44));

    let links = builder.connections();
    assert_eq!(links.len(), 2);
    assert_eq!(links[0].from_node, "stereo_depth");
    assert_eq!(links[0].to_port, "in");
    assert_eq!(links[1].from_node, "ctl");
    assert_eq!(links[1].to_port, "inputConfig");
}

#[test]
fn builder_default_is_empty() {
    let b = PipelineBuilder::default();
    assert!(b.depth_nodes().is_empty());
    assert!(b.output_nodes().is_empty());
    assert!(b.input_nodes().is_empty());
    assert!(b.connections().is_empty());
    let b = b.add_input("x").finish();
    assert_eq!(b.input_nodes()[0].0, "input_x");
    assert_eq!(b.input_nodes()[0].1.config.num_frames, Some(8));
}

#[test]
fn c_names_without_nul_pass() {
    assert!(is_c_compatible("video"));
    assert!(is_c_compatible(""));
    assert!(!is_c_compatible("vi\0deo"));
    assert!(check_c_name(None, "invalid in_name", None).is_ok());
    assert!(check_c_name(Some("in"), "invalid in_name", None).is_ok());
    let e = check_c_name(Some("i\0n"), "invalid in_name", None).unwrap_err();
    assert_eq!(e.to_string(), "invalid in_name");
    let e = check_c_name(Some("\0"), "invalid message name", Some("native says no".to_string())).unwrap_err();
    assert_eq!(e.to_string(), "native says no");
    let e = check_c_name(Some("\0"), "invalid message name", Some(String::new())).unwrap_err();
    assert_eq!(e.to_string(), "invalid message name");
}

#[test]
fn link_names_checked_in_order() {
    assert!(check_link_names(Some("g"), Some("out"), None, Some("in"), None).is_ok());
    assert!(check_link_names(None, None, None, None, None).is_ok());
    let e = check_link_names(Some("g\0"), Some("out"), None, Some("i\0n"), None).unwrap_err();
    assert_eq!(e.to_string(), "invalid in_name");
    let e = check_link_names(Some("g\0"), Some("o\0"), Some("\0"), Some("i\0n"), None).unwrap_err();
    assert_eq!(e.to_string(), "invalid out_name");
    let e = check_link_names(Some("g"), None, Some("\0"), None, None).unwrap_err();
    assert_eq!(e.to_string(), "invalid in_group");
    let e = check_link_names(Some("\0"), None, Some("\0"), None, None).unwrap_err();
    assert_eq!(e.to_string(), "invalid out_group");
}
