use lib::common::CameraBoardSocket as BoardSocket;
use lib::error::DaiError;
use lib::pipeline::builder::PipelineBuilder;
use lib::pipeline::nodes::depth::{DepthPreset, MedianFilter};
use lib::pipeline::nodes::camera::{Camera, CameraBoardSocket, CameraConfig, CameraResolution, ColorOrder};
use lib::pipeline::nodes::manip::{ImageManip, ImageManipConfig, ResizeMode};
use lib::pipeline::nodes::mono_camera::{MonoCamera, MonoCameraConfig, MonoCameraResolution, FPS_30_BITS};
use lib::pipeline::nodes::neural_network::{NeuralNetwork, NeuralNetworkConfig};
use lib::pipeline::PipelineNode;

#[test]
fn test_pipeline_builder() {
    let builder = PipelineBuilder::new()
        .add_camera(CameraBoardSocket::Rgb)
        .resolution(CameraResolution::The1080P)
        .fps(30.0f32.to_bits())
        .finish()
        .add_output("video")
        .finish();

    // Builder should be constructible
    assert_eq!(builder.cameras().len(), 1);
    assert_eq!(builder.output_nodes().len(), 1);
}

#[test]
fn test_complex_pipeline() {
    let builder = PipelineBuilder::new()
        .add_camera(CameraBoardSocket::Rgb)
        .resolution(CameraResolution::The1080P)
        .id("main_camera")
        .finish()
        .add_neural_network("model.blob")
        .input_size(416, 416)
        .confidence_threshold(0.5f32.to_bits())
        .id("detector")
        .finish()
        .add_image_manip()
        .resize(416, 416, ResizeMode::Letterbox)
        .id("preprocessor")
        .finish()
        .connect("main_camera", "video", "preprocessor", "inputImage")
        .connect("preprocessor", "out", "detector", "input");

    assert_eq!(builder.cameras().len(), 1);
    assert_eq!(builder.neural_networks().len(), 1);
    assert_eq!(builder.manip_nodes().len(), 1);
    assert_eq!(builder.connections().len(), 2);
}

#[test]
fn test_mono_camera_creation() {
    let camera = MonoCamera::new("test_mono_camera");
    assert_eq!(camera.id(), "test_mono_camera");
    assert_eq!(camera.node_type(), "MonoCamera");
}

#[test]
fn test_mono_camera_configuration() {
    let config = MonoCameraConfig {
        board_socket: Some(BoardSocket::Auto),
        resolution: MonoCameraResolution::The800P,
        fps_bits: 60.0f32.to_bits(),
    };

    let camera = MonoCamera::with_config("test_mono_camera", config);
    assert_eq!(f32::from_bits(camera.config().fps_bits), 60.0);
    assert_eq!(camera.config().resolution.dimensions(), (1280, 800));
}

#[test]
fn test_neural_network_creation() {
    let nn = NeuralNetwork::new("test_nn", "test.blob");
    assert_eq!(nn.id(), "test_nn");
    assert_eq!(nn.node_type(), "NeuralNetwork");
    assert_eq!(nn.config().blob_path, "test.blob");
}

#[test]
fn test_neural_network_configuration() {
    let config = NeuralNetworkConfig {
        blob_path: "test.blob".to_string(),
        num_threads: Some(4),
        num_nce_per_thread: Some(2),
        input_size: Some((416, 416)),
        confidence_threshold_bits: Some(0.5f32.to_bits()),
    };

    let nn = NeuralNetwork::with_config("test_nn", config);
    assert_eq!(nn.config().num_threads, Some(4));
    assert_eq!(nn.config().input_size, Some((416, 416)));
    assert_eq!(nn.config().confidence_threshold_bits.map(f32::from_bits), Some(0.5));
}

#[test]
fn builder_identifiers_and_settings() {
    let b = PipelineBuilder::new()
        .add_camera(CameraBoardSocket::Left)
        .preview_size(300, 300)
        .color_order(ColorOrder::RGB)
        .finish()
        .add_mono_camera(BoardSocket::CamB)
        .resolution(MonoCameraResolution::The400P)
        .fps(15.0f32.to_bits())
        .finish()
        .add_mono_camera(BoardSocket::CamC)
        .id("right")
        .finish()
        .add_neural_network("net.blob")
        .num_threads(2)
        .finish()
        .add_image_manip()
        .crop(0.1f32.to_bits(), 0.2f32.to_bits(), 0.9f32.to_bits(), 0.8f32.to_bits())
        .finish();

    let (id, cam) = &b.cameras()[0];
    assert_eq!(id, "camera_Left");
    assert_eq!(cam.config.board_socket, Some(CameraBoardSocket::Left));
    assert_eq!(cam.config.preview_size, Some((300, 300)));
    assert_eq!(cam.config.color_order, Some(ColorOrder::RGB));
    assert_eq!(cam.config.resolution, CameraResolution::The1080P);
    assert_eq!(cam.config.fps_bits, 0);

    assert_eq!(b.mono_cameras().len(), 2);
    let (id, mono) = &b.mono_cameras()[0];
    assert_eq!(id, "mono_camera_CamB");
    assert_eq!(mono.config().board_socket, Some(BoardSocket::CamB));
    assert_eq!(mono.config().resolution, MonoCameraResolution::The400P);
    assert_eq!(f32::from_bits(mono.config().fps_bits), 15.0);
    assert_eq!(b.mono_cameras()[1].0, "right");
    assert_eq!(b.mono_cameras()[1].1.id(), "right");
    assert_eq!(b.mono_cameras()[1].1.config().fps_bits, FPS_30_BITS);

    let (id, nn) = &b.neural_networks()[0];
    assert_eq!(id, "neural_network");
    assert_eq!(nn.config().blob_path, "net.blob");
    assert_eq!(nn.config().num_threads, Some(2));

    let (id, manip) = &b.manip_nodes()[0];
    assert_eq!(id, "image_manip");
    let crop = manip.get_crop_config().unwrap();
    assert_eq!(f32::from_bits(crop.x_min_bits), 0.1);
    assert_eq!(f32::from_bits(crop.y_max_bits), 0.8);
    assert!(manip.get_resize_config().is_none());
    assert!(b.connections().is_empty());
}

#[test]
fn default_frame_rate_bits_are_thirty() {
    assert_eq!(f32::from_bits(FPS_30_BITS), 30.0);
    let c = MonoCameraConfig::default();
    assert_eq!(c.board_socket, Some(BoardSocket::CamA));
    assert_eq!(c.resolution, MonoCameraResolution::The720P);
    assert_eq!(c.fps_bits, FPS_30_BITS);
}

#[test]
fn camera_node_configures_once() {
    let mut cam = Camera::new("cam");
    assert_eq!(cam.config.resolution, CameraResolution::The1080P);
    assert_eq!(cam.config.board_socket, None);
    cam.set_board_socket(CameraBoardSocket::Right)
        .set_resolution(CameraResolution::The4K)
        .set_fps(60.0f32.to_bits());
    assert_eq!(cam.config.board_socket, Some(CameraBoardSocket::Right));
    assert_eq!(cam.config.resolution, CameraResolution::The4K);
    assert_eq!(f32::from_bits(cam.config.fps_bits), 60.0);
    assert!(cam.configure().is_ok());
    assert!(matches!(cam.configure(), Err(DaiError::AlreadyInitialized)));
    assert_eq!(cam.inputs(), vec!["inputControl".to_string()]);
    assert_eq!(cam.outputs(), vec!["video".to_string(), "still".to_string(), "isp".to_string()]);
    let c = Camera::with_config("c2", CameraConfig::default());
    assert_eq!(c.node_type(), "Camera");
}

#[test]
fn mono_camera_output_binding() {
    let mut mono = MonoCamera::new("m");
    assert!(mono.outputs().is_empty());
    assert_eq!(mono.request_output("left").unwrap(), "left");
    assert_eq!(mono.outputs(), vec!["left".to_string()]);
    mono.set_board_socket(BoardSocket::CamB);
    mono.set_resolution(MonoCameraResolution::The480P);
    mono.set_fps(20.0f32.to_bits());
    assert_eq!(mono.config().board_socket, Some(BoardSocket::CamB));
    assert_eq!(mono.config().resolution, MonoCameraResolution::The480P);
    assert!(mono.configure().is_ok());
    assert!(mono.inputs().is_empty());
}

#[test]
fn neural_network_blob_checks() {
    let mut missing = NeuralNetwork::new("nn", "");
    match missing.configure() {
        Err(DaiError::InvalidConfiguration(m)) => assert_eq!(m, "Neural network blob path is required"),
        other => panic!("unexpected {:?}", other),
    }
    let mut nn = NeuralNetwork::new("nn", "nonexistent.blob");
    match nn.set_blob_path("nonexistent.blob") {
        Err(DaiError::FileNotFound(m)) => assert_eq!(m, "Blob file not found: nonexistent.blob"),
        other => panic!("unexpected {:?}", other),
    }
    match nn.configure() {
        Err(DaiError::FileNotFound(m)) => assert_eq!(m, "Blob file not found: nonexistent.blob"),
        other => panic!("unexpected {:?}", other),
    }
    assert!(nn.set_blob_path(".").is_ok());
    assert_eq!(nn.config().blob_path, ".");
    assert!(nn.configure().is_ok());
    assert!(nn.set_blob_path_checked("model.blob", true).is_ok());
    assert_eq!(nn.config().blob_path, "model.blob");
    assert!(nn.set_blob_path_checked("gone.blob", false).is_err());
    assert_eq!(nn.config().blob_path, "model.blob");
    let mut fresh = NeuralNetwork::new("n2", "model.blob");
    assert!(fresh.configure_checked(true).is_ok());
    let mut absent = NeuralNetwork::new("n3", "model.blob");
    assert!(matches!(absent.configure_checked(false), Err(DaiError::FileNotFound(_))));
}

#[test]
fn neural_network_ports_and_settings() {
    let mut nn = NeuralNetwork::new("nn", "m.blob");
    nn.set_num_threads(2);
    nn.set_num_nce_per_thread(1);
    nn.set_input_size(300, 300);
    nn.set_confidence_threshold(0.25f32.to_bits());
    assert_eq!(nn.config().num_threads, Some(2));
    assert_eq!(nn.config().num_nce_per_thread, Some(1));
    assert_eq!(nn.config().input_size, Some((300, 300)));
    assert_eq!(nn.config().confidence_threshold_bits, Some(0.25f32.to_bits()));
    assert_eq!(nn.request_passthrough("pass").unwrap(), "pass");
    assert_eq!(nn.request_output("det").unwrap(), "det");
    assert_eq!(nn.request_input("frames").unwrap(), "frames");
    assert_eq!(nn.inputs(), vec!["frames".to_string()]);
    assert_eq!(nn.outputs(), vec!["det".to_string(), "pass".to_string()]);
}

#[test]
fn image_manip_settings() {
    let mut m = ImageManip::new();
    assert_eq!(m.id(), "image_manip");
    assert_eq!(m.node_type(), "ImageManip");
    m.set_resize(640, 360, ResizeMode::Stretch)
        .set_keep_aspect_ratio(false)
        .set_interpolation(3);
    let r = m.get_resize_config().unwrap();
    assert_eq!((r.width, r.height, r.mode, r.keep_aspect_ratio), (640, 360, ResizeMode::Stretch, true));
    assert!(m.get_crop_config().is_none());
    assert!(m.configure().is_ok());
    assert!(m.configure().is_ok());
    let d = ImageManip::default();
    assert!(d.get_resize_config().is_none());
    let c = ImageManipConfig::default();
    assert_eq!(c.keep_aspect_ratio, Some(true));
    assert_eq!(c.interpolation, None);
}

#[test]
fn depth_settings_chain_order_and_override() {
    let a = PipelineBuilder::new()
        .add_stereo_depth()
        .preset(DepthPreset::HighAccuracy)
        .subpixel(true)
        .median_filter(MedianFilter::Kernel3x3)
        .preset(DepthPreset::MediumDensity)
        .id("first")
        .id("depth")
        .finish();
    let b = PipelineBuilder::new()
        .add_stereo_depth()
        .median_filter(MedianFilter::Kernel3x3)
        .preset(DepthPreset::MediumDensity)
        .subpixel(true)
        .id("depth")
        .finish();
    let (ida, da) = &a.depth_nodes()[0];
    let (idb, db) = &b.depth_nodes()[0];
    assert_eq!(ida, "depth");
    assert_eq!(ida, idb);
    let (ca, cb) = (da.config(), db.config());
    assert_eq!(ca.preset, Some(DepthPreset::MediumDensity));
    assert_eq!(
        (ca.preset, ca.median_filter, ca.left_right_check, ca.extended_disparity, ca.subpixel),
        (cb.preset, cb.median_filter, cb.left_right_check, cb.extended_disparity, cb.subpixel)
    );
    assert!(a.cameras().is_empty() && a.connections().is_empty());
}
