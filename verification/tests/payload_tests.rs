use lib::encoded_frame::{
    describe_encoded_frame, frame_payload, validate_nv12_dimensions, EncodedFrameProfile,
    EncodedFrameType,
};
use lib::error::{last_error, take_error_if_any, DepthaiError};
use lib::pointcloud::{clamp_dimension, rgba32_from_rgba};
use lib::queue::{timeout_ms, DatatypeEnum};
use lib::video_encoder::{
    decode_encoder_profile, decode_rate_control_mode, VideoEncoderProfile,
    VideoEncoderRateControlMode,
};

#[test]
fn payload_selection() {
    let all = [1u8, 2, 3, 4, 5, 6];
    assert_eq!(frame_payload(&all, 2, 3), vec![3, 4, 5]);
    assert_eq!(frame_payload(&all, 0, 6), all.to_vec());
    // size zero or a range past the end falls back to the whole buffer
    assert_eq!(frame_payload(&all, 2, 0), all.to_vec());
    assert_eq!(frame_payload(&all, 4, 3), all.to_vec());
    assert_eq!(frame_payload(&all, 7, 1), all.to_vec());
    assert_eq!(frame_payload(&all, usize::MAX, 2), all.to_vec());
    assert_eq!(frame_payload(&[], 0, 0), Vec::<u8>::new());
    assert_eq!(frame_payload(&all, 6, 1), all.to_vec());
    assert_eq!(frame_payload(&all, 5, 1), vec![6]);
}

#[test]
fn encoded_frame_codes() {
    assert_eq!(EncodedFrameProfile::from_raw(0), Some(EncodedFrameProfile::Jpeg));
    assert_eq!(EncodedFrameProfile::from_raw(2), Some(EncodedFrameProfile::Hevc));
    assert_eq!(EncodedFrameProfile::from_raw(3), None);
    assert_eq!(EncodedFrameProfile::from_raw(-1), None);
    assert_eq!(EncodedFrameType::from_raw(1), Some(EncodedFrameType::P));
    assert_eq!(EncodedFrameType::from_raw(3), Some(EncodedFrameType::Unknown));
    assert_eq!(EncodedFrameType::from_raw(4), None);
}

#[test]
fn encoded_frame_description() {
    assert_eq!(
        describe_encoded_frame(1920, 1080, Some(EncodedFrameProfile::Hevc), Some(EncodedFrameType::P), 4096),
        "1920x1080 Hevc P (4096 bytes)"
    );
    assert_eq!(describe_encoded_frame(0, 7, None, None, 0), "0x7 unknown unknown (0 bytes)");
    assert_eq!(
        describe_encoded_frame(640, 400, Some(EncodedFrameProfile::Jpeg), Some(EncodedFrameType::Unknown), 12),
        "640x400 Jpeg Unknown (12 bytes)"
    );
}

#[test]
fn nv12_sizes() {
    assert!(validate_nv12_dimensions(640, 400, None).is_ok());
    assert!(validate_nv12_dimensions(0, 0, None).is_ok());
    let e = validate_nv12_dimensions(641, 400, None).unwrap_err();
    assert_eq!(e.to_string(), "NV12 frames must have even width and height");
    assert!(validate_nv12_dimensions(640, 3, None).is_err());
    let e = validate_nv12_dimensions(3, 4, Some("native failure".to_string())).unwrap_err();
    assert_eq!(e.to_string(), "native failure");
}

#[test]
fn error_reporting_rules() {
    assert_eq!(last_error("ctx", None).to_string(), "ctx");
    assert_eq!(last_error("ctx", Some(String::new())).to_string(), "ctx");
    assert_eq!(last_error("ctx", Some("boom".to_string())).to_string(), "boom");
    assert!(take_error_if_any("ctx", None).is_none());
    assert_eq!(take_error_if_any("ctx", Some(String::new())).unwrap().to_string(), "ctx");
    assert_eq!(take_error_if_any("ctx", Some("bad".to_string())).unwrap().to_string(), "bad");
    assert_eq!(DepthaiError::new("m").clone().to_string(), "m");
}

#[test]
fn color_packing() {
    assert_eq!(rgba32_from_rgba(0x12, 0x34, 0x56, 0x78), 0x12345678);
    assert_eq!(rgba32_from_rgba(255, 0, 0, 255), 0xFF0000FF);
    assert_eq!(rgba32_from_rgba(0, 0, 0, 0), 0);
    let c = rgba32_from_rgba(1, 2, 3, 4);
    assert_eq!(((c >> 24) as u8, (c >> 16) as u8, (c >> 8) as u8, c as u8), (1, 2, 3, 4));
}

#[test]
fn datatype_codes() {
    assert_eq!(DatatypeEnum::from_raw(0), Some(DatatypeEnum::ADatatype));
    assert_eq!(DatatypeEnum::from_raw(2), Some(DatatypeEnum::ImgFrame));
    assert_eq!(DatatypeEnum::from_raw(29), Some(DatatypeEnum::RGBDData));
    assert_eq!(DatatypeEnum::from_raw(38), Some(DatatypeEnum::CoverageData));
    assert_eq!(DatatypeEnum::from_raw(39), None);
    assert_eq!(DatatypeEnum::from_raw(-5), None);
}

#[test]
fn encoder_codes() {
    assert_eq!(VideoEncoderRateControlMode::from_raw(1), Some(VideoEncoderRateControlMode::Vbr));
    assert_eq!(VideoEncoderRateControlMode::from_raw(2), None);
    assert_eq!(VideoEncoderProfile::from_raw(4), Some(VideoEncoderProfile::Mjpeg));
    assert_eq!(VideoEncoderProfile::from_raw(5), None);
    assert_eq!(decode_rate_control_mode(1), VideoEncoderRateControlMode::Vbr);
    assert_eq!(decode_rate_control_mode(9), VideoEncoderRateControlMode::Cbr);
    assert_eq!(decode_encoder_profile(3), VideoEncoderProfile::H265Main);
    assert_eq!(decode_encoder_profile(-1), VideoEncoderProfile::H264Baseline);
}

#[test]
fn queue_timeouts() {
    assert_eq!(timeout_ms(None), -1);
    assert_eq!(timeout_ms(Some(0)), 0);
    assert_eq!(timeout_ms(Some(1500)), 1500);
    assert_eq!(timeout_ms(Some(i32::MAX as u128)), i32::MAX);
    assert_eq!(timeout_ms(Some(1u128 << 31)), i32::MIN);
    assert_eq!(timeout_ms(Some((1u128 << 32) + 7)), 7);
}

#[test]
fn pointcloud_dimensions() {
    assert_eq!(clamp_dimension(-5), 0);
    assert_eq!(clamp_dimension(0), 0);
    assert_eq!(clamp_dimension(640), 640);
    assert_eq!(clamp_dimension(i32::MAX), i32::MAX as u32);
}

#[test]
fn message_kinds_have_distinct_codes() {
    let kinds: Vec<DatatypeEnum> = (0..39).map(|c| DatatypeEnum::from_raw(c).unwrap()).collect();
    for i in 0..kinds.len() {
        for j in 0..kinds.len() {
            assert_eq!(kinds[i] == kinds[j], i == j);
        }
    }
}
