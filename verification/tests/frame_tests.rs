use lib::frame::{noise_from_hashes, Frame, TestPattern};

#[test]
fn dummy_frame_is_black_vga() {
    let f = Frame::dummy();
    assert_eq!((f.width, f.height, f.frame_id), (640, 480, 0));
    assert_eq!(f.data.len(), 640 * 480);
    assert!(f.data.iter().all(|&b| b == 0));
}

#[test]
fn frame_with_data_and_id() {
    let f = Frame::new_with_data(2, 1, vec![7, 9]).with_frame_id(42);
    assert_eq!(f.data, vec![7, 9]);
    assert_eq!((f.width, f.height, f.frame_id), (2, 1, 42));
}

#[test]
fn gradient_pattern_values() {
    let f = Frame::test_pattern(300, 2, TestPattern::Gradient);
    assert_eq!(f.data.len(), 600);
    assert_eq!(f.data[0], 0);
    assert_eq!(f.data[5], 5);
    assert_eq!(f.data[255], 255);
    assert_eq!(f.data[256], 0);
    assert_eq!(f.data[299], (299 % 256) as u8);
    // second row starts one step ahead
    assert_eq!(f.data[300], 1);
    assert_eq!(f.data[301], 2);
}

#[test]
fn checkerboard_pattern_values() {
    let f = Frame::test_pattern(64, 64, TestPattern::Checkerboard);
    assert_eq!(f.data.len(), 64 * 64);
    assert_eq!(f.data[0], 255);
    assert_eq!(f.data[31], 255);
    assert_eq!(f.data[32], 0);
    assert_eq!(f.data[32 * 64], 0);
    assert_eq!(f.data[32 * 64 + 32], 255);
}

#[test]
fn noise_pattern_shape_and_repeatability() {
    let a = Frame::test_pattern(10, 3, TestPattern::Noise);
    let b = Frame::test_pattern(10, 3, TestPattern::Noise);
    assert_eq!(a.data.len(), 30);
    assert_eq!(a.data, b.data);
    assert_eq!(noise_from_hashes(&vec![0x1234, 255, 256, u64::MAX]), vec![0x34, 255, 0, 255]);
}

#[test]
fn empty_patterns() {
    assert!(Frame::test_pattern(0, 5, TestPattern::Gradient).data.is_empty());
    assert!(Frame::test_pattern(5, 0, TestPattern::Checkerboard).data.is_empty());
    assert!(Frame::test_pattern(0, 0, TestPattern::Noise).data.is_empty());
}

#[test]
fn frame_id_keeps_timestamp_and_data() {
    let f = Frame::test_pattern(4, 3, TestPattern::Gradient);
    let t = f.timestamp;
    let g = f.with_frame_id(42);
    assert_eq!(g.timestamp, t);
    assert_eq!(g.frame_id, 42);
    assert_eq!((g.width, g.height, g.data.len()), (4, 3, 12));
}

#[test]
fn fixed_patterns_depend_only_on_inputs() {
    for &(w, h) in &[(0usize, 5usize), (5, 0), (33, 40), (70, 2)] {
        let a = Frame::test_pattern(w, h, TestPattern::Checkerboard);
        let b = Frame::test_pattern(w, h, TestPattern::Checkerboard);
        assert_eq!(a.data, b.data);
        assert_eq!(a.data.len(), w * h);
        let c = Frame::test_pattern(w, h, TestPattern::Gradient);
        let d = Frame::test_pattern(w, h, TestPattern::Gradient);
        assert_eq!(c.data, d.data);
        assert_eq!(c.frame_id, 0);
    }
}
