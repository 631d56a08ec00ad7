//! Message kinds that travel through the device pipeline's queues, and how a
//! wait on a queue is expressed to the native layer.

use vstd::prelude::*;

verus! {

/// Kind of a pipeline message, as the native library numbers them.
#[derive(Debug, Clone, Copy, PartialEq, Eq, Structural)]
#[allow(non_camel_case_types)]
pub enum DatatypeEnum {
    ADatatype,
    Buffer,
    ImgFrame,
    EncodedFrame,
    NNData,
    ImageManipConfig,
    CameraControl,
    ImgDetections,
    SpatialImgDetections,
    SystemInformation,
    SystemInformationS3,
    SpatialLocationCalculatorConfig,
    SpatialLocationCalculatorData,
    EdgeDetectorConfig,
    AprilTagConfig,
    AprilTags,
    Tracklets,
    IMUData,
    StereoDepthConfig,
    NeuralDepthConfig,
    FeatureTrackerConfig,
    ThermalConfig,
    ToFConfig,
    TrackedFeatures,
    BenchmarkReport,
    MessageGroup,
    TransformData,
    PointCloudConfig,
    PointCloudData,
    RGBDData,
    ImageAlignConfig,
    ImgAnnotations,
    ImageFiltersConfig,
    ToFDepthConfidenceFilterConfig,
    ObjectTrackerConfig,
    DynamicCalibrationControl,
    DynamicCalibrationResult,
    CalibrationQuality,
    CoverageData,
}

/// Native number of each message kind.
pub open spec fn datatype_code(d: DatatypeEnum) -> i32 {
    match d {
        DatatypeEnum::ADatatype => 0,
        DatatypeEnum::Buffer => 1,
        DatatypeEnum::ImgFrame => 2,
        DatatypeEnum::EncodedFrame => 3,
        DatatypeEnum::NNData => 4,
        DatatypeEnum::ImageManipConfig => 5,
        DatatypeEnum::CameraControl => 6,
        DatatypeEnum::ImgDetections => 7,
        DatatypeEnum::SpatialImgDetections => 8,
        DatatypeEnum::SystemInformation => 9,
        DatatypeEnum::SystemInformationS3 => 10,
        DatatypeEnum::SpatialLocationCalculatorConfig => 11,
        DatatypeEnum::SpatialLocationCalculatorData => 12,
        DatatypeEnum::EdgeDetectorConfig => 13,
        DatatypeEnum::AprilTagConfig => 14,
        DatatypeEnum::AprilTags => 15,
        DatatypeEnum::Tracklets => 16,
        DatatypeEnum::IMUData => 17,
        DatatypeEnum::StereoDepthConfig => 18,
        DatatypeEnum::NeuralDepthConfig => 19,
        DatatypeEnum::FeatureTrackerConfig => 20,
        DatatypeEnum::ThermalConfig => 21,
        DatatypeEnum::ToFConfig => 22,
        DatatypeEnum::TrackedFeatures => 23,
        DatatypeEnum::BenchmarkReport => 24,
        DatatypeEnum::MessageGroup => 25,
        DatatypeEnum::TransformData => 26,
        DatatypeEnum::PointCloudConfig => 27,
        DatatypeEnum::PointCloudData => 28,
        DatatypeEnum::RGBDData => 29,
        DatatypeEnum::ImageAlignConfig => 30,
        DatatypeEnum::ImgAnnotations => 31,
        DatatypeEnum::ImageFiltersConfig => 32,
        DatatypeEnum::ToFDepthConfidenceFilterConfig => 33,
        DatatypeEnum::ObjectTrackerConfig => 34,
        DatatypeEnum::DynamicCalibrationControl => 35,
        DatatypeEnum::DynamicCalibrationResult => 36,
        DatatypeEnum::CalibrationQuality => 37,
        DatatypeEnum::CoverageData => 38,
    }
}

impl DatatypeEnum {
    /// Message kind for a native number; `None` for a number that names no kind.
    pub fn from_raw(value: i32) -> (r: Option<Self>)
        ensures
            r is Some <==> 0 <= value <= 38,
            r matches Some(d) ==> datatype_code(d) == value,
    {
        match value {
            0 => Some(Self::ADatatype),
            1 => Some(Self::Buffer),
            2 => Some(Self::ImgFrame),
            3 => Some(Self::EncodedFrame),
            4 => Some(Self::NNData),
            5 => Some(Self::ImageManipConfig),
            6 => Some(Self::CameraControl),
            7 => Some(Self::ImgDetections),
            8 => Some(Self::SpatialImgDetections),
            9 => Some(Self::SystemInformation),
            10 => Some(Self::SystemInformationS3),
            11 => Some(Self::SpatialLocationCalculatorConfig),
            12 => Some(Self::SpatialLocationCalculatorData),
            13 => Some(Self::EdgeDetectorConfig),
            14 => Some(Self::AprilTagConfig),
            15 => Some(Self::AprilTags),
            16 => Some(Self::Tracklets),
            17 => Some(Self::IMUData),
            18 => Some(Self::StereoDepthConfig),
            19 => Some(Self::NeuralDepthConfig),
            20 => Some(Self::FeatureTrackerConfig),
            21 => Some(Self::ThermalConfig),
            22 => Some(Self::ToFConfig),
            23 => Some(Self::TrackedFeatures),
            24 => Some(Self::BenchmarkReport),
            25 => Some(Self::MessageGroup),
            26 => Some(Self::TransformData),
            27 => Some(Self::PointCloudConfig),
            28 => Some(Self::PointCloudData),
            29 => Some(Self::RGBDData),
            30 => Some(Self::ImageAlignConfig),
            31 => Some(Self::ImgAnnotations),
            32 => Some(Self::ImageFiltersConfig),
            33 => Some(Self::ToFDepthConfidenceFilterConfig),
            34 => Some(Self::ObjectTrackerConfig),
            35 => Some(Self::DynamicCalibrationControl),
            36 => Some(Self::DynamicCalibrationResult),
            37 => Some(Self::CalibrationQuality),
            38 => Some(Self::CoverageData),
            _ => None,
        }
    }
}

/// Distinct message kinds have distinct native numbers, so the kind that
/// `from_raw` gives for a number is the only one with that number.
pub proof fn lemma_datatype_code_injective(a: DatatypeEnum, b: DatatypeEnum)
    ensures
        datatype_code(a) == datatype_code(b) ==> a == b,
{
}

/// Native timeout of a blocking queue read: -1 (wait without limit) when no
/// timeout is given, else the number of whole milliseconds cut to its low 32
/// bits as a signed number.
pub fn timeout_ms(timeout_millis: Option<u128>) -> (r: i32)
    ensures
        timeout_millis is None ==> r == -1,
        timeout_millis matches Some(ms) ==> r == ms as i32,
        timeout_millis matches Some(ms) ==> (ms <= i32::MAX ==> r == ms),
{
    match timeout_millis {
        Some(ms) => {
            let t: i32 = ms as i32;
            assert(ms <= i32::MAX ==> t == ms) by (bit_vector)
                requires
                    t == ms as i32,
            ;
            t
        },
        None => -1,
    }
}

} // verus!
