//! Enumerations and descriptors shared across the API: camera sockets, sensor
//! types, image orientations, camera models, USB speeds, firmware versions and
//! the host-side device record.
//!
//! Each enumeration maps one-to-one onto the numbers the native library uses
//! for it; `to_c` gives that number and `from_c` recovers the variant.

use vstd::prelude::*;
use vstd::string::*;
use crate::text::{decimal, has_substring, lowercase, push_decimal, str_contains, to_lowercase};

verus! {

// ---------------------------------------------------------------------------
// Camera board socket
// ---------------------------------------------------------------------------

/// Camera board socket.
///
/// `Auto` lets the device choose; `CamA` is the RGB or centre camera, `CamB` the
/// left, `CamC` the right, `CamD` the top, `CamE` the bottom, `CamF` the depth,
/// `CamG` the IR and `CamH` the ultra wide camera.
#[derive(Debug, Clone, Copy, PartialEq, Eq, Structural, Hash)]
pub enum CameraBoardSocket {
    Auto,
    CamA,
    CamB,
    CamC,
    CamD,
    CamE,
    CamF,
    CamG,
    CamH,
}

/// Native number of a socket.
pub open spec fn socket_code(s: CameraBoardSocket) -> u32 {
    match s {
        CameraBoardSocket::Auto => 0,
        CameraBoardSocket::CamA => 1,
        CameraBoardSocket::CamB => 2,
        CameraBoardSocket::CamC => 3,
        CameraBoardSocket::CamD => 4,
        CameraBoardSocket::CamE => 5,
        CameraBoardSocket::CamF => 6,
        CameraBoardSocket::CamG => 7,
        CameraBoardSocket::CamH => 8,
    }
}

/// The socket whose native number is `v`, if there is one.
pub open spec fn socket_for_code(v: u32) -> Option<CameraBoardSocket> {
    if exists|s: CameraBoardSocket| #[trigger] socket_code(s) == v {
        Some(choose|s: CameraBoardSocket| #[trigger] socket_code(s) == v)
    } else {
        None
    }
}

/// Display label of a socket ("AUTO", "CAM_A", ...).
pub open spec fn socket_label(s: CameraBoardSocket) -> Seq<char> {
    match s {
        CameraBoardSocket::Auto => "AUTO"@,
        CameraBoardSocket::CamA => "CAM_A"@,
        CameraBoardSocket::CamB => "CAM_B"@,
        CameraBoardSocket::CamC => "CAM_C"@,
        CameraBoardSocket::CamD => "CAM_D"@,
        CameraBoardSocket::CamE => "CAM_E"@,
        CameraBoardSocket::CamF => "CAM_F"@,
        CameraBoardSocket::CamG => "CAM_G"@,
        CameraBoardSocket::CamH => "CAM_H"@,
    }
}

impl CameraBoardSocket {
    /// Native enum value of this socket.
    pub fn to_c(&self) -> (r: u32)
        ensures
            r == socket_code(*self),
    {
        match self {
            CameraBoardSocket::Auto => 0,
            CameraBoardSocket::CamA => 1,
            CameraBoardSocket::CamB => 2,
            CameraBoardSocket::CamC => 3,
            CameraBoardSocket::CamD => 4,
            CameraBoardSocket::CamE => 5,
            CameraBoardSocket::CamF => 6,
            CameraBoardSocket::CamG => 7,
            CameraBoardSocket::CamH => 8,
        }
    }

    /// Socket for a native enum value; `None` for a number that names no socket.
    pub fn from_c(value: u32) -> (r: Option<CameraBoardSocket>)
        ensures
            r == socket_for_code(value),
    {
        let r = match value {
            0 => Some(CameraBoardSocket::Auto),
            1 => Some(CameraBoardSocket::CamA),
            2 => Some(CameraBoardSocket::CamB),
            3 => Some(CameraBoardSocket::CamC),
            4 => Some(CameraBoardSocket::CamD),
            5 => Some(CameraBoardSocket::CamE),
            6 => Some(CameraBoardSocket::CamF),
            7 => Some(CameraBoardSocket::CamG),
            8 => Some(CameraBoardSocket::CamH),
            _ => None,
        };
        proof {
            if let Some(s) = r {
                assert(socket_code(s) == value);
            }
        }
        r
    }

    /// Display label of this socket.
    pub fn to_string(&self) -> (r: String)
        ensures
            r@ == socket_label(*self),
    {
        match self {
            CameraBoardSocket::Auto => "AUTO".to_string(),
            CameraBoardSocket::CamA => "CAM_A".to_string(),
            CameraBoardSocket::CamB => "CAM_B".to_string(),
            CameraBoardSocket::CamC => "CAM_C".to_string(),
            CameraBoardSocket::CamD => "CAM_D".to_string(),
            CameraBoardSocket::CamE => "CAM_E".to_string(),
            CameraBoardSocket::CamF => "CAM_F".to_string(),
            CameraBoardSocket::CamG => "CAM_G".to_string(),
            CameraBoardSocket::CamH => "CAM_H".to_string(),
        }
    }
}

impl Default for CameraBoardSocket {
    fn default() -> (r: Self)
        ensures
            r == CameraBoardSocket::Auto,
    {
        CameraBoardSocket::Auto
    }
}

/// Socket numbers follow the socket letters: `Auto` is number 0 and labelled
/// "AUTO", and every other socket is labelled "CAM_" followed by the letter whose
/// place in the alphabet is its number (CAM_A is 1, ..., CAM_H is 8).
pub proof fn lemma_socket_numbers_follow_letters(s: CameraBoardSocket)
    ensures
        s == CameraBoardSocket::Auto <==> socket_code(s) == 0,
        s == CameraBoardSocket::Auto ==> socket_label(s) == "AUTO"@,
        s != CameraBoardSocket::Auto ==> socket_label(s) == "CAM_"@ + seq![
            ((64 + socket_code(s)) as u32) as char,
        ],
{
    reveal_strlit("CAM_");
    reveal_strlit("CAM_A");
    reveal_strlit("CAM_B");
    reveal_strlit("CAM_C");
    reveal_strlit("CAM_D");
    reveal_strlit("CAM_E");
    reveal_strlit("CAM_F");
    reveal_strlit("CAM_G");
    reveal_strlit("CAM_H");
    if s != CameraBoardSocket::Auto {
        assert(socket_label(s) =~= "CAM_"@ + seq![((64 + socket_code(s)) as u32) as char]);
    }
}

/// Converting a socket to its native number and back gives the socket again,
/// and a number that `from_c` accepts is the number of the socket it gives.
pub proof fn lemma_socket_code_round_trip(s: CameraBoardSocket, v: u32)
    ensures
        socket_for_code(socket_code(s)) == Some(s),
        socket_for_code(v) matches Some(t) ==> socket_code(t) == v,
        socket_for_code(v) is Some <==> v <= 8,
{
    assert(socket_code(s) == socket_code(s));
    if v <= 8 {
        let w = match v {
            0 => CameraBoardSocket::Auto,
            1 => CameraBoardSocket::CamA,
            2 => CameraBoardSocket::CamB,
            3 => CameraBoardSocket::CamC,
            4 => CameraBoardSocket::CamD,
            5 => CameraBoardSocket::CamE,
            6 => CameraBoardSocket::CamF,
            7 => CameraBoardSocket::CamG,
            _ => CameraBoardSocket::CamH,
        };
        assert(socket_code(w) == v);
    }
}

// ---------------------------------------------------------------------------
// CameraSensorType
// ---------------------------------------------------------------------------

/// Kind of image a camera sensor produces.
#[derive(Debug, Clone, Copy, PartialEq, Eq, Structural)]
pub enum CameraSensorType {
    Color,
    Mono,
    Thermal,
    Tof,
}

/// Native number of each variant.
pub open spec fn sensor_type_code(x: CameraSensorType) -> u32 {
    match x {
        CameraSensorType::Color => 0,
        CameraSensorType::Mono => 1,
        CameraSensorType::Thermal => 2,
        CameraSensorType::Tof => 3,
    }
}

/// The variant whose native number is `v`, if there is one.
pub open spec fn sensor_type_for_code(v: u32) -> Option<CameraSensorType> {
    if exists|x: CameraSensorType| #[trigger] sensor_type_code(x) == v {
        Some(choose|x: CameraSensorType| #[trigger] sensor_type_code(x) == v)
    } else {
        None
    }
}

/// Display label of each variant.
pub open spec fn sensor_type_label(x: CameraSensorType) -> Seq<char> {
    match x {
        CameraSensorType::Color => "COLOR"@,
        CameraSensorType::Mono => "MONO"@,
        CameraSensorType::Thermal => "THERMAL"@,
        CameraSensorType::Tof => "TOF"@,
    }
}

impl CameraSensorType {
    /// Native enum value of this variant.
    pub fn to_c(&self) -> (r: u32)
        ensures
            r == sensor_type_code(*self),
    {
        match self {
            CameraSensorType::Color => 0,
            CameraSensorType::Mono => 1,
            CameraSensorType::Thermal => 2,
            CameraSensorType::Tof => 3,
        }
    }

    /// Variant for a native enum value; `None` for a number that names no variant.
    pub fn from_c(value: u32) -> (r: Option<CameraSensorType>)
        ensures
            r == sensor_type_for_code(value),
    {
        let r = match value {
            0 => Some(CameraSensorType::Color),
            1 => Some(CameraSensorType::Mono),
            2 => Some(CameraSensorType::Thermal),
            3 => Some(CameraSensorType::Tof),
            _ => None,
        };
        proof {
            if let Some(x) = r {
                assert(sensor_type_code(x) == value);
            }
        }
        r
    }

    /// Display label of this variant.
    pub fn to_string(&self) -> (r: String)
        ensures
            r@ == sensor_type_label(*self),
    {
        match self {
            CameraSensorType::Color => "COLOR".to_string(),
            CameraSensorType::Mono => "MONO".to_string(),
            CameraSensorType::Thermal => "THERMAL".to_string(),
            CameraSensorType::Tof => "TOF".to_string(),
        }
    }
}

impl Default for CameraSensorType {
    fn default() -> (r: Self)
        ensures
            r == CameraSensorType::Color,
    {
        CameraSensorType::Color
    }
}

/// Sensor types are numbered in the order COLOR, MONO, THERMAL, TOF: every
/// type's number is below four, and the label listed at that number is the
/// type's own label.
pub proof fn lemma_sensor_type_numbering(x: CameraSensorType)
    ensures
        sensor_type_code(x) < 4,
        seq!["COLOR"@, "MONO"@, "THERMAL"@, "TOF"@][sensor_type_code(x) as int]
            == sensor_type_label(x),
{
}

/// Converting a variant to its native number and back gives the variant again,
/// and a number that `from_c` accepts is the number of the variant it gives.
pub proof fn lemma_sensor_type_code_round_trip(x: CameraSensorType, v: u32)
    ensures
        sensor_type_for_code(sensor_type_code(x)) == Some(x),
        sensor_type_for_code(v) matches Some(y) ==> sensor_type_code(y) == v,
        sensor_type_for_code(v) is Some <==> v <= 3,
{
    assert(sensor_type_code(x) == sensor_type_code(x));
    if v <= 3 {
        let w = match v {
            0 => CameraSensorType::Color,
            1 => CameraSensorType::Mono,
            2 => CameraSensorType::Thermal,
            _ => CameraSensorType::Tof,
        };
        assert(sensor_type_code(w) == v);
    }
}

// ---------------------------------------------------------------------------
// CameraImageOrientation
// ---------------------------------------------------------------------------

/// Orientation applied to a camera's image.
#[derive(Debug, Clone, Copy, PartialEq, Eq, Structural)]
pub enum CameraImageOrientation {
    Auto,
    Normal,
    Rotate90Deg,
    Rotate180Deg,
    Rotate270Deg,
    HorizontalFlip,
    VerticalFlip,
}

/// Native number of each variant.
pub open spec fn orientation_code(x: CameraImageOrientation) -> u32 {
    match x {
        CameraImageOrientation::Auto => 0,
        CameraImageOrientation::Normal => 1,
        CameraImageOrientation::Rotate90Deg => 2,
        CameraImageOrientation::Rotate180Deg => 3,
        CameraImageOrientation::Rotate270Deg => 4,
        CameraImageOrientation::HorizontalFlip => 5,
        CameraImageOrientation::VerticalFlip => 6,
    }
}

/// The variant whose native number is `v`, if there is one.
pub open spec fn orientation_for_code(v: u32) -> Option<CameraImageOrientation> {
    if exists|x: CameraImageOrientation| #[trigger] orientation_code(x) == v {
        Some(choose|x: CameraImageOrientation| #[trigger] orientation_code(x) == v)
    } else {
        None
    }
}

impl CameraImageOrientation {
    /// Native enum value of this variant.
    pub fn to_c(&self) -> (r: u32)
        ensures
            r == orientation_code(*self),
    {
        match self {
            CameraImageOrientation::Auto => 0,
            CameraImageOrientation::Normal => 1,
            CameraImageOrientation::Rotate90Deg => 2,
            CameraImageOrientation::Rotate180Deg => 3,
            CameraImageOrientation::Rotate270Deg => 4,
            CameraImageOrientation::HorizontalFlip => 5,
            CameraImageOrientation::VerticalFlip => 6,
        }
    }

    /// Variant for a native enum value; `None` for a number that names no variant.
    pub fn from_c(value: u32) -> (r: Option<CameraImageOrientation>)
        ensures
            r == orientation_for_code(value),
    {
        let r = match value {
            0 => Some(CameraImageOrientation::Auto),
            1 => Some(CameraImageOrientation::Normal),
            2 => Some(CameraImageOrientation::Rotate90Deg),
            3 => Some(CameraImageOrientation::Rotate180Deg),
            4 => Some(CameraImageOrientation::Rotate270Deg),
            5 => Some(CameraImageOrientation::HorizontalFlip),
            6 => Some(CameraImageOrientation::VerticalFlip),
            _ => None,
        };
        proof {
            if let Some(x) = r {
                assert(orientation_code(x) == value);
            }
        }
        r
    }
}

impl Default for CameraImageOrientation {
    fn default() -> (r: Self)
        ensures
            r == CameraImageOrientation::Auto,
    {
        CameraImageOrientation::Auto
    }
}

/// How many quarter turns clockwise an orientation rotates the image: none for
/// `Normal`, one for `Rotate90Deg`, two for `Rotate180Deg`, three for
/// `Rotate270Deg`; the automatic choice and the flips are no rotation.
pub open spec fn quarter_turns(x: CameraImageOrientation) -> Option<int> {
    match x {
        CameraImageOrientation::Normal => Some(0),
        CameraImageOrientation::Rotate90Deg => Some(1),
        CameraImageOrientation::Rotate180Deg => Some(2),
        CameraImageOrientation::Rotate270Deg => Some(3),
        _ => None,
    }
}

/// Native numbers of orientations: the automatic choice is 0, and the upright
/// and rotated orientations follow it in order of their rotation, so each
/// quarter turn adds one to `Normal`'s number 1; the horizontal flip (5) comes
/// before the vertical flip (6), after every rotation.
pub proof fn lemma_orientation_codes(x: CameraImageOrientation)
    ensures
        orientation_code(CameraImageOrientation::Auto) == 0,
        quarter_turns(x) matches Some(k) ==> orientation_code(x) == 1 + k,
        orientation_code(CameraImageOrientation::HorizontalFlip) == 5,
        orientation_code(CameraImageOrientation::VerticalFlip) == 6,
{
}

/// Converting a variant to its native number and back gives the variant again,
/// and a number that `from_c` accepts is the number of the variant it gives.
pub proof fn lemma_orientation_code_round_trip(x: CameraImageOrientation, v: u32)
    ensures
        orientation_for_code(orientation_code(x)) == Some(x),
        orientation_for_code(v) matches Some(y) ==> orientation_code(y) == v,
        orientation_for_code(v) is Some <==> v <= 6,
{
    assert(orientation_code(x) == orientation_code(x));
    if v <= 6 {
        let w = match v {
            0 => CameraImageOrientation::Auto,
            1 => CameraImageOrientation::Normal,
            2 => CameraImageOrientation::Rotate90Deg,
            3 => CameraImageOrientation::Rotate180Deg,
            4 => CameraImageOrientation::Rotate270Deg,
            5 => CameraImageOrientation::HorizontalFlip,
            _ => CameraImageOrientation::VerticalFlip,
        };
        assert(orientation_code(w) == v);
    }
}

// ---------------------------------------------------------------------------
// CameraModel
// ---------------------------------------------------------------------------

/// Lens projection model of a camera.
#[derive(Debug, Clone, Copy, PartialEq, Eq, Structural)]
pub enum CameraModel {
    Perspective,
    Fisheye,
    Equirectangular,
    RadialDivision,
    Thinprism,
    Tilted,
}

/// Native number of each variant.
pub open spec fn camera_model_code(x: CameraModel) -> u32 {
    match x {
        CameraModel::Perspective => 0,
        CameraModel::Fisheye => 1,
        CameraModel::Equirectangular => 2,
        CameraModel::RadialDivision => 3,
        CameraModel::Thinprism => 4,
        CameraModel::Tilted => 5,
    }
}

/// The variant whose native number is `v`, if there is one.
pub open spec fn camera_model_for_code(v: u32) -> Option<CameraModel> {
    if exists|x: CameraModel| #[trigger] camera_model_code(x) == v {
        Some(choose|x: CameraModel| #[trigger] camera_model_code(x) == v)
    } else {
        None
    }
}

impl CameraModel {
    /// Native enum value of this variant.
    pub fn to_c(&self) -> (r: u32)
        ensures
            r == camera_model_code(*self),
    {
        match self {
            CameraModel::Perspective => 0,
            CameraModel::Fisheye => 1,
            CameraModel::Equirectangular => 2,
            CameraModel::RadialDivision => 3,
            CameraModel::Thinprism => 4,
            CameraModel::Tilted => 5,
        }
    }

    /// Variant for a native enum value; `None` for a number that names no variant.
    pub fn from_c(value: u32) -> (r: Option<CameraModel>)
        ensures
            r == camera_model_for_code(value),
    {
        let r = match value {
            0 => Some(CameraModel::Perspective),
            1 => Some(CameraModel::Fisheye),
            2 => Some(CameraModel::Equirectangular),
            3 => Some(CameraModel::RadialDivision),
            4 => Some(CameraModel::Thinprism),
            5 => Some(CameraModel::Tilted),
            _ => None,
        };
        proof {
            if let Some(x) = r {
                assert(camera_model_code(x) == value);
            }
        }
        r
    }
}

impl Default for CameraModel {
    fn default() -> (r: Self)
        ensures
            r == CameraModel::Perspective,
    {
        CameraModel::Perspective
    }
}

/// Converting a variant to its native number and back gives the variant again,
/// and a number that `from_c` accepts is the number of the variant it gives.
pub proof fn lemma_camera_model_code_round_trip(x: CameraModel, v: u32)
    ensures
        camera_model_for_code(camera_model_code(x)) == Some(x),
        camera_model_for_code(v) matches Some(y) ==> camera_model_code(y) == v,
        camera_model_for_code(v) is Some <==> v <= 5,
{
    assert(camera_model_code(x) == camera_model_code(x));
    if v <= 5 {
        let w = match v {
            0 => CameraModel::Perspective,
            1 => CameraModel::Fisheye,
            2 => CameraModel::Equirectangular,
            3 => CameraModel::RadialDivision,
            4 => CameraModel::Thinprism,
            _ => CameraModel::Tilted,
        };
        assert(camera_model_code(w) == v);
    }
}

// ---------------------------------------------------------------------------
// UsbSpeed
// ---------------------------------------------------------------------------

/// Speed of a USB connection.
#[derive(Debug, Clone, Copy, PartialEq, Eq, Structural)]
pub enum UsbSpeed {
    Unknown,
    Low,
    Full,
    High,
    Super,
    SuperPlus,
}

/// Native number of each variant.
pub open spec fn usb_speed_code(x: UsbSpeed) -> u32 {
    match x {
        UsbSpeed::Unknown => 0,
        UsbSpeed::Low => 1,
        UsbSpeed::Full => 2,
        UsbSpeed::High => 3,
        UsbSpeed::Super => 4,
        UsbSpeed::SuperPlus => 5,
    }
}

/// The variant whose native number is `v`, if there is one.
pub open spec fn usb_speed_for_code(v: u32) -> Option<UsbSpeed> {
    if exists|x: UsbSpeed| #[trigger] usb_speed_code(x) == v {
        Some(choose|x: UsbSpeed| #[trigger] usb_speed_code(x) == v)
    } else {
        None
    }
}

/// Display label of each variant.
pub open spec fn usb_speed_label(x: UsbSpeed) -> Seq<char> {
    match x {
        UsbSpeed::Unknown => "Unknown"@,
        UsbSpeed::Low => "Low Speed (1.5 Mbps)"@,
        UsbSpeed::Full => "Full Speed (12 Mbps)"@,
        UsbSpeed::High => "High Speed (480 Mbps)"@,
        UsbSpeed::Super => "SuperSpeed (5 Gbps)"@,
        UsbSpeed::SuperPlus => "SuperSpeed+ (10 Gbps)"@,
    }
}

impl UsbSpeed {
    /// Native enum value of this variant.
    pub fn to_c(&self) -> (r: u32)
        ensures
            r == usb_speed_code(*self),
    {
        match self {
            UsbSpeed::Unknown => 0,
            UsbSpeed::Low => 1,
            UsbSpeed::Full => 2,
            UsbSpeed::High => 3,
            UsbSpeed::Super => 4,
            UsbSpeed::SuperPlus => 5,
        }
    }

    /// Variant for a native enum value; `None` for a number that names no variant.
    pub fn from_c(value: u32) -> (r: Option<UsbSpeed>)
        ensures
            r == usb_speed_for_code(value),
    {
        let r = match value {
            0 => Some(UsbSpeed::Unknown),
            1 => Some(UsbSpeed::Low),
            2 => Some(UsbSpeed::Full),
            3 => Some(UsbSpeed::High),
            4 => Some(UsbSpeed::Super),
            5 => Some(UsbSpeed::SuperPlus),
            _ => None,
        };
        proof {
            if let Some(x) = r {
                assert(usb_speed_code(x) == value);
            }
        }
        r
    }

    /// Display label of this variant.
    pub fn to_string(&self) -> (r: String)
        ensures
            r@ == usb_speed_label(*self),
    {
        match self {
            UsbSpeed::Unknown => "Unknown".to_string(),
            UsbSpeed::Low => "Low Speed (1.5 Mbps)".to_string(),
            UsbSpeed::Full => "Full Speed (12 Mbps)".to_string(),
            UsbSpeed::High => "High Speed (480 Mbps)".to_string(),
            UsbSpeed::Super => "SuperSpeed (5 Gbps)".to_string(),
            UsbSpeed::SuperPlus => "SuperSpeed+ (10 Gbps)".to_string(),
        }
    }

    /// Human-readable description of this speed, such as "SuperSpeed (5 Gbps)".
    pub fn description(&self) -> (r: &'static str)
        ensures
            r@ == usb_speed_label(*self),
    {
        match self {
            UsbSpeed::Unknown => "Unknown",
            UsbSpeed::Low => "Low Speed (1.5 Mbps)",
            UsbSpeed::Full => "Full Speed (12 Mbps)",
            UsbSpeed::High => "High Speed (480 Mbps)",
            UsbSpeed::Super => "SuperSpeed (5 Gbps)",
            UsbSpeed::SuperPlus => "SuperSpeed+ (10 Gbps)",
        }
    }
}

impl Default for UsbSpeed {
    fn default() -> (r: Self)
        ensures
            r == UsbSpeed::Unknown,
    {
        UsbSpeed::Unknown
    }
}

/// Signalling rate of a USB speed in kbit/s, as its label gives it; 0 when the
/// speed is unknown.
pub open spec fn usb_rate_kbps(x: UsbSpeed) -> nat {
    match x {
        UsbSpeed::Unknown => 0,
        UsbSpeed::Low => 1_500,
        UsbSpeed::Full => 12_000,
        UsbSpeed::High => 480_000,
        UsbSpeed::Super => 5_000_000,
        UsbSpeed::SuperPlus => 10_000_000,
    }
}

/// USB speed numbers rise with the signalling rate: of two speeds, the one with
/// the lower number is the slower one, and an unknown speed is number 0.
pub proof fn lemma_usb_speed_numbers_follow_rate(x: UsbSpeed, y: UsbSpeed)
    ensures
        usb_speed_code(x) < usb_speed_code(y) <==> usb_rate_kbps(x) < usb_rate_kbps(y),
        usb_speed_code(UsbSpeed::Unknown) == 0,
{
}

/// Converting a variant to its native number and back gives the variant again,
/// and a number that `from_c` accepts is the number of the variant it gives.
pub proof fn lemma_usb_speed_code_round_trip(x: UsbSpeed, v: u32)
    ensures
        usb_speed_for_code(usb_speed_code(x)) == Some(x),
        usb_speed_for_code(v) matches Some(y) ==> usb_speed_code(y) == v,
        usb_speed_for_code(v) is Some <==> v <= 5,
{
    assert(usb_speed_code(x) == usb_speed_code(x));
    if v <= 5 {
        let w = match v {
            0 => UsbSpeed::Unknown,
            1 => UsbSpeed::Low,
            2 => UsbSpeed::Full,
            3 => UsbSpeed::High,
            4 => UsbSpeed::Super,
            _ => UsbSpeed::SuperPlus,
        };
        assert(usb_speed_code(w) == v);
    }
}

// ---------------------------------------------------------------------------
// Camera capabilities
// ---------------------------------------------------------------------------

/// What a camera's feature record says of its full resolution, the sensor types
/// it supports and its autofocus, without the per-mode sensor settings.
#[derive(Debug)]
pub struct CameraCapabilities {
    pub width: i32,
    pub height: i32,
    pub supported_types: Vec<CameraSensorType>,
    pub has_autofocus_ic: bool,
    pub has_autofocus: bool,
}

impl CameraCapabilities {
    /// Full resolution as width and height.
    pub fn max_resolution(&self) -> (r: (i32, i32))
        ensures
            r == (self.width, self.height),
    {
        (self.width, self.height)
    }

    /// Number of pixels at full resolution: width times height.
    pub fn max_pixel_count(&self) -> (r: i32)
        requires
            i32::MIN <= self.width * self.height <= i32::MAX,
        ensures
            r == self.width * self.height,
    {
        self.width * self.height
    }

    /// Whether `sensor_type` is among the supported sensor types.
    pub fn supports_type(&self, sensor_type: CameraSensorType) -> (r: bool)
        ensures
            r == self.supported_types@.contains(sensor_type),
    {
        let mut i: usize = 0;
        while i < self.supported_types.len()
            invariant
                i <= self.supported_types@.len(),
                forall|k: int| 0 <= k < i ==> self.supported_types@[k] != sensor_type,
            decreases self.supported_types@.len() - i,
        {
            if self.supported_types[i] == sensor_type {
                return true;
            }
            i = i + 1;
        }
        false
    }

    /// Whether the camera can autofocus: it has an autofocus unit or an
    /// autofocus IC.
    pub fn supports_autofocus(&self) -> (r: bool)
        ensures
            r == (self.has_autofocus || self.has_autofocus_ic),
    {
        self.has_autofocus || self.has_autofocus_ic
    }
}

// ---------------------------------------------------------------------------
// Version
// ---------------------------------------------------------------------------

/// Firmware or library version: `major.minor.patch`, optionally followed by a
/// pre-release tag such as `-rc.2`.
#[derive(Debug, PartialEq, Eq)]
pub struct Version {
    pub major: u32,
    pub minor: u32,
    pub patch: u32,
    pub pre_release_type: String,
    pub pre_release_version: u32,
    pub build_info: String,
}

impl Clone for Version {
    fn clone(&self) -> (r: Self)
        ensures
            r == *self,
    {
        Version {
            major: self.major,
            minor: self.minor,
            patch: self.patch,
            pre_release_type: self.pre_release_type.clone(),
            pre_release_version: self.pre_release_version,
            build_info: self.build_info.clone(),
        }
    }
}

/// A version without a pre-release tag is a release.
pub open spec fn is_release(v: Version) -> bool {
    v.pre_release_type@.len() == 0
}

/// Precedence of versions: major, then minor, then patch number decide; at equal
/// numbers a release is newer than a pre-release, and of two pre-releases the one
/// with the higher pre-release number is newer.
pub open spec fn version_newer(a: Version, b: Version) -> bool {
    if a.major != b.major {
        a.major > b.major
    } else if a.minor != b.minor {
        a.minor > b.minor
    } else if a.patch != b.patch {
        a.patch > b.patch
    } else if is_release(a) != is_release(b) {
        is_release(a)
    } else {
        !is_release(a) && a.pre_release_version > b.pre_release_version
    }
}

/// Text of a version: `major.minor.patch` for a release and
/// `major.minor.patch-type.number` for a pre-release.
pub open spec fn version_text(v: Version) -> Seq<char> {
    let core = decimal(v.major as nat) + "."@ + decimal(v.minor as nat) + "."@ + decimal(
        v.patch as nat,
    );
    if is_release(v) {
        core
    } else {
        core + "-"@ + v.pre_release_type@ + "."@ + decimal(v.pre_release_version as nat)
    }
}

impl Version {
    /// Release version `major.minor.patch` with no pre-release tag and no build
    /// information.
    pub fn new(major: u32, minor: u32, patch: u32) -> (r: Version)
        ensures
            r.major == major,
            r.minor == minor,
            r.patch == patch,
            r.pre_release_type@ == Seq::<char>::empty(),
            r.pre_release_version == 0,
            r.build_info@ == Seq::<char>::empty(),
    {
        Version {
            major,
            minor,
            patch,
            pre_release_type: String::new(),
            pre_release_version: 0,
            build_info: String::new(),
        }
    }

    /// Version as text, such as "2.1.3" or "2.1.3-rc.2".
    pub fn version_string(&self) -> (r: String)
        ensures
            r@ == version_text(*self),
    {
        let mut s = String::new();
        push_decimal(&mut s, self.major as u64);
        s.append(".");
        push_decimal(&mut s, self.minor as u64);
        s.append(".");
        push_decimal(&mut s, self.patch as u64);
        if !self.pre_release_type.as_str().is_empty() {
            s.append("-");
            s.append(self.pre_release_type.as_str());
            s.append(".");
            push_decimal(&mut s, self.pre_release_version as u64);
        }
        s
    }

    /// Whether this version takes precedence over `other`.
    pub fn is_newer_than(&self, other: &Version) -> (r: bool)
        ensures
            r == version_newer(*self, *other),
    {
        if self.major != other.major {
            return self.major > other.major;
        }
        if self.minor != other.minor {
            return self.minor > other.minor;
        }
        if self.patch != other.patch {
            return self.patch > other.patch;
        }
        let self_release = self.pre_release_type.as_str().is_empty();
        let other_release = other.pre_release_type.as_str().is_empty();
        if self_release && !other_release {
            true
        } else if !self_release && other_release {
            false
        } else if !self_release && !other_release {
            self.pre_release_version > other.pre_release_version
        } else {
            false
        }
    }

    /// Display text of this version, the same as `version_string`.
    pub fn to_string(&self) -> (r: String)
        ensures
            r@ == version_text(*self),
    {
        self.version_string()
    }
}

impl Default for Version {
    fn default() -> (r: Self)
        ensures
            r.major == 0 && r.minor == 0 && r.patch == 0,
            r.pre_release_type@ == Seq::<char>::empty(),
            r.pre_release_version == 0,
            r.build_info@ == Seq::<char>::empty(),
    {
        Version::new(0, 0, 0)
    }
}

/// Precedence follows the version numbers: a higher major number is newer; at
/// equal major numbers a higher minor number is newer; at equal major and minor
/// numbers a higher patch number is newer. At equal numbers a release is newer
/// than a pre-release, and of two pre-releases the higher pre-release number is
/// newer; two releases with equal numbers are not newer than each other.
pub proof fn lemma_version_newer_by_numbers(a: Version, b: Version)
    ensures
        a.major > b.major ==> version_newer(a, b),
        a.major == b.major && a.minor > b.minor ==> version_newer(a, b),
        a.major == b.major && a.minor == b.minor && a.patch > b.patch ==> version_newer(a, b),
        a.major == b.major && a.minor == b.minor && a.patch == b.patch && is_release(a)
            && !is_release(b) ==> version_newer(a, b),
        a.major == b.major && a.minor == b.minor && a.patch == b.patch && !is_release(a)
            && !is_release(b) && a.pre_release_version > b.pre_release_version ==> version_newer(
            a,
            b,
        ),
        a.major == b.major && a.minor == b.minor && a.patch == b.patch && is_release(a)
            && is_release(b) ==> !version_newer(a, b),
        a.major != b.major ==> (version_newer(a, b) <==> a.major > b.major),
        a.major == b.major && a.minor != b.minor ==> (version_newer(a, b) <==> a.minor > b.minor),
        a.major == b.major && a.minor == b.minor && a.patch != b.patch ==> (version_newer(a, b)
            <==> a.patch > b.patch),
{
}

/// No version is newer than itself.
pub proof fn lemma_version_newer_irreflexive(a: Version)
    ensures
        !version_newer(a, a),
{
}

/// Of two versions, at most one is newer than the other.
pub proof fn lemma_version_newer_asymmetric(a: Version, b: Version)
    ensures
        version_newer(a, b) ==> !version_newer(b, a),
{
}

/// Precedence is transitive: if `a` is newer than `b` and `b` newer than `c`,
/// then `a` is newer than `c`.
pub proof fn lemma_version_newer_transitive(a: Version, b: Version, c: Version)
    requires
        version_newer(a, b),
        version_newer(b, c),
    ensures
        version_newer(a, c),
{
}

// ---------------------------------------------------------------------------
// Device record
// ---------------------------------------------------------------------------

/// Host-side record of a connected device, with each property as text.
#[derive(Debug)]
pub struct DeviceInfo {
    pub device_name: String,
    pub mx_id: String,
    pub protocol: String,
    pub platform: String,
    pub product_name: String,
    pub board_name: String,
    pub board_rev: String,
    pub state: String,
}

impl Clone for DeviceInfo {
    fn clone(&self) -> (r: Self)
        ensures
            r == *self,
    {
        DeviceInfo {
            device_name: self.device_name.clone(),
            mx_id: self.mx_id.clone(),
            protocol: self.protocol.clone(),
            platform: self.platform.clone(),
            product_name: self.product_name.clone(),
            board_name: self.board_name.clone(),
            board_rev: self.board_rev.clone(),
            state: self.state.clone(),
        }
    }
}

/// Every text field of the record is empty.
pub open spec fn device_info_is_blank(d: DeviceInfo) -> bool {
    &&& d.device_name@ == Seq::<char>::empty()
    &&& d.mx_id@ == Seq::<char>::empty()
    &&& d.protocol@ == Seq::<char>::empty()
    &&& d.platform@ == Seq::<char>::empty()
    &&& d.product_name@ == Seq::<char>::empty()
    &&& d.board_name@ == Seq::<char>::empty()
    &&& d.board_rev@ == Seq::<char>::empty()
    &&& d.state@ == Seq::<char>::empty()
}

/// Display text of a device record: `NAME (MXID) - STATE via PROTOCOL`.
pub open spec fn device_record_text(d: DeviceInfo) -> Seq<char> {
    d.device_name@ + " ("@ + d.mx_id@ + ") - "@ + d.state@ + " via "@ + d.protocol@
}

/// The protocol text names USB, ignoring case.
pub open spec fn protocol_is_usb(protocol: Seq<char>) -> bool {
    has_substring(lowercase(protocol), "usb"@)
}

/// The protocol text names TCP or Ethernet, ignoring case.
pub open spec fn protocol_is_ethernet(protocol: Seq<char>) -> bool {
    has_substring(lowercase(protocol), "tcp"@) || has_substring(lowercase(protocol), "ethernet"@)
}

impl DeviceInfo {
    /// Record with every field empty.
    pub fn new() -> (r: DeviceInfo)
        ensures
            device_info_is_blank(r),
    {
        DeviceInfo {
            device_name: String::new(),
            mx_id: String::new(),
            protocol: String::new(),
            platform: String::new(),
            product_name: String::new(),
            board_name: String::new(),
            board_rev: String::new(),
            state: String::new(),
        }
    }

    /// Display text of the record, such as "OAK-D (1844301041C3D907) -
    /// X_LINK_BOOTED via X_LINK_USB_VSC".
    pub fn to_string(&self) -> (r: String)
        ensures
            r@ == device_record_text(*self),
    {
        let mut s = self.device_name.clone();
        s.append(" (");
        s.append(self.mx_id.as_str());
        s.append(") - ");
        s.append(self.state.as_str());
        s.append(" via ");
        s.append(self.protocol.as_str());
        s
    }

    /// Whether the device is connected over USB: the protocol contains "usb" in
    /// any letter case.
    pub fn is_usb(&self) -> (r: bool)
        ensures
            r == protocol_is_usb(self.protocol@),
    {
        let lower = to_lowercase(self.protocol.as_str());
        str_contains(lower.as_str(), "usb")
    }

    /// Whether the device is connected over Ethernet: the protocol contains "tcp"
    /// or "ethernet" in any letter case.
    pub fn is_ethernet(&self) -> (r: bool)
        ensures
            r == protocol_is_ethernet(self.protocol@),
    {
        let lower = to_lowercase(self.protocol.as_str());
        if str_contains(lower.as_str(), "tcp") {
            return true;
        }
        let lower = to_lowercase(self.protocol.as_str());
        str_contains(lower.as_str(), "ethernet")
    }
}

impl Default for DeviceInfo {
    fn default() -> (r: Self)
        ensures
            device_info_is_blank(r),
    {
        DeviceInfo::new()
    }
}

// ---------------------------------------------------------------------------
// Conversion traits
// ---------------------------------------------------------------------------

/// Conversion from a native representation.
pub trait FromCpp<T>: Sized {
    fn from_cpp(value: T) -> Self;
}

/// Conversion into a native representation.
pub trait ToCpp<T> {
    fn to_cpp(&self) -> T;
}

} // verus!
