//! Video encoder rate-control modes and profiles, and how a reported code is
//! read back.

use vstd::prelude::*;

verus! {

/// Rate-control mode of a video encoder: constant or variable bit rate.
#[derive(Debug, Clone, Copy, PartialEq, Eq, Structural)]
pub enum VideoEncoderRateControlMode {
    Cbr,
    Vbr,
}

/// Native number of each rate-control mode.
pub open spec fn rate_control_code(m: VideoEncoderRateControlMode) -> i32 {
    match m {
        VideoEncoderRateControlMode::Cbr => 0,
        VideoEncoderRateControlMode::Vbr => 1,
    }
}

impl VideoEncoderRateControlMode {
    /// Mode for a native number; `None` for a number that names no mode.
    pub fn from_raw(value: i32) -> (r: Option<Self>)
        ensures
            r is Some <==> 0 <= value <= 1,
            r matches Some(m) ==> rate_control_code(m) == value,
    {
        match value {
            0 => Some(Self::Cbr),
            1 => Some(Self::Vbr),
            _ => None,
        }
    }
}

/// Encoding profile of a video encoder.
#[derive(Debug, Clone, Copy, PartialEq, Eq, Structural)]
pub enum VideoEncoderProfile {
    H264Baseline,
    H264High,
    H264Main,
    H265Main,
    Mjpeg,
}

/// Native number of each profile.
pub open spec fn encoder_profile_code(p: VideoEncoderProfile) -> i32 {
    match p {
        VideoEncoderProfile::H264Baseline => 0,
        VideoEncoderProfile::H264High => 1,
        VideoEncoderProfile::H264Main => 2,
        VideoEncoderProfile::H265Main => 3,
        VideoEncoderProfile::Mjpeg => 4,
    }
}

impl VideoEncoderProfile {
    /// Profile for a native number; `None` for a number that names no profile.
    pub fn from_raw(value: i32) -> (r: Option<Self>)
        ensures
            r is Some <==> 0 <= value <= 4,
            r matches Some(p) ==> encoder_profile_code(p) == value,
    {
        match value {
            0 => Some(Self::H264Baseline),
            1 => Some(Self::H264High),
            2 => Some(Self::H264Main),
            3 => Some(Self::H265Main),
            4 => Some(Self::Mjpeg),
            _ => None,
        }
    }
}

/// Distinct rate-control modes, and distinct profiles, have distinct native
/// numbers, so `from_raw` has one answer for each number it accepts.
pub proof fn lemma_encoder_codes_injective(
    a: VideoEncoderRateControlMode,
    b: VideoEncoderRateControlMode,
    p: VideoEncoderProfile,
    q: VideoEncoderProfile,
)
    ensures
        rate_control_code(a) == rate_control_code(b) ==> a == b,
        encoder_profile_code(p) == encoder_profile_code(q) ==> p == q,
{
}

/// Rate-control mode an encoder reports: the mode with that number, or constant
/// bit rate for a number that names no mode.
pub fn decode_rate_control_mode(raw: i32) -> (m: VideoEncoderRateControlMode)
    ensures
        0 <= raw <= 1 ==> rate_control_code(m) == raw,
        !(0 <= raw <= 1) ==> m == VideoEncoderRateControlMode::Cbr,
{
    match VideoEncoderRateControlMode::from_raw(raw) {
        Some(m) => m,
        None => VideoEncoderRateControlMode::Cbr,
    }
}

/// Profile an encoder reports: the profile with that number, or H.264 baseline
/// for a number that names no profile.
pub fn decode_encoder_profile(raw: i32) -> (p: VideoEncoderProfile)
    ensures
        0 <= raw <= 4 ==> encoder_profile_code(p) == raw,
        !(0 <= raw <= 4) ==> p == VideoEncoderProfile::H264Baseline,
{
    match VideoEncoderProfile::from_raw(raw) {
        Some(p) => p,
        None => VideoEncoderProfile::H264Baseline,
    }
}

} // verus!
