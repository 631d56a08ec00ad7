//! Encoded (compressed) video frames: profile and frame-type codes, the choice
//! of the payload bytes inside the frame buffer, the frame's description text
//! and the NV12 size rule.

use vstd::prelude::*;
use vstd::string::*;
use crate::error::{last_error, pending_text, reported_message, DepthaiError};
use crate::text::{decimal, push_decimal};

verus! {

/// Compression profile of an encoded frame.
#[derive(Debug, Clone, Copy, PartialEq, Eq, Structural)]
pub enum EncodedFrameProfile {
    Jpeg,
    Avc,
    Hevc,
}

/// Native number of each profile.
pub open spec fn profile_code(p: EncodedFrameProfile) -> i32 {
    match p {
        EncodedFrameProfile::Jpeg => 0,
        EncodedFrameProfile::Avc => 1,
        EncodedFrameProfile::Hevc => 2,
    }
}

/// Name of each profile, as its debug text.
pub open spec fn profile_name(p: EncodedFrameProfile) -> Seq<char> {
    match p {
        EncodedFrameProfile::Jpeg => "Jpeg"@,
        EncodedFrameProfile::Avc => "Avc"@,
        EncodedFrameProfile::Hevc => "Hevc"@,
    }
}

impl EncodedFrameProfile {
    /// Profile for a native number; `None` for a number that names no profile.
    pub fn from_raw(value: i32) -> (r: Option<Self>)
        ensures
            r is Some <==> 0 <= value <= 2,
            r matches Some(p) ==> profile_code(p) == value,
    {
        match value {
            0 => Some(Self::Jpeg),
            1 => Some(Self::Avc),
            2 => Some(Self::Hevc),
            _ => None,
        }
    }
}

/// Kind of an encoded frame: intra, predicted, bidirectional or unknown.
#[derive(Debug, Clone, Copy, PartialEq, Eq, Structural)]
pub enum EncodedFrameType {
    I,
    P,
    B,
    Unknown,
}

/// Native number of each frame type.
pub open spec fn frame_type_code(t: EncodedFrameType) -> i32 {
    match t {
        EncodedFrameType::I => 0,
        EncodedFrameType::P => 1,
        EncodedFrameType::B => 2,
        EncodedFrameType::Unknown => 3,
    }
}

/// Name of each frame type, as its debug text.
pub open spec fn frame_type_name(t: EncodedFrameType) -> Seq<char> {
    match t {
        EncodedFrameType::I => "I"@,
        EncodedFrameType::P => "P"@,
        EncodedFrameType::B => "B"@,
        EncodedFrameType::Unknown => "Unknown"@,
    }
}

impl EncodedFrameType {
    /// Frame type for a native number; `None` for a number that names no type.
    pub fn from_raw(value: i32) -> (r: Option<Self>)
        ensures
            r is Some <==> 0 <= value <= 3,
            r matches Some(t) ==> frame_type_code(t) == value,
    {
        match value {
            0 => Some(Self::I),
            1 => Some(Self::P),
            2 => Some(Self::B),
            3 => Some(Self::Unknown),
            _ => None,
        }
    }
}

/// Distinct profiles, and distinct frame types, have distinct native numbers,
/// so `from_raw` has one answer for each number it accepts.
pub proof fn lemma_encoded_frame_codes_injective(
    p: EncodedFrameProfile,
    q: EncodedFrameProfile,
    s: EncodedFrameType,
    t: EncodedFrameType,
)
    ensures
        profile_code(p) == profile_code(q) ==> p == q,
        frame_type_code(s) == frame_type_code(t) ==> s == t,
{
}

/// Frame types are numbered in the order I, P, B, Unknown: every type's native
/// number is below four, and the name listed at that number is the type's own
/// name. So `from_raw(0)` is the I frame and `from_raw(2)` the B frame.
pub proof fn lemma_frame_type_numbering(t: EncodedFrameType)
    ensures
        0 <= frame_type_code(t) < 4,
        seq!["I"@, "P"@, "B"@, "Unknown"@][frame_type_code(t) as int] == frame_type_name(t),
{
}

/// Profiles are numbered in the order Jpeg, Avc, Hevc: every profile's native
/// number is below three, and the name listed at that number is the profile's
/// own name.
pub proof fn lemma_profile_numbering(p: EncodedFrameProfile)
    ensures
        0 <= profile_code(p) < 3,
        seq!["Jpeg"@, "Avc"@, "Hevc"@][profile_code(p) as int] == profile_name(p),
{
}

/// The payload of an encoded frame whose buffer holds `all`: the `size` bytes
/// at `offset` when `size` is positive and that range lies inside the buffer,
/// else the whole buffer.
pub open spec fn payload_of(all: Seq<u8>, offset: int, size: int) -> Seq<u8> {
    if size > 0 && offset + size <= all.len() {
        all.subrange(offset, offset + size)
    } else {
        all
    }
}

/// Payload bytes of an encoded frame, from its buffer and the frame offset and
/// size that it records.
pub fn frame_payload(all: &[u8], offset: usize, size: usize) -> (r: Vec<u8>)
    ensures
        r@ == payload_of(all@, offset as int, size as int),
{
    let len = all.len();
    let (start, end) = if size > 0 && offset <= len && size <= len - offset {
        (offset, offset + size)
    } else {
        (0, len)
    };
    let mut out: Vec<u8> = Vec::with_capacity(end - start);
    let mut i = start;
    while i < end
        invariant
            start <= i <= end <= all@.len(),
            out@ == all@.subrange(start as int, i as int),
        decreases end - i,
    {
        out.push(all[i]);
        i = i + 1;
        assert(out@ =~= all@.subrange(start as int, i as int));
    }
    assert(all@.subrange(0, len as int) =~= all@);
    out
}

/// Description text of an encoded frame: `WxH profile type (N bytes)`, with
/// "unknown" for a profile or type that is not known.
pub open spec fn encoded_frame_text(
    width: u32,
    height: u32,
    profile: Option<EncodedFrameProfile>,
    frame_type: Option<EncodedFrameType>,
    data_len: u64,
) -> Seq<char> {
    let prof = match profile {
        Some(p) => profile_name(p),
        None => "unknown"@,
    };
    let ty = match frame_type {
        Some(t) => frame_type_name(t),
        None => "unknown"@,
    };
    decimal(width as nat) + "x"@ + decimal(height as nat) + " "@ + prof + " "@ + ty + " ("@
        + decimal(data_len as nat) + " bytes)"@
}

/// Description of an encoded frame, such as "1920x1080 Hevc P (4096 bytes)".
pub fn describe_encoded_frame(
    width: u32,
    height: u32,
    profile: Option<EncodedFrameProfile>,
    frame_type: Option<EncodedFrameType>,
    data_len: u64,
) -> (r: String)
    ensures
        r@ == encoded_frame_text(width, height, profile, frame_type, data_len),
{
    let mut s = String::new();
    push_decimal(&mut s, width as u64);
    s.append("x");
    push_decimal(&mut s, height as u64);
    s.append(" ");
    match profile {
        Some(EncodedFrameProfile::Jpeg) => s.append("Jpeg"),
        Some(EncodedFrameProfile::Avc) => s.append("Avc"),
        Some(EncodedFrameProfile::Hevc) => s.append("Hevc"),
        None => s.append("unknown"),
    }
    s.append(" ");
    match frame_type {
        Some(EncodedFrameType::I) => s.append("I"),
        Some(EncodedFrameType::P) => s.append("P"),
        Some(EncodedFrameType::B) => s.append("B"),
        Some(EncodedFrameType::Unknown) => s.append("Unknown"),
        None => s.append("unknown"),
    }
    s.append(" (");
    push_decimal(&mut s, data_len);
    s.append(" bytes)");
    s
}

/// NV12 frames need an even width and an even height. An odd one is an error
/// that reports the native layer's pending message `pending` when there is a
/// non-empty one, else says what is wrong.
pub fn validate_nv12_dimensions(
    width: u32,
    height: u32,
    pending: Option<String>,
) -> (r: Result<(), DepthaiError>)
    ensures
        r is Ok <==> (width % 2 == 0 && height % 2 == 0),
        r matches Err(e) ==> e@ == reported_message(
            "NV12 frames must have even width and height"@,
            pending_text(pending),
        ),
{
    if width % 2 != 0 || height % 2 != 0 {
        return Err(last_error("NV12 frames must have even width and height", pending));
    }
    Ok(())
}

} // verus!
