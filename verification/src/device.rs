//! Device platforms and the decoding of the platform number a device reports,
//! and the reading of the connected-camera query.

use vstd::prelude::*;
use crate::error::{last_error, pending_text, reported_message, take_error_if_any, DepthaiError};

verus! {

/// Hardware platform of a connected device.
#[derive(Debug, Clone, Copy, PartialEq, Eq, Structural)]
pub enum DevicePlatform {
    /// RVC2-based devices (OAK-D, OAK-D-Lite, ...).
    Rvc2,
    /// RVC3-based devices.
    Rvc3,
    /// RVC4-based devices.
    Rvc4,
}

/// Native number of each device platform.
pub open spec fn device_platform_code(p: DevicePlatform) -> i32 {
    match p {
        DevicePlatform::Rvc2 => 0,
        DevicePlatform::Rvc3 => 1,
        DevicePlatform::Rvc4 => 2,
    }
}

/// Platform recorded in a device descriptor, where a number outside the known
/// platforms is kept as it is.
#[derive(Debug, Clone, Copy, PartialEq, Eq, Structural)]
pub enum Platform {
    Rvc2,
    Rvc3,
    Rvc4,
    Unknown(u32),
}

/// Platform of a descriptor field value.
pub open spec fn platform_of(raw: u32) -> Platform {
    if raw == 0 {
        Platform::Rvc2
    } else if raw == 1 {
        Platform::Rvc3
    } else if raw == 2 {
        Platform::Rvc4
    } else {
        Platform::Unknown(raw)
    }
}

/// Distinct device platforms have distinct native numbers.
pub proof fn lemma_device_platform_code_injective(a: DevicePlatform, b: DevicePlatform)
    ensures
        device_platform_code(a) == device_platform_code(b) ==> a == b,
{
}

/// Platform of a device from the number the device reports. A number outside
/// the known platforms is an error: the pending native message if there is a
/// non-empty one, else "unknown device platform".
pub fn device_platform_from_raw(
    raw: i32,
    pending: Option<String>,
) -> (r: Result<DevicePlatform, DepthaiError>)
    ensures
        0 <= raw <= 2 ==> (r matches Ok(p) && device_platform_code(p) == raw),
        !(0 <= raw <= 2) ==> (r matches Err(e) && e@ == reported_message(
            "unknown device platform"@,
            pending_text(pending),
        )),
{
    match raw {
        0 => Ok(DevicePlatform::Rvc2),
        1 => Ok(DevicePlatform::Rvc3),
        2 => Ok(DevicePlatform::Rvc4),
        _ => Err(last_error("unknown device platform", pending)),
    }
}

/// Socket codes of the connected cameras from what the native query gave back:
/// `raw` holds the codes it wrote and `count` is the number it returned. A count
/// of zero or less means no camera, unless a native message `pending` is waiting,
/// which makes it an error ("failed to query connected cameras" for an empty
/// message). Otherwise the first `count` codes are kept, or all of `raw` when
/// `count` is larger.
pub fn connected_socket_codes(
    raw: &[i32],
    count: i32,
    pending: Option<String>,
) -> (r: Result<Vec<i32>, DepthaiError>)
    ensures
        count <= 0 && pending is None ==> (r matches Ok(v) && v@.len() == 0),
        count <= 0 && pending is Some ==> (r matches Err(e) && e@ == reported_message(
            "failed to query connected cameras"@,
            pending_text(pending),
        )),
        count > 0 ==> (r matches Ok(v) && v@ == raw@.take(
            if count <= raw@.len() { count as int } else { raw@.len() as int },
        )),
{
    if count <= 0 {
        return match take_error_if_any("failed to query connected cameras", pending) {
            Some(e) => Err(e),
            None => Ok(Vec::new()),
        };
    }
    let n: usize = if (count as usize) < raw.len() {
        count as usize
    } else {
        raw.len()
    };
    let mut v: Vec<i32> = Vec::with_capacity(n);
    let mut i: usize = 0;
    while i < n
        invariant
            n <= raw@.len(),
            i <= n,
            v@ == raw@.take(i as int),
        decreases n - i,
    {
        v.push(raw[i]);
        i = i + 1;
        assert(v@ =~= raw@.take(i as int));
    }
    Ok(v)
}

} // verus!
