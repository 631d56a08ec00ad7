//! RGB-D depth units.

use vstd::prelude::*;

verus! {

/// Unit in which an RGB-D node reports depth.
#[derive(Debug, Clone, Copy, PartialEq, Eq, Structural)]
pub enum DepthUnit {
    Meter,
    Centimeter,
    Millimeter,
    Inch,
    Foot,
    Custom,
}

} // verus!
