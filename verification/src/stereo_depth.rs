//! Stereo depth presets.

use vstd::prelude::*;

verus! {

/// Default profile preset of a stereo depth node.
#[derive(Debug, Clone, Copy, PartialEq, Eq, Structural)]
pub enum PresetMode {
    FastAccuracy,
    FastDensity,
    Default,
    Face,
    HighDetail,
    Robotics,
}

} // verus!
