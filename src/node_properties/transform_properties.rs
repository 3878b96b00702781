//! Geometric transforms of a video stream.
use vstd::prelude::*;

use crate::resolution::{Crop, Resolution};

verus! {

#[derive(Debug, Clone, Copy, PartialEq, Eq, Structural)]
pub enum FlipDirection {
    Horizontal,
    Vertical,
}

/// An angle in degrees, held as the bit pattern of an IEEE-754 binary64 value
/// (`f64::to_bits`), so that it is carried without rounding.
#[derive(Debug, Clone, Copy, PartialEq, Eq, Structural)]
pub struct Degrees {
    pub bits: u64,
}

#[derive(Default, Debug, Clone, PartialEq)]
pub struct TransformProperties {
    /// Framerate (wire alias `fps`).
    pub framerate: Option<u32>,
    pub resolution: Option<Resolution>,
    /// Rotation angle.
    pub rotation: Option<Degrees>,
    pub flip_direction: Option<FlipDirection>,
    /// Crop region (wire alias `crop`).
    pub crop_region: Option<Crop>,
}

} // verus!
