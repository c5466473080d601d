//! The plain values that cross the library's interface.

use vstd::prelude::*;
use crate::codes::Layout;
use crate::flags::Flags;

verus! {

/// A frame size in pixels.
#[derive(Copy, Clone, PartialEq, Eq, Debug, Structural)]
pub struct Resolution {
    pub width: u32,
    pub height: u32,
}

/// One captured frame.
///
/// The layout of `data` depends on `bits` and on the raw-capture and RGB48
/// options that were in force when the frame was pulled.
#[derive(Clone, PartialEq, Eq, Debug)]
pub struct Image {
    pub resolution: Resolution,
    pub bits: u32,
    pub data: Vec<u8>,
}

/// The layout and depth of raw sensor data.
#[derive(Copy, Clone, PartialEq, Eq, Debug, Structural)]
pub struct Format {
    pub fourcc: Layout,
    pub bit_depth: u32,
}

/// A rectangle in pixels, given by its bounds.
#[derive(Copy, Clone, PartialEq, Eq, Debug, Structural)]
pub struct Rect {
    pub left: u32,
    pub top: u32,
    pub right: u32,
    pub bottom: u32,
}

/// The legal values of a tunable parameter.
#[derive(Copy, Clone, PartialEq, Eq, Debug)]
pub struct Range<T> {
    pub minimum: T,
    pub maximum: T,
    pub default: T,
}

/// A colour temperature and tint.
#[derive(Copy, Clone, PartialEq, Eq, Debug, Structural)]
pub struct TempTint {
    pub temperature: u32,
    pub tint: u32,
}

/// White balance as colour temperature and tint.
#[derive(Copy, Clone, PartialEq, Eq, Debug, Structural)]
pub struct WhiteBalanceTempTint {
    pub temperature: u32,
    pub tint: u32,
}

/// White balance as one gain per colour channel.
#[derive(Copy, Clone, PartialEq, Eq, Debug, Structural)]
pub struct WhiteBalanceRGB {
    pub red: i32,
    pub green: i32,
    pub blue: i32,
}

/// The low and high level of each channel.
#[derive(Copy, Clone, PartialEq, Eq, Debug)]
pub struct LevelRanges {
    pub red: (u16, u16),
    pub green: (u16, u16),
    pub blue: (u16, u16),
    pub gray: (u16, u16),
}

/// What a camera model can do.
#[derive(Clone, Debug)]
pub struct Model {
    pub name: String,
    pub flags: Flags,
    pub maximum_speed: u32,
    pub preview_resolutions: Vec<Resolution>,
    pub still_resolutions: Vec<Resolution>,
}

/// A connected camera, as enumeration found it.
#[derive(Clone, Debug)]
pub struct Instance {
    /// The name to show to a user.
    pub display_name: String,
    /// The opaque identifier by which the camera is opened.
    pub unique_id: String,
    pub model: Model,
}

} // verus!
