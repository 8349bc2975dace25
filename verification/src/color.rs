//! Colors and the closed set of scalar color channels.

use vstd::prelude::*;

verus! {

/// An 8-bit-per-channel RGB color value, immutable once constructed.
#[derive(Clone, PartialEq, Eq, Structural)]
pub struct Color(pub u8, pub u8, pub u8);

/// The six scalar channels of a color. Each channel has a fixed
/// shader-variable suffix and belongs to one of the two color spaces
/// (`hsv` or `rgb`).
#[derive(Clone, Copy, PartialEq, Eq, Structural)]
pub enum ColorProperties {
    Hue,
    Value,
    Saturation,
    Red,
    Green,
    Blue,
}

/// The shader-variable suffix that selects this channel from a derived
/// vector, as text.
pub open spec fn suffix_text(p: ColorProperties) -> Seq<char> {
    match p {
        ColorProperties::Hue => "hsv.x"@,
        ColorProperties::Value => "hsv.y"@,
        ColorProperties::Saturation => "hsv.z"@,
        ColorProperties::Red => "rgb.x"@,
        ColorProperties::Green => "rgb.y"@,
        ColorProperties::Blue => "rgb.z"@,
    }
}

/// The color-space tag of this channel, as text.
pub open spec fn color_space_text(p: ColorProperties) -> Seq<char> {
    match p {
        ColorProperties::Hue => "hsv"@,
        ColorProperties::Value => "hsv"@,
        ColorProperties::Saturation => "hsv"@,
        ColorProperties::Red => "rgb"@,
        ColorProperties::Green => "rgb"@,
        ColorProperties::Blue => "rgb"@,
    }
}

/// True when the channel lives in the `hsv` color space.
pub open spec fn is_hsv_property(p: ColorProperties) -> bool {
    match p {
        ColorProperties::Hue => true,
        ColorProperties::Value => true,
        ColorProperties::Saturation => true,
        ColorProperties::Red => false,
        ColorProperties::Green => false,
        ColorProperties::Blue => false,
    }
}

impl ColorProperties {
    /// The shader-variable suffix used when extracting this channel.
    pub fn suffix(&self) -> (r: &'static str)
        ensures
            r@ == suffix_text(*self),
    {
        match self {
            ColorProperties::Hue => "hsv.x",
            ColorProperties::Value => "hsv.y",
            ColorProperties::Saturation => "hsv.z",
            ColorProperties::Red => "rgb.x",
            ColorProperties::Green => "rgb.y",
            ColorProperties::Blue => "rgb.z",
        }
    }

    /// The color space the channel belongs to: `hsv` for hue, saturation and
    /// value, `rgb` for the three primaries.
    pub fn get_color_space(&self) -> (r: &'static str)
        ensures
            r@ == color_space_text(*self),
    {
        match self {
            ColorProperties::Hue => "hsv",
            ColorProperties::Value => "hsv",
            ColorProperties::Saturation => "hsv",
            ColorProperties::Red => "rgb",
            ColorProperties::Green => "rgb",
            ColorProperties::Blue => "rgb",
        }
    }
}

} // verus!
