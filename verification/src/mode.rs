//! The hierarchy of mutually-exclusive hardware rendering modes.
//!
//! A `DriverMode` is either `Normal`, carrying a bit depth whose arm exposes
//! exactly the sub-settings meaningful at that depth, or `Fast`, driven only
//! by a dithering pattern. Each leaf knows its hardware wire code.

use vstd::prelude::*;

verus! {

/// The thresholding level the hardware reverts to while no
/// thresholding branch is active.
pub const DEFAULT_THRESHOLD_LEVEL: u8 = 7;

/// Error-diffusion pattern; maps 1:1 to hardware codes 0/1/2.
#[derive(Copy, Clone, Debug, PartialEq, Eq, Structural)]
pub enum Dithering {
    Bayer,
    BlueNoise16,
    BlueNoise32,
}

impl Dithering {
    /// The hardware code written to the dither-mode property.
    pub open spec fn spec_code(self) -> u8 {
        match self {
            Dithering::Bayer => 0,
            Dithering::BlueNoise16 => 1,
            Dithering::BlueNoise32 => 2,
        }
    }

    /// Returns the hardware code for the dither-mode property.
    pub fn code(&self) -> (r: u8)
        ensures
            r == self.spec_code(),
    {
        match self {
            Dithering::Bayer => 0,
            Dithering::BlueNoise16 => 1,
            Dithering::BlueNoise32 => 2,
        }
    }
}

impl Default for Dithering {
    fn default() -> (r: Self)
        ensures
            r == Dithering::Bayer,
    {
        Dithering::Bayer
    }
}

/// Gray cutoff used only under Y1 + Thresholding; constrained to 2..=15.
#[derive(Copy, Clone, Debug, PartialEq, Eq, Structural)]
pub enum ThresholdLevel {
    L2,
    L3,
    L4,
    L5,
    L6,
    L7,
    L8,
    L9,
    L10,
    L11,
    L12,
    L13,
    L14,
    L15,
}

impl ThresholdLevel {
    /// The numeric level this variant stands for.
    pub open spec fn as_int(self) -> int {
        match self {
            ThresholdLevel::L2 => 2,
            ThresholdLevel::L3 => 3,
            ThresholdLevel::L4 => 4,
            ThresholdLevel::L5 => 5,
            ThresholdLevel::L6 => 6,
            ThresholdLevel::L7 => 7,
            ThresholdLevel::L8 => 8,
            ThresholdLevel::L9 => 9,
            ThresholdLevel::L10 => 10,
            ThresholdLevel::L11 => 11,
            ThresholdLevel::L12 => 12,
            ThresholdLevel::L13 => 13,
            ThresholdLevel::L14 => 14,
            ThresholdLevel::L15 => 15,
        }
    }

    /// Returns the numeric level, always in 2..=15.
    pub fn to_u8(&self) -> (r: u8)
        ensures
            r == self.as_int(),
            2 <= r <= 15,
    {
        match self {
            ThresholdLevel::L2 => 2,
            ThresholdLevel::L3 => 3,
            ThresholdLevel::L4 => 4,
            ThresholdLevel::L5 => 5,
            ThresholdLevel::L6 => 6,
            ThresholdLevel::L7 => 7,
            ThresholdLevel::L8 => 8,
            ThresholdLevel::L9 => 9,
            ThresholdLevel::L10 => 10,
            ThresholdLevel::L11 => 11,
            ThresholdLevel::L12 => 12,
            ThresholdLevel::L13 => 13,
            ThresholdLevel::L14 => 14,
            ThresholdLevel::L15 => 15,
        }
    }

    /// The variant standing for a numeric level, defined for 2..=15.
    pub open spec fn spec_from_int(v: int) -> ThresholdLevel
        recommends
            2 <= v <= 15,
    {
        if v == 2 {
            ThresholdLevel::L2
        } else if v == 3 {
            ThresholdLevel::L3
        } else if v == 4 {
            ThresholdLevel::L4
        } else if v == 5 {
            ThresholdLevel::L5
        } else if v == 6 {
            ThresholdLevel::L6
        } else if v == 7 {
            ThresholdLevel::L7
        } else if v == 8 {
            ThresholdLevel::L8
        } else if v == 9 {
            ThresholdLevel::L9
        } else if v == 10 {
            ThresholdLevel::L10
        } else if v == 11 {
            ThresholdLevel::L11
        } else if v == 12 {
            ThresholdLevel::L12
        } else if v == 13 {
            ThresholdLevel::L13
        } else if v == 14 {
            ThresholdLevel::L14
        } else {
            ThresholdLevel::L15
        }
    }

    /// Returns the variant for a numeric level, exactly when it lies in 2..=15.
    pub fn try_from(value: u8) -> (r: Result<ThresholdLevel, ()>)
        ensures
            2 <= value <= 15 ==> r == Result::<ThresholdLevel, ()>::Ok(
                ThresholdLevel::spec_from_int(value as int),
            ),
            !(2 <= value <= 15) ==> r is Err,
            r matches Ok(l) ==> l.as_int() == value,
    {
        match value {
            2 => Ok(ThresholdLevel::L2),
            3 => Ok(ThresholdLevel::L3),
            4 => Ok(ThresholdLevel::L4),
            5 => Ok(ThresholdLevel::L5),
            6 => Ok(ThresholdLevel::L6),
            7 => Ok(ThresholdLevel::L7),
            8 => Ok(ThresholdLevel::L8),
            9 => Ok(ThresholdLevel::L9),
            10 => Ok(ThresholdLevel::L10),
            11 => Ok(ThresholdLevel::L11),
            12 => Ok(ThresholdLevel::L12),
            13 => Ok(ThresholdLevel::L13),
            14 => Ok(ThresholdLevel::L14),
            15 => Ok(ThresholdLevel::L15),
            _ => Err(()),
        }
    }

    /// Maps a UI-scale value (clamped into 1..=100) to a thresholding level
    /// through the value mapper, so the result always lies in 2..=15.
    pub fn get_from_eww(level: u8) -> (r: ThresholdLevel)
        ensures
            r.as_int() == crate::mappers::threshold_map(crate::mappers::clamp_ui(level as int)),
            r == ThresholdLevel::spec_from_int(
                crate::mappers::threshold_map(crate::mappers::clamp_ui(level as int)),
            ),
    {
        let converted = crate::mappers::threshold_from_ui(level);
        match ThresholdLevel::try_from(converted) {
            Ok(l) => l,
            Err(()) => ThresholdLevel::L7,
        }
    }
}

impl Default for ThresholdLevel {
    fn default() -> (r: Self)
        ensures
            r == ThresholdLevel::L7,
    {
        ThresholdLevel::L7
    }
}

/// Options of a fast partial redraw; the delay is a hardware-scale value.
#[derive(Copy, Clone, Debug, PartialEq, Eq, Structural)]
pub struct RedrawOptions {
    pub delay: u16,
}

impl RedrawOptions {
    /// A hardware-acceptable redraw delay lies in 10..=300.
    pub open spec fn valid(self) -> bool {
        10 <= self.delay <= 300
    }
}

impl Default for RedrawOptions {
    fn default() -> (r: Self)
        ensures
            r == (RedrawOptions { delay: 25 }),
    {
        RedrawOptions { delay: 25 }
    }
}

/// Partial-update strategy: fast lower-quality redraw after a delay, or none.
#[derive(Copy, Clone, Debug, PartialEq, Eq, Structural)]
pub enum Redraw {
    FastDrawing(RedrawOptions),
    DisableFastDrawing,
}

impl Redraw {
    /// Well-formed: a fast redraw carries a hardware-acceptable delay.
    pub open spec fn valid(self) -> bool {
        match self {
            Redraw::FastDrawing(o) => o.valid(),
            Redraw::DisableFastDrawing => true,
        }
    }
}

impl Default for Redraw {
    fn default() -> (r: Self)
        ensures
            r == Redraw::DisableFastDrawing,
    {
        Redraw::DisableFastDrawing
    }
}

/// How grayscale is converted to the display's native levels.
#[derive(Copy, Clone, Debug, PartialEq, Eq, Structural)]
pub enum Conversion {
    Thresholding,
    Dithering(Dithering),
}

impl Default for Conversion {
    fn default() -> (r: Self)
        ensures
            r == Conversion::Thresholding,
    {
        Conversion::Thresholding
    }
}

/// Pixel bit depth under Normal mode; each arm exposes only the sub-settings
/// meaningful at that depth (Y1 never exposes Redraw, Y4 never Conversion).
#[derive(Copy, Clone, Debug, PartialEq, Eq, Structural)]
pub enum BitDepth {
    Y1(Conversion, ThresholdLevel),
    Y2(Conversion, Redraw),
    Y4(Redraw),
}

impl BitDepth {
    /// Well-formed: any redraw carried is itself well-formed.
    pub open spec fn valid(self) -> bool {
        match self {
            BitDepth::Y1(_, _) => true,
            BitDepth::Y2(_, r) => r.valid(),
            BitDepth::Y4(r) => r.valid(),
        }
    }
}

impl Default for BitDepth {
    fn default() -> (r: Self)
        ensures
            r == BitDepth::Y2(Conversion::Thresholding, Redraw::DisableFastDrawing),
    {
        BitDepth::Y2(Conversion::Thresholding, Redraw::DisableFastDrawing)
    }
}

/// Top-level hardware rendering mode. Fast mode bypasses the bit depth
/// entirely and is driven only by a dithering pattern.
#[derive(Copy, Clone, Debug, PartialEq, Eq, Structural)]
pub enum DriverMode {
    Normal(BitDepth),
    Fast(Dithering),
}

impl DriverMode {
    /// The hardware code written to the driver-mode property.
    pub open spec fn spec_code(self) -> u8 {
        match self {
            DriverMode::Normal(_) => 0,
            DriverMode::Fast(_) => 1,
        }
    }

    /// Returns the hardware code for the driver-mode property.
    pub fn code(&self) -> (r: u8)
        ensures
            r == self.spec_code(),
    {
        match self {
            DriverMode::Normal(_) => 0,
            DriverMode::Fast(_) => 1,
        }
    }

    /// Well-formed: any redraw carried is itself well-formed.
    pub open spec fn valid(self) -> bool {
        match self {
            DriverMode::Normal(bd) => bd.valid(),
            DriverMode::Fast(_) => true,
        }
    }
}

impl Default for DriverMode {
    fn default() -> (r: Self)
        ensures
            r == DriverMode::Normal(
                BitDepth::Y2(Conversion::Thresholding, Redraw::DisableFastDrawing),
            ),
    {
        DriverMode::Normal(BitDepth::Y2(Conversion::Thresholding, Redraw::DisableFastDrawing))
    }
}

} // verus!
