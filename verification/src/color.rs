//! The color model shared by every backend.

use vstd::prelude::*;

verus! {

/// The IEEE-754 bit pattern of the single-precision value 1.0, used as the
/// default alpha channel of an opaque color.
pub const CHANNEL_ONE_BITS: u32 = 0x3F80_0000;

/// The IEEE-754 bit pattern of the single-precision value 0.0.
pub const CHANNEL_ZERO_BITS: u32 = 0x0000_0000;

/// A color of four normalized channels (red, green, blue, alpha).
///
/// Each channel holds the IEEE-754 bit pattern of a single-precision value,
/// conceptually in [0, 1]; the type does not enforce clamping, and equality
/// is bitwise. Platform shells convert between these bit patterns and their
/// native floating-point channels.
#[derive(Clone, Copy, Debug, PartialEq, Eq, Structural)]
pub struct PittoreColor {
    /// Bit pattern of the red channel.
    pub red: u32,
    /// Bit pattern of the green channel.
    pub green: u32,
    /// Bit pattern of the blue channel.
    pub blue: u32,
    /// Bit pattern of the alpha channel.
    pub alpha: u32,
}

impl PittoreColor {
    /// Builds a color from the four channel bit patterns.
    pub fn new(red: u32, green: u32, blue: u32, alpha: u32) -> (r: Self)
        ensures
            r == (PittoreColor { red, green, blue, alpha }),
    {
        PittoreColor { red, green, blue, alpha }
    }

    /// Builds a fully opaque color: the alpha channel is set to 1.0.
    pub fn opaque(red: u32, green: u32, blue: u32) -> (r: Self)
        ensures
            r == (PittoreColor { red, green, blue, alpha: CHANNEL_ONE_BITS }),
    {
        PittoreColor { red, green, blue, alpha: CHANNEL_ONE_BITS }
    }
}

} // verus!
