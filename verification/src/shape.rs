//! The shape model shared by every backend.
//!
//! Coordinates are carried as IEEE-754 bit patterns of single-precision
//! values, so that the core stays exact while platform shells convert to
//! their native floating-point geometry.

use vstd::prelude::*;

verus! {

/// A point (or a per-axis pair of radii); each coordinate holds the bit
/// pattern of a single-precision value.
#[derive(Clone, Copy, Debug, PartialEq, Eq, Structural)]
pub struct PittorePoint {
    /// Bit pattern of the horizontal coordinate.
    pub x: u32,
    /// Bit pattern of the vertical coordinate.
    pub y: u32,
}

/// A size; each extent holds the bit pattern of a single-precision value.
#[derive(Clone, Copy, Debug, PartialEq, Eq, Structural)]
pub struct PittoreSize {
    /// Bit pattern of the width.
    pub width: u32,
    /// Bit pattern of the height.
    pub height: u32,
}

/// An axis-aligned box: minimum corner plus size.
#[derive(Clone, Copy, Debug, PartialEq, Eq, Structural)]
pub struct PittoreRect {
    /// The minimum corner.
    pub origin: PittorePoint,
    /// The extent of the box.
    pub size: PittoreSize,
}

/// What to draw: an axis-aligned rectangle or an ellipse.
///
/// Negative sizes or radii are a caller error that this layer does not
/// validate; they are pushed to the backend.
#[derive(Clone, Copy, Debug, PartialEq, Eq, Structural)]
pub enum PittoreShape {
    /// An ellipse given by its center and its per-axis radii.
    Ellipse {
        /// The center of the ellipse.
        center: PittorePoint,
        /// The horizontal and vertical radii.
        radius: PittorePoint,
    },
    /// An axis-aligned rectangle.
    Rectangle(PittoreRect),
}

impl PittoreShape {
    /// The extent of the shape: the size of a rectangle, or the per-axis
    /// radii of an ellipse read as a size.
    pub open spec fn spec_size(self) -> PittoreSize {
        match self {
            PittoreShape::Ellipse { center: _, radius } => PittoreSize {
                width: radius.x,
                height: radius.y,
            },
            PittoreShape::Rectangle(rect) => rect.size,
        }
    }

    /// Returns the extent of the shape.
    pub fn size(&self) -> (r: PittoreSize)
        ensures
            r == self.spec_size(),
    {
        match self {
            PittoreShape::Ellipse { center: _, radius } => PittoreSize {
                width: radius.x,
                height: radius.y,
            },
            PittoreShape::Rectangle(rect) => rect.size,
        }
    }
}

} // verus!
