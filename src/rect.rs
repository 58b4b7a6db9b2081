use vstd::prelude::*;
use crate::vector::{fits_i16, fits_u16, UVec2, Vec2};

verus! {

// ---------------------------------------------------------------------------
// URect
// ---------------------------------------------------------------------------

/// A rectangle on an unsigned grid: its lower-left corner and its size.
#[derive(Debug, Clone, Copy)]
pub struct URect {
    pub position: UVec2,
    pub size: UVec2,
}

impl URect {
    /// The rectangle with lower-left corner `(x, y)`, `width` wide and
    /// `height` high.
    #[must_use]
    pub fn new(x: u16, y: u16, width: u16, height: u16) -> (r: Self)
        ensures
            r.position.x == x,
            r.position.y == y,
            r.size.x == width,
            r.size.y == height,
    {
        URect { position: UVec2 { x, y }, size: UVec2 { x: width, y: height } }
    }

    /// The rectangle with the given lower-left corner and size.
    #[must_use]
    pub fn with_position_and_size(position: UVec2, size: UVec2) -> (r: Self)
        ensures
            r.position == position,
            r.size == size,
    {
        URect { position, size }
    }

    /// The point half the size away from the lower-left corner, each half
    /// rounded down: an odd size puts the center toward the lower left.
    #[must_use]
    pub fn center(self) -> (r: UVec2)
        requires
            fits_u16(self.position.x + self.size.x / 2),
            fits_u16(self.position.y + self.size.y / 2),
        ensures
            r.x == self.position.x + self.size.x / 2,
            r.y == self.position.y + self.size.y / 2,
    {
        UVec2::new(self.position.x + self.size.x / 2, self.position.y + self.size.y / 2)
    }

    /// The rectangle of the same size moved by `offset`.
    #[must_use]
    pub fn with_offset(self, offset: UVec2) -> (r: Self)
        requires
            fits_u16(self.position.x + offset.x),
            fits_u16(self.position.y + offset.y),
        ensures
            r.position.x == self.position.x + offset.x,
            r.position.y == self.position.y + offset.y,
            r.size == self.size,
    {
        Self::with_position_and_size(self.position + offset, self.size)
    }
}

impl vstd::std_specs::convert::FromSpecImpl<(u16, u16, u16, u16)> for URect {
    open spec fn obeys_from_spec() -> bool {
        true
    }

    open spec fn from_spec(v: (u16, u16, u16, u16)) -> URect {
        URect { position: UVec2 { x: v.0, y: v.1 }, size: UVec2 { x: v.2, y: v.3 } }
    }
}

impl std::convert::From<(u16, u16, u16, u16)> for URect {
    /// The rectangle from `(x, y, width, height)`.
    fn from(value: (u16, u16, u16, u16)) -> (r: URect)
        ensures
            r.position.x == value.0,
            r.position.y == value.1,
            r.size.x == value.2,
            r.size.y == value.3,
    {
        URect { position: UVec2::from((value.0, value.1)), size: UVec2::from((value.2, value.3)) }
    }
}

// ---------------------------------------------------------------------------
// Rect
// ---------------------------------------------------------------------------

/// A rectangle whose lower-left corner may lie at negative coordinates, with
/// an unsigned size.
#[derive(Debug, Clone, Copy)]
pub struct Rect {
    pub position: Vec2,
    pub size: UVec2,
}

impl Rect {
    /// The rectangle with lower-left corner `(x, y)`, `width` wide and
    /// `height` high.
    #[must_use]
    pub fn new(x: i16, y: i16, width: u16, height: u16) -> (r: Self)
        ensures
            r.position.x == x,
            r.position.y == y,
            r.size.x == width,
            r.size.y == height,
    {
        Rect { position: Vec2 { x, y }, size: UVec2 { x: width, y: height } }
    }

    /// The rectangle with the given lower-left corner and size.
    #[must_use]
    pub fn with_position_and_size(position: Vec2, size: UVec2) -> (r: Self)
        ensures
            r.position == position,
            r.size == size,
    {
        Rect { position, size }
    }

    /// The point half the size away from the lower-left corner, each half
    /// rounded down: an odd size puts the center toward the lower left.
    #[must_use]
    pub fn center(self) -> (r: Vec2)
        requires
            fits_i16(self.position.x + self.size.x / 2),
            fits_i16(self.position.y + self.size.y / 2),
        ensures
            r.x == self.position.x + self.size.x / 2,
            r.y == self.position.y + self.size.y / 2,
    {
        let half_width = (self.size.x / 2) as i16;
        let half_height = (self.size.y / 2) as i16;
        Vec2::new(self.position.x + half_width, self.position.y + half_height)
    }

    /// The rectangle of the same size moved by `offset`.
    #[must_use]
    pub fn with_offset(self, offset: Vec2) -> (r: Self)
        requires
            fits_i16(self.position.x + offset.x),
            fits_i16(self.position.y + offset.y),
        ensures
            r.position.x == self.position.x + offset.x,
            r.position.y == self.position.y + offset.y,
            r.size == self.size,
    {
        Self::with_position_and_size(self.position + offset, self.size)
    }
}

impl vstd::std_specs::convert::FromSpecImpl<(i16, i16, u16, u16)> for Rect {
    open spec fn obeys_from_spec() -> bool {
        true
    }

    open spec fn from_spec(v: (i16, i16, u16, u16)) -> Rect {
        Rect { position: Vec2 { x: v.0, y: v.1 }, size: UVec2 { x: v.2, y: v.3 } }
    }
}

impl std::convert::From<(i16, i16, u16, u16)> for Rect {
    /// The rectangle from `(x, y, width, height)`.
    fn from(value: (i16, i16, u16, u16)) -> (r: Rect)
        ensures
            r.position.x == value.0,
            r.position.y == value.1,
            r.size.x == value.2,
            r.size.y == value.3,
    {
        Rect { position: Vec2::from((value.0, value.1)), size: UVec2::from((value.2, value.3)) }
    }
}

} // verus!
