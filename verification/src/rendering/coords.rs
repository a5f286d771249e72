//! The coordinate spaces of the GUI and the conversions between them.
//!
//! * Window pixel space: origin at the top-left corner of the surface, y
//!   down. Cursor positions arrive in it, and text is placed in it.
//! * Centered device space: origin at the centre of the surface. Transforms
//!   live in it, and hit-testing is done in it.
//!
//! Both conversions shift by half the surface extent, rounded down, so each is
//! the inverse of the other.

use vstd::prelude::*;
use crate::event::{PhysicalPosition, PhysicalSize};

verus! {

/// A position in centered device space: origin at the centre of the surface.
#[derive(Clone, Copy, Debug, PartialEq, Eq, Structural)]
pub struct CenteredPosition {
    pub x: i32,
    pub y: i32,
}

/// A position in window pixel space, as derived from a centered one: it may lie
/// outside the surface.
#[derive(Clone, Copy, Debug, PartialEq, Eq, Structural)]
pub struct ScreenPosition {
    pub x: i64,
    pub y: i64,
}

/// Half of a surface extent, rounded down.
pub open spec fn half_extent(extent: u32) -> int {
    extent as int / 2
}

/// A window pixel coordinate seen from the centre of the surface.
pub open spec fn pixel_to_centered(pixel: int, extent: u32) -> int {
    pixel - half_extent(extent)
}

/// A centered coordinate seen from the top-left corner of the surface.
pub open spec fn centered_to_pixel(centered: int, extent: u32) -> int {
    centered + half_extent(extent)
}

/// A cursor position in centered device space.
pub open spec fn spec_window_to_centered(position: PhysicalPosition, surface: PhysicalSize) -> (
    int,
    int,
) {
    (
        pixel_to_centered(position.x as int, surface.width),
        pixel_to_centered(position.y as int, surface.height),
    )
}

/// The screen position of text whose owner sits at `owner` in centered device
/// space.
pub open spec fn spec_centered_to_screen(
    owner: CenteredPosition,
    surface: PhysicalSize,
) -> ScreenPosition {
    ScreenPosition {
        x: centered_to_pixel(owner.x as int, surface.width) as i64,
        y: centered_to_pixel(owner.y as int, surface.height) as i64,
    }
}

pub fn window_to_centered(position: PhysicalPosition, surface: PhysicalSize) -> (centered: (
    i64,
    i64,
))
    ensures
        (centered.0 as int, centered.1 as int) == spec_window_to_centered(position, surface),
{
    let half_width: i64 = (surface.width / 2) as i64;
    let half_height: i64 = (surface.height / 2) as i64;
    (position.x as i64 - half_width, position.y as i64 - half_height)
}

pub fn centered_to_screen(owner: CenteredPosition, surface: PhysicalSize) -> (screen:
    ScreenPosition)
    ensures
        screen == spec_centered_to_screen(owner, surface),
        screen.x == centered_to_pixel(owner.x as int, surface.width),
        screen.y == centered_to_pixel(owner.y as int, surface.height),
{
    let half_width: i64 = (surface.width / 2) as i64;
    let half_height: i64 = (surface.height / 2) as i64;
    ScreenPosition { x: owner.x as i64 + half_width, y: owner.y as i64 + half_height }
}

/// The two conversions are inverse to each other, whatever the extent.
pub proof fn lemma_conversions_are_inverse(coordinate: int, extent: u32)
    ensures
        centered_to_pixel(pixel_to_centered(coordinate, extent), extent) == coordinate,
        pixel_to_centered(centered_to_pixel(coordinate, extent), extent) == coordinate,
{
}

} // verus!
