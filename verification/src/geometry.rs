//! Positions, sizes and rectangles.
//!
//! Floating point coordinates are carried as their bit patterns: nothing here computes
//! with them.
use vstd::prelude::*;

verus! {

/// A 64-bit floating point number, held by its bit pattern.
#[derive(Debug, Clone, Copy, PartialEq, Eq, Structural)]
pub struct Float64 {
    pub bits: u64,
}

/// A position in physical pixels.
#[derive(Debug, Clone, Copy, PartialEq, Eq, Structural)]
pub struct PhysicalPosition {
    pub x: i32,
    pub y: i32,
}

/// A size in physical pixels.
#[derive(Debug, Clone, Copy, PartialEq, Eq, Structural)]
pub struct PhysicalSize {
    pub width: u32,
    pub height: u32,
}

/// A rectangle in physical pixels.
#[derive(Debug, Clone, Copy, PartialEq, Eq, Structural)]
pub struct PhysicalRect {
    pub position: PhysicalPosition,
    pub size: PhysicalSize,
}

/// A position in logical pixels.
#[derive(Debug, Clone, Copy, PartialEq, Eq, Structural)]
pub struct LogicalPosition {
    pub x: Float64,
    pub y: Float64,
}

/// A size in logical pixels.
#[derive(Debug, Clone, Copy, PartialEq, Eq, Structural)]
pub struct LogicalSize {
    pub width: Float64,
    pub height: Float64,
}

/// A position in either unit.
#[derive(Debug, Clone, Copy, PartialEq, Eq, Structural)]
pub enum Position {
    Physical(PhysicalPosition),
    Logical(LogicalPosition),
}

/// A size in either unit.
#[derive(Debug, Clone, Copy, PartialEq, Eq, Structural)]
pub enum Size {
    Physical(PhysicalSize),
    Logical(LogicalSize),
}

/// A rectangle whose position and size each have their own unit.
#[derive(Debug, Clone, Copy, PartialEq, Eq, Structural)]
pub struct Rect {
    pub position: Position,
    pub size: Size,
}

/// One coordinate in either unit.
#[derive(Debug, Clone, Copy, PartialEq, Eq, Structural)]
pub enum PixelUnit {
    Physical(i32),
    Logical(Float64),
}

/// The limits on the inner size of a window; `None` is no limit.
#[derive(Debug, Clone, Copy, PartialEq, Eq, Structural)]
pub struct WindowSizeConstraints {
    pub min_width: Option<PixelUnit>,
    pub min_height: Option<PixelUnit>,
    pub max_width: Option<PixelUnit>,
    pub max_height: Option<PixelUnit>,
}

/// A point as the browser engine describes it.
#[derive(Debug, Clone, Copy, PartialEq, Eq, Structural)]
pub struct CefPoint {
    pub x: i32,
    pub y: i32,
}

/// A rectangle as the browser engine describes it.
#[derive(Debug, Clone, Copy, PartialEq, Eq, Structural)]
pub struct CefRect {
    pub x: i32,
    pub y: i32,
    pub width: i32,
    pub height: i32,
}

/// The two's complement reading of an unsigned extent: extents of 2^31 and more come out
/// negative.
pub open spec fn signed_extent(extent: u32) -> int {
    if extent < 0x8000_0000 {
        extent as int
    } else {
        extent - 0x1_0000_0000
    }
}

/// The unsigned reading of a signed extent: negative extents come out as 2^31 and more.
pub open spec fn unsigned_extent(extent: i32) -> int {
    if extent >= 0 {
        extent as int
    } else {
        extent + 0x1_0000_0000
    }
}

/// Reads an unsigned extent as a signed one.
pub fn to_signed_extent(extent: u32) -> (signed: i32)
    ensures
        signed == signed_extent(extent),
{
    assert(extent < 0x8000_0000u32 ==> extent as i32 == extent) by (bit_vector);
    assert(extent >= 0x8000_0000u32 ==> extent as i32 == extent - 0x1_0000_0000) by (bit_vector);
    extent as i32
}

/// Reads a signed extent as an unsigned one.
pub fn to_unsigned_extent(extent: i32) -> (unsigned: u32)
    ensures
        unsigned == unsigned_extent(extent),
{
    assert(extent >= 0i32 ==> extent as u32 == extent) by (bit_vector);
    assert(extent < 0i32 ==> extent as u32 == extent + 0x1_0000_0000) by (bit_vector);
    extent as u32
}

/// The rectangle that a window at `position` with a surface of `size` covers.
pub open spec fn frame_of(position: PhysicalPosition, size: PhysicalSize) -> CefRect {
    CefRect {
        x: position.x,
        y: position.y,
        width: signed_extent(size.width) as i32,
        height: signed_extent(size.height) as i32,
    }
}

/// The rectangle that a window covers.
pub fn window_frame(position: PhysicalPosition, size: PhysicalSize) -> (frame: CefRect)
    ensures
        frame == frame_of(position, size),
{
    CefRect {
        x: position.x,
        y: position.y,
        width: to_signed_extent(size.width),
        height: to_signed_extent(size.height),
    }
}

/// Reading an extent as a signed number and back gives the extent.
pub proof fn extent_round_trip(extent: u32)
    ensures
        unsigned_extent(signed_extent(extent) as i32) == extent,
{
}

} // verus!
