//! Monitors, as the displays of the browser engine describe them.
use vstd::prelude::*;

use crate::geometry::{
    to_unsigned_extent, unsigned_extent, CefRect, Float64, PhysicalPosition, PhysicalRect,
    PhysicalSize,
};

verus! {

/// A monitor of the system.
#[derive(Debug, PartialEq)]
pub struct Monitor {
    pub name: Option<String>,
    pub size: PhysicalSize,
    pub position: PhysicalPosition,
    /// The part of the monitor that no system bar covers.
    pub work_area: PhysicalRect,
    pub scale_factor: Float64,
}

/// A frame in whole logical pixels.
#[derive(Debug, Clone, Copy, PartialEq, Eq, Structural)]
pub struct LogicalFrame {
    pub x: i32,
    pub y: i32,
    pub width: u32,
    pub height: u32,
}

/// Whether `frame` is the rectangle with its extents read as unsigned numbers.
pub open spec fn is_frame_of(frame: LogicalFrame, rect: CefRect) -> bool {
    &&& frame.x == rect.x
    &&& frame.y == rect.y
    &&& frame.width == unsigned_extent(rect.width)
    &&& frame.height == unsigned_extent(rect.height)
}

/// The rectangle with its extents read as unsigned numbers.
pub fn logical_frame(rect: CefRect) -> (frame: LogicalFrame)
    ensures
        is_frame_of(frame, rect),
{
    LogicalFrame {
        x: rect.x,
        y: rect.y,
        width: to_unsigned_extent(rect.width),
        height: to_unsigned_extent(rect.height),
    }
}

/// A display, with its bounds and its work area in physical pixels.
#[derive(Debug, Clone, Copy, PartialEq, Eq, Structural)]
pub struct Display {
    pub bounds: PhysicalRect,
    pub work_area: PhysicalRect,
    pub scale_factor: Float64,
}

/// The monitor that a display stands for. It has no name.
pub open spec fn monitor_of(display: Display) -> Monitor {
    Monitor {
        name: None,
        size: display.bounds.size,
        position: display.bounds.position,
        work_area: display.work_area,
        scale_factor: display.scale_factor,
    }
}

/// The monitor that a display stands for.
pub fn display_to_monitor(display: Display) -> (monitor: Monitor)
    ensures
        monitor == monitor_of(display),
{
    Monitor {
        name: None,
        size: display.bounds.size,
        position: display.bounds.position,
        work_area: display.work_area,
        scale_factor: display.scale_factor,
    }
}

/// The monitor of a display that may be missing.
pub open spec fn some_monitor_of(display: Option<Display>) -> Option<Monitor> {
    match display {
        Some(display) => Some(monitor_of(display)),
        None => None,
    }
}

/// The monitor of the primary display.
pub fn get_primary_monitor(primary: Option<Display>) -> (monitor: Option<Monitor>)
    ensures
        monitor == some_monitor_of(primary),
{
    match primary {
        Some(display) => Some(display_to_monitor(display)),
        None => None,
    }
}

/// The rectangle that a display is looked up by: the one pixel at a point.
pub fn point_bounds(x: i32, y: i32) -> (rect: CefRect)
    ensures
        rect == (CefRect { x, y, width: 1, height: 1 }),
{
    CefRect { x, y, width: 1, height: 1 }
}

/// The monitor of the display that was found at a point.
pub fn get_monitor_from_point(matching: Option<Display>) -> (monitor: Option<Monitor>)
    ensures
        monitor == some_monitor_of(matching),
{
    match matching {
        Some(display) => Some(display_to_monitor(display)),
        None => None,
    }
}

/// The monitors of the displays that are there, in order.
pub open spec fn monitors_of(displays: Seq<Option<Display>>) -> Seq<Monitor> {
    displays.filter(|display: Option<Display>| display is Some).map_values(
        |display: Option<Display>| monitor_of(display->0),
    )
}

/// The monitors of the displays that are there, in order.
pub fn get_available_monitors(displays: &Vec<Option<Display>>) -> (monitors: Vec<Monitor>)
    ensures
        monitors@ == monitors_of(displays@),
{
    let mut monitors: Vec<Monitor> = Vec::new();
    let mut index: usize = 0;
    assert(displays@.take(0) =~= Seq::empty());
    proof {
        reveal(Seq::filter);
    }
    while index < displays.len()
        invariant
            index <= displays.len(),
            monitors@ == monitors_of(displays@.take(index as int)),
        decreases displays.len() - index,
    {
        proof {
            reveal(Seq::filter);
            let next = displays@.take(index + 1);
            assert(next.drop_last() =~= displays@.take(index as int));
            assert(next.last() == displays@[index as int]);
        }
        if let Some(display) = displays[index] {
            monitors.push(display_to_monitor(display));
        }
        assert(monitors@ =~= monitors_of(displays@.take(index + 1)));
        index = index + 1;
    }
    assert(displays@.take(index as int) =~= displays@);
    monitors
}

} // verus!
