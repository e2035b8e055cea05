use tauri_runtime_cef::geometry::{
    CefRect, Float64, PhysicalPosition, PhysicalRect, PhysicalSize,
};
use tauri_runtime_cef::monitor::{
    display_to_monitor, get_available_monitors, get_monitor_from_point, get_primary_monitor,
    logical_frame, point_bounds, Display, LogicalFrame, Monitor,
};

fn rect(x: i32, y: i32, width: u32, height: u32) -> PhysicalRect {
    PhysicalRect { position: PhysicalPosition { x, y }, size: PhysicalSize { width, height } }
}

fn display(x: i32) -> Display {
    Display {
        bounds: rect(x, 0, 1920, 1080),
        work_area: rect(x, 24, 1920, 1056),
        scale_factor: Float64 { bits: 1.5f64.to_bits() },
    }
}

fn monitor(x: i32) -> Monitor {
    Monitor {
        name: None,
        size: PhysicalSize { width: 1920, height: 1080 },
        position: PhysicalPosition { x, y: 0 },
        work_area: rect(x, 24, 1920, 1056),
        scale_factor: Float64 { bits: 1.5f64.to_bits() },
    }
}

#[test]
fn display_becomes_a_monitor_without_a_name() {
    assert_eq!(display_to_monitor(display(3)), monitor(3));
}

#[test]
fn missing_display_is_no_monitor() {
    assert_eq!(get_primary_monitor(None), None);
    assert_eq!(get_primary_monitor(Some(display(0))), Some(monitor(0)));
    assert_eq!(get_monitor_from_point(None), None);
    assert_eq!(get_monitor_from_point(Some(display(9))), Some(monitor(9)));
}

#[test]
fn missing_displays_are_left_out() {
    let monitors = get_available_monitors(&vec![
        None,
        Some(display(0)),
        None,
        Some(display(1920)),
        None,
    ]);
    assert_eq!(monitors, vec![monitor(0), monitor(1920)]);
    assert_eq!(get_available_monitors(&vec![]), vec![]);
}

#[test]
fn a_point_is_one_pixel() {
    assert_eq!(point_bounds(-3, 4), CefRect { x: -3, y: 4, width: 1, height: 1 });
}

#[test]
fn frame_reads_extents_without_sign() {
    assert_eq!(
        logical_frame(CefRect { x: -1, y: 2, width: -1, height: 4 }),
        LogicalFrame { x: -1, y: 2, width: u32::MAX, height: 4 }
    );
}
