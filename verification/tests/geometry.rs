use tauri_runtime_cef::geometry::{
    to_signed_extent, to_unsigned_extent, window_frame, CefRect, PhysicalPosition, PhysicalSize,
};

#[test]
fn extents_wrap_at_the_sign() {
    assert_eq!(to_signed_extent(800), 800);
    assert_eq!(to_signed_extent(0x8000_0000), i32::MIN);
    assert_eq!(to_signed_extent(u32::MAX), -1);
    assert_eq!(to_unsigned_extent(600), 600);
    assert_eq!(to_unsigned_extent(-1), u32::MAX);
}

#[test]
fn extents_come_back() {
    let extents: [u32; 5] = [0, 1, 0x7FFF_FFFF, 0x8000_0000, u32::MAX];
    for extent in extents {
        assert_eq!(to_unsigned_extent(to_signed_extent(extent)), extent);
    }
}

#[test]
fn frame_of_a_window() {
    let frame = window_frame(
        PhysicalPosition { x: -5, y: 7 },
        PhysicalSize { width: 1920, height: 1080 },
    );
    assert_eq!(frame, CefRect { x: -5, y: 7, width: 1920, height: 1080 });
}
