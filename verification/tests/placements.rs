use tauri_runtime_cef::geometry::{CefRect, PhysicalSize};
use tauri_runtime_cef::placement::{
    follow_window, macos_webview_bounds, place_webview, webview_bounds_ratio, LogicalPlace,
};
use tauri_runtime_cef::webview::{Rate, Webview, WebviewBounds};
use tauri_runtime_cef::webview_message::{get_webview, handle_webview_message, WebviewMessage};
use tauri_runtime_cef::window::{AppWindowKind, Window, Windows};
use tauri_runtime_cef::window_builder::CefWindowBuilder;

const SURFACE: PhysicalSize = PhysicalSize { width: 1000, height: 500 };
const CURRENT: CefRect = CefRect { x: 10, y: 20, width: 300, height: 400 };

fn rate(part: i64, whole: u32) -> Rate {
    Rate { part, whole }
}

fn windows() -> Windows {
    let webview = Webview {
        webview_id: 1,
        label: "webview".to_string(),
        browser: Some(4),
        browser_id: 4,
        overlay: Some(9),
        bounds: None,
        devtools_enabled: false,
        runtime_style: None,
        uri_scheme_protocols: Vec::new(),
        initialization_scripts: Vec::new(),
    };
    let mut windows = Windows::new();
    windows.insert(
        1,
        Window::new(
            "main".to_string(),
            AppWindowKind::Window(7),
            CefWindowBuilder::new(),
            vec![webview],
        ),
    );
    windows
}

fn kept(windows: &Windows) -> Option<WebviewBounds> {
    get_webview(windows, 1, 1).unwrap().bounds
}

#[test]
fn following_keeps_the_shares_of_the_overlay() {
    let mut windows = windows();
    follow_window(&mut windows, 1, 1, SURFACE, CURRENT);
    assert_eq!(
        kept(&windows),
        Some(WebviewBounds {
            x_rate: rate(10, 1000),
            y_rate: rate(20, 500),
            width_rate: rate(300, 1000),
            height_rate: rate(400, 500),
        })
    );
}

#[test]
fn placing_moves_the_overlay() {
    let mut windows = windows();
    let position = LogicalPlace::Position { x: -1, y: 2 };
    let moved = place_webview(&mut windows, 1, 1, position, CURRENT, None, Some(SURFACE));
    assert_eq!(moved, CefRect { x: -1, y: 2, width: 300, height: 400 });
    let size = LogicalPlace::Size { width: 5, height: 6 };
    let sized = place_webview(&mut windows, 1, 1, size, CURRENT, Some(28), Some(SURFACE));
    assert_eq!(sized, CefRect { x: 10, y: 48, width: 5, height: 6 });
    let bounds = LogicalPlace::Bounds { x: 1, y: 2, width: 3, height: 4 };
    let placed = place_webview(&mut windows, 1, 1, bounds, CURRENT, Some(28), Some(SURFACE));
    assert_eq!(placed, CefRect { x: 1, y: 30, width: 3, height: 4 });
    assert_eq!(kept(&windows), None);
}

#[test]
fn placing_updates_the_shares_of_a_webview_that_follows() {
    let mut windows = windows();
    follow_window(&mut windows, 1, 1, SURFACE, CURRENT);
    let other = PhysicalSize { width: 2000, height: 800 };
    let position = LogicalPlace::Position { x: -1, y: 2 };
    place_webview(&mut windows, 1, 1, position, CURRENT, None, Some(other));
    assert_eq!(
        kept(&windows),
        Some(WebviewBounds {
            x_rate: rate(-1, 2000),
            y_rate: rate(2, 800),
            width_rate: rate(300, 1000),
            height_rate: rate(400, 500),
        })
    );
    let size = LogicalPlace::Size { width: 5, height: u32::MAX };
    place_webview(&mut windows, 1, 1, size, CURRENT, None, Some(other));
    assert_eq!(
        kept(&windows),
        Some(WebviewBounds {
            x_rate: rate(-1, 2000),
            y_rate: rate(2, 800),
            width_rate: rate(5, 2000),
            height_rate: rate(4_294_967_295, 800),
        })
    );
}

#[test]
fn placing_by_bounds_is_placing_by_both() {
    let mut by_bounds = windows();
    let mut by_both = windows();
    follow_window(&mut by_bounds, 1, 1, SURFACE, CURRENT);
    follow_window(&mut by_both, 1, 1, SURFACE, CURRENT);
    let bounds = LogicalPlace::Bounds { x: 1, y: 2, width: 3, height: 4 };
    let position = LogicalPlace::Position { x: 1, y: 2 };
    let size = LogicalPlace::Size { width: 3, height: 4 };
    let at_once = place_webview(&mut by_bounds, 1, 1, bounds, CURRENT, None, Some(SURFACE));
    let first = place_webview(&mut by_both, 1, 1, position, CURRENT, None, Some(SURFACE));
    let second = place_webview(&mut by_both, 1, 1, size, first, None, Some(SURFACE));
    assert_eq!(at_once, second);
    assert_eq!(kept(&by_bounds), kept(&by_both));
    let mut anew = windows();
    follow_window(&mut anew, 1, 1, SURFACE, at_once);
    assert_eq!(kept(&anew), kept(&by_bounds));
}

#[test]
fn webview_stands_below_the_title_bar() {
    assert_eq!(
        macos_webview_bounds(CURRENT, 28),
        CefRect { x: 10, y: 48, width: 300, height: 400 }
    );
}

#[test]
fn ratio_prefers_the_given_bounds() {
    let window = CefRect { x: 0, y: 0, width: 1000, height: 500 };
    let overlay = CefRect { x: 1, y: 2, width: 3, height: 4 };
    let expected = |x: i64, y: i64, width: i64, height: i64| WebviewBounds {
        x_rate: rate(x, 1000),
        y_rate: rate(y, 500),
        width_rate: rate(width, 1000),
        height_rate: rate(height, 500),
    };
    assert_eq!(webview_bounds_ratio(window, Some(CURRENT), overlay), expected(10, 20, 300, 400));
    assert_eq!(webview_bounds_ratio(window, None, overlay), expected(1, 2, 3, 4));
    let negative = CefRect { x: -5, y: 0, width: -1, height: 0 };
    assert_eq!(
        webview_bounds_ratio(window, Some(negative), overlay),
        expected(-5, 0, 4_294_967_295, 0)
    );
}

#[test]
fn following_ends_when_told() {
    let mut windows = windows();
    follow_window(&mut windows, 1, 1, SURFACE, CURRENT);
    assert!(kept(&windows).is_some());
    handle_webview_message(&mut windows, 1, 1, WebviewMessage::SetAutoResize(false));
    assert_eq!(kept(&windows), None);
    let webview = get_webview(&windows, 1, 1).unwrap();
    assert_eq!(webview.overlay, Some(9));
    assert_eq!(webview.browser, Some(4));
    assert_eq!(webview.label, "webview");
}

#[test]
fn placing_does_not_depend_on_the_order() {
    let position = LogicalPlace::Position { x: 1, y: 2 };
    let size = LogicalPlace::Size { width: 3, height: 4 };
    let bounds = LogicalPlace::Bounds { x: 1, y: 2, width: 3, height: 4 };
    for places in [vec![position, size], vec![size, position], vec![bounds]] {
        let mut windows = windows();
        follow_window(&mut windows, 1, 1, SURFACE, CURRENT);
        let mut current = CURRENT;
        for place in places {
            current = place_webview(&mut windows, 1, 1, place, current, None, Some(SURFACE));
        }
        assert_eq!(current, CefRect { x: 1, y: 2, width: 3, height: 4 });
        assert_eq!(
            kept(&windows),
            Some(WebviewBounds {
                x_rate: rate(1, 1000),
                y_rate: rate(2, 500),
                width_rate: rate(3, 1000),
                height_rate: rate(4, 500),
            })
        );
    }
}

#[test]
fn title_bar_moves_the_overlay_each_time() {
    let mut windows = windows();
    let position = LogicalPlace::Position { x: 10, y: 20 };
    let size = LogicalPlace::Size { width: 3, height: 4 };
    let moved = place_webview(&mut windows, 1, 1, position, CURRENT, Some(28), Some(SURFACE));
    let sized = place_webview(&mut windows, 1, 1, size, moved, Some(28), Some(SURFACE));
    assert_eq!((moved.y, sized.y), (48, 76));
}
