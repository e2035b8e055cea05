//! Where a webview stands in its window.
use vstd::prelude::*;

use crate::geometry::{
    signed_extent, to_signed_extent, to_unsigned_extent, unsigned_extent, CefRect, PhysicalSize,
};
use crate::webview::{
    find_webview, first_is_unique, webview_index, webview_index_finds, Rate, Webview, WebviewBounds,
    WebviewId, WindowId,
};
use crate::webview_message::{
    overlay_of, webview_of, windows_after_webview, with_bounds, WebviewMessage,
};
use crate::window::{WindowView, Windows};
use crate::window_message::native_window;

verus! {

/// A place for a webview, in whole logical pixels.
#[derive(Debug, Clone, Copy, PartialEq, Eq, Structural)]
pub enum LogicalPlace {
    Position { x: i32, y: i32 },
    Size { width: u32, height: u32 },
    Bounds { x: i32, y: i32, width: u32, height: u32 },
}

impl LogicalPlace {
    /// The position that the place asks for.
    pub open spec fn position(self) -> Option<(i32, i32)> {
        match self {
            LogicalPlace::Position { x, y } | LogicalPlace::Bounds { x, y, .. } => Some((x, y)),
            LogicalPlace::Size { .. } => None,
        }
    }

    /// The size that the place asks for.
    pub open spec fn size(self) -> Option<(u32, u32)> {
        match self {
            LogicalPlace::Size { width, height } | LogicalPlace::Bounds { width, height, .. } => {
                Some((width, height))
            },
            LogicalPlace::Position { .. } => None,
        }
    }
}

/// The bounds of an overlay that was at `current`: what the place does not ask for stays.
pub open spec fn placed(current: CefRect, place: LogicalPlace) -> CefRect {
    CefRect {
        x: match place.position() {
            Some((x, _)) => x,
            None => current.x,
        },
        y: match place.position() {
            Some((_, y)) => y,
            None => current.y,
        },
        width: match place.size() {
            Some((width, _)) => signed_extent(width) as i32,
            None => current.width,
        },
        height: match place.size() {
            Some((_, height)) => signed_extent(height) as i32,
            None => current.height,
        },
    }
}

/// The rectangle below a title bar; `None` is no title bar.
pub open spec fn below_title_bar(bounds: CefRect, height: Option<i32>) -> CefRect {
    match height {
        Some(height) => CefRect { y: (bounds.y + height) as i32, ..bounds },
        None => bounds,
    }
}

/// The shares that a webview keeps, once it was placed in a window of the given size.
pub open spec fn rates_after(
    rates: WebviewBounds,
    place: LogicalPlace,
    surface: PhysicalSize,
) -> WebviewBounds {
    WebviewBounds {
        x_rate: match place.position() {
            Some((x, _)) => Rate { part: x as i64, whole: surface.width },
            None => rates.x_rate,
        },
        y_rate: match place.position() {
            Some((_, y)) => Rate { part: y as i64, whole: surface.height },
            None => rates.y_rate,
        },
        width_rate: match place.size() {
            Some((width, _)) => Rate { part: width as i64, whole: surface.width },
            None => rates.width_rate,
        },
        height_rate: match place.size() {
            Some((_, height)) => Rate { part: height as i64, whole: surface.height },
            None => rates.height_rate,
        },
    }
}

/// The shares that a rectangle has in a window of the given size.
pub open spec fn ratio(surface: PhysicalSize, bounds: CefRect) -> WebviewBounds {
    WebviewBounds {
        x_rate: Rate { part: bounds.x as i64, whole: surface.width },
        y_rate: Rate { part: bounds.y as i64, whole: surface.height },
        width_rate: Rate { part: unsigned_extent(bounds.width) as i64, whole: surface.width },
        height_rate: Rate { part: unsigned_extent(bounds.height) as i64, whole: surface.height },
    }
}

/// The windows after the shares that a webview keeps were set.
pub open spec fn with_webview_bounds(
    windows: Map<WindowId, WindowView>,
    id: WindowId,
    webview_id: WebviewId,
    bounds: Option<WebviewBounds>,
) -> Map<WindowId, WindowView> {
    let window = windows[id];
    windows.insert(
        id,
        WindowView {
            webviews: with_bounds(
                window.webviews,
                webview_index(window.webviews, webview_id)->0,
                bounds,
            ),
            ..window
        },
    )
}

/// The windows after a webview was placed: one that follows a window of the system, whose surface
/// has the given size, keeps its new shares.
pub open spec fn windows_after_place(
    windows: Map<WindowId, WindowView>,
    id: WindowId,
    webview_id: WebviewId,
    place: LogicalPlace,
    surface: Option<PhysicalSize>,
) -> Map<WindowId, WindowView> {
    match (webview_of(windows, id, webview_id)->0.bounds, surface) {
        (Some(rates), Some(surface)) => with_webview_bounds(
            windows,
            id,
            webview_id,
            Some(rates_after(rates, place, surface)),
        ),
        _ => windows,
    }
}

/// Moves the bounds of a webview below the title bar of a macOS window.
pub fn macos_webview_bounds(bounds: CefRect, titlebar_height: i32) -> (moved: CefRect)
    requires
        i32::MIN <= bounds.y + titlebar_height <= i32::MAX,
    ensures
        moved == below_title_bar(bounds, Some(titlebar_height)),
{
    CefRect { y: bounds.y + titlebar_height, ..bounds }
}

/// The shares that a rectangle has in a window of the given size.
fn bounds_ratio(surface: PhysicalSize, bounds: CefRect) -> (rates: WebviewBounds)
    ensures
        rates == ratio(surface, bounds),
{
    WebviewBounds {
        x_rate: Rate { part: bounds.x as i64, whole: surface.width },
        y_rate: Rate { part: bounds.y as i64, whole: surface.height },
        width_rate: Rate { part: to_unsigned_extent(bounds.width) as i64, whole: surface.width },
        height_rate: Rate { part: to_unsigned_extent(bounds.height) as i64, whole: surface.height },
    }
}

/// The shares that a webview has in a window of the browser engine: by the bounds that it is
/// given, or else by those of its overlay.
pub fn webview_bounds_ratio(
    window_bounds: CefRect,
    webview_bounds: Option<CefRect>,
    overlay_bounds: CefRect,
) -> (rates: WebviewBounds)
    ensures
        rates == ratio(
            PhysicalSize {
                width: unsigned_extent(window_bounds.width) as u32,
                height: unsigned_extent(window_bounds.height) as u32,
            },
            match webview_bounds {
                Some(bounds) => bounds,
                None => overlay_bounds,
            },
        ),
{
    let surface = PhysicalSize {
        width: to_unsigned_extent(window_bounds.width),
        height: to_unsigned_extent(window_bounds.height),
    };
    bounds_ratio(surface, webview_bounds.unwrap_or(overlay_bounds))
}

/// The bounds that the overlay of a webview gets, where they were `current`.
fn place_rect(current: CefRect, place: LogicalPlace) -> (bounds: CefRect)
    ensures
        bounds == placed(current, place),
{
    match place {
        LogicalPlace::Position { x, y } => CefRect { x, y, ..current },
        LogicalPlace::Size { width, height } => CefRect {
            width: to_signed_extent(width),
            height: to_signed_extent(height),
            ..current
        },
        LogicalPlace::Bounds { x, y, width, height } => CefRect {
            x,
            y,
            width: to_signed_extent(width),
            height: to_signed_extent(height),
        },
    }
}

/// The shares that a webview keeps, once it was placed.
fn place_rates(rates: WebviewBounds, place: LogicalPlace, surface: PhysicalSize) -> (after:
    WebviewBounds)
    ensures
        after == rates_after(rates, place, surface),
{
    let mut after = rates;
    match place {
        LogicalPlace::Position { x, y } | LogicalPlace::Bounds { x, y, .. } => {
            after.x_rate = Rate { part: x as i64, whole: surface.width };
            after.y_rate = Rate { part: y as i64, whole: surface.height };
        },
        LogicalPlace::Size { .. } => {},
    }
    match place {
        LogicalPlace::Size { width, height } | LogicalPlace::Bounds { width, height, .. } => {
            after.width_rate = Rate { part: width as i64, whole: surface.width };
            after.height_rate = Rate { part: height as i64, whole: surface.height };
        },
        LogicalPlace::Position { .. } => {},
    }
    after
}

/// Places the overlay of a webview, and tells the bounds that it gets.
///
/// `current` are the bounds of the overlay. `titlebar_height` is there on macOS, for a window
/// of the system. `surface` is the surface size of the window, where it is one of the system's:
/// only then does a webview that follows its window keep its new shares.
pub fn place_webview(
    windows: &mut Windows,
    id: WindowId,
    webview_id: WebviewId,
    place: LogicalPlace,
    current: CefRect,
    titlebar_height: Option<i32>,
    surface: Option<PhysicalSize>,
) -> (bounds: CefRect)
    requires
        overlay_of(old(windows)@, id, webview_id) is Some,
        surface is Some <==> native_window(old(windows)@, id) is Some,
        titlebar_height matches Some(height) ==> i32::MIN <= placed(current, place).y + height
            <= i32::MAX,
    ensures
        bounds == below_title_bar(placed(current, place), titlebar_height),
        final(windows)@ == windows_after_place(old(windows)@, id, webview_id, place, surface),
{
    let ghost before = windows@;
    let bounds = place_rect(current, place);
    let bounds = match titlebar_height {
        Some(height) => macos_webview_bounds(bounds, height),
        None => bounds,
    };
    if let Some(window) = windows.remove(id) {
        let mut window = window;
        if let Some(index) = find_webview(&window.webviews, webview_id) {
            if let (Some(rates), Some(surface)) = (window.webviews[index].bounds, surface) {
                window.set_bounds(index, Some(place_rates(rates, place, surface)));
            }
        }
        windows.insert(id, window);
    }
    assert(windows@ =~= windows_after_place(before, id, webview_id, place, surface));
    bounds
}

/// Lets a webview follow its window: it keeps the shares that its overlay has in the window.
pub fn follow_window(
    windows: &mut Windows,
    id: WindowId,
    webview_id: WebviewId,
    surface: PhysicalSize,
    overlay_bounds: CefRect,
)
    requires
        overlay_of(old(windows)@, id, webview_id) is Some,
    ensures
        final(windows)@ == with_webview_bounds(
            old(windows)@,
            id,
            webview_id,
            Some(ratio(surface, overlay_bounds)),
        ),
{
    let ghost before = windows@;
    if let Some(window) = windows.remove(id) {
        let mut window = window;
        if let Some(index) = find_webview(&window.webviews, webview_id) {
            window.set_bounds(index, Some(bounds_ratio(surface, overlay_bounds)));
        }
        windows.insert(id, window);
    }
    assert(windows@ =~= with_webview_bounds(
        before,
        id,
        webview_id,
        Some(ratio(surface, overlay_bounds)),
    ));
}

/// A webview that is placed by its bounds keeps the same shares as one that starts to follow
/// its window there.
pub proof fn placing_agrees_with_following(
    rates: WebviewBounds,
    current: CefRect,
    x: i32,
    y: i32,
    width: u32,
    height: u32,
    surface: PhysicalSize,
)
    ensures
        ({
            let place = LogicalPlace::Bounds { x, y, width, height };
            rates_after(rates, place, surface) == ratio(surface, placed(current, place))
        }),
{
}

/// Where there is no title bar, placing an overlay by its position and its size, in either order,
/// comes to placing it by its bounds. (Below a title bar it is moved down each time.)
pub proof fn overlay_is_placed_in_any_order(
    current: CefRect,
    x: i32,
    y: i32,
    width: u32,
    height: u32,
)
    ensures
        ({
            let position = LogicalPlace::Position { x, y };
            let size = LogicalPlace::Size { width, height };
            let bounds = LogicalPlace::Bounds { x, y, width, height };
            let no_title_bar = None::<i32>;
            let at_once = below_title_bar(placed(current, bounds), no_title_bar);
            &&& below_title_bar(
                placed(below_title_bar(placed(current, position), no_title_bar), size),
                no_title_bar,
            ) == at_once
            &&& below_title_bar(
                placed(below_title_bar(placed(current, size), no_title_bar), position),
                no_title_bar,
            ) == at_once
        }),
{
}

/// The shares that a webview keeps are the same whether it is placed by its position and then by
/// its size, the other way round, or by its bounds. A position alone leaves the shares of its
/// size, and a size alone those of its position.
pub proof fn shares_do_not_depend_on_the_order(
    rates: WebviewBounds,
    x: i32,
    y: i32,
    width: u32,
    height: u32,
    surface: PhysicalSize,
)
    ensures
        ({
            let position = LogicalPlace::Position { x, y };
            let size = LogicalPlace::Size { width, height };
            let bounds = LogicalPlace::Bounds { x, y, width, height };
            let at_once = rates_after(rates, bounds, surface);
            &&& rates_after(rates_after(rates, position, surface), size, surface) == at_once
            &&& rates_after(rates_after(rates, size, surface), position, surface) == at_once
            &&& rates_after(rates, position, surface).width_rate == rates.width_rate
            &&& rates_after(rates, position, surface).height_rate == rates.height_rate
            &&& rates_after(rates, size, surface).x_rate == rates.x_rate
            &&& rates_after(rates, size, surface).y_rate == rates.y_rate
        }),
{
}

/// The webview that messages go to stays the same one when the shares that it keeps are set.
proof fn bounds_are_found_again(
    windows: Map<WindowId, WindowView>,
    id: WindowId,
    webview_id: WebviewId,
    bounds: Option<WebviewBounds>,
)
    requires
        webview_of(windows, id, webview_id) is Some,
    ensures
        ({
            let after = with_webview_bounds(windows, id, webview_id, bounds);
            &&& webview_index(after[id].webviews, webview_id) == webview_index(
                windows[id].webviews,
                webview_id,
            )
            &&& webview_of(after, id, webview_id) == Some(
                Webview { bounds, ..webview_of(windows, id, webview_id)->0 },
            )
        }),
{
    let before = windows[id].webviews;
    let after = with_webview_bounds(windows, id, webview_id, bounds)[id].webviews;
    webview_index_finds(before, webview_id);
    let index = webview_index(before, webview_id)->0;
    assert forall|earlier: int| 0 <= earlier < index implies after[earlier].webview_id
        != webview_id by {
        assert(after[earlier] == before[earlier]);
    }
    first_is_unique(after, webview_id, index);
}

/// What is known of the windows is the same whether a webview is placed by its position and then
/// by its size, the other way round, or by its bounds. One that does not follow its window still
/// does not.
pub proof fn placing_does_not_depend_on_the_order(
    windows: Map<WindowId, WindowView>,
    id: WindowId,
    webview_id: WebviewId,
    x: i32,
    y: i32,
    width: u32,
    height: u32,
    surface: Option<PhysicalSize>,
)
    requires
        webview_of(windows, id, webview_id) is Some,
    ensures
        ({
            let position = LogicalPlace::Position { x, y };
            let size = LogicalPlace::Size { width, height };
            let bounds = LogicalPlace::Bounds { x, y, width, height };
            let positioned = windows_after_place(windows, id, webview_id, position, surface);
            let sized = windows_after_place(windows, id, webview_id, size, surface);
            let at_once = windows_after_place(windows, id, webview_id, bounds, surface);
            &&& windows_after_place(positioned, id, webview_id, size, surface) == at_once
            &&& windows_after_place(sized, id, webview_id, position, surface) == at_once
            &&& webview_of(windows, id, webview_id)->0.bounds is None ==> positioned == windows
                && sized == windows && at_once == windows
        }),
{
    if let (Some(rates), Some(surface)) = (webview_of(windows, id, webview_id)->0.bounds, surface) {
        shares_do_not_depend_on_the_order(rates, x, y, width, height, surface);
        let position = LogicalPlace::Position { x, y };
        let size = LogicalPlace::Size { width, height };
        let bounds = LogicalPlace::Bounds { x, y, width, height };
        placed_twice(windows, id, webview_id, rates, position, size, bounds, surface);
        placed_twice(windows, id, webview_id, rates, size, position, bounds, surface);
    }
}

/// Placing a webview twice comes to placing it once, where that holds of the shares.
proof fn placed_twice(
    windows: Map<WindowId, WindowView>,
    id: WindowId,
    webview_id: WebviewId,
    rates: WebviewBounds,
    first: LogicalPlace,
    second: LogicalPlace,
    both: LogicalPlace,
    surface: PhysicalSize,
)
    requires
        webview_of(windows, id, webview_id) is Some,
        webview_of(windows, id, webview_id)->0.bounds == Some(rates),
        rates_after(rates_after(rates, first, surface), second, surface) == rates_after(
            rates,
            both,
            surface,
        ),
    ensures
        windows_after_place(
            windows_after_place(windows, id, webview_id, first, Some(surface)),
            id,
            webview_id,
            second,
            Some(surface),
        ) == windows_after_place(windows, id, webview_id, both, Some(surface)),
{
    let once = windows_after_place(windows, id, webview_id, first, Some(surface));
    let twice = windows_after_place(once, id, webview_id, second, Some(surface));
    let at_once = windows_after_place(windows, id, webview_id, both, Some(surface));
    bounds_are_found_again(windows, id, webview_id, Some(rates_after(rates, first, surface)));
    webview_index_finds(windows[id].webviews, webview_id);
    assert(twice[id].webviews =~= at_once[id].webviews);
    assert(twice =~= at_once);
}

/// Setting the shares that a webview keeps changes nothing else: not another window, not another
/// webview of its window, and of the webview itself only the shares.
pub proof fn placing_keeps_everything_else(
    windows: Map<WindowId, WindowView>,
    id: WindowId,
    webview_id: WebviewId,
    bounds: Option<WebviewBounds>,
    other: WindowId,
    index: int,
)
    requires
        webview_of(windows, id, webview_id) is Some,
        other != id,
        0 <= index < windows[id].webviews.len(),
    ensures
        ({
            let after = with_webview_bounds(windows, id, webview_id, bounds);
            let before = windows[id].webviews[index];
            &&& after.dom() == windows.dom()
            &&& after[other] == windows[other]
            &&& after[id].webviews.len() == windows[id].webviews.len()
            &&& after[id].webviews[index] == (Webview {
                bounds: if webview_index(windows[id].webviews, webview_id) == Some(index) {
                    bounds
                } else {
                    before.bounds
                },
                ..before
            })
            &&& after[id].window_event_listeners == windows[id].window_event_listeners
            &&& after[id].webview_event_listeners == windows[id].webview_event_listeners
        }),
{
    let after = with_webview_bounds(windows, id, webview_id, bounds);
    assert(after.dom() =~= windows.dom());
    webview_index_finds(windows[id].webviews, webview_id);
}

/// A webview that followed its window and was told to stop keeps no shares, and is otherwise as
/// it was before it followed.
pub proof fn following_ends(
    windows: Map<WindowId, WindowView>,
    id: WindowId,
    webview_id: WebviewId,
    rates: WebviewBounds,
)
    requires
        overlay_of(windows, id, webview_id) is Some,
    ensures
        windows_after_webview(
            with_webview_bounds(windows, id, webview_id, Some(rates)),
            id,
            webview_id,
            WebviewMessage::SetAutoResize(false),
        ) == with_webview_bounds(windows, id, webview_id, None),
{
    let following = with_webview_bounds(windows, id, webview_id, Some(rates));
    bounds_are_found_again(windows, id, webview_id, Some(rates));
    webview_index_finds(windows[id].webviews, webview_id);
    let after = windows_after_webview(
        following,
        id,
        webview_id,
        WebviewMessage::SetAutoResize(false),
    );
    let stopped = with_webview_bounds(windows, id, webview_id, None);
    assert(after[id].webviews =~= stopped[id].webviews);
    assert(after =~= stopped);
}

} // verus!
