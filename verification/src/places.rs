//! Where things stand, coordinate by coordinate, and what they look like.
use vstd::prelude::*;

use crate::color::{color_opt_to_cef_argb, color_to_cef_argb, Color};
use crate::geometry::{
    to_signed_extent, to_unsigned_extent, window_frame, CefRect, PhysicalPosition, PhysicalSize,
};
use crate::monitor::{
    display_to_monitor, get_available_monitors, get_monitor_from_point, get_primary_monitor,
    logical_frame, point_bounds, Display, LogicalFrame, Monitor,
};
use crate::placement::{
    follow_window, macos_webview_bounds, place_webview, webview_bounds_ratio, LogicalPlace,
};
use crate::webview::{first_is_unique, Rate, Webview, WebviewBounds, WebviewId, WindowId};
use crate::window::{WindowView, Windows};

verus! {

/// The bytes of a number are found again in it.
proof fn bytes_are_found_again(number: int, first: int, second: int, third: int, fourth: int)
    requires
        0 <= first < 0x100 && 0 <= second < 0x100 && 0 <= third < 0x100 && 0 <= fourth < 0x100,
        number == first * 0x100_0000 + second * 0x1_0000 + third * 0x100 + fourth,
    ensures
        number / 0x100_0000 == first,
        number / 0x1_0000 % 0x100 == second,
        number / 0x100 % 0x100 == third,
        number % 0x100 == fourth,
{
    let pair = first * 0x100 + second;
    let triple = pair * 0x100 + third;
    assert(number == triple * 0x100 + fourth);
    assert(number / 0x100 == triple);
    assert(number / 0x1_0000 == pair);
    assert(number / 0x100_0000 == first);
}

/// A color is packed a byte for each of its parts, alpha first, then red, green and blue. Without
/// a color it is opaque white.
pub proof fn colors_are_packed_in_order(color: Color, packed: u32)
    ensures
        call_ensures(color_to_cef_argb, (color,), packed) || call_ensures(
            color_opt_to_cef_argb,
            (Some(color),),
            packed,
        ) ==> {
            &&& packed as int / 0x100_0000 == color.3
            &&& packed as int / 0x1_0000 % 0x100 == color.0
            &&& packed as int / 0x100 % 0x100 == color.1
            &&& packed as int % 0x100 == color.2
        },
        call_ensures(color_opt_to_cef_argb, (None::<Color>,), packed) ==> packed == 0xFFFF_FFFF,
{
    if call_ensures(color_to_cef_argb, (color,), packed) || call_ensures(
        color_opt_to_cef_argb,
        (Some(color),),
        packed,
    ) {
        bytes_are_found_again(
            packed as int,
            color.3 as int,
            color.0 as int,
            color.1 as int,
            color.2 as int,
        );
    }
}

/// An extent that fits stays the number that it is when it is read as a signed one or as an
/// unsigned one; any other differs by two to the power of 32, so that reading it back gives it
/// again.
pub proof fn extents_keep_their_value(extent: u32, signed: i32)
    ensures
        forall|read: i32| #[trigger]
            call_ensures(to_signed_extent, (extent,), read) ==> {
                &&& extent <= i32::MAX ==> read == extent
                &&& extent > i32::MAX ==> read == extent - 0x1_0000_0000
            },
        forall|read: u32| #[trigger]
            call_ensures(to_unsigned_extent, (signed,), read) ==> {
                &&& signed >= 0 ==> read == signed
                &&& signed < 0 ==> read == signed + 0x1_0000_0000
            },
        forall|read: i32, back: u32|
            #[trigger] call_ensures(to_signed_extent, (extent,), read) && #[trigger] call_ensures(
                to_unsigned_extent,
                (read,),
                back,
            ) ==> back == extent,
{
}

/// Whether a signed and an unsigned extent are the same 32 bits.
pub open spec fn same_bits(signed: i32, unsigned: int) -> bool {
    &&& 0 <= unsigned < 0x1_0000_0000
    &&& signed == unsigned || signed == unsigned - 0x1_0000_0000
}

/// The frame of a window has its position and its size, each coordinate its own.
pub proof fn frames_have_their_own_coordinates(
    position: PhysicalPosition,
    size: PhysicalSize,
    rect: CefRect,
)
    ensures
        forall|frame: CefRect| #[trigger]
            call_ensures(window_frame, (position, size), frame) ==> {
                &&& frame.x == position.x
                &&& frame.y == position.y
                &&& same_bits(frame.width, size.width as int)
                &&& same_bits(frame.height, size.height as int)
            },
        forall|frame: LogicalFrame| #[trigger]
            call_ensures(logical_frame, (rect,), frame) ==> {
                &&& frame.x == rect.x
                &&& frame.y == rect.y
                &&& same_bits(rect.width, frame.width as int)
                &&& same_bits(rect.height, frame.height as int)
            },
        forall|point: CefRect| #[trigger]
            call_ensures(point_bounds, (rect.x, rect.y), point) ==> {
                &&& point.x == rect.x
                &&& point.y == rect.y
                &&& point.width == 1
                &&& point.height == 1
            },
{
}

/// Whether a monitor is the one of a display: it has no name, the place and the size of the
/// display, its work area and its scale.
pub open spec fn is_monitor_of(monitor: Monitor, display: Display) -> bool {
    &&& monitor.name is None
    &&& monitor.position == display.bounds.position
    &&& monitor.size == display.bounds.size
    &&& monitor.work_area == display.work_area
    &&& monitor.scale_factor == display.scale_factor
}

/// A monitor is told as its display is, and there is one exactly if there is a display.
pub proof fn monitors_are_told_as_they_are(display: Display)
    ensures
        forall|monitor: Monitor| #[trigger]
            call_ensures(display_to_monitor, (display,), monitor) ==> is_monitor_of(
                monitor,
                display,
            ),
        forall|monitor: Option<Monitor>|
            #[trigger] call_ensures(get_primary_monitor, (Some(display),), monitor) ==> monitor
                is Some && is_monitor_of(monitor->0, display),
        forall|monitor: Option<Monitor>|
            #[trigger] call_ensures(get_monitor_from_point, (Some(display),), monitor) ==> monitor
                is Some && is_monitor_of(monitor->0, display),
        forall|monitor: Option<Monitor>|
            #[trigger] call_ensures(get_primary_monitor, (None::<Display>,), monitor) ==> monitor
                is None,
        forall|monitor: Option<Monitor>|
            #[trigger] call_ensures(get_monitor_from_point, (None::<Display>,), monitor)
                ==> monitor is None,
{
}

/// One more display is one more monitor, behind the others; one that is missing is none. Without
/// displays there are no monitors.
pub proof fn monitors_are_told_one_by_one(
    displays: Vec<Option<Display>>,
    longer: Vec<Option<Display>>,
    display: Option<Display>,
)
    requires
        longer@ == displays@.push(display),
    ensures
        forall|monitors: Vec<Monitor>, more: Vec<Monitor>|
            #[trigger] call_ensures(get_available_monitors, (&displays,), monitors)
                && #[trigger] call_ensures(get_available_monitors, (&longer,), more) ==> {
                &&& display is None ==> more@ == monitors@
                &&& display is Some ==> {
                    &&& more@.len() == monitors@.len() + 1
                    &&& more@.drop_last() == monitors@
                    &&& is_monitor_of(more@.last(), display->0)
                }
            },
        displays@.len() == 0 ==> forall|monitors: Vec<Monitor>|
            #[trigger] call_ensures(get_available_monitors, (&displays,), monitors)
                ==> monitors@.len() == 0,
{
    reveal(Seq::filter);
    assert(longer@.drop_last() =~= displays@);
    let there = |display: Option<Display>| display is Some;
    assert(longer@.filter(there) == if display is Some {
        displays@.filter(there).push(display)
    } else {
        displays@.filter(there)
    });
    assert forall|monitors: Vec<Monitor>, more: Vec<Monitor>|
        #[trigger] call_ensures(get_available_monitors, (&displays,), monitors)
            && #[trigger] call_ensures(get_available_monitors, (&longer,), more) && display
            is Some implies more@.drop_last() == monitors@ by {
        assert(more@.drop_last() =~= monitors@);
    }
}

/// Below a title bar a webview is moved down by the height of the bar, and not otherwise changed.
pub proof fn title_bars_move_webviews_down(bounds: CefRect, height: i32, moved: CefRect)
    requires
        call_ensures(macos_webview_bounds, (bounds, height), moved),
        i32::MIN <= bounds.y + height <= i32::MAX,
    ensures
        moved.y - bounds.y == height,
        moved.x == bounds.x,
        moved.width == bounds.width,
        moved.height == bounds.height,
{
}

/// Whether a rate is the share of a coordinate in the extent of a window.
pub open spec fn is_share(rate: Rate, part: int, whole: int) -> bool {
    rate.part == part && rate.whole == whole
}

/// Whether a rate is the share of an extent, read as an unsigned one, in the extent of a window.
pub open spec fn is_share_of_extent(rate: Rate, part: i32, whole: int) -> bool {
    same_bits(part, rate.part as int) && rate.whole == whole
}

/// The shares of a webview are those of its coordinates in the extents of its window: of the
/// horizontal ones in the width, of the vertical ones in the height.
pub proof fn shares_are_of_their_own_extent(
    window_bounds: CefRect,
    given: CefRect,
    overlay: CefRect,
    width: int,
    height: int,
)
    requires
        same_bits(window_bounds.width, width),
        same_bits(window_bounds.height, height),
    ensures
        forall|rates: WebviewBounds| #[trigger]
            call_ensures(webview_bounds_ratio, (window_bounds, Some(given), overlay), rates) ==> {
                &&& is_share(rates.x_rate, given.x as int, width)
                &&& is_share(rates.y_rate, given.y as int, height)
                &&& is_share_of_extent(rates.width_rate, given.width, width)
                &&& is_share_of_extent(rates.height_rate, given.height, height)
            },
        forall|rates: WebviewBounds| #[trigger]
            call_ensures(
                webview_bounds_ratio,
                (window_bounds, None::<CefRect>, overlay),
                rates,
            ) ==> {
                &&& is_share(rates.x_rate, overlay.x as int, width)
                &&& is_share(rates.y_rate, overlay.y as int, height)
                &&& is_share_of_extent(rates.width_rate, overlay.width, width)
                &&& is_share_of_extent(rates.height_rate, overlay.height, height)
            },
{
}

/// A webview that is placed gets the coordinates that were asked for, below the title bar where
/// there is one. What was not asked for stays.
pub proof fn webviews_are_placed_where_asked(
    id: WindowId,
    webview_id: WebviewId,
    current: CefRect,
    surface: Option<PhysicalSize>,
    x: i32,
    y: i32,
    width: u32,
    height: u32,
)
    ensures
        forall|windows: &mut Windows, bounds: CefRect| #[trigger]
            call_ensures(
                place_webview,
                (
                    windows,
                    id,
                    webview_id,
                    LogicalPlace::Position { x, y },
                    current,
                    None::<i32>,
                    surface,
                ),
                bounds,
            ) ==> bounds == (CefRect { x, y, width: current.width, height: current.height }),
        forall|windows: &mut Windows, bounds: CefRect| #[trigger]
            call_ensures(
                place_webview,
                (
                    windows,
                    id,
                    webview_id,
                    LogicalPlace::Size { width, height },
                    current,
                    None::<i32>,
                    surface,
                ),
                bounds,
            ) ==> bounds.x == current.x && bounds.y == current.y && same_bits(
                bounds.width,
                width as int,
            ) && same_bits(bounds.height, height as int),
        forall|windows: &mut Windows, bounds: CefRect| #[trigger]
            call_ensures(
                place_webview,
                (
                    windows,
                    id,
                    webview_id,
                    LogicalPlace::Bounds { x, y, width, height },
                    current,
                    None::<i32>,
                    surface,
                ),
                bounds,
            ) ==> bounds.x == x && bounds.y == y && same_bits(bounds.width, width as int)
                && same_bits(bounds.height, height as int),
{
}

/// A title bar moves what is placed down by its height, and changes nothing else of it.
pub proof fn placed_webviews_are_moved_below_the_bar(
    id: WindowId,
    webview_id: WebviewId,
    place: LogicalPlace,
    current: CefRect,
    surface: Option<PhysicalSize>,
    bar: i32,
)
    ensures
        forall|
            windows: &mut Windows,
            others: &mut Windows,
            bounds: CefRect,
            lowered: CefRect,
        |
            #[trigger] call_ensures(
                place_webview,
                (windows, id, webview_id, place, current, None::<i32>, surface),
                bounds,
            ) && #[trigger] call_ensures(
                place_webview,
                (others, id, webview_id, place, current, Some(bar), surface),
                lowered,
            ) && i32::MIN <= bounds.y + bar <= i32::MAX ==> {
                &&& lowered.y - bounds.y == bar
                &&& lowered.x == bounds.x
                &&& lowered.width == bounds.width
                &&& lowered.height == bounds.height
                &&& windows@ == others@ ==> final(windows)@ == final(others)@
            },
{
}

/// Whether all that is known of the windows stayed, but for the shares that one webview keeps.
pub open spec fn keeps_all_but_shares(
    before: Map<WindowId, WindowView>,
    after: Map<WindowId, WindowView>,
    id: WindowId,
    index: int,
) -> bool {
    &&& after.contains_key(id)
    &&& after[id].webviews.len() == before[id].webviews.len()
    &&& forall|other: int| #![trigger after[id].webviews[other]]
        0 <= other < before[id].webviews.len() && other != index ==> after[id].webviews[other]
            == before[id].webviews[other]
    &&& after[id].webviews[index] == Webview {
        bounds: after[id].webviews[index].bounds,
        ..before[id].webviews[index]
    }
    &&& after[id] == WindowView { webviews: after[id].webviews, ..before[id] }
    &&& forall|other: WindowId| #![trigger after[other]]
        other != id ==> after[other] == before[other]
    &&& forall|other: WindowId| #![trigger after.contains_key(other)]
        after.contains_key(other) <==> before.contains_key(other)
}

/// Whether the first webview with an id in the window under `id` stands at `index`.
pub open spec fn stands_at(
    windows: Map<WindowId, WindowView>,
    id: WindowId,
    webview_id: WebviewId,
    index: int,
) -> bool {
    &&& windows.contains_key(id)
    &&& 0 <= index < windows[id].webviews.len()
    &&& windows[id].webviews[index].webview_id == webview_id
    &&& forall|before: int|
        0 <= before < index ==> (#[trigger] windows[id].webviews[before]).webview_id != webview_id
}

/// A webview that starts to follow its window keeps the shares that its overlay has in it, each
/// coordinate in its own extent, and nothing else changes.
pub proof fn followers_keep_their_shares(
    id: WindowId,
    webview_id: WebviewId,
    index: int,
    surface: PhysicalSize,
    overlay: CefRect,
)
    ensures
        forall|windows: &mut Windows| #[trigger]
            call_ensures(follow_window, (windows, id, webview_id, surface, overlay), ())
                && stands_at(windows@, id, webview_id, index) ==> {
                let rates = final(windows)@[id].webviews[index].bounds;
                &&& keeps_all_but_shares(windows@, final(windows)@, id, index)
                &&& rates is Some
                &&& is_share(rates->0.x_rate, overlay.x as int, surface.width as int)
                &&& is_share(rates->0.y_rate, overlay.y as int, surface.height as int)
                &&& is_share_of_extent(rates->0.width_rate, overlay.width, surface.width as int)
                &&& is_share_of_extent(rates->0.height_rate, overlay.height, surface.height as int)
            },
{
    assert forall|windows: &mut Windows| #[trigger]
        call_ensures(follow_window, (windows, id, webview_id, surface, overlay), ()) && stands_at(
            windows@,
            id,
            webview_id,
            index,
        ) implies {
        let rates = final(windows)@[id].webviews[index].bounds;
        &&& keeps_all_but_shares(windows@, final(windows)@, id, index)
        &&& rates is Some
        &&& is_share(rates->0.x_rate, overlay.x as int, surface.width as int)
        &&& is_share(rates->0.y_rate, overlay.y as int, surface.height as int)
        &&& is_share_of_extent(rates->0.width_rate, overlay.width, surface.width as int)
        &&& is_share_of_extent(rates->0.height_rate, overlay.height, surface.height as int)
    } by {
        first_is_unique(windows@[id].webviews, webview_id, index);
    }
}

/// A webview that follows its window and is placed keeps its new shares: those of its position
/// where that was asked for, and those of its size where that was.
pub proof fn placed_followers_keep_their_shares(
    id: WindowId,
    webview_id: WebviewId,
    index: int,
    place: LogicalPlace,
    current: CefRect,
    bar: Option<i32>,
    surface: PhysicalSize,
)
    ensures
        forall|windows: &mut Windows, bounds: CefRect| #[trigger]
            call_ensures(
                place_webview,
                (windows, id, webview_id, place, current, bar, Some(surface)),
                bounds,
            ) && stands_at(windows@, id, webview_id, index) ==> {
                let before = windows@[id].webviews[index].bounds;
                let rates = final(windows)@[id].webviews[index].bounds;
                &&& keeps_all_but_shares(windows@, final(windows)@, id, index)
                &&& rates is Some <==> before is Some
                &&& rates is Some ==> keeps_shares(before->0, rates->0, place, surface)
            },
        forall|windows: &mut Windows, bounds: CefRect| #[trigger]
            call_ensures(
                place_webview,
                (windows, id, webview_id, place, current, bar, None::<PhysicalSize>),
                bounds,
            ) ==> final(windows)@ == windows@,
{
    assert forall|windows: &mut Windows, bounds: CefRect| #[trigger]
        call_ensures(
            place_webview,
            (windows, id, webview_id, place, current, bar, Some(surface)),
            bounds,
        ) && stands_at(windows@, id, webview_id, index) implies {
        let before = windows@[id].webviews[index].bounds;
        let rates = final(windows)@[id].webviews[index].bounds;
        &&& keeps_all_but_shares(windows@, final(windows)@, id, index)
        &&& rates is Some <==> before is Some
        &&& rates is Some ==> keeps_shares(before->0, rates->0, place, surface)
    } by {
        first_is_unique(windows@[id].webviews, webview_id, index);
    }
}

/// Whether the shares of a webview are those of the place that it was put at; what the place does
/// not speak of keeps its share.
pub open spec fn keeps_shares(
    before: WebviewBounds,
    after: WebviewBounds,
    place: LogicalPlace,
    surface: PhysicalSize,
) -> bool {
    match place {
        LogicalPlace::Position { x, y } => {
            &&& is_share(after.x_rate, x as int, surface.width as int)
            &&& is_share(after.y_rate, y as int, surface.height as int)
            &&& after.width_rate == before.width_rate
            &&& after.height_rate == before.height_rate
        },
        LogicalPlace::Size { width, height } => {
            &&& after.x_rate == before.x_rate
            &&& after.y_rate == before.y_rate
            &&& is_share(after.width_rate, width as int, surface.width as int)
            &&& is_share(after.height_rate, height as int, surface.height as int)
        },
        LogicalPlace::Bounds { x, y, width, height } => {
            &&& is_share(after.x_rate, x as int, surface.width as int)
            &&& is_share(after.y_rate, y as int, surface.height as int)
            &&& is_share(after.width_rate, width as int, surface.width as int)
            &&& is_share(after.height_rate, height as int, surface.height as int)
        },
    }
}

} // verus!
