//! What holds in every state of a runtime: the ids of its windows and webviews were taken before
//! the next ones, and every scheme of a webview has one handler.
use vstd::prelude::*;

use crate::context::{context_after, id_after, id_is_below, ids_were_taken, ContextView, Message};
use crate::geometry::PhysicalSize;
use crate::placement::{windows_after_place, with_webview_bounds, LogicalPlace};
use crate::webview::{
    distinct_ids, single_chrome, webview_index, webview_index_finds, BrowserId, NativeWindowId,
    Webview, WebviewBounds, WebviewId, WindowId,
};
use crate::webview_create::{browser_window, opened_window, with_webview, PlannedWebview};
use crate::webview_message::webview_of;
use crate::window::{all_webviews, webviews_are_wf, WindowView};
use crate::window_builder::CefWindowBuilder;

verus! {

/// Whether something holds of a webview whatever shares it keeps.
pub open spec fn ignores_bounds(holds: spec_fn(Webview) -> bool) -> bool {
    forall|webview: Webview, bounds: Option<WebviewBounds>|
        holds(webview) ==> #[trigger] holds(Webview { bounds, ..webview })
}

/// What holds of all webviews holds after a message, where it does not depend on the shares that
/// a webview keeps.
pub proof fn messages_keep_all<T>(
    context: ContextView,
    message: Message<T>,
    holds: spec_fn(Webview) -> bool,
)
    requires
        all_webviews(context.windows, holds),
        ignores_bounds(holds),
    ensures
        all_webviews(context_after(context, message).windows, holds),
{
    let after = context_after(context, message);
    assert forall|id: WindowId, index: int|
        after.windows.contains_key(id) && 0 <= index < after.windows[id].webviews.len() implies holds(
        #[trigger] after.windows[id].webviews[index],
    ) by {
        let before = context.windows[id].webviews;
        let webview = after.windows[id].webviews[index];
        if let Message::Webview { window_id, webview_id, message } = message {
            webview_index_finds(before, webview_id);
            if window_id == id && message is Close && webview_index(before, webview_id) is Some {
                let gone = webview_index(before, webview_id)->0;
                if index < gone {
                    assert(webview == before[index]);
                } else {
                    assert(webview == before[index + 1]);
                }
            } else {
                assert(webview == Webview { bounds: webview.bounds, ..before[index] });
            }
        } else {
            assert(webview == before[index]);
        }
    }
}

/// What holds of all webviews, and of those of a window that is added, holds of all then.
pub proof fn inserting_keeps_all(
    windows: Map<WindowId, WindowView>,
    id: WindowId,
    window: WindowView,
    holds: spec_fn(Webview) -> bool,
)
    requires
        all_webviews(windows, holds),
        forall|index: int|
            0 <= index < window.webviews.len() ==> holds(#[trigger] window.webviews[index]),
    ensures
        all_webviews(windows.insert(id, window), holds),
{
    let after = windows.insert(id, window);
    assert forall|other: WindowId, index: int|
        after.contains_key(other) && 0 <= index < after[other].webviews.len() implies holds(
        #[trigger] after[other].webviews[index],
    ) by {
        if other != id {
            assert(after[other].webviews[index] == windows[other].webviews[index]);
        }
    }
}

/// What holds of all webviews, and of one that is added, holds of all then.
pub proof fn adding_keeps_all(
    windows: Map<WindowId, WindowView>,
    id: WindowId,
    webview: Webview,
    holds: spec_fn(Webview) -> bool,
)
    requires
        all_webviews(windows, holds),
        windows.contains_key(id),
        holds(webview),
    ensures
        all_webviews(with_webview(windows, id, webview), holds),
{
    let window = with_webview(windows, id, webview)[id];
    assert forall|index: int| 0 <= index < window.webviews.len() implies holds(
        #[trigger] window.webviews[index],
    ) by {
        if index < windows[id].webviews.len() {
            assert(window.webviews[index] == windows[id].webviews[index]);
        }
    }
    inserting_keeps_all(windows, id, window, holds);
}

/// What holds of all webviews holds when a window is gone.
pub proof fn destroying_keeps_all(
    windows: Map<WindowId, WindowView>,
    id: WindowId,
    holds: spec_fn(Webview) -> bool,
)
    requires
        all_webviews(windows, holds),
    ensures
        all_webviews(windows.remove(id), holds),
{
    let after = windows.remove(id);
    assert forall|other: WindowId, index: int|
        after.contains_key(other) && 0 <= index < after[other].webviews.len() implies holds(
        #[trigger] after[other].webviews[index],
    ) by {
        assert(after[other].webviews[index] == windows[other].webviews[index]);
    }
}

/// What holds of all webviews holds when the shares that one keeps were set, where it does not
/// depend on them.
pub proof fn bounds_keep_all(
    windows: Map<WindowId, WindowView>,
    id: WindowId,
    webview_id: WebviewId,
    bounds: Option<WebviewBounds>,
    holds: spec_fn(Webview) -> bool,
)
    requires
        all_webviews(windows, holds),
        ignores_bounds(holds),
        webview_of(windows, id, webview_id) is Some,
    ensures
        all_webviews(with_webview_bounds(windows, id, webview_id, bounds), holds),
{
    let window = with_webview_bounds(windows, id, webview_id, bounds)[id];
    webview_index_finds(windows[id].webviews, webview_id);
    assert forall|index: int| 0 <= index < window.webviews.len() implies holds(
        #[trigger] window.webviews[index],
    ) by {
        let before = windows[id].webviews[index];
        assert(window.webviews[index] == Webview { bounds: window.webviews[index].bounds, ..before });
    }
    inserting_keeps_all(windows, id, window, holds);
}

/// Handling a message keeps that every scheme of a webview has one handler.
pub proof fn messages_keep_webviews_wf<T>(context: ContextView, message: Message<T>)
    requires
        webviews_are_wf(context.windows),
    ensures
        webviews_are_wf(context_after(context, message).windows),
{
    messages_keep_all(context, message, |webview: Webview| webview.wf());
}

/// Opening a window, adding a browser window or a webview with one handler for each scheme, and
/// destroying a window keep that every scheme of a webview has one handler.
pub proof fn windows_keep_webviews_wf(
    windows: Map<WindowId, WindowView>,
    id: WindowId,
    label: String,
    window_builder: CefWindowBuilder,
    native: NativeWindowId,
    planned: PlannedWebview,
    browser: BrowserId,
)
    requires
        webviews_are_wf(windows),
        planned.wf(),
    ensures
        webviews_are_wf(windows.insert(id, opened_window(label, window_builder, native))),
        webviews_are_wf(
            windows.insert(id, browser_window(label, window_builder, planned, browser)),
        ),
        windows.contains_key(id) ==> webviews_are_wf(
            with_webview(windows, id, planned.webview_with(Some(browser), browser)),
        ),
        webviews_are_wf(windows.remove(id)),
{
    let holds = |webview: Webview| webview.wf();
    inserting_keeps_all(windows, id, opened_window(label, window_builder, native), holds);
    inserting_keeps_all(windows, id, browser_window(label, window_builder, planned, browser), holds);
    if windows.contains_key(id) {
        adding_keeps_all(windows, id, planned.webview_with(Some(browser), browser), holds);
    }
    destroying_keeps_all(windows, id, holds);
}

/// Placing a webview, and letting it follow its window or not, keeps that every scheme of a
/// webview has one handler.
pub proof fn placing_keeps_webviews_wf(
    windows: Map<WindowId, WindowView>,
    id: WindowId,
    webview_id: WebviewId,
    place: LogicalPlace,
    surface: Option<PhysicalSize>,
    bounds: Option<WebviewBounds>,
)
    requires
        webviews_are_wf(windows),
        webview_of(windows, id, webview_id) is Some,
    ensures
        webviews_are_wf(windows_after_place(windows, id, webview_id, place, surface)),
        webviews_are_wf(with_webview_bounds(windows, id, webview_id, bounds)),
{
    let holds = |webview: Webview| webview.wf();
    bounds_keep_all(windows, id, webview_id, bounds, holds);
    let placed = windows_after_place(windows, id, webview_id, place, surface);
    if placed != windows {
        let index = webview_index(windows[id].webviews, webview_id)->0;
        webview_index_finds(windows[id].webviews, webview_id);
        bounds_keep_all(windows, id, webview_id, placed[id].webviews[index].bounds, holds);
    }
}

/// Taking an id keeps that the ids were taken, as long as the ids do not start over.
pub proof fn taking_ids_keeps_them_taken(context: ContextView)
    requires
        ids_were_taken(context),
    ensures
        context.next_window_id < u32::MAX ==> ids_were_taken(
            ContextView { next_window_id: id_after(context.next_window_id, 1), ..context },
        ),
        context.next_webview_id < u32::MAX ==> ids_were_taken(
            ContextView { next_webview_id: id_after(context.next_webview_id, 1), ..context },
        ),
{
    if context.next_webview_id < u32::MAX {
        let next = id_after(context.next_webview_id, 1);
        assert forall|id: WindowId, index: int|
            context.windows.contains_key(id) && 0 <= index
                < context.windows[id].webviews.len() implies id_is_below(next)(
            #[trigger] context.windows[id].webviews[index],
        ) by {
            assert(id_is_below(context.next_webview_id)(context.windows[id].webviews[index]));
        }
    }
}

/// Handling a message keeps that the ids were taken.
pub proof fn messages_keep_ids_taken<T>(context: ContextView, message: Message<T>)
    requires
        ids_were_taken(context),
    ensures
        ids_were_taken(context_after(context, message)),
{
    messages_keep_all(context, message, id_is_below(context.next_webview_id));
}

/// Opening a window under an id that was taken keeps that the ids were taken.
pub proof fn opening_keeps_ids_taken(
    context: ContextView,
    id: WindowId,
    label: String,
    window_builder: CefWindowBuilder,
    native: NativeWindowId,
)
    requires
        ids_were_taken(context),
        id < context.next_window_id,
    ensures
        ids_were_taken(
            ContextView {
                windows: context.windows.insert(id, opened_window(label, window_builder, native)),
                ..context
            },
        ),
{
    inserting_keeps_all(
        context.windows,
        id,
        opened_window(label, window_builder, native),
        id_is_below(context.next_webview_id),
    );
}

/// Adding a browser window, and its webview, under ids that were taken keeps that the ids were
/// taken.
pub proof fn browser_windows_keep_ids_taken(
    context: ContextView,
    id: WindowId,
    label: String,
    window_builder: CefWindowBuilder,
    planned: PlannedWebview,
    browser: BrowserId,
)
    requires
        ids_were_taken(context),
        id < context.next_window_id,
        planned.webview_id < context.next_webview_id,
    ensures
        ids_were_taken(
            ContextView {
                windows: context.windows.insert(
                    id,
                    browser_window(label, window_builder, planned, browser),
                ),
                ..context
            },
        ),
{
    inserting_keeps_all(
        context.windows,
        id,
        browser_window(label, window_builder, planned, browser),
        id_is_below(context.next_webview_id),
    );
}

/// Adding a webview under an id that was taken keeps that the ids were taken.
pub proof fn adding_keeps_ids_taken(context: ContextView, id: WindowId, webview: Webview)
    requires
        ids_were_taken(context),
        context.windows.contains_key(id),
        webview.webview_id < context.next_webview_id,
    ensures
        ids_were_taken(
            ContextView { windows: with_webview(context.windows, id, webview), ..context },
        ),
{
    adding_keeps_all(context.windows, id, webview, id_is_below(context.next_webview_id));
}

/// Destroying a window keeps that the ids were taken.
pub proof fn destroying_keeps_ids_taken(context: ContextView, id: WindowId)
    requires
        ids_were_taken(context),
    ensures
        ids_were_taken(ContextView { windows: context.windows.remove(id), ..context }),
{
    destroying_keeps_all(context.windows, id, id_is_below(context.next_webview_id));
}

/// Placing a webview, and letting it follow its window or not, keeps that the ids were taken.
pub proof fn placing_keeps_ids_taken(
    context: ContextView,
    id: WindowId,
    webview_id: WebviewId,
    place: LogicalPlace,
    surface: Option<PhysicalSize>,
    bounds: Option<WebviewBounds>,
)
    requires
        ids_were_taken(context),
        webview_of(context.windows, id, webview_id) is Some,
    ensures
        ids_were_taken(
            ContextView {
                windows: windows_after_place(context.windows, id, webview_id, place, surface),
                ..context
            },
        ),
        ids_were_taken(
            ContextView {
                windows: with_webview_bounds(context.windows, id, webview_id, bounds),
                ..context
            },
        ),
{
    let windows = context.windows;
    let holds = id_is_below(context.next_webview_id);
    bounds_keep_all(windows, id, webview_id, bounds, holds);
    let placed = windows_after_place(windows, id, webview_id, place, surface);
    if placed != windows {
        let index = webview_index(windows[id].webviews, webview_id)->0;
        webview_index_finds(windows[id].webviews, webview_id);
        bounds_keep_all(windows, id, webview_id, placed[id].webviews[index].bounds, holds);
    }
}

/// The next ids are no window's and no webview's.
pub proof fn next_ids_are_unused(context: ContextView, id: WindowId)
    requires
        ids_were_taken(context),
    ensures
        !context.windows.contains_key(context.next_window_id),
        webview_of(context.windows, id, context.next_webview_id) is None,
{
    if context.windows.contains_key(id) {
        let webviews = context.windows[id].webviews;
        webview_index_finds(webviews, context.next_webview_id);
        if let Some(index) = webview_index(webviews, context.next_webview_id) {
            assert(id_is_below(context.next_webview_id)(context.windows[id].webviews[index]));
        }
    }
}

/// Placing a webview, and letting it follow its window or not, keeps that no two webviews of a
/// window have the same id, and that at most one has a browser with the Chrome runtime.
pub proof fn placing_keeps_ids_and_runtimes(
    windows: Map<WindowId, WindowView>,
    id: WindowId,
    webview_id: WebviewId,
    bounds: Option<WebviewBounds>,
)
    requires
        webview_of(windows, id, webview_id) is Some,
    ensures
        distinct_ids(windows[id].webviews) ==> distinct_ids(
            with_webview_bounds(windows, id, webview_id, bounds)[id].webviews,
        ),
        single_chrome(windows[id].webviews) ==> single_chrome(
            with_webview_bounds(windows, id, webview_id, bounds)[id].webviews,
        ),
{
    let before = windows[id].webviews;
    let after = with_webview_bounds(windows, id, webview_id, bounds)[id].webviews;
    webview_index_finds(before, webview_id);
    assert forall|index: int| 0 <= index < after.len() implies (
    #[trigger] after[index]).runtime_style == before[index].runtime_style
        && after[index].webview_id == before[index].webview_id by {}
}

/// No two webviews of a new window have the same id.
pub proof fn new_windows_have_distinct_ids(
    label: String,
    window_builder: CefWindowBuilder,
    native: NativeWindowId,
    planned: PlannedWebview,
    browser: BrowserId,
)
    ensures
        distinct_ids(opened_window(label, window_builder, native).webviews),
        distinct_ids(browser_window(label, window_builder, planned, browser).webviews),
{
}

} // verus!
