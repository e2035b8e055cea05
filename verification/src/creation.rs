//! What webviews and windows are created with, seen from what was asked for.
use vstd::prelude::*;
use vstd::utf8::*;

use crate::error::HandleError;
use crate::geometry::PhysicalSize;
use crate::places::same_bits;
use crate::script::{
    normalized_newlines, sha256, standard_base64, CefInitScript, InitializationScript,
};
use crate::webview::{
    BrowserId, NativeWindowId, RuntimeStyle, UriScheme, Webview, WebviewId, WebviewKind, WindowId,
};
use crate::webview_create::{
    add_browser_window, add_webview, browser_runtime_style,
    browser_settings_from_webview_attributes, create_browser_window, create_webview, create_window,
    custom_scheme_domain_names, request_context_from_webview_attributes, webview_window_info,
    BrowserPlan, BrowserSettings, CachePath, CefState, PendingWebview, PlannedWebview,
    RequestContextPlan, WebviewAtribute, WebviewAttributes, WebviewPlan, WindowInfo,
};
use crate::window::{AppWindowKind, WindowKind, WindowView, Windows};
use crate::window_builder::{CefWindowBuilder, Platform};
use crate::window_message::RawHandle;

verus! {

/// Whether the settings of a browser are the ones that were asked for: scripts are disabled exactly
/// if that was asked for, and reach the clipboard exactly if that was.
pub open spec fn are_wanted_settings(
    settings: BrowserSettings,
    attributes: WebviewAttributes,
) -> bool {
    &&& settings.javascript == CefState::Disabled <==> attributes.javascript_disabled
    &&& settings.javascript_access_clipboard == CefState::Enabled <==> attributes.clipboard
}

/// Whether requests are made as was asked for: the data are kept in memory exactly if the webview
/// is incognito, and each scheme is answered from its own domain, over HTTPS exactly if that was
/// asked for.
pub open spec fn is_wanted_context(
    context: RequestContextPlan,
    attributes: WebviewAttributes,
    schemes: Seq<UriScheme>,
) -> bool {
    &&& context.cache_path == CachePath::InMemory <==> attributes.incognito
    &&& context.factories@.len() == schemes.len()
    &&& forall|index: int|
        0 <= index < schemes.len() ==> {
            let factory = #[trigger] context.factories@[index];
            &&& factory.scheme@ == schemes[index].scheme@
            &&& factory.domain@ == schemes[index].scheme@ + ".localhost"@
            &&& attributes.use_https_scheme ==> factory.protocol@ == "https"@
            &&& !attributes.use_https_scheme ==> factory.protocol@ == "http"@
        }
}

/// Whether the scripts are the ones that were asked for, in order, each with the hash of its own
/// text.
pub open spec fn are_wanted_scripts(
    inits: Seq<CefInitScript>,
    scripts: Seq<InitializationScript>,
) -> bool {
    &&& inits.len() == scripts.len()
    &&& forall|index: int|
        0 <= index < scripts.len() ==> {
            &&& (#[trigger] inits[index]).script == scripts[index]
            &&& inits[index].hash@ == "'sha256-"@ + standard_base64(
                sha256(normalized_newlines(encode_utf8(scripts[index].script@))),
            ) + "'"@
        }
}

/// Whether a browser is created as was asked for.
pub open spec fn is_wanted_browser(
    plan: BrowserPlan,
    window_id: WindowId,
    webview_id: WebviewId,
    pending: PendingWebview,
    devtools_built: bool,
) -> bool {
    let attributes = pending.webview_attributes;
    let schemes = pending.uri_scheme_protocols@;
    let client = plan.client;
    &&& plan.url@ == pending.url@
    &&& are_wanted_settings(plan.settings, attributes)
    &&& is_wanted_context(plan.request_context, attributes, schemes)
    &&& client.window_id == window_id
    &&& client.on_page_load_handler == pending.on_page_load_handler
    &&& client.document_title_changed_handler == pending.document_title_changed_handler
    &&& client.navigation_handler == pending.navigation_handler
    &&& client.download_handler == pending.download_handler
    &&& client.devtools_enabled <==> devtools_built && attributes.devtools != Some(false)
    &&& are_wanted_scripts(client.initialization_scripts@, attributes.initialization_scripts@)
    &&& attributes.use_https_scheme ==> client.custom_protocol_scheme@ == "https"@
    &&& !attributes.use_https_scheme ==> client.custom_protocol_scheme@ == "http"@
    &&& client.custom_scheme_domain_names@.len() == schemes.len()
    &&& forall|index: int|
        0 <= index < schemes.len() ==> (#[trigger] client.custom_scheme_domain_names@[index])@
            == schemes[index].scheme@ + ".localhost"@
    &&& plan.webview.webview_id == webview_id
    &&& plan.webview.label@ == pending.label@
    &&& plan.webview.devtools_enabled == client.devtools_enabled
    &&& plan.webview.uri_scheme_protocols@ == schemes
    &&& plan.webview.initialization_scripts@ == client.initialization_scripts@
}

/// JavaScript is disabled exactly if that was asked for, whatever is said of the clipboard, and
/// scripts reach the clipboard exactly if that was asked for, whatever is said of JavaScript.
pub proof fn settings_are_independent(attributes: WebviewAttributes, other: WebviewAttributes)
    ensures
        forall|settings: BrowserSettings| #[trigger]
            call_ensures(browser_settings_from_webview_attributes, (&attributes,), settings)
                ==> are_wanted_settings(settings, attributes),
        forall|settings: BrowserSettings, other_settings: BrowserSettings|
            #[trigger] call_ensures(
                browser_settings_from_webview_attributes,
                (&attributes,),
                settings,
            ) && #[trigger] call_ensures(
                browser_settings_from_webview_attributes,
                (&other,),
                other_settings,
            ) ==> {
                &&& settings.javascript == other_settings.javascript <==> {
                    attributes.javascript_disabled == other.javascript_disabled
                }
                &&& settings.javascript_access_clipboard
                    == other_settings.javascript_access_clipboard <==> {
                    attributes.clipboard == other.clipboard
                }
            },
{
}

/// Requests are made as was asked for, and a data directory has no effect on them.
pub proof fn requests_are_made_as_wanted(
    attributes: WebviewAttributes,
    other: WebviewAttributes,
    schemes: Vec<UriScheme>,
)
    ensures
        forall|context: RequestContextPlan| #[trigger]
            call_ensures(request_context_from_webview_attributes, (&attributes, &schemes), context)
                ==> is_wanted_context(context, attributes, schemes@),
        attributes.incognito == other.incognito ==> forall|
            context: RequestContextPlan,
            other_context: RequestContextPlan,
        |
            #[trigger] call_ensures(
                request_context_from_webview_attributes,
                (&attributes, &schemes),
                context,
            ) && #[trigger] call_ensures(
                request_context_from_webview_attributes,
                (&other, &schemes),
                other_context,
            ) ==> context.cache_path == other_context.cache_path,
        forall|names: Vec<String>| #[trigger]
            call_ensures(custom_scheme_domain_names, (&schemes,), names) ==> {
                &&& names@.len() == schemes@.len()
                &&& forall|index: int|
                    0 <= index < schemes@.len() ==> (#[trigger] names@[index])@
                        == schemes@[index].scheme@ + ".localhost"@
            },
{
}

/// A browser in a window that holds one with the Chrome runtime has the Alloy runtime, whatever is
/// asked for. Any other has the first runtime that is asked for; where none is, Chrome exactly if
/// it is the content of its window.
pub proof fn runtimes_are_the_ones_asked_for(
    attributes: Vec<WebviewAtribute>,
    kind: WebviewKind,
    wanted: RuntimeStyle,
)
    ensures
        forall|style: RuntimeStyle| #[trigger]
            call_ensures(browser_runtime_style, (&attributes, kind, true), style) ==> style
                == RuntimeStyle::Alloy,
        attributes@.len() > 0 && attributes@.first() == (WebviewAtribute::RuntimeStyle {
            style: wanted,
        }) ==> forall|style: RuntimeStyle| #[trigger]
            call_ensures(browser_runtime_style, (&attributes, kind, false), style) ==> style
                == wanted,
        attributes@.len() == 0 ==> forall|style: RuntimeStyle| #[trigger]
            call_ensures(browser_runtime_style, (&attributes, kind, false), style) ==> (style
                == RuntimeStyle::Chrome <==> kind == WebviewKind::WindowContent),
{
}

/// A webview is planned for every window of the system and for no other, and as was asked for. Its
/// browser has the runtime that the webview is noted with: Alloy where the window holds one with
/// the Chrome runtime, and else the first that was asked for, or that of its kind.
pub proof fn webviews_are_planned_as_wanted(
    windows: Windows,
    kind: WebviewKind,
    window_id: WindowId,
    webview_id: WebviewId,
    pending: PendingWebview,
    devtools_built: bool,
)
    ensures
        forall|plan: Option<WebviewPlan>| #[trigger]
            call_ensures(
                create_webview,
                (&windows, kind, window_id, webview_id, pending, devtools_built),
                plan,
            ) ==> {
                &&& plan is Some <==> windows@.contains_key(window_id)
                    && windows@[window_id].window is Window
                &&& plan is Some ==> {
                    let asked = pending.platform_specific_attributes@;
                    let style = plan->0.runtime_style;
                    &&& windows@[window_id].window == AppWindowKind::Window(plan->0.native)
                    &&& plan->0.browser.client.kind == WindowKind::Tauri
                    &&& plan->0.browser.webview.runtime_style == Some(style)
                    &&& is_wanted_browser(
                        plan->0.browser,
                        window_id,
                        webview_id,
                        pending,
                        devtools_built,
                    )
                    &&& (exists|index: int|
                        0 <= index < windows@[window_id].webviews.len() && (
                        #[trigger] windows@[window_id].webviews[index]).runtime_style == Some(
                            RuntimeStyle::Chrome,
                        )) ==> style == RuntimeStyle::Alloy
                    &&& (forall|index: int|
                        0 <= index < windows@[window_id].webviews.len() ==> (
                        #[trigger] windows@[window_id].webviews[index]).runtime_style != Some(
                            RuntimeStyle::Chrome,
                        )) ==> {
                        &&& asked.len() > 0 ==> asked.first() == WebviewAtribute::RuntimeStyle {
                            style,
                        }
                        &&& asked.len() == 0 ==> (style == RuntimeStyle::Chrome <==> kind
                            == WebviewKind::WindowContent)
                    }
                }
            },
{
}

/// The browser of a browser window is created as was asked for, and its runtime is left to the
/// browser engine.
pub proof fn browser_windows_are_planned_as_wanted(
    window_id: WindowId,
    webview_id: WebviewId,
    pending: PendingWebview,
    devtools_built: bool,
)
    ensures
        forall|plan: BrowserPlan| #[trigger]
            call_ensures(
                create_browser_window,
                (window_id, webview_id, pending, devtools_built),
                plan,
            ) ==> {
                &&& plan.client.kind == WindowKind::Browser
                &&& plan.webview.runtime_style is None
                &&& is_wanted_browser(plan, window_id, webview_id, pending, devtools_built)
            },
{
}

/// Whether a webview is the planned one, with a browser that it is looked up by.
pub open spec fn is_planned_webview(
    webview: Webview,
    planned: PlannedWebview,
    browser_id: BrowserId,
) -> bool {
    &&& webview.webview_id == planned.webview_id
    &&& webview.label@ == planned.label@
    &&& webview.browser_id == browser_id
    &&& webview.overlay is None
    &&& webview.bounds is None
    &&& webview.devtools_enabled == planned.devtools_enabled
    &&& webview.runtime_style == planned.runtime_style
    &&& webview.uri_scheme_protocols@ == planned.uri_scheme_protocols@
    &&& webview.initialization_scripts@ == planned.initialization_scripts@
}

/// A webview is what was planned, whatever browser it gets.
pub proof fn webviews_are_as_planned(
    planned: PlannedWebview,
    browser: Option<BrowserId>,
    browser_id: BrowserId,
    webview: Webview,
)
    requires
        call_ensures(PlannedWebview::into_webview, (planned, browser, browser_id), webview),
    ensures
        is_planned_webview(webview, planned, browser_id),
        webview.browser == browser,
{
}

/// A new webview stands behind the others of its window, speaks to its browser and is looked up by
/// it. The other webviews, the other windows and all else of its window stay as they were.
pub proof fn new_webviews_stand_behind_the_others(
    id: WindowId,
    planned: PlannedWebview,
    browser: BrowserId,
)
    ensures
        forall|windows: &mut Windows| #[trigger]
            call_ensures(add_webview, (windows, id, planned, browser), ()) && windows@.contains_key(
                id,
            ) ==> {
                let before = windows@[id];
                let after = final(windows)@[id];
                let count = before.webviews.len();
                &&& after.webviews.len() == count + 1
                &&& forall|index: int|
                    0 <= index < count ==> #[trigger] after.webviews[index]
                        == before.webviews[index]
                &&& is_planned_webview(after.webviews[count as int], planned, browser)
                &&& after.webviews[count as int].browser == Some(browser)
                &&& after.label == before.label
                &&& after.window == before.window
                &&& after.force_close == before.force_close
                &&& after.attributes == before.attributes
                &&& after.window_event_listeners == before.window_event_listeners
                &&& after.webview_event_listeners == before.webview_event_listeners
                &&& forall|other: WindowId| #![trigger final(windows)@[other]]
                    other != id ==> final(windows)@[other] == windows@[other]
                &&& forall|other: WindowId| #![trigger final(windows)@.contains_key(other)]
                    final(windows)@.contains_key(other) <==> windows@.contains_key(other)
            },
{
}

/// Whether a window was just opened: it asks before it closes, and nobody listens to it.
pub open spec fn is_new_window(
    window: WindowView,
    label: String,
    attributes: CefWindowBuilder,
) -> bool {
    &&& window.label@ == label@
    &&& window.attributes == attributes
    &&& !window.force_close
    &&& forall|event: u32| !(#[trigger] window.window_event_listeners.contains_key(event))
    &&& forall|id: WebviewId| !(#[trigger] window.webview_event_listeners.contains_key(id))
}

/// A window that was opened stands for the window of the system, has its own label and attributes,
/// and no webview. All other windows stay as they were.
pub proof fn opened_windows_are_as_wanted(
    id: WindowId,
    label: String,
    window_builder: CefWindowBuilder,
    native: NativeWindowId,
    other: WindowId,
)
    ensures
        forall|windows: &mut Windows| #[trigger]
            call_ensures(create_window, (windows, id, label, window_builder, native), ()) ==> {
                &&& final(windows)@.contains_key(id)
                &&& is_new_window(final(windows)@[id], label, window_builder)
                &&& final(windows)@[id].window == AppWindowKind::Window(native)
                &&& final(windows)@[id].webviews.len() == 0
                &&& other != id ==> final(windows)@[other] == windows@[other]
                &&& other != id ==> (final(windows)@.contains_key(other)
                    <==> windows@.contains_key(other))
            },
{
}

/// A browser window belongs to the browser engine, has its own label and attributes, and one
/// webview, which does not speak to its browser but is looked up by it. Where the browser could
/// not be created, nothing changes.
pub proof fn browser_windows_are_as_wanted(
    id: WindowId,
    label: String,
    window_builder: CefWindowBuilder,
    planned: PlannedWebview,
    browser: BrowserId,
    other: WindowId,
)
    ensures
        forall|windows: &mut Windows| #[trigger]
            call_ensures(
                add_browser_window,
                (windows, id, label, window_builder, planned, Some(browser)),
                (),
            ) ==> {
                let webviews = final(windows)@[id].webviews;
                &&& final(windows)@.contains_key(id)
                &&& is_new_window(final(windows)@[id], label, window_builder)
                &&& final(windows)@[id].window == AppWindowKind::BrowserWindow
                &&& webviews.len() == 1
                &&& is_planned_webview(webviews[0], planned, browser)
                &&& webviews[0].browser is None
                &&& other != id ==> final(windows)@[other] == windows@[other]
                &&& other != id ==> (final(windows)@.contains_key(other)
                    <==> windows@.contains_key(other))
            },
        forall|windows: &mut Windows| #[trigger]
            call_ensures(
                add_browser_window,
                (windows, id, label, window_builder, planned, None::<BrowserId>),
                (),
            ) ==> final(windows)@ == windows@,
{
}

/// A browser is put in the view of a macOS window or in an X11 window, on its own system, over the
/// whole of its surface, and nowhere else.
pub proof fn browsers_fill_their_window(
    platform: Platform,
    handle: Result<RawHandle, HandleError>,
    surface: PhysicalSize,
    info: Option<WindowInfo>,
)
    requires
        call_ensures(webview_window_info, (platform, handle, surface), info),
    ensures
        info is Some <==> {
            ||| platform == Platform::MacOs && handle is Ok && handle->Ok_0 is AppKit
            ||| platform == Platform::Linux && handle is Ok && handle->Ok_0 is Xlib
        },
        info is Some && platform == Platform::MacOs ==> info->0.parent is View && handle
            == Ok::<RawHandle, HandleError>(RawHandle::AppKit(info->0.parent->View_0)),
        info is Some && platform == Platform::Linux ==> info->0.parent is Window && handle
            == Ok::<RawHandle, HandleError>(RawHandle::Xlib(info->0.parent->Window_0)),
        info is Some ==> info->0.bounds.x == 0 && info->0.bounds.y == 0,
        info is Some ==> same_bits(info->0.bounds.width, surface.width as int),
        info is Some ==> same_bits(info->0.bounds.height, surface.height as int),
{
}

} // verus!
