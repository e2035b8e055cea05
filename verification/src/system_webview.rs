//! What messages to a webview come to, seen from the browser and the overlay that they reach.
use vstd::prelude::*;

use crate::color::Color;
use crate::error::Error;
use crate::geometry::{CefPoint, Float64, PhysicalPosition, PhysicalSize, Position, Rect, Size};
use crate::webview::{
    first_is_unique, is_first, webview_index_finds, BrowserId, HandlerId, NativeWindowId, OverlayId,
    Webview, WebviewId, WindowId,
};
use crate::webview_message::{
    answer_extent, answer_url, cookie_scope, cookies_without_manager, get_browser, get_webview,
    handle_webview_message, to_cef_cookie, webview_of, BrowserCommand, CefCookie, Cookie, Extent,
    FrameSource, Place, WebviewEffect, WebviewMessage, WebviewReply,
};
use crate::window::{AppWindowKind, WindowView, Windows};

verus! {

/// Whether a webview is the first with an id in the window under `id`.
pub open spec fn holds_webview(
    windows: Map<WindowId, WindowView>,
    id: WindowId,
    webview_id: WebviewId,
    webview: Webview,
) -> bool {
    windows.contains_key(id) && exists|index: int|
        {
            &&& 0 <= index < windows[id].webviews.len()
            &&& #[trigger] windows[id].webviews[index] == webview
            &&& webview.webview_id == webview_id
            &&& forall|before: int|
                0 <= before < index ==> (#[trigger] windows[id].webviews[before]).webview_id
                    != webview_id
        }
}

/// Whether no webview with an id is in the window under `id`.
pub open spec fn lacks_webview(
    windows: Map<WindowId, WindowView>,
    id: WindowId,
    webview_id: WebviewId,
) -> bool {
    windows.contains_key(id) ==> forall|index: int|
        0 <= index < windows[id].webviews.len() ==> (
        #[trigger] windows[id].webviews[index]).webview_id != webview_id
}

/// Whether `native` is the window of the system under `id`, or `None` where there is none.
pub open spec fn has_native(
    windows: Map<WindowId, WindowView>,
    id: WindowId,
    native: Option<NativeWindowId>,
) -> bool {
    match native {
        Some(native) => windows.contains_key(id) && windows[id].window == AppWindowKind::Window(
            native,
        ),
        None => windows.contains_key(id) ==> windows[id].window == AppWindowKind::BrowserWindow,
    }
}

/// Whether a message to a webview comes to `effect`, where the window under `id` holds the webview
/// and `native` is the window of the system.
pub open spec fn comes_to(
    id: WindowId,
    webview: Webview,
    native: Option<NativeWindowId>,
    message: WebviewMessage,
    effect: WebviewEffect,
) -> bool {
    forall|windows: &mut Windows, done: WebviewEffect| #[trigger]
        call_ensures(handle_webview_message, (windows, id, webview.webview_id, message), done)
            && holds_webview(windows@, id, webview.webview_id, webview) && has_native(
            windows@,
            id,
            native,
        ) ==> done == effect
}

/// Whether a message to a webview that is not there comes to `effect`.
pub open spec fn misses_with(
    id: WindowId,
    webview_id: WebviewId,
    message: WebviewMessage,
    effect: WebviewEffect,
) -> bool {
    forall|windows: &mut Windows, done: WebviewEffect| #[trigger]
        call_ensures(handle_webview_message, (windows, id, webview_id, message), done)
            && lacks_webview(windows@, id, webview_id) ==> done == effect
}

/// The webview that a message goes to is the first of the window with the id.
pub proof fn messages_go_to_the_first()
    ensures
        forall|
            windows: Map<WindowId, WindowView>,
            id: WindowId,
            webview_id: WebviewId,
            webview: Webview,
        | #[trigger]
            holds_webview(windows, id, webview_id, webview) ==> webview_of(windows, id, webview_id)
                == Some(webview),
        forall|windows: Map<WindowId, WindowView>, id: WindowId, webview_id: WebviewId| #[trigger]
            lacks_webview(windows, id, webview_id) ==> webview_of(windows, id, webview_id) is None,
        forall|windows: Map<WindowId, WindowView>, id: WindowId, webview_id: WebviewId|
            match #[trigger] webview_of(windows, id, webview_id) {
                Some(webview) => holds_webview(windows, id, webview_id, webview),
                None => lacks_webview(windows, id, webview_id),
            },
{
    assert forall|
        windows: Map<WindowId, WindowView>,
        id: WindowId,
        webview_id: WebviewId,
        webview: Webview,
    | #[trigger] holds_webview(windows, id, webview_id, webview) implies webview_of(
        windows,
        id,
        webview_id,
    ) == Some(webview) by {
        let webviews = windows[id].webviews;
        let index = choose|index: int|
            {
                &&& 0 <= index < webviews.len()
                &&& #[trigger] webviews[index] == webview
                &&& webview.webview_id == webview_id
                &&& forall|before: int|
                    0 <= before < index ==> (#[trigger] webviews[before]).webview_id != webview_id
            };
        assert(is_first(webviews, webview_id, index));
        first_is_unique(webviews, webview_id, index);
    }
    assert forall|windows: Map<WindowId, WindowView>, id: WindowId, webview_id: WebviewId|
        #[trigger] lacks_webview(windows, id, webview_id) implies webview_of(
        windows,
        id,
        webview_id,
    ) is None by {
        if windows.contains_key(id) {
            webview_index_finds(windows[id].webviews, webview_id);
        }
    }
    assert forall|windows: Map<WindowId, WindowView>, id: WindowId, webview_id: WebviewId| match (
    #[trigger] webview_of(windows, id, webview_id)) {
        Some(webview) => holds_webview(windows, id, webview_id, webview),
        None => lacks_webview(windows, id, webview_id),
    } by {
        if windows.contains_key(id) {
            webview_index_finds(windows[id].webviews, webview_id);
        }
    }
}

/// Whether the browser engine is given the cookie: its name, its value and where it belongs are
/// kept, and it is secure, or hidden from scripts, where that was asked for and nowhere else.
pub open spec fn is_same_cookie(cookie: Cookie, set: CefCookie) -> bool {
    &&& set.name == cookie.name
    &&& set.value == cookie.value
    &&& set.domain == cookie.domain
    &&& set.path == cookie.path
    &&& set.secure == 1 || set.secure == 0
    &&& set.secure == 1 <==> cookie.secure == Some(true)
    &&& set.httponly == 1 || set.httponly == 0
    &&& set.httponly == 1 <==> cookie.http_only == Some(true)
}

/// The browser engine is given the cookie that was asked for.
pub proof fn cookies_are_kept_as_they_are(cookie: Cookie)
    ensures
        forall|set: CefCookie| #[trigger]
            call_ensures(to_cef_cookie, (cookie,), set) ==> is_same_cookie(cookie, set),
{
}

/// What a browser is told is what the message says, and it is the browser of the webview that is
/// told.
pub proof fn browsers_are_told_what_was_said(
    id: WindowId,
    webview: Webview,
    native: Option<NativeWindowId>,
    browser: BrowserId,
    text: String,
    scale: Float64,
    handler: HandlerId,
)
    requires
        webview.browser == Some(browser),
    ensures
        comes_to(
            id,
            webview,
            native,
            WebviewMessage::EvaluateScript(text),
            WebviewEffect::Browser(
                browser,
                BrowserCommand::ExecuteJavaScript { code: text, script_url: "", start_line: 0 },
            ),
        ),
        comes_to(
            id,
            webview,
            native,
            WebviewMessage::Navigate(text),
            WebviewEffect::Browser(browser, BrowserCommand::LoadUrl(text)),
        ),
        comes_to(
            id,
            webview,
            native,
            WebviewMessage::Reload,
            WebviewEffect::Browser(browser, BrowserCommand::Reload),
        ),
        comes_to(
            id,
            webview,
            native,
            WebviewMessage::Print,
            WebviewEffect::Browser(browser, BrowserCommand::Print),
        ),
        comes_to(
            id,
            webview,
            native,
            WebviewMessage::SetFocus,
            WebviewEffect::Browser(browser, BrowserCommand::SetFocus(1)),
        ),
        comes_to(
            id,
            webview,
            native,
            WebviewMessage::SetZoom(scale),
            WebviewEffect::Browser(browser, BrowserCommand::SetZoomLevel(scale)),
        ),
        comes_to(
            id,
            webview,
            native,
            WebviewMessage::WithWebview(handler),
            WebviewEffect::Browser(browser, BrowserCommand::HandOver(handler)),
        ),
        comes_to(
            id,
            webview,
            native,
            WebviewMessage::CloseDevTools,
            WebviewEffect::Browser(browser, BrowserCommand::CloseDevTools),
        ),
        comes_to(id, webview, native, WebviewMessage::Url, WebviewEffect::QueryUrl(browser)),
{
    messages_go_to_the_first();
}

/// The developer tools open, at the origin of the page, exactly where they are enabled.
pub proof fn devtools_open_where_enabled(
    id: WindowId,
    webview: Webview,
    native: Option<NativeWindowId>,
    browser: BrowserId,
)
    requires
        webview.browser == Some(browser),
    ensures
        webview.devtools_enabled ==> comes_to(
            id,
            webview,
            native,
            WebviewMessage::OpenDevTools,
            WebviewEffect::Browser(
                browser,
                BrowserCommand::ShowDevTools { inspect_at: CefPoint { x: 0, y: 0 } },
            ),
        ),
        !webview.devtools_enabled ==> comes_to(
            id,
            webview,
            native,
            WebviewMessage::OpenDevTools,
            WebviewEffect::Nothing,
        ),
{
    messages_go_to_the_first();
}

/// A webview that may not speak to a browser tells none anything, and is asked for no address.
pub proof fn without_browser_none_is_told(
    id: WindowId,
    webview: Webview,
    native: Option<NativeWindowId>,
    text: String,
    scale: Float64,
    handler: HandlerId,
)
    requires
        webview.browser is None,
    ensures
        comes_to(id, webview, native, WebviewMessage::EvaluateScript(text), WebviewEffect::Nothing),
        comes_to(id, webview, native, WebviewMessage::Navigate(text), WebviewEffect::Nothing),
        comes_to(id, webview, native, WebviewMessage::Reload, WebviewEffect::Nothing),
        comes_to(id, webview, native, WebviewMessage::Print, WebviewEffect::Nothing),
        comes_to(id, webview, native, WebviewMessage::SetFocus, WebviewEffect::Nothing),
        comes_to(id, webview, native, WebviewMessage::SetZoom(scale), WebviewEffect::Nothing),
        comes_to(id, webview, native, WebviewMessage::WithWebview(handler), WebviewEffect::Nothing),
        comes_to(id, webview, native, WebviewMessage::OpenDevTools, WebviewEffect::Nothing),
        comes_to(id, webview, native, WebviewMessage::CloseDevTools, WebviewEffect::Nothing),
        comes_to(
            id,
            webview,
            native,
            WebviewMessage::Url,
            WebviewEffect::Reply(WebviewReply::Url(Err(Error::FailedToSendMessage))),
        ),
{
    messages_go_to_the_first();
}

/// Setting and deleting a cookie goes by the browser of the webview: by that very browser where the
/// webview has one, and by none where it has none. The cookie that is set is the one of the
/// message, and the one that is deleted has its name.
pub proof fn cookies_go_by_the_browser_of_the_webview(
    id: WindowId,
    webview: Webview,
    cookie: Cookie,
)
    ensures
        forall|windows: &mut Windows, done: WebviewEffect|
            #[trigger] call_ensures(
                handle_webview_message,
                (windows, id, webview.webview_id, WebviewMessage::SetCookie(cookie)),
                done,
            ) && holds_webview(windows@, id, webview.webview_id, webview) ==> {
                &&& done matches WebviewEffect::SetCookie { browser, cookie: set }
                &&& browser == webview.browser
                &&& is_same_cookie(cookie, set)
            },
        forall|windows: &mut Windows, done: WebviewEffect|
            #[trigger] call_ensures(
                handle_webview_message,
                (windows, id, webview.webview_id, WebviewMessage::DeleteCookie(cookie)),
                done,
            ) && holds_webview(windows@, id, webview.webview_id, webview) ==> {
                &&& done matches WebviewEffect::DeleteCookies { browser, name }
                &&& browser == webview.browser
                &&& name == cookie.name
            },
{
    messages_go_to_the_first();
}

/// A cookie is changed without a browser only where the webview is missing or has none.
pub proof fn cookies_without_browser(
    id: WindowId,
    webview_id: WebviewId,
    cookie: Cookie,
)
    ensures
        forall|windows: &mut Windows, done: WebviewEffect|
            #[trigger] call_ensures(
                handle_webview_message,
                (windows, id, webview_id, WebviewMessage::SetCookie(cookie)),
                done,
            ) ==> {
                &&& done is SetCookie
                &&& lacks_webview(windows@, id, webview_id) ==> done->SetCookie_browser is None
                &&& done->SetCookie_browser is None ==> lacks_webview(windows@, id, webview_id)
                    || exists|webview: Webview| #[trigger]
                    holds_webview(windows@, id, webview_id, webview) && webview.browser is None
            },
        forall|windows: &mut Windows, done: WebviewEffect|
            #[trigger] call_ensures(
                handle_webview_message,
                (windows, id, webview_id, WebviewMessage::DeleteCookie(cookie)),
                done,
            ) ==> {
                &&& done is DeleteCookies
                &&& lacks_webview(windows@, id, webview_id) ==> done->DeleteCookies_browser is None
                &&& done->DeleteCookies_browser is None ==> lacks_webview(windows@, id, webview_id)
                    || exists|webview: Webview| #[trigger]
                    holds_webview(windows@, id, webview_id, webview) && webview.browser is None
            },
{
    messages_go_to_the_first();
}

/// Cookies are asked for by the address of the message, hidden ones among them, or all of them,
/// whatever the webview.
pub proof fn cookies_are_asked_for_by_address(
    id: WindowId,
    webview: Webview,
    native: Option<NativeWindowId>,
    webview_id: WebviewId,
    url: String,
)
    ensures
        comes_to(
            id,
            webview,
            native,
            WebviewMessage::CookiesForUrl(url),
            WebviewEffect::VisitUrlCookies { url, include_http_only: 1 },
        ),
        comes_to(id, webview, native, WebviewMessage::Cookies, WebviewEffect::VisitAllCookies),
        misses_with(
            id,
            webview_id,
            WebviewMessage::CookiesForUrl(url),
            WebviewEffect::VisitUrlCookies { url, include_http_only: 1 },
        ),
        misses_with(id, webview_id, WebviewMessage::Cookies, WebviewEffect::VisitAllCookies),
{
    messages_go_to_the_first();
}

/// An overlay is shown, hidden and destroyed as the message says, and placed where it says, in the
/// scale of its window.
pub proof fn overlays_do_what_was_said(
    id: WindowId,
    webview: Webview,
    native: Option<NativeWindowId>,
    overlay: OverlayId,
    position: Position,
    size: Size,
    bounds: Rect,
)
    requires
        webview.overlay == Some(overlay),
    ensures
        comes_to(
            id,
            webview,
            native,
            WebviewMessage::Show,
            WebviewEffect::SetOverlayVisible(overlay, 1),
        ),
        comes_to(
            id,
            webview,
            native,
            WebviewMessage::Hide,
            WebviewEffect::SetOverlayVisible(overlay, 0),
        ),
        comes_to(
            id,
            webview,
            native,
            WebviewMessage::Close,
            WebviewEffect::DestroyOverlay(overlay),
        ),
        comes_to(
            id,
            webview,
            native,
            WebviewMessage::SetPosition(position),
            WebviewEffect::PlaceOverlay {
                overlay,
                scale: native,
                place: Place::Position(position),
            },
        ),
        comes_to(
            id,
            webview,
            native,
            WebviewMessage::SetSize(size),
            WebviewEffect::PlaceOverlay { overlay, scale: native, place: Place::Size(size) },
        ),
        comes_to(
            id,
            webview,
            native,
            WebviewMessage::SetBounds(bounds),
            WebviewEffect::PlaceOverlay { overlay, scale: native, place: Place::Bounds(bounds) },
        ),
        native matches Some(of) ==> comes_to(
            id,
            webview,
            native,
            WebviewMessage::SetAutoResize(true),
            WebviewEffect::FollowWindow { overlay, native: of },
        ),
        native is None ==> comes_to(
            id,
            webview,
            native,
            WebviewMessage::SetAutoResize(true),
            WebviewEffect::Nothing,
        ),
        comes_to(id, webview, native, WebviewMessage::SetAutoResize(false), WebviewEffect::Nothing),
{
    messages_go_to_the_first();
}

/// A webview without an overlay is not shown, hidden, destroyed or placed.
pub proof fn without_overlay_nothing_is_placed(
    id: WindowId,
    webview: Webview,
    native: Option<NativeWindowId>,
    position: Position,
    size: Size,
    bounds: Rect,
    follow: bool,
)
    requires
        webview.overlay is None,
    ensures
        comes_to(id, webview, native, WebviewMessage::Show, WebviewEffect::Nothing),
        comes_to(id, webview, native, WebviewMessage::Hide, WebviewEffect::Nothing),
        comes_to(id, webview, native, WebviewMessage::Close, WebviewEffect::Nothing),
        comes_to(
            id,
            webview,
            native,
            WebviewMessage::SetPosition(position),
            WebviewEffect::Nothing,
        ),
        comes_to(id, webview, native, WebviewMessage::SetSize(size), WebviewEffect::Nothing),
        comes_to(id, webview, native, WebviewMessage::SetBounds(bounds), WebviewEffect::Nothing),
        comes_to(
            id,
            webview,
            native,
            WebviewMessage::SetAutoResize(follow),
            WebviewEffect::Nothing,
        ),
{
    messages_go_to_the_first();
}

/// The place of a webview is read from its overlay, and else from its window, in the scale of the
/// window, and it is what was asked for that is read.
pub proof fn places_are_read_where_they_are(
    id: WindowId,
    webview: Webview,
    native: Option<NativeWindowId>,
)
    ensures
        webview.overlay matches Some(overlay) ==> comes_to(
            id,
            webview,
            native,
            WebviewMessage::Bounds,
            WebviewEffect::Measure {
                source: FrameSource::Overlay(overlay),
                scale: native,
                extent: Extent::Bounds,
            },
        ),
        native matches Some(of) ==> webview.overlay is None ==> comes_to(
            id,
            webview,
            native,
            WebviewMessage::Bounds,
            WebviewEffect::Measure {
                source: FrameSource::Window(of),
                scale: native,
                extent: Extent::Bounds,
            },
        ),
        webview.overlay matches Some(overlay) ==> comes_to(
            id,
            webview,
            native,
            WebviewMessage::Position,
            WebviewEffect::Measure {
                source: FrameSource::Overlay(overlay),
                scale: native,
                extent: Extent::Position,
            },
        ),
        native matches Some(of) ==> webview.overlay is None ==> comes_to(
            id,
            webview,
            native,
            WebviewMessage::Position,
            WebviewEffect::Measure {
                source: FrameSource::Window(of),
                scale: native,
                extent: Extent::Position,
            },
        ),
        webview.overlay matches Some(overlay) ==> comes_to(
            id,
            webview,
            native,
            WebviewMessage::Size,
            WebviewEffect::Measure {
                source: FrameSource::Overlay(overlay),
                scale: native,
                extent: Extent::Size,
            },
        ),
        native matches Some(of) ==> webview.overlay is None ==> comes_to(
            id,
            webview,
            native,
            WebviewMessage::Size,
            WebviewEffect::Measure {
                source: FrameSource::Window(of),
                scale: native,
                extent: Extent::Size,
            },
        ),
{
    messages_go_to_the_first();
}

/// Nothing is done about a webview that is not there, and who asks for it gets an error.
pub proof fn missing_webviews_are_refused(
    id: WindowId,
    webview_id: WebviewId,
    text: String,
    scale: Float64,
    handler: HandlerId,
    position: Position,
    size: Size,
    bounds: Rect,
    follow: bool,
)
    ensures
        misses_with(id, webview_id, WebviewMessage::EvaluateScript(text), WebviewEffect::Nothing),
        misses_with(id, webview_id, WebviewMessage::Navigate(text), WebviewEffect::Nothing),
        misses_with(id, webview_id, WebviewMessage::Reload, WebviewEffect::Nothing),
        misses_with(id, webview_id, WebviewMessage::Print, WebviewEffect::Nothing),
        misses_with(id, webview_id, WebviewMessage::SetFocus, WebviewEffect::Nothing),
        misses_with(id, webview_id, WebviewMessage::SetZoom(scale), WebviewEffect::Nothing),
        misses_with(id, webview_id, WebviewMessage::WithWebview(handler), WebviewEffect::Nothing),
        misses_with(id, webview_id, WebviewMessage::OpenDevTools, WebviewEffect::Nothing),
        misses_with(id, webview_id, WebviewMessage::CloseDevTools, WebviewEffect::Nothing),
        misses_with(id, webview_id, WebviewMessage::Show, WebviewEffect::Nothing),
        misses_with(id, webview_id, WebviewMessage::Hide, WebviewEffect::Nothing),
        misses_with(id, webview_id, WebviewMessage::Close, WebviewEffect::Nothing),
        misses_with(id, webview_id, WebviewMessage::SetPosition(position), WebviewEffect::Nothing),
        misses_with(id, webview_id, WebviewMessage::SetSize(size), WebviewEffect::Nothing),
        misses_with(id, webview_id, WebviewMessage::SetBounds(bounds), WebviewEffect::Nothing),
        misses_with(id, webview_id, WebviewMessage::SetAutoResize(follow), WebviewEffect::Nothing),
        misses_with(
            id,
            webview_id,
            WebviewMessage::Url,
            WebviewEffect::Reply(WebviewReply::Url(Err(Error::FailedToSendMessage))),
        ),
        misses_with(
            id,
            webview_id,
            WebviewMessage::Bounds,
            WebviewEffect::Reply(WebviewReply::Bounds(Err(Error::FailedToSendMessage))),
        ),
        misses_with(
            id,
            webview_id,
            WebviewMessage::Position,
            WebviewEffect::Reply(WebviewReply::Position(Err(Error::FailedToSendMessage))),
        ),
        misses_with(
            id,
            webview_id,
            WebviewMessage::Size,
            WebviewEffect::Reply(WebviewReply::Size(Err(Error::FailedToSendMessage))),
        ),
{
    messages_go_to_the_first();
}

/// Some messages are not carried out, and the developer tools are never told to be open.
pub proof fn some_messages_are_idle(
    id: WindowId,
    webview: Webview,
    native: Option<NativeWindowId>,
    webview_id: WebviewId,
    other: WindowId,
    color: Option<Color>,
    event: u32,
    handler: HandlerId,
)
    ensures
        comes_to(id, webview, native, WebviewMessage::Reparent(other), WebviewEffect::Nothing),
        misses_with(id, webview_id, WebviewMessage::Reparent(other), WebviewEffect::Nothing),
        comes_to(
            id,
            webview,
            native,
            WebviewMessage::SetBackgroundColor(color),
            WebviewEffect::Nothing,
        ),
        misses_with(
            id,
            webview_id,
            WebviewMessage::SetBackgroundColor(color),
            WebviewEffect::Nothing,
        ),
        comes_to(id, webview, native, WebviewMessage::ClearAllBrowsingData, WebviewEffect::Nothing),
        misses_with(id, webview_id, WebviewMessage::ClearAllBrowsingData, WebviewEffect::Nothing),
        comes_to(
            id,
            webview,
            native,
            WebviewMessage::AddEventListener(event, handler),
            WebviewEffect::Nothing,
        ),
        misses_with(
            id,
            webview_id,
            WebviewMessage::AddEventListener(event, handler),
            WebviewEffect::Nothing,
        ),
        comes_to(
            id,
            webview,
            native,
            WebviewMessage::IsDevToolsOpen,
            WebviewEffect::Reply(WebviewReply::DevToolsOpen(false)),
        ),
        misses_with(
            id,
            webview_id,
            WebviewMessage::IsDevToolsOpen,
            WebviewEffect::Reply(WebviewReply::DevToolsOpen(false)),
        ),
{
    messages_go_to_the_first();
}

/// Who asks for the address of a webview is told that of the main frame, and who asks for its
/// place what was measured, each as it was asked for.
pub proof fn answers_are_told_as_they_are(
    url: String,
    position: PhysicalPosition,
    size: PhysicalSize,
    reply: WebviewReply,
)
    ensures
        call_ensures(answer_url, (Some(url),), reply) ==> reply == WebviewReply::Url(Ok(url)),
        call_ensures(answer_url, (None::<String>,), reply) ==> reply == WebviewReply::Url(
            Err(Error::FailedToSendMessage),
        ),
        call_ensures(answer_extent, (Extent::Position, position, size), reply) ==> reply
            == WebviewReply::Position(Ok(position)),
        call_ensures(answer_extent, (Extent::Size, position, size), reply) ==> reply
            == WebviewReply::Size(Ok(size)),
        call_ensures(answer_extent, (Extent::Bounds, position, size), reply) ==> reply
            == WebviewReply::Bounds(
            Ok(Rect { position: Position::Physical(position), size: Size::Physical(size) }),
        ),
{
}

/// A change of cookies is limited to an address exactly where that has a text, and then to that
/// address.
pub proof fn cookies_are_limited_to_their_page(url: String, scope: Option<String>)
    ensures
        call_ensures(cookie_scope, (Some(url),), scope) ==> (scope is Some <==> url@.len() > 0)
            && (scope is Some ==> scope == Some(url)),
        call_ensures(cookie_scope, (None::<String>,), scope) ==> scope is None,
{
}

/// What is known of the windows changes by three messages to a webview only: someone listens to
/// it, it is closed, or it no longer follows its window.
pub proof fn few_messages_change_the_webview(
    id: WindowId,
    webview_id: WebviewId,
    message: WebviewMessage,
)
    requires
        !(message is AddEventListener),
        !(message is Close),
        message != WebviewMessage::SetAutoResize(false),
    ensures
        forall|windows: &mut Windows, done: WebviewEffect| #[trigger]
            call_ensures(handle_webview_message, (windows, id, webview_id, message), done)
                ==> final(windows)@ == windows@,
{
    assert forall|windows: &mut Windows, done: WebviewEffect| #[trigger]
        call_ensures(handle_webview_message, (windows, id, webview_id, message), done) implies
        final(windows)@ == windows@ by {
        assert(final(windows)@ =~= windows@);
    }
}

/// Whatever the message, all other windows stay as they were, and of its own window all but the
/// webviews and those who listen to them.
pub proof fn messages_stay_in_the_window(
    id: WindowId,
    webview_id: WebviewId,
    message: WebviewMessage,
    other: WindowId,
)
    ensures
        forall|windows: &mut Windows, done: WebviewEffect| #[trigger]
            call_ensures(handle_webview_message, (windows, id, webview_id, message), done) ==> {
                let before = windows@;
                let after = final(windows)@;
                &&& after.contains_key(other) <==> before.contains_key(other)
                &&& other != id ==> after[other] == before[other]
                &&& after[id].label == before[id].label
                &&& after[id].window == before[id].window
                &&& after[id].force_close == before[id].force_close
                &&& after[id].attributes == before[id].attributes
                &&& after[id].window_event_listeners == before[id].window_event_listeners
            },
{
}

/// A webview that is closed is taken out of its window, with those who listen to it. All other
/// webviews stay in their order, with those who listen to them.
pub proof fn closed_webviews_are_taken_out(id: WindowId, webview: Webview, index: int)
    ensures
        forall|windows: &mut Windows, done: WebviewEffect| #[trigger]
            call_ensures(
                handle_webview_message,
                (windows, id, webview.webview_id, WebviewMessage::Close),
                done,
            ) && windows@.contains_key(id) && 0 <= index < windows@[id].webviews.len()
                && windows@[id].webviews[index] == webview && (forall|before: int|
                0 <= before < index ==> (#[trigger] windows@[id].webviews[before]).webview_id
                    != webview.webview_id) ==> {
                let before = windows@[id];
                let after = final(windows)@[id];
                &&& after.webviews.len() == before.webviews.len() - 1
                &&& forall|place: int| #![trigger after.webviews[place]]
                    0 <= place < index ==> after.webviews[place] == before.webviews[place]
                &&& forall|place: int| #![trigger after.webviews[place]]
                    index <= place < after.webviews.len() ==> after.webviews[place]
                        == before.webviews[place + 1]
                &&& !after.webview_event_listeners.contains_key(webview.webview_id)
                &&& forall|other: WebviewId|
                    #![trigger after.webview_event_listeners.contains_key(other)]
                    other != webview.webview_id ==> {
                        &&& after.webview_event_listeners.contains_key(other)
                            <==> before.webview_event_listeners.contains_key(other)
                        &&& after.webview_event_listeners[other]
                            == before.webview_event_listeners[other]
                    }
            },
{
    assert forall|windows: &mut Windows, done: WebviewEffect| #[trigger]
        call_ensures(
            handle_webview_message,
            (windows, id, webview.webview_id, WebviewMessage::Close),
            done,
        ) && windows@.contains_key(id) && 0 <= index < windows@[id].webviews.len()
            && windows@[id].webviews[index] == webview && (forall|before: int|
            0 <= before < index ==> (#[trigger] windows@[id].webviews[before]).webview_id
                != webview.webview_id) implies {
        let before = windows@[id];
        let after = final(windows)@[id];
        &&& after.webviews == before.webviews.remove(index)
        &&& after.webview_event_listeners == before.webview_event_listeners.remove(
            webview.webview_id,
        )
    } by {
        first_is_unique(windows@[id].webviews, webview.webview_id, index);
    }
}

/// The command that a message comes to by itself is the one that the browser is told, and a webview
/// is looked up as the one that messages go to.
pub proof fn messages_come_to_browser_commands(
    id: WindowId,
    webview: Webview,
    message: WebviewMessage,
)
    ensures
        forall|windows: &mut Windows, done: WebviewEffect, command: Option<BrowserCommand>|
            #[trigger] call_ensures(
                handle_webview_message,
                (windows, id, webview.webview_id, message),
                done,
            ) && #[trigger] call_ensures(
                WebviewMessage::into_command,
                (message, webview.devtools_enabled),
                command,
            ) && holds_webview(windows@, id, webview.webview_id, webview) ==> {
                &&& done is Browser <==> webview.browser is Some && command is Some
                &&& done is Browser ==> Some(done->Browser_0) == webview.browser && Some(
                    done->Browser_1,
                ) == command
            },
{
    messages_go_to_the_first();
}

/// A webview is found exactly where it is the first with its id, and with it its browser.
pub proof fn webviews_are_found(windows: Windows, id: WindowId, webview_id: WebviewId)
    ensures
        forall|found: Option<&Webview>| #[trigger]
            call_ensures(get_webview, (&windows, id, webview_id), found) ==> match found {
                Some(webview) => holds_webview(windows@, id, webview_id, *webview),
                None => lacks_webview(windows@, id, webview_id),
            },
        forall|webview: Webview, browser: Option<BrowserId>|
            #[trigger] holds_webview(windows@, id, webview_id, webview) && #[trigger] call_ensures(
                get_browser,
                (&windows, id, webview_id),
                browser,
            ) ==> browser == webview.browser,
        forall|browser: Option<BrowserId>| #[trigger]
            call_ensures(get_browser, (&windows, id, webview_id), browser) && lacks_webview(
                windows@,
                id,
                webview_id,
            ) ==> browser is None,
        forall|reply: WebviewReply| #[trigger]
            call_ensures(cookies_without_manager, (), reply) ==> {
                &&& reply matches WebviewReply::Cookies(Ok(cookies))
                &&& cookies@.len() == 0
            },
{
    messages_go_to_the_first();
}

/// Who listens to a webview is told apart by the id of the listening: the new one listens, and
/// all others, to this webview and to others, listen as before. Nothing else changes.
pub proof fn listening_keeps_the_others(
    id: WindowId,
    webview_id: WebviewId,
    event: u32,
    handler: HandlerId,
)
    ensures
        forall|windows: &mut Windows, done: WebviewEffect| #[trigger]
            call_ensures(
                handle_webview_message,
                (windows, id, webview_id, WebviewMessage::AddEventListener(event, handler)),
                done,
            ) && windows@.contains_key(id) ==> {
                let before = windows@[id];
                let after = final(windows)@[id];
                let heard = after.webview_event_listeners[webview_id];
                &&& after.webview_event_listeners.contains_key(webview_id)
                &&& heard.contains_key(event) && heard[event] == handler
                &&& forall|other: u32| #![trigger heard.contains_key(other)]
                    other != event ==> (heard.contains_key(other) <==> {
                        &&& before.webview_event_listeners.contains_key(webview_id)
                        &&& before.webview_event_listeners[webview_id].contains_key(other)
                    }) && (heard.contains_key(other) ==> heard[other]
                        == before.webview_event_listeners[webview_id][other])
                &&& forall|other: WebviewId| #![trigger after.webview_event_listeners[other]]
                    other != webview_id ==> after.webview_event_listeners[other]
                        == before.webview_event_listeners[other]
                &&& after.webviews == before.webviews
                &&& after.window_event_listeners == before.window_event_listeners
            },
{
}

/// A webview without an overlay keeps what it knows of its window, and nothing changes for one that
/// is not there.
pub proof fn without_overlay_following_goes_on(id: WindowId, webview: Webview, missing: WebviewId)
    ensures
        webview.overlay is None ==> forall|windows: &mut Windows, done: WebviewEffect| #[trigger]
            call_ensures(
                handle_webview_message,
                (windows, id, webview.webview_id, WebviewMessage::SetAutoResize(false)),
                done,
            ) && holds_webview(windows@, id, webview.webview_id, webview) ==> final(windows)@
                == windows@,
        forall|windows: &mut Windows, done: WebviewEffect| #[trigger]
            call_ensures(
                handle_webview_message,
                (windows, id, missing, WebviewMessage::SetAutoResize(false)),
                done,
            ) && lacks_webview(windows@, id, missing) ==> final(windows)@ == windows@,
        forall|windows: &mut Windows, done: WebviewEffect| #[trigger]
            call_ensures(
                handle_webview_message,
                (windows, id, missing, WebviewMessage::Close),
                done,
            ) && lacks_webview(windows@, id, missing) ==> final(windows)@ == windows@,
{
    messages_go_to_the_first();
    assert forall|windows: &mut Windows, done: WebviewEffect| #[trigger]
        call_ensures(
            handle_webview_message,
            (windows, id, webview.webview_id, WebviewMessage::SetAutoResize(false)),
            done,
        ) && holds_webview(windows@, id, webview.webview_id, webview) && webview.overlay
            is None implies final(windows)@ == windows@ by {
        assert(webview_of(windows@, id, webview.webview_id) == Some(webview));
        assert(final(windows)@ =~= windows@);
    }
    assert forall|windows: &mut Windows, done: WebviewEffect| #[trigger]
        call_ensures(
            handle_webview_message,
            (windows, id, missing, WebviewMessage::SetAutoResize(false)),
            done,
        ) && lacks_webview(windows@, id, missing) implies final(windows)@ == windows@ by {
        assert(webview_of(windows@, id, missing) is None);
        assert(final(windows)@ =~= windows@);
    }
    assert forall|windows: &mut Windows, done: WebviewEffect| #[trigger]
        call_ensures(
            handle_webview_message,
            (windows, id, missing, WebviewMessage::Close),
            done,
        ) && lacks_webview(windows@, id, missing) implies final(windows)@ == windows@ by {
        assert(webview_of(windows@, id, missing) is None);
        assert(final(windows)@ =~= windows@);
    }
}

/// A webview that no longer follows its window keeps all but its shares of the window, and no
/// other webview changes.
pub proof fn no_longer_following_clears_the_shares(id: WindowId, webview: Webview, index: int)
    requires
        webview.overlay is Some,
    ensures
        forall|windows: &mut Windows, done: WebviewEffect| #[trigger]
            call_ensures(
                handle_webview_message,
                (windows, id, webview.webview_id, WebviewMessage::SetAutoResize(false)),
                done,
            ) && windows@.contains_key(id) && 0 <= index < windows@[id].webviews.len()
                && windows@[id].webviews[index] == webview && (forall|before: int|
                0 <= before < index ==> (#[trigger] windows@[id].webviews[before]).webview_id
                    != webview.webview_id) ==> {
                let after = final(windows)@[id].webviews;
                &&& after.len() == windows@[id].webviews.len()
                &&& after[index] == Webview { bounds: None, ..webview }
                &&& forall|other: int| #![trigger after[other]]
                    0 <= other < after.len() && other != index ==> after[other]
                        == windows@[id].webviews[other]
            },
{
    assert forall|windows: &mut Windows, done: WebviewEffect| #[trigger]
        call_ensures(
            handle_webview_message,
            (windows, id, webview.webview_id, WebviewMessage::SetAutoResize(false)),
            done,
        ) && windows@.contains_key(id) && 0 <= index < windows@[id].webviews.len()
            && windows@[id].webviews[index] == webview && (forall|before: int|
            0 <= before < index ==> (#[trigger] windows@[id].webviews[before]).webview_id
                != webview.webview_id) implies {
        let after = final(windows)@[id].webviews;
        &&& after.len() == windows@[id].webviews.len()
        &&& after[index] == Webview { bounds: None, ..webview }
        &&& forall|other: int| #![trigger after[other]]
            0 <= other < after.len() && other != index ==> after[other]
                == windows@[id].webviews[other]
    } by {
        first_is_unique(windows@[id].webviews, webview.webview_id, index);
    }
}

} // verus!
