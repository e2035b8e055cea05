//! The messages that a webview handles.
//!
//! Handling a message changes what is known of the webview, and tells what its browser or its
//! overlay is asked or told to do.
use vstd::prelude::*;

use crate::color::Color;
use crate::error::Error;
use crate::geometry::{CefPoint, Float64, PhysicalPosition, PhysicalSize, Position, Rect, Size};
use crate::webview::{
    distinct_ids, find_webview, first_is_unique, is_first, single_chrome, webview_index,
    webview_index_finds, BrowserId, HandlerId, NativeWindowId, OverlayId, Webview, WebviewBounds,
    WebviewId, WindowId,
};
use crate::window::{WindowView, Windows};
use crate::window_message::native_window;

verus! {

/// A cookie; what is `None` was not said of it.
#[derive(Debug, PartialEq, Eq)]
pub struct Cookie {
    pub name: String,
    pub value: String,
    pub domain: Option<String>,
    pub path: Option<String>,
    pub secure: Option<bool>,
    pub http_only: Option<bool>,
}

/// A cookie as the browser engine takes it; what is `None` is left empty.
#[derive(Debug, PartialEq, Eq)]
pub struct CefCookie {
    pub name: String,
    pub value: String,
    pub domain: Option<String>,
    pub path: Option<String>,
    pub secure: i32,
    pub httponly: i32,
}

/// A message to a webview.
#[derive(Debug)]
pub enum WebviewMessage {
    AddEventListener(u32, HandlerId),
    EvaluateScript(String),
    CookiesForUrl(String),
    Cookies,
    SetCookie(Cookie),
    DeleteCookie(Cookie),
    Navigate(String),
    Reload,
    Print,
    Close,
    Show,
    Hide,
    SetPosition(Position),
    SetSize(Size),
    SetBounds(Rect),
    SetFocus,
    Reparent(WindowId),
    SetAutoResize(bool),
    SetZoom(Float64),
    SetBackgroundColor(Option<Color>),
    ClearAllBrowsingData,
    Url,
    Bounds,
    Position,
    Size,
    WithWebview(HandlerId),
    OpenDevTools,
    CloseDevTools,
    IsDevToolsOpen,
}

/// What a browser is told.
#[derive(Debug)]
pub enum BrowserCommand {
    /// Run a script in the main frame, as if it stood at a line of a file.
    ExecuteJavaScript { code: String, script_url: &'static str, start_line: i32 },
    /// Load a page in the main frame.
    LoadUrl(String),
    Reload,
    Print,
    SetFocus(i32),
    SetZoomLevel(Float64),
    /// Show the developer tools, on what stands at a point of the page.
    ShowDevTools { inspect_at: CefPoint },
    CloseDevTools,
    /// Hand the browser to a function of the application.
    HandOver(HandlerId),
}

/// A place for a webview, in the units of the application.
#[derive(Debug, Clone, Copy, PartialEq, Eq, Structural)]
pub enum Place {
    Position(Position),
    Size(Size),
    Bounds(Rect),
}

/// What of a webview's place is asked for.
#[derive(Debug, Clone, Copy, PartialEq, Eq, Structural)]
pub enum Extent {
    Bounds,
    Position,
    Size,
}

/// What tells the place of a webview.
#[derive(Debug, Clone, Copy, PartialEq, Eq, Structural)]
pub enum FrameSource {
    /// The bounds of its overlay.
    Overlay(OverlayId),
    /// The outer position and the surface size of its window.
    Window(NativeWindowId),
}

/// What whoever sent a message is told.
#[derive(Debug)]
pub enum WebviewReply {
    Url(Result<String, Error>),
    Bounds(Result<Rect, Error>),
    Position(Result<PhysicalPosition, Error>),
    Size(Result<PhysicalSize, Error>),
    Cookies(Result<Vec<Cookie>, Error>),
    DevToolsOpen(bool),
}

/// What is to be done about a message.
///
/// A scale factor is the one of the window `scale`, or one where that is `None`.
#[derive(Debug)]
pub enum WebviewEffect {
    Nothing,
    Browser(BrowserId, BrowserCommand),
    /// Ask the main frame for its address, and reply with what `answer_url` makes of it.
    QueryUrl(BrowserId),
    DestroyOverlay(OverlayId),
    SetOverlayVisible(OverlayId, i32),
    /// Bring the place into logical pixels and hand it to `place_webview`.
    PlaceOverlay { overlay: OverlayId, scale: Option<NativeWindowId>, place: Place },
    /// Hand the size of the window and the bounds of the overlay to `follow_window`.
    FollowWindow { overlay: OverlayId, native: NativeWindowId },
    /// Bring the frame into physical pixels, and reply with what `answer_extent` makes of it.
    Measure { source: FrameSource, scale: Option<NativeWindowId>, extent: Extent },
    /// Visit the cookies for an address, or reply as `cookies_without_manager` says.
    VisitUrlCookies { url: String, include_http_only: i32 },
    /// Visit all cookies, or reply as `cookies_without_manager` says.
    VisitAllCookies,
    /// Set a cookie for the address of a browser's main frame, as `cookie_scope` says.
    SetCookie { browser: Option<BrowserId>, cookie: CefCookie },
    /// Delete the cookies with a name for the address of a browser's main frame, as
    /// `cookie_scope` says.
    DeleteCookies { browser: Option<BrowserId>, name: String },
    Reply(WebviewReply),
}

/// The webview that a message goes to: the first of the window with the id.
pub open spec fn webview_of(
    windows: Map<WindowId, WindowView>,
    id: WindowId,
    webview_id: WebviewId,
) -> Option<Webview> {
    if windows.contains_key(id) {
        match webview_index(windows[id].webviews, webview_id) {
            Some(index) => Some(windows[id].webviews[index]),
            None => None,
        }
    } else {
        None
    }
}

/// The browser that a message goes to.
pub open spec fn browser_of(
    windows: Map<WindowId, WindowView>,
    id: WindowId,
    webview_id: WebviewId,
) -> Option<BrowserId> {
    match webview_of(windows, id, webview_id) {
        Some(webview) => webview.browser,
        None => None,
    }
}

/// The overlay that a message goes to.
pub open spec fn overlay_of(
    windows: Map<WindowId, WindowView>,
    id: WindowId,
    webview_id: WebviewId,
) -> Option<OverlayId> {
    match webview_of(windows, id, webview_id) {
        Some(webview) => webview.overlay,
        None => None,
    }
}

/// The webview that a message goes to.
pub fn get_webview(windows: &Windows, id: WindowId, webview_id: WebviewId) -> (found: Option<
    &Webview,
>)
    ensures
        match found {
            Some(webview) => webview_of(windows@, id, webview_id) == Some(*webview),
            None => webview_of(windows@, id, webview_id) is None,
        },
{
    match windows.get(id) {
        Some(window) => match find_webview(&window.webviews, webview_id) {
            Some(index) => Some(&window.webviews[index]),
            None => None,
        },
        None => None,
    }
}

/// The browser that a message goes to.
pub fn get_browser(windows: &Windows, id: WindowId, webview_id: WebviewId) -> (browser: Option<
    BrowserId,
>)
    ensures
        browser == browser_of(windows@, id, webview_id),
{
    match get_webview(windows, id, webview_id) {
        Some(webview) => webview.browser,
        None => None,
    }
}

fn get_overlay(windows: &Windows, id: WindowId, webview_id: WebviewId) -> (overlay: Option<
    OverlayId,
>)
    ensures
        overlay == overlay_of(windows@, id, webview_id),
{
    match get_webview(windows, id, webview_id) {
        Some(webview) => webview.overlay,
        None => None,
    }
}

fn get_native(windows: &Windows, id: WindowId) -> (native: Option<NativeWindowId>)
    ensures
        native == native_window(windows@, id),
{
    match windows.get(id) {
        Some(window) => window.window(),
        None => None,
    }
}

/// The cookie as the browser engine takes it: it is secure, or hidden from scripts, only where
/// that was said.
pub open spec fn cef_cookie_of(cookie: Cookie) -> CefCookie {
    CefCookie {
        name: cookie.name,
        value: cookie.value,
        domain: cookie.domain,
        path: cookie.path,
        secure: if cookie.secure == Some(true) {
            1
        } else {
            0
        },
        httponly: if cookie.http_only == Some(true) {
            1
        } else {
            0
        },
    }
}

/// The cookie as the browser engine takes it.
pub fn to_cef_cookie(cookie: Cookie) -> (cef_cookie: CefCookie)
    ensures
        cef_cookie == cef_cookie_of(cookie),
{
    CefCookie {
        name: cookie.name,
        value: cookie.value,
        domain: cookie.domain,
        path: cookie.path,
        secure: if cookie.secure.unwrap_or(false) {
            1
        } else {
            0
        },
        httponly: if cookie.http_only.unwrap_or(false) {
            1
        } else {
            0
        },
    }
}

/// The address that a change of cookies is limited to: that of the main frame, where it has
/// one that is not empty.
pub fn cookie_scope(url: Option<String>) -> (scope: Option<String>)
    ensures
        scope == (match url {
            Some(url) => if url@.len() == 0 {
                None
            } else {
                Some(url)
            },
            None => None,
        }),
{
    match url {
        Some(url) => if url.as_str().unicode_len() == 0 {
            None
        } else {
            Some(url)
        },
        None => None,
    }
}

/// The reply to a question for cookies where the browser engine keeps none.
pub fn cookies_without_manager() -> (reply: WebviewReply)
    ensures
        reply matches WebviewReply::Cookies(Ok(cookies)) && cookies@.len() == 0,
{
    WebviewReply::Cookies(Ok(Vec::new()))
}

/// Where a webview's place is read from: its overlay, or else its window.
pub open spec fn frame_source(webview: Webview, native: Option<NativeWindowId>) -> Option<
    FrameSource,
> {
    match (webview.overlay, native) {
        (Some(overlay), _) => Some(FrameSource::Overlay(overlay)),
        (None, Some(native)) => Some(FrameSource::Window(native)),
        (None, None) => None,
    }
}

/// What of a webview's place the message asks for.
pub open spec fn extent_asked(message: WebviewMessage) -> Option<Extent> {
    match message {
        WebviewMessage::Bounds => Some(Extent::Bounds),
        WebviewMessage::Position => Some(Extent::Position),
        WebviewMessage::Size => Some(Extent::Size),
        _ => None,
    }
}

/// The reply where there is no webview to ask for its place.
pub open spec fn extent_refusal(extent: Extent) -> WebviewReply {
    match extent {
        Extent::Bounds => WebviewReply::Bounds(Err(Error::FailedToSendMessage)),
        Extent::Position => WebviewReply::Position(Err(Error::FailedToSendMessage)),
        Extent::Size => WebviewReply::Size(Err(Error::FailedToSendMessage)),
    }
}

/// Whether the message can be handled: the place of a webview can be asked for only where it
/// has an overlay or its window is one of the system's.
pub open spec fn can_handle_webview(
    windows: Map<WindowId, WindowView>,
    id: WindowId,
    webview_id: WebviewId,
    message: WebviewMessage,
) -> bool {
    extent_asked(message) is Some ==> webview_of(windows, id, webview_id) is Some ==> frame_source(
        webview_of(windows, id, webview_id)->0,
        native_window(windows, id),
    ) is Some
}

impl WebviewMessage {
    /// What the browser is told for a message that it carries out. It shows its developer tools
    /// only where they are enabled, and then at the origin of the page.
    pub open spec fn spec_command(self, devtools_enabled: bool) -> Option<BrowserCommand> {
        match self {
            WebviewMessage::EvaluateScript(script) => Some(
                BrowserCommand::ExecuteJavaScript { code: script, script_url: "", start_line: 0 },
            ),
            WebviewMessage::Navigate(url) => Some(BrowserCommand::LoadUrl(url)),
            WebviewMessage::Reload => Some(BrowserCommand::Reload),
            WebviewMessage::Print => Some(BrowserCommand::Print),
            WebviewMessage::SetFocus => Some(BrowserCommand::SetFocus(1)),
            WebviewMessage::SetZoom(scale) => Some(BrowserCommand::SetZoomLevel(scale)),
            WebviewMessage::WithWebview(handler) => Some(BrowserCommand::HandOver(handler)),
            WebviewMessage::OpenDevTools => if devtools_enabled {
                Some(BrowserCommand::ShowDevTools { inspect_at: CefPoint { x: 0, y: 0 } })
            } else {
                None
            },
            WebviewMessage::CloseDevTools => Some(BrowserCommand::CloseDevTools),
            _ => None,
        }
    }

    /// What the browser is told for the message.
    pub fn into_command(self, devtools_enabled: bool) -> (command: Option<BrowserCommand>)
        ensures
            command == self.spec_command(devtools_enabled),
    {
        match self {
            WebviewMessage::EvaluateScript(script) => Some(
                BrowserCommand::ExecuteJavaScript { code: script, script_url: "", start_line: 0 },
            ),
            WebviewMessage::Navigate(url) => Some(BrowserCommand::LoadUrl(url)),
            WebviewMessage::Reload => Some(BrowserCommand::Reload),
            WebviewMessage::Print => Some(BrowserCommand::Print),
            WebviewMessage::SetFocus => Some(BrowserCommand::SetFocus(1)),
            WebviewMessage::SetZoom(scale) => Some(BrowserCommand::SetZoomLevel(scale)),
            WebviewMessage::WithWebview(handler) => Some(BrowserCommand::HandOver(handler)),
            WebviewMessage::OpenDevTools => if devtools_enabled {
                Some(BrowserCommand::ShowDevTools { inspect_at: CefPoint { x: 0, y: 0 } })
            } else {
                None
            },
            WebviewMessage::CloseDevTools => Some(BrowserCommand::CloseDevTools),
            _ => None,
        }
    }
}

/// What is to be done about a message to a webview.
pub open spec fn webview_effect(
    windows: Map<WindowId, WindowView>,
    id: WindowId,
    webview_id: WebviewId,
    message: WebviewMessage,
) -> WebviewEffect {
    let webview = webview_of(windows, id, webview_id);
    let browser = browser_of(windows, id, webview_id);
    let overlay = overlay_of(windows, id, webview_id);
    let native = native_window(windows, id);
    match (message, overlay) {
        (WebviewMessage::Close, Some(overlay)) => WebviewEffect::DestroyOverlay(overlay),
        (WebviewMessage::Show, Some(overlay)) => WebviewEffect::SetOverlayVisible(overlay, 1),
        (WebviewMessage::Hide, Some(overlay)) => WebviewEffect::SetOverlayVisible(overlay, 0),
        (WebviewMessage::SetPosition(position), Some(overlay)) => WebviewEffect::PlaceOverlay {
            overlay,
            scale: native,
            place: Place::Position(position),
        },
        (WebviewMessage::SetSize(size), Some(overlay)) => WebviewEffect::PlaceOverlay {
            overlay,
            scale: native,
            place: Place::Size(size),
        },
        (WebviewMessage::SetBounds(bounds), Some(overlay)) => WebviewEffect::PlaceOverlay {
            overlay,
            scale: native,
            place: Place::Bounds(bounds),
        },
        (WebviewMessage::SetAutoResize(true), Some(overlay)) => match native {
            Some(native) => WebviewEffect::FollowWindow { overlay, native },
            None => WebviewEffect::Nothing,
        },
        (WebviewMessage::Url, _) => match browser {
            Some(browser) => WebviewEffect::QueryUrl(browser),
            None => WebviewEffect::Reply(WebviewReply::Url(Err(Error::FailedToSendMessage))),
        },
        (WebviewMessage::IsDevToolsOpen, _) => WebviewEffect::Reply(
            WebviewReply::DevToolsOpen(false),
        ),
        (WebviewMessage::CookiesForUrl(url), _) => WebviewEffect::VisitUrlCookies {
            url,
            include_http_only: 1,
        },
        (WebviewMessage::Cookies, _) => WebviewEffect::VisitAllCookies,
        (WebviewMessage::SetCookie(cookie), _) => WebviewEffect::SetCookie {
            browser,
            cookie: cef_cookie_of(cookie),
        },
        (WebviewMessage::DeleteCookie(cookie), _) => WebviewEffect::DeleteCookies {
            browser,
            name: cookie.name,
        },
        _ => match (extent_asked(message), webview, browser) {
            (Some(extent), Some(webview), _) => WebviewEffect::Measure {
                source: frame_source(webview, native)->0,
                scale: native,
                extent,
            },
            (Some(extent), None, _) => WebviewEffect::Reply(extent_refusal(extent)),
            (None, Some(webview), Some(browser)) => match message.spec_command(
                webview.devtools_enabled,
            ) {
                Some(command) => WebviewEffect::Browser(browser, command),
                None => WebviewEffect::Nothing,
            },
            _ => WebviewEffect::Nothing,
        },
    }
}

/// The webviews after the bounds of one were set.
pub open spec fn with_bounds(
    webviews: Seq<Webview>,
    index: int,
    bounds: Option<WebviewBounds>,
) -> Seq<Webview> {
    webviews.update(index, Webview { bounds, ..webviews[index] })
}

/// The window after a message to one of its webviews.
pub open spec fn window_after_webview(
    window: WindowView,
    webview_id: WebviewId,
    message: WebviewMessage,
) -> WindowView {
    match (message, webview_index(window.webviews, webview_id)) {
        (WebviewMessage::AddEventListener(event_id, handler), _) => WindowView {
            webview_event_listeners: window.webview_event_listeners.insert(
                webview_id,
                (if window.webview_event_listeners.contains_key(webview_id) {
                    window.webview_event_listeners[webview_id]
                } else {
                    Map::empty()
                }).insert(event_id, handler),
            ),
            ..window
        },
        (WebviewMessage::Close, Some(index)) => WindowView {
            webviews: window.webviews.remove(index),
            webview_event_listeners: window.webview_event_listeners.remove(webview_id),
            ..window
        },
        (WebviewMessage::SetAutoResize(false), Some(index)) => if window.webviews[index].overlay
            is Some {
            WindowView { webviews: with_bounds(window.webviews, index, None), ..window }
        } else {
            window
        },
        _ => window,
    }
}

/// The windows after a message to a webview.
pub open spec fn windows_after_webview(
    windows: Map<WindowId, WindowView>,
    id: WindowId,
    webview_id: WebviewId,
    message: WebviewMessage,
) -> Map<WindowId, WindowView> {
    if windows.contains_key(id) {
        windows.insert(id, window_after_webview(windows[id], webview_id, message))
    } else {
        windows
    }
}

/// Takes a webview out of its window, with those who listen to it, and tells its overlay.
fn close_webview(windows: &mut Windows, id: WindowId, webview_id: WebviewId) -> (overlay: Option<
    OverlayId,
>)
    ensures
        overlay == overlay_of(old(windows)@, id, webview_id),
        final(windows)@ == windows_after_webview(
            old(windows)@,
            id,
            webview_id,
            WebviewMessage::Close,
        ),
{
    let ghost before = windows@;
    let mut overlay = None;
    if let Some(window) = windows.remove(id) {
        let mut window = window;
        let ghost found = window@;
        if let Some(index) = find_webview(&window.webviews, webview_id) {
            let webview = window.webviews.remove(index);
            window.remove_webview_listeners(webview_id);
            overlay = webview.overlay;
        }
        assert(window@ =~= window_after_webview(found, webview_id, WebviewMessage::Close));
        windows.insert(id, window);
    }
    assert(windows@ =~= windows_after_webview(before, id, webview_id, WebviewMessage::Close));
    overlay
}

/// Lets a webview with an overlay no longer follow its window.
fn stop_following(windows: &mut Windows, id: WindowId, webview_id: WebviewId)
    ensures
        final(windows)@ == windows_after_webview(
            old(windows)@,
            id,
            webview_id,
            WebviewMessage::SetAutoResize(false),
        ),
{
    let ghost before = windows@;
    let ghost message = WebviewMessage::SetAutoResize(false);
    if let Some(window) = windows.remove(id) {
        let mut window = window;
        let ghost found = window@;
        if let Some(index) = find_webview(&window.webviews, webview_id) {
            if window.webviews[index].overlay.is_some() {
                window.set_bounds(index, None);
            }
        }
        assert(window@ =~= window_after_webview(found, webview_id, message));
        windows.insert(id, window);
    }
    assert(windows@ =~= windows_after_webview(before, id, webview_id, message));
}

/// Handles a message to the webview `webview_id` of the window `id`.
///
/// Only the entry of the window can change. A message that a browser or an overlay must answer
/// or carry out reaches the one of the first webview with the id, exactly if it has one.
pub fn handle_webview_message(
    windows: &mut Windows,
    id: WindowId,
    webview_id: WebviewId,
    message: WebviewMessage,
) -> (effect: WebviewEffect)
    requires
        can_handle_webview(old(windows)@, id, webview_id, message),
    ensures
        effect == webview_effect(old(windows)@, id, webview_id, message),
        final(windows)@ == windows_after_webview(old(windows)@, id, webview_id, message),
{
    let ghost before = windows@;
    let native = get_native(windows, id);
    let browser = get_browser(windows, id, webview_id);
    let overlay = get_overlay(windows, id, webview_id);
    let found = get_webview(windows, id, webview_id).is_some();
    let devtools_enabled = match get_webview(windows, id, webview_id) {
        Some(webview) => webview.devtools_enabled,
        None => false,
    };
    assert(windows_after_webview(before, id, webview_id, WebviewMessage::Reload) =~= before);
    match message {
        WebviewMessage::AddEventListener(event_id, handler) => {
            if let Some(window) = windows.remove(id) {
                let mut window = window;
                window.add_webview_listener(webview_id, event_id, handler);
                windows.insert(id, window);
            }
            assert(windows@ =~= windows_after_webview(before, id, webview_id, message));
            WebviewEffect::Nothing
        },
        WebviewMessage::Close => match close_webview(windows, id, webview_id) {
            Some(overlay) => WebviewEffect::DestroyOverlay(overlay),
            None => WebviewEffect::Nothing,
        },
        WebviewMessage::Show => match overlay {
            Some(overlay) => WebviewEffect::SetOverlayVisible(overlay, 1),
            None => WebviewEffect::Nothing,
        },
        WebviewMessage::Hide => match overlay {
            Some(overlay) => WebviewEffect::SetOverlayVisible(overlay, 0),
            None => WebviewEffect::Nothing,
        },
        WebviewMessage::SetPosition(position) => match overlay {
            Some(overlay) => WebviewEffect::PlaceOverlay {
                overlay,
                scale: native,
                place: Place::Position(position),
            },
            None => WebviewEffect::Nothing,
        },
        WebviewMessage::SetSize(size) => match overlay {
            Some(overlay) => WebviewEffect::PlaceOverlay {
                overlay,
                scale: native,
                place: Place::Size(size),
            },
            None => WebviewEffect::Nothing,
        },
        WebviewMessage::SetBounds(bounds) => match overlay {
            Some(overlay) => WebviewEffect::PlaceOverlay {
                overlay,
                scale: native,
                place: Place::Bounds(bounds),
            },
            None => WebviewEffect::Nothing,
        },
        WebviewMessage::SetAutoResize(auto_resize) => {
            if !auto_resize {
                stop_following(windows, id, webview_id);
                return WebviewEffect::Nothing;
            }
            match (overlay, native) {
                (Some(overlay), Some(native)) => WebviewEffect::FollowWindow { overlay, native },
                _ => WebviewEffect::Nothing,
            }
        },
        WebviewMessage::Url => match browser {
            Some(browser) => WebviewEffect::QueryUrl(browser),
            None => WebviewEffect::Reply(WebviewReply::Url(Err(Error::FailedToSendMessage))),
        },
        WebviewMessage::Bounds => measure(found, overlay, native, Extent::Bounds),
        WebviewMessage::Position => measure(found, overlay, native, Extent::Position),
        WebviewMessage::Size => measure(found, overlay, native, Extent::Size),
        WebviewMessage::IsDevToolsOpen => WebviewEffect::Reply(WebviewReply::DevToolsOpen(false)),
        WebviewMessage::CookiesForUrl(url) => WebviewEffect::VisitUrlCookies {
            url,
            include_http_only: 1,
        },
        WebviewMessage::Cookies => WebviewEffect::VisitAllCookies,
        WebviewMessage::SetCookie(cookie) => WebviewEffect::SetCookie {
            browser,
            cookie: to_cef_cookie(cookie),
        },
        WebviewMessage::DeleteCookie(cookie) => WebviewEffect::DeleteCookies {
            browser,
            name: cookie.name,
        },
        message => match (browser, message.into_command(devtools_enabled)) {
            (Some(browser), Some(command)) => WebviewEffect::Browser(browser, command),
            _ => WebviewEffect::Nothing,
        },
    }
}

/// Asks for the place of a webview, or refuses where there is none.
fn measure(
    found: bool,
    overlay: Option<OverlayId>,
    native: Option<NativeWindowId>,
    extent: Extent,
) -> (effect: WebviewEffect)
    requires
        found ==> overlay is Some || native is Some,
    ensures
        effect == (if found {
            WebviewEffect::Measure {
                source: match overlay {
                    Some(overlay) => FrameSource::Overlay(overlay),
                    None => FrameSource::Window(native->0),
                },
                scale: native,
                extent,
            }
        } else {
            WebviewEffect::Reply(extent_refusal(extent))
        }),
{
    if !found {
        return WebviewEffect::Reply(
            match extent {
                Extent::Bounds => WebviewReply::Bounds(Err(Error::FailedToSendMessage)),
                Extent::Position => WebviewReply::Position(Err(Error::FailedToSendMessage)),
                Extent::Size => WebviewReply::Size(Err(Error::FailedToSendMessage)),
            },
        );
    }
    let source = match overlay {
        Some(overlay) => FrameSource::Overlay(overlay),
        None => FrameSource::Window(native.unwrap()),
    };
    WebviewEffect::Measure { source, scale: native, extent }
}

/// The reply to a question for the address: that of the main frame, where there is one.
pub fn answer_url(url: Option<String>) -> (reply: WebviewReply)
    ensures
        reply == WebviewReply::Url(
            match url {
                Some(url) => Ok(url),
                None => Err(Error::FailedToSendMessage),
            },
        ),
{
    WebviewReply::Url(url.ok_or(Error::FailedToSendMessage))
}

/// The reply to a question for a webview's place, in physical pixels.
pub fn answer_extent(extent: Extent, position: PhysicalPosition, size: PhysicalSize) -> (reply:
    WebviewReply)
    ensures
        reply == (match extent {
            Extent::Bounds => WebviewReply::Bounds(
                Ok(Rect { position: Position::Physical(position), size: Size::Physical(size) }),
            ),
            Extent::Position => WebviewReply::Position(Ok(position)),
            Extent::Size => WebviewReply::Size(Ok(size)),
        }),
{
    match extent {
        Extent::Bounds => WebviewReply::Bounds(
            Ok(Rect { position: Position::Physical(position), size: Size::Physical(size) }),
        ),
        Extent::Position => WebviewReply::Position(Ok(position)),
        Extent::Size => WebviewReply::Size(Ok(size)),
    }
}

/// A message to a webview opens and closes no window, leaves every window but its own as it
/// was, and of its own window the label, what stands behind it, and its listeners.
pub proof fn webview_message_stays_in_its_window(
    windows: Map<WindowId, WindowView>,
    id: WindowId,
    webview_id: WebviewId,
    message: WebviewMessage,
    other: WindowId,
)
    requires
        other != id,
    ensures
        ({
            let after = windows_after_webview(windows, id, webview_id, message);
            &&& after.dom() == windows.dom()
            &&& after[other] == windows[other]
            &&& after[id].label == windows[id].label
            &&& after[id].window == windows[id].window
            &&& after[id].force_close == windows[id].force_close
            &&& after[id].attributes == windows[id].attributes
            &&& after[id].window_event_listeners == windows[id].window_event_listeners
        }),
{
    assert(windows_after_webview(windows, id, webview_id, message).dom() =~= windows.dom());
}

/// A message to a webview leaves every other webview of its window as it was.
pub proof fn other_webviews_are_kept(
    windows: Map<WindowId, WindowView>,
    id: WindowId,
    webview_id: WebviewId,
    message: WebviewMessage,
    other: WebviewId,
)
    requires
        other != webview_id,
    ensures
        webview_of(windows_after_webview(windows, id, webview_id, message), id, other)
            == webview_of(windows, id, other),
{
    if windows.contains_key(id) {
        let before = windows[id].webviews;
        let after = window_after_webview(windows[id], webview_id, message).webviews;
        webview_index_finds(before, webview_id);
        webview_index_finds(before, other);
        webview_index_finds(after, other);
        match (message, webview_index(before, webview_id)) {
            (WebviewMessage::Close, Some(gone)) => {
                assert(after == before.remove(gone));
                match webview_index(before, other) {
                    Some(index) => {
                        let moved = if index < gone {
                            index
                        } else {
                            index - 1
                        };
                        assert(after[moved] == before[index]);
                        assert forall|earlier: int| 0 <= earlier < moved implies
                            after[earlier].webview_id != other by {
                            if earlier < gone {
                                assert(after[earlier] == before[earlier]);
                            } else {
                                assert(after[earlier] == before[earlier + 1]);
                            }
                        }
                        assert(is_first(after, other, moved));
                        first_is_unique(after, other, moved);
                    },
                    None => {
                        if let Some(index) = webview_index(after, other) {
                            if index < gone {
                                assert(after[index] == before[index]);
                            } else {
                                assert(after[index] == before[index + 1]);
                            }
                        }
                    },
                }
            },
            (WebviewMessage::SetAutoResize(false), Some(changed)) => {
                assert forall|index: int| 0 <= index < before.len() implies
                    after[index].webview_id == before[index].webview_id by {}
                match webview_index(before, other) {
                    Some(index) => {
                        assert(is_first(after, other, index));
                        first_is_unique(after, other, index);
                        assert(after[index] == before[index]);
                    },
                    None => {},
                }
            },
            _ => {},
        }
    }
}

/// No message gives two webviews of a window the same id.
pub proof fn distinct_ids_are_kept(
    window: WindowView,
    webview_id: WebviewId,
    message: WebviewMessage,
)
    requires
        distinct_ids(window.webviews),
    ensures
        distinct_ids(window_after_webview(window, webview_id, message).webviews),
{
    webview_index_finds(window.webviews, webview_id);
}

/// No message gives a second webview of a window the Chrome runtime.
pub proof fn single_chrome_is_kept(
    window: WindowView,
    webview_id: WebviewId,
    message: WebviewMessage,
)
    requires
        single_chrome(window.webviews),
    ensures
        single_chrome(window_after_webview(window, webview_id, message).webviews),
{
    webview_index_finds(window.webviews, webview_id);
    let before = window.webviews;
    let after = window_after_webview(window, webview_id, message).webviews;
    if message is Close && webview_index(before, webview_id) is Some {
        let gone = webview_index(before, webview_id)->0;
        assert forall|index: int| 0 <= index < after.len() implies (#[trigger] after[index])
            == before[if index < gone { index } else { index + 1 }] by {}
    } else {
        assert forall|index: int| 0 <= index < after.len() implies (
        #[trigger] after[index]).runtime_style == before[index].runtime_style by {}
    }
}

/// A webview that was closed is gone, and those who listened to it: no later message reaches
/// its browser or its overlay.
pub proof fn closed_webview_is_gone(
    windows: Map<WindowId, WindowView>,
    id: WindowId,
    webview_id: WebviewId,
)
    requires
        windows.contains_key(id),
        distinct_ids(windows[id].webviews),
        webview_of(windows, id, webview_id) is Some,
    ensures
        ({
            let after = windows_after_webview(windows, id, webview_id, WebviewMessage::Close);
            &&& webview_of(after, id, webview_id) is None
            &&& after[id].webviews.len() == windows[id].webviews.len() - 1
            &&& !after[id].webview_event_listeners.contains_key(webview_id)
        }),
{
    let after = windows_after_webview(windows, id, webview_id, WebviewMessage::Close);
    let before = windows[id].webviews;
    webview_index_finds(before, webview_id);
    webview_index_finds(after[id].webviews, webview_id);
    let gone = webview_index(before, webview_id)->0;
    if let Some(index) = webview_index(after[id].webviews, webview_id) {
        if index < gone {
            assert(after[id].webviews[index] == before[index]);
        } else {
            assert(after[id].webviews[index] == before[index + 1]);
        }
    }
}

/// A message to a webview that is not there reaches no browser and no overlay. One that asks
/// for its address or its place gets an error. Only who listens can change.
pub proof fn missing_webview_is_refused(
    windows: Map<WindowId, WindowView>,
    id: WindowId,
    webview_id: WebviewId,
    message: WebviewMessage,
)
    requires
        webview_of(windows, id, webview_id) is None,
    ensures
        match webview_effect(windows, id, webview_id, message) {
            WebviewEffect::Nothing => extent_asked(message) is None && !(message is Url),
            WebviewEffect::VisitUrlCookies { .. } => true,
            WebviewEffect::VisitAllCookies => true,
            WebviewEffect::SetCookie { browser, .. } => browser is None,
            WebviewEffect::DeleteCookies { browser, .. } => browser is None,
            WebviewEffect::Reply(reply) => match reply {
                WebviewReply::Url(result) => result == Err::<String, Error>(
                    Error::FailedToSendMessage,
                ),
                WebviewReply::Bounds(result) => result == Err::<Rect, Error>(
                    Error::FailedToSendMessage,
                ),
                WebviewReply::Position(result) => result == Err::<PhysicalPosition, Error>(
                    Error::FailedToSendMessage,
                ),
                WebviewReply::Size(result) => result == Err::<PhysicalSize, Error>(
                    Error::FailedToSendMessage,
                ),
                WebviewReply::Cookies(_) => false,
                WebviewReply::DevToolsOpen(open) => !open,
            },
            _ => false,
        },
        !(message is AddEventListener) ==> windows_after_webview(windows, id, webview_id, message)
            == windows,
{
    assert(!(message is AddEventListener) ==> windows_after_webview(
        windows,
        id,
        webview_id,
        message,
    ) =~= windows);
}

/// The developer tools of a webview open only where they are enabled.
pub proof fn devtools_open_only_where_enabled(
    windows: Map<WindowId, WindowView>,
    id: WindowId,
    webview_id: WebviewId,
    message: WebviewMessage,
)
    requires
        webview_effect(windows, id, webview_id, message) matches WebviewEffect::Browser(_, command)
            && command is ShowDevTools,
    ensures
        message is OpenDevTools,
        webview_of(windows, id, webview_id) matches Some(webview) && webview.devtools_enabled,
{
}

} // verus!
