use tauri_runtime_cef::error::Error;
use tauri_runtime_cef::geometry::{
    CefPoint, Float64, PhysicalPosition, PhysicalSize, Position, Rect, Size,
};
use tauri_runtime_cef::webview::{find_webview, Rate, Webview, WebviewBounds};
use tauri_runtime_cef::webview_message::{
    answer_extent, answer_url, cookie_scope, cookies_without_manager, get_browser, get_webview,
    handle_webview_message, BrowserCommand, Cookie, Extent, FrameSource, Place, WebviewEffect,
    WebviewMessage, WebviewReply,
};
use tauri_runtime_cef::window::{AppWindowKind, Window, Windows};
use tauri_runtime_cef::window_builder::CefWindowBuilder;

fn webview(webview_id: u32, browser: Option<i32>, overlay: Option<u64>) -> Webview {
    Webview {
        webview_id,
        label: format!("webview {webview_id}"),
        browser,
        browser_id: 40 + webview_id as i32,
        overlay,
        bounds: None,
        devtools_enabled: webview_id == 1,
        runtime_style: None,
        uri_scheme_protocols: Vec::new(),
        initialization_scripts: Vec::new(),
    }
}

fn windows() -> Windows {
    let mut windows = Windows::new();
    windows.insert(
        1,
        Window::new(
            "main".to_string(),
            AppWindowKind::Window(77),
            CefWindowBuilder::new(),
            vec![webview(1, Some(41), Some(901)), webview(2, Some(42), None), webview(3, None, None)],
        ),
    );
    windows.insert(
        2,
        Window::new(
            "browser".to_string(),
            AppWindowKind::BrowserWindow,
            CefWindowBuilder::new(),
            vec![webview(9, None, Some(909))],
        ),
    );
    windows
}

fn handle(id: u32, webview_id: u32, message: WebviewMessage) -> WebviewEffect {
    handle_webview_message(&mut windows(), id, webview_id, message)
}

fn cookie() -> Cookie {
    Cookie {
        name: "name".to_string(),
        value: "value".to_string(),
        domain: Some("example.com".to_string()),
        path: None,
        secure: Some(true),
        http_only: Some(false),
    }
}

#[test]
fn webviews_are_found_by_id() {
    let windows = windows();
    assert_eq!(get_browser(&windows, 1, 2), Some(42));
    assert_eq!(get_browser(&windows, 1, 3), None);
    assert_eq!(get_browser(&windows, 1, 9), None);
    assert_eq!(get_browser(&windows, 5, 1), None);
    assert_eq!(get_webview(&windows, 1, 3).map(|webview| webview.browser_id), Some(43));
    let twice = vec![webview(4, None, None), webview(5, None, None), webview(5, Some(1), None)];
    assert_eq!(find_webview(&twice, 5), Some(1));
    assert_eq!(find_webview(&twice, 6), None);
}

#[test]
fn commands_reach_the_browser() {
    match handle(1, 1, WebviewMessage::EvaluateScript("1 + 1".to_string())) {
        WebviewEffect::Browser(
            41,
            BrowserCommand::ExecuteJavaScript { code, script_url, start_line },
        ) => {
            assert_eq!(code, "1 + 1");
            assert_eq!(script_url, "");
            assert_eq!(start_line, 0);
        }
        _ => panic!("the browser runs the script"),
    }
    assert!(matches!(
        handle(1, 2, WebviewMessage::Navigate("http://a/".to_string())),
        WebviewEffect::Browser(42, BrowserCommand::LoadUrl(url)) if url == "http://a/"
    ));
    assert!(matches!(
        handle(1, 2, WebviewMessage::Reload),
        WebviewEffect::Browser(42, BrowserCommand::Reload)
    ));
    assert!(matches!(
        handle(1, 2, WebviewMessage::Print),
        WebviewEffect::Browser(42, BrowserCommand::Print)
    ));
    assert!(matches!(
        handle(1, 2, WebviewMessage::SetFocus),
        WebviewEffect::Browser(42, BrowserCommand::SetFocus(1))
    ));
    assert!(matches!(
        handle(1, 2, WebviewMessage::SetZoom(Float64 { bits: 5 })),
        WebviewEffect::Browser(42, BrowserCommand::SetZoomLevel(Float64 { bits: 5 }))
    ));
    assert!(matches!(
        handle(1, 2, WebviewMessage::WithWebview(6)),
        WebviewEffect::Browser(42, BrowserCommand::HandOver(6))
    ));
    assert!(matches!(
        handle(1, 2, WebviewMessage::CloseDevTools),
        WebviewEffect::Browser(42, BrowserCommand::CloseDevTools)
    ));
}

#[test]
fn commands_without_a_browser_do_nothing() {
    assert!(matches!(handle(1, 3, WebviewMessage::Reload), WebviewEffect::Nothing));
    assert!(matches!(handle(1, 8, WebviewMessage::Print), WebviewEffect::Nothing));
    assert!(matches!(handle(8, 1, WebviewMessage::SetFocus), WebviewEffect::Nothing));
    assert!(matches!(handle(1, 1, WebviewMessage::ClearAllBrowsingData), WebviewEffect::Nothing));
    assert!(matches!(handle(1, 1, WebviewMessage::SetBackgroundColor(None)), WebviewEffect::Nothing));
    assert!(matches!(handle(1, 1, WebviewMessage::Reparent(2)), WebviewEffect::Nothing));
}

#[test]
fn developer_tools_open_only_where_enabled() {
    assert!(matches!(
        handle(1, 1, WebviewMessage::OpenDevTools),
        WebviewEffect::Browser(
            41,
            BrowserCommand::ShowDevTools { inspect_at: CefPoint { x: 0, y: 0 } }
        )
    ));
    assert!(matches!(handle(1, 2, WebviewMessage::OpenDevTools), WebviewEffect::Nothing));
    assert!(matches!(
        handle(1, 1, WebviewMessage::IsDevToolsOpen),
        WebviewEffect::Reply(WebviewReply::DevToolsOpen(false))
    ));
}

#[test]
fn overlays_are_shown_and_hidden() {
    assert!(matches!(
        handle(1, 1, WebviewMessage::Show),
        WebviewEffect::SetOverlayVisible(901, 1)
    ));
    assert!(matches!(
        handle(1, 1, WebviewMessage::Hide),
        WebviewEffect::SetOverlayVisible(901, 0)
    ));
    assert!(matches!(handle(1, 2, WebviewMessage::Show), WebviewEffect::Nothing));
}

#[test]
fn overlays_are_placed() {
    let position = Position::Physical(PhysicalPosition { x: 1, y: 2 });
    let size = Size::Physical(PhysicalSize { width: 3, height: 4 });
    let bounds = Rect { position, size };
    assert!(matches!(
        handle(1, 1, WebviewMessage::SetPosition(position)),
        WebviewEffect::PlaceOverlay { overlay: 901, scale: Some(77), place }
            if place == Place::Position(position)
    ));
    assert!(matches!(
        handle(1, 1, WebviewMessage::SetSize(size)),
        WebviewEffect::PlaceOverlay { overlay: 901, scale: Some(77), place }
            if place == Place::Size(size)
    ));
    assert!(matches!(
        handle(2, 9, WebviewMessage::SetBounds(bounds)),
        WebviewEffect::PlaceOverlay { overlay: 909, scale: None, place }
            if place == Place::Bounds(bounds)
    ));
    assert!(matches!(handle(1, 2, WebviewMessage::SetBounds(bounds)), WebviewEffect::Nothing));
}

#[test]
fn webviews_follow_windows_of_the_system() {
    assert!(matches!(
        handle(1, 1, WebviewMessage::SetAutoResize(true)),
        WebviewEffect::FollowWindow { overlay: 901, native: 77 }
    ));
    assert!(matches!(handle(2, 9, WebviewMessage::SetAutoResize(true)), WebviewEffect::Nothing));
    assert!(matches!(handle(1, 2, WebviewMessage::SetAutoResize(true)), WebviewEffect::Nothing));
}

#[test]
fn webviews_stop_following() {
    let rate = Rate { part: 1, whole: 2 };
    let bounds = WebviewBounds {
        x_rate: rate,
        y_rate: rate,
        width_rate: rate,
        height_rate: rate,
    };
    let mut following = webview(1, None, Some(901));
    following.bounds = Some(bounds);
    let mut other = webview(2, None, None);
    other.bounds = Some(bounds);
    let mut windows = Windows::new();
    windows.insert(
        1,
        Window::new(
            "main".to_string(),
            AppWindowKind::Window(77),
            CefWindowBuilder::new(),
            vec![following, other],
        ),
    );
    for webview_id in [1u32, 2] {
        let effect = handle_webview_message(
            &mut windows,
            1,
            webview_id,
            WebviewMessage::SetAutoResize(false),
        );
        assert!(matches!(effect, WebviewEffect::Nothing));
    }
    assert_eq!(get_webview(&windows, 1, 1).unwrap().bounds, None);
    assert_eq!(get_webview(&windows, 1, 2).unwrap().bounds, Some(bounds));
}

#[test]
fn closed_webview_is_gone_with_its_listeners() {
    let mut windows = windows();
    handle_webview_message(&mut windows, 1, 1, WebviewMessage::AddEventListener(5, 50));
    handle_webview_message(&mut windows, 1, 1, WebviewMessage::AddEventListener(6, 60));
    handle_webview_message(&mut windows, 1, 2, WebviewMessage::AddEventListener(5, 55));
    assert_eq!(windows.get(1).unwrap().webview_event_listeners[&1].len(), 2);
    let effect = handle_webview_message(&mut windows, 1, 1, WebviewMessage::Close);
    assert!(matches!(effect, WebviewEffect::DestroyOverlay(901)));
    assert!(get_webview(&windows, 1, 1).is_none());
    assert_eq!(get_browser(&windows, 1, 2), Some(42));
    let window = windows.get(1).unwrap();
    assert_eq!(window.webviews.len(), 2);
    assert!(!window.webview_event_listeners.contains_key(&1));
    assert_eq!(window.webview_event_listeners[&2][&5], 55);
    let effect = handle_webview_message(&mut windows, 1, 1, WebviewMessage::Close);
    assert!(matches!(effect, WebviewEffect::Nothing));
    assert_eq!(windows.get(1).unwrap().webviews.len(), 2);
    let effect = handle_webview_message(&mut windows, 1, 2, WebviewMessage::Close);
    assert!(matches!(effect, WebviewEffect::Nothing));
    assert_eq!(windows.get(1).unwrap().webviews.len(), 1);
}

#[test]
fn listeners_need_a_window_but_no_webview() {
    let mut windows = windows();
    handle_webview_message(&mut windows, 1, 8, WebviewMessage::AddEventListener(5, 50));
    assert_eq!(windows.get(1).unwrap().webview_event_listeners[&8][&5], 50);
    handle_webview_message(&mut windows, 8, 1, WebviewMessage::AddEventListener(5, 50));
    assert!(windows.get(8).is_none());
}

#[test]
fn address_is_asked_of_the_browser() {
    assert!(matches!(handle(1, 1, WebviewMessage::Url), WebviewEffect::QueryUrl(41)));
    assert!(matches!(
        handle(1, 3, WebviewMessage::Url),
        WebviewEffect::Reply(WebviewReply::Url(Err(Error::FailedToSendMessage)))
    ));
    assert!(matches!(
        answer_url(Some("http://a/".to_string())),
        WebviewReply::Url(Ok(url)) if url == "http://a/"
    ));
    assert!(matches!(answer_url(None), WebviewReply::Url(Err(Error::FailedToSendMessage))));
}

#[test]
fn place_is_measured_by_overlay_or_window() {
    assert!(matches!(
        handle(1, 1, WebviewMessage::Bounds),
        WebviewEffect::Measure {
            source: FrameSource::Overlay(901),
            scale: Some(77),
            extent: Extent::Bounds
        }
    ));
    assert!(matches!(
        handle(1, 2, WebviewMessage::Position),
        WebviewEffect::Measure {
            source: FrameSource::Window(77),
            scale: Some(77),
            extent: Extent::Position
        }
    ));
    assert!(matches!(
        handle(2, 9, WebviewMessage::Size),
        WebviewEffect::Measure {
            source: FrameSource::Overlay(909),
            scale: None,
            extent: Extent::Size
        }
    ));
    assert!(matches!(
        handle(1, 8, WebviewMessage::Bounds),
        WebviewEffect::Reply(WebviewReply::Bounds(Err(Error::FailedToSendMessage)))
    ));
    assert!(matches!(
        handle(1, 8, WebviewMessage::Position),
        WebviewEffect::Reply(WebviewReply::Position(Err(Error::FailedToSendMessage)))
    ));
    assert!(matches!(
        handle(8, 1, WebviewMessage::Size),
        WebviewEffect::Reply(WebviewReply::Size(Err(Error::FailedToSendMessage)))
    ));
}

#[test]
fn measured_place_is_told_in_physical_pixels() {
    let position = PhysicalPosition { x: 1, y: 2 };
    let size = PhysicalSize { width: 3, height: 4 };
    assert!(matches!(
        answer_extent(Extent::Bounds, position, size),
        WebviewReply::Bounds(Ok(rect)) if rect == Rect {
            position: Position::Physical(position),
            size: Size::Physical(size),
        }
    ));
    assert!(matches!(
        answer_extent(Extent::Position, position, size),
        WebviewReply::Position(Ok(told)) if told == position
    ));
    assert!(matches!(
        answer_extent(Extent::Size, position, size),
        WebviewReply::Size(Ok(told)) if told == size
    ));
}

#[test]
fn cookies_are_scoped_by_the_address() {
    match handle(1, 1, WebviewMessage::SetCookie(cookie())) {
        WebviewEffect::SetCookie { browser, cookie } => {
            assert_eq!(browser, Some(41));
            assert_eq!(cookie.name, "name");
            assert_eq!(cookie.value, "value");
            assert_eq!(cookie.domain, Some("example.com".to_string()));
            assert_eq!(cookie.path, None);
            assert_eq!((cookie.secure, cookie.httponly), (1, 0));
        }
        _ => panic!("the cookie is set"),
    }
    assert!(matches!(
        handle(8, 8, WebviewMessage::DeleteCookie(cookie())),
        WebviewEffect::DeleteCookies { browser: None, name } if name == "name"
    ));
    assert_eq!(cookie_scope(Some("http://a/".to_string())), Some("http://a/".to_string()));
    assert_eq!(cookie_scope(Some(String::new())), None);
    assert_eq!(cookie_scope(None), None);
}

#[test]
fn cookies_are_visited() {
    assert!(matches!(
        handle(1, 1, WebviewMessage::CookiesForUrl("http://a/".to_string())),
        WebviewEffect::VisitUrlCookies { url, include_http_only: 1 } if url == "http://a/"
    ));
    assert!(matches!(handle(1, 1, WebviewMessage::Cookies), WebviewEffect::VisitAllCookies));
    assert!(matches!(
        cookies_without_manager(),
        WebviewReply::Cookies(Ok(cookies)) if cookies.is_empty()
    ));
}
