use tauri_runtime_cef::error::HandleError;
use tauri_runtime_cef::geometry::{CefRect, PhysicalSize};
use tauri_runtime_cef::load_handler::Frame;
use tauri_runtime_cef::page_url::{custom_scheme_domain, custom_scheme_url, PageUrl};
use tauri_runtime_cef::script::{CefInitScript, InitializationScript};
use tauri_runtime_cef::webview::{finds_chrome, RuntimeStyle, UriScheme, WebviewKind};
use tauri_runtime_cef::webview_create::{
    add_browser_window, add_webview, create_browser_window, create_webview, create_window,
    webview_window_info, BrowserSettings, CachePath, CefState, ParentHandle, PendingWebview,
    WebviewAtribute, WebviewAttributes, WindowInfo,
};
use tauri_runtime_cef::window::{AppWindowKind, WindowKind, Windows};
use tauri_runtime_cef::window_builder::{CefWindowBuilder, Platform};
use tauri_runtime_cef::window_message::RawHandle;

fn script(text: &str) -> InitializationScript {
    InitializationScript { script: text.to_string(), for_main_frame_only: false }
}

fn pending() -> PendingWebview {
    PendingWebview {
        label: "view".to_string(),
        webview_attributes: WebviewAttributes {
            initialization_scripts: vec![script("one"), script("two")],
            javascript_disabled: false,
            clipboard: false,
            incognito: false,
            data_directory: None,
            devtools: None,
            use_https_scheme: true,
        },
        platform_specific_attributes: Vec::new(),
        uri_scheme_protocols: vec![
            UriScheme { scheme: "tauri".to_string(), handler: 1 },
            UriScheme { scheme: "asset".to_string(), handler: 2 },
        ],
        navigation_handler: Some(11),
        document_title_changed_handler: Some(12),
        url: "https://tauri.localhost/".to_string(),
        on_page_load_handler: Some(13),
        download_handler: None,
    }
}

fn windows() -> Windows {
    let mut windows = Windows::new();
    create_window(&mut windows, 1, "main".to_string(), CefWindowBuilder::new(), 77);
    windows
}

#[test]
fn opened_window_is_empty() {
    let windows = windows();
    let window = windows.get(1).unwrap();
    assert_eq!(window.label, "main");
    assert_eq!(window.window, AppWindowKind::Window(77));
    assert_eq!(window.window(), Some(77));
    assert!(!window.force_close && window.webviews.is_empty());
    assert!(window.window_event_listeners.is_empty());
}

#[test]
fn webview_is_planned_for_its_window() {
    let plan = create_webview(&windows(), WebviewKind::WindowContent, 1, 5, pending(), true);
    let plan = plan.unwrap();
    assert_eq!(plan.native, 77);
    assert_eq!(plan.runtime_style, RuntimeStyle::Chrome);
    let browser = plan.browser;
    assert_eq!(browser.url, "https://tauri.localhost/");
    assert_eq!(browser.client.kind, WindowKind::Tauri);
    assert_eq!(browser.client.window_id, 1);
    assert_eq!(browser.client.navigation_handler, Some(11));
    assert_eq!(browser.client.document_title_changed_handler, Some(12));
    assert_eq!(browser.client.on_page_load_handler, Some(13));
    assert_eq!(browser.client.download_handler, None);
    assert!(browser.client.devtools_enabled && browser.webview.devtools_enabled);
    assert_eq!(browser.client.custom_scheme_domain_names, vec!["tauri.localhost", "asset.localhost"]);
    assert_eq!(browser.client.custom_protocol_scheme, "https");
    let scripts = vec![CefInitScript::new(script("one")), CefInitScript::new(script("two"))];
    assert_eq!(browser.client.initialization_scripts, scripts);
    assert_eq!(browser.webview.initialization_scripts, scripts);
    assert_eq!(browser.webview.webview_id, 5);
    assert_eq!(browser.webview.label, "view");
    assert_eq!(
        browser.settings,
        BrowserSettings {
            javascript: CefState::Enabled,
            javascript_access_clipboard: CefState::Disabled,
        }
    );
    assert_eq!(browser.request_context.cache_path, CachePath::Global);
    let factories = browser.request_context.factories;
    assert_eq!(factories.len(), 2);
    assert_eq!(factories[1].protocol, "https");
    assert_eq!(factories[1].domain, "asset.localhost");
    assert_eq!(factories[1].scheme, "asset");
    let handlers: Vec<u64> =
        browser.webview.uri_scheme_protocols.iter().map(|scheme| scheme.handler).collect();
    assert_eq!(handlers, vec![1, 2]);
}

#[test]
fn attributes_change_the_plan() {
    let mut pending = pending();
    pending.webview_attributes.javascript_disabled = true;
    pending.webview_attributes.clipboard = true;
    pending.webview_attributes.incognito = true;
    pending.webview_attributes.data_directory = Some("/data".to_string());
    pending.webview_attributes.devtools = Some(false);
    pending.webview_attributes.use_https_scheme = false;
    pending.platform_specific_attributes = vec![
        WebviewAtribute::RuntimeStyle { style: RuntimeStyle::Chrome },
        WebviewAtribute::RuntimeStyle { style: RuntimeStyle::Alloy },
    ];
    let plan = create_webview(&windows(), WebviewKind::WindowChild, 1, 5, pending, true).unwrap();
    assert_eq!(plan.runtime_style, RuntimeStyle::Chrome);
    assert_eq!(
        plan.browser.settings,
        BrowserSettings {
            javascript: CefState::Disabled,
            javascript_access_clipboard: CefState::Enabled,
        }
    );
    assert_eq!(plan.browser.request_context.cache_path, CachePath::InMemory);
    assert!(!plan.browser.client.devtools_enabled);
    assert_eq!(plan.browser.client.custom_protocol_scheme, "http");
    assert_eq!(plan.browser.request_context.factories[0].protocol, "http");
}

#[test]
fn developer_tools_must_be_built() {
    let mut wanted = pending();
    wanted.webview_attributes.devtools = Some(true);
    let plan = create_webview(&windows(), WebviewKind::WindowChild, 1, 5, wanted, false).unwrap();
    assert!(!plan.browser.client.devtools_enabled);
}

#[test]
fn children_have_the_alloy_runtime() {
    let plan = create_webview(&windows(), WebviewKind::WindowChild, 1, 5, pending(), true).unwrap();
    assert_eq!(plan.runtime_style, RuntimeStyle::Alloy);
}

#[test]
fn webview_needs_a_window_of_the_system() {
    let mut windows = windows();
    assert!(create_webview(&windows, WebviewKind::WindowChild, 2, 5, pending(), true).is_none());
    let plan = create_browser_window(2, 6, pending(), true);
    assert_eq!(plan.client.kind, WindowKind::Browser);
    assert_eq!(plan.client.window_id, 2);
    add_browser_window(
        &mut windows,
        2,
        "browser".to_string(),
        CefWindowBuilder::new().browser_window(),
        plan.webview,
        Some(88),
    );
    let window = windows.get(2).unwrap();
    assert_eq!(window.window, AppWindowKind::BrowserWindow);
    assert_eq!(window.window(), None);
    assert_eq!(window.webviews.len(), 1);
    assert_eq!(window.webviews[0].browser, None);
    assert_eq!(window.webviews[0].browser_id, 88);
    assert_eq!(window.webviews[0].webview_id, 6);
    assert_eq!(window.webviews[0].label, "view");
    assert!(create_webview(&windows, WebviewKind::WindowChild, 2, 5, pending(), true).is_none());
}

#[test]
fn failed_browser_window_is_not_added() {
    let mut windows = windows();
    let plan = create_browser_window(2, 6, pending(), true);
    add_browser_window(
        &mut windows,
        2,
        "browser".to_string(),
        CefWindowBuilder::new(),
        plan.webview,
        None,
    );
    assert!(windows.get(2).is_none());
}

#[test]
fn webview_is_added_behind_the_others() {
    let mut windows = windows();
    for (webview_id, browser) in [(5u32, 50i32), (6, 60)] {
        let plan =
            create_webview(&windows, WebviewKind::WindowChild, 1, webview_id, pending(), true);
        add_webview(&mut windows, 1, plan.unwrap().browser.webview, browser);
    }
    let webviews = &windows.get(1).unwrap().webviews;
    assert_eq!(webviews.len(), 2);
    assert_eq!((webviews[0].webview_id, webviews[0].browser), (5, Some(50)));
    assert_eq!((webviews[1].webview_id, webviews[1].browser), (6, Some(60)));
    assert_eq!(webviews[1].browser_id, 60);
    assert_eq!(webviews[1].overlay, None);
    assert_eq!(webviews[1].bounds, None);
}

#[test]
fn browser_is_put_over_the_window() {
    let surface = PhysicalSize { width: 640, height: 480 };
    let bounds = CefRect { x: 0, y: 0, width: 640, height: 480 };
    assert_eq!(
        webview_window_info(Platform::Linux, Ok(RawHandle::Xlib(3)), surface),
        Some(WindowInfo { parent: ParentHandle::Window(3), bounds })
    );
    assert_eq!(
        webview_window_info(Platform::MacOs, Ok(RawHandle::AppKit(4)), surface),
        Some(WindowInfo { parent: ParentHandle::View(4), bounds })
    );
    assert_eq!(webview_window_info(Platform::Linux, Ok(RawHandle::AppKit(4)), surface), None);
    assert_eq!(webview_window_info(Platform::Windows, Ok(RawHandle::Other(4)), surface), None);
    assert_eq!(
        webview_window_info(Platform::Linux, Err(HandleError::Unavailable), surface),
        None
    );
}

#[test]
fn schemes_are_served_from_domains_of_their_own() {
    let plan = create_webview(&windows(), WebviewKind::WindowChild, 1, 5, pending(), true).unwrap();
    let factories = &plan.browser.request_context.factories;
    assert_ne!(factories[0].domain, factories[1].domain);
    let handler = plan.browser.client.load_handler().unwrap();
    for scheme in ["tauri", "asset"] {
        let url = Some(PageUrl {
            href: custom_scheme_url(scheme, true),
            scheme: "https".to_string(),
            host: Some(custom_scheme_domain(scheme)),
        });
        assert!(handler.load_end(true, &url, 200).scripts.is_empty());
        let page = Frame { is_main: 1, url: custom_scheme_url(scheme, true) };
        assert!(handler.on_load_end(Some(page), 200).unwrap().scripts.is_empty());
    }
}

#[test]
fn a_window_holds_one_chrome_browser() {
    let mut windows = windows();
    let content = create_webview(&windows, WebviewKind::WindowContent, 1, 5, pending(), true);
    let content = content.unwrap();
    assert_eq!(content.browser.webview.runtime_style, Some(RuntimeStyle::Chrome));
    add_webview(&mut windows, 1, content.browser.webview, 50);
    assert!(finds_chrome(&windows.get(1).unwrap().webviews));
    let mut second = pending();
    second.platform_specific_attributes =
        vec![WebviewAtribute::RuntimeStyle { style: RuntimeStyle::Chrome }];
    let plan = create_webview(&windows, WebviewKind::WindowChild, 1, 6, second, true).unwrap();
    assert_eq!(plan.runtime_style, RuntimeStyle::Alloy);
    add_webview(&mut windows, 1, plan.browser.webview, 60);
    let styles: Vec<Option<RuntimeStyle>> =
        windows.get(1).unwrap().webviews.iter().map(|webview| webview.runtime_style).collect();
    assert_eq!(styles, vec![Some(RuntimeStyle::Chrome), Some(RuntimeStyle::Alloy)]);
}

#[test]
fn the_engine_chooses_the_runtime_of_a_browser_window() {
    let plan = create_browser_window(2, 6, pending(), true);
    assert_eq!(plan.webview.runtime_style, None);
}
