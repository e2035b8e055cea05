use tauri_runtime_cef::client::{
    CefBrowserClient, CefBrowserContextMenuHandler, CefBrowserDisplayHandler,
    CefBrowserDownloadHandler, CefBrowserKeyboardHandler,
};
use tauri_runtime_cef::load_handler::{CefBrowserLoadHandler, Frame, PageLoadEvent};
use tauri_runtime_cef::page_url::PageUrl;
use tauri_runtime_cef::script::{CefInitScript, InitializationScript};
use tauri_runtime_cef::window::WindowKind;

fn script(text: &str, for_main_frame_only: bool) -> CefInitScript {
    CefInitScript::new(InitializationScript { script: text.to_string(), for_main_frame_only })
}

fn client() -> CefBrowserClient {
    CefBrowserClient {
        kind: WindowKind::Tauri,
        window_id: 1,
        initialization_scripts: vec![script("one", true), script("two", false)],
        on_page_load_handler: Some(13),
        document_title_changed_handler: Some(12),
        navigation_handler: Some(11),
        download_handler: Some(14),
        devtools_enabled: true,
        custom_scheme_domain_names: vec!["tauri.localhost".to_string()],
        custom_protocol_scheme: "http".to_string(),
    }
}

fn handler() -> CefBrowserLoadHandler {
    client().load_handler().unwrap()
}

fn frame(is_main: i32, url: &str) -> Option<Frame> {
    Some(Frame { is_main, url: url.to_string() })
}

fn codes(is_main: i32, url: &str, status: i32) -> Vec<String> {
    let end = handler().on_load_end(frame(is_main, url), status).unwrap();
    end.scripts.into_iter().map(|run| run.code).collect()
}

#[test]
fn load_start_is_told_for_the_main_frame() {
    let call = handler().on_load_start(frame(1, "HTTP://Example.com")).unwrap();
    assert_eq!(call.handler, 13);
    assert_eq!(call.url, "http://example.com/");
    assert_eq!(call.event, PageLoadEvent::Started);
    assert!(handler().on_load_start(frame(0, "http://example.com")).is_none());
    assert!(handler().on_load_start(frame(1, "no address")).is_none());
    assert!(handler().on_load_start(None).is_none());
    let mut silent = handler();
    silent.on_page_load_handler = None;
    assert!(silent.on_load_start(frame(1, "http://example.com")).is_none());
}

#[test]
fn load_end_is_told_for_the_main_frame() {
    let end = handler().on_load_end(frame(1, "http://example.com"), 404).unwrap();
    let call = end.page_load.unwrap();
    assert_eq!(call.handler, 13);
    assert_eq!(call.event, PageLoadEvent::Finished);
    assert!(end.scripts.is_empty());
    let inner = handler().on_load_end(frame(0, "http://example.com"), 200).unwrap();
    assert!(inner.page_load.is_none());
    assert!(handler().on_load_end(None, 200).is_none());
}

#[test]
fn scripts_run_in_pages_from_elsewhere() {
    assert_eq!(codes(1, "https://example.com", 200), vec!["one", "two"]);
    assert_eq!(codes(0, "https://example.com", 200), vec!["two"]);
    let end = handler().on_load_end(frame(1, "https://example.com"), 299).unwrap();
    assert_eq!(end.scripts[1].script_url, "https://__tauri_init_script__");
    assert_eq!(end.scripts[1].start_line, 0);
}

#[test]
fn scripts_need_a_status_of_success() {
    assert_eq!(codes(1, "https://example.com", 199).len(), 0);
    assert_eq!(codes(1, "https://example.com", 300).len(), 0);
    assert_eq!(codes(1, "https://example.com", 200).len(), 2);
    assert_eq!(codes(1, "no address", 200).len(), 0);
}

#[test]
fn pages_of_custom_schemes_are_left_alone() {
    assert_eq!(codes(1, "http://tauri.localhost/index.html", 200).len(), 0);
    assert_eq!(codes(0, "http://tauri.localhost/index.html", 200).len(), 0);
    assert_eq!(codes(1, "https://tauri.localhost/index.html", 200).len(), 2);
    assert_eq!(codes(1, "http://other.localhost/index.html", 200).len(), 2);
    assert_eq!(codes(1, "data:text/plain,hello", 200).len(), 2);
}

#[test]
fn parsed_address_decides() {
    let url = Some(PageUrl {
        href: "http:x".to_string(),
        scheme: "http".to_string(),
        host: None,
    });
    assert_eq!(handler().load_end(true, &url, 200).scripts.len(), 2);
    let mut empty_domain = handler();
    empty_domain.custom_scheme_domain_names = vec![String::new()];
    assert_eq!(empty_domain.load_end(true, &url, 200).scripts.len(), 0);
    assert_eq!(handler().load_end(true, &None, 200).scripts.len(), 0);
    assert!(handler().page_load(true, &None, PageLoadEvent::Started).is_none());
}

#[test]
fn client_names_its_handlers() {
    let client = client();
    let requests = client.request_handler().unwrap();
    assert_eq!(requests.navigation_handler, Some(11));
    assert_eq!(requests.initialization_scripts, client.initialization_scripts);
    assert_eq!(
        client.display_handler(),
        Some(CefBrowserDisplayHandler { document_title_changed_handler: Some(12) })
    );
    assert_eq!(client.download_handler(), Some(CefBrowserDownloadHandler { handler: 14 }));
    assert_eq!(
        client.context_menu_handler(),
        Some(CefBrowserContextMenuHandler { devtools_enabled: true })
    );
    assert_eq!(
        client.keyboard_handler(),
        Some(CefBrowserKeyboardHandler { devtools_enabled: true })
    );
    let mut bare = client;
    bare.document_title_changed_handler = None;
    bare.download_handler = None;
    assert_eq!(bare.display_handler(), None);
    assert_eq!(bare.download_handler(), None);
}

#[test]
fn title_changes_are_told() {
    let handler = CefBrowserDisplayHandler { document_title_changed_handler: Some(12) };
    assert_eq!(handler.on_title_change(Some("new".to_string())), Some((12, "new".to_string())));
    assert_eq!(handler.on_title_change(None), None);
    let silent = CefBrowserDisplayHandler { document_title_changed_handler: None };
    assert_eq!(silent.on_title_change(Some("new".to_string())), None);
}

#[test]
fn menu_loses_its_last_item_without_developer_tools() {
    let plain = CefBrowserContextMenuHandler { devtools_enabled: false };
    assert_eq!(plain.on_before_context_menu(Some(5)), Some(4));
    assert_eq!(plain.on_before_context_menu(None), None);
    let tools = CefBrowserContextMenuHandler { devtools_enabled: true };
    assert_eq!(tools.on_before_context_menu(Some(5)), None);
    assert_eq!(tools.on_before_context_menu(Some(0)), None);
}
