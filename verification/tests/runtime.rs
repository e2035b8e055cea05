use tauri_runtime_cef::context::{
    getter_reply, handle_message, CefRuntimeContext, CefRuntimeHandle, CursorPosition,
    DisplayHandleKind, Effect, EventLoopProxy, Message, PendingWindow,
};
use tauri_runtime_cef::error::{Error, HandleError};
use tauri_runtime_cef::geometry::{
    Float64, PhysicalPosition, PhysicalSize, Position, Rect, Size,
};
use tauri_runtime_cef::webview::{find_webview, RuntimeStyle, UriScheme};
use tauri_runtime_cef::webview_create::{
    add_browser_window, add_webview, create_browser_window, PendingWebview, WebviewAttributes,
};
use tauri_runtime_cef::webview_dispatcher::{awaited_reply, CefWebviewDispatcher};
use tauri_runtime_cef::webview_message::{
    BrowserCommand, Cookie, WebviewEffect, WebviewMessage, WebviewReply,
};
use tauri_runtime_cef::window_builder::{CefWindowBuilder, Platform};
use tauri_runtime_cef::window_dispatcher::{window_handle_reply, CefWindowDispatcher};
use tauri_runtime_cef::window_event::{on_window_destroyed, RunEvent};
use tauri_runtime_cef::window_message::{
    RawHandle, WindowCommand, WindowEffect, WindowMessage,
};

fn pending_webview(label: &str) -> PendingWebview {
    PendingWebview {
        label: label.to_string(),
        webview_attributes: WebviewAttributes {
            initialization_scripts: Vec::new(),
            javascript_disabled: false,
            clipboard: false,
            incognito: false,
            data_directory: None,
            devtools: None,
            use_https_scheme: true,
        },
        platform_specific_attributes: Vec::new(),
        uri_scheme_protocols: vec![UriScheme { scheme: "tauri".to_string(), handler: 1 }],
        navigation_handler: None,
        document_title_changed_handler: None,
        url: "http://example.com/".to_string(),
        on_page_load_handler: None,
        download_handler: None,
    }
}

fn pending_window(webview: Option<PendingWebview>) -> PendingWindow {
    PendingWindow { label: "main".to_string(), window_builder: CefWindowBuilder::new(), webview }
}

fn open(context: &mut CefRuntimeContext) -> (u32, u32) {
    let webview = Some(pending_webview("ignored"));
    let (message, _) = context.create_window::<()>(pending_window(webview), None);
    match handle_message(context, message, true) {
        Effect::OpenWindow { window_id, webview_id, pending } => {
            let native = 100 + u64::from(window_id);
            let plan =
                context.window_opened(window_id, webview_id, pending, native, true).unwrap();
            assert_eq!(plan.native, native);
            assert_eq!(plan.runtime_style, RuntimeStyle::Chrome);
            let webview_id = plan.browser.webview.webview_id;
            add_webview(&mut context.windows, window_id, plan.browser.webview, 40);
            (window_id, webview_id)
        }
        _ => panic!("a window is opened"),
    }
}

#[test]
fn ids_start_at_one_and_count_up() {
    let mut context = CefRuntimeContext::new();
    assert!(context.windows.is_empty());
    assert_eq!(context.next_window_id(), 1);
    assert_eq!(context.next_window_id(), 2);
    assert_eq!(context.next_webview_id(), 1);
    assert_eq!(context.next_window_event_id(), 1);
    assert_eq!(context.next_webview_event_id(), 1);
    assert_eq!(context.next_webview_event_id(), 2);
}

#[test]
fn ids_start_over_after_the_largest() {
    let mut context = CefRuntimeContext::new();
    context.next_window_id = u32::MAX;
    assert_eq!(context.next_window_id(), u32::MAX);
    assert_eq!(context.next_window_id(), 0);
    assert_eq!(context.next_window_id(), 1);
}

#[test]
fn window_with_content_takes_two_ids() {
    let mut context = CefRuntimeContext::new();
    let webview = Some(pending_webview("other label"));
    let (message, detached) = context.create_window::<()>(pending_window(webview), Some(3));
    assert!(matches!(
        message,
        Message::CreateWindow { window_id: 1, webview_id: 1, after_window_creation: Some(3), .. }
    ));
    assert_eq!(detached.id, 1);
    assert_eq!(detached.label, "main");
    assert_eq!(detached.dispatcher, CefWindowDispatcher { window_id: 1 });
    let content = detached.webview.unwrap();
    assert!(content.use_https_scheme);
    assert_eq!(content.webview.label, "main");
    assert_eq!(content.webview.dispatcher, CefWebviewDispatcher { window_id: 1, webview_id: 1 });
    assert_eq!(context.next_webview_id, 2);
}

#[test]
fn window_without_content_takes_one_id() {
    let mut context = CefRuntimeContext::new();
    let (message, detached) = context.create_window::<()>(pending_window(None), None);
    assert!(matches!(
        message,
        Message::CreateWindow { window_id: 1, webview_id: 0, after_window_creation: None, .. }
    ));
    assert!(detached.webview.is_none());
    assert_eq!(context.next_webview_id, 1);
    match handle_message(&mut context, message, true) {
        Effect::OpenWindow { window_id, webview_id, pending } => {
            assert!(context.window_opened(window_id, webview_id, pending, 7, true).is_none());
        }
        _ => panic!("a window is opened"),
    }
    assert_eq!(context.windows.get(1).unwrap().window(), Some(7));
}

#[test]
fn windows_have_ids_of_their_own() {
    let mut context = CefRuntimeContext::new();
    assert_eq!(open(&mut context), (1, 1));
    assert_eq!(open(&mut context), (2, 2));
    assert_eq!(context.windows.get(2).unwrap().webviews.len(), 1);
}

#[test]
fn messages_are_handled_by_their_window() {
    let mut context = CefRuntimeContext::new();
    let (window_id, webview_id) = open(&mut context);
    let window = CefWindowDispatcher { window_id };
    assert!(matches!(
        handle_message::<()>(&mut context, window.maximize(), true),
        Effect::Window(WindowEffect::Command(101, WindowCommand::SetMaximized(true)))
    ));
    let webview = CefWebviewDispatcher { window_id, webview_id };
    assert!(matches!(
        handle_message::<()>(&mut context, webview.reload(), true),
        Effect::Webview(WebviewEffect::Browser(40, BrowserCommand::Reload))
    ));
    assert!(matches!(
        handle_message::<()>(&mut context, webview.close(), true),
        Effect::Webview(WebviewEffect::Nothing)
    ));
    assert!(matches!(
        handle_message::<()>(&mut context, webview.url(), true),
        Effect::Webview(WebviewEffect::Reply(WebviewReply::Url(Err(Error::FailedToSendMessage))))
    ));
}

#[test]
fn webviews_are_asked_for_at_once() {
    let mut context = CefRuntimeContext::new();
    let (window_id, _) = open(&mut context);
    let (plan, detached) = context.create_webview(window_id, pending_webview("child"), true);
    assert_eq!(plan.unwrap().runtime_style, RuntimeStyle::Alloy);
    assert_eq!(detached.label, "child");
    assert_eq!(detached.dispatcher, CefWebviewDispatcher { window_id: 1, webview_id: 2 });
    let window = CefWindowDispatcher { window_id: 9 };
    let (plan, detached) = window.create_webview(&mut context, pending_webview("lost"), true);
    assert!(plan.is_none());
    assert_eq!(detached.dispatcher, CefWebviewDispatcher { window_id: 9, webview_id: 3 });
}

#[test]
fn webviews_are_created_by_message() {
    let mut context = CefRuntimeContext::new();
    let (window_id, _) = open(&mut context);
    let message: Message<()> =
        Message::CreateWebview { window_id, webview_id: 8, pending: pending_webview("child") };
    match handle_message(&mut context, message, true) {
        Effect::CreateBrowser(plan) => {
            assert_eq!(plan.browser.webview.webview_id, 8);
            assert_eq!(plan.runtime_style, RuntimeStyle::Alloy);
        }
        _ => panic!("a browser is created"),
    }
    let message: Message<()> =
        Message::CreateWebview { window_id: 9, webview_id: 8, pending: pending_webview("child") };
    assert!(matches!(handle_message(&mut context, message, true), Effect::Nothing));
}

#[test]
fn callback_is_told_once_it_is_there() {
    let mut context = CefRuntimeContext::new();
    assert!(matches!(
        handle_message(&mut context, Message::UserEvent(5u8), true),
        Effect::Nothing
    ));
    assert!(matches!(
        handle_message::<u8>(&mut context, Message::RequestExit(3), true),
        Effect::Nothing
    ));
    assert_eq!(context.new_events::<u8>(true), None);
    context.has_callback = true;
    assert!(matches!(
        handle_message(&mut context, EventLoopProxy.send_event(5u8), true),
        Effect::Callback(RunEvent::UserEvent(5))
    ));
    let exit = CefRuntimeHandle.request_exit::<u8>(3);
    assert!(matches!(
        handle_message(&mut context, exit, true),
        Effect::RequestExit(RunEvent::ExitRequested { code: Some(3) })
    ));
    assert_eq!(context.new_events::<u8>(true), Some(RunEvent::Ready));
    assert_eq!(context.new_events::<u8>(false), None);
    assert_eq!(context.resumed::<u8>(), Some(RunEvent::Resumed));
    assert_eq!(context.run_callback(RunEvent::UserEvent(9u8)), Some(RunEvent::UserEvent(9)));
}

#[test]
fn tasks_are_run() {
    let mut context = CefRuntimeContext::new();
    let task = CefRuntimeHandle.run_on_main_thread::<()>(6);
    assert!(matches!(handle_message(&mut context, task, true), Effect::RunTask(6)));
    let window = CefWindowDispatcher { window_id: 1 };
    assert!(matches!(window.run_on_main_thread::<()>(7), Message::Task(7)));
    let webview = CefWebviewDispatcher { window_id: 1, webview_id: 1 };
    assert!(matches!(webview.run_on_main_thread::<()>(8), Message::Task(8)));
}

#[test]
fn events_of_the_application_can_be_copied() {
    let message: Message<String> = Message::UserEvent("event".to_string());
    assert!(matches!(message.duplicate(), Message::UserEvent(event) if event == "event"));
}

#[test]
fn sending_fails_without_an_event_loop() {
    assert_eq!(EventLoopProxy.send_message(true), Ok(()));
    assert_eq!(EventLoopProxy.send_message(false), Err(Error::FailedToSendMessage));
    assert!(EventLoopProxy.wakes_up(&Ok(())));
    assert!(!EventLoopProxy.wakes_up(&Err(Error::FailedToSendMessage)));
}

#[test]
fn questions_fail_on_either_way() {
    assert_eq!(getter_reply(Ok(()), Some(Ok(5))), Ok(5));
    assert_eq!(getter_reply::<u8>(Ok(()), None), Err(Error::FailedToReceiveMessage));
    assert_eq!(
        getter_reply(Err(Error::FailedToSendMessage), Some(Ok(5))),
        Err(Error::FailedToSendMessage)
    );
    assert_eq!(
        getter_reply::<u8>(Ok(()), Some(Err(Error::FailedToSendMessage))),
        Err(Error::FailedToSendMessage)
    );
    assert_eq!(awaited_reply(Ok(()), Some(Ok(5))), Ok(5));
    assert_eq!(
        awaited_reply::<u8>(Err(Error::FailedToSendMessage), None),
        Err(Error::FailedToSendMessage)
    );
}

#[test]
fn handles_are_unavailable_without_an_answer() {
    assert_eq!(window_handle_reply(Ok(()), Some(Ok(RawHandle::Xlib(1)))), Ok(RawHandle::Xlib(1)));
    assert_eq!(window_handle_reply(Ok(()), None), Err(HandleError::Unavailable));
    assert_eq!(
        window_handle_reply(Err(Error::FailedToSendMessage), None),
        Err(HandleError::Unavailable)
    );
    assert_eq!(
        window_handle_reply(Ok(()), Some(Err(HandleError::NotSupported))),
        Err(HandleError::NotSupported)
    );
}

#[test]
fn listeners_take_the_next_id() {
    let mut context = CefRuntimeContext::new();
    let window = CefWindowDispatcher { window_id: 4 };
    let (id, message) = window.on_window_event::<()>(&mut context, 50);
    assert_eq!(id, 1);
    assert!(matches!(
        message,
        Message::Window { window_id: 4, message: WindowMessage::AddEventListener(1, 50) }
    ));
    let webview = CefWebviewDispatcher { window_id: 4, webview_id: 5 };
    let (id, message) = webview.on_webview_event::<()>(&mut context, 60);
    assert_eq!(id, 1);
    assert!(matches!(
        message,
        Message::Webview {
            window_id: 4,
            webview_id: 5,
            message: WebviewMessage::AddEventListener(1, 60)
        }
    ));
    assert_eq!(window.on_window_event::<()>(&mut context, 51).0, 2);
}

#[test]
fn webview_moves_only_when_told() {
    let mut webview = CefWebviewDispatcher { window_id: 4, webview_id: 5 };
    assert!(matches!(
        webview.reparent::<()>(6),
        Message::Webview { window_id: 4, webview_id: 5, message: WebviewMessage::Reparent(6) }
    ));
    let failed = webview.finish_reparent(6, Ok(()), Some(Err(Error::FailedToSendMessage)));
    assert_eq!(failed, Err(Error::FailedToSendMessage));
    assert_eq!(webview.window_id, 4);
    let unsent = webview.finish_reparent(6, Err(Error::FailedToSendMessage), None);
    assert_eq!(unsent, Err(Error::FailedToSendMessage));
    assert_eq!(webview.window_id, 4);
    assert_eq!(webview.finish_reparent(6, Ok(()), Some(Ok(()))), Ok(()));
    assert_eq!(webview, CefWebviewDispatcher { window_id: 6, webview_id: 5 });
}

#[test]
fn dispatchers_carry_what_they_are_given() {
    let window = CefWindowDispatcher { window_id: 4 };
    assert!(matches!(
        window.set_title::<()>("title".to_string()),
        Message::Window { window_id: 4, message: WindowMessage::SetTitle(title) } if title == "title"
    ));
    assert!(matches!(
        window.set_badge_count::<()>(Some(3), None),
        Message::Window { window_id: 4, message: WindowMessage::SetBadgeCount(Some(3), None) }
    ));
    assert!(matches!(
        window.hide_window::<()>(),
        Message::Window { window_id: 4, message: WindowMessage::Hide }
    ));
    let webview = CefWebviewDispatcher { window_id: 4, webview_id: 5 };
    assert!(matches!(
        webview.hide_webview::<()>(),
        Message::Webview { window_id: 4, webview_id: 5, message: WebviewMessage::Hide }
    ));
    let bounds = Rect {
        position: Position::Physical(PhysicalPosition { x: 1, y: 2 }),
        size: Size::Physical(PhysicalSize { width: 3, height: 4 }),
    };
    assert!(matches!(
        webview.set_bounds::<()>(bounds),
        Message::Webview { message: WebviewMessage::SetBounds(given), .. } if given == bounds
    ));
    let cookie = Cookie {
        name: "name".to_string(),
        value: String::new(),
        domain: None,
        path: None,
        secure: None,
        http_only: None,
    };
    assert!(matches!(
        webview.delete_cookie::<()>(cookie),
        Message::Webview { message: WebviewMessage::DeleteCookie(given), .. } if given.name == "name"
    ));
}

#[test]
fn displays_and_the_cursor() {
    assert_eq!(CefRuntimeHandle.display_handle(Platform::Linux), DisplayHandleKind::Xlib);
    assert_eq!(CefRuntimeHandle.display_handle(Platform::MacOs), DisplayHandleKind::AppKit);
    assert_eq!(CefRuntimeHandle.display_handle(Platform::Windows), DisplayHandleKind::Windows);
    let origin = Float64 { bits: 0.0f64.to_bits() };
    assert_eq!(
        CefRuntimeHandle.cursor_position(),
        Ok(CursorPosition { x: origin, y: origin })
    );
}

#[test]
fn windows_are_asked_for_by_handle_and_dispatcher() {
    let mut context = CefRuntimeContext::new();
    let window = CefWindowDispatcher { window_id: 9 };
    let (message, detached) =
        window.create_window::<()>(&mut context, pending_window(None), Some(3));
    assert!(matches!(
        message,
        Message::CreateWindow { window_id: 1, webview_id: 0, after_window_creation: Some(3), .. }
    ));
    assert_eq!(detached.id, 1);
    let webview = Some(pending_webview("ignored"));
    let (message, detached) =
        CefRuntimeHandle.create_window::<()>(&mut context, pending_window(webview), None);
    assert!(matches!(message, Message::CreateWindow { window_id: 2, webview_id: 1, .. }));
    assert_eq!(detached.dispatcher, CefWindowDispatcher { window_id: 2 });
    let (plan, detached) =
        CefRuntimeHandle.create_webview(&mut context, 2, pending_webview("child"), true);
    assert!(plan.is_none());
    assert_eq!(detached.dispatcher, CefWebviewDispatcher { window_id: 2, webview_id: 2 });
}

#[test]
fn next_ids_stay_unused() {
    let mut context = CefRuntimeContext::new();
    open(&mut context);
    open(&mut context);
    let id = context.next_window_id();
    let webview_id = context.next_webview_id();
    let plan = create_browser_window(id, webview_id, pending_webview("browser"), true);
    add_browser_window(
        &mut context.windows,
        id,
        "browser".to_string(),
        CefWindowBuilder::new(),
        plan.webview,
        Some(50),
    );
    assert_eq!(on_window_destroyed::<()>(&mut context.windows, 1), None);
    assert!(context.windows.get(context.next_window_id).is_none());
    for window_id in [2u32, 3] {
        let webviews = &context.windows.get(window_id).unwrap().webviews;
        assert!(find_webview(webviews, context.next_webview_id).is_none());
        assert!(webviews.iter().all(|webview| webview.webview_id < context.next_webview_id));
        assert!(webviews.iter().all(|webview| webview.uri_scheme_protocols.len() == 1));
    }
}
