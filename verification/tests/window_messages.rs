use tauri_runtime_cef::error::{Error, HandleError};
use tauri_runtime_cef::geometry::{
    Float64, PhysicalPosition, PhysicalRect, PhysicalSize, Position, Size, WindowSizeConstraints,
};
use tauri_runtime_cef::monitor::Monitor;
use tauri_runtime_cef::window::{AppWindowKind, Window, Windows};
use tauri_runtime_cef::window_builder::{
    CefWindowBuilder, Icon, Theme, WindowButton, WindowButtons, WindowLevel,
};
use tauri_runtime_cef::window_message::{
    answer_displays, answer_query, handle_window_message, DisplayAnswer, DisplayQuery,
    MonitorFacts, RawHandle, UserAttentionType, WindowAnswer, WindowCommand, WindowEffect,
    WindowMessage, WindowQuery, WindowReply,
};

const NATIVE: u32 = 1;
const BROWSER: u32 = 2;
const MISSING: u32 = 3;

fn windows() -> Windows {
    let mut windows = Windows::new();
    windows.insert(
        NATIVE,
        Window::new(
            "main".to_string(),
            AppWindowKind::Window(77),
            CefWindowBuilder::new(),
            Vec::new(),
        ),
    );
    windows.insert(
        BROWSER,
        Window::new(
            "browser".to_string(),
            AppWindowKind::BrowserWindow,
            CefWindowBuilder::new(),
            Vec::new(),
        ),
    );
    windows
}

fn handle(id: u32, message: WindowMessage) -> WindowEffect {
    handle_window_message(&mut windows(), id, message)
}

fn is_query(message: WindowMessage, query: WindowQuery) -> bool {
    matches!(handle(NATIVE, message), WindowEffect::Query(77, asked) if asked == query)
}

#[test]
fn questions_reach_the_window_of_the_system() {
    assert!(is_query(WindowMessage::ScaleFactor, WindowQuery::ScaleFactor));
    assert!(is_query(WindowMessage::InnerPosition, WindowQuery::OuterPosition));
    assert!(is_query(WindowMessage::OuterPosition, WindowQuery::OuterPosition));
    assert!(is_query(WindowMessage::InnerSize, WindowQuery::SurfaceSize));
    assert!(is_query(WindowMessage::OuterSize, WindowQuery::OuterSize));
    assert!(is_query(WindowMessage::IsFullscreen, WindowQuery::Fullscreen));
    assert!(is_query(WindowMessage::IsMinimized, WindowQuery::Minimized));
    assert!(is_query(WindowMessage::IsMaximized, WindowQuery::Maximized));
    assert!(is_query(WindowMessage::IsFocused, WindowQuery::Focus));
    assert!(is_query(WindowMessage::IsDecorated, WindowQuery::Decorated));
    assert!(is_query(WindowMessage::IsResizable, WindowQuery::Resizable));
    assert!(is_query(
        WindowMessage::IsMaximizable,
        WindowQuery::EnabledButtons(WindowButton::Maximize)
    ));
    assert!(is_query(
        WindowMessage::IsMinimizable,
        WindowQuery::EnabledButtons(WindowButton::Minimize)
    ));
    assert!(is_query(WindowMessage::IsClosable, WindowQuery::EnabledButtons(WindowButton::Close)));
    assert!(is_query(WindowMessage::IsVisible, WindowQuery::Visible));
    assert!(is_query(WindowMessage::Title, WindowQuery::Title));
    assert!(is_query(WindowMessage::CurrentMonitor, WindowQuery::CurrentMonitor));
    assert!(is_query(WindowMessage::Theme, WindowQuery::Theme));
    assert!(is_query(WindowMessage::RawWindowHandle, WindowQuery::Handle));
}

#[test]
fn questions_to_a_missing_window_fail() {
    assert!(matches!(
        handle(MISSING, WindowMessage::ScaleFactor),
        WindowEffect::Reply(WindowReply::ScaleFactor(Err(Error::FailedToSendMessage)))
    ));
    assert!(matches!(
        handle(MISSING, WindowMessage::InnerPosition),
        WindowEffect::Reply(WindowReply::Position(Err(Error::FailedToSendMessage)))
    ));
    assert!(matches!(
        handle(MISSING, WindowMessage::OuterSize),
        WindowEffect::Reply(WindowReply::Size(Err(Error::FailedToSendMessage)))
    ));
    assert!(matches!(
        handle(MISSING, WindowMessage::IsDecorated),
        WindowEffect::Reply(WindowReply::Flag(Err(Error::FailedToSendMessage)))
    ));
    assert!(matches!(
        handle(MISSING, WindowMessage::Title),
        WindowEffect::Reply(WindowReply::Title(Err(Error::FailedToSendMessage)))
    ));
    assert!(matches!(
        handle(MISSING, WindowMessage::CurrentMonitor),
        WindowEffect::Reply(WindowReply::Monitor(Err(Error::FailedToSendMessage)))
    ));
    assert!(matches!(
        handle(MISSING, WindowMessage::Theme),
        WindowEffect::Reply(WindowReply::Theme(Ok(Theme::Light)))
    ));
    assert!(matches!(
        handle(MISSING, WindowMessage::RawWindowHandle),
        WindowEffect::Reply(WindowReply::Handle(Err(HandleError::Unavailable)))
    ));
}

#[test]
fn browser_window_answers_for_itself() {
    assert!(matches!(
        handle(BROWSER, WindowMessage::IsDecorated),
        WindowEffect::Reply(WindowReply::Flag(Ok(false)))
    ));
    assert!(matches!(
        handle(BROWSER, WindowMessage::IsResizable),
        WindowEffect::Reply(WindowReply::Flag(Ok(false)))
    ));
    assert!(matches!(
        handle(BROWSER, WindowMessage::IsClosable),
        WindowEffect::Reply(WindowReply::Flag(Ok(false)))
    ));
    assert!(matches!(
        handle(BROWSER, WindowMessage::IsVisible),
        WindowEffect::Reply(WindowReply::Flag(Err(Error::FailedToSendMessage)))
    ));
    assert!(matches!(
        handle(BROWSER, WindowMessage::Theme),
        WindowEffect::Reply(WindowReply::Theme(Ok(Theme::Light)))
    ));
    assert!(matches!(handle(BROWSER, WindowMessage::Maximize), WindowEffect::Nothing));
}

#[test]
fn some_answers_do_not_need_a_window() {
    assert!(matches!(
        handle(MISSING, WindowMessage::IsEnabled),
        WindowEffect::Reply(WindowReply::Flag(Ok(true)))
    ));
    assert!(matches!(
        handle(NATIVE, WindowMessage::IsAlwaysOnTop),
        WindowEffect::Reply(WindowReply::Flag(Err(Error::FailedToSendMessage)))
    ));
    assert!(matches!(
        handle(MISSING, WindowMessage::PrimaryMonitor),
        WindowEffect::Displays(DisplayQuery::Primary)
    ));
    assert!(matches!(
        handle(MISSING, WindowMessage::AvailableMonitors),
        WindowEffect::Displays(DisplayQuery::All)
    ));
    let (x, y) = (Float64 { bits: 1 }, Float64 { bits: 2 });
    assert!(matches!(
        handle(MISSING, WindowMessage::MonitorFromPoint(x, y)),
        WindowEffect::Displays(DisplayQuery::AtPoint(a, b)) if a == x && b == y
    ));
}

#[test]
fn commands_reach_the_window_of_the_system() {
    assert!(matches!(
        handle(NATIVE, WindowMessage::SetResizable(true)),
        WindowEffect::Command(77, WindowCommand::SetResizable(true))
    ));
    assert!(matches!(
        handle(NATIVE, WindowMessage::SetMaximizable(false)),
        WindowEffect::Command(77, WindowCommand::SetButton(WindowButton::Maximize, false))
    ));
    assert!(matches!(
        handle(NATIVE, WindowMessage::SetMinimizable(true)),
        WindowEffect::Command(77, WindowCommand::SetButton(WindowButton::Minimize, true))
    ));
    assert!(matches!(
        handle(NATIVE, WindowMessage::SetClosable(false)),
        WindowEffect::Command(77, WindowCommand::SetButton(WindowButton::Close, false))
    ));
    assert!(matches!(
        handle(NATIVE, WindowMessage::SetTitle("new".to_string())),
        WindowEffect::Command(77, WindowCommand::SetTitle(title)) if title == "new"
    ));
    assert!(matches!(
        handle(NATIVE, WindowMessage::Maximize),
        WindowEffect::Command(77, WindowCommand::SetMaximized(true))
    ));
    assert!(matches!(
        handle(NATIVE, WindowMessage::Unmaximize),
        WindowEffect::Command(77, WindowCommand::SetMaximized(false))
    ));
    assert!(matches!(
        handle(NATIVE, WindowMessage::Minimize),
        WindowEffect::Command(77, WindowCommand::SetMinimized(true))
    ));
    assert!(matches!(
        handle(NATIVE, WindowMessage::Unminimize),
        WindowEffect::Command(77, WindowCommand::SetMinimized(false))
    ));
    assert!(matches!(
        handle(NATIVE, WindowMessage::Show),
        WindowEffect::Command(77, WindowCommand::SetVisible(true))
    ));
    assert!(matches!(
        handle(NATIVE, WindowMessage::Hide),
        WindowEffect::Command(77, WindowCommand::SetVisible(false))
    ));
    assert!(matches!(
        handle(NATIVE, WindowMessage::SetDecorations(true)),
        WindowEffect::Command(77, WindowCommand::SetDecorations(true))
    ));
    assert!(matches!(
        handle(NATIVE, WindowMessage::SetAlwaysOnBottom(true)),
        WindowEffect::Command(77, WindowCommand::SetWindowLevel(WindowLevel::AlwaysOnBottom))
    ));
    assert!(matches!(
        handle(NATIVE, WindowMessage::SetAlwaysOnTop(true)),
        WindowEffect::Command(77, WindowCommand::SetWindowLevel(WindowLevel::AlwaysOnTop))
    ));
    assert!(matches!(
        handle(NATIVE, WindowMessage::SetAlwaysOnTop(false)),
        WindowEffect::Command(77, WindowCommand::SetWindowLevel(WindowLevel::Normal))
    ));
    assert!(matches!(
        handle(NATIVE, WindowMessage::SetContentProtected(true)),
        WindowEffect::Command(77, WindowCommand::SetContentProtected(true))
    ));
    assert!(matches!(
        handle(NATIVE, WindowMessage::SetFullscreen(true)),
        WindowEffect::Command(77, WindowCommand::SetFullscreen(true))
    ));
    assert!(matches!(
        handle(NATIVE, WindowMessage::SetFocus),
        WindowEffect::Command(77, WindowCommand::FocusWindow)
    ));
    assert!(matches!(
        handle(NATIVE, WindowMessage::StartDragging),
        WindowEffect::Command(77, WindowCommand::DragWindow)
    ));
    let critical = Some(UserAttentionType::Critical);
    assert!(matches!(
        handle(NATIVE, WindowMessage::RequestUserAttention(critical)),
        WindowEffect::Command(77, WindowCommand::RequestUserAttention(asked)) if asked == critical
    ));
    let size = Size::Physical(PhysicalSize { width: 3, height: 4 });
    assert!(matches!(
        handle(NATIVE, WindowMessage::SetSize(size)),
        WindowEffect::Command(77, WindowCommand::RequestSurfaceSize(asked)) if asked == size
    ));
    let position = Position::Physical(PhysicalPosition { x: 3, y: 4 });
    assert!(matches!(
        handle(NATIVE, WindowMessage::SetPosition(position)),
        WindowEffect::Command(77, WindowCommand::SetOuterPosition(asked)) if asked == position
    ));
    let icon = Icon { rgba: vec![9; 4], width: 1, height: 1 };
    assert!(matches!(
        handle(NATIVE, WindowMessage::SetIcon(icon.clone())),
        WindowEffect::Command(77, WindowCommand::SetWindowIcon(given)) if given == icon
    ));
}

#[test]
fn commands_to_a_missing_window_do_nothing() {
    assert!(matches!(handle(MISSING, WindowMessage::Show), WindowEffect::Nothing));
    let bad = Icon { rgba: vec![9; 3], width: 1, height: 1 };
    assert!(matches!(handle(MISSING, WindowMessage::SetIcon(bad)), WindowEffect::Nothing));
}

#[test]
fn some_messages_have_no_effect() {
    assert!(matches!(handle(NATIVE, WindowMessage::Close), WindowEffect::Nothing));
    assert!(matches!(handle(NATIVE, WindowMessage::Center), WindowEffect::Nothing));
    assert!(matches!(handle(NATIVE, WindowMessage::SetShadow(true)), WindowEffect::Nothing));
    assert!(matches!(
        handle(NATIVE, WindowMessage::SetTheme(Some(Theme::Dark))),
        WindowEffect::Nothing
    ));
}

#[test]
fn destroying_lets_one_window_close() {
    let mut windows = windows();
    let effect = handle_window_message(&mut windows, NATIVE, WindowMessage::Destroy);
    assert!(matches!(effect, WindowEffect::Nothing));
    assert!(windows.get(NATIVE).is_some_and(|window| window.force_close));
    assert!(windows.get(BROWSER).is_some_and(|window| !window.force_close));
    handle_window_message(&mut windows, MISSING, WindowMessage::Destroy);
    assert!(windows.get(MISSING).is_none());
    handle_window_message(&mut windows, NATIVE, WindowMessage::Show);
    assert!(windows.get(NATIVE).is_some_and(|window| window.force_close));
}

#[test]
fn constraints_are_remembered() {
    let mut windows = windows();
    let constraints = WindowSizeConstraints {
        min_width: None,
        min_height: None,
        max_width: None,
        max_height: None,
    };
    handle_window_message(&mut windows, NATIVE, WindowMessage::SetSizeConstraints(constraints));
    let remembered = windows.get(NATIVE).map(|window| window.attributes.inner_size_constraints);
    assert_eq!(remembered, Some(Some(constraints)));
    let other = windows.get(BROWSER).map(|window| window.attributes.inner_size_constraints);
    assert_eq!(other, Some(None));
}

#[test]
fn listeners_are_replaced_by_id() {
    let mut windows = windows();
    handle_window_message(&mut windows, NATIVE, WindowMessage::AddEventListener(5, 50));
    handle_window_message(&mut windows, NATIVE, WindowMessage::AddEventListener(6, 60));
    handle_window_message(&mut windows, NATIVE, WindowMessage::AddEventListener(5, 55));
    let window = windows.get(NATIVE).unwrap();
    assert_eq!(window.window_event_listeners.len(), 2);
    assert_eq!(window.window_event_listeners.get(&5), Some(&55));
    assert_eq!(window.window_event_listeners.get(&6), Some(&60));
}

#[test]
fn answers_become_replies() {
    assert!(matches!(
        answer_query(WindowAnswer::OuterPosition(None)),
        WindowReply::Position(Err(Error::FailedToSendMessage))
    ));
    let position = PhysicalPosition { x: 1, y: 2 };
    assert!(matches!(
        answer_query(WindowAnswer::OuterPosition(Some(position))),
        WindowReply::Position(Ok(told)) if told == position
    ));
    assert!(matches!(
        answer_query(WindowAnswer::Minimized(None)),
        WindowReply::Flag(Ok(false))
    ));
    assert!(matches!(
        answer_query(WindowAnswer::Visible(Some(true))),
        WindowReply::Flag(Ok(true))
    ));
    let buttons = WindowButtons { close: true, minimize: false, maximize: true };
    assert!(matches!(
        answer_query(WindowAnswer::EnabledButtons(WindowButton::Minimize, buttons)),
        WindowReply::Flag(Ok(false))
    ));
    assert!(matches!(
        answer_query(WindowAnswer::EnabledButtons(WindowButton::Close, buttons)),
        WindowReply::Flag(Ok(true))
    ));
    assert!(matches!(
        answer_query(WindowAnswer::Theme(None)),
        WindowReply::Theme(Ok(Theme::Light))
    ));
    assert!(matches!(
        answer_query(WindowAnswer::Theme(Some(Theme::Dark))),
        WindowReply::Theme(Ok(Theme::Dark))
    ));
    assert!(matches!(
        answer_query(WindowAnswer::Handle(Ok(RawHandle::Xlib(4)))),
        WindowReply::Handle(Ok(RawHandle::Xlib(4)))
    ));
    assert!(matches!(
        answer_query(WindowAnswer::Handle(Err(HandleError::NotSupported))),
        WindowReply::Handle(Err(HandleError::NotSupported))
    ));
}

#[test]
fn current_monitor_needs_size_and_position() {
    let size = PhysicalSize { width: 640, height: 480 };
    let position = PhysicalPosition { x: 5, y: 6 };
    let scale_factor = Float64 { bits: 2.0f64.to_bits() };
    let known = MonitorFacts { video_mode_size: Some(size), position: Some(position), scale_factor };
    match answer_query(WindowAnswer::CurrentMonitor(Some(known))) {
        WindowReply::Monitor(Ok(Some(monitor))) => assert_eq!(
            monitor,
            Monitor {
                name: None,
                size,
                position,
                work_area: PhysicalRect { position, size },
                scale_factor,
            }
        ),
        _ => panic!("the monitor is known"),
    }
    let unknown = MonitorFacts { video_mode_size: None, position: Some(position), scale_factor };
    assert!(matches!(
        answer_query(WindowAnswer::CurrentMonitor(Some(unknown))),
        WindowReply::Monitor(Ok(None))
    ));
    assert!(matches!(
        answer_query(WindowAnswer::CurrentMonitor(None)),
        WindowReply::Monitor(Err(Error::FailedToSendMessage))
    ));
    assert!(matches!(
        answer_displays(DisplayAnswer::Monitor(None)),
        WindowReply::Monitor(Ok(None))
    ));
    assert!(matches!(
        answer_displays(DisplayAnswer::Monitors(vec![])),
        WindowReply::Monitors(Ok(monitors)) if monitors.is_empty()
    ));
}
