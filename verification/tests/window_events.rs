use tauri_runtime_cef::window::{AppWindowKind, Window, Windows};
use tauri_runtime_cef::window_builder::CefWindowBuilder;
use tauri_runtime_cef::window_event::{
    exit_after_reply, on_close_requested, on_window_destroyed, send_window_event, Delivery,
    ExitRequestedEventAction, RunEvent, WindowEvent,
};
use tauri_runtime_cef::window_message::{handle_window_message, WindowMessage};

fn windows() -> Windows {
    let mut windows = Windows::new();
    for id in [1u32, 2] {
        windows.insert(
            id,
            Window::new(
                format!("window {id}"),
                AppWindowKind::Window(u64::from(id)),
                CefWindowBuilder::new(),
                Vec::new(),
            ),
        );
    }
    windows
}

#[test]
fn event_is_sent_to_every_listener_once() {
    let mut windows = windows();
    handle_window_message(&mut windows, 1, WindowMessage::AddEventListener(7, 70));
    handle_window_message(&mut windows, 1, WindowMessage::AddEventListener(8, 80));
    handle_window_message(&mut windows, 2, WindowMessage::AddEventListener(9, 90));
    let sent: Option<Delivery<()>> =
        send_window_event(Some(&windows), 1, WindowEvent::Focused(true));
    let delivery = sent.unwrap();
    let mut listeners = delivery.listeners;
    listeners.sort();
    assert_eq!(listeners, vec![(7, 70), (8, 80)]);
    assert_eq!(delivery.event, WindowEvent::Focused(true));
    assert_eq!(
        delivery.run_event,
        RunEvent::WindowEvent { label: "window 1".to_string(), event: WindowEvent::Focused(true) }
    );
}

#[test]
fn event_is_lost_without_its_window() {
    let windows = windows();
    let missing: Option<Delivery<()>> =
        send_window_event(Some(&windows), 3, WindowEvent::Destroyed);
    assert!(missing.is_none());
    let busy: Option<Delivery<()>> = send_window_event(None, 1, WindowEvent::Destroyed);
    assert!(busy.is_none());
}

#[test]
fn close_can_be_prevented() {
    let mut windows = windows();
    on_close_requested(&mut windows, 1, Some(true));
    assert!(!windows.get(1).unwrap().force_close);
    on_close_requested(&mut windows, 1, Some(false));
    assert!(windows.get(1).unwrap().force_close);
    on_close_requested(&mut windows, 2, None);
    assert!(windows.get(2).unwrap().force_close);
}

#[test]
fn exit_is_requested_with_the_last_window() {
    let mut windows = windows();
    assert_eq!(on_window_destroyed::<()>(&mut windows, 1), None);
    assert!(windows.get(1).is_none() && windows.get(2).is_some());
    assert_eq!(on_window_destroyed::<()>(&mut windows, 1), None);
    assert_eq!(
        on_window_destroyed::<()>(&mut windows, 2),
        Some(RunEvent::ExitRequested { code: None })
    );
    assert!(windows.is_empty());
    assert_eq!(on_window_destroyed::<()>(&mut windows, 2), None);
}

#[test]
fn exit_follows_unless_prevented() {
    assert_eq!(exit_after_reply::<()>(None), Some(RunEvent::Exit));
    assert_eq!(exit_after_reply::<()>(Some(ExitRequestedEventAction::Prevent)), None);
}
