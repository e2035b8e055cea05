//! What happens to a window, and who is told of it.
use std::collections::HashMap;

use vstd::prelude::*;

use crate::geometry::{PhysicalPosition, PhysicalSize};
use crate::webview::{HandlerId, WindowId};
use crate::window::{WindowView, Windows};
use crate::window_builder::Theme;
use crate::window_message::{on_window_close, windows_after, WindowMessage};

verus! {

broadcast use vstd::std_specs::hash::group_hash_axioms;

/// An event of a window.
#[derive(Debug, Clone, Copy, PartialEq, Eq, Structural)]
pub enum WindowEvent {
    Resized(PhysicalSize),
    Moved(PhysicalPosition),
    /// The user asks to close the window; a listener may answer that it stays open.
    CloseRequested,
    Destroyed,
    Focused(bool),
    ThemeChanged(Theme),
}

/// An event of the application.
#[derive(Debug, PartialEq)]
pub enum RunEvent<T> {
    Ready,
    Resumed,
    WindowEvent { label: String, event: WindowEvent },
    /// The application is about to exit; the code is there when one was asked for. The
    /// callback may answer that it goes on.
    ExitRequested { code: Option<i32> },
    Exit,
    UserEvent(T),
}

/// What the callback answers to a request to exit.
#[derive(Debug, Clone, Copy, PartialEq, Eq, Structural)]
pub enum ExitRequestedEventAction {
    Prevent,
}

/// An event on its way: first each listener is called with it, then the application's callback
/// is told.
#[derive(Debug)]
pub struct Delivery<T> {
    /// The listeners to call, each with its id.
    pub listeners: Vec<(u32, HandlerId)>,
    pub event: WindowEvent,
    pub run_event: RunEvent<T>,
}

/// Whether the sequence holds each listener once, in some order, and nothing else.
pub open spec fn lists(sequence: Seq<(u32, HandlerId)>, listeners: Map<u32, HandlerId>) -> bool {
    &&& forall|left: int, right: int|
        0 <= left < right < sequence.len() ==> sequence[left].0 != sequence[right].0
    &&& forall|index: int|
        0 <= index < sequence.len() ==> {
            &&& listeners.contains_key((#[trigger] sequence[index]).0)
            &&& listeners[sequence[index].0] == sequence[index].1
        }
    &&& forall|id: u32| #[trigger]
        listeners.contains_key(id) ==> sequence.contains((id, listeners[id]))
}

/// The listeners with their ids, in the order in which the map holds them.
fn collect_listeners(listeners: &HashMap<u32, HandlerId>) -> (sequence: Vec<(u32, HandlerId)>)
    ensures
        lists(sequence@, listeners@),
{
    let mut sequence: Vec<(u32, HandlerId)> = Vec::new();
    for id in keys: listeners.keys()
        invariant
            keys.seq().unref().to_set() == listeners@.dom(),
            keys.seq().no_duplicates(),
            sequence@.len() == keys.index(),
            forall|index: int|
                0 <= index < sequence@.len() ==> {
                    &&& (#[trigger] sequence@[index]).0 == *keys.seq()[index]
                    &&& listeners@.contains_key(sequence@[index].0)
                    &&& sequence@[index].1 == listeners@[sequence@[index].0]
                },
            keys.index() == keys.seq().len() ==> forall|id: u32| #[trigger]
                listeners@.contains_key(id) ==> sequence@.contains((id, listeners@[id])),
    {
        let ghost ids = keys.seq().unref();
        assert(ids[keys.index()] == *id);
        assert(ids.to_set().contains(*id));
        if let Some(handler) = listeners.get(id) {
            sequence.push((*id, *handler));
        }
        assert(sequence@.len() == ids.len() ==> forall|id: u32| #[trigger]
            listeners@.contains_key(id) ==> sequence@.contains((id, listeners@[id]))) by {
            if sequence@.len() == ids.len() {
                assert forall|id: u32| #[trigger]
                    listeners@.contains_key(id) implies sequence@.contains(
                    (id, listeners@[id]),
                ) by {
                    assert(ids.to_set().contains(id));
                    let index = choose|index: int| 0 <= index < ids.len() && ids[index] == id;
                    assert(sequence@[index] == (id, listeners@[id]));
                }
            }
        }
    }
    sequence
}

/// Sends an event to the listeners of a window and to the application's callback.
///
/// `windows` is `None` while the windows are being changed: the event is then lost, as it is
/// for a window that is not there.
pub fn send_window_event<T>(windows: Option<&Windows>, id: WindowId, event: WindowEvent) -> (sent:
    Option<Delivery<T>>)
    ensures
        sent is Some == (windows is Some && windows->0@.contains_key(id)),
        sent matches Some(delivery) ==> {
            &&& lists(delivery.listeners@, windows->0@[id].window_event_listeners)
            &&& delivery.event == event
            &&& delivery.run_event == (RunEvent::<T>::WindowEvent {
                label: windows->0@[id].label,
                event,
            })
        },
{
    let windows = match windows {
        Some(windows) => windows,
        None => return None,
    };
    match windows.get(id) {
        Some(window) => Some(
            Delivery {
                listeners: collect_listeners(&window.window_event_listeners),
                event,
                run_event: RunEvent::WindowEvent { label: window.label.clone(), event },
            },
        ),
        None => None,
    }
}

/// Ends a request to close a window, once its listeners were called: unless one answered that
/// the window stays open, it closes without asking again.
pub fn on_close_requested(windows: &mut Windows, id: WindowId, prevent: Option<bool>)
    ensures
        final(windows)@ == (if prevent == Some(true) {
            old(windows)@
        } else {
            windows_after(old(windows)@, id, WindowMessage::Destroy)
        }),
{
    if !prevent.unwrap_or(false) {
        on_window_close(windows, id);
    }
}

/// Ends the destruction of a window, once its listeners were called: it is no longer there.
/// When it was the last one, the application is about to exit.
pub fn on_window_destroyed<T>(windows: &mut Windows, id: WindowId) -> (event: Option<RunEvent<T>>)
    ensures
        final(windows)@ == old(windows)@.remove(id),
        event == (if old(windows)@.contains_key(id) && final(windows)@.is_empty() {
            Some(RunEvent::<T>::ExitRequested { code: None })
        } else {
            None
        }),
{
    let removed = windows.remove(id).is_some();
    if removed && windows.is_empty() {
        Some(RunEvent::ExitRequested { code: None })
    } else {
        None
    }
}

/// What follows a request to exit: the exit, unless the callback prevented it.
pub fn exit_after_reply<T>(reply: Option<ExitRequestedEventAction>) -> (event: Option<RunEvent<T>>)
    ensures
        event == (match reply {
            Some(ExitRequestedEventAction::Prevent) => None,
            None => Some(RunEvent::<T>::Exit),
        }),
{
    match reply {
        Some(ExitRequestedEventAction::Prevent) => None,
        None => Some(RunEvent::Exit),
    }
}

/// A listener that was added is called with every later event of its window, once, until
/// another is added under its id.
pub proof fn listener_is_called(
    windows: Map<WindowId, WindowView>,
    id: WindowId,
    event_id: u32,
    handler: HandlerId,
    called: Seq<(u32, HandlerId)>,
)
    requires
        windows.contains_key(id),
        lists(
            called,
            windows_after(
                windows,
                id,
                WindowMessage::AddEventListener(event_id, handler),
            )[id].window_event_listeners,
        ),
    ensures
        called.contains((event_id, handler)),
        forall|left: int, right: int|
            0 <= left < called.len() && 0 <= right < called.len() && called[left].0 == event_id
                && called[right].0 == event_id ==> left == right,
{
    assert(windows_after(
        windows,
        id,
        WindowMessage::AddEventListener(event_id, handler),
    )[id].window_event_listeners.contains_key(event_id));
}

/// Destroying a window leaves every other window as it was.
pub proof fn destroyed_window_is_gone(
    windows: Map<WindowId, WindowView>,
    id: WindowId,
    other: WindowId,
)
    requires
        other != id,
    ensures
        !windows.remove(id).contains_key(id),
        windows.remove(id).contains_key(other) == windows.contains_key(other),
        windows.contains_key(other) ==> windows.remove(id)[other] == windows[other],
{
}

} // verus!
