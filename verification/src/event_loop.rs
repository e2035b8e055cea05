//! What the event loop makes of what it is asked, seen from who asks.
use vstd::prelude::*;

use crate::context::{
    getter_reply, handle_message, CefRuntimeContext, CefRuntimeHandle, ContextView, CursorPosition,
    DetachedWebview, DetachedWindow, DisplayHandleKind, Effect, EventLoopProxy, Message,
    PendingWindow,
};
use crate::creation::{is_new_window, is_wanted_browser};
use crate::error::Error;
use crate::webview::{HandlerId, NativeWindowId, RuntimeStyle, WebviewId, WebviewKind, WindowId};
use crate::webview_create::{PendingWebview, WebviewAtribute, WebviewPlan};
use crate::webview_message::{handle_webview_message, WebviewEffect, WebviewMessage};
use crate::window::{AppWindowKind, WindowKind, WindowView, Windows};
use crate::window_builder::Platform;
use crate::window_dispatcher::CefWindowDispatcher;
use crate::window_event::{
    exit_after_reply, on_close_requested, on_window_destroyed, send_window_event, Delivery,
    ExitRequestedEventAction, RunEvent, WindowEvent,
};
use crate::window_message::{handle_window_message, WindowEffect, WindowMessage};

verus! {

/// A task is run as it is.
pub proof fn tasks_are_run<T>(task: HandlerId, devtools_built: bool)
    ensures
        forall|context: &mut CefRuntimeContext, effect: Effect<T>| #[trigger]
            call_ensures(
                handle_message::<T>,
                (context, Message::<T>::Task(task), devtools_built),
                effect,
            ) ==> effect == Effect::<T>::RunTask(task) && final(context)@ == context@,
{
}

/// An event of the application is told as it is, and so is the code of a request to exit, exactly
/// where there is a callback to tell.
pub proof fn the_callback_is_told<T>(event: T, code: i32, devtools_built: bool)
    ensures
        forall|context: &mut CefRuntimeContext, effect: Effect<T>| #[trigger]
            call_ensures(
                handle_message::<T>,
                (context, Message::<T>::UserEvent(event), devtools_built),
                effect,
            ) ==> {
                &&& context@.has_callback ==> effect == Effect::Callback(RunEvent::UserEvent(event))
                &&& !context@.has_callback ==> effect is Nothing
                &&& final(context)@ == context@
            },
        forall|context: &mut CefRuntimeContext, effect: Effect<T>| #[trigger]
            call_ensures(
                handle_message::<T>,
                (context, Message::<T>::RequestExit(code), devtools_built),
                effect,
            ) ==> {
                &&& context@.has_callback ==> {
                    &&& effect matches Effect::RequestExit(RunEvent::ExitRequested { code: told })
                    &&& told == Some(code)
                }
                &&& !context@.has_callback ==> effect is Nothing
                &&& final(context)@ == context@
            },
{
}

/// A window is opened under the ids and as the description that its message carries.
pub proof fn windows_are_opened_as_asked<T>(
    window_id: WindowId,
    webview_id: WebviewId,
    pending: PendingWindow,
    after_window_creation: Option<HandlerId>,
    devtools_built: bool,
)
    ensures
        forall|context: &mut CefRuntimeContext, effect: Effect<T>| #[trigger]
            call_ensures(
                handle_message::<T>,
                (
                    context,
                    Message::<T>::CreateWindow {
                        window_id,
                        webview_id,
                        pending,
                        after_window_creation,
                    },
                    devtools_built,
                ),
                effect,
            ) ==> {
                &&& effect is OpenWindow
                &&& effect->OpenWindow_window_id == window_id
                &&& effect->OpenWindow_webview_id == webview_id
                &&& effect->OpenWindow_pending == pending
                &&& final(context)@ == context@
            },
{
}

/// Whether a plan is the wanted one for a webview of the window under `window_id`, a window of the
/// system.
pub open spec fn is_wanted_plan(
    plan: WebviewPlan,
    windows: Map<WindowId, WindowView>,
    kind: WebviewKind,
    window_id: WindowId,
    webview_id: WebviewId,
    pending: PendingWebview,
    devtools_built: bool,
) -> bool {
    let asked = pending.platform_specific_attributes@;
    let webviews = windows[window_id].webviews;
    &&& windows.contains_key(window_id)
    &&& windows[window_id].window == AppWindowKind::Window(plan.native)
    &&& plan.browser.client.kind == WindowKind::Tauri
    &&& plan.browser.webview.runtime_style == Some(plan.runtime_style)
    &&& is_wanted_browser(plan.browser, window_id, webview_id, pending, devtools_built)
    &&& (exists|index: int|
        0 <= index < webviews.len() && (#[trigger] webviews[index]).runtime_style == Some(
            RuntimeStyle::Chrome,
        )) ==> plan.runtime_style == RuntimeStyle::Alloy
    &&& (forall|index: int|
        0 <= index < webviews.len() ==> (#[trigger] webviews[index]).runtime_style != Some(
            RuntimeStyle::Chrome,
        )) ==> {
        &&& asked.len() > 0 ==> asked.first() == WebviewAtribute::RuntimeStyle {
            style: plan.runtime_style,
        }
        &&& asked.len() == 0 ==> (plan.runtime_style == RuntimeStyle::Chrome <==> kind
            == WebviewKind::WindowContent)
    }
}

/// A webview that shares its window is created as its message asks, exactly where the window is one
/// of the system's.
pub proof fn webviews_are_created_as_asked<T>(
    window_id: WindowId,
    webview_id: WebviewId,
    pending: PendingWebview,
    devtools_built: bool,
)
    ensures
        forall|context: &mut CefRuntimeContext, effect: Effect<T>| #[trigger]
            call_ensures(
                handle_message::<T>,
                (
                    context,
                    Message::<T>::CreateWebview { window_id, webview_id, pending },
                    devtools_built,
                ),
                effect,
            ) ==> {
                &&& effect is Nothing || effect is CreateBrowser
                &&& effect is CreateBrowser <==> context@.windows.contains_key(window_id)
                    && context@.windows[window_id].window is Window
                &&& effect is CreateBrowser ==> is_wanted_plan(
                    effect->CreateBrowser_0,
                    context@.windows,
                    WebviewKind::WindowChild,
                    window_id,
                    webview_id,
                    pending,
                    devtools_built,
                )
                &&& final(context)@ == context@
            },
{
}

/// A message to a window comes to the same through the event loop as by itself, and changes
/// nothing but the windows.
pub proof fn window_messages_are_passed_on<T>(
    window_id: WindowId,
    message: WindowMessage,
    devtools_built: bool,
)
    ensures
        forall|
            context: &mut CefRuntimeContext,
            effect: Effect<T>,
            windows: &mut Windows,
            alone: WindowEffect,
        |
            #[trigger] call_ensures(
                handle_message::<T>,
                (context, Message::<T>::Window { window_id, message }, devtools_built),
                effect,
            ) && #[trigger] call_ensures(
                handle_window_message,
                (windows, window_id, message),
                alone,
            ) && windows@ == context@.windows ==> {
                &&& effect == Effect::<T>::Window(alone)
                &&& final(context)@.windows == final(windows)@
                &&& final(context)@.has_callback == context@.has_callback
                &&& final(context)@.next_window_id == context@.next_window_id
                &&& final(context)@.next_webview_id == context@.next_webview_id
                &&& final(context)@.next_window_event_id == context@.next_window_event_id
                &&& final(context)@.next_webview_event_id == context@.next_webview_event_id
            },
{
}

/// A message to a webview comes to the same through the event loop as by itself, and changes
/// nothing but the windows.
pub proof fn webview_messages_are_passed_on<T>(
    window_id: WindowId,
    webview_id: WebviewId,
    message: WebviewMessage,
    devtools_built: bool,
)
    ensures
        forall|
            context: &mut CefRuntimeContext,
            effect: Effect<T>,
            windows: &mut Windows,
            alone: WebviewEffect,
        |
            #[trigger] call_ensures(
                handle_message::<T>,
                (context, Message::<T>::Webview { window_id, webview_id, message }, devtools_built),
                effect,
            ) && #[trigger] call_ensures(
                handle_webview_message,
                (windows, window_id, webview_id, message),
                alone,
            ) && windows@ == context@.windows ==> {
                &&& effect == Effect::<T>::Webview(alone)
                &&& final(context)@.windows == final(windows)@
                &&& final(context)@.has_callback == context@.has_callback
                &&& final(context)@.next_window_id == context@.next_window_id
                &&& final(context)@.next_webview_id == context@.next_webview_id
                &&& final(context)@.next_window_event_id == context@.next_window_event_id
                &&& final(context)@.next_webview_event_id == context@.next_webview_event_id
            },
{
}

/// A runtime starts without windows and without a callback, and its first ids are one.
pub proof fn runtimes_start_empty(context: CefRuntimeContext)
    requires
        call_ensures(CefRuntimeContext::new, (), context),
    ensures
        forall|id: WindowId| !(#[trigger] context@.windows.contains_key(id)),
        !context.has_callback,
        context.next_window_id == 1 && context.next_webview_id == 1,
        context.next_window_event_id == 1 && context.next_webview_event_id == 1,
{
}

/// Whether an id comes right after another; zero comes after the largest.
pub open spec fn comes_after(next: u32, id: u32) -> bool {
    if id == u32::MAX {
        next == 0
    } else {
        next == id + 1
    }
}

/// An id that is taken is the next one of its kind, and the one right after it is the next from
/// then on. The ids of the other kinds, and the windows, stay as they were.
pub proof fn ids_are_taken_one_by_one()
    ensures
        forall|context: &mut CefRuntimeContext, id: WindowId| #[trigger]
            call_ensures(CefRuntimeContext::next_window_id, (context,), id) ==> {
                &&& id == context@.next_window_id
                &&& comes_after(final(context)@.next_window_id, id)
                &&& final(context)@ == ContextView {
                    next_window_id: final(context)@.next_window_id,
                    ..context@
                }
            },
        forall|context: &mut CefRuntimeContext, id: WebviewId| #[trigger]
            call_ensures(CefRuntimeContext::next_webview_id, (context,), id) ==> {
                &&& id == context@.next_webview_id
                &&& comes_after(final(context)@.next_webview_id, id)
                &&& final(context)@ == ContextView {
                    next_webview_id: final(context)@.next_webview_id,
                    ..context@
                }
            },
        forall|context: &mut CefRuntimeContext, id: u32| #[trigger]
            call_ensures(CefRuntimeContext::next_window_event_id, (context,), id) ==> {
                &&& id == context@.next_window_event_id
                &&& comes_after(final(context)@.next_window_event_id, id)
                &&& final(context)@ == ContextView {
                    next_window_event_id: final(context)@.next_window_event_id,
                    ..context@
                }
            },
        forall|context: &mut CefRuntimeContext, id: u32| #[trigger]
            call_ensures(CefRuntimeContext::next_webview_event_id, (context,), id) ==> {
                &&& id == context@.next_webview_event_id
                &&& comes_after(final(context)@.next_webview_event_id, id)
                &&& final(context)@ == ContextView {
                    next_webview_event_id: final(context)@.next_webview_event_id,
                    ..context@
                }
            },
{
}

/// The callback is told every event as it is, exactly where there is one: that the application is
/// ready on the first start alone, and that it is resumed.
pub proof fn events_are_told<T>(
    context: CefRuntimeContext,
    event: RunEvent<T>,
    call: Option<RunEvent<T>>,
)
    ensures
        call_ensures(CefRuntimeContext::run_callback::<T>, (&context, event), call) ==> {
            &&& context.has_callback ==> call == Some(event)
            &&& !context.has_callback ==> call is None
        },
        call_ensures(CefRuntimeContext::new_events::<T>, (&context, true), call) ==> {
            &&& context.has_callback ==> call == Some(RunEvent::<T>::Ready)
            &&& !context.has_callback ==> call is None
        },
        call_ensures(CefRuntimeContext::new_events::<T>, (&context, false), call) ==> call is None,
        call_ensures(CefRuntimeContext::resumed::<T>, (&context,), call) ==> {
            &&& context.has_callback ==> call == Some(RunEvent::<T>::Resumed)
            &&& !context.has_callback ==> call is None
        },
{
}

/// Whether a window was asked for: the message and the caller speak of the same ids, which no
/// later window or webview gets next, and the message carries what was asked for.
pub open spec fn is_asked_for<T>(
    before: ContextView,
    after: ContextView,
    pending: PendingWindow,
    after_window_creation: Option<HandlerId>,
    sent: Message<T>,
    window: DetachedWindow,
) -> bool {
    &&& sent is CreateWindow
    &&& sent->CreateWindow_pending == pending
    &&& sent->CreateWindow_after_window_creation == after_window_creation
    &&& sent->CreateWindow_window_id == window.id
    &&& window.id == before.next_window_id
    &&& comes_after(after.next_window_id, window.id)
    &&& window.dispatcher.window_id == window.id
    &&& window.label@ == pending.label@
    &&& window.webview is Some <==> pending.webview is Some
    &&& pending.webview is Some ==> {
        let webview = window.webview->0;
        &&& webview.webview.label@ == pending.label@
        &&& webview.webview.dispatcher.window_id == window.id
        &&& webview.webview.dispatcher.webview_id == sent->CreateWindow_webview_id
        &&& sent->CreateWindow_webview_id == before.next_webview_id
        &&& comes_after(after.next_webview_id, before.next_webview_id)
        &&& webview.use_https_scheme <==> pending.webview->0.webview_attributes.use_https_scheme
    }
    &&& pending.webview is None ==> sent->CreateWindow_webview_id == 0 && after.next_webview_id
        == before.next_webview_id
    &&& after.windows == before.windows
    &&& after.has_callback == before.has_callback
    &&& after.next_window_event_id == before.next_window_event_id
    &&& after.next_webview_event_id == before.next_webview_event_id
}

/// A window is asked for in the same way from the runtime, from its handle and from another window.
pub proof fn windows_are_asked_for_alike<T>(
    handle: CefRuntimeHandle,
    dispatcher: CefWindowDispatcher,
    pending: PendingWindow,
    then: Option<HandlerId>,
)
    ensures
        forall|context: &mut CefRuntimeContext, asked: (Message<T>, DetachedWindow)| #[trigger]
            call_ensures(CefRuntimeContext::create_window::<T>, (context, pending, then), asked)
                ==> is_asked_for(context@, final(context)@, pending, then, asked.0, asked.1),
        forall|context: &mut CefRuntimeContext, asked: (Message<T>, DetachedWindow)| #[trigger]
            call_ensures(
                CefRuntimeHandle::create_window::<T>,
                (&handle, context, pending, then),
                asked,
            ) ==> is_asked_for(context@, final(context)@, pending, then, asked.0, asked.1),
        forall|context: &mut CefRuntimeContext, asked: (Message<T>, DetachedWindow)| #[trigger]
            call_ensures(
                CefWindowDispatcher::create_window::<T>,
                (&dispatcher, context, pending, then),
                asked,
            ) ==> is_asked_for(context@, final(context)@, pending, then, asked.0, asked.1),
{
}

/// Whether a webview was asked for: the caller gets one under the next id, in the window and with
/// the label that were said, and it is planned exactly where the window is one of the system's.
pub open spec fn is_webview_asked_for(
    before: ContextView,
    after: ContextView,
    window_id: WindowId,
    pending: PendingWebview,
    devtools_built: bool,
    plan: Option<WebviewPlan>,
    webview: DetachedWebview,
) -> bool {
    &&& webview.label@ == pending.label@
    &&& webview.dispatcher.window_id == window_id
    &&& webview.dispatcher.webview_id == before.next_webview_id
    &&& comes_after(after.next_webview_id, before.next_webview_id)
    &&& after == ContextView { next_webview_id: after.next_webview_id, ..before }
    &&& plan is Some <==> before.windows.contains_key(window_id)
        && before.windows[window_id].window is Window
    &&& plan is Some ==> is_wanted_plan(
        plan->0,
        before.windows,
        WebviewKind::WindowChild,
        window_id,
        before.next_webview_id,
        pending,
        devtools_built,
    )
}

/// A webview is asked for in the same way from the runtime, from its handle and from its window.
pub proof fn webviews_are_asked_for_alike(
    handle: CefRuntimeHandle,
    dispatcher: CefWindowDispatcher,
    id: WindowId,
    pending: PendingWebview,
    built: bool,
)
    requires
        dispatcher.window_id == id,
    ensures
        forall|context: &mut CefRuntimeContext, asked: (Option<WebviewPlan>, DetachedWebview)|
            #[trigger] call_ensures(
                CefRuntimeContext::create_webview,
                (context, id, pending, built),
                asked,
            ) ==> is_webview_asked_for(
                context@,
                final(context)@,
                id,
                pending,
                built,
                asked.0,
                asked.1,
            ),
        forall|context: &mut CefRuntimeContext, asked: (Option<WebviewPlan>, DetachedWebview)|
            #[trigger] call_ensures(
                CefRuntimeHandle::create_webview,
                (&handle, context, id, pending, built),
                asked,
            ) ==> is_webview_asked_for(
                context@,
                final(context)@,
                id,
                pending,
                built,
                asked.0,
                asked.1,
            ),
        forall|context: &mut CefRuntimeContext, asked: (Option<WebviewPlan>, DetachedWebview)|
            #[trigger] call_ensures(
                CefWindowDispatcher::create_webview,
                (&dispatcher, context, pending, built),
                asked,
            ) ==> is_webview_asked_for(
                context@,
                final(context)@,
                id,
                pending,
                built,
                asked.0,
                asked.1,
            ),
{
}

/// A window that was opened stands under its id, and the webview that is its content is planned
/// for it exactly if it has one. The other windows stay as they were.
pub proof fn opened_windows_get_their_content(
    window_id: WindowId,
    webview_id: WebviewId,
    pending: PendingWindow,
    native: NativeWindowId,
    devtools_built: bool,
    other: WindowId,
)
    ensures
        forall|context: &mut CefRuntimeContext, plan: Option<WebviewPlan>| #[trigger]
            call_ensures(
                CefRuntimeContext::window_opened,
                (context, window_id, webview_id, pending, native, devtools_built),
                plan,
            ) ==> {
                let after = final(context)@;
                &&& after.windows.contains_key(window_id)
                &&& is_new_window(
                    after.windows[window_id],
                    pending.label,
                    pending.window_builder,
                )
                &&& after.windows[window_id].window == AppWindowKind::Window(native)
                &&& after.windows[window_id].webviews.len() == 0
                &&& other != window_id ==> after.windows[other] == context@.windows[other]
                &&& other != window_id ==> (after.windows.contains_key(other)
                    <==> context@.windows.contains_key(other))
                &&& after == ContextView { windows: after.windows, ..context@ }
                &&& plan is Some <==> pending.webview is Some
                &&& plan is Some ==> plan->0.native == native && is_wanted_plan(
                    plan->0,
                    after.windows,
                    WebviewKind::WindowContent,
                    window_id,
                    webview_id,
                    pending.webview->0,
                    devtools_built,
                )
            },
{
}

/// Whoever asks the event loop is told the answer as it is; an error where the question was not
/// sent, and another where no answer came.
pub proof fn questions_are_answered<V>(
    answer: Result<V, Error>,
    received: Option<Result<V, Error>>,
    error: Error,
    reply: Result<V, Error>,
)
    ensures
        call_ensures(getter_reply::<V>, (Ok::<(), Error>(()), Some(answer)), reply) ==> reply
            == answer,
        call_ensures(getter_reply::<V>, (Ok::<(), Error>(()), None::<Result<V, Error>>), reply)
            ==> reply == Err::<V, Error>(Error::FailedToReceiveMessage),
        call_ensures(getter_reply::<V>, (Err::<(), Error>(error), received), reply) ==> reply
            == Err::<V, Error>(error),
{
}

/// Sending a message succeeds exactly if the event loop took it, and then wakes the loop up. What
/// is sent for the application is what it meant.
pub proof fn messages_are_sent<T>(
    proxy: EventLoopProxy,
    handle: CefRuntimeHandle,
    delivered: bool,
    event: T,
    code: i32,
    task: HandlerId,
    outcome: Result<(), Error>,
)
    ensures
        forall|wakes: bool| #[trigger]
            call_ensures(EventLoopProxy::wakes_up, (&proxy, &outcome), wakes) ==> (wakes
                <==> outcome is Ok),
        forall|sent: Result<(), Error>, wakes: bool|
            #[trigger] call_ensures(EventLoopProxy::send_message, (&proxy, delivered), sent)
                && #[trigger] call_ensures(EventLoopProxy::wakes_up, (&proxy, &sent), wakes) ==> {
                &&& sent is Ok <==> delivered
                &&& wakes <==> delivered
                &&& sent is Err ==> sent->Err_0 == Error::FailedToSendMessage
            },
        forall|sent: Message<T>| #[trigger]
            call_ensures(EventLoopProxy::send_event::<T>, (&proxy, event), sent) ==> sent
                == Message::<T>::UserEvent(event),
        forall|sent: Message<T>| #[trigger]
            call_ensures(CefRuntimeHandle::request_exit::<T>, (&handle, code), sent) ==> sent
                == Message::<T>::RequestExit(code),
        forall|sent: Message<T>| #[trigger]
            call_ensures(CefRuntimeHandle::run_on_main_thread::<T>, (&handle, task), sent) ==> sent
                == Message::<T>::Task(task),
{
}

/// The display of each system has its own kind of handle, and the cursor is always at the origin.
pub proof fn displays_are_told_apart(
    handle: CefRuntimeHandle,
    kind: DisplayHandleKind,
    position: Result<CursorPosition, Error>,
)
    ensures
        call_ensures(CefRuntimeHandle::display_handle, (&handle, Platform::Linux), kind) ==> kind
            == DisplayHandleKind::Xlib,
        call_ensures(CefRuntimeHandle::display_handle, (&handle, Platform::MacOs), kind) ==> kind
            == DisplayHandleKind::AppKit,
        call_ensures(CefRuntimeHandle::display_handle, (&handle, Platform::Windows), kind) ==> kind
            == DisplayHandleKind::Windows,
        call_ensures(CefRuntimeHandle::cursor_position, (&handle,), position) ==> {
            &&& position is Ok
            &&& position->Ok_0.x.bits == 0
            &&& position->Ok_0.y.bits == 0
        },
{
}

/// An event of a window is told to everyone who listens to that window and to no one else, each
/// once, and then to the application with the label of the window. It is lost where the window is
/// not there.
pub proof fn window_events_are_told<T>(
    windows: Windows,
    id: WindowId,
    event: WindowEvent,
    sent: Option<Delivery<T>>,
)
    ensures
        call_ensures(send_window_event::<T>, (None::<&Windows>, id, event), sent) ==> sent is None,
        call_ensures(send_window_event::<T>, (Some(&windows), id, event), sent) ==> {
            let heard = windows@[id].window_event_listeners;
            let called = sent->0.listeners@;
            &&& sent is Some <==> windows@.contains_key(id)
            &&& sent is Some ==> {
                &&& sent->0.event == event
                &&& sent->0.run_event is WindowEvent
                &&& sent->0.run_event->label@ == windows@[id].label@
                &&& sent->0.run_event->WindowEvent_event == event
                &&& forall|listener: u32|
                    heard.contains_key(listener) ==> #[trigger] called.contains(
                        (listener, heard[listener]),
                    )
                &&& forall|index: int|
                    0 <= index < called.len() ==> heard.contains_key((#[trigger] called[index]).0)
                        && heard[called[index].0] == called[index].1
                &&& forall|left: int, right: int|
                    0 <= left < right < called.len() ==> called[left].0 != called[right].0
            }
        },
{
}

/// A window that the user wants closed closes without asking again exactly where no listener
/// answered that it stays open. Nothing else changes.
pub proof fn closing_can_be_prevented(id: WindowId, prevent: Option<bool>, other: WindowId)
    ensures
        forall|windows: &mut Windows| #[trigger]
            call_ensures(on_close_requested, (windows, id, prevent), ()) ==> {
                let after = final(windows)@;
                &&& prevent == Some(true) ==> after == windows@
                &&& windows@.contains_key(id) && prevent != Some(true) ==> after[id] == WindowView {
                    force_close: true,
                    ..windows@[id]
                }
                &&& other != id ==> after[other] == windows@[other]
                &&& after.contains_key(other) <==> windows@.contains_key(other)
            },
{
}

/// A window that was destroyed is gone, and all others stay as they were. The application is about
/// to exit, without a code, exactly if it was the last one.
pub proof fn the_last_window_ends_the_application<T>(id: WindowId, other: WindowId)
    ensures
        forall|windows: &mut Windows, event: Option<RunEvent<T>>| #[trigger]
            call_ensures(on_window_destroyed::<T>, (windows, id), event) ==> {
                let after = final(windows)@;
                &&& !after.contains_key(id)
                &&& other != id ==> after[other] == windows@[other]
                &&& other != id ==> (after.contains_key(other) <==> windows@.contains_key(other))
                &&& event is Some ==> {
                    &&& event->0 matches RunEvent::ExitRequested { code }
                    &&& code is None
                }
                &&& event is Some ==> windows@.contains_key(id)
                &&& other != id && windows@.contains_key(other) ==> event is None
                &&& windows@.contains_key(id) && (forall|left: WindowId| #[trigger]
                    windows@.contains_key(left) ==> left == id) ==> event is Some
            },
{
    assert forall|windows: &mut Windows, event: Option<RunEvent<T>>| #[trigger]
        call_ensures(on_window_destroyed::<T>, (windows, id), event) implies (other != id
        && windows@.contains_key(other) ==> event is None) && (windows@.contains_key(id) && (
    forall|left: WindowId| #[trigger] windows@.contains_key(left) ==> left == id) ==> event
        is Some) by {
        let after = windows@.remove(id);
        if other != id && windows@.contains_key(other) {
            assert(after.contains_key(other));
        }
        if forall|left: WindowId| #[trigger] windows@.contains_key(left) ==> left == id {
            assert(after.dom() =~= Set::empty());
        }
    }
}

/// The application exits once it asked, unless that was prevented.
pub proof fn exits_can_be_prevented<T>(event: Option<RunEvent<T>>)
    ensures
        call_ensures(
            exit_after_reply::<T>,
            (Some(ExitRequestedEventAction::Prevent),),
            event,
        ) ==> event is None,
        call_ensures(exit_after_reply::<T>, (None::<ExitRequestedEventAction>,), event) ==> event
            == Some(RunEvent::<T>::Exit),
{
}

} // verus!
