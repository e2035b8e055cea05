//! The state of a runtime, and the messages that its event loop handles.
use vstd::prelude::*;

use crate::error::Error;
use crate::geometry::Float64;
use crate::webview::{
    has_chrome, single_chrome, BrowserId, HandlerId, NativeWindowId, RuntimeStyle, Webview,
    WebviewId, WebviewKind, WindowId,
};
use crate::webview_create::{
    create_webview, create_window, is_webview_plan, opened_window, with_webview, PendingWebview,
    WebviewPlan,
};
use crate::webview_dispatcher::CefWebviewDispatcher;
use crate::webview_message::{
    can_handle_webview, handle_webview_message, single_chrome_is_kept, webview_effect,
    windows_after_webview, WebviewEffect, WebviewMessage,
};
use crate::window::{all_webviews, webviews_are_wf, WindowView, Windows};
use crate::window_builder::{CefWindowBuilder, Platform};
use crate::window_dispatcher::CefWindowDispatcher;
use crate::window_event::RunEvent;
use crate::window_message::{
    can_handle, handle_window_message, window_effect, windows_after, WindowEffect, WindowMessage,
};

verus! {

/// A window that is still to be opened, with the webview that is its content.
#[derive(Debug)]
pub struct PendingWindow {
    pub label: String,
    pub window_builder: CefWindowBuilder,
    pub webview: Option<PendingWebview>,
}

impl PendingWindow {
    /// Every scheme of the webview has one handler.
    pub open spec fn wf(self) -> bool {
        self.webview matches Some(webview) ==> webview.wf()
    }
}

/// A message to the event loop.
#[derive(Debug)]
pub enum Message<T> {
    /// Run a function of the application.
    Task(HandlerId),
    CreateWindow {
        window_id: WindowId,
        /// The id of the webview that is the window's content; zero where there is none.
        webview_id: WebviewId,
        pending: PendingWindow,
        after_window_creation: Option<HandlerId>,
    },
    CreateWebview { window_id: WindowId, webview_id: WebviewId, pending: PendingWebview },
    Window { window_id: WindowId, message: WindowMessage },
    Webview { window_id: WindowId, webview_id: WebviewId, message: WebviewMessage },
    RequestExit(i32),
    UserEvent(T),
}

impl<T: Clone> Message<T> {
    /// A copy of the message. Only messages that carry an event of the application have one.
    pub fn duplicate(&self) -> (copy: Self)
        requires
            self is UserEvent,
        ensures
            copy is UserEvent,
            cloned(self->UserEvent_0, copy->UserEvent_0),
    {
        match self {
            Message::UserEvent(event) => Message::UserEvent(event.clone()),
            _ => vstd::pervasive::unreached(),
        }
    }
}

/// Where messages to the event loop are sent.
#[derive(Debug, Clone, Copy, PartialEq, Eq, Structural)]
pub struct EventLoopProxy;

impl EventLoopProxy {
    /// What sending a message comes to: an error where the event loop no longer takes
    /// messages.
    ///
    /// `delivered` says whether the event loop took the message.
    pub fn send_message(&self, delivered: bool) -> (sent: Result<(), Error>)
        ensures
            sent == (if delivered {
                Ok::<(), Error>(())
            } else {
                Err::<(), Error>(Error::FailedToSendMessage)
            }),
    {
        if delivered {
            Ok(())
        } else {
            Err(Error::FailedToSendMessage)
        }
    }

    /// Whether the event loop is woken up after a message: exactly where it was sent.
    pub fn wakes_up(&self, sent: &Result<(), Error>) -> (wakes: bool)
        ensures
            wakes == (sent is Ok),
    {
        sent.is_ok()
    }

    /// The message that carries an event of the application.
    pub fn send_event<T>(&self, event: T) -> (message: Message<T>)
        ensures
            message == Message::UserEvent(event),
    {
        Message::UserEvent(event)
    }
}

/// What a question to the event loop comes to: an error where it could not be sent, or where
/// no answer came, and otherwise the answer.
pub fn getter_reply<V>(sent: Result<(), Error>, received: Option<Result<V, Error>>) -> (reply:
    Result<V, Error>)
    ensures
        reply == (match (sent, received) {
            (Err(error), _) => Err::<V, Error>(error),
            (Ok(_), None) => Err::<V, Error>(Error::FailedToReceiveMessage),
            (Ok(_), Some(answer)) => answer,
        }),
{
    match (sent, received) {
        (Err(error), _) => Err(error),
        (Ok(_), None) => Err(Error::FailedToReceiveMessage),
        (Ok(_), Some(answer)) => answer,
    }
}

/// A window that was asked for.
#[derive(Debug)]
pub struct DetachedWindow {
    pub id: WindowId,
    pub label: String,
    pub dispatcher: CefWindowDispatcher,
    pub webview: Option<DetachedWindowWebview>,
}

/// The webview that is the content of a window that was asked for.
#[derive(Debug)]
pub struct DetachedWindowWebview {
    pub webview: DetachedWebview,
    pub use_https_scheme: bool,
}

/// A webview that was asked for.
#[derive(Debug)]
pub struct DetachedWebview {
    pub label: String,
    pub dispatcher: CefWebviewDispatcher,
}

/// The state of a runtime.
#[derive(Debug)]
pub struct CefRuntimeContext {
    pub windows: Windows,
    /// Whether the application has given its callback.
    pub has_callback: bool,
    pub next_window_id: u32,
    pub next_webview_id: u32,
    pub next_window_event_id: u32,
    pub next_webview_event_id: u32,
}

/// What a runtime knows.
#[verifier::ext_equal]
pub ghost struct ContextView {
    pub windows: Map<WindowId, WindowView>,
    pub has_callback: bool,
    pub next_window_id: u32,
    pub next_webview_id: u32,
    pub next_window_event_id: u32,
    pub next_webview_event_id: u32,
}

impl View for CefRuntimeContext {
    type V = ContextView;

    open spec fn view(&self) -> ContextView {
        ContextView {
            windows: self.windows@,
            has_callback: self.has_callback,
            next_window_id: self.next_window_id,
            next_webview_id: self.next_webview_id,
            next_window_event_id: self.next_window_event_id,
            next_webview_event_id: self.next_webview_event_id,
        }
    }
}

/// The id that comes `steps` after `id`; after the largest comes zero.
pub open spec fn id_after(id: u32, steps: nat) -> u32 {
    ((id + steps) % 0x1_0000_0000) as u32
}

fn increment(id: u32) -> (next: u32)
    ensures
        next == id_after(id, 1),
{
    if id == u32::MAX {
        0
    } else {
        id + 1
    }
}

/// What is to be done about a message to the event loop.
#[derive(Debug)]
pub enum Effect<T> {
    Nothing,
    /// Open a window of the system and hand it to `window_opened`.
    OpenWindow { window_id: WindowId, webview_id: WebviewId, pending: PendingWindow },
    /// Create a browser and hand it to `add_webview`.
    CreateBrowser(WebviewPlan),
    Window(WindowEffect),
    Webview(WebviewEffect),
    /// Tell the callback that the application is about to exit, and then what
    /// `exit_after_reply` makes of its reply.
    RequestExit(RunEvent<T>),
    /// Tell the callback.
    Callback(RunEvent<T>),
    RunTask(HandlerId),
}

/// The event, where the application has given its callback.
pub open spec fn told<T>(context: ContextView, event: RunEvent<T>) -> Option<RunEvent<T>> {
    if context.has_callback {
        Some(event)
    } else {
        None
    }
}

/// Whether the message can be handled: a browser window cannot be opened by one, and what is
/// asked of a window or a webview must be possible.
pub open spec fn can_handle_message<T>(context: ContextView, message: Message<T>) -> bool {
    match message {
        Message::CreateWindow { pending, .. } => !pending.window_builder.browser_window
            && pending.wf(),
        Message::CreateWebview { pending, .. } => pending.wf(),
        Message::Window { window_id, message } => can_handle(context.windows, window_id, message),
        Message::Webview { window_id, webview_id, message } => can_handle_webview(
            context.windows,
            window_id,
            webview_id,
            message,
        ),
        _ => true,
    }
}

/// The runtime after a message to its event loop.
pub open spec fn context_after<T>(context: ContextView, message: Message<T>) -> ContextView {
    match message {
        Message::Window { window_id, message } => ContextView {
            windows: windows_after(context.windows, window_id, message),
            ..context
        },
        Message::Webview { window_id, webview_id, message } => ContextView {
            windows: windows_after_webview(context.windows, window_id, webview_id, message),
            ..context
        },
        _ => context,
    }
}

/// Whether this is what is to be done about a message to the event loop.
pub open spec fn is_effect<T>(
    effect: Effect<T>,
    context: ContextView,
    message: Message<T>,
    devtools_built: bool,
) -> bool {
    match message {
        Message::Task(task) => effect == Effect::<T>::RunTask(task),
        Message::CreateWindow { window_id, webview_id, pending, .. } => effect == (Effect::<
            T,
        >::OpenWindow { window_id, webview_id, pending }),
        Message::CreateWebview { window_id, webview_id, pending } => {
            &&& effect is Nothing || effect is CreateBrowser
            &&& is_webview_plan(
                match effect {
                    Effect::CreateBrowser(plan) => Some(plan),
                    _ => None,
                },
                context.windows,
                WebviewKind::WindowChild,
                window_id,
                webview_id,
                pending,
                devtools_built,
            )
        },
        Message::Window { window_id, message } => effect == Effect::<T>::Window(
            window_effect(context.windows, window_id, message),
        ),
        Message::Webview { window_id, webview_id, message } => effect == Effect::<T>::Webview(
            webview_effect(context.windows, window_id, webview_id, message),
        ),
        Message::RequestExit(code) => effect == (match told::<T>(
            context,
            RunEvent::ExitRequested { code: Some(code) },
        ) {
            Some(event) => Effect::<T>::RequestExit(event),
            None => Effect::<T>::Nothing,
        }),
        Message::UserEvent(event) => effect == (match told(context, RunEvent::UserEvent(event)) {
            Some(event) => Effect::<T>::Callback(event),
            None => Effect::<T>::Nothing,
        }),
    }
}

/// Whether this is what asking for a window comes to: it gets the next id, and so does the webview
/// where it has one, which then has the window's label.
pub open spec fn is_window_asked<T>(
    before: ContextView,
    after: ContextView,
    pending: PendingWindow,
    after_window_creation: Option<HandlerId>,
    asked: (Message<T>, DetachedWindow),
) -> bool {
    &&& after == ContextView {
        next_window_id: id_after(before.next_window_id, 1),
        next_webview_id: if pending.webview is Some {
            id_after(before.next_webview_id, 1)
        } else {
            before.next_webview_id
        },
        ..before
    }
    &&& asked.0 == Message::<T>::CreateWindow {
        window_id: before.next_window_id,
        webview_id: if pending.webview is Some {
            before.next_webview_id
        } else {
            0
        },
        pending,
        after_window_creation,
    }
    &&& asked.1 == DetachedWindow {
        id: before.next_window_id,
        label: pending.label,
        dispatcher: CefWindowDispatcher { window_id: before.next_window_id },
        webview: match pending.webview {
            Some(webview) => Some(
                DetachedWindowWebview {
                    webview: DetachedWebview {
                        label: pending.label,
                        dispatcher: CefWebviewDispatcher {
                            window_id: before.next_window_id,
                            webview_id: before.next_webview_id,
                        },
                    },
                    use_https_scheme: webview.webview_attributes.use_https_scheme,
                },
            ),
            None => None,
        },
    }
}

/// Whether this is what asking for a webview that shares its window comes to: it gets the next
/// id, and the caller gets a webview even where the window takes none.
pub open spec fn is_webview_asked(
    before: ContextView,
    after: ContextView,
    window_id: WindowId,
    pending: PendingWebview,
    devtools_built: bool,
    asked: (Option<WebviewPlan>, DetachedWebview),
) -> bool {
    &&& after == ContextView { next_webview_id: id_after(before.next_webview_id, 1), ..before }
    &&& is_webview_plan(
        asked.0,
        before.windows,
        WebviewKind::WindowChild,
        window_id,
        before.next_webview_id,
        pending,
        devtools_built,
    )
    &&& asked.1 == DetachedWebview {
        label: pending.label,
        dispatcher: CefWebviewDispatcher { window_id, webview_id: before.next_webview_id },
    }
}

impl CefRuntimeContext {
    /// A runtime without windows and without a callback; the first id of everything is one.
    pub fn new() -> (context: Self)
        ensures
            context@ == (ContextView {
                windows: Map::empty(),
                has_callback: false,
                next_window_id: 1,
                next_webview_id: 1,
                next_window_event_id: 1,
                next_webview_event_id: 1,
            }),
            ids_were_taken(context@),
            webviews_are_wf(context@.windows),
    {
        CefRuntimeContext {
            windows: Windows::new(),
            has_callback: false,
            next_window_id: 1,
            next_webview_id: 1,
            next_window_event_id: 1,
            next_webview_event_id: 1,
        }
    }

    /// Takes the next id of a window.
    pub fn next_window_id(&mut self) -> (id: WindowId)
        ensures
            id == old(self)@.next_window_id,
            final(self)@ == (ContextView { next_window_id: id_after(id, 1), ..old(self)@ }),
    {
        let id: WindowId = self.next_window_id;
        self.next_window_id = increment(id);
        id
    }

    /// Takes the next id of a webview.
    pub fn next_webview_id(&mut self) -> (id: WebviewId)
        ensures
            id == old(self)@.next_webview_id,
            final(self)@ == (ContextView { next_webview_id: id_after(id, 1), ..old(self)@ }),
    {
        let id: WebviewId = self.next_webview_id;
        self.next_webview_id = increment(id);
        id
    }

    /// Takes the next id of a listener to windows.
    pub fn next_window_event_id(&mut self) -> (id: u32)
        ensures
            id == old(self)@.next_window_event_id,
            final(self)@ == (ContextView { next_window_event_id: id_after(id, 1), ..old(self)@ }),
    {
        let id: u32 = self.next_window_event_id;
        self.next_window_event_id = increment(id);
        id
    }

    /// Takes the next id of a listener to webviews.
    pub fn next_webview_event_id(&mut self) -> (id: u32)
        ensures
            id == old(self)@.next_webview_event_id,
            final(self)@ == (ContextView { next_webview_event_id: id_after(id, 1), ..old(self)@ }),
    {
        let id: u32 = self.next_webview_event_id;
        self.next_webview_event_id = increment(id);
        id
    }

    /// The event that the callback is called with: none where the application has given no
    /// callback.
    pub fn run_callback<T>(&self, event: RunEvent<T>) -> (call: Option<RunEvent<T>>)
        ensures
            call == told(self@, event),
    {
        if self.has_callback {
            Some(event)
        } else {
            None
        }
    }

    /// What the callback is told when the event loop wakes up: on its first start, that the
    /// application is ready.
    pub fn new_events<T>(&self, first_start: bool) -> (call: Option<RunEvent<T>>)
        ensures
            call == (if first_start {
                told::<T>(self@, RunEvent::Ready)
            } else {
                None
            }),
    {
        if first_start {
            self.run_callback(RunEvent::Ready)
        } else {
            None
        }
    }

    /// What the callback is told when the application is resumed.
    pub fn resumed<T>(&self) -> (call: Option<RunEvent<T>>)
        ensures
            call == told::<T>(self@, RunEvent::Resumed),
    {
        self.run_callback(RunEvent::Resumed)
    }

    /// Asks for a window: the message to send, and the window as the caller sees it once the
    /// message was sent.
    ///
    /// The window gets the next id, and so does the webview where it has one, which then has
    /// the window's label.
    pub fn create_window<T>(
        &mut self,
        pending: PendingWindow,
        after_window_creation: Option<HandlerId>,
    ) -> (asked: (Message<T>, DetachedWindow))
        ensures
            is_window_asked(
                old(self)@,
                final(self)@,
                pending,
                after_window_creation,
                asked,
            ),
    {
        let label = pending.label.clone();
        let id = self.next_window_id();
        let content = match &pending.webview {
            Some(webview) => Some(
                (self.next_webview_id(), webview.webview_attributes.use_https_scheme),
            ),
            None => None,
        };
        let webview_id: WebviewId = match content {
            Some((webview_id, _)) => webview_id,
            None => 0,
        };
        let webview = match content {
            Some((webview_id, use_https_scheme)) => Some(
                DetachedWindowWebview {
                    webview: DetachedWebview {
                        label: label.clone(),
                        dispatcher: CefWebviewDispatcher { window_id: id, webview_id },
                    },
                    use_https_scheme,
                },
            ),
            None => None,
        };
        let message = Message::CreateWindow {
            window_id: id,
            webview_id,
            pending,
            after_window_creation,
        };
        let detached = DetachedWindow {
            id,
            label,
            dispatcher: CefWindowDispatcher { window_id: id },
            webview,
        };
        (message, detached)
    }

    /// Asks for a webview that shares its window: its plan, and the webview as the caller sees
    /// it. The caller gets one even where the window takes no webviews.
    pub fn create_webview(
        &mut self,
        window_id: WindowId,
        pending: PendingWebview,
        devtools_built: bool,
    ) -> (asked: (Option<WebviewPlan>, DetachedWebview))
        requires
            pending.wf(),
        ensures
            is_webview_asked(
                old(self)@,
                final(self)@,
                window_id,
                pending,
                devtools_built,
                asked,
            ),
    {
        let label = pending.label.clone();
        let webview_id = self.next_webview_id();
        let plan = create_webview(
            &self.windows,
            WebviewKind::WindowChild,
            window_id,
            webview_id,
            pending,
            devtools_built,
        );
        (plan, DetachedWebview { label, dispatcher: CefWebviewDispatcher { window_id, webview_id } })
    }

    /// Ends the opening of a window, once the window of the system is there: it is added, and
    /// the webview that is its content is planned.
    pub fn window_opened(
        &mut self,
        window_id: WindowId,
        webview_id: WebviewId,
        pending: PendingWindow,
        native: NativeWindowId,
        devtools_built: bool,
    ) -> (plan: Option<WebviewPlan>)
        requires
            !pending.window_builder.browser_window,
            pending.wf(),
        ensures
            final(self)@ == (ContextView {
                windows: old(self)@.windows.insert(
                    window_id,
                    opened_window(pending.label, pending.window_builder, native),
                ),
                ..old(self)@
            }),
            match pending.webview {
                Some(webview) => plan is Some && is_webview_plan(
                    plan,
                    final(self)@.windows,
                    WebviewKind::WindowContent,
                    window_id,
                    webview_id,
                    webview,
                    devtools_built,
                ),
                None => plan is None,
            },
    {
        create_window(
            &mut self.windows,
            window_id,
            pending.label,
            pending.window_builder,
            native,
        );
        match pending.webview {
            Some(webview) => create_webview(
                &self.windows,
                WebviewKind::WindowContent,
                window_id,
                webview_id,
                webview,
                devtools_built,
            ),
            None => None,
        }
    }
}

/// Handles a message to the event loop.
pub fn handle_message<T>(
    context: &mut CefRuntimeContext,
    message: Message<T>,
    devtools_built: bool,
) -> (effect: Effect<T>)
    requires
        can_handle_message(old(context)@, message),
    ensures
        is_effect(effect, old(context)@, message, devtools_built),
        final(context)@ == context_after(old(context)@, message),
{
    match message {
        Message::CreateWindow { window_id, webview_id, pending, .. } => Effect::OpenWindow {
            window_id,
            webview_id,
            pending,
        },
        Message::CreateWebview { window_id, webview_id, pending } => match create_webview(
            &context.windows,
            WebviewKind::WindowChild,
            window_id,
            webview_id,
            pending,
            devtools_built,
        ) {
            Some(plan) => Effect::CreateBrowser(plan),
            None => Effect::Nothing,
        },
        Message::Window { window_id, message } => Effect::Window(
            handle_window_message(&mut context.windows, window_id, message),
        ),
        Message::Webview { window_id, webview_id, message } => Effect::Webview(
            handle_webview_message(&mut context.windows, window_id, webview_id, message),
        ),
        Message::RequestExit(code) => match context.run_callback(
            RunEvent::ExitRequested { code: Some(code) },
        ) {
            Some(event) => Effect::RequestExit(event),
            None => Effect::Nothing,
        },
        Message::Task(task) => Effect::RunTask(task),
        Message::UserEvent(event) => match context.run_callback(RunEvent::UserEvent(event)) {
            Some(event) => Effect::Callback(event),
            None => Effect::Nothing,
        },
    }
}

/// A point of the screen, in physical pixels.
#[derive(Debug, Clone, Copy, PartialEq, Eq, Structural)]
pub struct CursorPosition {
    pub x: Float64,
    pub y: Float64,
}

/// The kind of handle that the display of a system has.
#[derive(Debug, Clone, Copy, PartialEq, Eq, Structural)]
pub enum DisplayHandleKind {
    /// The default screen of an X server that is not named.
    Xlib,
    AppKit,
    Windows,
}

/// The runtime, as the application holds it.
#[derive(Debug, Clone, Copy, PartialEq, Eq, Structural)]
pub struct CefRuntimeHandle;

impl CefRuntimeHandle {
    /// Asks the event loop to exit with a code.
    pub fn request_exit<T>(&self, code: i32) -> (message: Message<T>)
        ensures
            message == Message::<T>::RequestExit(code),
    {
        Message::RequestExit(code)
    }

    /// Asks for a window.
    pub fn create_window<T>(
        &self,
        context: &mut CefRuntimeContext,
        pending: PendingWindow,
        after_window_creation: Option<HandlerId>,
    ) -> (asked: (Message<T>, DetachedWindow))
        ensures
            is_window_asked(
                old(context)@,
                final(context)@,
                pending,
                after_window_creation,
                asked,
            ),
    {
        context.create_window(pending, after_window_creation)
    }

    /// Asks for a webview that shares a window.
    pub fn create_webview(
        &self,
        context: &mut CefRuntimeContext,
        window_id: WindowId,
        pending: PendingWebview,
        devtools_built: bool,
    ) -> (asked: (Option<WebviewPlan>, DetachedWebview))
        requires
            pending.wf(),
        ensures
            is_webview_asked(
                old(context)@,
                final(context)@,
                window_id,
                pending,
                devtools_built,
                asked,
            ),
    {
        context.create_webview(window_id, pending, devtools_built)
    }

    /// Asks the event loop to run a function of the application.
    pub fn run_on_main_thread<T>(&self, task: HandlerId) -> (message: Message<T>)
        ensures
            message == Message::<T>::Task(task),
    {
        Message::Task(task)
    }

    /// The kind of handle that the display has, on the systems that have one.
    pub fn display_handle(&self, platform: Platform) -> (kind: DisplayHandleKind)
        requires
            !(platform is Other),
        ensures
            kind == (match platform {
                Platform::Linux => DisplayHandleKind::Xlib,
                Platform::MacOs => DisplayHandleKind::AppKit,
                _ => DisplayHandleKind::Windows,
            }),
    {
        match platform {
            Platform::Linux => DisplayHandleKind::Xlib,
            Platform::MacOs => DisplayHandleKind::AppKit,
            _ => DisplayHandleKind::Windows,
        }
    }

    /// The position of the cursor: always the origin.
    pub fn cursor_position(&self) -> (position: Result<CursorPosition, Error>)
        ensures
            position == Ok::<CursorPosition, Error>(
                CursorPosition { x: Float64 { bits: 0 }, y: Float64 { bits: 0 } },
            ),
    {
        Ok(CursorPosition { x: Float64 { bits: 0 }, y: Float64 { bits: 0 } })
    }
}

/// Ids that are taken one after the other are distinct, for as long as fewer than 2^32 are
/// taken.
pub proof fn ids_are_distinct(first: u32, left: nat, right: nat)
    requires
        left < right < 0x1_0000_0000,
    ensures
        id_after(first, left) != id_after(first, right),
        id_after(id_after(first, left), 1) == id_after(first, left + 1),
{
}

/// No message but those to a window or a webview changes what the runtime knows, and none
/// opens or closes a window by itself.
pub proof fn messages_keep_the_windows_open<T>(context: ContextView, message: Message<T>)
    ensures
        context_after(context, message).windows.dom() == context.windows.dom(),
        context_after(context, message).next_window_id == context.next_window_id,
        context_after(context, message).next_webview_id == context.next_webview_id,
        !(message is Window) && !(message is Webview) ==> context_after(context, message)
            == context,
{
    assert(context_after(context, message).windows.dom() =~= context.windows.dom());
}

/// Without a callback, neither an event of the application nor a request to exit has an effect.
pub proof fn nothing_is_told_without_callback<T>(
    context: ContextView,
    message: Message<T>,
    effect: Effect<T>,
    devtools_built: bool,
)
    requires
        !context.has_callback,
        is_effect(effect, context, message, devtools_built),
        message is RequestExit || message is UserEvent,
    ensures
        effect == Effect::<T>::Nothing,
{
}

/// Without an attribute that says otherwise, no message plans a browser with the Chrome runtime:
/// only the content of a window that is being opened has it, and a window has one content.
pub proof fn messages_plan_alloy_browsers<T>(
    context: ContextView,
    window_id: WindowId,
    webview_id: WebviewId,
    pending: PendingWebview,
    effect: Effect<T>,
    devtools_built: bool,
)
    requires
        pending.platform_specific_attributes@.len() == 0,
        is_effect(
            effect,
            context,
            Message::CreateWebview { window_id, webview_id, pending },
            devtools_built,
        ),
    ensures
        effect matches Effect::CreateBrowser(plan) ==> plan.runtime_style == RuntimeStyle::Alloy,
{
}

/// A window that was asked for can be told to do things as soon as it is open: what stands
/// under its id is the window of the system that was opened for it.
pub proof fn opened_window_is_reached(
    windows: Map<WindowId, WindowView>,
    id: WindowId,
    label: String,
    window_builder: CefWindowBuilder,
    native: NativeWindowId,
    message: WindowMessage,
)
    requires
        message.spec_command() is Some,
    ensures
        window_effect(
            windows.insert(id, opened_window(label, window_builder, native)),
            id,
            message,
        ) == WindowEffect::Command(native, message.spec_command()->0),
{
}

/// Whether the id of a webview comes before another.
pub open spec fn id_is_below(next: WebviewId) -> spec_fn(Webview) -> bool {
    |webview: Webview| webview.webview_id < next
}

/// Whether the ids of all windows and webviews were taken before the next ones.
pub open spec fn ids_were_taken(context: ContextView) -> bool {
    &&& forall|id: WindowId| #[trigger]
        context.windows.contains_key(id) ==> id < context.next_window_id
    &&& all_webviews(context.windows, id_is_below(context.next_webview_id))
}

/// A webview that was planned for a window, whatever was asked for, can be added to it: at most
/// one browser of the window has the Chrome runtime then, if that was so before.
pub proof fn planned_webview_keeps_chrome_single(
    plan: WebviewPlan,
    windows: Map<WindowId, WindowView>,
    kind: WebviewKind,
    window_id: WindowId,
    webview_id: WebviewId,
    pending: PendingWebview,
    devtools_built: bool,
    browser: BrowserId,
)
    requires
        is_webview_plan(
            Some(plan),
            windows,
            kind,
            window_id,
            webview_id,
            pending,
            devtools_built,
        ),
        single_chrome(windows[window_id].webviews),
    ensures
        plan.browser.webview.runtime_style == Some(RuntimeStyle::Chrome) ==> !has_chrome(
            windows[window_id].webviews,
        ),
        single_chrome(
            with_webview(
                windows,
                window_id,
                plan.browser.webview.webview_with(Some(browser), browser),
            )[window_id].webviews,
        ),
{
    let before = windows[window_id].webviews;
    let webview = plan.browser.webview.webview_with(Some(browser), browser);
    let after = with_webview(windows, window_id, webview)[window_id].webviews;
    assert forall|index: int| 0 <= index < before.len() implies #[trigger] after[index]
        == before[index] by {}
}

/// No message gives a second browser of any window the Chrome runtime.
pub proof fn messages_keep_chrome_single<T>(context: ContextView, message: Message<T>, id: WindowId)
    requires
        single_chrome(context.windows[id].webviews),
    ensures
        single_chrome(context_after(context, message).windows[id].webviews),
{
    if let Message::Webview { window_id, webview_id, message } = message {
        single_chrome_is_kept(context.windows[id], webview_id, message);
    }
}

} // verus!
