//! Speaks to a window from anywhere.
use vstd::prelude::*;

use crate::color::Color;
use crate::context::{
    id_after, is_webview_asked, is_window_asked, CefRuntimeContext, ContextView, DetachedWebview,
    DetachedWindow, Message, PendingWindow,
};
use crate::error::{Error, HandleError};
use crate::geometry::{Float64, Position, Size, WindowSizeConstraints};
use crate::webview::{HandlerId, WindowId};
use crate::webview_create::{PendingWebview, WebviewPlan};
use crate::window_builder::{Icon, Theme, TitleBarStyle};
use crate::window_message::{
    CursorIcon, ProgressBarState, RawHandle, ResizeDirection, UserAttentionType, WindowMessage,
};

verus! {

/// Speaks to a window by messages to the event loop.
///
/// Each method gives the message to send; what an answer comes to, `getter_reply` says.
#[derive(Debug, Clone, Copy, PartialEq, Eq, Structural)]
pub struct CefWindowDispatcher {
    pub window_id: WindowId,
}

/// What asking for the raw handle of a window comes to: the handle is unavailable where the
/// question could not be sent, or where no answer came.
pub fn window_handle_reply(
    sent: Result<(), Error>,
    received: Option<Result<RawHandle, HandleError>>,
) -> (handle: Result<RawHandle, HandleError>)
    ensures
        handle == (match (sent, received) {
            (Ok(_), Some(handle)) => handle,
            _ => Err::<RawHandle, HandleError>(HandleError::Unavailable),
        }),
{
    match (sent, received) {
        (Ok(_), Some(handle)) => handle,
        _ => Err(HandleError::Unavailable),
    }
}

impl CefWindowDispatcher {
    /// Asks the event loop to run a function of the application.
    pub fn run_on_main_thread<T>(&self, task: HandlerId) -> (message: Message<T>)
        ensures
            message == Message::<T>::Task(task),
    {
        Message::Task(task)
    }

    /// Adds a listener for the events of the window, under the next id.
    pub fn on_window_event<T>(&self, context: &mut CefRuntimeContext, handler: HandlerId) -> (added:
        (u32, Message<T>))
        ensures
            added.0 == old(context)@.next_window_event_id,
            added.1 == (Message::<T>::Window {
                window_id: self.window_id,
                message: WindowMessage::AddEventListener(added.0, handler),
            }),
            final(context)@ == (ContextView {
                next_window_event_id: id_after(added.0, 1),
                ..old(context)@
            }),
    {
        let event_id = context.next_window_event_id();
        let message = Message::Window {
            window_id: self.window_id,
            message: WindowMessage::AddEventListener(event_id, handler),
        };
        (event_id, message)
    }

    /// Asks for another window.
    pub fn create_window<T>(
        &self,
        context: &mut CefRuntimeContext,
        pending: PendingWindow,
        after_window_creation: Option<HandlerId>,
    ) -> (asked: (Message<T>, DetachedWindow))
        ensures
            is_window_asked(
                old(context)@,
                final(context)@,
                pending,
                after_window_creation,
                asked,
            ),
    {
        context.create_window(pending, after_window_creation)
    }

    /// Asks for a webview that shares the window.
    pub fn create_webview(
        &self,
        context: &mut CefRuntimeContext,
        pending: PendingWebview,
        devtools_built: bool,
    ) -> (asked: (Option<WebviewPlan>, DetachedWebview))
        requires
            pending.wf(),
        ensures
            is_webview_asked(
                old(context)@,
                final(context)@,
                self.window_id,
                pending,
                devtools_built,
                asked,
            ),
    {
        context.create_webview(self.window_id, pending, devtools_built)
    }

    /// Asks for the scale factor.
    pub fn scale_factor<T>(&self) -> (message: Message<T>)
        ensures
            message == (Message::<T>::Window {
                window_id: self.window_id,
                message: WindowMessage::ScaleFactor,
            }),
    {
        Message::Window { window_id: self.window_id, message: WindowMessage::ScaleFactor }
    }

    /// Asks for the position of the surface.
    pub fn inner_position<T>(&self) -> (message: Message<T>)
        ensures
            message == (Message::<T>::Window {
                window_id: self.window_id,
                message: WindowMessage::InnerPosition,
            }),
    {
        Message::Window { window_id: self.window_id, message: WindowMessage::InnerPosition }
    }

    /// Asks for the position of the window.
    pub fn outer_position<T>(&self) -> (message: Message<T>)
        ensures
            message == (Message::<T>::Window {
                window_id: self.window_id,
                message: WindowMessage::OuterPosition,
            }),
    {
        Message::Window { window_id: self.window_id, message: WindowMessage::OuterPosition }
    }

    /// Asks for the size of the surface.
    pub fn inner_size<T>(&self) -> (message: Message<T>)
        ensures
            message == (Message::<T>::Window {
                window_id: self.window_id,
                message: WindowMessage::InnerSize,
            }),
    {
        Message::Window { window_id: self.window_id, message: WindowMessage::InnerSize }
    }

    /// Asks for the size of the window.
    pub fn outer_size<T>(&self) -> (message: Message<T>)
        ensures
            message == (Message::<T>::Window {
                window_id: self.window_id,
                message: WindowMessage::OuterSize,
            }),
    {
        Message::Window { window_id: self.window_id, message: WindowMessage::OuterSize }
    }

    /// Asks whether the window is fullscreen.
    pub fn is_fullscreen<T>(&self) -> (message: Message<T>)
        ensures
            message == (Message::<T>::Window {
                window_id: self.window_id,
                message: WindowMessage::IsFullscreen,
            }),
    {
        Message::Window { window_id: self.window_id, message: WindowMessage::IsFullscreen }
    }

    /// Asks whether the window is minimized.
    pub fn is_minimized<T>(&self) -> (message: Message<T>)
        ensures
            message == (Message::<T>::Window {
                window_id: self.window_id,
                message: WindowMessage::IsMinimized,
            }),
    {
        Message::Window { window_id: self.window_id, message: WindowMessage::IsMinimized }
    }

    /// Asks whether the window is maximized.
    pub fn is_maximized<T>(&self) -> (message: Message<T>)
        ensures
            message == (Message::<T>::Window {
                window_id: self.window_id,
                message: WindowMessage::IsMaximized,
            }),
    {
        Message::Window { window_id: self.window_id, message: WindowMessage::IsMaximized }
    }

    /// Asks whether the window has the focus.
    pub fn is_focused<T>(&self) -> (message: Message<T>)
        ensures
            message == (Message::<T>::Window {
                window_id: self.window_id,
                message: WindowMessage::IsFocused,
            }),
    {
        Message::Window { window_id: self.window_id, message: WindowMessage::IsFocused }
    }

    /// Asks whether the window has decorations.
    pub fn is_decorated<T>(&self) -> (message: Message<T>)
        ensures
            message == (Message::<T>::Window {
                window_id: self.window_id,
                message: WindowMessage::IsDecorated,
            }),
    {
        Message::Window { window_id: self.window_id, message: WindowMessage::IsDecorated }
    }

    /// Asks whether the window can be resized.
    pub fn is_resizable<T>(&self) -> (message: Message<T>)
        ensures
            message == (Message::<T>::Window {
                window_id: self.window_id,
                message: WindowMessage::IsResizable,
            }),
    {
        Message::Window { window_id: self.window_id, message: WindowMessage::IsResizable }
    }

    /// Asks whether the maximize button is enabled.
    pub fn is_maximizable<T>(&self) -> (message: Message<T>)
        ensures
            message == (Message::<T>::Window {
                window_id: self.window_id,
                message: WindowMessage::IsMaximizable,
            }),
    {
        Message::Window { window_id: self.window_id, message: WindowMessage::IsMaximizable }
    }

    /// Asks whether the minimize button is enabled.
    pub fn is_minimizable<T>(&self) -> (message: Message<T>)
        ensures
            message == (Message::<T>::Window {
                window_id: self.window_id,
                message: WindowMessage::IsMinimizable,
            }),
    {
        Message::Window { window_id: self.window_id, message: WindowMessage::IsMinimizable }
    }

    /// Asks whether the close button is enabled.
    pub fn is_closable<T>(&self) -> (message: Message<T>)
        ensures
            message == (Message::<T>::Window {
                window_id: self.window_id,
                message: WindowMessage::IsClosable,
            }),
    {
        Message::Window { window_id: self.window_id, message: WindowMessage::IsClosable }
    }

    /// Asks whether the window is visible.
    pub fn is_visible<T>(&self) -> (message: Message<T>)
        ensures
            message == (Message::<T>::Window {
                window_id: self.window_id,
                message: WindowMessage::IsVisible,
            }),
    {
        Message::Window { window_id: self.window_id, message: WindowMessage::IsVisible }
    }

    /// Asks for the title.
    pub fn title<T>(&self) -> (message: Message<T>)
        ensures
            message == (Message::<T>::Window {
                window_id: self.window_id,
                message: WindowMessage::Title,
            }),
    {
        Message::Window { window_id: self.window_id, message: WindowMessage::Title }
    }

    /// Asks for the monitor that the window is on.
    pub fn current_monitor<T>(&self) -> (message: Message<T>)
        ensures
            message == (Message::<T>::Window {
                window_id: self.window_id,
                message: WindowMessage::CurrentMonitor,
            }),
    {
        Message::Window { window_id: self.window_id, message: WindowMessage::CurrentMonitor }
    }

    /// Asks for the primary monitor.
    pub fn primary_monitor<T>(&self) -> (message: Message<T>)
        ensures
            message == (Message::<T>::Window {
                window_id: self.window_id,
                message: WindowMessage::PrimaryMonitor,
            }),
    {
        Message::Window { window_id: self.window_id, message: WindowMessage::PrimaryMonitor }
    }

    /// Asks for the monitor at a point.
    pub fn monitor_from_point<T>(&self, x: Float64, y: Float64) -> (message: Message<T>)
        ensures
            message == (Message::<T>::Window {
                window_id: self.window_id,
                message: WindowMessage::MonitorFromPoint(x, y),
            }),
    {
        Message::Window { window_id: self.window_id, message: WindowMessage::MonitorFromPoint(x, y) }
    }

    /// Asks for all monitors.
    pub fn available_monitors<T>(&self) -> (message: Message<T>)
        ensures
            message == (Message::<T>::Window {
                window_id: self.window_id,
                message: WindowMessage::AvailableMonitors,
            }),
    {
        Message::Window { window_id: self.window_id, message: WindowMessage::AvailableMonitors }
    }

    /// Asks for the theme.
    pub fn theme<T>(&self) -> (message: Message<T>)
        ensures
            message == (Message::<T>::Window {
                window_id: self.window_id,
                message: WindowMessage::Theme,
            }),
    {
        Message::Window { window_id: self.window_id, message: WindowMessage::Theme }
    }

    /// Asks whether the window is enabled.
    pub fn is_enabled<T>(&self) -> (message: Message<T>)
        ensures
            message == (Message::<T>::Window {
                window_id: self.window_id,
                message: WindowMessage::IsEnabled,
            }),
    {
        Message::Window { window_id: self.window_id, message: WindowMessage::IsEnabled }
    }

    /// Asks whether the window stays above the others.
    pub fn is_always_on_top<T>(&self) -> (message: Message<T>)
        ensures
            message == (Message::<T>::Window {
                window_id: self.window_id,
                message: WindowMessage::IsAlwaysOnTop,
            }),
    {
        Message::Window { window_id: self.window_id, message: WindowMessage::IsAlwaysOnTop }
    }

    /// Asks for the raw handle of the window.
    pub fn window_handle<T>(&self) -> (message: Message<T>)
        ensures
            message == (Message::<T>::Window {
                window_id: self.window_id,
                message: WindowMessage::RawWindowHandle,
            }),
    {
        Message::Window { window_id: self.window_id, message: WindowMessage::RawWindowHandle }
    }

    /// Centers the window.
    pub fn center<T>(&self) -> (message: Message<T>)
        ensures
            message == (Message::<T>::Window {
                window_id: self.window_id,
                message: WindowMessage::Center,
            }),
    {
        Message::Window { window_id: self.window_id, message: WindowMessage::Center }
    }

    /// Asks for the user's attention, or stops asking.
    pub fn request_user_attention<T>(&self, request_type: Option<UserAttentionType>) -> (message: Message<T>)
        ensures
            message == (Message::<T>::Window {
                window_id: self.window_id,
                message: WindowMessage::RequestUserAttention(request_type),
            }),
    {
        Message::Window { window_id: self.window_id, message: WindowMessage::RequestUserAttention(request_type) }
    }

    /// Enables the window.
    pub fn set_enabled<T>(&self, enabled: bool) -> (message: Message<T>)
        ensures
            message == (Message::<T>::Window {
                window_id: self.window_id,
                message: WindowMessage::SetEnabled(enabled),
            }),
    {
        Message::Window { window_id: self.window_id, message: WindowMessage::SetEnabled(enabled) }
    }

    /// Lets the user resize the window.
    pub fn set_resizable<T>(&self, resizable: bool) -> (message: Message<T>)
        ensures
            message == (Message::<T>::Window {
                window_id: self.window_id,
                message: WindowMessage::SetResizable(resizable),
            }),
    {
        Message::Window { window_id: self.window_id, message: WindowMessage::SetResizable(resizable) }
    }

    /// Enables the maximize button.
    pub fn set_maximizable<T>(&self, maximizable: bool) -> (message: Message<T>)
        ensures
            message == (Message::<T>::Window {
                window_id: self.window_id,
                message: WindowMessage::SetMaximizable(maximizable),
            }),
    {
        Message::Window { window_id: self.window_id, message: WindowMessage::SetMaximizable(maximizable) }
    }

    /// Enables the minimize button.
    pub fn set_minimizable<T>(&self, minimizable: bool) -> (message: Message<T>)
        ensures
            message == (Message::<T>::Window {
                window_id: self.window_id,
                message: WindowMessage::SetMinimizable(minimizable),
            }),
    {
        Message::Window { window_id: self.window_id, message: WindowMessage::SetMinimizable(minimizable) }
    }

    /// Enables the close button.
    pub fn set_closable<T>(&self, closable: bool) -> (message: Message<T>)
        ensures
            message == (Message::<T>::Window {
                window_id: self.window_id,
                message: WindowMessage::SetClosable(closable),
            }),
    {
        Message::Window { window_id: self.window_id, message: WindowMessage::SetClosable(closable) }
    }

    /// Sets the title.
    pub fn set_title<T>(&self, title: String) -> (message: Message<T>)
        ensures
            message == (Message::<T>::Window {
                window_id: self.window_id,
                message: WindowMessage::SetTitle(title),
            }),
    {
        Message::Window { window_id: self.window_id, message: WindowMessage::SetTitle(title) }
    }

    /// Maximizes the window.
    pub fn maximize<T>(&self) -> (message: Message<T>)
        ensures
            message == (Message::<T>::Window {
                window_id: self.window_id,
                message: WindowMessage::Maximize,
            }),
    {
        Message::Window { window_id: self.window_id, message: WindowMessage::Maximize }
    }

    /// Ends that the window is maximized.
    pub fn unmaximize<T>(&self) -> (message: Message<T>)
        ensures
            message == (Message::<T>::Window {
                window_id: self.window_id,
                message: WindowMessage::Unmaximize,
            }),
    {
        Message::Window { window_id: self.window_id, message: WindowMessage::Unmaximize }
    }

    /// Minimizes the window.
    pub fn minimize<T>(&self) -> (message: Message<T>)
        ensures
            message == (Message::<T>::Window {
                window_id: self.window_id,
                message: WindowMessage::Minimize,
            }),
    {
        Message::Window { window_id: self.window_id, message: WindowMessage::Minimize }
    }

    /// Ends that the window is minimized.
    pub fn unminimize<T>(&self) -> (message: Message<T>)
        ensures
            message == (Message::<T>::Window {
                window_id: self.window_id,
                message: WindowMessage::Unminimize,
            }),
    {
        Message::Window { window_id: self.window_id, message: WindowMessage::Unminimize }
    }

    /// Shows the window.
    pub fn show<T>(&self) -> (message: Message<T>)
        ensures
            message == (Message::<T>::Window {
                window_id: self.window_id,
                message: WindowMessage::Show,
            }),
    {
        Message::Window { window_id: self.window_id, message: WindowMessage::Show }
    }

    /// Hides the window.
    pub fn hide_window<T>(&self) -> (message: Message<T>)
        ensures
            message == (Message::<T>::Window {
                window_id: self.window_id,
                message: WindowMessage::Hide,
            }),
    {
        Message::Window { window_id: self.window_id, message: WindowMessage::Hide }
    }

    /// Asks the window to close.
    pub fn close<T>(&self) -> (message: Message<T>)
        ensures
            message == (Message::<T>::Window {
                window_id: self.window_id,
                message: WindowMessage::Close,
            }),
    {
        Message::Window { window_id: self.window_id, message: WindowMessage::Close }
    }

    /// Closes the window without asking.
    pub fn destroy<T>(&self) -> (message: Message<T>)
        ensures
            message == (Message::<T>::Window {
                window_id: self.window_id,
                message: WindowMessage::Destroy,
            }),
    {
        Message::Window { window_id: self.window_id, message: WindowMessage::Destroy }
    }

    /// Draws borders and a title bar.
    pub fn set_decorations<T>(&self, decorations: bool) -> (message: Message<T>)
        ensures
            message == (Message::<T>::Window {
                window_id: self.window_id,
                message: WindowMessage::SetDecorations(decorations),
            }),
    {
        Message::Window { window_id: self.window_id, message: WindowMessage::SetDecorations(decorations) }
    }

    /// Gives the window a shadow.
    pub fn set_shadow<T>(&self, shadow: bool) -> (message: Message<T>)
        ensures
            message == (Message::<T>::Window {
                window_id: self.window_id,
                message: WindowMessage::SetShadow(shadow),
            }),
    {
        Message::Window { window_id: self.window_id, message: WindowMessage::SetShadow(shadow) }
    }

    /// Keeps the window below the others.
    pub fn set_always_on_bottom<T>(&self, always_on_bottom: bool) -> (message: Message<T>)
        ensures
            message == (Message::<T>::Window {
                window_id: self.window_id,
                message: WindowMessage::SetAlwaysOnBottom(always_on_bottom),
            }),
    {
        Message::Window { window_id: self.window_id, message: WindowMessage::SetAlwaysOnBottom(always_on_bottom) }
    }

    /// Keeps the window above the others.
    pub fn set_always_on_top<T>(&self, always_on_top: bool) -> (message: Message<T>)
        ensures
            message == (Message::<T>::Window {
                window_id: self.window_id,
                message: WindowMessage::SetAlwaysOnTop(always_on_top),
            }),
    {
        Message::Window { window_id: self.window_id, message: WindowMessage::SetAlwaysOnTop(always_on_top) }
    }

    /// Shows the window on all workspaces.
    pub fn set_visible_on_all_workspaces<T>(&self, visible_on_all_workspaces: bool) -> (message: Message<T>)
        ensures
            message == (Message::<T>::Window {
                window_id: self.window_id,
                message: WindowMessage::SetVisibleOnAllWorkspaces(visible_on_all_workspaces),
            }),
    {
        Message::Window { window_id: self.window_id, message: WindowMessage::SetVisibleOnAllWorkspaces(visible_on_all_workspaces) }
    }

    /// Keeps the content out of screenshots.
    pub fn set_content_protected<T>(&self, protected: bool) -> (message: Message<T>)
        ensures
            message == (Message::<T>::Window {
                window_id: self.window_id,
                message: WindowMessage::SetContentProtected(protected),
            }),
    {
        Message::Window { window_id: self.window_id, message: WindowMessage::SetContentProtected(protected) }
    }

    /// Sets the size of the surface.
    pub fn set_size<T>(&self, size: Size) -> (message: Message<T>)
        ensures
            message == (Message::<T>::Window {
                window_id: self.window_id,
                message: WindowMessage::SetSize(size),
            }),
    {
        Message::Window { window_id: self.window_id, message: WindowMessage::SetSize(size) }
    }

    /// Sets the smallest size of the surface.
    pub fn set_min_size<T>(&self, size: Option<Size>) -> (message: Message<T>)
        ensures
            message == (Message::<T>::Window {
                window_id: self.window_id,
                message: WindowMessage::SetMinSize(size),
            }),
    {
        Message::Window { window_id: self.window_id, message: WindowMessage::SetMinSize(size) }
    }

    /// Sets the largest size of the surface.
    pub fn set_max_size<T>(&self, size: Option<Size>) -> (message: Message<T>)
        ensures
            message == (Message::<T>::Window {
                window_id: self.window_id,
                message: WindowMessage::SetMaxSize(size),
            }),
    {
        Message::Window { window_id: self.window_id, message: WindowMessage::SetMaxSize(size) }
    }

    /// Sets the limits on the size of the surface.
    pub fn set_size_constraints<T>(&self, constraints: WindowSizeConstraints) -> (message: Message<T>)
        ensures
            message == (Message::<T>::Window {
                window_id: self.window_id,
                message: WindowMessage::SetSizeConstraints(constraints),
            }),
    {
        Message::Window { window_id: self.window_id, message: WindowMessage::SetSizeConstraints(constraints) }
    }

    /// Moves the window.
    pub fn set_position<T>(&self, position: Position) -> (message: Message<T>)
        ensures
            message == (Message::<T>::Window {
                window_id: self.window_id,
                message: WindowMessage::SetPosition(position),
            }),
    {
        Message::Window { window_id: self.window_id, message: WindowMessage::SetPosition(position) }
    }

    /// Makes the window fullscreen.
    pub fn set_fullscreen<T>(&self, fullscreen: bool) -> (message: Message<T>)
        ensures
            message == (Message::<T>::Window {
                window_id: self.window_id,
                message: WindowMessage::SetFullscreen(fullscreen),
            }),
    {
        Message::Window { window_id: self.window_id, message: WindowMessage::SetFullscreen(fullscreen) }
    }

    /// Makes the window fullscreen without a space of its own, on macOS.
    pub fn set_simple_fullscreen<T>(&self, fullscreen: bool) -> (message: Message<T>)
        ensures
            message == (Message::<T>::Window {
                window_id: self.window_id,
                message: WindowMessage::SetSimpleFullscreen(fullscreen),
            }),
    {
        Message::Window { window_id: self.window_id, message: WindowMessage::SetSimpleFullscreen(fullscreen) }
    }

    /// Gives the window the focus.
    pub fn set_focus<T>(&self) -> (message: Message<T>)
        ensures
            message == (Message::<T>::Window {
                window_id: self.window_id,
                message: WindowMessage::SetFocus,
            }),
    {
        Message::Window { window_id: self.window_id, message: WindowMessage::SetFocus }
    }

    /// Lets the window take the focus.
    pub fn set_focusable<T>(&self, focusable: bool) -> (message: Message<T>)
        ensures
            message == (Message::<T>::Window {
                window_id: self.window_id,
                message: WindowMessage::SetFocusable(focusable),
            }),
    {
        Message::Window { window_id: self.window_id, message: WindowMessage::SetFocusable(focusable) }
    }

    /// Sets the icon.
    pub fn set_icon<T>(&self, icon: Icon) -> (message: Message<T>)
        ensures
            message == (Message::<T>::Window {
                window_id: self.window_id,
                message: WindowMessage::SetIcon(icon),
            }),
    {
        Message::Window { window_id: self.window_id, message: WindowMessage::SetIcon(icon) }
    }

    /// Keeps the window out of the taskbar.
    pub fn set_skip_taskbar<T>(&self, skip: bool) -> (message: Message<T>)
        ensures
            message == (Message::<T>::Window {
                window_id: self.window_id,
                message: WindowMessage::SetSkipTaskbar(skip),
            }),
    {
        Message::Window { window_id: self.window_id, message: WindowMessage::SetSkipTaskbar(skip) }
    }

    /// Grabs the cursor.
    pub fn set_cursor_grab<T>(&self, grab: bool) -> (message: Message<T>)
        ensures
            message == (Message::<T>::Window {
                window_id: self.window_id,
                message: WindowMessage::SetCursorGrab(grab),
            }),
    {
        Message::Window { window_id: self.window_id, message: WindowMessage::SetCursorGrab(grab) }
    }

    /// Shows the cursor.
    pub fn set_cursor_visible<T>(&self, visible: bool) -> (message: Message<T>)
        ensures
            message == (Message::<T>::Window {
                window_id: self.window_id,
                message: WindowMessage::SetCursorVisible(visible),
            }),
    {
        Message::Window { window_id: self.window_id, message: WindowMessage::SetCursorVisible(visible) }
    }

    /// Sets the look of the cursor.
    pub fn set_cursor_icon<T>(&self, icon: CursorIcon) -> (message: Message<T>)
        ensures
            message == (Message::<T>::Window {
                window_id: self.window_id,
                message: WindowMessage::SetCursorIcon(icon),
            }),
    {
        Message::Window { window_id: self.window_id, message: WindowMessage::SetCursorIcon(icon) }
    }

    /// Moves the cursor.
    pub fn set_cursor_position<T>(&self, position: Position) -> (message: Message<T>)
        ensures
            message == (Message::<T>::Window {
                window_id: self.window_id,
                message: WindowMessage::SetCursorPosition(position),
            }),
    {
        Message::Window { window_id: self.window_id, message: WindowMessage::SetCursorPosition(position) }
    }

    /// Lets the events of the cursor pass through the window.
    pub fn set_ignore_cursor_events<T>(&self, ignore: bool) -> (message: Message<T>)
        ensures
            message == (Message::<T>::Window {
                window_id: self.window_id,
                message: WindowMessage::SetIgnoreCursorEvents(ignore),
            }),
    {
        Message::Window { window_id: self.window_id, message: WindowMessage::SetIgnoreCursorEvents(ignore) }
    }

    /// Starts to move the window with the cursor.
    pub fn start_dragging<T>(&self) -> (message: Message<T>)
        ensures
            message == (Message::<T>::Window {
                window_id: self.window_id,
                message: WindowMessage::StartDragging,
            }),
    {
        Message::Window { window_id: self.window_id, message: WindowMessage::StartDragging }
    }

    /// Starts to resize the window with the cursor.
    pub fn start_resize_dragging<T>(&self, direction: ResizeDirection) -> (message: Message<T>)
        ensures
            message == (Message::<T>::Window {
                window_id: self.window_id,
                message: WindowMessage::StartResizeDragging(direction),
            }),
    {
        Message::Window { window_id: self.window_id, message: WindowMessage::StartResizeDragging(direction) }
    }

    /// Sets what the progress bar shows.
    pub fn set_progress_bar<T>(&self, progress_state: ProgressBarState) -> (message: Message<T>)
        ensures
            message == (Message::<T>::Window {
                window_id: self.window_id,
                message: WindowMessage::SetProgressBar(progress_state),
            }),
    {
        Message::Window { window_id: self.window_id, message: WindowMessage::SetProgressBar(progress_state) }
    }

    /// Sets the number on the badge.
    pub fn set_badge_count<T>(&self, count: Option<i64>, desktop_filename: Option<String>) -> (message: Message<T>)
        ensures
            message == (Message::<T>::Window {
                window_id: self.window_id,
                message: WindowMessage::SetBadgeCount(count, desktop_filename),
            }),
    {
        Message::Window { window_id: self.window_id, message: WindowMessage::SetBadgeCount(count, desktop_filename) }
    }

    /// Sets the text on the badge.
    pub fn set_badge_label<T>(&self, label: Option<String>) -> (message: Message<T>)
        ensures
            message == (Message::<T>::Window {
                window_id: self.window_id,
                message: WindowMessage::SetBadgeLabel(label),
            }),
    {
        Message::Window { window_id: self.window_id, message: WindowMessage::SetBadgeLabel(label) }
    }

    /// Sets the icon over the one in the taskbar.
    pub fn set_overlay_icon<T>(&self, icon: Option<Icon>) -> (message: Message<T>)
        ensures
            message == (Message::<T>::Window {
                window_id: self.window_id,
                message: WindowMessage::SetOverlayIcon(icon),
            }),
    {
        Message::Window { window_id: self.window_id, message: WindowMessage::SetOverlayIcon(icon) }
    }

    /// Sets how the title bar looks.
    pub fn set_title_bar_style<T>(&self, style: TitleBarStyle) -> (message: Message<T>)
        ensures
            message == (Message::<T>::Window {
                window_id: self.window_id,
                message: WindowMessage::SetTitleBarStyle(style),
            }),
    {
        Message::Window { window_id: self.window_id, message: WindowMessage::SetTitleBarStyle(style) }
    }

    /// Moves the traffic lights.
    pub fn set_traffic_light_position<T>(&self, position: Position) -> (message: Message<T>)
        ensures
            message == (Message::<T>::Window {
                window_id: self.window_id,
                message: WindowMessage::SetTrafficLightPosition(position),
            }),
    {
        Message::Window { window_id: self.window_id, message: WindowMessage::SetTrafficLightPosition(position) }
    }

    /// Sets the theme.
    pub fn set_theme<T>(&self, theme: Option<Theme>) -> (message: Message<T>)
        ensures
            message == (Message::<T>::Window {
                window_id: self.window_id,
                message: WindowMessage::SetTheme(theme),
            }),
    {
        Message::Window { window_id: self.window_id, message: WindowMessage::SetTheme(theme) }
    }

    /// Sets the color of the background.
    pub fn set_background_color<T>(&self, color: Option<Color>) -> (message: Message<T>)
        ensures
            message == (Message::<T>::Window {
                window_id: self.window_id,
                message: WindowMessage::SetBackgroundColor(color),
            }),
    {
        Message::Window { window_id: self.window_id, message: WindowMessage::SetBackgroundColor(color) }
    }
}

} // verus!
