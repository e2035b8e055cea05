//! What is said to a window or a webview is what was meant, and goes to that one.
use vstd::prelude::*;

use crate::color::Color;
use crate::context::{CefRuntimeContext, Message};
use crate::error::{Error, HandleError};
use crate::geometry::{Float64, Position, Rect, Size, WindowSizeConstraints};
use crate::webview::{HandlerId, WindowId};
use crate::webview_dispatcher::{awaited_reply, CefWebviewDispatcher};
use crate::webview_message::{Cookie, WebviewMessage};
use crate::window_builder::{Icon, Theme, TitleBarStyle};
use crate::window_dispatcher::{window_handle_reply, CefWindowDispatcher};
use crate::window_message::{
    CursorIcon, ProgressBarState, RawHandle, ResizeDirection, UserAttentionType, WindowMessage,
};

verus! {

/// Whether a message goes to the window of a dispatcher, and says `meant`.
pub open spec fn is_said<T>(
    dispatcher: CefWindowDispatcher,
    sent: Message<T>,
    meant: WindowMessage,
) -> bool {
    sent matches Message::Window { window_id, message } && window_id == dispatcher.window_id
        && message == meant
}

/// Whether a message goes to the webview of a dispatcher, in its window, and says `meant`.
pub open spec fn is_said_inside<T>(
    dispatcher: CefWebviewDispatcher,
    sent: Message<T>,
    meant: WebviewMessage,
) -> bool {
    sent matches Message::Webview { window_id, webview_id, message } && window_id
        == dispatcher.window_id && webview_id == dispatcher.webview_id && message == meant
}

/// Whoever asks a window whether it is something asks for that very thing.
pub proof fn windows_are_asked_whether<T>(dispatcher: CefWindowDispatcher)
    ensures
        forall|sent: Message<T>| #[trigger]
            call_ensures(CefWindowDispatcher::is_fullscreen::<T>, (&dispatcher,), sent)
                ==> is_said(dispatcher, sent, WindowMessage::IsFullscreen),
        forall|sent: Message<T>| #[trigger]
            call_ensures(CefWindowDispatcher::is_minimized::<T>, (&dispatcher,), sent)
                ==> is_said(dispatcher, sent, WindowMessage::IsMinimized),
        forall|sent: Message<T>| #[trigger]
            call_ensures(CefWindowDispatcher::is_maximized::<T>, (&dispatcher,), sent)
                ==> is_said(dispatcher, sent, WindowMessage::IsMaximized),
        forall|sent: Message<T>| #[trigger]
            call_ensures(CefWindowDispatcher::is_focused::<T>, (&dispatcher,), sent)
                ==> is_said(dispatcher, sent, WindowMessage::IsFocused),
        forall|sent: Message<T>| #[trigger]
            call_ensures(CefWindowDispatcher::is_decorated::<T>, (&dispatcher,), sent)
                ==> is_said(dispatcher, sent, WindowMessage::IsDecorated),
        forall|sent: Message<T>| #[trigger]
            call_ensures(CefWindowDispatcher::is_resizable::<T>, (&dispatcher,), sent)
                ==> is_said(dispatcher, sent, WindowMessage::IsResizable),
        forall|sent: Message<T>| #[trigger]
            call_ensures(CefWindowDispatcher::is_maximizable::<T>, (&dispatcher,), sent)
                ==> is_said(dispatcher, sent, WindowMessage::IsMaximizable),
        forall|sent: Message<T>| #[trigger]
            call_ensures(CefWindowDispatcher::is_minimizable::<T>, (&dispatcher,), sent)
                ==> is_said(dispatcher, sent, WindowMessage::IsMinimizable),
        forall|sent: Message<T>| #[trigger]
            call_ensures(CefWindowDispatcher::is_closable::<T>, (&dispatcher,), sent)
                ==> is_said(dispatcher, sent, WindowMessage::IsClosable),
        forall|sent: Message<T>| #[trigger]
            call_ensures(CefWindowDispatcher::is_visible::<T>, (&dispatcher,), sent)
                ==> is_said(dispatcher, sent, WindowMessage::IsVisible),
        forall|sent: Message<T>| #[trigger]
            call_ensures(CefWindowDispatcher::is_enabled::<T>, (&dispatcher,), sent)
                ==> is_said(dispatcher, sent, WindowMessage::IsEnabled),
        forall|sent: Message<T>| #[trigger]
            call_ensures(CefWindowDispatcher::is_always_on_top::<T>, (&dispatcher,), sent)
                ==> is_said(dispatcher, sent, WindowMessage::IsAlwaysOnTop),
{
}

/// Whoever asks a window for something asks for that very thing.
pub proof fn windows_are_asked_for<T>(dispatcher: CefWindowDispatcher, x: Float64, y: Float64)
    ensures
        forall|sent: Message<T>| #[trigger]
            call_ensures(CefWindowDispatcher::scale_factor::<T>, (&dispatcher,), sent)
                ==> is_said(dispatcher, sent, WindowMessage::ScaleFactor),
        forall|sent: Message<T>| #[trigger]
            call_ensures(CefWindowDispatcher::inner_position::<T>, (&dispatcher,), sent)
                ==> is_said(dispatcher, sent, WindowMessage::InnerPosition),
        forall|sent: Message<T>| #[trigger]
            call_ensures(CefWindowDispatcher::outer_position::<T>, (&dispatcher,), sent)
                ==> is_said(dispatcher, sent, WindowMessage::OuterPosition),
        forall|sent: Message<T>| #[trigger]
            call_ensures(CefWindowDispatcher::inner_size::<T>, (&dispatcher,), sent)
                ==> is_said(dispatcher, sent, WindowMessage::InnerSize),
        forall|sent: Message<T>| #[trigger]
            call_ensures(CefWindowDispatcher::outer_size::<T>, (&dispatcher,), sent)
                ==> is_said(dispatcher, sent, WindowMessage::OuterSize),
        forall|sent: Message<T>| #[trigger]
            call_ensures(CefWindowDispatcher::title::<T>, (&dispatcher,), sent)
                ==> is_said(dispatcher, sent, WindowMessage::Title),
        forall|sent: Message<T>| #[trigger]
            call_ensures(CefWindowDispatcher::current_monitor::<T>, (&dispatcher,), sent)
                ==> is_said(dispatcher, sent, WindowMessage::CurrentMonitor),
        forall|sent: Message<T>| #[trigger]
            call_ensures(CefWindowDispatcher::primary_monitor::<T>, (&dispatcher,), sent)
                ==> is_said(dispatcher, sent, WindowMessage::PrimaryMonitor),
        forall|sent: Message<T>| #[trigger]
            call_ensures(CefWindowDispatcher::monitor_from_point::<T>, (&dispatcher, x, y), sent)
                ==> is_said(dispatcher, sent, WindowMessage::MonitorFromPoint(x, y)),
        forall|sent: Message<T>| #[trigger]
            call_ensures(CefWindowDispatcher::available_monitors::<T>, (&dispatcher,), sent)
                ==> is_said(dispatcher, sent, WindowMessage::AvailableMonitors),
        forall|sent: Message<T>| #[trigger]
            call_ensures(CefWindowDispatcher::theme::<T>, (&dispatcher,), sent)
                ==> is_said(dispatcher, sent, WindowMessage::Theme),
        forall|sent: Message<T>| #[trigger]
            call_ensures(CefWindowDispatcher::window_handle::<T>, (&dispatcher,), sent)
                ==> is_said(dispatcher, sent, WindowMessage::RawWindowHandle),
{
}

/// What is switched on or off of a window is said as it was meant, be it on or off.
pub proof fn window_switches_are_said<T>(dispatcher: CefWindowDispatcher, flag: bool)
    ensures
        forall|sent: Message<T>| #[trigger]
            call_ensures(CefWindowDispatcher::set_enabled::<T>, (&dispatcher, flag), sent)
                ==> is_said(dispatcher, sent, WindowMessage::SetEnabled(flag)),
        forall|sent: Message<T>| #[trigger]
            call_ensures(CefWindowDispatcher::set_resizable::<T>, (&dispatcher, flag), sent)
                ==> is_said(dispatcher, sent, WindowMessage::SetResizable(flag)),
        forall|sent: Message<T>| #[trigger]
            call_ensures(CefWindowDispatcher::set_maximizable::<T>, (&dispatcher, flag), sent)
                ==> is_said(dispatcher, sent, WindowMessage::SetMaximizable(flag)),
        forall|sent: Message<T>| #[trigger]
            call_ensures(CefWindowDispatcher::set_minimizable::<T>, (&dispatcher, flag), sent)
                ==> is_said(dispatcher, sent, WindowMessage::SetMinimizable(flag)),
        forall|sent: Message<T>| #[trigger]
            call_ensures(CefWindowDispatcher::set_closable::<T>, (&dispatcher, flag), sent)
                ==> is_said(dispatcher, sent, WindowMessage::SetClosable(flag)),
        forall|sent: Message<T>| #[trigger]
            call_ensures(CefWindowDispatcher::set_decorations::<T>, (&dispatcher, flag), sent)
                ==> is_said(dispatcher, sent, WindowMessage::SetDecorations(flag)),
        forall|sent: Message<T>| #[trigger]
            call_ensures(CefWindowDispatcher::set_shadow::<T>, (&dispatcher, flag), sent)
                ==> is_said(dispatcher, sent, WindowMessage::SetShadow(flag)),
        forall|sent: Message<T>| #[trigger]
            call_ensures(CefWindowDispatcher::set_always_on_bottom::<T>, (&dispatcher, flag), sent)
                ==> is_said(dispatcher, sent, WindowMessage::SetAlwaysOnBottom(flag)),
        forall|sent: Message<T>| #[trigger]
            call_ensures(CefWindowDispatcher::set_always_on_top::<T>, (&dispatcher, flag), sent)
                ==> is_said(dispatcher, sent, WindowMessage::SetAlwaysOnTop(flag)),
{
}

/// What else is switched on or off of a window is said as it was meant, be it on or off.
pub proof fn more_window_switches_are_said<T>(dispatcher: CefWindowDispatcher, flag: bool)
    ensures
        forall|sent: Message<T>| #[trigger]
            call_ensures(
                CefWindowDispatcher::set_visible_on_all_workspaces::<T>,
                (&dispatcher, flag),
                sent,
            ) ==> is_said(dispatcher, sent, WindowMessage::SetVisibleOnAllWorkspaces(flag)),
        forall|sent: Message<T>| #[trigger]
            call_ensures(CefWindowDispatcher::set_content_protected::<T>, (&dispatcher, flag), sent)
                ==> is_said(dispatcher, sent, WindowMessage::SetContentProtected(flag)),
        forall|sent: Message<T>| #[trigger]
            call_ensures(CefWindowDispatcher::set_fullscreen::<T>, (&dispatcher, flag), sent)
                ==> is_said(dispatcher, sent, WindowMessage::SetFullscreen(flag)),
        forall|sent: Message<T>| #[trigger]
            call_ensures(CefWindowDispatcher::set_simple_fullscreen::<T>, (&dispatcher, flag), sent)
                ==> is_said(dispatcher, sent, WindowMessage::SetSimpleFullscreen(flag)),
        forall|sent: Message<T>| #[trigger]
            call_ensures(CefWindowDispatcher::set_focusable::<T>, (&dispatcher, flag), sent)
                ==> is_said(dispatcher, sent, WindowMessage::SetFocusable(flag)),
        forall|sent: Message<T>| #[trigger]
            call_ensures(CefWindowDispatcher::set_skip_taskbar::<T>, (&dispatcher, flag), sent)
                ==> is_said(dispatcher, sent, WindowMessage::SetSkipTaskbar(flag)),
        forall|sent: Message<T>| #[trigger]
            call_ensures(CefWindowDispatcher::set_cursor_grab::<T>, (&dispatcher, flag), sent)
                ==> is_said(dispatcher, sent, WindowMessage::SetCursorGrab(flag)),
        forall|sent: Message<T>| #[trigger]
            call_ensures(CefWindowDispatcher::set_cursor_visible::<T>, (&dispatcher, flag), sent)
                ==> is_said(dispatcher, sent, WindowMessage::SetCursorVisible(flag)),
        forall|sent: Message<T>| #[trigger]
            call_ensures(
                CefWindowDispatcher::set_ignore_cursor_events::<T>,
                (&dispatcher, flag),
                sent,
            ) ==> is_said(dispatcher, sent, WindowMessage::SetIgnoreCursorEvents(flag)),
{
}

/// What a window is to do is said as it was meant.
pub proof fn window_actions_are_said<T>(dispatcher: CefWindowDispatcher)
    ensures
        forall|sent: Message<T>| #[trigger]
            call_ensures(CefWindowDispatcher::center::<T>, (&dispatcher,), sent)
                ==> is_said(dispatcher, sent, WindowMessage::Center),
        forall|sent: Message<T>| #[trigger]
            call_ensures(CefWindowDispatcher::maximize::<T>, (&dispatcher,), sent)
                ==> is_said(dispatcher, sent, WindowMessage::Maximize),
        forall|sent: Message<T>| #[trigger]
            call_ensures(CefWindowDispatcher::unmaximize::<T>, (&dispatcher,), sent)
                ==> is_said(dispatcher, sent, WindowMessage::Unmaximize),
        forall|sent: Message<T>| #[trigger]
            call_ensures(CefWindowDispatcher::minimize::<T>, (&dispatcher,), sent)
                ==> is_said(dispatcher, sent, WindowMessage::Minimize),
        forall|sent: Message<T>| #[trigger]
            call_ensures(CefWindowDispatcher::unminimize::<T>, (&dispatcher,), sent)
                ==> is_said(dispatcher, sent, WindowMessage::Unminimize),
        forall|sent: Message<T>| #[trigger]
            call_ensures(CefWindowDispatcher::show::<T>, (&dispatcher,), sent)
                ==> is_said(dispatcher, sent, WindowMessage::Show),
        forall|sent: Message<T>| #[trigger]
            call_ensures(CefWindowDispatcher::hide_window::<T>, (&dispatcher,), sent)
                ==> is_said(dispatcher, sent, WindowMessage::Hide),
        forall|sent: Message<T>| #[trigger]
            call_ensures(CefWindowDispatcher::close::<T>, (&dispatcher,), sent)
                ==> is_said(dispatcher, sent, WindowMessage::Close),
        forall|sent: Message<T>| #[trigger]
            call_ensures(CefWindowDispatcher::destroy::<T>, (&dispatcher,), sent)
                ==> is_said(dispatcher, sent, WindowMessage::Destroy),
        forall|sent: Message<T>| #[trigger]
            call_ensures(CefWindowDispatcher::set_focus::<T>, (&dispatcher,), sent)
                ==> is_said(dispatcher, sent, WindowMessage::SetFocus),
        forall|sent: Message<T>| #[trigger]
            call_ensures(CefWindowDispatcher::start_dragging::<T>, (&dispatcher,), sent)
                ==> is_said(dispatcher, sent, WindowMessage::StartDragging),
{
}

/// A value that a window is to have is said as it was meant.
pub proof fn window_values_are_said<T>(
    dispatcher: CefWindowDispatcher,
    request_type: Option<UserAttentionType>,
    text: String,
    size: Size,
    limit: Option<Size>,
    constraints: WindowSizeConstraints,
    position: Position,
    icon: Icon,
    icon_set_cursor_icon: CursorIcon,
    direction: ResizeDirection,
    progress_state: ProgressBarState,
    count: Option<i64>,
    desktop_filename: Option<String>,
    label: Option<String>,
    icon_set_overlay_icon: Option<Icon>,
    style: TitleBarStyle,
    theme: Option<Theme>,
    color: Option<Color>,
)
    ensures
        forall|sent: Message<T>| #[trigger]
            call_ensures(
                CefWindowDispatcher::request_user_attention::<T>,
                (&dispatcher, request_type),
                sent,
            ) ==> is_said(dispatcher, sent, WindowMessage::RequestUserAttention(request_type)),
        forall|sent: Message<T>| #[trigger]
            call_ensures(CefWindowDispatcher::set_title::<T>, (&dispatcher, text), sent)
                ==> is_said(dispatcher, sent, WindowMessage::SetTitle(text)),
        forall|sent: Message<T>| #[trigger]
            call_ensures(CefWindowDispatcher::set_size::<T>, (&dispatcher, size), sent)
                ==> is_said(dispatcher, sent, WindowMessage::SetSize(size)),
        forall|sent: Message<T>| #[trigger]
            call_ensures(CefWindowDispatcher::set_min_size::<T>, (&dispatcher, limit), sent)
                ==> is_said(dispatcher, sent, WindowMessage::SetMinSize(limit)),
        forall|sent: Message<T>| #[trigger]
            call_ensures(CefWindowDispatcher::set_max_size::<T>, (&dispatcher, limit), sent)
                ==> is_said(dispatcher, sent, WindowMessage::SetMaxSize(limit)),
        forall|sent: Message<T>| #[trigger]
            call_ensures(
                CefWindowDispatcher::set_size_constraints::<T>,
                (&dispatcher, constraints),
                sent,
            ) ==> is_said(dispatcher, sent, WindowMessage::SetSizeConstraints(constraints)),
        forall|sent: Message<T>| #[trigger]
            call_ensures(CefWindowDispatcher::set_position::<T>, (&dispatcher, position), sent)
                ==> is_said(dispatcher, sent, WindowMessage::SetPosition(position)),
        forall|sent: Message<T>| #[trigger]
            call_ensures(CefWindowDispatcher::set_icon::<T>, (&dispatcher, icon), sent)
                ==> is_said(dispatcher, sent, WindowMessage::SetIcon(icon)),
        forall|sent: Message<T>| #[trigger]
            call_ensures(
                CefWindowDispatcher::set_cursor_icon::<T>,
                (&dispatcher, icon_set_cursor_icon),
                sent,
            ) ==> is_said(dispatcher, sent, WindowMessage::SetCursorIcon(icon_set_cursor_icon)),
        forall|sent: Message<T>| #[trigger]
            call_ensures(
                CefWindowDispatcher::set_cursor_position::<T>,
                (&dispatcher, position),
                sent,
            ) ==> is_said(dispatcher, sent, WindowMessage::SetCursorPosition(position)),
        forall|sent: Message<T>| #[trigger]
            call_ensures(
                CefWindowDispatcher::start_resize_dragging::<T>,
                (&dispatcher, direction),
                sent,
            ) ==> is_said(dispatcher, sent, WindowMessage::StartResizeDragging(direction)),
        forall|sent: Message<T>| #[trigger]
            call_ensures(
                CefWindowDispatcher::set_progress_bar::<T>,
                (&dispatcher, progress_state),
                sent,
            ) ==> is_said(dispatcher, sent, WindowMessage::SetProgressBar(progress_state)),
        forall|sent: Message<T>| #[trigger]
            call_ensures(
                CefWindowDispatcher::set_badge_count::<T>,
                (&dispatcher, count, desktop_filename),
                sent,
            ) ==> is_said(dispatcher, sent, WindowMessage::SetBadgeCount(count, desktop_filename)),
        forall|sent: Message<T>| #[trigger]
            call_ensures(CefWindowDispatcher::set_badge_label::<T>, (&dispatcher, label), sent)
                ==> is_said(dispatcher, sent, WindowMessage::SetBadgeLabel(label)),
        forall|sent: Message<T>| #[trigger]
            call_ensures(
                CefWindowDispatcher::set_overlay_icon::<T>,
                (&dispatcher, icon_set_overlay_icon),
                sent,
            ) ==> is_said(dispatcher, sent, WindowMessage::SetOverlayIcon(icon_set_overlay_icon)),
        forall|sent: Message<T>| #[trigger]
            call_ensures(CefWindowDispatcher::set_title_bar_style::<T>, (&dispatcher, style), sent)
                ==> is_said(dispatcher, sent, WindowMessage::SetTitleBarStyle(style)),
        forall|sent: Message<T>| #[trigger]
            call_ensures(
                CefWindowDispatcher::set_traffic_light_position::<T>,
                (&dispatcher, position),
                sent,
            ) ==> is_said(dispatcher, sent, WindowMessage::SetTrafficLightPosition(position)),
        forall|sent: Message<T>| #[trigger]
            call_ensures(CefWindowDispatcher::set_theme::<T>, (&dispatcher, theme), sent)
                ==> is_said(dispatcher, sent, WindowMessage::SetTheme(theme)),
        forall|sent: Message<T>| #[trigger]
            call_ensures(CefWindowDispatcher::set_background_color::<T>, (&dispatcher, color), sent)
                ==> is_said(dispatcher, sent, WindowMessage::SetBackgroundColor(color)),
{
}

/// What a webview is asked for or is to do is said as it was meant.
pub proof fn webview_actions_are_said<T>(dispatcher: CefWebviewDispatcher)
    ensures
        forall|sent: Message<T>| #[trigger]
            call_ensures(CefWebviewDispatcher::open_devtools::<T>, (&dispatcher,), sent)
                ==> is_said_inside(dispatcher, sent, WebviewMessage::OpenDevTools),
        forall|sent: Message<T>| #[trigger]
            call_ensures(CefWebviewDispatcher::close_devtools::<T>, (&dispatcher,), sent)
                ==> is_said_inside(dispatcher, sent, WebviewMessage::CloseDevTools),
        forall|sent: Message<T>| #[trigger]
            call_ensures(CefWebviewDispatcher::is_devtools_open::<T>, (&dispatcher,), sent)
                ==> is_said_inside(dispatcher, sent, WebviewMessage::IsDevToolsOpen),
        forall|sent: Message<T>| #[trigger]
            call_ensures(CefWebviewDispatcher::url::<T>, (&dispatcher,), sent)
                ==> is_said_inside(dispatcher, sent, WebviewMessage::Url),
        forall|sent: Message<T>| #[trigger]
            call_ensures(CefWebviewDispatcher::bounds::<T>, (&dispatcher,), sent)
                ==> is_said_inside(dispatcher, sent, WebviewMessage::Bounds),
        forall|sent: Message<T>| #[trigger]
            call_ensures(CefWebviewDispatcher::position::<T>, (&dispatcher,), sent)
                ==> is_said_inside(dispatcher, sent, WebviewMessage::Position),
        forall|sent: Message<T>| #[trigger]
            call_ensures(CefWebviewDispatcher::size::<T>, (&dispatcher,), sent)
                ==> is_said_inside(dispatcher, sent, WebviewMessage::Size),
        forall|sent: Message<T>| #[trigger]
            call_ensures(CefWebviewDispatcher::reload::<T>, (&dispatcher,), sent)
                ==> is_said_inside(dispatcher, sent, WebviewMessage::Reload),
        forall|sent: Message<T>| #[trigger]
            call_ensures(CefWebviewDispatcher::print::<T>, (&dispatcher,), sent)
                ==> is_said_inside(dispatcher, sent, WebviewMessage::Print),
        forall|sent: Message<T>| #[trigger]
            call_ensures(CefWebviewDispatcher::close::<T>, (&dispatcher,), sent)
                ==> is_said_inside(dispatcher, sent, WebviewMessage::Close),
        forall|sent: Message<T>| #[trigger]
            call_ensures(CefWebviewDispatcher::set_focus::<T>, (&dispatcher,), sent)
                ==> is_said_inside(dispatcher, sent, WebviewMessage::SetFocus),
        forall|sent: Message<T>| #[trigger]
            call_ensures(CefWebviewDispatcher::cookies::<T>, (&dispatcher,), sent)
                ==> is_said_inside(dispatcher, sent, WebviewMessage::Cookies),
        forall|sent: Message<T>| #[trigger]
            call_ensures(CefWebviewDispatcher::clear_all_browsing_data::<T>, (&dispatcher,), sent)
                ==> is_said_inside(dispatcher, sent, WebviewMessage::ClearAllBrowsingData),
        forall|sent: Message<T>| #[trigger]
            call_ensures(CefWebviewDispatcher::hide_webview::<T>, (&dispatcher,), sent)
                ==> is_said_inside(dispatcher, sent, WebviewMessage::Hide),
        forall|sent: Message<T>| #[trigger]
            call_ensures(CefWebviewDispatcher::show::<T>, (&dispatcher,), sent)
                ==> is_said_inside(dispatcher, sent, WebviewMessage::Show),
{
}

/// A value that a webview is to have is said as it was meant.
pub proof fn webview_values_are_said<T>(
    dispatcher: CefWebviewDispatcher,
    handler: HandlerId,
    scale_factor: Float64,
    text: String,
    bounds: Rect,
    size: Size,
    position: Position,
    target: WindowId,
    cookie: Cookie,
    flag: bool,
    color: Option<Color>,
)
    ensures
        forall|sent: Message<T>| #[trigger]
            call_ensures(CefWebviewDispatcher::with_webview::<T>, (&dispatcher, handler), sent)
                ==> is_said_inside(dispatcher, sent, WebviewMessage::WithWebview(handler)),
        forall|sent: Message<T>| #[trigger]
            call_ensures(CefWebviewDispatcher::set_zoom::<T>, (&dispatcher, scale_factor), sent)
                ==> is_said_inside(dispatcher, sent, WebviewMessage::SetZoom(scale_factor)),
        forall|sent: Message<T>| #[trigger]
            call_ensures(CefWebviewDispatcher::eval_script::<T>, (&dispatcher, text), sent)
                ==> is_said_inside(dispatcher, sent, WebviewMessage::EvaluateScript(text)),
        forall|sent: Message<T>| #[trigger]
            call_ensures(CefWebviewDispatcher::navigate::<T>, (&dispatcher, text), sent)
                ==> is_said_inside(dispatcher, sent, WebviewMessage::Navigate(text)),
        forall|sent: Message<T>| #[trigger]
            call_ensures(CefWebviewDispatcher::set_bounds::<T>, (&dispatcher, bounds), sent)
                ==> is_said_inside(dispatcher, sent, WebviewMessage::SetBounds(bounds)),
        forall|sent: Message<T>| #[trigger]
            call_ensures(CefWebviewDispatcher::set_size::<T>, (&dispatcher, size), sent)
                ==> is_said_inside(dispatcher, sent, WebviewMessage::SetSize(size)),
        forall|sent: Message<T>| #[trigger]
            call_ensures(CefWebviewDispatcher::set_position::<T>, (&dispatcher, position), sent)
                ==> is_said_inside(dispatcher, sent, WebviewMessage::SetPosition(position)),
        forall|sent: Message<T>| #[trigger]
            call_ensures(CefWebviewDispatcher::reparent::<T>, (&dispatcher, target), sent)
                ==> is_said_inside(dispatcher, sent, WebviewMessage::Reparent(target)),
        forall|sent: Message<T>| #[trigger]
            call_ensures(CefWebviewDispatcher::cookies_for_url::<T>, (&dispatcher, text), sent)
                ==> is_said_inside(dispatcher, sent, WebviewMessage::CookiesForUrl(text)),
        forall|sent: Message<T>| #[trigger]
            call_ensures(CefWebviewDispatcher::set_cookie::<T>, (&dispatcher, cookie), sent)
                ==> is_said_inside(dispatcher, sent, WebviewMessage::SetCookie(cookie)),
        forall|sent: Message<T>| #[trigger]
            call_ensures(CefWebviewDispatcher::delete_cookie::<T>, (&dispatcher, cookie), sent)
                ==> is_said_inside(dispatcher, sent, WebviewMessage::DeleteCookie(cookie)),
        forall|sent: Message<T>| #[trigger]
            call_ensures(CefWebviewDispatcher::set_auto_resize::<T>, (&dispatcher, flag), sent)
                ==> is_said_inside(dispatcher, sent, WebviewMessage::SetAutoResize(flag)),
        forall|sent: Message<T>| #[trigger]
            call_ensures(
                CefWebviewDispatcher::set_background_color::<T>,
                (&dispatcher, color),
                sent,
            ) ==> is_said_inside(dispatcher, sent, WebviewMessage::SetBackgroundColor(color)),
{
}

/// A task is handed to the event loop as it is, from a window and from a webview alike.
pub proof fn tasks_are_handed_over<T>(
    dispatcher: CefWindowDispatcher,
    inside: CefWebviewDispatcher,
    task: HandlerId,
    sent: Message<T>,
)
    ensures
        call_ensures(CefWindowDispatcher::run_on_main_thread::<T>, (&dispatcher, task), sent)
            ==> sent == Message::<T>::Task(task),
        call_ensures(CefWebviewDispatcher::run_on_main_thread::<T>, (&inside, task), sent) ==> sent
            == Message::<T>::Task(task),
{
}

/// Who listens to a window or a webview is known by the id that is given back, and no two that
/// begin to listen one after the other get the same.
pub proof fn listeners_are_told_apart<T>(
    dispatcher: CefWindowDispatcher,
    inside: CefWebviewDispatcher,
    handler: HandlerId,
)
    ensures
        forall|context: &mut CefRuntimeContext, added: (u32, Message<T>)| #[trigger]
            call_ensures(
                CefWindowDispatcher::on_window_event::<T>,
                (&dispatcher, context, handler),
                added,
            ) ==> {
                &&& is_said(dispatcher, added.1, WindowMessage::AddEventListener(added.0, handler))
                &&& final(context)@.next_window_event_id != added.0
                &&& final(context)@.next_webview_event_id == context@.next_webview_event_id
                &&& final(context)@.windows == context@.windows
            },
        forall|context: &mut CefRuntimeContext, added: (u32, Message<T>)| #[trigger]
            call_ensures(
                CefWebviewDispatcher::on_webview_event::<T>,
                (&inside, context, handler),
                added,
            ) ==> {
                &&& is_said_inside(
                    inside,
                    added.1,
                    WebviewMessage::AddEventListener(added.0, handler),
                )
                &&& final(context)@.next_webview_event_id != added.0
                &&& final(context)@.next_window_event_id == context@.next_window_event_id
                &&& final(context)@.windows == context@.windows
            },
{
}

/// A webview that was moved is spoken to in the other window exactly if the move was sent and
/// answered with success. Whoever moved it is told the error otherwise.
pub proof fn moved_webviews_are_spoken_to_there(
    target: WindowId,
    error: Error,
    answer: Option<Result<(), Error>>,
)
    ensures
        forall|inside: &mut CefWebviewDispatcher, result: Result<(), Error>| #[trigger]
            call_ensures(
                CefWebviewDispatcher::finish_reparent,
                (inside, target, Ok::<(), Error>(()), Some(Ok::<(), Error>(()))),
                result,
            ) ==> result is Ok && final(inside).window_id == target && final(inside).webview_id
                == inside.webview_id,
        forall|inside: &mut CefWebviewDispatcher, result: Result<(), Error>| #[trigger]
            call_ensures(
                CefWebviewDispatcher::finish_reparent,
                (inside, target, Ok::<(), Error>(()), Some(Err::<(), Error>(error))),
                result,
            ) ==> result == Err::<(), Error>(error) && *final(inside) == *inside,
        forall|inside: &mut CefWebviewDispatcher, result: Result<(), Error>| #[trigger]
            call_ensures(
                CefWebviewDispatcher::finish_reparent,
                (inside, target, Err::<(), Error>(error), answer),
                result,
            ) ==> result == Err::<(), Error>(error) && *final(inside) == *inside,
{
}

/// Whoever waits for an answer is told it as it is, or why the question was not sent.
pub proof fn answers_are_awaited<V>(
    answer: Result<V, Error>,
    error: Error,
    received: Option<Result<V, Error>>,
    reply: Result<V, Error>,
)
    ensures
        call_ensures(awaited_reply::<V>, (Ok::<(), Error>(()), Some(answer)), reply) ==> reply
            == answer,
        call_ensures(awaited_reply::<V>, (Err::<(), Error>(error), received), reply) ==> reply
            == Err::<V, Error>(error),
{
}

/// The handle of a window is the one that was answered, and unavailable where the question was
/// not sent or not answered.
pub proof fn handles_are_told_as_they_are(
    answer: Result<RawHandle, HandleError>,
    received: Option<Result<RawHandle, HandleError>>,
    error: Error,
    handle: Result<RawHandle, HandleError>,
)
    ensures
        call_ensures(window_handle_reply, (Ok::<(), Error>(()), Some(answer)), handle) ==> handle
            == answer,
        call_ensures(window_handle_reply, (Err::<(), Error>(error), received), handle) ==> handle
            == Err::<RawHandle, HandleError>(HandleError::Unavailable),
        call_ensures(
            window_handle_reply,
            (Ok::<(), Error>(()), None::<Result<RawHandle, HandleError>>),
            handle,
        ) ==> handle == Err::<RawHandle, HandleError>(HandleError::Unavailable),
{
}

} // verus!
