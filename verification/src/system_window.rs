//! What messages to a window come to, seen from the window of the system that they reach.
//!
//! A window of the system is modelled by what it can be asked and told. The laws then say what
//! whoever sent a message learns or brings about, whatever way the message takes inside.
use vstd::prelude::*;

use crate::color::Color;
use crate::error::{Error, HandleError};
use crate::geometry::{
    Float64, PhysicalPosition, PhysicalRect, PhysicalSize, Position, Size, WindowSizeConstraints,
};
use crate::monitor::Monitor;
use crate::webview::{HandlerId, NativeWindowId, WindowId};
use crate::window::{AppWindowKind, WindowView, Windows};
use crate::window_builder::{
    Icon, Theme, TitleBarStyle, WindowButton, WindowButtons, WindowLevel,
};
use crate::window_message::{
    answer_displays, answer_query, handle_window_message, on_window_close, CursorIcon,
    DisplayAnswer, DisplayQuery, MonitorFacts, ProgressBarState, RawHandle, ResizeDirection,
    UserAttentionType, WindowAnswer, WindowCommand, WindowEffect, WindowMessage, WindowQuery,
    WindowReply,
};

verus! {

/// A window of the system, by what it answers when it is asked.
pub ghost struct SystemWindow {
    pub scale_factor: Float64,
    pub outer_position: Option<PhysicalPosition>,
    pub surface_size: PhysicalSize,
    pub outer_size: PhysicalSize,
    pub fullscreen: bool,
    pub minimized: Option<bool>,
    pub maximized: bool,
    pub focused: bool,
    pub decorated: bool,
    pub resizable: bool,
    pub closable: bool,
    pub minimizable: bool,
    pub maximizable: bool,
    pub visible: Option<bool>,
    pub title: String,
    pub monitor: Option<MonitorFacts>,
    pub theme: Option<Theme>,
    pub handle: Result<RawHandle, HandleError>,
}

impl SystemWindow {
    /// What the window says when it is asked.
    #[verifier::opaque]
    pub open spec fn says(self, query: WindowQuery) -> WindowAnswer {
        match query {
            WindowQuery::ScaleFactor => WindowAnswer::ScaleFactor(self.scale_factor),
            WindowQuery::OuterPosition => WindowAnswer::OuterPosition(self.outer_position),
            WindowQuery::SurfaceSize => WindowAnswer::SurfaceSize(self.surface_size),
            WindowQuery::OuterSize => WindowAnswer::OuterSize(self.outer_size),
            WindowQuery::Fullscreen => WindowAnswer::Fullscreen(self.fullscreen),
            WindowQuery::Minimized => WindowAnswer::Minimized(self.minimized),
            WindowQuery::Maximized => WindowAnswer::Maximized(self.maximized),
            WindowQuery::Focus => WindowAnswer::Focus(self.focused),
            WindowQuery::Decorated => WindowAnswer::Decorated(self.decorated),
            WindowQuery::Resizable => WindowAnswer::Resizable(self.resizable),
            WindowQuery::EnabledButtons(button) => WindowAnswer::EnabledButtons(
                button,
                WindowButtons {
                    close: self.closable,
                    minimize: self.minimizable,
                    maximize: self.maximizable,
                },
            ),
            WindowQuery::Visible => WindowAnswer::Visible(self.visible),
            WindowQuery::Title => WindowAnswer::Title(self.title),
            WindowQuery::CurrentMonitor => WindowAnswer::CurrentMonitor(self.monitor),
            WindowQuery::Theme => WindowAnswer::Theme(self.theme),
            WindowQuery::Handle => WindowAnswer::Handle(self.handle),
        }
    }

    /// Whether the window is as a command wants it.
    pub open spec fn obeys(self, command: WindowCommand) -> bool {
        match command {
            WindowCommand::SetResizable(resizable) => self.resizable == resizable,
            WindowCommand::SetButton(WindowButton::Close, enabled) => self.closable == enabled,
            WindowCommand::SetButton(WindowButton::Minimize, enabled) => self.minimizable
                == enabled,
            WindowCommand::SetButton(WindowButton::Maximize, enabled) => self.maximizable
                == enabled,
            WindowCommand::SetTitle(title) => self.title == title,
            WindowCommand::SetMaximized(maximized) => self.maximized == maximized,
            WindowCommand::SetMinimized(minimized) => self.minimized == Some(minimized),
            WindowCommand::SetVisible(visible) => self.visible == Some(visible),
            WindowCommand::SetDecorations(decorated) => self.decorated == decorated,
            WindowCommand::SetFullscreen(fullscreen) => self.fullscreen == fullscreen,
            WindowCommand::FocusWindow => self.focused,
            _ => true,
        }
    }
}

/// Whether the window under an id is the window `native` of the system.
pub open spec fn is_open(
    windows: Map<WindowId, WindowView>,
    id: WindowId,
    native: NativeWindowId,
) -> bool {
    windows.contains_key(id) && windows[id].window == AppWindowKind::Window(native)
}

/// Whether the window under an id belongs to the browser engine.
pub open spec fn is_browser(windows: Map<WindowId, WindowView>, id: WindowId) -> bool {
    windows.contains_key(id) && windows[id].window == AppWindowKind::BrowserWindow
}

/// Whether a message to the window `native` of the system asks it, and whoever sent the message
/// learns `reply` of a window in the state `window`.
pub open spec fn learns(
    id: WindowId,
    native: NativeWindowId,
    window: SystemWindow,
    message: WindowMessage,
    reply: WindowReply,
) -> bool {
    forall|windows: &mut Windows, effect: WindowEffect|
        #[trigger] call_ensures(handle_window_message, (windows, id, message), effect) && is_open(
            windows@,
            id,
            native,
        ) ==> {
            &&& effect is Query && effect->Query_0 == native
            &&& forall|told: WindowReply| #[trigger]
                call_ensures(answer_query, (window.says(effect->Query_1),), told) ==> told == reply
        }
}

/// Whether a message to the window `native` of the system tells it `command`.
pub open spec fn tells(
    id: WindowId,
    native: NativeWindowId,
    message: WindowMessage,
    command: WindowCommand,
) -> bool {
    forall|windows: &mut Windows, effect: WindowEffect|
        #[trigger] call_ensures(handle_window_message, (windows, id, message), effect) && is_open(
            windows@,
            id,
            native,
        ) ==> effect == WindowEffect::Command(native, command)
}

/// Whether a window of the system is as a message to it wants it.
pub open spec fn follows(
    id: WindowId,
    native: NativeWindowId,
    message: WindowMessage,
    window: SystemWindow,
) -> bool {
    exists|windows: &mut Windows, effect: WindowEffect|
        #[trigger] call_ensures(handle_window_message, (windows, id, message), effect) && is_open(
            windows@,
            id,
            native,
        ) && effect is Command && window.obeys(effect->Command_1)
}

/// Whether nothing is asked or told because of a message, to whatever window.
pub open spec fn is_idle(id: WindowId, message: WindowMessage) -> bool {
    forall|windows: &mut Windows, effect: WindowEffect| #[trigger]
        call_ensures(handle_window_message, (windows, id, message), effect) ==> effect is Nothing
}

/// Whether a message is answered at once with `reply`, where `open` holds of the windows.
pub open spec fn is_told(
    id: WindowId,
    message: WindowMessage,
    open: spec_fn(Map<WindowId, WindowView>) -> bool,
    reply: WindowReply,
) -> bool {
    forall|windows: &mut Windows, effect: WindowEffect|
        #[trigger] call_ensures(handle_window_message, (windows, id, message), effect) && open(
            windows@,
        ) ==> effect == WindowEffect::Reply(reply)
}

/// Whoever asks a window of the system for its scale, its place, its title or its handle is told
/// what the window says. The inner position is the outer one, and a position that the system does
/// not tell is an error.
pub proof fn measures_are_told_as_they_are(
    id: WindowId,
    native: NativeWindowId,
    window: SystemWindow,
)
    ensures
        learns(
            id,
            native,
            window,
            WindowMessage::ScaleFactor,
            WindowReply::ScaleFactor(Ok(window.scale_factor)),
        ),
        window.outer_position matches Some(position) ==> learns(
            id,
            native,
            window,
            WindowMessage::OuterPosition,
            WindowReply::Position(Ok(position)),
        ) && learns(
            id,
            native,
            window,
            WindowMessage::InnerPosition,
            WindowReply::Position(Ok(position)),
        ),
        window.outer_position is None ==> learns(
            id,
            native,
            window,
            WindowMessage::OuterPosition,
            WindowReply::Position(Err(Error::FailedToSendMessage)),
        ) && learns(
            id,
            native,
            window,
            WindowMessage::InnerPosition,
            WindowReply::Position(Err(Error::FailedToSendMessage)),
        ),
        learns(
            id,
            native,
            window,
            WindowMessage::InnerSize,
            WindowReply::Size(Ok(window.surface_size)),
        ),
        learns(
            id,
            native,
            window,
            WindowMessage::OuterSize,
            WindowReply::Size(Ok(window.outer_size)),
        ),
        learns(id, native, window, WindowMessage::Title, WindowReply::Title(Ok(window.title))),
        learns(
            id,
            native,
            window,
            WindowMessage::RawWindowHandle,
            WindowReply::Handle(window.handle),
        ),
{
    reveal(SystemWindow::says);
}

/// Whoever asks a window of the system what it is like is told what the window says: each flag
/// for itself. A flag that the system does not know is `false`.
pub proof fn flags_are_told_as_they_are(id: WindowId, native: NativeWindowId, window: SystemWindow)
    ensures
        learns(
            id,
            native,
            window,
            WindowMessage::IsFullscreen,
            WindowReply::Flag(Ok(window.fullscreen)),
        ),
        learns(
            id,
            native,
            window,
            WindowMessage::IsMaximized,
            WindowReply::Flag(Ok(window.maximized)),
        ),
        learns(id, native, window, WindowMessage::IsFocused, WindowReply::Flag(Ok(window.focused))),
        learns(
            id,
            native,
            window,
            WindowMessage::IsDecorated,
            WindowReply::Flag(Ok(window.decorated)),
        ),
        learns(
            id,
            native,
            window,
            WindowMessage::IsResizable,
            WindowReply::Flag(Ok(window.resizable)),
        ),
        learns(
            id,
            native,
            window,
            WindowMessage::IsMinimized,
            WindowReply::Flag(Ok(window.minimized is Some && window.minimized->0)),
        ),
        learns(
            id,
            native,
            window,
            WindowMessage::IsVisible,
            WindowReply::Flag(Ok(window.visible is Some && window.visible->0)),
        ),
        learns(
            id,
            native,
            window,
            WindowMessage::IsClosable,
            WindowReply::Flag(Ok(window.closable)),
        ),
        learns(
            id,
            native,
            window,
            WindowMessage::IsMinimizable,
            WindowReply::Flag(Ok(window.minimizable)),
        ),
        learns(
            id,
            native,
            window,
            WindowMessage::IsMaximizable,
            WindowReply::Flag(Ok(window.maximizable)),
        ),
{
    reveal(SystemWindow::says);
}

/// Whoever asks a window of the system for its theme is told what the window says, and light
/// where it does not know.
pub proof fn theme_is_told_as_it_is(id: WindowId, native: NativeWindowId, window: SystemWindow)
    ensures
        window.theme matches Some(theme) ==> learns(
            id,
            native,
            window,
            WindowMessage::Theme,
            WindowReply::Theme(Ok(theme)),
        ),
        window.theme is None ==> learns(
            id,
            native,
            window,
            WindowMessage::Theme,
            WindowReply::Theme(Ok(Theme::Light)),
        ),
{
    reveal(SystemWindow::says);
}

/// Whoever asks for the monitor that a window is on learns its size, its position and its scale,
/// all of it being work area; nothing where the size or the position is not known; and an error
/// where the window is on no monitor.
pub proof fn monitor_is_told_as_it_is(id: WindowId, native: NativeWindowId, window: SystemWindow)
    ensures
        window.monitor matches Some(facts) ==> match (facts.video_mode_size, facts.position) {
            (Some(size), Some(position)) => learns(
                id,
                native,
                window,
                WindowMessage::CurrentMonitor,
                WindowReply::Monitor(
                    Ok(
                        Some(
                            Monitor {
                                name: None,
                                size,
                                position,
                                work_area: PhysicalRect { position, size },
                                scale_factor: facts.scale_factor,
                            },
                        ),
                    ),
                ),
            ),
            _ => learns(
                id,
                native,
                window,
                WindowMessage::CurrentMonitor,
                WindowReply::Monitor(Ok(None)),
            ),
        },
        window.monitor is None ==> learns(
            id,
            native,
            window,
            WindowMessage::CurrentMonitor,
            WindowReply::Monitor(Err(Error::FailedToSendMessage)),
        ),
{
    reveal(SystemWindow::says);
}

/// Each setting of a window of the system tells it the very value that was set, be it on or off,
/// and nothing but that setting.
pub proof fn settings_carry_their_value(id: WindowId, native: NativeWindowId, flag: bool)
    ensures
        tells(id, native, WindowMessage::SetFullscreen(flag), WindowCommand::SetFullscreen(flag)),
        tells(id, native, WindowMessage::SetResizable(flag), WindowCommand::SetResizable(flag)),
        tells(id, native, WindowMessage::SetDecorations(flag), WindowCommand::SetDecorations(flag)),
        tells(
            id,
            native,
            WindowMessage::SetContentProtected(flag),
            WindowCommand::SetContentProtected(flag),
        ),
        tells(
            id,
            native,
            WindowMessage::SetClosable(flag),
            WindowCommand::SetButton(WindowButton::Close, flag),
        ),
        tells(
            id,
            native,
            WindowMessage::SetMinimizable(flag),
            WindowCommand::SetButton(WindowButton::Minimize, flag),
        ),
        tells(
            id,
            native,
            WindowMessage::SetMaximizable(flag),
            WindowCommand::SetButton(WindowButton::Maximize, flag),
        ),
{
}

/// A window that is to stay above or below the others gets that level, and one that no longer is
/// gets the normal one.
pub proof fn levels_go_up_and_down(id: WindowId, native: NativeWindowId)
    ensures
        tells(
            id,
            native,
            WindowMessage::SetAlwaysOnTop(true),
            WindowCommand::SetWindowLevel(WindowLevel::AlwaysOnTop),
        ),
        tells(
            id,
            native,
            WindowMessage::SetAlwaysOnBottom(true),
            WindowCommand::SetWindowLevel(WindowLevel::AlwaysOnBottom),
        ),
        tells(
            id,
            native,
            WindowMessage::SetAlwaysOnTop(false),
            WindowCommand::SetWindowLevel(WindowLevel::Normal),
        ),
        tells(
            id,
            native,
            WindowMessage::SetAlwaysOnBottom(false),
            WindowCommand::SetWindowLevel(WindowLevel::Normal),
        ),
{
}

/// Showing and hiding, maximizing and minimizing, and their ends tell the window opposite things.
/// A window is focused and dragged when that is asked for.
pub proof fn actions_reach_the_window(id: WindowId, native: NativeWindowId)
    ensures
        tells(id, native, WindowMessage::Show, WindowCommand::SetVisible(true)),
        tells(id, native, WindowMessage::Hide, WindowCommand::SetVisible(false)),
        tells(id, native, WindowMessage::Maximize, WindowCommand::SetMaximized(true)),
        tells(id, native, WindowMessage::Unmaximize, WindowCommand::SetMaximized(false)),
        tells(id, native, WindowMessage::Minimize, WindowCommand::SetMinimized(true)),
        tells(id, native, WindowMessage::Unminimize, WindowCommand::SetMinimized(false)),
        tells(id, native, WindowMessage::SetFocus, WindowCommand::FocusWindow),
        tells(id, native, WindowMessage::StartDragging, WindowCommand::DragWindow),
{
}

/// A title, a size, a position, an icon and a wish for attention reach the window as they are.
pub proof fn values_reach_the_window(
    id: WindowId,
    native: NativeWindowId,
    title: String,
    size: Size,
    position: Position,
    icon: Icon,
    attention: Option<UserAttentionType>,
)
    ensures
        tells(id, native, WindowMessage::SetTitle(title), WindowCommand::SetTitle(title)),
        tells(id, native, WindowMessage::SetSize(size), WindowCommand::RequestSurfaceSize(size)),
        tells(
            id,
            native,
            WindowMessage::SetPosition(position),
            WindowCommand::SetOuterPosition(position),
        ),
        tells(id, native, WindowMessage::SetIcon(icon), WindowCommand::SetWindowIcon(icon)),
        tells(
            id,
            native,
            WindowMessage::RequestUserAttention(attention),
            WindowCommand::RequestUserAttention(attention),
        ),
{
}

/// What was set is what is told: whoever sets something of a window, and then asks for it, gets
/// back what was set, whatever the window was like before.
pub proof fn what_is_set_is_told(
    id: WindowId,
    native: NativeWindowId,
    window: SystemWindow,
    flag: bool,
    title: String,
)
    ensures
        follows(id, native, WindowMessage::SetFullscreen(flag), window) ==> learns(
            id,
            native,
            window,
            WindowMessage::IsFullscreen,
            WindowReply::Flag(Ok(flag)),
        ),
        follows(id, native, WindowMessage::SetResizable(flag), window) ==> learns(
            id,
            native,
            window,
            WindowMessage::IsResizable,
            WindowReply::Flag(Ok(flag)),
        ),
        follows(id, native, WindowMessage::SetDecorations(flag), window) ==> learns(
            id,
            native,
            window,
            WindowMessage::IsDecorated,
            WindowReply::Flag(Ok(flag)),
        ),
        follows(id, native, WindowMessage::SetClosable(flag), window) ==> learns(
            id,
            native,
            window,
            WindowMessage::IsClosable,
            WindowReply::Flag(Ok(flag)),
        ),
        follows(id, native, WindowMessage::SetMinimizable(flag), window) ==> learns(
            id,
            native,
            window,
            WindowMessage::IsMinimizable,
            WindowReply::Flag(Ok(flag)),
        ),
        follows(id, native, WindowMessage::SetMaximizable(flag), window) ==> learns(
            id,
            native,
            window,
            WindowMessage::IsMaximizable,
            WindowReply::Flag(Ok(flag)),
        ),
        follows(id, native, WindowMessage::SetTitle(title), window) ==> learns(
            id,
            native,
            window,
            WindowMessage::Title,
            WindowReply::Title(Ok(title)),
        ),
{
    reveal(SystemWindow::says);
}

/// What is shown or hidden, maximized, minimized or focused is told to be so.
pub proof fn what_is_done_is_told(id: WindowId, native: NativeWindowId, window: SystemWindow)
    ensures
        follows(id, native, WindowMessage::Show, window) ==> learns(
            id,
            native,
            window,
            WindowMessage::IsVisible,
            WindowReply::Flag(Ok(true)),
        ),
        follows(id, native, WindowMessage::Hide, window) ==> learns(
            id,
            native,
            window,
            WindowMessage::IsVisible,
            WindowReply::Flag(Ok(false)),
        ),
        follows(id, native, WindowMessage::Maximize, window) ==> learns(
            id,
            native,
            window,
            WindowMessage::IsMaximized,
            WindowReply::Flag(Ok(true)),
        ),
        follows(id, native, WindowMessage::Unmaximize, window) ==> learns(
            id,
            native,
            window,
            WindowMessage::IsMaximized,
            WindowReply::Flag(Ok(false)),
        ),
        follows(id, native, WindowMessage::Minimize, window) ==> learns(
            id,
            native,
            window,
            WindowMessage::IsMinimized,
            WindowReply::Flag(Ok(true)),
        ),
        follows(id, native, WindowMessage::Unminimize, window) ==> learns(
            id,
            native,
            window,
            WindowMessage::IsMinimized,
            WindowReply::Flag(Ok(false)),
        ),
        follows(id, native, WindowMessage::SetFocus, window) ==> learns(
            id,
            native,
            window,
            WindowMessage::IsFocused,
            WindowReply::Flag(Ok(true)),
        ),
{
    reveal(SystemWindow::says);
}

/// A window that belongs to the browser engine tells that it has no decorations, cannot be resized
/// and has no buttons, and that it is light. Everything else that is asked of it is an error.
pub proof fn browser_windows_answer_for_themselves(id: WindowId)
    ensures
        ({
            let browser = |windows: Map<WindowId, WindowView>| is_browser(windows, id);
            let none = WindowReply::Flag(Ok(false));
            let unknown = WindowReply::Flag(Err(Error::FailedToSendMessage));
            &&& is_told(id, WindowMessage::IsDecorated, browser, none)
            &&& is_told(id, WindowMessage::IsResizable, browser, none)
            &&& is_told(id, WindowMessage::IsClosable, browser, none)
            &&& is_told(id, WindowMessage::IsMinimizable, browser, none)
            &&& is_told(id, WindowMessage::IsMaximizable, browser, none)
            &&& is_told(id, WindowMessage::Theme, browser, WindowReply::Theme(Ok(Theme::Light)))
            &&& is_told(id, WindowMessage::IsFullscreen, browser, unknown)
            &&& is_told(id, WindowMessage::IsMaximized, browser, unknown)
            &&& is_told(id, WindowMessage::IsMinimized, browser, unknown)
            &&& is_told(id, WindowMessage::IsFocused, browser, unknown)
            &&& is_told(id, WindowMessage::IsVisible, browser, unknown)
        }),
{
}

/// The place, the title, the monitor and the handle of a window that belongs to the browser engine
/// are not to be had.
pub proof fn browser_windows_hide_their_place(id: WindowId)
    ensures
        ({
            let browser = |windows: Map<WindowId, WindowView>| is_browser(windows, id);
            let position = WindowReply::Position(Err(Error::FailedToSendMessage));
            let size = WindowReply::Size(Err(Error::FailedToSendMessage));
            &&& is_told(
                id,
                WindowMessage::ScaleFactor,
                browser,
                WindowReply::ScaleFactor(Err(Error::FailedToSendMessage)),
            )
            &&& is_told(id, WindowMessage::InnerPosition, browser, position)
            &&& is_told(id, WindowMessage::OuterPosition, browser, position)
            &&& is_told(id, WindowMessage::InnerSize, browser, size)
            &&& is_told(id, WindowMessage::OuterSize, browser, size)
            &&& is_told(
                id,
                WindowMessage::Title,
                browser,
                WindowReply::Title(Err(Error::FailedToSendMessage)),
            )
            &&& is_told(
                id,
                WindowMessage::CurrentMonitor,
                browser,
                WindowReply::Monitor(Err(Error::FailedToSendMessage)),
            )
            &&& is_told(
                id,
                WindowMessage::RawWindowHandle,
                browser,
                WindowReply::Handle(Err(HandleError::Unavailable)),
            )
        }),
{
}

/// Of a window that is not there nothing is told but that it cannot be asked, and a light theme.
pub proof fn missing_windows_are_not_told_of(id: WindowId)
    ensures
        ({
            let missing = |windows: Map<WindowId, WindowView>| !windows.contains_key(id);
            let unknown = WindowReply::Flag(Err(Error::FailedToSendMessage));
            &&& is_told(id, WindowMessage::IsDecorated, missing, unknown)
            &&& is_told(id, WindowMessage::IsResizable, missing, unknown)
            &&& is_told(id, WindowMessage::IsClosable, missing, unknown)
            &&& is_told(id, WindowMessage::IsMinimizable, missing, unknown)
            &&& is_told(id, WindowMessage::IsMaximizable, missing, unknown)
            &&& is_told(id, WindowMessage::Theme, missing, WindowReply::Theme(Ok(Theme::Light)))
            &&& is_told(id, WindowMessage::IsFullscreen, missing, unknown)
            &&& is_told(id, WindowMessage::IsMaximized, missing, unknown)
            &&& is_told(id, WindowMessage::IsMinimized, missing, unknown)
            &&& is_told(id, WindowMessage::IsFocused, missing, unknown)
            &&& is_told(id, WindowMessage::IsVisible, missing, unknown)
        }),
{
}

/// The place, the title, the monitor and the handle of a window that is not there are not to be
/// had.
pub proof fn missing_windows_have_no_place(id: WindowId)
    ensures
        ({
            let missing = |windows: Map<WindowId, WindowView>| !windows.contains_key(id);
            let position = WindowReply::Position(Err(Error::FailedToSendMessage));
            let size = WindowReply::Size(Err(Error::FailedToSendMessage));
            &&& is_told(
                id,
                WindowMessage::ScaleFactor,
                missing,
                WindowReply::ScaleFactor(Err(Error::FailedToSendMessage)),
            )
            &&& is_told(id, WindowMessage::InnerPosition, missing, position)
            &&& is_told(id, WindowMessage::OuterPosition, missing, position)
            &&& is_told(id, WindowMessage::InnerSize, missing, size)
            &&& is_told(id, WindowMessage::OuterSize, missing, size)
            &&& is_told(
                id,
                WindowMessage::Title,
                missing,
                WindowReply::Title(Err(Error::FailedToSendMessage)),
            )
            &&& is_told(
                id,
                WindowMessage::CurrentMonitor,
                missing,
                WindowReply::Monitor(Err(Error::FailedToSendMessage)),
            )
            &&& is_told(
                id,
                WindowMessage::RawWindowHandle,
                missing,
                WindowReply::Handle(Err(HandleError::Unavailable)),
            )
        }),
{
}

/// An open window is told the command of a message, and asked its question, exactly where the
/// message has one. Any other window is answered for with the refusal of the question.
pub proof fn messages_come_to_their_commands(id: WindowId, message: WindowMessage)
    ensures
        forall|
            windows: &mut Windows,
            effect: WindowEffect,
            command: Option<WindowCommand>,
            query: Option<WindowQuery>,
        |
            #[trigger] call_ensures(handle_window_message, (windows, id, message), effect)
                && #[trigger] call_ensures(WindowMessage::into_command, (message,), command)
                && #[trigger] call_ensures(WindowMessage::query, (&message,), query) ==> {
                let open = windows@.contains_key(id) && windows@[id].window is Window;
                &&& effect is Command <==> open && command is Some
                &&& effect is Command ==> Some(effect->Command_1) == command
                &&& effect is Query <==> open && query is Some
                &&& effect is Query ==> Some(effect->Query_1) == query
                &&& query is Some && !open ==> effect is Reply
            },
        forall|windows: &mut Windows, effect: WindowEffect, query: WindowQuery, reply: WindowReply|
            #[trigger] call_ensures(handle_window_message, (windows, id, message), effect)
                && #[trigger] call_ensures(WindowMessage::query, (&message,), Some(query))
                && #[trigger] call_ensures(
                WindowQuery::refusal,
                (query, windows@.contains_key(id)),
                reply,
            ) && !(windows@.contains_key(id) && windows@[id].window is Window) ==> effect
                == WindowEffect::Reply(reply),
{
}

/// Every window is enabled, and none says that it stays above the others.
pub proof fn some_answers_are_always_the_same(id: WindowId)
    ensures
        ({
            let any = |windows: Map<WindowId, WindowView>| true;
            &&& is_told(id, WindowMessage::IsEnabled, any, WindowReply::Flag(Ok(true)))
            &&& is_told(
                id,
                WindowMessage::IsAlwaysOnTop,
                any,
                WindowReply::Flag(Err(Error::FailedToSendMessage)),
            )
        }),
{
}

/// Monitors are asked of the browser engine, whatever window the question goes to: the primary
/// one, the one at the very point that was asked for, or all. What it answers is told as it is.
pub proof fn monitors_are_asked_of_the_engine(
    id: WindowId,
    x: Float64,
    y: Float64,
    monitor: Option<Monitor>,
    monitors: Vec<Monitor>,
)
    ensures
        forall|windows: &mut Windows, effect: WindowEffect| #[trigger]
            call_ensures(
                handle_window_message,
                (windows, id, WindowMessage::PrimaryMonitor),
                effect,
            ) ==> effect == WindowEffect::Displays(DisplayQuery::Primary),
        forall|windows: &mut Windows, effect: WindowEffect| #[trigger]
            call_ensures(
                handle_window_message,
                (windows, id, WindowMessage::MonitorFromPoint(x, y)),
                effect,
            ) ==> effect == WindowEffect::Displays(DisplayQuery::AtPoint(x, y)),
        forall|windows: &mut Windows, effect: WindowEffect| #[trigger]
            call_ensures(
                handle_window_message,
                (windows, id, WindowMessage::AvailableMonitors),
                effect,
            ) ==> effect == WindowEffect::Displays(DisplayQuery::All),
        forall|reply: WindowReply| #[trigger]
            call_ensures(answer_displays, (DisplayAnswer::Monitor(monitor),), reply) ==> reply
                == WindowReply::Monitor(Ok(monitor)),
        forall|reply: WindowReply| #[trigger]
            call_ensures(answer_displays, (DisplayAnswer::Monitors(monitors),), reply) ==> reply
                == WindowReply::Monitors(Ok(monitors)),
{
}

/// A window that is not open is told nothing and asked nothing, whatever the message.
pub proof fn only_open_windows_are_reached(id: WindowId, message: WindowMessage)
    ensures
        forall|windows: &mut Windows, effect: WindowEffect| #[trigger]
            call_ensures(handle_window_message, (windows, id, message), effect) ==> {
                &&& effect is Command ==> is_open(windows@, id, effect->Command_0)
                &&& effect is Query ==> is_open(windows@, id, effect->Query_0)
            },
{
}

/// A message that has no use yet asks nothing and tells nothing.
pub proof fn idle_messages_do_nothing(
    id: WindowId,
    flag: bool,
    position: Position,
    size: Option<Size>,
    theme: Option<Theme>,
    label: Option<String>,
    icon: Option<Icon>,
)
    ensures
        is_idle(id, WindowMessage::Close),
        is_idle(id, WindowMessage::Destroy),
        is_idle(id, WindowMessage::Center),
        is_idle(id, WindowMessage::SetEnabled(flag)),
        is_idle(id, WindowMessage::SetShadow(flag)),
        is_idle(id, WindowMessage::SetVisibleOnAllWorkspaces(flag)),
        is_idle(id, WindowMessage::SetMinSize(size)),
        is_idle(id, WindowMessage::SetMaxSize(size)),
        is_idle(id, WindowMessage::SetSimpleFullscreen(flag)),
        is_idle(id, WindowMessage::SetFocusable(flag)),
        is_idle(id, WindowMessage::SetSkipTaskbar(flag)),
        is_idle(id, WindowMessage::SetCursorGrab(flag)),
        is_idle(id, WindowMessage::SetCursorVisible(flag)),
        is_idle(id, WindowMessage::SetCursorPosition(position)),
        is_idle(id, WindowMessage::SetIgnoreCursorEvents(flag)),
        is_idle(id, WindowMessage::SetBadgeLabel(label)),
        is_idle(id, WindowMessage::SetOverlayIcon(icon)),
        is_idle(id, WindowMessage::SetTrafficLightPosition(position)),
        is_idle(id, WindowMessage::SetTheme(theme)),
{
}

/// Messages that only mean something to the system, and more that have no use yet, ask nothing
/// and tell nothing.
pub proof fn more_idle_messages_do_nothing(
    id: WindowId,
    icon: CursorIcon,
    progress: ProgressBarState,
    count: Option<i64>,
    desktop_filename: Option<String>,
    style: TitleBarStyle,
    color: Option<Color>,
    direction: ResizeDirection,
    constraints: WindowSizeConstraints,
    event_id: u32,
    handler: HandlerId,
)
    ensures
        is_idle(id, WindowMessage::SetCursorIcon(icon)),
        is_idle(id, WindowMessage::SetProgressBar(progress)),
        is_idle(id, WindowMessage::SetBadgeCount(count, desktop_filename)),
        is_idle(id, WindowMessage::SetTitleBarStyle(style)),
        is_idle(id, WindowMessage::SetBackgroundColor(color)),
        is_idle(id, WindowMessage::StartResizeDragging(direction)),
        is_idle(id, WindowMessage::SetSizeConstraints(constraints)),
        is_idle(id, WindowMessage::AddEventListener(event_id, handler)),
{
}

/// What is known of a window changes by three messages only: it is told to close, someone listens
/// to it, or the limits on its size are set.
pub proof fn few_messages_change_what_is_known(id: WindowId, message: WindowMessage)
    requires
        !(message is Destroy),
        !(message is AddEventListener),
        !(message is SetSizeConstraints),
    ensures
        forall|windows: &mut Windows, effect: WindowEffect| #[trigger]
            call_ensures(handle_window_message, (windows, id, message), effect) ==> final(windows)@
                == windows@,
{
    assert forall|windows: &mut Windows, effect: WindowEffect| #[trigger]
        call_ensures(handle_window_message, (windows, id, message), effect) implies final(windows)@
        == windows@ by {
        assert(final(windows)@ =~= windows@);
    }
}

/// Whatever the message, no window is opened or closed by it, all other windows stay as they were,
/// and so do the label and the webviews of its own, and those who listen to them.
pub proof fn other_windows_are_left_alone(id: WindowId, message: WindowMessage, other: WindowId)
    ensures
        forall|windows: &mut Windows, effect: WindowEffect| #[trigger]
            call_ensures(handle_window_message, (windows, id, message), effect) ==> {
                let before = windows@;
                let after = final(windows)@;
                &&& after.contains_key(other) <==> before.contains_key(other)
                &&& other != id ==> after[other] == before[other]
                &&& after[id].label == before[id].label
                &&& after[id].window == before[id].window
                &&& after[id].webviews == before[id].webviews
                &&& after[id].webview_event_listeners == before[id].webview_event_listeners
            },
        forall|windows: &mut Windows| #[trigger]
            call_ensures(on_window_close, (windows, id), ()) ==> {
                let before = windows@;
                let after = final(windows)@;
                &&& after.contains_key(other) <==> before.contains_key(other)
                &&& other != id ==> after[other] == before[other]
                &&& before.contains_key(id) ==> after[id] == WindowView {
                    force_close: true,
                    ..before[id]
                }
            },
{
}

/// A window that is destroyed closes without asking, and is otherwise as it was; a listener that
/// is added is there then, with all the others; and the limits on the size are those that were
/// set, with every other attribute as it was.
pub proof fn some_messages_change_what_is_known(
    id: WindowId,
    event_id: u32,
    handler: HandlerId,
    other: u32,
    constraints: WindowSizeConstraints,
)
    requires
        other != event_id,
    ensures
        forall|windows: &mut Windows, effect: WindowEffect|
            #[trigger] call_ensures(
                handle_window_message,
                (windows, id, WindowMessage::Destroy),
                effect,
            ) && windows@.contains_key(id) ==> final(windows)@[id] == (WindowView {
                force_close: true,
                ..windows@[id]
            }),
        forall|windows: &mut Windows, effect: WindowEffect|
            #[trigger] call_ensures(
                handle_window_message,
                (windows, id, WindowMessage::AddEventListener(event_id, handler)),
                effect,
            ) && windows@.contains_key(id) ==> {
                let before = windows@[id];
                let after = final(windows)@[id];
                &&& after.window_event_listeners.contains_key(event_id)
                &&& after.window_event_listeners[event_id] == handler
                &&& after.window_event_listeners.contains_key(other)
                    == before.window_event_listeners.contains_key(other)
                &&& before.window_event_listeners.contains_key(other)
                    ==> after.window_event_listeners[other] == before.window_event_listeners[other]
                &&& after.force_close == before.force_close
                &&& after.attributes == before.attributes
            },
        forall|windows: &mut Windows, effect: WindowEffect|
            #[trigger] call_ensures(
                handle_window_message,
                (windows, id, WindowMessage::SetSizeConstraints(constraints)),
                effect,
            ) && windows@.contains_key(id) ==> {
                let before = windows@[id];
                let after = final(windows)@[id];
                &&& after.attributes.inner_size_constraints == Some(constraints)
                &&& after.attributes.attrs == before.attributes.attrs
                &&& after.attributes.macos_attrs == before.attributes.macos_attrs
                &&& after.attributes.browser_window == before.attributes.browser_window
                &&& after.attributes.center == before.attributes.center
                &&& after.force_close == before.force_close
                &&& after.window_event_listeners == before.window_event_listeners
            },
{
}

} // verus!
