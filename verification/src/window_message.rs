//! The messages that a window handles.
//!
//! Handling a message changes what is known of the window, and tells what the system's window
//! is asked or told to do.
use vstd::prelude::*;

use crate::color::Color;
use crate::error::{Error, HandleError};
use crate::geometry::{
    Float64, PhysicalPosition, PhysicalRect, PhysicalSize, Position, Size, WindowSizeConstraints,
};
use crate::monitor::Monitor;
use crate::webview::{HandlerId, NativeWindowId, WindowId};
use crate::window::{WindowView, Windows};
use crate::window_builder::{
    icon_problem, CefWindowBuilder, Icon, Theme, TitleBarStyle, WindowButton, WindowButtons,
    WindowLevel,
};

verus! {

/// How urgently a window asks for attention.
#[derive(Debug, Clone, Copy, PartialEq, Eq, Structural)]
pub enum UserAttentionType {
    Critical,
    Informational,
}

/// The edge or corner that a window is resized by.
#[derive(Debug, Clone, Copy, PartialEq, Eq, Structural)]
pub enum ResizeDirection {
    East,
    North,
    NorthEast,
    NorthWest,
    South,
    SouthEast,
    SouthWest,
    West,
}

/// The state of a progress bar.
#[derive(Debug, Clone, Copy, PartialEq, Eq, Structural)]
pub enum ProgressBarStatus {
    Hidden,
    Normal,
    Indeterminate,
    Paused,
    Failed,
}

/// What a progress bar shows; what is `None` stays as it was.
#[derive(Debug, PartialEq, Eq)]
pub struct ProgressBarState {
    pub status: Option<ProgressBarStatus>,
    pub progress: Option<u64>,
    pub desktop_filename: Option<String>,
}

/// The look of the cursor over a window.
#[derive(Debug, Clone, Copy, PartialEq, Eq, Structural)]
pub enum CursorIcon {
    Default,
    Crosshair,
    Hand,
    Arrow,
    Move,
    Text,
    Wait,
    Help,
    Progress,
    NotAllowed,
    ContextMenu,
    Cell,
    VerticalText,
    Alias,
    Copy,
    NoDrop,
    Grab,
    Grabbing,
    AllScroll,
    ZoomIn,
    ZoomOut,
    EResize,
    NResize,
    NeResize,
    NwResize,
    SResize,
    SeResize,
    SwResize,
    WResize,
    EwResize,
    NsResize,
    NeswResize,
    NwseResize,
    ColResize,
    RowResize,
}

/// The raw handle of a window of the system.
#[derive(Debug, Clone, Copy, PartialEq, Eq, Structural)]
pub enum RawHandle {
    /// The view of a macOS window.
    AppKit(u64),
    /// An X11 window.
    Xlib(u64),
    /// A window of another system.
    Other(u64),
}

/// A message to a window.
#[derive(Debug)]
pub enum WindowMessage {
    Close,
    Destroy,
    AddEventListener(u32, HandlerId),
    ScaleFactor,
    InnerPosition,
    OuterPosition,
    InnerSize,
    OuterSize,
    IsFullscreen,
    IsMinimized,
    IsMaximized,
    IsFocused,
    IsDecorated,
    IsResizable,
    IsMaximizable,
    IsMinimizable,
    IsClosable,
    IsVisible,
    Title,
    CurrentMonitor,
    PrimaryMonitor,
    MonitorFromPoint(Float64, Float64),
    AvailableMonitors,
    Theme,
    IsEnabled,
    IsAlwaysOnTop,
    RawWindowHandle,
    Center,
    RequestUserAttention(Option<UserAttentionType>),
    SetEnabled(bool),
    SetResizable(bool),
    SetMaximizable(bool),
    SetMinimizable(bool),
    SetClosable(bool),
    SetTitle(String),
    Maximize,
    Unmaximize,
    Minimize,
    Unminimize,
    Show,
    Hide,
    SetDecorations(bool),
    SetShadow(bool),
    SetAlwaysOnBottom(bool),
    SetAlwaysOnTop(bool),
    SetVisibleOnAllWorkspaces(bool),
    SetContentProtected(bool),
    SetSize(Size),
    SetMinSize(Option<Size>),
    SetMaxSize(Option<Size>),
    SetSizeConstraints(WindowSizeConstraints),
    SetPosition(Position),
    SetFullscreen(bool),
    SetSimpleFullscreen(bool),
    SetFocus,
    SetFocusable(bool),
    SetIcon(Icon),
    SetSkipTaskbar(bool),
    SetCursorGrab(bool),
    SetCursorVisible(bool),
    SetCursorIcon(CursorIcon),
    SetCursorPosition(Position),
    SetIgnoreCursorEvents(bool),
    SetProgressBar(ProgressBarState),
    SetBadgeCount(Option<i64>, Option<String>),
    SetBadgeLabel(Option<String>),
    SetOverlayIcon(Option<Icon>),
    SetTitleBarStyle(TitleBarStyle),
    SetTrafficLightPosition(Position),
    SetTheme(Option<Theme>),
    SetBackgroundColor(Option<Color>),
    StartDragging,
    StartResizeDragging(ResizeDirection),
}

/// What a window of the system is asked.
#[derive(Debug, Clone, Copy, PartialEq, Eq, Structural)]
pub enum WindowQuery {
    ScaleFactor,
    OuterPosition,
    SurfaceSize,
    OuterSize,
    Fullscreen,
    Minimized,
    Maximized,
    Focus,
    Decorated,
    Resizable,
    /// Whether a button is enabled.
    EnabledButtons(WindowButton),
    Visible,
    Title,
    CurrentMonitor,
    Theme,
    Handle,
}

/// What a window of the system is told.
#[derive(Debug)]
pub enum WindowCommand {
    RequestUserAttention(Option<UserAttentionType>),
    SetResizable(bool),
    /// Enable or disable one button, and leave the others.
    SetButton(WindowButton, bool),
    SetTitle(String),
    SetMaximized(bool),
    SetMinimized(bool),
    SetVisible(bool),
    SetDecorations(bool),
    SetWindowLevel(WindowLevel),
    SetContentProtected(bool),
    RequestSurfaceSize(Size),
    SetOuterPosition(Position),
    /// Fullscreen without borders on the screen that the window is on, or no longer fullscreen.
    SetFullscreen(bool),
    FocusWindow,
    SetWindowIcon(Icon),
    DragWindow,
}

/// What the browser engine is asked of the displays.
#[derive(Debug, Clone, Copy, PartialEq, Eq, Structural)]
pub enum DisplayQuery {
    Primary,
    AtPoint(Float64, Float64),
    All,
}

/// What whoever sent a message is told.
#[derive(Debug)]
pub enum WindowReply {
    ScaleFactor(Result<Float64, Error>),
    Position(Result<PhysicalPosition, Error>),
    Size(Result<PhysicalSize, Error>),
    Flag(Result<bool, Error>),
    Title(Result<String, Error>),
    Monitor(Result<Option<Monitor>, Error>),
    Monitors(Result<Vec<Monitor>, Error>),
    Theme(Result<Theme, Error>),
    Handle(Result<RawHandle, HandleError>),
}

/// What is to be done about a message.
#[derive(Debug)]
pub enum WindowEffect {
    Nothing,
    Command(NativeWindowId, WindowCommand),
    /// Ask the window, and reply with what `answer_query` makes of the answer.
    Query(NativeWindowId, WindowQuery),
    /// Ask for the displays, and reply with what `answer_displays` makes of them.
    Displays(DisplayQuery),
    Reply(WindowReply),
}

/// What a window says of the monitor that it is on.
#[derive(Debug, Clone, Copy, PartialEq, Eq, Structural)]
pub struct MonitorFacts {
    /// The size of the current video mode, where there is one.
    pub video_mode_size: Option<PhysicalSize>,
    pub position: Option<PhysicalPosition>,
    pub scale_factor: Float64,
}

/// What a window of the system answers to a query.
#[derive(Debug)]
pub enum WindowAnswer {
    ScaleFactor(Float64),
    /// The position; `None` where the system refuses to tell.
    OuterPosition(Option<PhysicalPosition>),
    SurfaceSize(PhysicalSize),
    OuterSize(PhysicalSize),
    Fullscreen(bool),
    Minimized(Option<bool>),
    Maximized(bool),
    Focus(bool),
    Decorated(bool),
    Resizable(bool),
    /// The button that was asked for, and the buttons that are enabled.
    EnabledButtons(WindowButton, WindowButtons),
    Visible(Option<bool>),
    Title(String),
    CurrentMonitor(Option<MonitorFacts>),
    Theme(Option<Theme>),
    Handle(Result<RawHandle, HandleError>),
}

/// What the displays of the browser engine come to.
#[derive(Debug)]
pub enum DisplayAnswer {
    Monitor(Option<Monitor>),
    Monitors(Vec<Monitor>),
}

impl WindowMessage {
    /// What the system's window is asked for a message that wants an answer of it. The inner
    /// and the outer position are the same.
    pub open spec fn spec_query(self) -> Option<WindowQuery> {
        match self {
            WindowMessage::ScaleFactor => Some(WindowQuery::ScaleFactor),
            WindowMessage::InnerPosition => Some(WindowQuery::OuterPosition),
            WindowMessage::OuterPosition => Some(WindowQuery::OuterPosition),
            WindowMessage::InnerSize => Some(WindowQuery::SurfaceSize),
            WindowMessage::OuterSize => Some(WindowQuery::OuterSize),
            WindowMessage::IsFullscreen => Some(WindowQuery::Fullscreen),
            WindowMessage::IsMinimized => Some(WindowQuery::Minimized),
            WindowMessage::IsMaximized => Some(WindowQuery::Maximized),
            WindowMessage::IsFocused => Some(WindowQuery::Focus),
            WindowMessage::IsDecorated => Some(WindowQuery::Decorated),
            WindowMessage::IsResizable => Some(WindowQuery::Resizable),
            WindowMessage::IsMaximizable => Some(WindowQuery::EnabledButtons(WindowButton::Maximize)),
            WindowMessage::IsMinimizable => Some(WindowQuery::EnabledButtons(WindowButton::Minimize)),
            WindowMessage::IsClosable => Some(WindowQuery::EnabledButtons(WindowButton::Close)),
            WindowMessage::IsVisible => Some(WindowQuery::Visible),
            WindowMessage::Title => Some(WindowQuery::Title),
            WindowMessage::CurrentMonitor => Some(WindowQuery::CurrentMonitor),
            WindowMessage::Theme => Some(WindowQuery::Theme),
            WindowMessage::RawWindowHandle => Some(WindowQuery::Handle),
            _ => None,
        }
    }

    /// What the system's window is asked for the message.
    pub fn query(&self) -> (query: Option<WindowQuery>)
        ensures
            query == self.spec_query(),
    {
        match self {
            WindowMessage::ScaleFactor => Some(WindowQuery::ScaleFactor),
            WindowMessage::InnerPosition => Some(WindowQuery::OuterPosition),
            WindowMessage::OuterPosition => Some(WindowQuery::OuterPosition),
            WindowMessage::InnerSize => Some(WindowQuery::SurfaceSize),
            WindowMessage::OuterSize => Some(WindowQuery::OuterSize),
            WindowMessage::IsFullscreen => Some(WindowQuery::Fullscreen),
            WindowMessage::IsMinimized => Some(WindowQuery::Minimized),
            WindowMessage::IsMaximized => Some(WindowQuery::Maximized),
            WindowMessage::IsFocused => Some(WindowQuery::Focus),
            WindowMessage::IsDecorated => Some(WindowQuery::Decorated),
            WindowMessage::IsResizable => Some(WindowQuery::Resizable),
            WindowMessage::IsMaximizable => Some(WindowQuery::EnabledButtons(WindowButton::Maximize)),
            WindowMessage::IsMinimizable => Some(WindowQuery::EnabledButtons(WindowButton::Minimize)),
            WindowMessage::IsClosable => Some(WindowQuery::EnabledButtons(WindowButton::Close)),
            WindowMessage::IsVisible => Some(WindowQuery::Visible),
            WindowMessage::Title => Some(WindowQuery::Title),
            WindowMessage::CurrentMonitor => Some(WindowQuery::CurrentMonitor),
            WindowMessage::Theme => Some(WindowQuery::Theme),
            WindowMessage::RawWindowHandle => Some(WindowQuery::Handle),
            _ => None,
        }
    }

    /// What the system's window is told for a message that changes it.
    pub open spec fn spec_command(self) -> Option<WindowCommand> {
        match self {
            WindowMessage::RequestUserAttention(attention) => Some(WindowCommand::RequestUserAttention(attention)),
            WindowMessage::SetResizable(resizable) => Some(WindowCommand::SetResizable(resizable)),
            WindowMessage::SetMaximizable(enabled) => Some(WindowCommand::SetButton(WindowButton::Maximize, enabled)),
            WindowMessage::SetMinimizable(enabled) => Some(WindowCommand::SetButton(WindowButton::Minimize, enabled)),
            WindowMessage::SetClosable(enabled) => Some(WindowCommand::SetButton(WindowButton::Close, enabled)),
            WindowMessage::SetTitle(title) => Some(WindowCommand::SetTitle(title)),
            WindowMessage::Maximize => Some(WindowCommand::SetMaximized(true)),
            WindowMessage::Unmaximize => Some(WindowCommand::SetMaximized(false)),
            WindowMessage::Minimize => Some(WindowCommand::SetMinimized(true)),
            WindowMessage::Unminimize => Some(WindowCommand::SetMinimized(false)),
            WindowMessage::Show => Some(WindowCommand::SetVisible(true)),
            WindowMessage::Hide => Some(WindowCommand::SetVisible(false)),
            WindowMessage::SetDecorations(decorations) => Some(WindowCommand::SetDecorations(decorations)),
            WindowMessage::SetAlwaysOnBottom(bottom) => Some(
                WindowCommand::SetWindowLevel(
                    if bottom {
                        WindowLevel::AlwaysOnBottom
                    } else {
                        WindowLevel::Normal
                    },
                ),
            ),
            WindowMessage::SetAlwaysOnTop(top) => Some(
                WindowCommand::SetWindowLevel(
                    if top {
                        WindowLevel::AlwaysOnTop
                    } else {
                        WindowLevel::Normal
                    },
                ),
            ),
            WindowMessage::SetContentProtected(protected) => Some(WindowCommand::SetContentProtected(protected)),
            WindowMessage::SetSize(size) => Some(WindowCommand::RequestSurfaceSize(size)),
            WindowMessage::SetPosition(position) => Some(WindowCommand::SetOuterPosition(position)),
            WindowMessage::SetFullscreen(fullscreen) => Some(WindowCommand::SetFullscreen(fullscreen)),
            WindowMessage::SetFocus => Some(WindowCommand::FocusWindow),
            WindowMessage::SetIcon(icon) => Some(WindowCommand::SetWindowIcon(icon)),
            WindowMessage::StartDragging => Some(WindowCommand::DragWindow),
            _ => None,
        }
    }

    /// What the system's window is told for the message.
    pub fn into_command(self) -> (command: Option<WindowCommand>)
        ensures
            command == self.spec_command(),
    {
        match self {
            WindowMessage::RequestUserAttention(attention) => Some(WindowCommand::RequestUserAttention(attention)),
            WindowMessage::SetResizable(resizable) => Some(WindowCommand::SetResizable(resizable)),
            WindowMessage::SetMaximizable(enabled) => Some(WindowCommand::SetButton(WindowButton::Maximize, enabled)),
            WindowMessage::SetMinimizable(enabled) => Some(WindowCommand::SetButton(WindowButton::Minimize, enabled)),
            WindowMessage::SetClosable(enabled) => Some(WindowCommand::SetButton(WindowButton::Close, enabled)),
            WindowMessage::SetTitle(title) => Some(WindowCommand::SetTitle(title)),
            WindowMessage::Maximize => Some(WindowCommand::SetMaximized(true)),
            WindowMessage::Unmaximize => Some(WindowCommand::SetMaximized(false)),
            WindowMessage::Minimize => Some(WindowCommand::SetMinimized(true)),
            WindowMessage::Unminimize => Some(WindowCommand::SetMinimized(false)),
            WindowMessage::Show => Some(WindowCommand::SetVisible(true)),
            WindowMessage::Hide => Some(WindowCommand::SetVisible(false)),
            WindowMessage::SetDecorations(decorations) => Some(WindowCommand::SetDecorations(decorations)),
            WindowMessage::SetAlwaysOnBottom(bottom) => Some(
                WindowCommand::SetWindowLevel(
                    if bottom {
                        WindowLevel::AlwaysOnBottom
                    } else {
                        WindowLevel::Normal
                    },
                ),
            ),
            WindowMessage::SetAlwaysOnTop(top) => Some(
                WindowCommand::SetWindowLevel(
                    if top {
                        WindowLevel::AlwaysOnTop
                    } else {
                        WindowLevel::Normal
                    },
                ),
            ),
            WindowMessage::SetContentProtected(protected) => Some(WindowCommand::SetContentProtected(protected)),
            WindowMessage::SetSize(size) => Some(WindowCommand::RequestSurfaceSize(size)),
            WindowMessage::SetPosition(position) => Some(WindowCommand::SetOuterPosition(position)),
            WindowMessage::SetFullscreen(fullscreen) => Some(WindowCommand::SetFullscreen(fullscreen)),
            WindowMessage::SetFocus => Some(WindowCommand::FocusWindow),
            WindowMessage::SetIcon(icon) => Some(WindowCommand::SetWindowIcon(icon)),
            WindowMessage::StartDragging => Some(WindowCommand::DragWindow),
            _ => None,
        }
    }
}

impl WindowQuery {
    /// The reply where no window of the system can be asked: an error, except that the theme
    /// is then light, and that a browser window has no decorations, cannot be resized and has
    /// no buttons.
    pub open spec fn spec_refusal(self, registered: bool) -> WindowReply {
        match self {
            WindowQuery::ScaleFactor => WindowReply::ScaleFactor(Err(Error::FailedToSendMessage)),
            WindowQuery::OuterPosition => WindowReply::Position(Err(Error::FailedToSendMessage)),
            WindowQuery::SurfaceSize | WindowQuery::OuterSize => WindowReply::Size(
                Err(Error::FailedToSendMessage),
            ),
            WindowQuery::Decorated | WindowQuery::Resizable | WindowQuery::EnabledButtons(
                _,
            ) => WindowReply::Flag(
                if registered {
                    Ok(false)
                } else {
                    Err(Error::FailedToSendMessage)
                },
            ),
            WindowQuery::Title => WindowReply::Title(Err(Error::FailedToSendMessage)),
            WindowQuery::CurrentMonitor => WindowReply::Monitor(Err(Error::FailedToSendMessage)),
            WindowQuery::Theme => WindowReply::Theme(Ok(Theme::Light)),
            WindowQuery::Handle => WindowReply::Handle(Err(HandleError::Unavailable)),
            _ => WindowReply::Flag(Err(Error::FailedToSendMessage)),
        }
    }

    /// The reply where no window of the system can be asked; `registered` says whether the
    /// message was for a window that is there.
    pub fn refusal(self, registered: bool) -> (reply: WindowReply)
        ensures
            reply == self.spec_refusal(registered),
    {
        match self {
            WindowQuery::ScaleFactor => WindowReply::ScaleFactor(Err(Error::FailedToSendMessage)),
            WindowQuery::OuterPosition => WindowReply::Position(Err(Error::FailedToSendMessage)),
            WindowQuery::SurfaceSize | WindowQuery::OuterSize => WindowReply::Size(
                Err(Error::FailedToSendMessage),
            ),
            WindowQuery::Decorated | WindowQuery::Resizable | WindowQuery::EnabledButtons(
                _,
            ) => WindowReply::Flag(
                if registered {
                    Ok(false)
                } else {
                    Err(Error::FailedToSendMessage)
                },
            ),
            WindowQuery::Title => WindowReply::Title(Err(Error::FailedToSendMessage)),
            WindowQuery::CurrentMonitor => WindowReply::Monitor(Err(Error::FailedToSendMessage)),
            WindowQuery::Theme => WindowReply::Theme(Ok(Theme::Light)),
            WindowQuery::Handle => WindowReply::Handle(Err(HandleError::Unavailable)),
            _ => WindowReply::Flag(Err(Error::FailedToSendMessage)),
        }
    }
}

/// The window of the system that a message to `id` goes to.
pub open spec fn native_window(windows: Map<WindowId, WindowView>, id: WindowId) -> Option<
    NativeWindowId,
> {
    if windows.contains_key(id) {
        windows[id].native()
    } else {
        None
    }
}

/// Whether the message can be handled: an icon for a window of the system must be one.
pub open spec fn can_handle(
    windows: Map<WindowId, WindowView>,
    id: WindowId,
    message: WindowMessage,
) -> bool {
    message matches WindowMessage::SetIcon(icon) ==> native_window(windows, id) is Some ==> {
        &&& icon.width * icon.height <= u32::MAX
        &&& icon_problem(icon.rgba@.len(), icon.width, icon.height) is None
    }
}

/// What is to be done about a message to the window `id`.
pub open spec fn window_effect(
    windows: Map<WindowId, WindowView>,
    id: WindowId,
    message: WindowMessage,
) -> WindowEffect {
    let native = native_window(windows, id);
    match message {
        WindowMessage::PrimaryMonitor => WindowEffect::Displays(DisplayQuery::Primary),
        WindowMessage::MonitorFromPoint(x, y) => WindowEffect::Displays(
            DisplayQuery::AtPoint(x, y),
        ),
        WindowMessage::AvailableMonitors => WindowEffect::Displays(DisplayQuery::All),
        WindowMessage::IsEnabled => WindowEffect::Reply(WindowReply::Flag(Ok(true))),
        WindowMessage::IsAlwaysOnTop => WindowEffect::Reply(
            WindowReply::Flag(Err(Error::FailedToSendMessage)),
        ),
        _ => match (message.spec_query(), message.spec_command(), native) {
            (Some(query), _, Some(native)) => WindowEffect::Query(native, query),
            (Some(query), _, None) => WindowEffect::Reply(
                query.spec_refusal(windows.contains_key(id)),
            ),
            (None, Some(command), Some(native)) => WindowEffect::Command(native, command),
            _ => WindowEffect::Nothing,
        },
    }
}

/// The window after a message to it.
pub open spec fn window_after(window: WindowView, message: WindowMessage) -> WindowView {
    match message {
        WindowMessage::Destroy => WindowView { force_close: true, ..window },
        WindowMessage::AddEventListener(event_id, handler) => WindowView {
            window_event_listeners: window.window_event_listeners.insert(event_id, handler),
            ..window
        },
        WindowMessage::SetSizeConstraints(constraints) => WindowView {
            attributes: CefWindowBuilder {
                inner_size_constraints: Some(constraints),
                ..window.attributes
            },
            ..window
        },
        _ => window,
    }
}

/// The windows after a message to the window `id`.
pub open spec fn windows_after(
    windows: Map<WindowId, WindowView>,
    id: WindowId,
    message: WindowMessage,
) -> Map<WindowId, WindowView> {
    if windows.contains_key(id) {
        windows.insert(id, window_after(windows[id], message))
    } else {
        windows
    }
}

/// Lets a window close without asking; where there is none, nothing happens.
pub fn on_window_close(windows: &mut Windows, id: WindowId)
    ensures
        final(windows)@ == windows_after(old(windows)@, id, WindowMessage::Destroy),
{
    if let Some(window) = windows.remove(id) {
        let mut window = window;
        window.force_close = true;
        windows.insert(id, window);
    }
    assert(windows@ =~= windows_after(old(windows)@, id, WindowMessage::Destroy));
}

/// Handles a message to the window `id`.
///
/// Only the window's own entry can change. A message that the system's window must answer or
/// carry out reaches it exactly if the window is there and is no browser window.
pub fn handle_window_message(
    windows: &mut Windows,
    id: WindowId,
    message: WindowMessage,
) -> (effect: WindowEffect)
    requires
        can_handle(old(windows)@, id, message),
    ensures
        effect == window_effect(old(windows)@, id, message),
        final(windows)@ == windows_after(old(windows)@, id, message),
{
    let (registered, native) = match windows.get(id) {
        Some(window) => (true, window.window()),
        None => (false, None),
    };
    let ghost before = windows@;
    assert(windows_after(before, id, WindowMessage::Close) =~= before);
    if let Some(query) = message.query() {
        return match native {
            Some(native) => WindowEffect::Query(native, query),
            None => WindowEffect::Reply(query.refusal(registered)),
        };
    }
    match message {
        WindowMessage::Destroy => {
            on_window_close(windows, id);
            WindowEffect::Nothing
        },
        WindowMessage::AddEventListener(event_id, handler) => {
            if let Some(window) = windows.remove(id) {
                let mut window = window;
                window.add_listener(event_id, handler);
                windows.insert(id, window);
            }
            assert(windows@ =~= windows_after(before, id, message));
            WindowEffect::Nothing
        },
        WindowMessage::SetSizeConstraints(constraints) => {
            if let Some(window) = windows.remove(id) {
                let mut window = window;
                window.attributes.inner_size_constraints = Some(constraints);
                windows.insert(id, window);
            }
            assert(windows@ =~= windows_after(before, id, message));
            WindowEffect::Nothing
        },
        WindowMessage::PrimaryMonitor => WindowEffect::Displays(DisplayQuery::Primary),
        WindowMessage::MonitorFromPoint(x, y) => WindowEffect::Displays(
            DisplayQuery::AtPoint(x, y),
        ),
        WindowMessage::AvailableMonitors => WindowEffect::Displays(DisplayQuery::All),
        WindowMessage::IsEnabled => WindowEffect::Reply(WindowReply::Flag(Ok(true))),
        WindowMessage::IsAlwaysOnTop => WindowEffect::Reply(
            WindowReply::Flag(Err(Error::FailedToSendMessage)),
        ),
        message => match (message.into_command(), native) {
            (Some(command), Some(native)) => WindowEffect::Command(native, command),
            _ => WindowEffect::Nothing,
        },
    }
}

/// The monitor that a window is on. It is known only with its size and its position; its work
/// area is all of it.
pub open spec fn current_monitor_of(facts: MonitorFacts) -> Option<Monitor> {
    match (facts.video_mode_size, facts.position) {
        (Some(size), Some(position)) => Some(
            Monitor {
                name: None,
                size,
                position,
                work_area: PhysicalRect { position, size },
                scale_factor: facts.scale_factor,
            },
        ),
        _ => None,
    }
}

fn current_monitor(facts: MonitorFacts) -> (monitor: Option<Monitor>)
    ensures
        monitor == current_monitor_of(facts),
{
    match (facts.video_mode_size, facts.position) {
        (Some(size), Some(position)) => Some(
            Monitor {
                name: None,
                size,
                position,
                work_area: PhysicalRect { position, size },
                scale_factor: facts.scale_factor,
            },
        ),
        _ => None,
    }
}

/// The reply that an answer of the system's window comes to. What it does not know is an error
/// for the position and the monitor, `false` for the flags, and light for the theme.
pub open spec fn reply_of(answer: WindowAnswer) -> WindowReply {
    match answer {
        WindowAnswer::ScaleFactor(scale) => WindowReply::ScaleFactor(Ok(scale)),
        WindowAnswer::OuterPosition(position) => WindowReply::Position(
            match position {
                Some(position) => Ok(position),
                None => Err(Error::FailedToSendMessage),
            },
        ),
        WindowAnswer::SurfaceSize(size) | WindowAnswer::OuterSize(size) => WindowReply::Size(
            Ok(size),
        ),
        WindowAnswer::Fullscreen(flag)
        | WindowAnswer::Maximized(flag)
        | WindowAnswer::Focus(flag)
        | WindowAnswer::Decorated(flag)
        | WindowAnswer::Resizable(flag) => WindowReply::Flag(Ok(flag)),
        WindowAnswer::Minimized(flag) | WindowAnswer::Visible(flag) => WindowReply::Flag(
            Ok(flag == Some(true)),
        ),
        WindowAnswer::EnabledButtons(button, buttons) => WindowReply::Flag(
            Ok(buttons.has(button)),
        ),
        WindowAnswer::Title(title) => WindowReply::Title(Ok(title)),
        WindowAnswer::CurrentMonitor(facts) => WindowReply::Monitor(
            match facts {
                Some(facts) => Ok(current_monitor_of(facts)),
                None => Err(Error::FailedToSendMessage),
            },
        ),
        WindowAnswer::Theme(theme) => WindowReply::Theme(
            Ok(
                match theme {
                    Some(theme) => theme,
                    None => Theme::Light,
                },
            ),
        ),
        WindowAnswer::Handle(handle) => WindowReply::Handle(handle),
    }
}

/// The reply that an answer of the system's window comes to.
pub fn answer_query(answer: WindowAnswer) -> (reply: WindowReply)
    ensures
        reply == reply_of(answer),
{
    match answer {
        WindowAnswer::ScaleFactor(scale) => WindowReply::ScaleFactor(Ok(scale)),
        WindowAnswer::OuterPosition(position) => WindowReply::Position(
            position.ok_or(Error::FailedToSendMessage),
        ),
        WindowAnswer::SurfaceSize(size) | WindowAnswer::OuterSize(size) => WindowReply::Size(
            Ok(size),
        ),
        WindowAnswer::Fullscreen(flag)
        | WindowAnswer::Maximized(flag)
        | WindowAnswer::Focus(flag)
        | WindowAnswer::Decorated(flag)
        | WindowAnswer::Resizable(flag) => WindowReply::Flag(Ok(flag)),
        WindowAnswer::Minimized(flag) | WindowAnswer::Visible(flag) => WindowReply::Flag(
            Ok(flag.unwrap_or(false)),
        ),
        WindowAnswer::EnabledButtons(button, buttons) => WindowReply::Flag(
            Ok(buttons.contains(button)),
        ),
        WindowAnswer::Title(title) => WindowReply::Title(Ok(title)),
        WindowAnswer::CurrentMonitor(facts) => WindowReply::Monitor(
            match facts {
                Some(facts) => Ok(current_monitor(facts)),
                None => Err(Error::FailedToSendMessage),
            },
        ),
        WindowAnswer::Theme(theme) => WindowReply::Theme(Ok(theme.unwrap_or(Theme::Light))),
        WindowAnswer::Handle(handle) => WindowReply::Handle(handle),
    }
}

/// The reply to a question for monitors: it always succeeds.
pub fn answer_displays(answer: DisplayAnswer) -> (reply: WindowReply)
    ensures
        reply == (match answer {
            DisplayAnswer::Monitor(monitor) => WindowReply::Monitor(Ok(monitor)),
            DisplayAnswer::Monitors(monitors) => WindowReply::Monitors(Ok(monitors)),
        }),
{
    match answer {
        DisplayAnswer::Monitor(monitor) => WindowReply::Monitor(Ok(monitor)),
        DisplayAnswer::Monitors(monitors) => WindowReply::Monitors(Ok(monitors)),
    }
}

/// A message opens and closes no window, and leaves every window but its own as it was.
pub proof fn message_stays_in_its_window(
    windows: Map<WindowId, WindowView>,
    id: WindowId,
    message: WindowMessage,
    other: WindowId,
)
    requires
        other != id,
    ensures
        windows_after(windows, id, message).dom() == windows.dom(),
        windows_after(windows, id, message)[other] == windows[other],
{
    assert(windows_after(windows, id, message).dom() =~= windows.dom());
}

/// A message changes neither the label of its window, nor what stands behind it, nor its
/// webviews, nor who listens to them.
pub proof fn message_keeps_webviews(window: WindowView, message: WindowMessage)
    ensures
        window_after(window, message).label == window.label,
        window_after(window, message).window == window.window,
        window_after(window, message).webviews == window.webviews,
        window_after(window, message).webview_event_listeners == window.webview_event_listeners,
{
}

/// Once a window was told to close, no message makes it ask again.
pub proof fn force_close_is_kept(window: WindowView, message: WindowMessage)
    requires
        window.force_close,
    ensures
        window_after(window, message).force_close,
{
}

/// A message to a window that is not there changes nothing and reaches no window of the
/// system. One that wants an answer of its window gets an error, the theme being light.
pub proof fn unregistered_window_is_refused(
    windows: Map<WindowId, WindowView>,
    id: WindowId,
    message: WindowMessage,
)
    requires
        !windows.contains_key(id),
    ensures
        windows_after(windows, id, message) == windows,
        !(window_effect(windows, id, message) is Command),
        !(window_effect(windows, id, message) is Query),
        message.spec_query() is Some ==> window_effect(windows, id, message) is Reply && (
        match window_effect(windows, id, message)->Reply_0 {
            WindowReply::ScaleFactor(result) => result == Err::<Float64, Error>(
                Error::FailedToSendMessage,
            ),
            WindowReply::Position(result) => result == Err::<PhysicalPosition, Error>(
                Error::FailedToSendMessage,
            ),
            WindowReply::Size(result) => result == Err::<PhysicalSize, Error>(
                Error::FailedToSendMessage,
            ),
            WindowReply::Flag(result) => result == Err::<bool, Error>(Error::FailedToSendMessage),
            WindowReply::Title(result) => result == Err::<String, Error>(
                Error::FailedToSendMessage,
            ),
            WindowReply::Monitor(result) => result == Err::<Option<Monitor>, Error>(
                Error::FailedToSendMessage,
            ),
            WindowReply::Monitors(_) => false,
            WindowReply::Theme(result) => result == Ok::<Theme, Error>(Theme::Light),
            WindowReply::Handle(result) => result == Err::<RawHandle, HandleError>(
                HandleError::Unavailable,
            ),
        }),
{
}

/// Every message that wants an answer gets one: of the system's window, of the displays, or
/// at once.
pub proof fn question_is_answered(
    windows: Map<WindowId, WindowView>,
    id: WindowId,
    message: WindowMessage,
)
    requires
        message.spec_query() is Some || message is PrimaryMonitor || message is MonitorFromPoint
            || message is AvailableMonitors || message is IsEnabled || message is IsAlwaysOnTop,
    ensures
        match window_effect(windows, id, message) {
            WindowEffect::Query(native, query) => native_window(windows, id) == Some(native)
                && message.spec_query() == Some(query),
            WindowEffect::Displays(_) => true,
            WindowEffect::Reply(_) => true,
            WindowEffect::Nothing => false,
            WindowEffect::Command(_, _) => false,
        },
        windows_after(windows, id, message) == windows,
{
    assert(windows_after(windows, id, message) =~= windows);
}

} // verus!
