//! The description of a window before it is created.
use vstd::prelude::*;

use crate::color::Color;
use crate::error::{Error, IconError};
use crate::geometry::{
    Float64, LogicalPosition, LogicalSize, PixelUnit, Position, Size, WindowSizeConstraints,
};

verus! {

/// The system that the program runs on.
#[derive(Debug, Clone, Copy, PartialEq, Eq, Structural)]
pub enum Platform {
    Linux,
    MacOs,
    Windows,
    Other,
}

/// What the program was built for.
#[derive(Debug, Clone, Copy, PartialEq, Eq, Structural)]
pub struct Target {
    pub platform: Platform,
    /// Whether private interfaces of macOS may be used.
    pub macos_private_api: bool,
}

/// The color scheme of a window.
#[derive(Debug, Clone, Copy, PartialEq, Eq, Structural)]
pub enum Theme {
    Light,
    Dark,
}

/// How a window is stacked with respect to the others.
#[derive(Debug, Clone, Copy, PartialEq, Eq, Structural)]
pub enum WindowLevel {
    AlwaysOnBottom,
    Normal,
    AlwaysOnTop,
}

/// One of the buttons in a title bar.
#[derive(Debug, Clone, Copy, PartialEq, Eq, Structural)]
pub enum WindowButton {
    Close,
    Minimize,
    Maximize,
}

/// Which buttons of a title bar are enabled.
#[derive(Debug, Clone, Copy, PartialEq, Eq, Structural)]
pub struct WindowButtons {
    pub close: bool,
    pub minimize: bool,
    pub maximize: bool,
}

impl WindowButtons {
    /// Whether `button` is enabled.
    pub open spec fn has(self, button: WindowButton) -> bool {
        match button {
            WindowButton::Close => self.close,
            WindowButton::Minimize => self.minimize,
            WindowButton::Maximize => self.maximize,
        }
    }

    /// Whether `button` is enabled.
    pub fn contains(&self, button: WindowButton) -> (enabled: bool)
        ensures
            enabled == self.has(button),
    {
        match button {
            WindowButton::Close => self.close,
            WindowButton::Minimize => self.minimize,
            WindowButton::Maximize => self.maximize,
        }
    }

    /// Enables or disables one button.
    pub fn set(&mut self, button: WindowButton, enabled: bool)
        ensures
            forall|other: WindowButton| #[trigger]
                final(self).has(other) == (if other == button {
                    enabled
                } else {
                    old(self).has(other)
                }),
            final(self).close == (button is Close && enabled || !(button is Close)
                && old(self).close),
            final(self).minimize == (button is Minimize && enabled || !(button is Minimize)
                && old(self).minimize),
            final(self).maximize == (button is Maximize && enabled || !(button is Maximize)
                && old(self).maximize),
    {
        match button {
            WindowButton::Close => self.close = enabled,
            WindowButton::Minimize => self.minimize = enabled,
            WindowButton::Maximize => self.maximize = enabled,
        }
    }
}

/// How the title bar of a macOS window looks.
#[derive(Debug, Clone, Copy, PartialEq, Eq, Structural)]
pub enum TitleBarStyle {
    Visible,
    Transparent,
    Overlay,
    /// A style that this library does not know.
    Unknown,
}

/// The two switches of a macOS title bar.
#[derive(Debug, Clone, Copy, PartialEq, Eq, Structural)]
pub struct TitleBarFlags {
    pub titlebar_transparent: bool,
    pub fullsize_content_view: bool,
}

impl TitleBarStyle {
    /// The switches of the style: the bar is drawn only for `Visible`, and the content stays
    /// below the bar only for `Transparent`. An unknown style has none.
    pub open spec fn spec_flags(self) -> Option<TitleBarFlags> {
        if self is Unknown {
            None
        } else {
            Some(
                TitleBarFlags {
                    titlebar_transparent: !(self is Visible),
                    fullsize_content_view: !(self is Transparent),
                },
            )
        }
    }

    /// The switches to set for the style, or `None` for an unknown style.
    pub fn flags(self) -> (flags: Option<TitleBarFlags>)
        ensures
            flags == self.spec_flags(),
    {
        match self {
            TitleBarStyle::Visible => Some(
                TitleBarFlags { titlebar_transparent: false, fullsize_content_view: true },
            ),
            TitleBarStyle::Transparent => Some(
                TitleBarFlags { titlebar_transparent: true, fullsize_content_view: false },
            ),
            TitleBarStyle::Overlay => Some(
                TitleBarFlags { titlebar_transparent: true, fullsize_content_view: true },
            ),
            TitleBarStyle::Unknown => None,
        }
    }
}

/// A change of the title bar of an open macOS window.
#[derive(Debug, Clone, Copy, PartialEq, Eq, Structural)]
pub struct TitleBarChange {
    pub titlebar_transparent: bool,
    pub style_mask: u64,
}

/// The change that gives an open macOS window a title bar style; an unknown style changes
/// nothing.
///
/// `style_mask` are the bits of the window's style, and `full_size_content_view` the one for
/// content that reaches below the title bar.
pub fn apply_titlebar_style(
    style_mask: u64,
    full_size_content_view: u64,
    style: TitleBarStyle,
) -> (change: Option<TitleBarChange>)
    ensures
        change == (match style.spec_flags() {
            Some(flags) => Some(
                TitleBarChange {
                    titlebar_transparent: flags.titlebar_transparent,
                    style_mask: if flags.fullsize_content_view {
                        style_mask | full_size_content_view
                    } else {
                        style_mask & !full_size_content_view
                    },
                },
            ),
            None => None,
        }),
{
    match style.flags() {
        Some(flags) => Some(
            TitleBarChange {
                titlebar_transparent: flags.titlebar_transparent,
                style_mask: if flags.fullsize_content_view {
                    style_mask | full_size_content_view
                } else {
                    style_mask & !full_size_content_view
                },
            },
        ),
        None => None,
    }
}

/// Setting and clearing a bit of a window's style leaves the other bits as they were.
pub proof fn title_bar_keeps_other_bits(style_mask: u64, bit: u64)
    ensures
        (style_mask | bit) & !bit == style_mask & !bit,
        (style_mask | bit) & bit == bit,
        (style_mask & !bit) & !bit == style_mask & !bit,
        (style_mask & !bit) & bit == 0,
{
    assert((style_mask | bit) & !bit == style_mask & !bit) by (bit_vector);
    assert((style_mask | bit) & bit == bit) by (bit_vector);
    assert((style_mask & !bit) & !bit == style_mask & !bit) by (bit_vector);
    assert((style_mask & !bit) & bit == 0) by (bit_vector);
}

/// An icon as rows of RGBA pixels.
#[derive(Debug, Clone, PartialEq)]
pub struct Icon {
    pub rgba: Vec<u8>,
    pub width: u32,
    pub height: u32,
}

/// What is wrong with `byte_count` bytes as the pixels of a `width` by `height` icon.
pub open spec fn icon_problem(byte_count: nat, width: u32, height: u32) -> Option<IconError> {
    if byte_count % 4 != 0 {
        Some(IconError::ByteCountNotDivisibleBy4 { byte_count: byte_count as usize })
    } else if byte_count / 4 != width * height {
        Some(
            IconError::DimensionsVsPixelCount {
                width,
                height,
                width_x_height: (width * height) as usize,
                pixel_count: (byte_count / 4) as usize,
            },
        )
    } else {
        None
    }
}

/// `winit::icon::RgbaIcon::new`: accepts exactly the data that holds `width * height` pixels
/// of four bytes, and otherwise says which of the two counts is wrong. Where the bytes make whole
/// pixels the two dimensions are multiplied, so that their product must fit in 32 bits.
#[verifier::external_body]
fn check_rgba_icon(rgba: &Vec<u8>, width: u32, height: u32) -> (checked: Result<(), IconError>)
    requires
        rgba@.len() % 4 == 0 ==> width * height <= u32::MAX,
    ensures
        checked == (match icon_problem(rgba@.len(), width, height) {
            Some(problem) => Err::<(), IconError>(problem),
            None => Ok::<(), IconError>(()),
        }),
{
    match winit::icon::RgbaIcon::new(rgba.clone(), width, height) {
        Ok(_) => Ok(()),
        Err(winit::icon::BadIcon::ByteCountNotDivisibleBy4 { byte_count }) => Err(
            IconError::ByteCountNotDivisibleBy4 { byte_count },
        ),
        Err(
            winit::icon::BadIcon::DimensionsVsPixelCount { width, height, width_x_height, pixel_count },
        ) => Err(IconError::DimensionsVsPixelCount { width, height, width_x_height, pixel_count }),
        Err(_) => Err(IconError::Os),
    }
}

/// The attributes that a native window is created with.
#[derive(Debug, Clone, PartialEq)]
pub struct WindowAttributes {
    pub surface_size: Option<Size>,
    pub min_surface_size: Option<Size>,
    pub max_surface_size: Option<Size>,
    pub position: Option<Position>,
    pub resizable: bool,
    pub enabled_buttons: WindowButtons,
    pub title: String,
    pub maximized: bool,
    pub visible: bool,
    pub transparent: bool,
    pub decorations: bool,
    pub window_icon: Option<Icon>,
    pub preferred_theme: Option<Theme>,
    pub content_protected: bool,
    pub window_level: WindowLevel,
    pub active: bool,
    /// Fullscreen without borders on the screen that the window is on.
    pub fullscreen: bool,
    /// The raw handle of the parent window.
    pub parent_window: Option<u64>,
    /// Whether a window without decorations has a shadow on Windows, where it was set.
    pub undecorated_shadow: Option<bool>,
}

/// The attributes that only macOS windows have.
#[derive(Debug, Clone, PartialEq)]
pub struct MacosAttributes {
    pub titlebar_transparent: bool,
    pub fullsize_content_view: bool,
    pub title_hidden: bool,
    pub has_shadow: bool,
    pub tabbing_identifier: Option<String>,
}

/// A window that is still to be created.
#[derive(Debug, Clone, PartialEq)]
pub struct CefWindowBuilder {
    pub attrs: WindowAttributes,
    pub inner_size_constraints: Option<WindowSizeConstraints>,
    pub macos_attrs: MacosAttributes,
    pub browser_window: bool,
    pub center: bool,
}

/// The part of an application's configuration that describes a window.
#[derive(Debug, Clone, PartialEq)]
pub struct WindowConfig {
    pub title: String,
    pub width: Float64,
    pub height: Float64,
    pub min_width: Option<Float64>,
    pub min_height: Option<Float64>,
    pub max_width: Option<Float64>,
    pub max_height: Option<Float64>,
    pub x: Option<Float64>,
    pub y: Option<Float64>,
    pub center: bool,
    pub focus: bool,
    pub focusable: bool,
    pub visible: bool,
    pub resizable: bool,
    pub fullscreen: bool,
    pub decorations: bool,
    pub maximized: bool,
    pub always_on_bottom: bool,
    pub always_on_top: bool,
    pub visible_on_all_workspaces: bool,
    pub content_protected: bool,
    pub skip_taskbar: bool,
    pub theme: Option<Theme>,
    pub closable: bool,
    pub maximizable: bool,
    pub minimizable: bool,
    pub shadow: bool,
    pub transparent: bool,
    pub background_color: Option<Color>,
    pub hidden_title: bool,
    pub title_bar_style: TitleBarStyle,
    pub tabbing_identifier: Option<String>,
    pub traffic_light_position: Option<LogicalPosition>,
    pub window_classname: Option<String>,
}

/// A limit in logical pixels.
pub open spec fn logical_limit(limit: Option<Float64>) -> Option<PixelUnit> {
    match limit {
        Some(limit) => Some(PixelUnit::Logical(limit)),
        None => None,
    }
}

fn to_logical_limit(limit: Option<Float64>) -> (unit: Option<PixelUnit>)
    ensures
        unit == logical_limit(limit),
{
    match limit {
        Some(limit) => Some(PixelUnit::Logical(limit)),
        None => None,
    }
}

impl CefWindowBuilder {
    /// The builder that nothing has been set on.
    pub open spec fn is_default(self) -> bool {
        &&& self.attrs.title@ == "winit window"@
        &&& self.attrs.enabled_buttons == (WindowButtons {
            close: true,
            minimize: true,
            maximize: true,
        })
        &&& self.attrs.decorations
        &&& self.attrs.resizable
        &&& self.attrs.visible
        &&& self.attrs.active
        &&& self.attrs.surface_size is None
        &&& self.attrs.min_surface_size is None
        &&& self.attrs.max_surface_size is None
        &&& self.attrs.position is None
        &&& !self.attrs.maximized
        &&& !self.attrs.transparent
        &&& self.attrs.window_icon is None
        &&& self.attrs.preferred_theme is None
        &&& !self.attrs.content_protected
        &&& self.attrs.window_level == WindowLevel::Normal
        &&& !self.attrs.fullscreen
        &&& self.attrs.parent_window is None
        &&& self.attrs.undecorated_shadow is None
        &&& self.inner_size_constraints is None
        &&& !self.macos_attrs.titlebar_transparent
        &&& !self.macos_attrs.fullsize_content_view
        &&& !self.macos_attrs.title_hidden
        &&& self.macos_attrs.has_shadow
        &&& self.macos_attrs.tabbing_identifier is None
        &&& !self.browser_window
        &&& !self.center
    }

    /// A builder with the default attributes.
    pub fn new() -> (builder: Self)
        ensures
            builder.is_default(),
    {
        CefWindowBuilder {
            attrs: WindowAttributes {
                surface_size: None,
                min_surface_size: None,
                max_surface_size: None,
                position: None,
                resizable: true,
                enabled_buttons: WindowButtons { close: true, minimize: true, maximize: true },
                title: "winit window".to_owned(),
                maximized: false,
                visible: true,
                transparent: false,
                decorations: true,
                window_icon: None,
                preferred_theme: None,
                content_protected: false,
                window_level: WindowLevel::Normal,
                active: true,
                fullscreen: false,
                parent_window: None,
                undecorated_shadow: None,
            },
            inner_size_constraints: None,
            macos_attrs: MacosAttributes {
                titlebar_transparent: false,
                fullsize_content_view: false,
                title_hidden: false,
                has_shadow: true,
                tabbing_identifier: None,
            },
            browser_window: false,
            center: false,
        }
    }

    /// The builder that a configured window starts from. Everything that the configuration
    /// does not speak of has its default.
    ///
    /// `focusable` is applied after `focus`, and `always_on_top` after `always_on_bottom`, to
    /// one attribute each, so only the later of the two counts.
    pub fn with_config(config: &WindowConfig, target: Target) -> (builder: Self)
        ensures
            builder.attrs.title@ == config.title@,
            builder.attrs.surface_size == Some(
                Size::Logical(LogicalSize { width: config.width, height: config.height }),
            ),
            builder.attrs.min_surface_size is None,
            builder.attrs.max_surface_size is None,
            builder.attrs.active == config.focusable,
            builder.attrs.visible == config.visible,
            builder.attrs.resizable == config.resizable,
            builder.attrs.fullscreen == config.fullscreen,
            builder.attrs.decorations == config.decorations,
            builder.attrs.maximized == config.maximized,
            builder.attrs.window_level == (if config.always_on_top {
                WindowLevel::AlwaysOnTop
            } else {
                WindowLevel::Normal
            }),
            builder.attrs.content_protected == config.content_protected,
            builder.attrs.preferred_theme == config.theme,
            builder.attrs.enabled_buttons == (WindowButtons {
                close: config.closable,
                minimize: config.minimizable,
                maximize: config.maximizable,
            }),
            builder.attrs.undecorated_shadow == (if target.platform is Windows {
                Some(config.shadow)
            } else {
                None
            }),
            builder.attrs.position == (match (config.x, config.y) {
                (Some(x), Some(y)) => Some(Position::Logical(LogicalPosition { x, y })),
                _ => None,
            }),
            builder.attrs.transparent == (config.transparent && (!(target.platform is MacOs)
                || target.macos_private_api)),
            builder.attrs.window_icon is None,
            builder.attrs.parent_window is None,
            builder.inner_size_constraints == Some(
                WindowSizeConstraints {
                    min_width: logical_limit(config.min_width),
                    min_height: logical_limit(config.min_height),
                    max_width: logical_limit(config.max_width),
                    max_height: logical_limit(config.max_height),
                },
            ),
            builder.center == config.center,
            !builder.browser_window,
            target.platform is MacOs ==> {
                &&& builder.macos_attrs.has_shadow == config.shadow
                &&& builder.macos_attrs.title_hidden == config.hidden_title
                &&& config.title_bar_style.spec_flags() == (if config.title_bar_style is Unknown {
                    None
                } else {
                    Some(
                        TitleBarFlags {
                            titlebar_transparent: builder.macos_attrs.titlebar_transparent,
                            fullsize_content_view: builder.macos_attrs.fullsize_content_view,
                        },
                    )
                })
                &&& config.title_bar_style is Unknown
                    ==> !builder.macos_attrs.titlebar_transparent
                    && !builder.macos_attrs.fullsize_content_view
                &&& builder.macos_attrs.tabbing_identifier == config.tabbing_identifier
            },
            !(target.platform is MacOs) ==> builder.macos_attrs == (MacosAttributes {
                titlebar_transparent: false,
                fullsize_content_view: false,
                title_hidden: false,
                has_shadow: true,
                tabbing_identifier: None,
            }),
    {
        let macos = match target.platform {
            Platform::MacOs => true,
            _ => false,
        };
        let title_bar = match (macos, config.title_bar_style.flags()) {
            (true, Some(flags)) => flags,
            _ => TitleBarFlags { titlebar_transparent: false, fullsize_content_view: false },
        };
        let attrs = WindowAttributes {
            surface_size: Some(
                Size::Logical(LogicalSize { width: config.width, height: config.height }),
            ),
            min_surface_size: None,
            max_surface_size: None,
            position: match (config.x, config.y) {
                (Some(x), Some(y)) => Some(Position::Logical(LogicalPosition { x, y })),
                _ => None,
            },
            resizable: config.resizable,
            enabled_buttons: WindowButtons {
                close: config.closable,
                minimize: config.minimizable,
                maximize: config.maximizable,
            },
            title: config.title.clone(),
            maximized: config.maximized,
            visible: config.visible,
            transparent: config.transparent && (!macos || target.macos_private_api),
            decorations: config.decorations,
            window_icon: None,
            preferred_theme: config.theme,
            content_protected: config.content_protected,
            window_level: if config.always_on_top {
                WindowLevel::AlwaysOnTop
            } else {
                WindowLevel::Normal
            },
            active: config.focusable,
            fullscreen: config.fullscreen,
            parent_window: None,
            undecorated_shadow: match target.platform {
                Platform::Windows => Some(config.shadow),
                _ => None,
            },
        };
        CefWindowBuilder {
            attrs,
            inner_size_constraints: Some(
                WindowSizeConstraints {
                    min_width: to_logical_limit(config.min_width),
                    min_height: to_logical_limit(config.min_height),
                    max_width: to_logical_limit(config.max_width),
                    max_height: to_logical_limit(config.max_height),
                },
            ),
            macos_attrs: MacosAttributes {
                titlebar_transparent: title_bar.titlebar_transparent,
                fullsize_content_view: title_bar.fullsize_content_view,
                title_hidden: macos && config.hidden_title,
                has_shadow: !macos || config.shadow,
                tabbing_identifier: if macos {
                    config.tabbing_identifier.clone()
                } else {
                    None
                },
            },
            browser_window: false,
            center: config.center,
        }
    }

    /// Gives the window an icon, or says what is wrong with it.
    ///
    /// The product of the dimensions must fit in 32 bits, where the bytes make whole pixels.
    pub fn icon(self, icon: Icon) -> (result: Result<Self, Error>)
        requires
            icon.rgba@.len() % 4 == 0 ==> icon.width * icon.height <= u32::MAX,
        ensures
            result == (match icon_problem(icon.rgba@.len(), icon.width, icon.height) {
                Some(problem) => Err::<Self, Error>(Error::InvalidIcon(problem)),
                None => Ok::<Self, Error>(
                    CefWindowBuilder {
                        attrs: WindowAttributes { window_icon: Some(icon), ..self.attrs },
                        ..self
                    },
                ),
            }),
    {
        match check_rgba_icon(&icon.rgba, icon.width, icon.height) {
            Ok(_) => {
                let mut builder = self;
                builder.attrs.window_icon = Some(icon);
                Ok(builder)
            },
            Err(problem) => Err(Error::InvalidIcon(problem)),
        }
    }

    /// Gives the window a shadow: on Windows one for windows without decorations, on macOS
    /// one for every window. Elsewhere the builder stays as it is.
    pub fn shadow(self, enable: bool, platform: Platform) -> (builder: Self)
        ensures
            builder == (match platform {
                Platform::Windows => CefWindowBuilder {
                    attrs: WindowAttributes { undecorated_shadow: Some(enable), ..self.attrs },
                    ..self
                },
                Platform::MacOs => CefWindowBuilder {
                    macos_attrs: MacosAttributes { has_shadow: enable, ..self.macos_attrs },
                    ..self
                },
                _ => self,
            }),
    {
        let mut builder = self;
        match platform {
            Platform::Windows => {
                builder.attrs.undecorated_shadow = Some(enable);
            },
            Platform::MacOs => {
                builder.macos_attrs.has_shadow = enable;
            },
            _ => {},
        }
        builder
    }

    /// Makes the window a child of the window with the given raw handle, which is not null.
    pub fn parent(self, parent: u64) -> (builder: Self)
        requires
            parent != 0,
        ensures
            builder == (CefWindowBuilder {
                attrs: WindowAttributes { parent_window: Some(parent), ..self.attrs },
                ..self
            }),
    {
        let mut builder = self;
        builder.attrs.parent_window = Some(parent);
        builder
    }

    /// Sets the switches of the title bar style; an unknown style sets none.
    pub fn title_bar_style(self, style: TitleBarStyle) -> (builder: Self)
        ensures
            builder == (match style.spec_flags() {
                Some(flags) => CefWindowBuilder {
                    macos_attrs: MacosAttributes {
                        titlebar_transparent: flags.titlebar_transparent,
                        fullsize_content_view: flags.fullsize_content_view,
                        ..self.macos_attrs
                    },
                    ..self
                },
                None => self,
            }),
    {
        let mut builder = self;
        if let Some(flags) = style.flags() {
            builder.macos_attrs.titlebar_transparent = flags.titlebar_transparent;
            builder.macos_attrs.fullsize_content_view = flags.fullsize_content_view;
        }
        builder
    }

    /// Whether the window has an icon.
    pub fn has_icon(&self) -> (has: bool)
        ensures
            has == self.attrs.window_icon is Some,
    {
        self.attrs.window_icon.is_some()
    }

    /// The preferred theme.
    pub fn get_theme(&self) -> (theme: Option<Theme>)
        ensures
            theme == self.attrs.preferred_theme,
    {
        self.attrs.preferred_theme
    }

    /// Asks for the window to be centered on its screen.
    pub fn center(self) -> (builder: Self)
        ensures
            builder == (CefWindowBuilder { center: true, ..self }),
    {
        let mut builder = self;
        builder.center = true;
        builder
    }

    /// Places the window at a logical position.
    pub fn position(self, x: Float64, y: Float64) -> (builder: Self)
        ensures
            builder == (CefWindowBuilder { attrs: WindowAttributes { position: Some(Position::Logical(LogicalPosition { x, y })), ..self.attrs }, ..self }),
    {
        let mut builder = self;
        builder.attrs.position = Some(Position::Logical(LogicalPosition { x, y }));
        builder
    }

    /// Gives the window a logical inner size.
    pub fn inner_size(self, width: Float64, height: Float64) -> (builder: Self)
        ensures
            builder == (CefWindowBuilder { attrs: WindowAttributes { surface_size: Some(Size::Logical(LogicalSize { width, height })), ..self.attrs }, ..self }),
    {
        let mut builder = self;
        builder.attrs.surface_size = Some(Size::Logical(LogicalSize { width, height }));
        builder
    }

    /// Sets the smallest logical inner size.
    pub fn min_inner_size(self, min_width: Float64, min_height: Float64) -> (builder: Self)
        ensures
            builder == (CefWindowBuilder { attrs: WindowAttributes { min_surface_size: Some(Size::Logical(LogicalSize { width: min_width, height: min_height })), ..self.attrs }, ..self }),
    {
        let mut builder = self;
        builder.attrs.min_surface_size = Some(Size::Logical(LogicalSize { width: min_width, height: min_height }));
        builder
    }

    /// Sets the largest logical inner size.
    pub fn max_inner_size(self, max_width: Float64, max_height: Float64) -> (builder: Self)
        ensures
            builder == (CefWindowBuilder { attrs: WindowAttributes { max_surface_size: Some(Size::Logical(LogicalSize { width: max_width, height: max_height })), ..self.attrs }, ..self }),
    {
        let mut builder = self;
        builder.attrs.max_surface_size = Some(Size::Logical(LogicalSize { width: max_width, height: max_height }));
        builder
    }

    /// Sets the limits on the inner size.
    pub fn inner_size_constraints(self, constraints: WindowSizeConstraints) -> (builder: Self)
        ensures
            builder == (CefWindowBuilder { inner_size_constraints: Some(constraints), ..self }),
    {
        let mut builder = self;
        builder.inner_size_constraints = Some(constraints);
        builder
    }

    /// Lets the user resize the window.
    pub fn resizable(self, resizable: bool) -> (builder: Self)
        ensures
            builder == (CefWindowBuilder { attrs: WindowAttributes { resizable: resizable, ..self.attrs }, ..self }),
    {
        let mut builder = self;
        builder.attrs.resizable = resizable;
        builder
    }

    /// Enables the maximize button; the other buttons keep their state.
    pub fn maximizable(self, maximizable: bool) -> (builder: Self)
        ensures
            builder == (CefWindowBuilder { attrs: WindowAttributes { enabled_buttons: WindowButtons { maximize: maximizable, ..self.attrs.enabled_buttons }, ..self.attrs }, ..self }),
    {
        let mut builder = self;
        builder.attrs.enabled_buttons.maximize = maximizable;
        builder
    }

    /// Enables the minimize button; the other buttons keep their state.
    pub fn minimizable(self, minimizable: bool) -> (builder: Self)
        ensures
            builder == (CefWindowBuilder { attrs: WindowAttributes { enabled_buttons: WindowButtons { minimize: minimizable, ..self.attrs.enabled_buttons }, ..self.attrs }, ..self }),
    {
        let mut builder = self;
        builder.attrs.enabled_buttons.minimize = minimizable;
        builder
    }

    /// Enables the close button; the other buttons keep their state.
    pub fn closable(self, closable: bool) -> (builder: Self)
        ensures
            builder == (CefWindowBuilder { attrs: WindowAttributes { enabled_buttons: WindowButtons { close: closable, ..self.attrs.enabled_buttons }, ..self.attrs }, ..self }),
    {
        let mut builder = self;
        builder.attrs.enabled_buttons.close = closable;
        builder
    }

    /// Sets the title.
    pub fn title(self, title: String) -> (builder: Self)
        ensures
            builder == (CefWindowBuilder { attrs: WindowAttributes { title: title, ..self.attrs }, ..self }),
    {
        let mut builder = self;
        builder.attrs.title = title;
        builder
    }

    /// Opens the window fullscreen, without borders on its own screen.
    pub fn fullscreen(self, fullscreen: bool) -> (builder: Self)
        ensures
            builder == (CefWindowBuilder { attrs: WindowAttributes { fullscreen: fullscreen, ..self.attrs }, ..self }),
    {
        let mut builder = self;
        builder.attrs.fullscreen = fullscreen;
        builder
    }

    /// Gives the window the focus when it opens.
    pub fn focused(self, focused: bool) -> (builder: Self)
        ensures
            builder == (CefWindowBuilder { attrs: WindowAttributes { active: focused, ..self.attrs }, ..self }),
    {
        let mut builder = self;
        builder.attrs.active = focused;
        builder
    }

    /// Makes the window focusable; this is the same attribute as `focused`, so the later call counts.
    pub fn focusable(self, focusable: bool) -> (builder: Self)
        ensures
            builder == (CefWindowBuilder { attrs: WindowAttributes { active: focusable, ..self.attrs }, ..self }),
    {
        let mut builder = self;
        builder.attrs.active = focusable;
        builder
    }

    /// Opens the window maximized.
    pub fn maximized(self, maximized: bool) -> (builder: Self)
        ensures
            builder == (CefWindowBuilder { attrs: WindowAttributes { maximized: maximized, ..self.attrs }, ..self }),
    {
        let mut builder = self;
        builder.attrs.maximized = maximized;
        builder
    }

    /// Shows the window when it opens.
    pub fn visible(self, visible: bool) -> (builder: Self)
        ensures
            builder == (CefWindowBuilder { attrs: WindowAttributes { visible: visible, ..self.attrs }, ..self }),
    {
        let mut builder = self;
        builder.attrs.visible = visible;
        builder
    }

    /// Makes the background transparent.
    pub fn transparent(self, transparent: bool) -> (builder: Self)
        ensures
            builder == (CefWindowBuilder { attrs: WindowAttributes { transparent: transparent, ..self.attrs }, ..self }),
    {
        let mut builder = self;
        builder.attrs.transparent = transparent;
        builder
    }

    /// Draws borders and a title bar.
    pub fn decorations(self, decorations: bool) -> (builder: Self)
        ensures
            builder == (CefWindowBuilder { attrs: WindowAttributes { decorations: decorations, ..self.attrs }, ..self }),
    {
        let mut builder = self;
        builder.attrs.decorations = decorations;
        builder
    }

    /// Keeps the window below the others, or at the normal level.
    pub fn always_on_bottom(self, always_on_bottom: bool) -> (builder: Self)
        ensures
            builder == (CefWindowBuilder { attrs: WindowAttributes { window_level: (if always_on_bottom { WindowLevel::AlwaysOnBottom } else { WindowLevel::Normal }), ..self.attrs }, ..self }),
    {
        let mut builder = self;
        builder.attrs.window_level = if always_on_bottom { WindowLevel::AlwaysOnBottom } else { WindowLevel::Normal };
        builder
    }

    /// Keeps the window above the others, or at the normal level.
    pub fn always_on_top(self, always_on_top: bool) -> (builder: Self)
        ensures
            builder == (CefWindowBuilder { attrs: WindowAttributes { window_level: (if always_on_top { WindowLevel::AlwaysOnTop } else { WindowLevel::Normal }), ..self.attrs }, ..self }),
    {
        let mut builder = self;
        builder.attrs.window_level = if always_on_top { WindowLevel::AlwaysOnTop } else { WindowLevel::Normal };
        builder
    }

    /// Keeps the window's content out of screenshots.
    pub fn content_protected(self, protected: bool) -> (builder: Self)
        ensures
            builder == (CefWindowBuilder { attrs: WindowAttributes { content_protected: protected, ..self.attrs }, ..self }),
    {
        let mut builder = self;
        builder.attrs.content_protected = protected;
        builder
    }

    /// Hides the title text on macOS.
    pub fn hidden_title(self, hidden: bool) -> (builder: Self)
        ensures
            builder == (CefWindowBuilder { macos_attrs: MacosAttributes { title_hidden: hidden, ..self.macos_attrs }, ..self }),
    {
        let mut builder = self;
        builder.macos_attrs.title_hidden = hidden;
        builder
    }

    /// Groups the window with others under a tabbing identifier on macOS.
    pub fn tabbing_identifier(self, identifier: String) -> (builder: Self)
        ensures
            builder == (CefWindowBuilder { macos_attrs: MacosAttributes { tabbing_identifier: Some(identifier), ..self.macos_attrs }, ..self }),
    {
        let mut builder = self;
        builder.macos_attrs.tabbing_identifier = Some(identifier);
        builder
    }

    /// Sets the preferred theme.
    pub fn theme(self, theme: Option<Theme>) -> (builder: Self)
        ensures
            builder == (CefWindowBuilder { attrs: WindowAttributes { preferred_theme: theme, ..self.attrs }, ..self }),
    {
        let mut builder = self;
        builder.attrs.preferred_theme = theme;
        builder
    }

    /// Makes this a full browser window.
    pub fn browser_window(self) -> (builder: Self)
        ensures
            builder == (CefWindowBuilder { browser_window: true, ..self }),
    {
        let mut builder = self;
        builder.browser_window = true;
        builder
    }

    /// Overflow of the screen is not prevented: the builder stays as it is.
    pub fn prevent_overflow(self) -> (builder: Self)
        ensures
            builder == self,
    {
        self
    }

    /// Overflow of the screen is not prevented: the builder stays as it is.
    pub fn prevent_overflow_with_margin(self, _margin: Size) -> (builder: Self)
        ensures
            builder == self,
    {
        self
    }

    /// Workspaces are not told apart: the builder stays as it is.
    pub fn visible_on_all_workspaces(self, _visible_on_all_workspaces: bool) -> (builder: Self)
        ensures
            builder == self,
    {
        self
    }

    /// The taskbar is left alone: the builder stays as it is.
    pub fn skip_taskbar(self, _skip: bool) -> (builder: Self)
        ensures
            builder == self,
    {
        self
    }

    /// Window backgrounds are not colored: the builder stays as it is.
    pub fn background_color(self, _color: Color) -> (builder: Self)
        ensures
            builder == self,
    {
        self
    }

    /// The traffic lights stay in place: the builder stays as it is.
    pub fn traffic_light_position(self, _position: Position) -> (builder: Self)
        ensures
            builder == self,
    {
        self
    }

    /// Window classes have no names here: the builder stays as it is.
    pub fn window_classname(self, _window_classname: String) -> (builder: Self)
        ensures
            builder == self,
    {
        self
    }
}

} // verus!
