//! What is set of a window before it is created, seen from who sets it.
use vstd::prelude::*;

use crate::color::Color;
use crate::error::{Error, IconError};
use crate::geometry::{Float64, PixelUnit, Position, Size, WindowSizeConstraints};
use crate::window_builder::{
    apply_titlebar_style, title_bar_keeps_other_bits, CefWindowBuilder, Icon, Platform, Target,
    Theme, TitleBarChange, TitleBarStyle, WindowButton, WindowButtons, WindowConfig, WindowLevel,
};

verus! {

/// What can be set of a window.
pub enum Attribute {
    SurfaceSize,
    MinSurfaceSize,
    MaxSurfaceSize,
    Position,
    Resizable,
    CloseButton,
    MinimizeButton,
    MaximizeButton,
    Title,
    Maximized,
    Visible,
    Transparent,
    Decorations,
    Icon,
    Theme,
    ContentProtected,
    Level,
    Active,
    Fullscreen,
    Parent,
    UndecoratedShadow,
    SizeConstraints,
    TitleBar,
    TitleHidden,
    Shadow,
    TabbingIdentifier,
    BrowserWindow,
    Center,
}

/// Whether at most one attribute of a window changed.
pub open spec fn keeps_all_but(
    before: CefWindowBuilder,
    after: CefWindowBuilder,
    changed: Attribute,
) -> bool {
    &&& !(changed is SurfaceSize) ==> after.attrs.surface_size == before.attrs.surface_size
    &&& !(changed is MinSurfaceSize) ==> after.attrs.min_surface_size
        == before.attrs.min_surface_size
    &&& !(changed is MaxSurfaceSize) ==> after.attrs.max_surface_size
        == before.attrs.max_surface_size
    &&& !(changed is Position) ==> after.attrs.position == before.attrs.position
    &&& !(changed is Resizable) ==> after.attrs.resizable == before.attrs.resizable
    &&& !(changed is CloseButton) ==> after.attrs.enabled_buttons.close
        == before.attrs.enabled_buttons.close
    &&& !(changed is MinimizeButton) ==> after.attrs.enabled_buttons.minimize
        == before.attrs.enabled_buttons.minimize
    &&& !(changed is MaximizeButton) ==> after.attrs.enabled_buttons.maximize
        == before.attrs.enabled_buttons.maximize
    &&& !(changed is Title) ==> after.attrs.title == before.attrs.title
    &&& !(changed is Maximized) ==> after.attrs.maximized == before.attrs.maximized
    &&& !(changed is Visible) ==> after.attrs.visible == before.attrs.visible
    &&& !(changed is Transparent) ==> after.attrs.transparent == before.attrs.transparent
    &&& !(changed is Decorations) ==> after.attrs.decorations == before.attrs.decorations
    &&& !(changed is Icon) ==> after.attrs.window_icon == before.attrs.window_icon
    &&& !(changed is Theme) ==> after.attrs.preferred_theme == before.attrs.preferred_theme
    &&& !(changed is ContentProtected) ==> after.attrs.content_protected
        == before.attrs.content_protected
    &&& !(changed is Level) ==> after.attrs.window_level == before.attrs.window_level
    &&& !(changed is Active) ==> after.attrs.active == before.attrs.active
    &&& !(changed is Fullscreen) ==> after.attrs.fullscreen == before.attrs.fullscreen
    &&& !(changed is Parent) ==> after.attrs.parent_window == before.attrs.parent_window
    &&& !(changed is UndecoratedShadow) ==> after.attrs.undecorated_shadow
        == before.attrs.undecorated_shadow
    &&& !(changed is SizeConstraints) ==> after.inner_size_constraints
        == before.inner_size_constraints
    &&& !(changed is TitleBar) ==> after.macos_attrs.titlebar_transparent
        == before.macos_attrs.titlebar_transparent
    &&& !(changed is TitleBar) ==> after.macos_attrs.fullsize_content_view
        == before.macos_attrs.fullsize_content_view
    &&& !(changed is TitleHidden) ==> after.macos_attrs.title_hidden
        == before.macos_attrs.title_hidden
    &&& !(changed is Shadow) ==> after.macos_attrs.has_shadow == before.macos_attrs.has_shadow
    &&& !(changed is TabbingIdentifier) ==> after.macos_attrs.tabbing_identifier
        == before.macos_attrs.tabbing_identifier
    &&& !(changed is BrowserWindow) ==> after.browser_window == before.browser_window
    &&& !(changed is Center) ==> after.center == before.center
}

/// What is switched on or off is on or off as was said, and nothing else changes.
pub proof fn switches_are_set_as_said(builder: CefWindowBuilder, flag: bool)
    ensures
        forall|built: CefWindowBuilder| #[trigger]
            call_ensures(CefWindowBuilder::resizable, (builder, flag), built) ==> {
                &&& built.attrs.resizable == flag
                &&& keeps_all_but(builder, built, Attribute::Resizable)
            },
        forall|built: CefWindowBuilder| #[trigger]
            call_ensures(CefWindowBuilder::fullscreen, (builder, flag), built) ==> {
                &&& built.attrs.fullscreen == flag
                &&& keeps_all_but(builder, built, Attribute::Fullscreen)
            },
        forall|built: CefWindowBuilder| #[trigger]
            call_ensures(CefWindowBuilder::maximized, (builder, flag), built) ==> {
                &&& built.attrs.maximized == flag
                &&& keeps_all_but(builder, built, Attribute::Maximized)
            },
        forall|built: CefWindowBuilder| #[trigger]
            call_ensures(CefWindowBuilder::visible, (builder, flag), built) ==> {
                &&& built.attrs.visible == flag
                &&& keeps_all_but(builder, built, Attribute::Visible)
            },
{
}

/// What else is switched on or off is on or off as was said, and nothing else changes.
pub proof fn more_switches_are_set_as_said(builder: CefWindowBuilder, flag: bool)
    ensures
        forall|built: CefWindowBuilder| #[trigger]
            call_ensures(CefWindowBuilder::transparent, (builder, flag), built) ==> {
                &&& built.attrs.transparent == flag
                &&& keeps_all_but(builder, built, Attribute::Transparent)
            },
        forall|built: CefWindowBuilder| #[trigger]
            call_ensures(CefWindowBuilder::decorations, (builder, flag), built) ==> {
                &&& built.attrs.decorations == flag
                &&& keeps_all_but(builder, built, Attribute::Decorations)
            },
        forall|built: CefWindowBuilder| #[trigger]
            call_ensures(CefWindowBuilder::content_protected, (builder, flag), built) ==> {
                &&& built.attrs.content_protected == flag
                &&& keeps_all_but(builder, built, Attribute::ContentProtected)
            },
        forall|built: CefWindowBuilder| #[trigger]
            call_ensures(CefWindowBuilder::hidden_title, (builder, flag), built) ==> {
                &&& built.macos_attrs.title_hidden == flag
                &&& keeps_all_but(builder, built, Attribute::TitleHidden)
            },
        forall|built: CefWindowBuilder| #[trigger]
            call_ensures(CefWindowBuilder::focused, (builder, flag), built) ==> {
                &&& built.attrs.active == flag
                &&& keeps_all_but(builder, built, Attribute::Active)
            },
        forall|built: CefWindowBuilder| #[trigger]
            call_ensures(CefWindowBuilder::focusable, (builder, flag), built) ==> {
                &&& built.attrs.active == flag
                &&& keeps_all_but(builder, built, Attribute::Active)
            },
{
}

/// Each button of the title bar is enabled or disabled by itself.
pub proof fn buttons_are_set_one_by_one(builder: CefWindowBuilder, flag: bool)
    ensures
        forall|built: CefWindowBuilder| #[trigger]
            call_ensures(CefWindowBuilder::closable, (builder, flag), built) ==> {
                &&& built.attrs.enabled_buttons.close == flag
                &&& keeps_all_but(builder, built, Attribute::CloseButton)
            },
        forall|built: CefWindowBuilder| #[trigger]
            call_ensures(CefWindowBuilder::minimizable, (builder, flag), built) ==> {
                &&& built.attrs.enabled_buttons.minimize == flag
                &&& keeps_all_but(builder, built, Attribute::MinimizeButton)
            },
        forall|built: CefWindowBuilder| #[trigger]
            call_ensures(CefWindowBuilder::maximizable, (builder, flag), built) ==> {
                &&& built.attrs.enabled_buttons.maximize == flag
                &&& keeps_all_but(builder, built, Attribute::MaximizeButton)
            },
{
}

/// A window is put above or below the others, or back to the normal level, as was said.
pub proof fn levels_are_set_as_said(builder: CefWindowBuilder)
    ensures
        forall|built: CefWindowBuilder| #[trigger]
            call_ensures(CefWindowBuilder::always_on_top, (builder, true), built) ==> {
                &&& built.attrs.window_level == WindowLevel::AlwaysOnTop
                &&& keeps_all_but(builder, built, Attribute::Level)
            },
        forall|built: CefWindowBuilder| #[trigger]
            call_ensures(CefWindowBuilder::always_on_bottom, (builder, true), built) ==> {
                &&& built.attrs.window_level == WindowLevel::AlwaysOnBottom
                &&& keeps_all_but(builder, built, Attribute::Level)
            },
        forall|built: CefWindowBuilder| #[trigger]
            call_ensures(CefWindowBuilder::always_on_top, (builder, false), built) ==> {
                &&& built.attrs.window_level == WindowLevel::Normal
                &&& keeps_all_but(builder, built, Attribute::Level)
            },
        forall|built: CefWindowBuilder| #[trigger]
            call_ensures(CefWindowBuilder::always_on_bottom, (builder, false), built) ==> {
                &&& built.attrs.window_level == WindowLevel::Normal
                &&& keeps_all_but(builder, built, Attribute::Level)
            },
{
}

/// Places and sizes are set to the logical pixels that were said, each coordinate to its own.
pub proof fn places_are_set_as_said(
    builder: CefWindowBuilder,
    first: Float64,
    second: Float64,
    constraints: WindowSizeConstraints,
)
    ensures
        forall|built: CefWindowBuilder| #[trigger]
            call_ensures(CefWindowBuilder::position, (builder, first, second), built) ==> {
                &&& built.attrs.position matches Some(Position::Logical(position))
                    && position.x == first && position.y == second
                &&& keeps_all_but(builder, built, Attribute::Position)
            },
        forall|built: CefWindowBuilder| #[trigger]
            call_ensures(CefWindowBuilder::inner_size, (builder, first, second), built) ==> {
                &&& built.attrs.surface_size matches Some(Size::Logical(size))
                    && size.width == first && size.height == second
                &&& keeps_all_but(builder, built, Attribute::SurfaceSize)
            },
        forall|built: CefWindowBuilder| #[trigger]
            call_ensures(CefWindowBuilder::min_inner_size, (builder, first, second), built) ==> {
                &&& built.attrs.min_surface_size matches Some(Size::Logical(size))
                    && size.width == first && size.height == second
                &&& keeps_all_but(builder, built, Attribute::MinSurfaceSize)
            },
        forall|built: CefWindowBuilder| #[trigger]
            call_ensures(CefWindowBuilder::max_inner_size, (builder, first, second), built) ==> {
                &&& built.attrs.max_surface_size matches Some(Size::Logical(size))
                    && size.width == first && size.height == second
                &&& keeps_all_but(builder, built, Attribute::MaxSurfaceSize)
            },
        forall|built: CefWindowBuilder| #[trigger]
            call_ensures(
                CefWindowBuilder::inner_size_constraints,
                (builder, constraints),
                built,
            ) ==> {
                &&& built.inner_size_constraints == Some(constraints)
                &&& keeps_all_but(builder, built, Attribute::SizeConstraints)
            },
        forall|built: CefWindowBuilder| #[trigger]
            call_ensures(CefWindowBuilder::center, (builder,), built) ==> {
                &&& built.center
                &&& keeps_all_but(builder, built, Attribute::Center)
            },
{
}

/// A title, a theme, a parent and a tabbing identifier are set to what was said. A browser window
/// is one from then on.
pub proof fn values_are_set_as_said(
    builder: CefWindowBuilder,
    text: String,
    theme: Option<Theme>,
    parent: u64,
)
    ensures
        forall|built: CefWindowBuilder| #[trigger]
            call_ensures(CefWindowBuilder::title, (builder, text), built) ==> {
                &&& built.attrs.title == text
                &&& keeps_all_but(builder, built, Attribute::Title)
            },
        forall|built: CefWindowBuilder| #[trigger]
            call_ensures(CefWindowBuilder::tabbing_identifier, (builder, text), built) ==> {
                &&& built.macos_attrs.tabbing_identifier == Some(text)
                &&& keeps_all_but(builder, built, Attribute::TabbingIdentifier)
            },
        forall|built: CefWindowBuilder| #[trigger]
            call_ensures(CefWindowBuilder::theme, (builder, theme), built) ==> {
                &&& built.attrs.preferred_theme == theme
                &&& keeps_all_but(builder, built, Attribute::Theme)
            },
        forall|built: CefWindowBuilder| #[trigger]
            call_ensures(CefWindowBuilder::parent, (builder, parent), built) ==> {
                &&& built.attrs.parent_window == Some(parent)
                &&& keeps_all_but(builder, built, Attribute::Parent)
            },
        forall|built: CefWindowBuilder| #[trigger]
            call_ensures(CefWindowBuilder::browser_window, (builder,), built) ==> {
                &&& built.browser_window
                &&& keeps_all_but(builder, built, Attribute::BrowserWindow)
            },
{
}

/// The shadow is switched on or off on the system that has it: on macOS for every window, on
/// Windows for those without decorations. Elsewhere nothing changes.
pub proof fn shadows_are_set_as_said(builder: CefWindowBuilder, flag: bool)
    ensures
        forall|built: CefWindowBuilder| #[trigger]
            call_ensures(CefWindowBuilder::shadow, (builder, flag, Platform::MacOs), built) ==> {
                &&& built.macos_attrs.has_shadow == flag
                &&& keeps_all_but(builder, built, Attribute::Shadow)
            },
        forall|built: CefWindowBuilder| #[trigger]
            call_ensures(CefWindowBuilder::shadow, (builder, flag, Platform::Windows), built) ==> {
                &&& built.attrs.undecorated_shadow == Some(flag)
                &&& keeps_all_but(builder, built, Attribute::UndecoratedShadow)
            },
        forall|built: CefWindowBuilder| #[trigger]
            call_ensures(CefWindowBuilder::shadow, (builder, flag, Platform::Linux), built)
                ==> built == builder,
        forall|built: CefWindowBuilder| #[trigger]
            call_ensures(CefWindowBuilder::shadow, (builder, flag, Platform::Other), built)
                ==> built == builder,
{
}

/// The bar of a title bar is see-through unless it is visible, and the content reaches below it
/// unless it is transparent. An unknown style changes nothing.
pub proof fn title_bars_are_set_as_said(builder: CefWindowBuilder, style: TitleBarStyle)
    ensures
        !(style is Unknown) ==> forall|built: CefWindowBuilder| #[trigger]
            call_ensures(CefWindowBuilder::title_bar_style, (builder, style), built) ==> {
                &&& built.macos_attrs.titlebar_transparent <==> !(style is Visible)
                &&& built.macos_attrs.fullsize_content_view <==> !(style is Transparent)
                &&& keeps_all_but(builder, built, Attribute::TitleBar)
            },
        style is Unknown ==> forall|built: CefWindowBuilder| #[trigger]
            call_ensures(CefWindowBuilder::title_bar_style, (builder, style), built) ==> built
                == builder,
{
}

/// A change of the title bar of an open window touches no bit of its style but the one for
/// content below the bar. That one is cleared for a transparent bar and set for the others.
pub proof fn open_title_bars_change_as_said(
    style_mask: u64,
    bit: u64,
    style: TitleBarStyle,
    change: Option<TitleBarChange>,
)
    requires
        call_ensures(apply_titlebar_style, (style_mask, bit, style), change),
    ensures
        change is None <==> style is Unknown,
        change is Some ==> {
            &&& change->0.titlebar_transparent <==> !(style is Visible)
            &&& change->0.style_mask & !bit == style_mask & !bit
            &&& style is Transparent ==> change->0.style_mask & bit == 0
            &&& !(style is Transparent) ==> change->0.style_mask & bit == bit
        },
{
    title_bar_keeps_other_bits(style_mask, bit);
}

/// An icon is taken exactly if its bytes are four for each of its pixels. Otherwise it is said
/// which count is wrong, and by how much.
pub proof fn icons_have_four_bytes_for_each_pixel(
    builder: CefWindowBuilder,
    icon: Icon,
    result: Result<CefWindowBuilder, Error>,
)
    requires
        icon.rgba@.len() % 4 == 0 ==> icon.width * icon.height <= u32::MAX,
        call_ensures(CefWindowBuilder::icon, (builder, icon), result),
    ensures
        result is Ok <==> icon.rgba@.len() == 4 * (icon.width * icon.height),
        result is Ok ==> result->Ok_0.attrs.window_icon == Some(icon) && keeps_all_but(
            builder,
            result->Ok_0,
            Attribute::Icon,
        ),
        result is Err && icon.rgba@.len() % 4 != 0 ==> result->Err_0 == Error::InvalidIcon(
            IconError::ByteCountNotDivisibleBy4 { byte_count: icon.rgba@.len() as usize },
        ),
        result is Err && icon.rgba@.len() % 4 == 0 ==> {
            &&& result->Err_0 matches Error::InvalidIcon(problem)
            &&& problem matches IconError::DimensionsVsPixelCount {
                width,
                height,
                width_x_height,
                pixel_count,
            }
            &&& width == icon.width
            &&& height == icon.height
            &&& width_x_height == icon.width * icon.height
            &&& 4 * pixel_count == icon.rgba@.len()
        },
{
    assert(icon.rgba.len() == icon.rgba@.len());
}

/// Setting a button sets that one and leaves the others as they were.
pub proof fn buttons_are_told_apart(button: WindowButton, enabled: bool)
    ensures
        forall|buttons: &mut WindowButtons| #[trigger]
            call_ensures(WindowButtons::set, (buttons, button, enabled), ()) ==> {
                let after = *final(buttons);
                &&& after.close == if button is Close { enabled } else { buttons.close }
                &&& after.minimize == if button is Minimize { enabled } else { buttons.minimize }
                &&& after.maximize == if button is Maximize { enabled } else { buttons.maximize }
            },
{
}

/// Whoever asks for a button is told whether that one is enabled.
pub proof fn buttons_are_told_as_they_are(buttons: WindowButtons, enabled: bool)
    ensures
        call_ensures(WindowButtons::contains, (&buttons, WindowButton::Close), enabled) ==> enabled
            == buttons.close,
        call_ensures(WindowButtons::contains, (&buttons, WindowButton::Minimize), enabled)
            ==> enabled == buttons.minimize,
        call_ensures(WindowButtons::contains, (&buttons, WindowButton::Maximize), enabled)
            ==> enabled == buttons.maximize,
{
}

/// Whoever asks is told whether there is an icon, and the theme that was set.
pub proof fn builders_tell_what_was_set(
    builder: CefWindowBuilder,
    theme: Option<Theme>,
    icon: Icon,
)
    ensures
        forall|built: CefWindowBuilder, told: Option<Theme>|
            #[trigger] call_ensures(CefWindowBuilder::theme, (builder, theme), built)
                && #[trigger] call_ensures(CefWindowBuilder::get_theme, (&built,), told) ==> told
                == theme,
        forall|built: CefWindowBuilder, present: bool|
            #[trigger] call_ensures(
                CefWindowBuilder::icon,
                (builder, icon),
                Ok::<CefWindowBuilder, Error>(built),
            ) && #[trigger] call_ensures(CefWindowBuilder::has_icon, (&built,), present)
                ==> present,
        forall|built: CefWindowBuilder, present: bool|
            #[trigger] call_ensures(CefWindowBuilder::new, (), built) && #[trigger] call_ensures(
                CefWindowBuilder::has_icon,
                (&built,),
                present,
            ) ==> !present,
        forall|built: CefWindowBuilder, told: Option<Theme>|
            #[trigger] call_ensures(CefWindowBuilder::new, (), built) && #[trigger] call_ensures(
                CefWindowBuilder::get_theme,
                (&built,),
                told,
            ) ==> told is None,
{
}

/// What this runtime cannot do changes nothing.
pub proof fn some_wishes_change_nothing(
    builder: CefWindowBuilder,
    flag: bool,
    margin: Size,
    color: Color,
    position: Position,
    name: String,
    built: CefWindowBuilder,
)
    ensures
        call_ensures(CefWindowBuilder::prevent_overflow, (builder,), built) ==> built == builder,
        call_ensures(CefWindowBuilder::prevent_overflow_with_margin, (builder, margin), built)
            ==> built == builder,
        call_ensures(CefWindowBuilder::visible_on_all_workspaces, (builder, flag), built) ==> built
            == builder,
        call_ensures(CefWindowBuilder::skip_taskbar, (builder, flag), built) ==> built == builder,
        call_ensures(CefWindowBuilder::background_color, (builder, color), built) ==> built
            == builder,
        call_ensures(CefWindowBuilder::traffic_light_position, (builder, position), built) ==> built
            == builder,
        call_ensures(CefWindowBuilder::window_classname, (builder, name), built) ==> built
            == builder,
{
}

/// A window that nothing was said of is one that shows, has the focus and all its buttons, can be
/// resized, and is nothing else.
pub proof fn plain_windows_are_plain(built: CefWindowBuilder)
    requires
        call_ensures(CefWindowBuilder::new, (), built),
    ensures
        built.attrs.visible && built.attrs.active && built.attrs.resizable
            && built.attrs.decorations,
        built.attrs.enabled_buttons.close && built.attrs.enabled_buttons.minimize
            && built.attrs.enabled_buttons.maximize,
        !built.attrs.fullscreen && !built.attrs.maximized && !built.attrs.transparent
            && !built.attrs.content_protected,
        built.attrs.window_level == WindowLevel::Normal,
        built.attrs.title@ == "winit window"@,
        built.attrs.surface_size is None && built.attrs.position is None,
        built.attrs.min_surface_size is None && built.attrs.max_surface_size is None,
        built.attrs.window_icon is None && built.attrs.preferred_theme is None,
        built.attrs.parent_window is None && built.attrs.undecorated_shadow is None,
        built.inner_size_constraints is None,
        !built.browser_window && !built.center,
        built.macos_attrs.has_shadow && !built.macos_attrs.title_hidden,
        !built.macos_attrs.titlebar_transparent && !built.macos_attrs.fullsize_content_view,
        built.macos_attrs.tabbing_identifier is None,
{
}

/// Whether a limit is in logical pixels, and of the value that was configured.
pub open spec fn is_logical(limit: Option<PixelUnit>, configured: Option<Float64>) -> bool {
    match configured {
        Some(value) => limit == Some(PixelUnit::Logical(value)),
        None => limit is None,
    }
}

/// A configured window is as its configuration says, each switch and each value by its own.
pub proof fn configured_windows_are_as_configured(
    config: WindowConfig,
    target: Target,
    built: CefWindowBuilder,
)
    requires
        call_ensures(CefWindowBuilder::with_config, (&config, target), built),
    ensures
        built.attrs.resizable <==> config.resizable,
        built.attrs.visible <==> config.visible,
        built.attrs.active <==> config.focusable,
        built.attrs.fullscreen <==> config.fullscreen,
        built.attrs.decorations <==> config.decorations,
        built.attrs.maximized <==> config.maximized,
        built.attrs.content_protected <==> config.content_protected,
        built.attrs.enabled_buttons.close <==> config.closable,
        built.attrs.enabled_buttons.minimize <==> config.minimizable,
        built.attrs.enabled_buttons.maximize <==> config.maximizable,
        built.attrs.window_level == WindowLevel::AlwaysOnTop <==> config.always_on_top,
        built.attrs.window_level == WindowLevel::Normal <==> !config.always_on_top,
        built.center <==> config.center,
        built.attrs.title@ == config.title@,
        built.attrs.preferred_theme == config.theme,
        !built.browser_window,
        built.attrs.window_icon is None && built.attrs.parent_window is None,
{
}

/// A configured window has the size that was configured, a position exactly if both coordinates
/// were, and the limits that were, each to its own side.
pub proof fn configured_windows_stand_as_configured(
    config: WindowConfig,
    target: Target,
    built: CefWindowBuilder,
)
    requires
        call_ensures(CefWindowBuilder::with_config, (&config, target), built),
    ensures
        built.attrs.surface_size matches Some(Size::Logical(size)) && size.width == config.width
            && size.height == config.height,
        built.attrs.position is Some <==> config.x is Some && config.y is Some,
        built.attrs.position is Some ==> {
            &&& built.attrs.position->0 matches Position::Logical(position)
            &&& Some(position.x) == config.x
            &&& Some(position.y) == config.y
        },
        built.attrs.min_surface_size is None && built.attrs.max_surface_size is None,
        built.inner_size_constraints is Some,
        is_logical(built.inner_size_constraints->0.min_width, config.min_width),
        is_logical(built.inner_size_constraints->0.min_height, config.min_height),
        is_logical(built.inner_size_constraints->0.max_width, config.max_width),
        is_logical(built.inner_size_constraints->0.max_height, config.max_height),
{
}

/// What only one system has is configured on that system alone; a macOS window is transparent only
/// where private interfaces may be used.
pub proof fn systems_are_configured_apart(
    config: WindowConfig,
    target: Target,
    built: CefWindowBuilder,
)
    requires
        call_ensures(CefWindowBuilder::with_config, (&config, target), built),
    ensures
        target.platform == Platform::Windows ==> built.attrs.undecorated_shadow == Some(
            config.shadow,
        ),
        target.platform != Platform::Windows ==> built.attrs.undecorated_shadow is None,
        target.platform == Platform::MacOs ==> {
            &&& built.macos_attrs.has_shadow <==> config.shadow
            &&& built.macos_attrs.title_hidden <==> config.hidden_title
            &&& built.macos_attrs.tabbing_identifier == config.tabbing_identifier
            &&& built.macos_attrs.titlebar_transparent <==> {
                config.title_bar_style is Transparent || config.title_bar_style is Overlay
            }
            &&& built.macos_attrs.fullsize_content_view <==> {
                config.title_bar_style is Visible || config.title_bar_style is Overlay
            }
            &&& built.attrs.transparent <==> config.transparent && target.macos_private_api
        },
        target.platform != Platform::MacOs ==> {
            &&& built.macos_attrs.has_shadow && !built.macos_attrs.title_hidden
            &&& !built.macos_attrs.titlebar_transparent && !built.macos_attrs.fullsize_content_view
            &&& built.macos_attrs.tabbing_identifier is None
            &&& built.attrs.transparent <==> config.transparent
        },
{
}

} // verus!
