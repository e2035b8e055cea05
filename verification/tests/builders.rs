use tauri_runtime_cef::color::Color;
use tauri_runtime_cef::error::{Error, IconError};
use tauri_runtime_cef::geometry::{
    Float64, LogicalPosition, LogicalSize, PixelUnit, Position, Size, WindowSizeConstraints,
};
use tauri_runtime_cef::window_builder::{
    apply_titlebar_style, CefWindowBuilder, Icon, Platform, Target, Theme, TitleBarChange,
    TitleBarFlags, TitleBarStyle, WindowButton, WindowButtons, WindowConfig, WindowLevel,
};

fn float(value: f64) -> Float64 {
    Float64 { bits: value.to_bits() }
}

fn target(platform: Platform) -> Target {
    Target { platform, macos_private_api: false }
}

fn config() -> WindowConfig {
    WindowConfig {
        title: "Main".to_string(),
        width: float(800.0),
        height: float(600.0),
        min_width: Some(float(100.0)),
        min_height: None,
        max_width: None,
        max_height: Some(float(900.0)),
        x: Some(float(10.0)),
        y: Some(float(20.0)),
        center: true,
        focus: true,
        focusable: false,
        visible: false,
        resizable: false,
        fullscreen: true,
        decorations: false,
        maximized: true,
        always_on_bottom: true,
        always_on_top: false,
        visible_on_all_workspaces: true,
        content_protected: true,
        skip_taskbar: true,
        theme: Some(Theme::Dark),
        closable: false,
        maximizable: true,
        minimizable: false,
        shadow: false,
        transparent: true,
        background_color: Some(Color(1, 2, 3, 4)),
        hidden_title: true,
        title_bar_style: TitleBarStyle::Overlay,
        tabbing_identifier: Some("tabs".to_string()),
        traffic_light_position: None,
        window_classname: Some("class".to_string()),
    }
}

#[test]
fn new_builder_has_the_defaults() {
    let builder = CefWindowBuilder::new();
    assert_eq!(builder.attrs.title, "winit window");
    assert!(builder.attrs.decorations && builder.attrs.resizable && builder.attrs.visible);
    assert!(builder.attrs.active && !builder.attrs.fullscreen && !builder.attrs.transparent);
    assert_eq!(builder.attrs.window_level, WindowLevel::Normal);
    assert_eq!(
        builder.attrs.enabled_buttons,
        WindowButtons { close: true, minimize: true, maximize: true }
    );
    assert_eq!(builder.inner_size_constraints, None);
    assert!(builder.macos_attrs.has_shadow && !builder.browser_window && !builder.center);
    assert!(!builder.has_icon());
    assert_eq!(builder.get_theme(), None);
}

#[test]
fn configured_window_on_linux() {
    let builder = CefWindowBuilder::with_config(&config(), target(Platform::Linux));
    assert_eq!(builder.attrs.title, "Main");
    assert_eq!(
        builder.attrs.surface_size,
        Some(Size::Logical(LogicalSize { width: float(800.0), height: float(600.0) }))
    );
    assert_eq!(
        builder.attrs.position,
        Some(Position::Logical(LogicalPosition { x: float(10.0), y: float(20.0) }))
    );
    assert_eq!(
        builder.inner_size_constraints,
        Some(WindowSizeConstraints {
            min_width: Some(PixelUnit::Logical(float(100.0))),
            min_height: None,
            max_width: None,
            max_height: Some(PixelUnit::Logical(float(900.0))),
        })
    );
    assert!(!builder.attrs.active);
    assert_eq!(builder.attrs.window_level, WindowLevel::Normal);
    assert!(builder.center && builder.attrs.transparent && builder.attrs.fullscreen);
    assert_eq!(
        builder.attrs.enabled_buttons,
        WindowButtons { close: false, minimize: false, maximize: true }
    );
    assert_eq!(builder.get_theme(), Some(Theme::Dark));
    assert_eq!(builder.attrs.undecorated_shadow, None);
    assert_eq!(builder.macos_attrs, CefWindowBuilder::new().macos_attrs);
}

#[test]
fn configured_window_on_macos() {
    let builder = CefWindowBuilder::with_config(&config(), target(Platform::MacOs));
    assert!(!builder.attrs.transparent);
    assert!(builder.macos_attrs.title_hidden && !builder.macos_attrs.has_shadow);
    assert!(builder.macos_attrs.titlebar_transparent);
    assert!(builder.macos_attrs.fullsize_content_view);
    assert_eq!(builder.macos_attrs.tabbing_identifier, Some("tabs".to_string()));
    let private = Target { platform: Platform::MacOs, macos_private_api: true };
    assert!(CefWindowBuilder::with_config(&config(), private).attrs.transparent);
    let mut unknown = config();
    unknown.title_bar_style = TitleBarStyle::Unknown;
    let builder = CefWindowBuilder::with_config(&unknown, target(Platform::MacOs));
    assert!(!builder.macos_attrs.titlebar_transparent);
    assert!(!builder.macos_attrs.fullsize_content_view);
}

#[test]
fn configured_window_on_windows() {
    let builder = CefWindowBuilder::with_config(&config(), target(Platform::Windows));
    assert_eq!(builder.attrs.undecorated_shadow, Some(false));
    assert!(builder.macos_attrs.has_shadow);
}

#[test]
fn position_needs_both_coordinates() {
    let mut half = config();
    half.y = None;
    let builder = CefWindowBuilder::with_config(&half, target(Platform::Linux));
    assert_eq!(builder.attrs.position, None);
}

#[test]
fn configuration_agrees_with_the_builder_methods() {
    let config = config();
    let chained = CefWindowBuilder::new()
        .title(config.title.clone())
        .inner_size(config.width, config.height)
        .focused(config.focus)
        .focusable(config.focusable)
        .visible(config.visible)
        .resizable(config.resizable)
        .fullscreen(config.fullscreen)
        .decorations(config.decorations)
        .maximized(config.maximized)
        .always_on_bottom(config.always_on_bottom)
        .always_on_top(config.always_on_top)
        .visible_on_all_workspaces(config.visible_on_all_workspaces)
        .content_protected(config.content_protected)
        .skip_taskbar(config.skip_taskbar)
        .theme(config.theme)
        .closable(config.closable)
        .maximizable(config.maximizable)
        .minimizable(config.minimizable)
        .shadow(config.shadow, Platform::MacOs)
        .inner_size_constraints(WindowSizeConstraints {
            min_width: Some(PixelUnit::Logical(float(100.0))),
            min_height: None,
            max_width: None,
            max_height: Some(PixelUnit::Logical(float(900.0))),
        })
        .background_color(Color(1, 2, 3, 4))
        .position(float(10.0), float(20.0))
        .center()
        .hidden_title(config.hidden_title)
        .title_bar_style(config.title_bar_style)
        .tabbing_identifier("tabs".to_string());
    assert_eq!(chained, CefWindowBuilder::with_config(&config, target(Platform::MacOs)));
}

#[test]
fn last_level_counts() {
    let builder = CefWindowBuilder::new().always_on_bottom(true).always_on_top(false);
    assert_eq!(builder.attrs.window_level, WindowLevel::Normal);
    let builder = CefWindowBuilder::new().always_on_top(true).always_on_bottom(true);
    assert_eq!(builder.attrs.window_level, WindowLevel::AlwaysOnBottom);
    let builder = CefWindowBuilder::new().always_on_top(true);
    assert_eq!(builder.attrs.window_level, WindowLevel::AlwaysOnTop);
}

#[test]
fn theme_comes_back() {
    let themes: [Option<Theme>; 3] = [None, Some(Theme::Light), Some(Theme::Dark)];
    for theme in themes {
        assert_eq!(CefWindowBuilder::new().theme(theme).get_theme(), theme);
    }
}

#[test]
fn buttons_are_set_one_by_one() {
    let builder = CefWindowBuilder::new().minimizable(false);
    assert!(builder.attrs.enabled_buttons.contains(WindowButton::Close));
    assert!(!builder.attrs.enabled_buttons.contains(WindowButton::Minimize));
    assert!(builder.attrs.enabled_buttons.contains(WindowButton::Maximize));
    let mut buttons = builder.attrs.enabled_buttons;
    buttons.set(WindowButton::Minimize, true);
    buttons.set(WindowButton::Close, false);
    assert_eq!(buttons, WindowButtons { close: false, minimize: true, maximize: true });
}

#[test]
fn other_builder_methods() {
    let builder = CefWindowBuilder::new()
        .min_inner_size(float(1.0), float(2.0))
        .max_inner_size(float(3.0), float(4.0))
        .transparent(true)
        .parent(17)
        .browser_window()
        .prevent_overflow()
        .prevent_overflow_with_margin(Size::Logical(LogicalSize {
            width: float(0.0),
            height: float(0.0),
        }))
        .traffic_light_position(Position::Logical(LogicalPosition {
            x: float(0.0),
            y: float(0.0),
        }))
        .window_classname("class".to_string());
    assert_eq!(
        builder.attrs.min_surface_size,
        Some(Size::Logical(LogicalSize { width: float(1.0), height: float(2.0) }))
    );
    assert_eq!(
        builder.attrs.max_surface_size,
        Some(Size::Logical(LogicalSize { width: float(3.0), height: float(4.0) }))
    );
    assert!(builder.attrs.transparent && builder.browser_window);
    assert_eq!(builder.attrs.parent_window, Some(17));
}

#[test]
fn shadows_by_platform() {
    let linux = CefWindowBuilder::new().shadow(false, Platform::Linux);
    assert_eq!(linux, CefWindowBuilder::new());
    let windows = CefWindowBuilder::new().shadow(true, Platform::Windows);
    assert_eq!(windows.attrs.undecorated_shadow, Some(true));
    let macos = CefWindowBuilder::new().shadow(false, Platform::MacOs);
    assert!(!macos.macos_attrs.has_shadow);
}

#[test]
fn icon_must_hold_its_pixels() {
    let good = Icon { rgba: vec![0; 24], width: 2, height: 3 };
    match CefWindowBuilder::new().icon(good.clone()) {
        Ok(builder) => {
            assert!(builder.has_icon());
            assert_eq!(builder.attrs.window_icon, Some(good));
        }
        Err(_) => panic!("the icon is good"),
    }
    let odd = Icon { rgba: vec![0; 23], width: 2, height: 3 };
    assert_eq!(
        CefWindowBuilder::new().icon(odd),
        Err(Error::InvalidIcon(IconError::ByteCountNotDivisibleBy4 { byte_count: 23 }))
    );
    let short = Icon { rgba: vec![0; 20], width: 2, height: 3 };
    assert_eq!(
        CefWindowBuilder::new().icon(short),
        Err(Error::InvalidIcon(IconError::DimensionsVsPixelCount {
            width: 2,
            height: 3,
            width_x_height: 6,
            pixel_count: 5,
        }))
    );
}

#[test]
fn title_bar_styles() {
    assert_eq!(
        TitleBarStyle::Visible.flags(),
        Some(TitleBarFlags { titlebar_transparent: false, fullsize_content_view: true })
    );
    assert_eq!(
        TitleBarStyle::Transparent.flags(),
        Some(TitleBarFlags { titlebar_transparent: true, fullsize_content_view: false })
    );
    assert_eq!(
        TitleBarStyle::Overlay.flags(),
        Some(TitleBarFlags { titlebar_transparent: true, fullsize_content_view: true })
    );
    assert_eq!(TitleBarStyle::Unknown.flags(), None);
}

#[test]
fn title_bar_of_an_open_window() {
    let bit: u64 = 1 << 15;
    assert_eq!(
        apply_titlebar_style(0b101, bit, TitleBarStyle::Visible),
        Some(TitleBarChange { titlebar_transparent: false, style_mask: 0b101 | bit })
    );
    assert_eq!(
        apply_titlebar_style(0b101 | bit, bit, TitleBarStyle::Transparent),
        Some(TitleBarChange { titlebar_transparent: true, style_mask: 0b101 })
    );
    assert_eq!(
        apply_titlebar_style(0b101 | bit, bit, TitleBarStyle::Overlay),
        Some(TitleBarChange { titlebar_transparent: true, style_mask: 0b101 | bit })
    );
    assert_eq!(apply_titlebar_style(0b101, bit, TitleBarStyle::Unknown), None);
}

#[test]
fn broken_pixels_are_found_first() {
    let icon = Icon { rgba: vec![0; 5], width: u32::MAX, height: u32::MAX };
    assert_eq!(
        CefWindowBuilder::new().icon(icon),
        Err(Error::InvalidIcon(IconError::ByteCountNotDivisibleBy4 { byte_count: 5 }))
    );
}
