//! How a webview comes into being.
//!
//! What its browser is created with is planned first; once the browser is there, the webview is
//! added to its window.
use vstd::prelude::*;

use crate::client::CefBrowserClient;
use crate::error::HandleError;
use crate::geometry::{frame_of, window_frame, CefRect, PhysicalPosition, PhysicalSize};
use crate::invariants::{adding_keeps_all, inserting_keeps_all};
use crate::load_handler::CefBrowserLoadHandler;
use crate::page_url::{
    custom_protocol_scheme, custom_scheme_domain, domain_text, domains_are_distinct, protocol_text,
};
use crate::script::{
    are_init_scripts, duplicate_scripts, init_scripts, CefInitScript, InitializationScript,
};
use crate::webview::{
    distinct_ids, distinct_schemes, finds_chrome, has_chrome, single_chrome, BrowserId, HandlerId,
    NativeWindowId, RuntimeStyle, UriScheme, Webview, WebviewId, WebviewKind, WindowId,
};
use crate::window::{
    webviews_are_wf, AppWindowKind, Window, WindowKind, WindowView, Windows,
};
use crate::window_builder::{CefWindowBuilder, Platform};
use crate::window_message::{native_window, RawHandle};

verus! {

/// Attributes of a webview that only this runtime has.
#[derive(Debug, Clone, Copy, PartialEq, Eq, Structural)]
pub enum WebviewAtribute {
    /// Sets the runtime of the browser, Chrome only where its window holds no such browser yet.
    RuntimeStyle { style: RuntimeStyle },
}

/// What is wanted of a webview.
#[derive(Debug)]
pub struct WebviewAttributes {
    pub initialization_scripts: Vec<InitializationScript>,
    pub javascript_disabled: bool,
    pub clipboard: bool,
    pub incognito: bool,
    pub data_directory: Option<String>,
    pub devtools: Option<bool>,
    pub use_https_scheme: bool,
}

/// A webview that is still to be created.
#[derive(Debug)]
pub struct PendingWebview {
    pub label: String,
    pub webview_attributes: WebviewAttributes,
    pub platform_specific_attributes: Vec<WebviewAtribute>,
    pub uri_scheme_protocols: Vec<UriScheme>,
    pub navigation_handler: Option<HandlerId>,
    pub document_title_changed_handler: Option<HandlerId>,
    pub url: String,
    pub on_page_load_handler: Option<HandlerId>,
    pub download_handler: Option<HandlerId>,
}

impl PendingWebview {
    /// Every scheme has one handler.
    pub open spec fn wf(self) -> bool {
        distinct_schemes(self.uri_scheme_protocols@)
    }
}

/// Whether a setting of a browser is on.
#[derive(Debug, Clone, Copy, PartialEq, Eq, Structural)]
pub enum CefState {
    Enabled,
    Disabled,
}

/// The settings of a browser.
#[derive(Debug, Clone, Copy, PartialEq, Eq, Structural)]
pub struct BrowserSettings {
    pub javascript: CefState,
    pub javascript_access_clipboard: CefState,
}

/// Where a browser keeps its data.
#[derive(Debug, Clone, Copy, PartialEq, Eq, Structural)]
pub enum CachePath {
    /// In memory only.
    InMemory,
    /// Where the browser engine keeps the data of all browsers.
    Global,
}

/// A domain whose requests are answered by the handler of a custom scheme.
#[derive(Debug, PartialEq, Eq)]
pub struct SchemeHandlerFactory {
    pub protocol: String,
    pub domain: String,
    pub scheme: String,
}

/// The context that the requests of a browser are made in.
#[derive(Debug)]
pub struct RequestContextPlan {
    pub cache_path: CachePath,
    pub factories: Vec<SchemeHandlerFactory>,
}

/// What of a webview is known before its browser is there.
#[derive(Debug)]
pub struct PlannedWebview {
    pub webview_id: WebviewId,
    pub label: String,
    pub devtools_enabled: bool,
    /// The runtime that the browser is created with; `None` leaves it to the browser engine.
    pub runtime_style: Option<RuntimeStyle>,
    pub uri_scheme_protocols: Vec<UriScheme>,
    pub initialization_scripts: Vec<CefInitScript>,
}

/// What a browser is created with.
#[derive(Debug)]
pub struct BrowserPlan {
    pub url: String,
    pub client: CefBrowserClient,
    pub settings: BrowserSettings,
    pub request_context: RequestContextPlan,
    pub webview: PlannedWebview,
}

/// What a browser in a window of the system is created with.
#[derive(Debug)]
pub struct WebviewPlan {
    pub native: NativeWindowId,
    pub runtime_style: RuntimeStyle,
    pub browser: BrowserPlan,
}

/// The settings of a browser: scripts run unless they are disabled, and reach the clipboard
/// only where they may.
pub open spec fn settings_of(attributes: WebviewAttributes) -> BrowserSettings {
    BrowserSettings {
        javascript: if attributes.javascript_disabled {
            CefState::Disabled
        } else {
            CefState::Enabled
        },
        javascript_access_clipboard: if attributes.clipboard {
            CefState::Enabled
        } else {
            CefState::Disabled
        },
    }
}

/// The settings of a browser.
pub fn browser_settings_from_webview_attributes(attributes: &WebviewAttributes) -> (settings:
    BrowserSettings)
    ensures
        settings == settings_of(*attributes),
{
    BrowserSettings {
        javascript: if attributes.javascript_disabled {
            CefState::Disabled
        } else {
            CefState::Enabled
        },
        javascript_access_clipboard: if attributes.clipboard {
            CefState::Enabled
        } else {
            CefState::Disabled
        },
    }
}

/// The runtime of a browser where none is asked for.
pub open spec fn default_style(kind: WebviewKind) -> RuntimeStyle {
    match kind {
        WebviewKind::WindowChild => RuntimeStyle::Alloy,
        WebviewKind::WindowContent => RuntimeStyle::Chrome,
    }
}

/// The runtime of a browser: the first that is asked for, or else the default. Where its window
/// already holds a browser with the Chrome runtime, it is Alloy whatever is asked for.
pub open spec fn style_of(
    attributes: Seq<WebviewAtribute>,
    kind: WebviewKind,
    chrome_is_taken: bool,
) -> RuntimeStyle {
    if chrome_is_taken {
        RuntimeStyle::Alloy
    } else if attributes.len() > 0 {
        let WebviewAtribute::RuntimeStyle { style } = attributes[0];
        style
    } else {
        default_style(kind)
    }
}

/// The runtime of a browser; `chrome_is_taken` says whether its window already holds one with
/// the Chrome runtime.
pub fn browser_runtime_style(
    attributes: &Vec<WebviewAtribute>,
    kind: WebviewKind,
    chrome_is_taken: bool,
) -> (style: RuntimeStyle)
    ensures
        style == style_of(attributes@, kind, chrome_is_taken),
{
    if chrome_is_taken {
        RuntimeStyle::Alloy
    } else if attributes.len() > 0 {
        let WebviewAtribute::RuntimeStyle { style } = attributes[0];
        style
    } else {
        match kind {
            WebviewKind::WindowChild => RuntimeStyle::Alloy,
            WebviewKind::WindowContent => RuntimeStyle::Chrome,
        }
    }
}

/// Whether the names are the domains of the schemes, in order.
pub open spec fn are_domains(names: Seq<String>, schemes: Seq<UriScheme>) -> bool {
    &&& names.len() == schemes.len()
    &&& forall|index: int|
        0 <= index < names.len() ==> (#[trigger] names[index])@ == domain_text(
            schemes[index].scheme@,
        )
}

/// The domains of the schemes, in order.
pub fn custom_scheme_domain_names(schemes: &Vec<UriScheme>) -> (names: Vec<String>)
    ensures
        are_domains(names@, schemes@),
{
    let mut names: Vec<String> = Vec::new();
    let mut index: usize = 0;
    while index < schemes.len()
        invariant
            index <= schemes.len(),
            names@.len() == index,
            forall|before: int|
                0 <= before < index ==> (#[trigger] names@[before])@ == domain_text(
                    schemes@[before].scheme@,
                ),
        decreases schemes.len() - index,
    {
        names.push(custom_scheme_domain(schemes[index].scheme.as_str()));
        index = index + 1;
    }
    names
}

/// Whether this is the context for the requests of a webview: it keeps its data in memory
/// exactly if the webview is incognito, and each scheme has its factory, in order.
pub open spec fn is_request_context(
    context: RequestContextPlan,
    attributes: WebviewAttributes,
    schemes: Seq<UriScheme>,
) -> bool {
    let factories = context.factories@;
    &&& context.cache_path == (if attributes.incognito {
        CachePath::InMemory
    } else {
        CachePath::Global
    })
    &&& factories.len() == schemes.len()
    &&& forall|index: int|
        0 <= index < factories.len() ==> {
            &&& (#[trigger] factories[index]).protocol@ == protocol_text(
                attributes.use_https_scheme,
            )
            &&& factories[index].domain@ == domain_text(schemes[index].scheme@)
            &&& factories[index].scheme@ == schemes[index].scheme@
        }
}

/// The context for the requests of a webview. A data directory of its own has no effect.
pub fn request_context_from_webview_attributes(
    attributes: &WebviewAttributes,
    schemes: &Vec<UriScheme>,
) -> (context: RequestContextPlan)
    ensures
        is_request_context(context, *attributes, schemes@),
{
    let cache_path = if attributes.incognito {
        CachePath::InMemory
    } else {
        CachePath::Global
    };
    let mut factories: Vec<SchemeHandlerFactory> = Vec::new();
    let mut index: usize = 0;
    while index < schemes.len()
        invariant
            index <= schemes.len(),
            factories@.len() == index,
            forall|before: int|
                0 <= before < index ==> {
                    &&& (#[trigger] factories@[before]).protocol@ == protocol_text(
                        attributes.use_https_scheme,
                    )
                    &&& factories@[before].domain@ == domain_text(schemes@[before].scheme@)
                    &&& factories@[before].scheme@ == schemes@[before].scheme@
                },
        decreases schemes.len() - index,
    {
        factories.push(
            SchemeHandlerFactory {
                protocol: custom_protocol_scheme(attributes.use_https_scheme),
                domain: custom_scheme_domain(schemes[index].scheme.as_str()),
                scheme: schemes[index].scheme.clone(),
            },
        );
        index = index + 1;
    }
    RequestContextPlan { cache_path, factories }
}

/// Whether the developer tools of a webview are enabled: the application must be built with
/// them, and the webview must not refuse them.
pub open spec fn devtools_of(attributes: WebviewAttributes, devtools_built: bool) -> bool {
    devtools_built && attributes.devtools != Some(false)
}

/// Whether this is what the browser of a webview is created with.
pub open spec fn is_browser_plan(
    plan: BrowserPlan,
    kind: WindowKind,
    window_id: WindowId,
    webview_id: WebviewId,
    pending: PendingWebview,
    runtime_style: Option<RuntimeStyle>,
    devtools_built: bool,
) -> bool {
    let attributes = pending.webview_attributes;
    let schemes = pending.uri_scheme_protocols@;
    &&& plan.url == pending.url
    &&& plan.client.kind == kind
    &&& plan.client.window_id == window_id
    &&& plan.client.initialization_scripts@ == plan.webview.initialization_scripts@
    &&& plan.client.on_page_load_handler == pending.on_page_load_handler
    &&& plan.client.document_title_changed_handler == pending.document_title_changed_handler
    &&& plan.client.navigation_handler == pending.navigation_handler
    &&& plan.client.download_handler == pending.download_handler
    &&& plan.client.devtools_enabled == devtools_of(attributes, devtools_built)
    &&& are_domains(plan.client.custom_scheme_domain_names@, schemes)
    &&& plan.client.custom_protocol_scheme@ == protocol_text(attributes.use_https_scheme)
    &&& plan.settings == settings_of(attributes)
    &&& is_request_context(plan.request_context, attributes, schemes)
    &&& plan.webview.webview_id == webview_id
    &&& plan.webview.label == pending.label
    &&& plan.webview.devtools_enabled == devtools_of(attributes, devtools_built)
    &&& plan.webview.runtime_style == runtime_style
    &&& plan.webview.uri_scheme_protocols == pending.uri_scheme_protocols
    &&& plan.webview.wf()
    &&& are_init_scripts(
        plan.webview.initialization_scripts@,
        attributes.initialization_scripts@,
    )
}

/// What the browser of a webview is created with.
fn plan_browser(
    kind: WindowKind,
    window_id: WindowId,
    webview_id: WebviewId,
    pending: PendingWebview,
    runtime_style: Option<RuntimeStyle>,
    devtools_built: bool,
) -> (plan: BrowserPlan)
    requires
        pending.wf(),
    ensures
        is_browser_plan(
            plan,
            kind,
            window_id,
            webview_id,
            pending,
            runtime_style,
            devtools_built,
        ),
{
    let attributes = pending.webview_attributes;
    let scripts = init_scripts(&attributes.initialization_scripts);
    let devtools_enabled = devtools_built && attributes.devtools.unwrap_or(true);
    let client = CefBrowserClient {
        kind,
        window_id,
        initialization_scripts: duplicate_scripts(&scripts),
        on_page_load_handler: pending.on_page_load_handler,
        document_title_changed_handler: pending.document_title_changed_handler,
        navigation_handler: pending.navigation_handler,
        download_handler: pending.download_handler,
        devtools_enabled,
        custom_scheme_domain_names: custom_scheme_domain_names(&pending.uri_scheme_protocols),
        custom_protocol_scheme: custom_protocol_scheme(attributes.use_https_scheme),
    };
    let settings = browser_settings_from_webview_attributes(&attributes);
    let request_context = request_context_from_webview_attributes(
        &attributes,
        &pending.uri_scheme_protocols,
    );
    BrowserPlan {
        url: pending.url,
        client,
        settings,
        request_context,
        webview: PlannedWebview {
            webview_id,
            label: pending.label,
            devtools_enabled,
            runtime_style,
            uri_scheme_protocols: pending.uri_scheme_protocols,
            initialization_scripts: scripts,
        },
    }
}

/// Whether this is the plan of a webview: there is one exactly if its window is one of the
/// system's.
pub open spec fn is_webview_plan(
    plan: Option<WebviewPlan>,
    windows: Map<WindowId, WindowView>,
    kind: WebviewKind,
    window_id: WindowId,
    webview_id: WebviewId,
    pending: PendingWebview,
    devtools_built: bool,
) -> bool {
    match (plan, native_window(windows, window_id)) {
        (Some(plan), Some(native)) => {
            &&& plan.native == native
            &&& plan.runtime_style == style_of(
                pending.platform_specific_attributes@,
                kind,
                has_chrome(windows[window_id].webviews),
            )
            &&& is_browser_plan(
                plan.browser,
                WindowKind::Tauri,
                window_id,
                webview_id,
                pending,
                Some(plan.runtime_style),
                devtools_built,
            )
        },
        (None, None) => true,
        _ => false,
    }
}

/// Plans a webview of a window. There is none where the window is not there or is a browser
/// window.
pub fn create_webview(
    windows: &Windows,
    kind: WebviewKind,
    window_id: WindowId,
    webview_id: WebviewId,
    pending: PendingWebview,
    devtools_built: bool,
) -> (plan: Option<WebviewPlan>)
    requires
        pending.wf(),
    ensures
        is_webview_plan(
            plan,
            windows@,
            kind,
            window_id,
            webview_id,
            pending,
            devtools_built,
        ),
{
    let window = match windows.get(window_id) {
        Some(window) => window,
        None => return None,
    };
    match window.window() {
        Some(native) => {
            let runtime_style = browser_runtime_style(
                &pending.platform_specific_attributes,
                kind,
                finds_chrome(&window.webviews),
            );
            let browser = plan_browser(
                WindowKind::Tauri,
                window_id,
                webview_id,
                pending,
                Some(runtime_style),
                devtools_built,
            );
            Some(WebviewPlan { native, runtime_style, browser })
        },
        None => None,
    }
}

/// The window that a browser is put in.
#[derive(Debug, Clone, Copy, PartialEq, Eq, Structural)]
pub enum ParentHandle {
    /// The view of a macOS window.
    View(u64),
    /// An X11 window.
    Window(u64),
}

/// Where a browser is put.
#[derive(Debug, Clone, Copy, PartialEq, Eq, Structural)]
pub struct WindowInfo {
    pub parent: ParentHandle,
    pub bounds: CefRect,
}

/// The window that a browser is put in: one of macOS or X11, on its own system.
pub open spec fn parent_of(platform: Platform, handle: Result<RawHandle, HandleError>) -> Option<
    ParentHandle,
> {
    match (platform, handle) {
        (Platform::MacOs, Ok(RawHandle::AppKit(view))) => Some(ParentHandle::View(view)),
        (Platform::Linux, Ok(RawHandle::Xlib(window))) => Some(ParentHandle::Window(window)),
        _ => None,
    }
}

/// Where the browser of a webview is put: over the whole surface of its window. There is no
/// place for it in a window that the system gives no handle of, or one of another kind.
pub fn webview_window_info(
    platform: Platform,
    handle: Result<RawHandle, HandleError>,
    surface: PhysicalSize,
) -> (info: Option<WindowInfo>)
    ensures
        info == (match parent_of(platform, handle) {
            Some(parent) => Some(
                WindowInfo { parent, bounds: frame_of(PhysicalPosition { x: 0, y: 0 }, surface) },
            ),
            None => None,
        }),
{
    let parent = match (platform, handle) {
        (Platform::MacOs, Ok(RawHandle::AppKit(view))) => ParentHandle::View(view),
        (Platform::Linux, Ok(RawHandle::Xlib(window))) => ParentHandle::Window(window),
        _ => return None,
    };
    Some(WindowInfo { parent, bounds: window_frame(PhysicalPosition { x: 0, y: 0 }, surface) })
}

impl PlannedWebview {
    /// Every scheme of the webview has one handler.
    pub open spec fn wf(self) -> bool {
        distinct_schemes(self.uri_scheme_protocols@)
    }

    /// The webview, once its browser is there. It has no overlay and does not follow its
    /// window.
    pub open spec fn webview_with(
        self,
        browser: Option<BrowserId>,
        browser_id: BrowserId,
    ) -> Webview {
        Webview {
            webview_id: self.webview_id,
            label: self.label,
            browser,
            browser_id,
            overlay: None,
            bounds: None,
            devtools_enabled: self.devtools_enabled,
            runtime_style: self.runtime_style,
            uri_scheme_protocols: self.uri_scheme_protocols,
            initialization_scripts: self.initialization_scripts,
        }
    }

    /// The webview, once its browser is there.
    pub fn into_webview(self, browser: Option<BrowserId>, browser_id: BrowserId) -> (webview:
        Webview)
        ensures
            webview == self.webview_with(browser, browser_id),
    {
        Webview {
            webview_id: self.webview_id,
            label: self.label,
            browser,
            browser_id,
            overlay: None,
            bounds: None,
            devtools_enabled: self.devtools_enabled,
            runtime_style: self.runtime_style,
            uri_scheme_protocols: self.uri_scheme_protocols,
            initialization_scripts: self.initialization_scripts,
        }
    }
}

/// The windows after a webview was added to one.
pub open spec fn with_webview(
    windows: Map<WindowId, WindowView>,
    id: WindowId,
    webview: Webview,
) -> Map<WindowId, WindowView> {
    windows.insert(
        id,
        WindowView { webviews: windows[id].webviews.push(webview), ..windows[id] },
    )
}

/// Adds a planned webview to its window, behind the others, once its browser is there.
///
/// A window holds at most one browser with the Chrome runtime: a planned webview has it only
/// where the window had none.
pub fn add_webview(
    windows: &mut Windows,
    window_id: WindowId,
    planned: PlannedWebview,
    browser: BrowserId,
)
    requires
        old(windows)@.contains_key(window_id),
        planned.wf(),
        planned.runtime_style == Some(RuntimeStyle::Chrome) ==> !has_chrome(
            old(windows)@[window_id].webviews,
        ),
    ensures
        final(windows)@ == with_webview(
            old(windows)@,
            window_id,
            planned.webview_with(Some(browser), browser),
        ),
        single_chrome(old(windows)@[window_id].webviews) ==> single_chrome(
            final(windows)@[window_id].webviews,
        ),
        webviews_are_wf(old(windows)@) ==> webviews_are_wf(final(windows)@),
{
    let ghost before = windows@;
    if let Some(window) = windows.remove(window_id) {
        let mut window = window;
        window.webviews.push(planned.into_webview(Some(browser), browser));
        windows.insert(window_id, window);
    }
    assert(windows@ =~= with_webview(
        before,
        window_id,
        planned.webview_with(Some(browser), browser),
    ));
    proof {
        if webviews_are_wf(before) {
            adding_keeps_all(
                before,
                window_id,
                planned.webview_with(Some(browser), browser),
                |webview: Webview| webview.wf(),
            );
        }
    }
}

/// Plans a full browser window: what its browser is created with.
pub fn create_browser_window(
    window_id: WindowId,
    webview_id: WebviewId,
    webview: PendingWebview,
    devtools_built: bool,
) -> (plan: BrowserPlan)
    requires
        webview.wf(),
    ensures
        is_browser_plan(
            plan,
            WindowKind::Browser,
            window_id,
            webview_id,
            webview,
            None,
            devtools_built,
        ),
{
    plan_browser(WindowKind::Browser, window_id, webview_id, webview, None, devtools_built)
}

/// The browser window, once its browser is there: its one webview does not speak to the
/// browser, and is found by it.
pub open spec fn browser_window(
    label: String,
    window_builder: CefWindowBuilder,
    planned: PlannedWebview,
    browser: BrowserId,
) -> WindowView {
    WindowView {
        label,
        window: AppWindowKind::BrowserWindow,
        force_close: false,
        attributes: window_builder,
        webviews: seq![planned.webview_with(None, browser)],
        window_event_listeners: Map::empty(),
        webview_event_listeners: Map::empty(),
    }
}

/// Adds a planned browser window, where its browser could be created.
pub fn add_browser_window(
    windows: &mut Windows,
    window_id: WindowId,
    label: String,
    window_builder: CefWindowBuilder,
    planned: PlannedWebview,
    browser: Option<BrowserId>,
)
    requires
        planned.wf(),
    ensures
        final(windows)@ == (match browser {
            Some(browser) => old(windows)@.insert(
                window_id,
                browser_window(label, window_builder, planned, browser),
            ),
            None => old(windows)@,
        }),
        webviews_are_wf(old(windows)@) ==> webviews_are_wf(final(windows)@),
{
    let ghost before = windows@;
    if let Some(browser) = browser {
        let mut webviews: Vec<Webview> = Vec::new();
        webviews.push(planned.into_webview(None, browser));
        let window = Window::new(label, AppWindowKind::BrowserWindow, window_builder, webviews);
        assert(window@ =~= browser_window(label, window_builder, planned, browser));
        windows.insert(window_id, window);
        proof {
            if webviews_are_wf(before) {
                inserting_keeps_all(
                    before,
                    window_id,
                    browser_window(label, window_builder, planned, browser),
                    |webview: Webview| webview.wf(),
                );
            }
        }
    }
}

/// The window that was opened for the application: it has no webview yet.
pub open spec fn opened_window(
    label: String,
    window_builder: CefWindowBuilder,
    native: NativeWindowId,
) -> WindowView {
    WindowView {
        label,
        window: AppWindowKind::Window(native),
        force_close: false,
        attributes: window_builder,
        webviews: Seq::empty(),
        window_event_listeners: Map::empty(),
        webview_event_listeners: Map::empty(),
    }
}

/// Adds a window, once the window of the system is there. Browser windows are not opened this
/// way.
pub fn create_window(
    windows: &mut Windows,
    window_id: WindowId,
    label: String,
    window_builder: CefWindowBuilder,
    native: NativeWindowId,
)
    requires
        !window_builder.browser_window,
    ensures
        final(windows)@ == old(windows)@.insert(
            window_id,
            opened_window(label, window_builder, native),
        ),
{
    let window = Window::new(label, AppWindowKind::Window(native), window_builder, Vec::new());
    assert(window@ =~= opened_window(label, window_builder, native));
    windows.insert(window_id, window);
}

/// Without an attribute that says otherwise, the first browser of a window has the Chrome runtime
/// exactly if it is the content of the window.
pub proof fn chrome_is_for_window_content(kind: WebviewKind)
    ensures
        style_of(Seq::empty(), kind, false) == RuntimeStyle::Chrome <==> kind
            == WebviewKind::WindowContent,
{
}

/// A page that a registered scheme serves is known to the load handler as one of a custom
/// scheme, whatever follows its domain in the address.
pub proof fn registered_schemes_are_recognized(
    plan: BrowserPlan,
    kind: WindowKind,
    window_id: WindowId,
    webview_id: WebviewId,
    pending: PendingWebview,
    runtime_style: Option<RuntimeStyle>,
    devtools_built: bool,
    handler: CefBrowserLoadHandler,
    href: Seq<char>,
    index: int,
)
    requires
        is_browser_plan(
            plan,
            kind,
            window_id,
            webview_id,
            pending,
            runtime_style,
            devtools_built,
        ),
        handler.custom_scheme_domain_names@ == plan.client.custom_scheme_domain_names@,
        handler.custom_protocol_scheme == plan.client.custom_protocol_scheme,
        0 <= index < pending.uri_scheme_protocols@.len(),
    ensures
        handler.is_custom_scheme(
            (
                href,
                protocol_text(pending.webview_attributes.use_https_scheme),
                Some(domain_text(pending.uri_scheme_protocols@[index].scheme@)),
            ),
        ),
{
    let names = handler.custom_scheme_domain_names@;
    assert(names[index]@ == domain_text(pending.uri_scheme_protocols@[index].scheme@));
}

/// No two schemes of a webview are served from the same domain.
pub proof fn scheme_domains_are_distinct(
    context: RequestContextPlan,
    attributes: WebviewAttributes,
    schemes: Seq<UriScheme>,
    left: int,
    right: int,
)
    requires
        is_request_context(context, attributes, schemes),
        distinct_schemes(schemes),
        0 <= left < right < schemes.len(),
    ensures
        context.factories@[left].domain@ != context.factories@[right].domain@,
{
    assert(schemes[left].scheme@ != schemes[right].scheme@);
    if context.factories@[left].domain@ == context.factories@[right].domain@ {
        domains_are_distinct(schemes[left].scheme@, schemes[right].scheme@);
    }
}

/// A new webview leaves the other windows and the other webviews as they were, and with an id
/// of its own no two webviews of its window have the same.
pub proof fn added_webview_stands_last(
    windows: Map<WindowId, WindowView>,
    id: WindowId,
    webview: Webview,
    other: WindowId,
)
    requires
        windows.contains_key(id),
        other != id,
    ensures
        ({
            let after = with_webview(windows, id, webview);
            &&& after.dom() == windows.dom()
            &&& after[other] == windows[other]
            &&& after[id].webviews.drop_last() == windows[id].webviews
            &&& after[id].webviews.last() == webview
            &&& distinct_ids(windows[id].webviews) && (forall|index: int|
                0 <= index < windows[id].webviews.len() ==> (
                #[trigger] windows[id].webviews[index]).webview_id != webview.webview_id)
                ==> distinct_ids(after[id].webviews)
        }),
{
    let after = with_webview(windows, id, webview);
    assert(after.dom() =~= windows.dom());
    assert(after[id].webviews.drop_last() =~= windows[id].webviews);
}

/// A webview can be planned for a window that was just opened, and never for a browser window.
pub proof fn only_opened_windows_take_webviews(
    windows: Map<WindowId, WindowView>,
    id: WindowId,
    label: String,
    window_builder: CefWindowBuilder,
    native: NativeWindowId,
    planned: PlannedWebview,
    browser: BrowserId,
)
    ensures
        native_window(windows.insert(id, opened_window(label, window_builder, native)), id) == Some(
            native,
        ),
        native_window(
            windows.insert(id, browser_window(label, window_builder, planned, browser)),
            id,
        ) is None,
{
}

/// At most one browser of a window has the Chrome runtime: a window that was opened, or that is a
/// browser window, starts so, and adding a webview keeps it so where the window held no browser
/// with the Chrome runtime or the new one has another.
pub proof fn chrome_stays_single(
    windows: Map<WindowId, WindowView>,
    id: WindowId,
    webview: Webview,
    label: String,
    window_builder: CefWindowBuilder,
    native: NativeWindowId,
    planned: PlannedWebview,
    browser: BrowserId,
)
    ensures
        single_chrome(opened_window(label, window_builder, native).webviews),
        single_chrome(browser_window(label, window_builder, planned, browser).webviews),
        single_chrome(windows[id].webviews) && (has_chrome(windows[id].webviews)
            ==> webview.runtime_style != Some(RuntimeStyle::Chrome)) ==> single_chrome(
            with_webview(windows, id, webview)[id].webviews,
        ),
{
    let before = windows[id].webviews;
    let after = with_webview(windows, id, webview)[id].webviews;
    assert forall|index: int| 0 <= index < before.len() implies #[trigger] after[index]
        == before[index] by {}
}

} // verus!
