//! The windows of an application.
use std::collections::HashMap;

use vstd::prelude::*;

use crate::webview::{HandlerId, NativeWindowId, Webview, WebviewBounds, WebviewId, WindowId};
use crate::window_builder::CefWindowBuilder;

verus! {

broadcast use vstd::std_specs::hash::group_hash_axioms;

/// What opened a window.
#[derive(Debug, Clone, Copy, PartialEq, Eq, Structural)]
pub enum WindowKind {
    /// A full browser window, opened by the browser engine.
    Browser,
    /// A window of the application.
    Tauri,
}

/// What stands behind a window.
#[derive(Debug, Clone, Copy, PartialEq, Eq, Structural)]
pub enum AppWindowKind {
    /// A window of the system.
    Window(NativeWindowId),
    /// A window that belongs to the browser engine.
    BrowserWindow,
}

/// A window, with its webviews and those who listen to it.
#[derive(Debug)]
pub struct Window {
    pub label: String,
    pub window: AppWindowKind,
    /// Whether the window closes without asking.
    pub force_close: bool,
    pub attributes: CefWindowBuilder,
    pub webviews: Vec<Webview>,
    pub window_event_listeners: HashMap<u32, HandlerId>,
    pub webview_event_listeners: HashMap<WebviewId, HashMap<u32, HandlerId>>,
}

/// What a window holds.
#[verifier::ext_equal]
pub ghost struct WindowView {
    pub label: String,
    pub window: AppWindowKind,
    pub force_close: bool,
    pub attributes: CefWindowBuilder,
    pub webviews: Seq<Webview>,
    pub window_event_listeners: Map<u32, HandlerId>,
    pub webview_event_listeners: Map<WebviewId, Map<u32, HandlerId>>,
}

impl View for Window {
    type V = WindowView;

    open spec fn view(&self) -> WindowView {
        WindowView {
            label: self.label,
            window: self.window,
            force_close: self.force_close,
            attributes: self.attributes,
            webviews: self.webviews@,
            window_event_listeners: self.window_event_listeners@,
            webview_event_listeners: self.webview_event_listeners@.map_values(
                |listeners: HashMap<u32, HandlerId>| listeners@,
            ),
        }
    }
}

impl WindowView {
    /// The window of the system, where there is one.
    pub open spec fn native(self) -> Option<NativeWindowId> {
        match self.window {
            AppWindowKind::Window(native) => Some(native),
            AppWindowKind::BrowserWindow => None,
        }
    }
}

impl Window {
    /// A window that nothing was added to.
    pub fn new(
        label: String,
        window: AppWindowKind,
        attributes: CefWindowBuilder,
        webviews: Vec<Webview>,
    ) -> (created: Self)
        ensures
            created@ == (WindowView {
                label,
                window,
                force_close: false,
                attributes,
                webviews: webviews@,
                window_event_listeners: Map::empty(),
                webview_event_listeners: Map::empty(),
            }),
    {
        Window {
            label,
            window,
            force_close: false,
            attributes,
            webviews,
            window_event_listeners: HashMap::new(),
            webview_event_listeners: HashMap::new(),
        }
    }

    /// The window of the system; a browser window has none.
    pub fn window(&self) -> (native: Option<NativeWindowId>)
        ensures
            native == self@.native(),
    {
        match self.window {
            AppWindowKind::Window(native) => Some(native),
            AppWindowKind::BrowserWindow => None,
        }
    }

    /// Adds a listener for the events of the window; one with the same id is replaced.
    pub fn add_listener(&mut self, event_id: u32, handler: HandlerId)
        ensures
            final(self)@ == (WindowView {
                window_event_listeners: old(self)@.window_event_listeners.insert(event_id, handler),
                ..old(self)@
            }),
    {
        let _ = self.window_event_listeners.insert(event_id, handler);
    }

    /// Adds a listener for the events of a webview; one with the same id is replaced.
    pub fn add_webview_listener(
        &mut self,
        webview_id: WebviewId,
        event_id: u32,
        handler: HandlerId,
    )
        ensures
            final(self)@ == (WindowView {
                webview_event_listeners: old(self)@.webview_event_listeners.insert(
                    webview_id,
                    (if old(self)@.webview_event_listeners.contains_key(webview_id) {
                        old(self)@.webview_event_listeners[webview_id]
                    } else {
                        Map::empty()
                    }).insert(event_id, handler),
                ),
                ..old(self)@
            }),
    {
        let mut listeners = match self.webview_event_listeners.remove(&webview_id) {
            Some(listeners) => listeners,
            None => HashMap::new(),
        };
        let _ = listeners.insert(event_id, handler);
        let _ = self.webview_event_listeners.insert(webview_id, listeners);
        assert(self@.webview_event_listeners =~= old(self)@.webview_event_listeners.insert(
            webview_id,
            (if old(self)@.webview_event_listeners.contains_key(webview_id) {
                old(self)@.webview_event_listeners[webview_id]
            } else {
                Map::empty()
            }).insert(event_id, handler),
        ));
    }

    /// Forgets those who listen to a webview.
    pub fn remove_webview_listeners(&mut self, webview_id: WebviewId)
        ensures
            final(self)@ == (WindowView {
                webview_event_listeners: old(self)@.webview_event_listeners.remove(webview_id),
                ..old(self)@
            }),
    {
        let _ = self.webview_event_listeners.remove(&webview_id);
        assert(self@.webview_event_listeners =~= old(self)@.webview_event_listeners.remove(
            webview_id,
        ));
    }

    /// Sets the bounds that a webview keeps.
    pub fn set_bounds(&mut self, index: usize, bounds: Option<WebviewBounds>)
        requires
            index < old(self)@.webviews.len(),
        ensures
            final(self)@ == (WindowView {
                webviews: old(self)@.webviews.update(
                    index as int,
                    Webview { bounds, ..old(self)@.webviews[index as int] },
                ),
                ..old(self)@
            }),
    {
        self.webviews[index].bounds = bounds;
    }
}

/// The open windows.
#[derive(Debug)]
pub struct Windows {
    pub map: HashMap<WindowId, Window>,
}

impl View for Windows {
    type V = Map<WindowId, WindowView>;

    open spec fn view(&self) -> Map<WindowId, WindowView> {
        self.map@.map_values(|window: Window| window@)
    }
}

/// Whether something holds of every webview of every window.
pub open spec fn all_webviews(
    windows: Map<WindowId, WindowView>,
    holds: spec_fn(Webview) -> bool,
) -> bool {
    forall|id: WindowId, index: int|
        windows.contains_key(id) && 0 <= index < windows[id].webviews.len() ==> holds(
            #[trigger] windows[id].webviews[index],
        )
}

/// Whether every scheme of every webview has one handler.
pub open spec fn webviews_are_wf(windows: Map<WindowId, WindowView>) -> bool {
    all_webviews(windows, |webview: Webview| webview.wf())
}

impl Windows {
    /// No window at all.
    pub fn new() -> (windows: Self)
        ensures
            windows@ == Map::<WindowId, WindowView>::empty(),
            webviews_are_wf(windows@),
    {
        Windows { map: HashMap::new() }
    }

    /// The window with an id.
    pub fn get(&self, id: WindowId) -> (window: Option<&Window>)
        ensures
            match window {
                Some(window) => self@.contains_key(id) && window@ == self@[id],
                None => !self@.contains_key(id),
            },
    {
        self.map.get(&id)
    }

    /// Adds a window; one with the same id is replaced.
    pub fn insert(&mut self, id: WindowId, window: Window)
        ensures
            final(self)@ == old(self)@.insert(id, window@),
    {
        let _ = self.map.insert(id, window);
        assert(self@ =~= old(self)@.insert(id, window@));
    }

    /// Takes a window out.
    pub fn remove(&mut self, id: WindowId) -> (window: Option<Window>)
        ensures
            final(self)@ == old(self)@.remove(id),
            match window {
                Some(window) => old(self)@.contains_key(id) && window@ == old(self)@[id],
                None => !old(self)@.contains_key(id),
            },
    {
        let window = self.map.remove(&id);
        assert(self@ =~= old(self)@.remove(id));
        window
    }

    /// Whether there is no window.
    pub fn is_empty(&self) -> (empty: bool)
        ensures
            empty == self@.is_empty(),
    {
        let empty = self.map.is_empty();
        assert(self@.dom() =~= self.map@.dom());
        empty
    }
}

} // verus!
