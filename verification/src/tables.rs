//! What is put into the tables of the runtime is found in them.
use vstd::prelude::*;

use crate::context::Message;
use crate::page_url::PageUrl;
use crate::script::{duplicate_scripts, init_scripts, CefInitScript, InitializationScript};
use crate::webview::{
    find_webview, finds_chrome, webview_index_finds, HandlerId, NativeWindowId, RuntimeStyle,
    Webview, WebviewBounds, WebviewId, WindowId,
};
use crate::window::{AppWindowKind, Window, WindowView, Windows};
use crate::window_builder::{CefWindowBuilder, TitleBarFlags, TitleBarStyle};

verus! {

/// A table without windows is empty and finds none.
pub proof fn new_tables_are_empty(windows: Windows, id: WindowId)
    requires
        call_ensures(Windows::new, (), windows),
    ensures
        forall|found: Option<&Window>| #[trigger]
            call_ensures(Windows::get, (&windows, id), found) ==> found is None,
        forall|empty: bool| #[trigger]
            call_ensures(Windows::is_empty, (&windows,), empty) ==> empty,
{
}

/// A window is found exactly under its own id.
pub proof fn windows_are_found_under_their_id(windows: Windows, id: WindowId)
    ensures
        forall|found: Option<&Window>| #[trigger]
            call_ensures(Windows::get, (&windows, id), found) ==> {
                &&& found is Some <==> windows@.contains_key(id)
                &&& found is Some ==> found->0@ == windows@[id]
            },
        forall|empty: bool| #[trigger]
            call_ensures(Windows::is_empty, (&windows,), empty) ==> {
                &&& windows@.contains_key(id) ==> !empty
                &&& (forall|other: WindowId| !(#[trigger] windows@.contains_key(other))) ==> empty
            },
{
    if forall|other: WindowId| !(#[trigger] windows@.contains_key(other)) {
        assert(windows@.dom() =~= Set::empty());
    }
}

/// A window that is put in is found under its id, and one that is taken out is handed over and no
/// longer found. All others stay.
pub proof fn windows_come_and_go(id: WindowId, window: Window, other: WindowId)
    ensures
        forall|windows: &mut Windows| #[trigger]
            call_ensures(Windows::insert, (windows, id, window), ()) ==> {
                let after = final(windows)@;
                &&& after.contains_key(id) && after[id] == window@
                &&& other != id ==> (after.contains_key(other) <==> windows@.contains_key(other))
                &&& other != id ==> after[other] == windows@[other]
            },
        forall|windows: &mut Windows, taken: Option<Window>| #[trigger]
            call_ensures(Windows::remove, (windows, id), taken) ==> {
                let after = final(windows)@;
                &&& !after.contains_key(id)
                &&& taken is Some <==> windows@.contains_key(id)
                &&& taken is Some ==> taken->0@ == windows@[id]
                &&& other != id ==> (after.contains_key(other) <==> windows@.contains_key(other))
                &&& other != id ==> after[other] == windows@[other]
            },
{
}

/// A new window is what it was made of, asks before it closes, and nobody listens to it.
pub proof fn new_windows_are_what_they_are_made_of(
    label: String,
    kind: AppWindowKind,
    attributes: CefWindowBuilder,
    webviews: Vec<Webview>,
    window: Window,
    native: Option<NativeWindowId>,
)
    requires
        call_ensures(Window::new, (label, kind, attributes, webviews), window),
        call_ensures(Window::window, (&window,), native),
    ensures
        window@.label == label,
        window@.window == kind,
        window@.attributes == attributes,
        window@.webviews == webviews@,
        !window@.force_close,
        forall|event: u32| !(#[trigger] window@.window_event_listeners.contains_key(event)),
        forall|id: WebviewId| !(#[trigger] window@.webview_event_listeners.contains_key(id)),
        native is Some <==> kind is Window,
        native is Some ==> kind == AppWindowKind::Window(native->0),
{
}

/// Whoever begins to listen to a window is there from then on, and all others still are. Nothing
/// else of the window changes.
pub proof fn listeners_to_windows_are_kept(event_id: u32, handler: HandlerId, other: u32)
    ensures
        forall|window: &mut Window| #[trigger]
            call_ensures(Window::add_listener, (window, event_id, handler), ()) ==> {
                let before = window@.window_event_listeners;
                let after = final(window)@.window_event_listeners;
                &&& after.contains_key(event_id) && after[event_id] == handler
                &&& other != event_id ==> (after.contains_key(other) <==> before.contains_key(
                    other,
                ))
                &&& other != event_id ==> after[other] == before[other]
                &&& final(window)@ == WindowView { window_event_listeners: after, ..window@ }
            },
{
}

/// Whoever begins to listen to a webview is there from then on, with all others. Those who are
/// forgotten are those of that webview alone.
pub proof fn listeners_to_webviews_are_kept(
    webview_id: WebviewId,
    event_id: u32,
    handler: HandlerId,
    other: WebviewId,
    other_event: u32,
)
    ensures
        forall|window: &mut Window| #[trigger]
            call_ensures(
                Window::add_webview_listener,
                (window, webview_id, event_id, handler),
                (),
            ) ==> {
                let before = window@.webview_event_listeners;
                let after = final(window)@.webview_event_listeners;
                &&& after.contains_key(webview_id)
                &&& after[webview_id].contains_key(event_id)
                &&& after[webview_id][event_id] == handler
                &&& other_event != event_id ==> (after[webview_id].contains_key(other_event)
                    <==> before.contains_key(webview_id) && before[webview_id].contains_key(
                    other_event,
                ))
                &&& other_event != event_id && before.contains_key(webview_id)
                    && before[webview_id].contains_key(other_event)
                    ==> after[webview_id][other_event] == before[webview_id][other_event]
                &&& other != webview_id ==> (after.contains_key(other) <==> before.contains_key(
                    other,
                ))
                &&& other != webview_id ==> after[other] == before[other]
                &&& final(window)@ == WindowView { webview_event_listeners: after, ..window@ }
            },
        forall|window: &mut Window| #[trigger]
            call_ensures(Window::remove_webview_listeners, (window, webview_id), ()) ==> {
                let before = window@.webview_event_listeners;
                let after = final(window)@.webview_event_listeners;
                &&& !after.contains_key(webview_id)
                &&& other != webview_id ==> (after.contains_key(other) <==> before.contains_key(
                    other,
                ))
                &&& other != webview_id ==> after[other] == before[other]
                &&& final(window)@ == WindowView { webview_event_listeners: after, ..window@ }
            },
{
}

/// The shares that one webview keeps are set, and nothing else of it, of the others or of the
/// window changes.
pub proof fn shares_are_set_for_one(index: usize, bounds: Option<WebviewBounds>, other: int)
    ensures
        forall|window: &mut Window| #[trigger]
            call_ensures(Window::set_bounds, (window, index, bounds), ()) && index
                < window@.webviews.len() ==> {
                let before = window@.webviews;
                let after = final(window)@.webviews;
                &&& after.len() == before.len()
                &&& after[index as int] == Webview { bounds, ..before[index as int] }
                &&& 0 <= other < before.len() && other != index ==> after[other] == before[other]
                &&& final(window)@ == WindowView { webviews: after, ..window@ }
            },
{
}

/// A webview is found at the first place where its id stands, and not at all exactly where its id
/// stands nowhere. A browser with the Chrome runtime is found wherever it stands.
pub proof fn webviews_are_found_at_their_place(
    webviews: Vec<Webview>,
    id: WebviewId,
    found: Option<usize>,
    chrome: bool,
    place: int,
)
    requires
        call_ensures(find_webview, (&webviews, id), found),
        call_ensures(finds_chrome, (&webviews,), chrome),
    ensures
        found is Some ==> {
            &&& found->0 < webviews@.len()
            &&& webviews@[found->0 as int].webview_id == id
            &&& 0 <= place < found->0 ==> webviews@[place].webview_id != id
        },
        found is None && 0 <= place < webviews@.len() ==> webviews@[place].webview_id != id,
        0 <= place < webviews@.len() && webviews@[place].runtime_style == Some(
            RuntimeStyle::Chrome,
        ) ==> chrome,
        chrome ==> exists|index: int|
            0 <= index < webviews@.len() && (#[trigger] webviews@[index]).runtime_style == Some(
                RuntimeStyle::Chrome,
            ),
{
    webview_index_finds(webviews@, id);
}

/// A copy is what was copied.
pub proof fn copies_are_alike(
    script: InitializationScript,
    init: CefInitScript,
    inits: Vec<CefInitScript>,
    url: PageUrl,
)
    ensures
        forall|copy: InitializationScript| #[trigger]
            call_ensures(InitializationScript::duplicate, (&script,), copy) ==> copy.script@
                == script.script@ && copy.for_main_frame_only == script.for_main_frame_only,
        forall|copy: CefInitScript| #[trigger]
            call_ensures(CefInitScript::duplicate, (&init,), copy) ==> copy.script == init.script
                && copy.hash@ == init.hash@,
        forall|copies: Vec<CefInitScript>| #[trigger]
            call_ensures(duplicate_scripts, (&inits,), copies) ==> copies@ == inits@,
        forall|copy: PageUrl| #[trigger]
            call_ensures(PageUrl::duplicate, (&url,), copy) ==> copy.href@ == url.href@
                && copy.scheme@ == url.scheme@ && copy.host == url.host,
{
}

/// A message that carries an event of the application is copied with that event.
pub proof fn event_messages_are_copied<T: Clone>(event: T, copy: Message<T>)
    requires
        call_ensures(Message::<T>::duplicate, (&Message::UserEvent(event),), copy),
    ensures
        copy is UserEvent,
        cloned(event, copy->UserEvent_0),
{
}

/// Every script gets the hash that it has by itself, and keeps its place.
pub proof fn scripts_are_hashed_one_by_one(
    scripts: Vec<InitializationScript>,
    inits: Vec<CefInitScript>,
    alone: CefInitScript,
    index: int,
)
    requires
        call_ensures(init_scripts, (&scripts,), inits),
        0 <= index < scripts@.len(),
        call_ensures(CefInitScript::new, (scripts@[index],), alone),
    ensures
        inits@.len() == scripts@.len(),
        inits@[index].script == scripts@[index],
        inits@[index].hash@ == alone.hash@,
{
}

/// A title bar is see-through unless it is visible, and has the content below it unless it is
/// transparent; an unknown one is neither.
pub proof fn title_bars_are_told_apart(style: TitleBarStyle, flags: Option<TitleBarFlags>)
    requires
        call_ensures(TitleBarStyle::flags, (style,), flags),
    ensures
        flags is None <==> style is Unknown,
        flags is Some ==> (flags->0.titlebar_transparent <==> !(style is Visible)),
        flags is Some ==> (flags->0.fullsize_content_view <==> !(style is Transparent)),
{
}

} // verus!
