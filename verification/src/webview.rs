//! The webviews of a window.
use vstd::prelude::*;

use crate::script::CefInitScript;

verus! {

/// The id of a webview.
pub type WebviewId = u32;

/// The id of a window.
pub type WindowId = u32;

/// Stands for a function of the application: an event listener, a protocol handler, a task.
pub type HandlerId = u64;

/// The identifier that the browser engine gives a browser.
pub type BrowserId = i32;

/// Stands for the overlay that places a browser in a window.
pub type OverlayId = u64;

/// Stands for a window of the system.
pub type NativeWindowId = u64;

/// How a webview fills its window.
#[derive(Debug, Clone, Copy, PartialEq, Eq, PartialOrd, Ord, Structural)]
pub enum WebviewKind {
    /// The webview is the entire content of the window.
    WindowContent,
    /// The webview is a child of the window, which can hold other webviews too.
    WindowChild,
}

/// The runtime of a browser.
#[derive(Debug, Clone, Copy, PartialEq, Eq, Structural)]
pub enum RuntimeStyle {
    /// The Alloy runtime, which webviews have that share their window.
    Alloy,
    /// The Chrome runtime, which a webview has that is the content of its window. A window can
    /// hold one browser with this runtime.
    Chrome,
}

/// The share that a coordinate has in the extent of a window: the quotient `part / whole`.
#[derive(Debug, Clone, Copy, PartialEq, Eq, Structural)]
pub struct Rate {
    pub part: i64,
    pub whole: u32,
}

/// The place of a webview in its window, as shares of the window's size.
#[derive(Debug, Clone, Copy, PartialEq, Eq, Structural)]
pub struct WebviewBounds {
    pub x_rate: Rate,
    pub y_rate: Rate,
    pub width_rate: Rate,
    pub height_rate: Rate,
}

/// A custom URI scheme and the function that answers its requests.
#[derive(Debug, PartialEq, Eq)]
pub struct UriScheme {
    pub scheme: String,
    pub handler: HandlerId,
}

/// A webview of a window.
#[derive(Debug)]
pub struct Webview {
    pub webview_id: WebviewId,
    pub label: String,
    /// The browser, where the webview may speak to it.
    pub browser: Option<BrowserId>,
    /// The browser that scheme handlers look the webview up by.
    pub browser_id: BrowserId,
    pub overlay: Option<OverlayId>,
    /// The shares that the webview keeps when its window is resized; `None` where it does not
    /// follow the window.
    pub bounds: Option<WebviewBounds>,
    pub devtools_enabled: bool,
    /// The runtime of the browser; `None` where the browser engine chose it.
    pub runtime_style: Option<RuntimeStyle>,
    pub uri_scheme_protocols: Vec<UriScheme>,
    pub initialization_scripts: Vec<CefInitScript>,
}

/// Whether no scheme is there twice.
pub open spec fn distinct_schemes(schemes: Seq<UriScheme>) -> bool {
    forall|left: int, right: int|
        0 <= left < right < schemes.len() ==> (#[trigger] schemes[left]).scheme@ != (
        #[trigger] schemes[right]).scheme@
}

impl Webview {
    /// Every scheme of the webview has one handler.
    pub open spec fn wf(self) -> bool {
        distinct_schemes(self.uri_scheme_protocols@)
    }
}

/// Whether the first webview with the id `id` stands at `index`.
pub open spec fn is_first(webviews: Seq<Webview>, id: WebviewId, index: int) -> bool {
    &&& 0 <= index < webviews.len()
    &&& webviews[index].webview_id == id
    &&& forall|before: int| 0 <= before < index ==> webviews[before].webview_id != id
}

/// Where the first webview with the id `id` stands.
pub open spec fn webview_index(webviews: Seq<Webview>, id: WebviewId) -> Option<int> {
    if exists|index: int| is_first(webviews, id, index) {
        Some(choose|index: int| is_first(webviews, id, index))
    } else {
        None
    }
}

/// Whether no two webviews have the same id.
pub open spec fn distinct_ids(webviews: Seq<Webview>) -> bool {
    forall|left: int, right: int|
        0 <= left < right < webviews.len() ==> webviews[left].webview_id
            != webviews[right].webview_id
}

/// Whether a webview has a browser with the Chrome runtime.
pub open spec fn has_chrome(webviews: Seq<Webview>) -> bool {
    exists|index: int|
        0 <= index < webviews.len() && (#[trigger] webviews[index]).runtime_style == Some(
            RuntimeStyle::Chrome,
        )
}

/// Whether at most one webview has a browser with the Chrome runtime.
pub open spec fn single_chrome(webviews: Seq<Webview>) -> bool {
    forall|left: int, right: int|
        0 <= left < right < webviews.len() ==> !((#[trigger] webviews[left]).runtime_style == Some(
            RuntimeStyle::Chrome,
        ) && (#[trigger] webviews[right]).runtime_style == Some(RuntimeStyle::Chrome))
}

/// Whether a webview has a browser with the Chrome runtime.
pub fn finds_chrome(webviews: &Vec<Webview>) -> (found: bool)
    ensures
        found == has_chrome(webviews@),
{
    let mut index: usize = 0;
    while index < webviews.len()
        invariant
            index <= webviews.len(),
            forall|before: int|
                0 <= before < index ==> (#[trigger] webviews[before]).runtime_style != Some(
                    RuntimeStyle::Chrome,
                ),
        decreases webviews.len() - index,
    {
        if let Some(RuntimeStyle::Chrome) = webviews[index].runtime_style {
            assert(webviews@[index as int].runtime_style == Some(RuntimeStyle::Chrome));
            return true;
        }
        index = index + 1;
    }
    false
}

/// There is a first webview with an id exactly if there is one at all.
pub proof fn webview_index_finds(webviews: Seq<Webview>, id: WebviewId)
    ensures
        match webview_index(webviews, id) {
            Some(index) => is_first(webviews, id, index),
            None => forall|index: int|
                0 <= index < webviews.len() ==> webviews[index].webview_id != id,
        },
    decreases webviews.len(),
{
    if webview_index(webviews, id) is None {
        if webviews.len() > 0 {
            let rest = webviews.drop_last();
            webview_index_finds(rest, id);
            if webview_index(rest, id) is Some {
                let found = webview_index(rest, id)->0;
                assert forall|before: int| 0 <= before < found implies
                    webviews[before].webview_id != id by {
                    assert(rest[before].webview_id != id);
                }
                assert(is_first(webviews, id, found));
            } else {
                assert forall|index: int| 0 <= index < webviews.len() implies
                    webviews[index].webview_id != id by {
                    if index < rest.len() {
                        assert(rest[index].webview_id != id);
                    } else if webviews[index].webview_id == id {
                        assert forall|before: int| 0 <= before < index implies
                            webviews[before].webview_id != id by {
                            assert(rest[before].webview_id != id);
                        }
                        assert(is_first(webviews, id, index));
                    }
                }
            }
        }
    }
}

/// There is one place for the first webview with an id.
pub proof fn first_is_unique(webviews: Seq<Webview>, id: WebviewId, index: int)
    requires
        is_first(webviews, id, index),
    ensures
        webview_index(webviews, id) == Some(index),
{
    let found = webview_index(webviews, id)->0;
    assert(is_first(webviews, id, found));
    assert(!(found < index));
    assert(!(index < found));
}

/// Finds the first webview with the id `id`.
pub fn find_webview(webviews: &Vec<Webview>, id: WebviewId) -> (found: Option<usize>)
    ensures
        match found {
            Some(index) => is_first(webviews@, id, index as int) && webview_index(webviews@, id)
                == Some(index as int),
            None => webview_index(webviews@, id) is None,
        },
{
    let mut index: usize = 0;
    while index < webviews.len()
        invariant
            index <= webviews.len(),
            forall|before: int| 0 <= before < index ==> webviews[before].webview_id != id,
        decreases webviews.len() - index,
    {
        if webviews[index].webview_id == id {
            proof {
                first_is_unique(webviews@, id, index as int);
            }
            return Some(index);
        }
        index = index + 1;
    }
    None
}

} // verus!
