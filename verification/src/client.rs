//! What a browser asks of the application: who handles its requests, its pages, its title, its
//! downloads and its menus.
use vstd::prelude::*;

use crate::load_handler::CefBrowserLoadHandler;
use crate::script::{duplicate_scripts, CefInitScript};
use crate::webview::{HandlerId, WindowId};
use crate::window::WindowKind;

verus! {

/// Handles the requests of a browser.
#[derive(Debug)]
pub struct CefWebRequestHandler {
    pub initialization_scripts: Vec<CefInitScript>,
    pub navigation_handler: Option<HandlerId>,
}

/// Handles the title of a page.
#[derive(Debug, Clone, Copy, PartialEq, Eq, Structural)]
pub struct CefBrowserDisplayHandler {
    pub document_title_changed_handler: Option<HandlerId>,
}

/// Handles the downloads of a browser.
#[derive(Debug, Clone, Copy, PartialEq, Eq, Structural)]
pub struct CefBrowserDownloadHandler {
    pub handler: HandlerId,
}

/// Handles the context menu of a page.
#[derive(Debug, Clone, Copy, PartialEq, Eq, Structural)]
pub struct CefBrowserContextMenuHandler {
    pub devtools_enabled: bool,
}

/// Handles the keys that a page does not.
#[derive(Debug, Clone, Copy, PartialEq, Eq, Structural)]
pub struct CefBrowserKeyboardHandler {
    pub devtools_enabled: bool,
}

/// The application, as a browser sees it.
#[derive(Debug)]
pub struct CefBrowserClient {
    pub kind: WindowKind,
    pub window_id: WindowId,
    pub initialization_scripts: Vec<CefInitScript>,
    pub on_page_load_handler: Option<HandlerId>,
    pub document_title_changed_handler: Option<HandlerId>,
    pub navigation_handler: Option<HandlerId>,
    pub download_handler: Option<HandlerId>,
    pub devtools_enabled: bool,
    pub custom_scheme_domain_names: Vec<String>,
    pub custom_protocol_scheme: String,
}

/// A copy of the strings.
fn duplicate_strings(strings: &Vec<String>) -> (copies: Vec<String>)
    ensures
        copies@ == strings@,
{
    let mut copies: Vec<String> = Vec::new();
    let mut index: usize = 0;
    while index < strings.len()
        invariant
            index <= strings.len(),
            copies@ == strings@.take(index as int),
        decreases strings.len() - index,
    {
        copies.push(strings[index].clone());
        index = index + 1;
        assert(copies@ =~= strings@.take(index as int));
    }
    assert(strings@.take(index as int) =~= strings@);
    copies
}

impl CefBrowserClient {
    /// Who handles requests: always someone.
    pub fn request_handler(&self) -> (handler: Option<CefWebRequestHandler>)
        ensures
            handler matches Some(handler) && handler.initialization_scripts@
                == self.initialization_scripts@ && handler.navigation_handler
                == self.navigation_handler,
    {
        Some(
            CefWebRequestHandler {
                initialization_scripts: duplicate_scripts(&self.initialization_scripts),
                navigation_handler: self.navigation_handler,
            },
        )
    }

    /// Who handles page loads: always someone.
    pub fn load_handler(&self) -> (handler: Option<CefBrowserLoadHandler>)
        ensures
            handler matches Some(handler) && {
                &&& handler.initialization_scripts@ == self.initialization_scripts@
                &&& handler.on_page_load_handler == self.on_page_load_handler
                &&& handler.custom_scheme_domain_names@ == self.custom_scheme_domain_names@
                &&& handler.custom_protocol_scheme == self.custom_protocol_scheme
            },
    {
        Some(
            CefBrowserLoadHandler {
                initialization_scripts: duplicate_scripts(&self.initialization_scripts),
                on_page_load_handler: self.on_page_load_handler,
                custom_scheme_domain_names: duplicate_strings(&self.custom_scheme_domain_names),
                custom_protocol_scheme: self.custom_protocol_scheme.clone(),
            },
        )
    }

    /// Who handles titles: someone only where the application listens to them.
    pub fn display_handler(&self) -> (handler: Option<CefBrowserDisplayHandler>)
        ensures
            handler == (match self.document_title_changed_handler {
                Some(_) => Some(
                    CefBrowserDisplayHandler {
                        document_title_changed_handler: self.document_title_changed_handler,
                    },
                ),
                None => None,
            }),
    {
        if self.document_title_changed_handler.is_some() {
            Some(
                CefBrowserDisplayHandler {
                    document_title_changed_handler: self.document_title_changed_handler,
                },
            )
        } else {
            None
        }
    }

    /// Who handles downloads: someone only where the application does.
    pub fn download_handler(&self) -> (handler: Option<CefBrowserDownloadHandler>)
        ensures
            handler == (match self.download_handler {
                Some(handler) => Some(CefBrowserDownloadHandler { handler }),
                None => None,
            }),
    {
        match self.download_handler {
            Some(handler) => Some(CefBrowserDownloadHandler { handler }),
            None => None,
        }
    }

    /// Who handles context menus: always someone.
    pub fn context_menu_handler(&self) -> (handler: Option<CefBrowserContextMenuHandler>)
        ensures
            handler == Some(
                CefBrowserContextMenuHandler { devtools_enabled: self.devtools_enabled },
            ),
    {
        Some(CefBrowserContextMenuHandler { devtools_enabled: self.devtools_enabled })
    }

    /// Who handles keys: always someone.
    pub fn keyboard_handler(&self) -> (handler: Option<CefBrowserKeyboardHandler>)
        ensures
            handler == Some(CefBrowserKeyboardHandler { devtools_enabled: self.devtools_enabled }),
    {
        Some(CefBrowserKeyboardHandler { devtools_enabled: self.devtools_enabled })
    }
}

impl CefBrowserDisplayHandler {
    /// Who is called, and with what, when the title of a page changes.
    pub fn on_title_change(&self, title: Option<String>) -> (call: Option<(HandlerId, String)>)
        ensures
            call == (match (self.document_title_changed_handler, title) {
                (Some(handler), Some(title)) => Some((handler, title)),
                _ => None,
            }),
    {
        match (self.document_title_changed_handler, title) {
            (Some(handler), Some(title)) => Some((handler, title)),
            _ => None,
        }
    }
}

impl CefBrowserContextMenuHandler {
    /// The item to take out of a context menu before it is shown: the last one, which inspects
    /// the page, where the developer tools are not enabled.
    ///
    /// `count` is the number of items, where there is a menu; it has one at least.
    pub fn on_before_context_menu(&self, count: Option<usize>) -> (removed: Option<usize>)
        requires
            !self.devtools_enabled ==> count != Some(0usize),
        ensures
            removed == (match count {
                Some(count) => if self.devtools_enabled {
                    None
                } else {
                    Some((count - 1) as usize)
                },
                None => None,
            }),
    {
        match count {
            Some(count) => if self.devtools_enabled {
                None
            } else {
                Some(count - 1)
            },
            None => None,
        }
    }
}

} // verus!
