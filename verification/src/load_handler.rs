//! What happens when a frame starts to load a page, and when it has loaded it.
use vstd::prelude::*;

use crate::page_url::{parse_url, parsed_url, url_view, PageUrl};
use crate::script::CefInitScript;
use crate::webview::HandlerId;

verus! {

/// How far a page has been loaded.
#[derive(Debug, Clone, Copy, PartialEq, Eq, Structural)]
pub enum PageLoadEvent {
    Started,
    Finished,
}

/// A call of the function that is told of page loads.
#[derive(Debug)]
pub struct PageLoad {
    pub handler: HandlerId,
    pub url: String,
    pub event: PageLoadEvent,
}

/// A frame of a page.
#[derive(Debug)]
pub struct Frame {
    /// One for the main frame.
    pub is_main: i32,
    pub url: String,
}

/// A script to run in a frame, as if it stood at a line of a file.
#[derive(Debug)]
pub struct ScriptRun {
    pub code: String,
    pub script_url: String,
    pub start_line: i32,
}

/// What follows when a frame has been loaded: first the call, then the scripts.
#[derive(Debug)]
pub struct LoadEnd {
    pub page_load: Option<PageLoad>,
    pub scripts: Vec<ScriptRun>,
}

/// What a browser does about the pages that it loads.
#[derive(Debug)]
pub struct CefBrowserLoadHandler {
    pub initialization_scripts: Vec<CefInitScript>,
    pub on_page_load_handler: Option<HandlerId>,
    pub custom_scheme_domain_names: Vec<String>,
    pub custom_protocol_scheme: String,
}

/// The text of an address, its scheme and its host.
pub type UrlView = (Seq<char>, Seq<char>, Option<Seq<char>>);

/// The scheme of an address.
pub open spec fn scheme_of(url: UrlView) -> Seq<char> {
    url.1
}

/// Whether a text is among the strings.
pub open spec fn has_text(strings: Seq<String>, text: Seq<char>) -> bool {
    exists|index: int| 0 <= index < strings.len() && #[trigger] strings[index]@ == text
}

/// Whether a string with the text of `text` is among the strings.
fn contains_text(strings: &Vec<String>, text: &str) -> (found: bool)
    ensures
        found == has_text(strings@, text@),
{
    let wanted = text.to_owned();
    let mut index: usize = 0;
    while index < strings.len()
        invariant
            index <= strings.len(),
            wanted@ == text@,
            forall|before: int| 0 <= before < index ==> (#[trigger] strings[before])@ != text@,
        decreases strings.len() - index,
    {
        if strings[index] == wanted {
            assert(strings@[index as int]@ == text@);
            return true;
        }
        index = index + 1;
    }
    false
}

/// Whether the call tells `handler` of `event` at `url`; no call where there is no handler, the
/// frame is inside a page, or its address is none.
pub open spec fn is_page_load(
    call: Option<PageLoad>,
    handler: Option<HandlerId>,
    is_main: bool,
    url: Option<UrlView>,
    event: PageLoadEvent,
) -> bool {
    match (handler, url) {
        (Some(handler), Some(url)) if is_main => call matches Some(load) && load.handler == handler
            && load.url@ == url.0 && load.event == event,
        _ => call is None,
    }
}

/// Whether a script runs in a frame.
pub open spec fn runs_in_frame(is_main: bool) -> spec_fn(CefInitScript) -> bool {
    |script: CefInitScript| is_main || !script.script.for_main_frame_only
}

/// The scripts that run in a frame: all of them in the main frame, in any other those that are
/// not for the main frame only.
pub open spec fn scripts_for(scripts: Seq<CefInitScript>, is_main: bool) -> Seq<CefInitScript> {
    scripts.filter(runs_in_frame(is_main))
}

/// The file that initialization scripts seem to stand in, for a page with the given scheme.
pub open spec fn init_script_url(scheme: Seq<char>) -> Seq<char> {
    scheme + "://__tauri_init_script__"@
}

/// Whether the runs are those of the scripts, in order, from the first line of the file.
pub open spec fn runs_scripts(
    runs: Seq<ScriptRun>,
    scripts: Seq<CefInitScript>,
    script_url: Seq<char>,
) -> bool {
    &&& runs.len() == scripts.len()
    &&& forall|index: int|
        0 <= index < runs.len() ==> {
            &&& (#[trigger] runs[index]).code@ == scripts[index].script.script@
            &&& runs[index].script_url@ == script_url
            &&& runs[index].start_line == 0
        }
}

impl CefBrowserLoadHandler {
    /// Whether the page is one of a custom scheme: it is served over the custom protocol, from
    /// the domain of a scheme.
    pub open spec fn is_custom_scheme(self, url: UrlView) -> bool {
        &&& scheme_of(url) == self.custom_protocol_scheme@
        &&& has_text(
            self.custom_scheme_domain_names@,
            match url.2 {
                Some(host) => host,
                None => ""@,
            },
        )
    }

    /// Whether scripts run in a frame that was loaded with the given status: it must be one of
    /// success, and the address must be one, and not of a custom scheme.
    pub open spec fn runs_in(self, url: Option<UrlView>, status: i32) -> bool {
        200 <= status < 300 && url is Some && !self.is_custom_scheme(url->0)
    }

    /// What follows when a frame starts to load a page.
    pub fn on_load_start(&self, frame: Option<Frame>) -> (call: Option<PageLoad>)
        ensures
            match frame {
                Some(frame) => is_page_load(
                    call,
                    self.on_page_load_handler,
                    frame.is_main == 1,
                    parsed_url(frame.url@),
                    PageLoadEvent::Started,
                ),
                None => call is None,
            },
    {
        match frame {
            Some(frame) => {
                let url = parse_url(frame.url.as_str());
                self.page_load(frame.is_main == 1, &url, PageLoadEvent::Started)
            },
            None => None,
        }
    }

    /// The call that tells of a page load, for an address that was parsed.
    pub fn page_load(&self, is_main: bool, url: &Option<PageUrl>, event: PageLoadEvent) -> (call:
        Option<PageLoad>)
        ensures
            is_page_load(call, self.on_page_load_handler, is_main, url_view(*url), event),
    {
        match (self.on_page_load_handler, url) {
            (Some(handler), Some(url)) => if is_main {
                Some(PageLoad { handler, url: url.href.clone(), event })
            } else {
                None
            },
            _ => None,
        }
    }

    /// What follows when a frame has loaded a page.
    pub fn on_load_end(&self, frame: Option<Frame>, http_status_code: i32) -> (end: Option<LoadEnd>)
        ensures
            match (frame, end) {
                (Some(frame), Some(end)) => self.is_load_end(
                    end,
                    frame.is_main == 1,
                    parsed_url(frame.url@),
                    http_status_code,
                ),
                (None, None) => true,
                _ => false,
            },
    {
        match frame {
            Some(frame) => {
                let url = parse_url(frame.url.as_str());
                Some(self.load_end(frame.is_main == 1, &url, http_status_code))
            },
            None => None,
        }
    }

    /// Whether this is what follows when a frame has been loaded.
    pub open spec fn is_load_end(
        self,
        end: LoadEnd,
        is_main: bool,
        url: Option<UrlView>,
        status: i32,
    ) -> bool {
        &&& is_page_load(
            end.page_load,
            self.on_page_load_handler,
            is_main,
            url,
            PageLoadEvent::Finished,
        )
        &&& if self.runs_in(url, status) {
            runs_scripts(
                end.scripts@,
                scripts_for(self.initialization_scripts@, is_main),
                init_script_url(scheme_of(url->0)),
            )
        } else {
            end.scripts@.len() == 0
        }
    }

    /// What follows when a frame has loaded a page, for an address that was parsed.
    pub fn load_end(&self, is_main: bool, url: &Option<PageUrl>, http_status_code: i32) -> (end:
        LoadEnd)
        ensures
            self.is_load_end(end, is_main, url_view(*url), http_status_code),
    {
        let page_load = self.page_load(is_main, url, PageLoadEvent::Finished);
        if !(200 <= http_status_code && http_status_code < 300) {
            return LoadEnd { page_load, scripts: Vec::new() };
        }
        match url {
            Some(url) => if self.serves(url) {
                LoadEnd { page_load, scripts: Vec::new() }
            } else {
                LoadEnd { page_load, scripts: self.script_runs(is_main, url.scheme.as_str()) }
            },
            None => LoadEnd { page_load, scripts: Vec::new() },
        }
    }

    /// Whether the page is one of a custom scheme.
    fn serves(&self, url: &PageUrl) -> (custom: bool)
        ensures
            custom == self.is_custom_scheme(url@),
    {
        if url.scheme == self.custom_protocol_scheme {
            match &url.host {
                Some(host) => contains_text(&self.custom_scheme_domain_names, host.as_str()),
                None => contains_text(&self.custom_scheme_domain_names, ""),
            }
        } else {
            false
        }
    }

    /// The runs of the scripts for a frame.
    fn script_runs(&self, is_main: bool, scheme: &str) -> (runs: Vec<ScriptRun>)
        ensures
            runs_scripts(
                runs@,
                scripts_for(self.initialization_scripts@, is_main),
                init_script_url(scheme@),
            ),
    {
        let scripts = &self.initialization_scripts;
        let mut runs: Vec<ScriptRun> = Vec::new();
        let mut index: usize = 0;
        proof {
            reveal(Seq::filter);
            assert(scripts@.take(0) =~= Seq::empty());
        }
        while index < scripts.len()
            invariant
                index <= scripts.len(),
                runs_scripts(
                    runs@,
                    scripts_for(scripts@.take(index as int), is_main),
                    init_script_url(scheme@),
                ),
            decreases scripts.len() - index,
        {
            proof {
                reveal(Seq::filter);
                let next = scripts@.take(index + 1);
                assert(next.drop_last() =~= scripts@.take(index as int));
                assert(next.last() == scripts@[index as int]);
            }
            if is_main || !scripts[index].script.for_main_frame_only {
                let mut script_url = scheme.to_owned();
                script_url.append("://__tauri_init_script__");
                runs.push(
                    ScriptRun {
                        code: scripts[index].script.script.clone(),
                        script_url,
                        start_line: 0,
                    },
                );
            }
            index = index + 1;
        }
        assert(scripts@.take(index as int) =~= scripts@);
        runs
    }
}

/// A page of a custom scheme never has scripts run in it by the load handler, in whatever
/// frame and with whatever status.
pub proof fn custom_scheme_pages_are_left_alone(
    handler: CefBrowserLoadHandler,
    end: LoadEnd,
    is_main: bool,
    url: UrlView,
    status: i32,
)
    requires
        handler.is_custom_scheme(url),
        handler.is_load_end(end, is_main, Some(url), status),
    ensures
        end.scripts@.len() == 0,
{
}

/// A script that runs in a frame inside a page runs in the main frame too.
pub proof fn subframe_scripts_run_in_main_frame(
    scripts: Seq<CefInitScript>,
    script: CefInitScript,
)
    requires
        scripts_for(scripts, false).contains(script),
    ensures
        scripts_for(scripts, true).contains(script),
        !script.script.for_main_frame_only,
{
    broadcast use vstd::seq_lib::group_filter_ensures;

    scripts.lemma_filter_contains_rev(runs_in_frame(false), script);
    let index = choose|index: int| 0 <= index < scripts.len() && scripts[index] == script;
    scripts.lemma_filter_contains(runs_in_frame(true), index);
    let place = scripts_for(scripts, false).index_of(script);
    scripts.lemma_filter_pred(runs_in_frame(false), place);
}

/// In the main frame every script runs, in order.
pub proof fn main_frame_runs_all(scripts: Seq<CefInitScript>)
    ensures
        scripts_for(scripts, true) == scripts,
    decreases scripts.len(),
{
    reveal(Seq::filter);
    if scripts.len() > 0 {
        main_frame_runs_all(scripts.drop_last());
        assert(scripts_for(scripts, true) =~= scripts);
    } else {
        assert(scripts_for(scripts, true) =~= scripts);
    }
}

} // verus!
