//! What the loading of a page comes to, whatever way it takes inside.
use vstd::prelude::*;
use vstd::utf8::*;

use crate::client::{
    CefBrowserClient, CefBrowserContextMenuHandler, CefBrowserDisplayHandler,
    CefBrowserDownloadHandler, CefBrowserKeyboardHandler, CefWebRequestHandler,
};
use crate::load_handler::{
    main_frame_runs_all, runs_in_frame, scripts_for, CefBrowserLoadHandler, Frame, LoadEnd,
    PageLoad, PageLoadEvent, ScriptRun,
};
use crate::page_url::{
    custom_protocol_scheme, custom_scheme_domain, custom_scheme_url, parsed_url, PageUrl,
};
use crate::script::{
    normal_bytes_stay, normalized_newlines, quote_hash, sha256, standard_base64, CefInitScript,
    InitializationScript,
};
use crate::webview::HandlerId;

verus! {

/// Whether a call is made of `listener`, once, with an address and an event.
pub open spec fn calls(
    call: Option<PageLoad>,
    listener: HandlerId,
    href: Seq<char>,
    event: PageLoadEvent,
) -> bool {
    call is Some && call->0.handler == listener && call->0.url@ == href && call->0.event == event
}

/// Whether a run is of a script, from the first line of the file that scripts seem to stand in
/// for pages with a scheme.
pub open spec fn runs(run: ScriptRun, script: CefInitScript, scheme: Seq<char>) -> bool {
    &&& run.code@ == script.script.script@
    &&& run.script_url@ == scheme + "://__tauri_init_script__"@
    &&& run.start_line == 0
}

/// Whether two runs are alike.
pub open spec fn same_run(left: ScriptRun, right: ScriptRun) -> bool {
    &&& left.code@ == right.code@
    &&& left.script_url@ == right.script_url@
    &&& left.start_line == right.start_line
}

/// The host of an address; the empty text where it has none.
pub open spec fn host_of(url: PageUrl) -> Seq<char> {
    match url.host {
        Some(host) => host@,
        None => ""@,
    }
}

/// Whether an address is of another protocol than the one that custom schemes are served over, or
/// of a host that is none of theirs.
pub open spec fn is_elsewhere(handler: CefBrowserLoadHandler, url: PageUrl) -> bool {
    ||| url.scheme@ != handler.custom_protocol_scheme@
    ||| forall|index: int|
        0 <= index < handler.custom_scheme_domain_names@.len() ==> (
        #[trigger] handler.custom_scheme_domain_names@[index])@ != host_of(url)
}

/// Whether an address is of the protocol that custom schemes are served over, and its host is that
/// of the scheme at `index`.
pub open spec fn is_served(handler: CefBrowserLoadHandler, url: PageUrl, index: int) -> bool {
    &&& url.scheme@ == handler.custom_protocol_scheme@
    &&& 0 <= index < handler.custom_scheme_domain_names@.len()
    &&& handler.custom_scheme_domain_names@[index]@ == host_of(url)
}

/// When the main frame has loaded a page, whoever listens is called once, with the address of the
/// page, and told that the loading has finished. The call is the same whatever the status.
pub proof fn finished_is_told_whatever_the_status(
    handler: CefBrowserLoadHandler,
    listener: HandlerId,
    url: PageUrl,
    status: i32,
    other_status: i32,
)
    requires
        handler.on_page_load_handler == Some(listener),
    ensures
        forall|end: LoadEnd| #[trigger]
            call_ensures(
                CefBrowserLoadHandler::load_end,
                (&handler, true, &Some(url), status),
                end,
            ) ==> calls(end.page_load, listener, url.href@, PageLoadEvent::Finished),
        forall|end: LoadEnd, other: LoadEnd|
            #[trigger] call_ensures(
                CefBrowserLoadHandler::load_end,
                (&handler, true, &Some(url), status),
                end,
            ) && #[trigger] call_ensures(
                CefBrowserLoadHandler::load_end,
                (&handler, true, &Some(url), other_status),
                other,
            ) ==> {
                &&& end.page_load is Some && other.page_load is Some
                &&& end.page_load->0.handler == other.page_load->0.handler
                &&& end.page_load->0.url@ == other.page_load->0.url@
                &&& end.page_load->0.event == other.page_load->0.event
            },
{
}

/// The browser tells of a main frame by a one. What it has loaded is told with the address as it
/// reads after parsing, when the loading starts and, with whatever status, when it has finished.
pub proof fn main_frames_are_told_of(
    handler: CefBrowserLoadHandler,
    listener: HandlerId,
    frame: Frame,
    url: PageUrl,
    status: i32,
)
    requires
        handler.on_page_load_handler == Some(listener),
        frame.is_main == 1,
        parsed_url(frame.url@) == Some(url@),
    ensures
        forall|call: Option<PageLoad>| #[trigger]
            call_ensures(CefBrowserLoadHandler::on_load_start, (&handler, Some(frame)), call)
                ==> calls(call, listener, url.href@, PageLoadEvent::Started),
        forall|end: Option<LoadEnd>| #[trigger]
            call_ensures(CefBrowserLoadHandler::on_load_end, (&handler, Some(frame), status), end)
                ==> end is Some && calls(
                end->0.page_load,
                listener,
                url.href@,
                PageLoadEvent::Finished,
            ),
{
}

/// Nobody is told of a frame inside a page, of an address that is none, of no frame at all, or
/// where nobody listens.
pub proof fn other_loads_are_not_told(
    handler: CefBrowserLoadHandler,
    frame: Frame,
    status: i32,
    event: PageLoadEvent,
    url: Option<PageUrl>,
    is_main: bool,
)
    ensures
        handler.on_page_load_handler is None || frame.is_main != 1 || parsed_url(frame.url@)
            is None ==> {
            &&& forall|call: Option<PageLoad>| #[trigger]
                call_ensures(CefBrowserLoadHandler::on_load_start, (&handler, Some(frame)), call)
                    ==> call is None
            &&& forall|end: Option<LoadEnd>| #[trigger]
                call_ensures(
                    CefBrowserLoadHandler::on_load_end,
                    (&handler, Some(frame), status),
                    end,
                ) ==> end is Some && end->0.page_load is None
        },
        handler.on_page_load_handler is None || !is_main || url is None ==> {
            &&& forall|call: Option<PageLoad>| #[trigger]
                call_ensures(
                    CefBrowserLoadHandler::page_load,
                    (&handler, is_main, &url, event),
                    call,
                ) ==> call is None
            &&& forall|end: LoadEnd| #[trigger]
                call_ensures(
                    CefBrowserLoadHandler::load_end,
                    (&handler, is_main, &url, status),
                    end,
                ) ==> end.page_load is None
        },
        forall|call: Option<PageLoad>| #[trigger]
            call_ensures(CefBrowserLoadHandler::on_load_start, (&handler, None::<Frame>), call)
                ==> call is None,
        forall|end: Option<LoadEnd>| #[trigger]
            call_ensures(CefBrowserLoadHandler::on_load_end, (&handler, None::<Frame>, status), end)
                ==> end is None,
{
}

/// Whoever listens is told of each event as it is.
pub proof fn events_are_told_as_they_are(
    handler: CefBrowserLoadHandler,
    listener: HandlerId,
    url: PageUrl,
    event: PageLoadEvent,
)
    requires
        handler.on_page_load_handler == Some(listener),
    ensures
        forall|call: Option<PageLoad>| #[trigger]
            call_ensures(
                CefBrowserLoadHandler::page_load,
                (&handler, true, &Some(url), event),
                call,
            ) ==> calls(call, listener, url.href@, event),
{
}

/// In the main frame of a page from elsewhere that was loaded with success, every script runs, in
/// order, with its own code.
pub proof fn main_frames_run_every_script(
    handler: CefBrowserLoadHandler,
    url: PageUrl,
    status: i32,
)
    requires
        is_elsewhere(handler, url),
        200 <= status <= 299,
    ensures
        forall|end: LoadEnd| #[trigger]
            call_ensures(
                CefBrowserLoadHandler::load_end,
                (&handler, true, &Some(url), status),
                end,
            ) ==> {
                &&& end.scripts@.len() == handler.initialization_scripts@.len()
                &&& forall|index: int|
                    0 <= index < end.scripts@.len() ==> runs(
                        #[trigger] end.scripts@[index],
                        handler.initialization_scripts@[index],
                        url.scheme@,
                    )
            },
{
    main_frame_runs_all(handler.initialization_scripts@);
}

/// No script runs where the page was not loaded with success, has no address, or is served by a
/// custom scheme.
pub proof fn other_pages_run_no_script(
    handler: CefBrowserLoadHandler,
    is_main: bool,
    url: Option<PageUrl>,
    status: i32,
    index: int,
)
    requires
        status < 200 || status >= 300 || url is None || is_served(handler, url->0, index),
    ensures
        forall|end: LoadEnd| #[trigger]
            call_ensures(CefBrowserLoadHandler::load_end, (&handler, is_main, &url, status), end)
                ==> end.scripts@.len() == 0,
{
    if url is Some && is_served(handler, url->0, index) {
        assert(handler.custom_scheme_domain_names@[index]@ == host_of(url->0));
    }
}

/// One more script runs behind the others in a frame inside a page exactly if it is not for the
/// main frame only, and changes nothing of what runs before it.
pub proof fn subframes_leave_out_main_frame_scripts(
    handler: CefBrowserLoadHandler,
    longer: CefBrowserLoadHandler,
    script: CefInitScript,
    url: PageUrl,
    status: i32,
)
    requires
        longer.initialization_scripts@ == handler.initialization_scripts@.push(script),
        longer.custom_scheme_domain_names == handler.custom_scheme_domain_names,
        longer.custom_protocol_scheme == handler.custom_protocol_scheme,
        is_elsewhere(handler, url),
        200 <= status <= 299,
    ensures
        forall|end: LoadEnd, more: LoadEnd|
            #[trigger] call_ensures(
                CefBrowserLoadHandler::load_end,
                (&handler, false, &Some(url), status),
                end,
            ) && #[trigger] call_ensures(
                CefBrowserLoadHandler::load_end,
                (&longer, false, &Some(url), status),
                more,
            ) ==> {
                let count = end.scripts@.len();
                &&& forall|index: int|
                    0 <= index < count ==> same_run(
                        end.scripts@[index],
                        #[trigger] more.scripts@[index],
                    )
                &&& if script.script.for_main_frame_only {
                    more.scripts@.len() == count
                } else {
                    more.scripts@.len() == count + 1 && runs(
                        more.scripts@[count as int],
                        script,
                        url.scheme@,
                    )
                }
            },
        handler.initialization_scripts@.len() == 0 ==> forall|end: LoadEnd| #[trigger]
            call_ensures(
                CefBrowserLoadHandler::load_end,
                (&handler, false, &Some(url), status),
                end,
            ) ==> end.scripts@.len() == 0,
{
    reveal(Seq::filter);
    let scripts = handler.initialization_scripts@;
    assert(scripts.push(script).drop_last() =~= scripts);
    assert(scripts_for(scripts.push(script), false) == if script.script.for_main_frame_only {
        scripts_for(scripts, false)
    } else {
        scripts_for(scripts, false).push(script)
    }) by {
        assert(runs_in_frame(false)(script) == !script.script.for_main_frame_only);
    }
}

/// The frame that the browser tells of and its address decide what runs as the main frame and the
/// parsed address do.
pub proof fn scripts_go_by_the_frame(
    handler: CefBrowserLoadHandler,
    frame: Frame,
    is_main: bool,
    url: PageUrl,
    status: i32,
)
    requires
        is_main <==> frame.is_main == 1,
        parsed_url(frame.url@) == Some(url@),
    ensures
        forall|end: Option<LoadEnd>, direct: LoadEnd|
            #[trigger] call_ensures(
                CefBrowserLoadHandler::on_load_end,
                (&handler, Some(frame), status),
                end,
            ) && #[trigger] call_ensures(
                CefBrowserLoadHandler::load_end,
                (&handler, is_main, &Some(url), status),
                direct,
            ) ==> {
                &&& end is Some
                &&& end->0.scripts@.len() == direct.scripts@.len()
                &&& forall|index: int|
                    0 <= index < direct.scripts@.len() ==> same_run(
                        #[trigger] end->0.scripts@[index],
                        direct.scripts@[index],
                    )
            },
{
}

/// What a browser asks for is handled by what its webview was made with: the page loads, the
/// requests, the title and the downloads each by their own.
pub proof fn clients_hand_out_their_handlers(client: CefBrowserClient)
    ensures
        forall|handler: Option<CefBrowserLoadHandler>| #[trigger]
            call_ensures(CefBrowserClient::load_handler, (&client,), handler) ==> {
                &&& handler is Some
                &&& handler->0.on_page_load_handler == client.on_page_load_handler
                &&& handler->0.initialization_scripts@ == client.initialization_scripts@
                &&& handler->0.custom_scheme_domain_names@ == client.custom_scheme_domain_names@
                &&& handler->0.custom_protocol_scheme@ == client.custom_protocol_scheme@
            },
        forall|handler: Option<CefWebRequestHandler>| #[trigger]
            call_ensures(CefBrowserClient::request_handler, (&client,), handler) ==> {
                &&& handler is Some
                &&& handler->0.navigation_handler == client.navigation_handler
                &&& handler->0.initialization_scripts@ == client.initialization_scripts@
            },
        forall|handler: Option<CefBrowserDisplayHandler>| #[trigger]
            call_ensures(CefBrowserClient::display_handler, (&client,), handler) ==> {
                &&& handler is Some <==> client.document_title_changed_handler is Some
                &&& handler is Some ==> handler->0.document_title_changed_handler
                    == client.document_title_changed_handler
            },
        forall|handler: Option<CefBrowserDownloadHandler>| #[trigger]
            call_ensures(CefBrowserClient::download_handler, (&client,), handler) ==> {
                &&& handler is Some <==> client.download_handler is Some
                &&& handler is Some ==> Some(handler->0.handler) == client.download_handler
            },
        forall|handler: Option<CefBrowserContextMenuHandler>| #[trigger]
            call_ensures(CefBrowserClient::context_menu_handler, (&client,), handler) ==> handler
                is Some && handler->0.devtools_enabled == client.devtools_enabled,
        forall|handler: Option<CefBrowserKeyboardHandler>| #[trigger]
            call_ensures(CefBrowserClient::keyboard_handler, (&client,), handler) ==> handler
                is Some && handler->0.devtools_enabled == client.devtools_enabled,
{
}

/// Whoever listens to titles is told each new title as it is; nobody is where there is no title.
pub proof fn titles_are_told_as_they_are(
    handler: CefBrowserDisplayHandler,
    listener: HandlerId,
    title: String,
    call: Option<(HandlerId, String)>,
)
    ensures
        handler.document_title_changed_handler == Some(listener) && call_ensures(
            CefBrowserDisplayHandler::on_title_change,
            (&handler, Some(title)),
            call,
        ) ==> call == Some((listener, title)),
        call_ensures(CefBrowserDisplayHandler::on_title_change, (&handler, None::<String>), call)
            ==> call is None,
        handler.document_title_changed_handler is None && call_ensures(
            CefBrowserDisplayHandler::on_title_change,
            (&handler, Some(title)),
            call,
        ) ==> call is None,
{
}

/// The item that inspects a page is the last of the menu. It is taken out exactly where the
/// developer tools are not enabled, and no other item ever is.
pub proof fn only_inspecting_is_taken_out(
    handler: CefBrowserContextMenuHandler,
    count: usize,
    removed: Option<usize>,
)
    requires
        handler.devtools_enabled || count > 0,
        call_ensures(
            CefBrowserContextMenuHandler::on_before_context_menu,
            (&handler, Some(count)),
            removed,
        ),
    ensures
        removed is None <==> handler.devtools_enabled,
        removed is Some ==> removed->0 + 1 == count,
{
}

/// Where there is no menu, nothing is taken out of it.
pub proof fn no_menu_is_left_alone(
    handler: CefBrowserContextMenuHandler,
    removed: Option<usize>,
)
    requires
        call_ensures(
            CefBrowserContextMenuHandler::on_before_context_menu,
            (&handler, None::<usize>),
            removed,
        ),
    ensures
        removed is None,
{
}

/// A script is admitted by the SHA-256 digest of its bytes, in base64. Scripts that differ in
/// their line endings alone are admitted by the same hash.
pub proof fn hashes_are_of_the_script(
    script: InitializationScript,
    other: InitializationScript,
    init: CefInitScript,
    other_init: CefInitScript,
)
    requires
        call_ensures(CefInitScript::new, (script,), init),
        call_ensures(CefInitScript::new, (other,), other_init),
    ensures
        init.script == script,
        (forall|index: int|
            0 <= index < encode_utf8(script.script@).len() ==> encode_utf8(script.script@)[index]
                != 13) ==> init.hash@ == "'sha256-"@ + standard_base64(
            sha256(encode_utf8(script.script@)),
        ) + "'"@,
        normalized_newlines(encode_utf8(script.script@)) == normalized_newlines(
            encode_utf8(other.script@),
        ) ==> init.hash@ == other_init.hash@,
{
    if forall|index: int|
        0 <= index < encode_utf8(script.script@).len() ==> encode_utf8(script.script@)[index]
            != 13 {
        normal_bytes_stay(encode_utf8(script.script@));
    }
}

/// A digest is quoted as the hash source of the SHA-256 algorithm.
pub proof fn hashes_are_quoted(encoded: &str, source: String)
    requires
        call_ensures(quote_hash, (encoded,), source),
    ensures
        source@ == "'sha256-"@ + encoded@ + "'"@,
{
}

/// Custom schemes are served over HTTP, or over HTTPS where that is asked for, from a domain of
/// their own under `localhost`; their address is made of the two.
pub proof fn schemes_are_served_from_localhost(
    scheme: &str,
    https: bool,
    protocol: String,
    domain: String,
    url: String,
)
    requires
        call_ensures(custom_protocol_scheme, (https,), protocol),
        call_ensures(custom_scheme_domain, (scheme,), domain),
        call_ensures(custom_scheme_url, (scheme, https), url),
    ensures
        https ==> protocol@ == "https"@,
        !https ==> protocol@ == "http"@,
        domain@ == scheme@ + ".localhost"@,
        url@ == protocol@ + "://"@ + domain@,
{
}

} // verus!
