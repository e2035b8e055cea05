//! What a process starts with, and what the system asks of it, seen from outside.
use vstd::prelude::*;

use crate::nsapplication::{
    application_open_urls, application_should_terminate, delegate_reply, keep_parsed, parses,
    present, AppDelegateEvent, TerminateReply,
};
use crate::page_url::{parsed_url, url_view, PageUrl};
use crate::process::{
    cache_base, cache_directory_names, command_line_args, engine_started, is_cef_helper_process,
    is_suffix, on_before_command_line_processing, process_role, settings, CommandLineChange,
    ProcessRole, RuntimeInitAttribute, Settings,
};

verus! {

/// The arguments of one more attribute stand behind those of the others, in their order.
pub proof fn arguments_keep_their_order(
    attributes: Vec<RuntimeInitAttribute>,
    longer: Vec<RuntimeInitAttribute>,
    args: Vec<(String, Option<String>)>,
)
    requires
        longer@ == attributes@.push(RuntimeInitAttribute::CommandLineArgs { args }),
    ensures
        forall|all: Vec<(String, Option<String>)>, more: Vec<(String, Option<String>)>|
            #[trigger] call_ensures(command_line_args, (&attributes,), all)
                && #[trigger] call_ensures(command_line_args, (&longer,), more) ==> more@ == all@
                + args@,
        attributes@.len() == 0 ==> forall|all: Vec<(String, Option<String>)>|
            #[trigger] call_ensures(command_line_args, (&attributes,), all) ==> all@.len() == 0,
{
    assert(longer@.drop_last() =~= attributes@);
}

/// Every argument is put on the command line once, in its place: one with a value as a switch with
/// that value, one that starts with a dash as a switch, and any other as it is.
pub proof fn arguments_reach_the_command_line(
    args: Vec<(String, Option<String>)>,
    changes: Vec<CommandLineChange>,
    index: int,
)
    requires
        call_ensures(on_before_command_line_processing, (&args,), changes),
        0 <= index < args@.len(),
    ensures
        changes@.len() == args@.len(),
        ({
            let name = args@[index].0;
            let value = args@[index].1;
            let change = changes@[index];
            &&& value is Some ==> change == CommandLineChange::AppendSwitchWithValue(name, value->0)
            &&& value is None && name@.len() > 0 && name@.first() == '-' ==> change
                == CommandLineChange::AppendSwitch(name)
            &&& value is None && (name@.len() == 0 || name@.first() != '-') ==> change
                == CommandLineChange::AppendArgument(name)
        }),
{
}

/// Without arguments nothing is put on the command line.
pub proof fn no_arguments_change_nothing(
    args: Vec<(String, Option<String>)>,
    changes: Vec<CommandLineChange>,
)
    requires
        call_ensures(on_before_command_line_processing, (&args,), changes),
        args@.len() == 0,
    ensures
        changes@.len() == 0,
{
}

/// A process whose command line names a type is a helper, and any other is the application.
pub proof fn roles_go_by_the_type(has_type_switch: i32, exit_code: i32, role: ProcessRole)
    requires
        call_ensures(process_role, (has_type_switch, exit_code), role),
    ensures
        role == ProcessRole::Helper <==> has_type_switch == 1,
{
}

/// Data are kept in the user's cache directory, and among the temporary files only where there is
/// none, under the identifier of the application.
pub proof fn data_are_kept_by_application<P>(
    user_cache: P,
    temporary: P,
    base: P,
    identifier: String,
    names: Vec<String>,
)
    ensures
        call_ensures(cache_base::<P>, (Some(user_cache), temporary), base) ==> base == user_cache,
        call_ensures(cache_base::<P>, (None::<P>, temporary), base) ==> base == temporary,
        call_ensures(cache_directory_names, (identifier,), names) ==> {
            &&& names@.len() == 2
            &&& names@.first() == identifier
            &&& names@.last()@ == "cef"@
        },
{
}

/// The browser engine starts with the cache path that it is given and without a message loop of its
/// own, in a sandbox exactly if the application was built with one. It started if it says one.
pub proof fn engines_start_as_built(
    sandbox: bool,
    cache_path: String,
    made: Settings,
    initialized: i32,
    started: bool,
)
    ensures
        call_ensures(settings, (sandbox, cache_path), made) ==> {
            &&& made.no_sandbox == 0 <==> sandbox
            &&& made.no_sandbox == 1 <==> !sandbox
            &&& made.cache_path == cache_path
            &&& made.external_message_pump == 1
        },
        call_ensures(engine_started, (initialized,), started) ==> (started <==> initialized == 1),
{
}

/// Whether a name is made of a beginning and an end.
pub open spec fn is_named(name: Seq<char>, end: Seq<char>) -> bool {
    exists|beginning: Seq<char>| name == #[trigger] (beginning + end)
}

/// A name ends with another exactly if it is made of a beginning and the other.
proof fn suffixes_are_ends(name: Seq<char>, end: Seq<char>)
    ensures
        is_suffix(name, end) <==> is_named(name, end),
{
    if is_suffix(name, end) {
        let beginning = name.take(name.len() - end.len());
        assert(name =~= beginning + end);
    }
    if is_named(name, end) {
        let beginning = choose|beginning: Seq<char>| name == #[trigger] (beginning + end);
        assert(name.subrange(name.len() - end.len(), name.len() as int) =~= end);
    }
}

/// The helpers of the browser engine are those whose name ends as one of the five does, whatever it
/// begins with. An executable without a name is none.
pub proof fn helpers_are_known_by_their_name(name: &str, helper: bool)
    ensures
        call_ensures(is_cef_helper_process, (Some(name),), helper) ==> (helper <==> {
            ||| is_named(name@, " Helper"@)
            ||| is_named(name@, " Helper (GPU)"@)
            ||| is_named(name@, " Helper (Renderer)"@)
            ||| is_named(name@, " Helper (Plugin)"@)
            ||| is_named(name@, " Helper (Alerts)"@)
        }),
        call_ensures(is_cef_helper_process, (None::<&str>,), helper) ==> !helper,
{
    suffixes_are_ends(name@, " Helper"@);
    suffixes_are_ends(name@, " Helper (GPU)"@);
    suffixes_are_ends(name@, " Helper (Renderer)"@);
    suffixes_are_ends(name@, " Helper (Plugin)"@);
    suffixes_are_ends(name@, " Helper (Alerts)"@);
}

/// The application does not end because the system asks: the answer of the runtime is to cancel,
/// and the system is told any answer as it is. Only without an answer the application ends.
pub proof fn the_system_does_not_end_the_application(answer: TerminateReply, urls: Vec<PageUrl>)
    ensures
        forall|reply: Option<TerminateReply>| #[trigger]
            call_ensures(delegate_reply, (&AppDelegateEvent::ShouldTerminate,), reply) ==> reply
                == Some(TerminateReply::TerminateCancel),
        forall|reply: Option<TerminateReply>| #[trigger]
            call_ensures(delegate_reply, (&AppDelegateEvent::OpenURLs { urls },), reply) ==> reply
                is None,
        forall|reply: TerminateReply| #[trigger]
            call_ensures(application_should_terminate, (Some(answer),), reply) ==> reply == answer,
        forall|reply: TerminateReply| #[trigger]
            call_ensures(application_should_terminate, (None::<TerminateReply>,), reply) ==> reply
                == TerminateReply::TerminateNow,
{
}

/// One more address is kept behind the others, and one that was not parsed is left out.
pub proof fn addresses_are_kept_one_by_one(
    parsed: Vec<Option<PageUrl>>,
    longer: Vec<Option<PageUrl>>,
    url: Option<PageUrl>,
)
    requires
        longer@ == parsed@.push(url),
    ensures
        forall|urls: Vec<PageUrl>, more: Vec<PageUrl>|
            #[trigger] call_ensures(keep_parsed, (&parsed,), urls) && #[trigger] call_ensures(
                keep_parsed,
                (&longer,),
                more,
            ) ==> {
                &&& url is None ==> more@ == urls@
                &&& url is Some ==> more@ == urls@.push(url->0)
            },
        parsed@.len() == 0 ==> forall|urls: Vec<PageUrl>| #[trigger]
            call_ensures(keep_parsed, (&parsed,), urls) ==> urls@.len() == 0,
{
    assert(longer@.drop_last() =~= parsed@);
}

/// Whether two addresses read the same.
pub open spec fn same_addresses(left: Seq<PageUrl>, right: Seq<PageUrl>) -> bool {
    &&& left.len() == right.len()
    &&& forall|index: int|
        0 <= index < left.len() ==> (#[trigger] left[index])@ == (#[trigger] right[index])@
}

/// What reads the same when it was parsed reads the same when it is kept.
proof fn present_reads_the_same(left: Seq<Option<PageUrl>>, right: Seq<Option<PageUrl>>)
    requires
        left.len() == right.len(),
        forall|index: int|
            0 <= index < left.len() ==> url_view(#[trigger] left[index]) == url_view(
                #[trigger] right[index],
            ),
    ensures
        same_addresses(present(left), present(right)),
    decreases left.len(),
{
    if left.len() > 0 {
        let rest = left.drop_last();
        let other = right.drop_last();
        assert forall|index: int| 0 <= index < rest.len() implies url_view(#[trigger] rest[index])
            == url_view(#[trigger] other[index]) by {
            assert(url_view(left[index]) == url_view(right[index]));
        }
        present_reads_the_same(rest, other);
        assert(url_view(left[left.len() - 1]) == url_view(right[left.len() - 1]));
    }
}

/// The addresses that the system asks to open are opened in order: one more text is one more
/// address, behind the others, exactly if it is there and is one.
pub proof fn addresses_are_opened_one_by_one(
    texts: Vec<Option<String>>,
    longer: Vec<Option<String>>,
    text: Option<String>,
)
    requires
        longer@ == texts@.push(text),
    ensures
        forall|event: AppDelegateEvent, more: AppDelegateEvent|
            #[trigger] call_ensures(application_open_urls, (&texts,), event)
                && #[trigger] call_ensures(application_open_urls, (&longer,), more) ==> {
                let opened = event->urls@;
                let added = more->urls@;
                &&& event is OpenURLs && more is OpenURLs
                &&& text is None || parsed_url(text->0@) is None ==> same_addresses(opened, added)
                &&& text is Some && parsed_url(text->0@) is Some ==> {
                    &&& added.len() == opened.len() + 1
                    &&& same_addresses(opened, added.drop_last())
                    &&& Some(added.last()@) == parsed_url(text->0@)
                }
            },
        texts@.len() == 0 ==> forall|event: AppDelegateEvent| #[trigger]
            call_ensures(application_open_urls, (&texts,), event) ==> event is OpenURLs
                && event->urls@.len() == 0,
{
    assert forall|event: AppDelegateEvent, more: AppDelegateEvent|
        #[trigger] call_ensures(application_open_urls, (&texts,), event)
            && #[trigger] call_ensures(application_open_urls, (&longer,), more) implies {
        let opened = event->urls@;
        let added = more->urls@;
        &&& event is OpenURLs && more is OpenURLs
        &&& text is None || parsed_url(text->0@) is None ==> same_addresses(opened, added)
        &&& text is Some && parsed_url(text->0@) is Some ==> {
            &&& added.len() == opened.len() + 1
            &&& same_addresses(opened, added.drop_last())
            &&& Some(added.last()@) == parsed_url(text->0@)
        }
    } by {
        let opened = event->urls@;
        let added = more->urls@;
        let fewer = choose|parsed: Seq<Option<PageUrl>>| #[trigger]
            parses(parsed, texts@) && opened == present(parsed);
        let all = choose|parsed: Seq<Option<PageUrl>>| #[trigger]
            parses(parsed, longer@) && added == present(parsed);
        let rest = all.drop_last();
        assert forall|index: int| 0 <= index < fewer.len() implies url_view(
            #[trigger] fewer[index],
        ) == url_view(#[trigger] rest[index]) by {
            assert(rest[index] == all[index]);
            assert(longer@[index] == texts@[index]);
        }
        present_reads_the_same(fewer, rest);
        assert(all.last() == all[texts@.len() as int]);
        if all.last() is Some {
            assert(added.drop_last() =~= present(rest));
        }
    }
}

} // verus!
