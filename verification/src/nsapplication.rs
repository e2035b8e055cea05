//! What the application delegate of macOS tells the application.
use vstd::prelude::*;

use crate::page_url::{parse_url, parsed_url, url_view, PageUrl};

verus! {

/// What the system is answered when it asks whether the application may end.
#[derive(Debug, Clone, Copy, PartialEq, Eq, Structural)]
pub enum TerminateReply {
    TerminateCancel,
    TerminateNow,
    TerminateLater,
}

/// An event of the application delegate.
#[derive(Debug)]
pub enum AppDelegateEvent {
    /// The system asks whether the application may end.
    ShouldTerminate,
    /// The system asks the application to open addresses.
    OpenURLs { urls: Vec<PageUrl> },
}

/// What the runtime answers to an event of the delegate: the application does not end by
/// itself, and addresses are not answered.
pub fn delegate_reply(event: &AppDelegateEvent) -> (reply: Option<TerminateReply>)
    ensures
        reply == (match event {
            AppDelegateEvent::ShouldTerminate => Some(TerminateReply::TerminateCancel),
            AppDelegateEvent::OpenURLs { .. } => None,
        }),
{
    match event {
        AppDelegateEvent::ShouldTerminate => Some(TerminateReply::TerminateCancel),
        AppDelegateEvent::OpenURLs { .. } => None,
    }
}

/// What the system is told when it asked whether the application may end: the answer that was
/// given to the event, and without one that it ends now.
pub fn application_should_terminate(answer: Option<TerminateReply>) -> (reply: TerminateReply)
    ensures
        reply == (match answer {
            Some(answer) => answer,
            None => TerminateReply::TerminateNow,
        }),
{
    answer.unwrap_or(TerminateReply::TerminateNow)
}

/// The text of an address, its scheme and its host, for a text that is there and is an address.
pub open spec fn parsed_text(text: Option<String>) -> Option<
    (Seq<char>, Seq<char>, Option<Seq<char>>),
> {
    match text {
        Some(text) => parsed_url(text@),
        None => None,
    }
}

/// Those that are there, in order.
pub open spec fn present<A>(items: Seq<Option<A>>) -> Seq<A>
    decreases items.len(),
{
    if items.len() == 0 {
        Seq::empty()
    } else {
        match items.last() {
            Some(item) => present(items.drop_last()).push(item),
            None => present(items.drop_last()),
        }
    }
}

/// Keeps the addresses that were parsed, in order.
pub fn keep_parsed(parsed: &Vec<Option<PageUrl>>) -> (urls: Vec<PageUrl>)
    ensures
        urls@ == present(parsed@),
{
    let mut urls: Vec<PageUrl> = Vec::new();
    let mut index: usize = 0;
    assert(parsed@.take(0) =~= Seq::empty());
    while index < parsed.len()
        invariant
            index <= parsed.len(),
            urls@ == present(parsed@.take(index as int)),
        decreases parsed.len() - index,
    {
        proof {
            let next = parsed@.take(index + 1);
            assert(next.drop_last() =~= parsed@.take(index as int));
            assert(next.last() == parsed@[index as int]);
        }
        if let Some(url) = &parsed[index] {
            urls.push(url.duplicate());
        }
        index = index + 1;
    }
    assert(parsed@.take(index as int) =~= parsed@);
    urls
}

/// Whether the addresses are those that the texts are parsed to, in order.
pub open spec fn are_addresses_of(urls: Seq<PageUrl>, texts: Seq<Option<String>>) -> bool {
    exists|parsed: Seq<Option<PageUrl>>| #[trigger]
        parses(parsed, texts) && urls == present(parsed)
}

/// Whether each text was parsed, or is none where it is missing or no address.
pub open spec fn parses(parsed: Seq<Option<PageUrl>>, texts: Seq<Option<String>>) -> bool {
    &&& parsed.len() == texts.len()
    &&& forall|index: int|
        0 <= index < parsed.len() ==> url_view(#[trigger] parsed[index]) == parsed_text(
            texts[index],
        )
}

/// The event for the addresses that the system asks to open: those texts that are addresses,
/// in order. A text may be missing.
pub fn application_open_urls(texts: &Vec<Option<String>>) -> (event: AppDelegateEvent)
    ensures
        event matches AppDelegateEvent::OpenURLs { urls } && are_addresses_of(urls@, texts@),
{
    let mut parsed: Vec<Option<PageUrl>> = Vec::new();
    let mut index: usize = 0;
    while index < texts.len()
        invariant
            index <= texts.len(),
            parsed@.len() == index,
            forall|before: int|
                0 <= before < index ==> url_view(#[trigger] parsed@[before]) == parsed_text(
                    texts@[before],
                ),
        decreases texts.len() - index,
    {
        let url = match &texts[index] {
            Some(text) => parse_url(text.as_str()),
            None => None,
        };
        parsed.push(url);
        index = index + 1;
    }
    assert(parses(parsed@, texts@));
    AppDelegateEvent::OpenURLs { urls: keep_parsed(&parsed) }
}

} // verus!
