use tauri_runtime_cef::nsapplication::{
    application_open_urls, application_should_terminate, delegate_reply, keep_parsed,
    AppDelegateEvent, TerminateReply,
};
use tauri_runtime_cef::page_url::{
    custom_protocol_scheme, custom_scheme_domain, custom_scheme_url, PageUrl,
};

fn page(href: &str, scheme: &str, host: Option<&str>) -> PageUrl {
    PageUrl {
        href: href.to_string(),
        scheme: scheme.to_string(),
        host: host.map(|host| host.to_string()),
    }
}

#[test]
fn custom_schemes_have_a_local_domain() {
    assert_eq!(custom_protocol_scheme(true), "https");
    assert_eq!(custom_protocol_scheme(false), "http");
    assert_eq!(custom_scheme_domain("asset"), "asset.localhost");
    assert_eq!(custom_scheme_url("tauri", true), "https://tauri.localhost");
    assert_eq!(custom_scheme_url("tauri", false), "http://tauri.localhost");
}

#[test]
fn opened_addresses_are_those_that_parse() {
    let event = application_open_urls(&vec![
        Some("HTTP://Example.com".to_string()),
        None,
        Some("not an address".to_string()),
        Some("mailto:someone@example.com".to_string()),
    ]);
    match event {
        AppDelegateEvent::OpenURLs { urls } => assert_eq!(
            urls,
            vec![
                page("http://example.com/", "http", Some("example.com")),
                page("mailto:someone@example.com", "mailto", None),
            ]
        ),
        AppDelegateEvent::ShouldTerminate => panic!("the event is for addresses"),
    }
}

#[test]
fn missing_addresses_are_left_out() {
    let kept = keep_parsed(&vec![None, Some(page("a:b", "a", None)), None]);
    assert_eq!(kept, vec![page("a:b", "a", None)]);
}

#[test]
fn delegate_cancels_the_end() {
    assert_eq!(
        delegate_reply(&AppDelegateEvent::ShouldTerminate),
        Some(TerminateReply::TerminateCancel)
    );
    assert_eq!(delegate_reply(&AppDelegateEvent::OpenURLs { urls: vec![] }), None);
    assert_eq!(application_should_terminate(None), TerminateReply::TerminateNow);
    assert_eq!(
        application_should_terminate(Some(TerminateReply::TerminateCancel)),
        TerminateReply::TerminateCancel
    );
}
