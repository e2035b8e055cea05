//! The addresses of pages, and the addresses of custom schemes.
use vstd::prelude::*;

verus! {

/// An address that was parsed.
#[derive(Debug, PartialEq, Eq)]
pub struct PageUrl {
    /// The address as it is written after parsing.
    pub href: String,
    pub scheme: String,
    pub host: Option<String>,
}

/// The text of an address after parsing, its scheme, and its host, for a text that is an
/// address.
pub uninterp spec fn parsed_url(text: Seq<char>) -> Option<
    (Seq<char>, Seq<char>, Option<Seq<char>>),
>;

/// The text of an optional string.
pub open spec fn text_of(text: Option<String>) -> Option<Seq<char>> {
    match text {
        Some(text) => Some(text@),
        None => None,
    }
}

impl View for PageUrl {
    type V = (Seq<char>, Seq<char>, Option<Seq<char>>);

    open spec fn view(&self) -> (Seq<char>, Seq<char>, Option<Seq<char>>) {
        (self.href@, self.scheme@, text_of(self.host))
    }
}

impl PageUrl {
    /// A copy of the address.
    pub fn duplicate(&self) -> (copy: Self)
        ensures
            copy == *self,
    {
        let host = match &self.host {
            Some(host) => Some(host.clone()),
            None => None,
        };
        PageUrl { href: self.href.clone(), scheme: self.scheme.clone(), host }
    }
}

/// What was parsed, as texts.
pub open spec fn url_view(url: Option<PageUrl>) -> Option<
    (Seq<char>, Seq<char>, Option<Seq<char>>),
> {
    match url {
        Some(url) => Some(url@),
        None => None,
    }
}

/// `url::Url::parse`, read by `as_str`, `scheme` and `host_str`: what they give depends on the
/// text alone. It is named, not stated.
#[verifier::external_body]
pub(crate) fn parse_url(text: &str) -> (url: Option<PageUrl>)
    ensures
        url_view(url) == parsed_url(text@),
{
    match url::Url::parse(text) {
        Ok(url) => Some(
            PageUrl {
                href: url.as_str().to_owned(),
                scheme: url.scheme().to_owned(),
                host: url.host_str().map(str::to_owned),
            },
        ),
        Err(_) => None,
    }
}

/// The protocol that custom schemes are served over.
pub open spec fn protocol_text(https: bool) -> Seq<char> {
    if https {
        "https"@
    } else {
        "http"@
    }
}

/// The domain that stands for a custom scheme.
pub open spec fn domain_text(scheme: Seq<char>) -> Seq<char> {
    scheme + ".localhost"@
}

/// The protocol that custom schemes are served over.
pub fn custom_protocol_scheme(https: bool) -> (protocol: String)
    ensures
        protocol@ == protocol_text(https),
{
    if https {
        "https".to_owned()
    } else {
        "http".to_owned()
    }
}

/// The domain that stands for a custom scheme.
pub fn custom_scheme_domain(scheme: &str) -> (domain: String)
    ensures
        domain@ == domain_text(scheme@),
{
    let mut domain = scheme.to_owned();
    domain.append(".localhost");
    domain
}

/// The address that a custom scheme is reached by, on every system.
pub fn custom_scheme_url(scheme: &str, https: bool) -> (url: String)
    ensures
        url@ == protocol_text(https) + "://"@ + domain_text(scheme@),
{
    let mut url = custom_protocol_scheme(https);
    url.append("://");
    url.append(custom_scheme_domain(scheme).as_str());
    url
}

/// Different schemes have different domains.
pub proof fn domains_are_distinct(left: Seq<char>, right: Seq<char>)
    requires
        domain_text(left) == domain_text(right),
    ensures
        left == right,
{
    let suffix = ".localhost"@;
    assert(domain_text(left).len() == left.len() + suffix.len());
    assert(domain_text(right).len() == right.len() + suffix.len());
    assert forall|index: int| 0 <= index < left.len() implies left[index] == right[index] by {
        assert(domain_text(left)[index] == left[index]);
        assert(domain_text(right)[index] == right[index]);
    }
    assert(left =~= right);
}

} // verus!
