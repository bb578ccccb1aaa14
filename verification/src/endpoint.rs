//! The endpoint's URL, as the HTTP transport's own `Url` and as what the
//! rules here read of it: its serialization, and whether it has a host.

use alloy::transports::http::reqwest::Url;
use vstd::prelude::*;

verus! {

/// The URL type of the HTTP transport. Nothing inside a value of it is
/// visible to the verifier: it is carried, never read.
#[verifier::external_type_specification]
#[verifier::external_body]
pub struct ExUrl(Url);

/// What `Url::parse` makes of `input`: the serialization of the URL that it
/// read, or `None` where it refuses `input`.
pub uninterp spec fn parsed_url(input: Seq<char>) -> Option<Seq<char>>;

/// What `Url::has_host` says of the URL that `Url::parse` read from `input`.
/// It stands for nothing where the parser refuses `input`.
pub uninterp spec fn parsed_has_host(input: Seq<char>) -> bool;

/// A URL that the parser accepted, together with its serialization and
/// with whether it has a host.
#[derive(Debug, PartialEq, Eq)]
pub struct RpcUrl {
    url: Url,
    text: String,
    has_host: bool,
}

impl View for RpcUrl {
    type V = Seq<char>;

    /// The URL's serialization.
    closed spec fn view(&self) -> Seq<char> {
        self.text@
    }
}

/// The serialization of the URL in `parsed`, if there is one.
pub open spec fn parsed_text(parsed: Option<RpcUrl>) -> Option<Seq<char>> {
    match parsed {
        Some(url) => Some(url@),
        None => None,
    }
}

/// Trusted: calls `Url::parse` on `input`, and `Url::as_str` and
/// `Url::has_host` on the URL that comes back. The contract claims that
/// whether the parser accepts `input`, the serialization of what it read and
/// whether that has a host depend on `input` alone; the text and the flag
/// kept beside the URL are those two.
#[verifier::external_body]
pub(crate) fn parse_url(input: &str) -> (r: Option<RpcUrl>)
    ensures
        parsed_text(r) == parsed_url(input@),
        r matches Some(url) ==> url.host_known() == parsed_has_host(input@),
{
    match Url::parse(input) {
        Ok(url) => Some(RpcUrl { text: String::from(url.as_str()), has_host: url.has_host(), url }),
        Err(_) => None,
    }
}

impl RpcUrl {
    /// The URL that is carried.
    pub closed spec fn carried(self) -> Url {
        self.url
    }

    /// Whether the URL has a host.
    pub closed spec fn host_known(self) -> bool {
        self.has_host
    }

    /// The URL's serialization.
    pub fn as_str(&self) -> (r: &str)
        ensures
            r@ == self@,
    {
        self.text.as_str()
    }

    /// Whether the URL has a host.
    pub fn has_host(&self) -> (r: bool)
        ensures
            r == self.host_known(),
    {
        self.has_host
    }

    /// Hands the URL over to the transport.
    pub fn into_url(self) -> (r: Url)
        ensures
            r == self.carried(),
    {
        self.url
    }
}

} // verus!
