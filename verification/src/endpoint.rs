//! The part of a URL that network policy goes by: scheme, host and port.
//!
//! Parsing and joining URLs is left to the `url` crate; this module gives
//! both a contract and holds what they return as plain values.

use vstd::prelude::*;

verus! {

/// A parsed absolute URL: its normalised text and the three parts that
/// decide which server it names. The port is `None` where the URL has
/// none or has the default port of its scheme.
#[derive(Debug, PartialEq, Eq)]
pub struct Endpoint {
    pub text: String,
    pub scheme: String,
    pub host: Option<String>,
    pub port: Option<u16>,
}

/// The mathematical value of an [`Endpoint`].
pub struct EndpointView {
    pub text: Seq<char>,
    pub scheme: Seq<char>,
    pub host: Option<Seq<char>>,
    pub port: Option<u16>,
}

impl View for Endpoint {
    type V = EndpointView;

    open spec fn view(&self) -> EndpointView {
        EndpointView {
            text: self.text@,
            scheme: self.scheme@,
            host: match self.host {
                Some(h) => Some(h@),
                None => None,
            },
            port: self.port,
        }
    }
}

impl Clone for Endpoint {
    fn clone(&self) -> (copy: Endpoint)
        ensures
            copy@ == self@,
    {
        Endpoint {
            text: self.text.clone(),
            scheme: self.scheme.clone(),
            host: match &self.host {
                Some(h) => Some(h.clone()),
                None => None,
            },
            port: self.port,
        }
    }
}

/// What `url::Url::parse` makes of `text`: the URL's serialisation, scheme,
/// host and port, or the text of the parse error.
pub uninterp spec fn url_parse(text: Seq<char>) -> Result<EndpointView, Seq<char>>;

/// What `url::Url::join` makes of `reference` against the URL that `base`
/// parses to, or the text of the parse error of either.
pub uninterp spec fn url_join(base: Seq<char>, reference: Seq<char>) -> Result<
    EndpointView,
    Seq<char>,
>;

/// Whether a result is the given named outcome.
pub open spec fn is_outcome(
    result: Result<Endpoint, String>,
    named: Result<EndpointView, Seq<char>>,
) -> bool {
    match result {
        Ok(endpoint) => named == Ok::<EndpointView, Seq<char>>(endpoint@),
        Err(reason) => named == Err::<EndpointView, Seq<char>>(reason@),
    }
}

/// Calls `url::Url::parse` and hands out the parts of the URL it returns,
/// or the error's text. The result is a function of `text` alone.
#[verifier::external_body]
fn parse_url(text: &str) -> (result: Result<Endpoint, String>)
    ensures
        is_outcome(result, url_parse(text@)),
{
    match url::Url::parse(text) {
        Ok(url) => Ok(
            Endpoint {
                text: url.as_str().to_string(),
                scheme: url.scheme().to_string(),
                host: url.host_str().map(|h| h.to_string()),
                port: url.port(),
            },
        ),
        Err(e) => Err(e.to_string()),
    }
}

/// Parses `base`, calls `url::Url::join` on it with `reference`, and hands
/// out the parts of the URL it returns, or the error's text. The result
/// is a function of the two texts alone.
#[verifier::external_body]
fn join_url(base: &str, reference: &str) -> (result: Result<Endpoint, String>)
    ensures
        is_outcome(result, url_join(base@, reference@)),
{
    match url::Url::parse(base).and_then(|b| b.join(reference)) {
        Ok(url) => Ok(
            Endpoint {
                text: url.as_str().to_string(),
                scheme: url.scheme().to_string(),
                host: url.host_str().map(|h| h.to_string()),
                port: url.port(),
            },
        ),
        Err(e) => Err(e.to_string()),
    }
}

/// Whether two optional strings hold the same text, or both nothing.
pub fn same_text(a: &Option<String>, b: &Option<String>) -> (same: bool)
    ensures
        same == (crate::http::optional_text(*a) == crate::http::optional_text(*b)),
{
    match (a, b) {
        (Some(x), Some(y)) => *x == *y,
        (None, None) => true,
        _ => false,
    }
}

impl EndpointView {
    /// Whether two URLs name the same server: the same scheme, host and
    /// port.
    pub open spec fn same_origin(self, other: EndpointView) -> bool {
        self.scheme == other.scheme && self.host == other.host && self.port == other.port
    }
}

impl Endpoint {
    /// Parses an absolute URL.
    pub fn parse(text: &str) -> (result: Result<Endpoint, String>)
        ensures
            is_outcome(result, url_parse(text@)),
    {
        parse_url(text)
    }

    /// Resolves `reference` against this URL.
    pub fn join(&self, reference: &str) -> (result: Result<Endpoint, String>)
        ensures
            is_outcome(result, url_join(self@.text, reference@)),
    {
        join_url(self.text.as_str(), reference)
    }

    /// Whether this URL and `other` name the same server.
    pub fn same_origin(&self, other: &Endpoint) -> (same: bool)
        ensures
            same == self@.same_origin(other@),
    {
        let ports = match (self.port, other.port) {
            (Some(p), Some(q)) => p == q,
            (None, None) => true,
            _ => false,
        };
        self.scheme == other.scheme && same_text(&self.host, &other.host) && ports
    }
}

} // verus!
