//! HTTP requests and replies as plain values. The worker's cores say which
//! request to send and what a reply means; sending is left to the caller.

use vstd::prelude::*;

verus! {

/// The two methods that the worker uses.
#[derive(Debug, Clone, Copy, PartialEq, Eq, Structural)]
pub enum HttpMethod {
    Get,
    Post,
}

/// A request to send.
#[derive(Debug, PartialEq, Eq)]
pub struct HttpRequest {
    pub method: HttpMethod,
    pub url: String,
    /// The `Content-Type` header, where the request has a body of a type.
    pub content_type: Option<String>,
    pub body: Option<String>,
}

/// The mathematical value of an [`HttpRequest`].
pub struct HttpRequestView {
    pub method: HttpMethod,
    pub url: Seq<char>,
    pub content_type: Option<Seq<char>>,
    pub body: Option<Seq<char>>,
}

/// The text of an optional string.
pub open spec fn optional_text(text: Option<String>) -> Option<Seq<char>> {
    match text {
        Some(t) => Some(t@),
        None => None,
    }
}

impl View for HttpRequest {
    type V = HttpRequestView;

    open spec fn view(&self) -> HttpRequestView {
        HttpRequestView {
            method: self.method,
            url: self.url@,
            content_type: optional_text(self.content_type),
            body: optional_text(self.body),
        }
    }
}

/// What came back for a request.
#[derive(Debug, PartialEq, Eq)]
pub enum HttpReply {
    /// The request could not be sent, or no response arrived.
    SendFailed(String),
    /// A response arrived. Its body is `Err` where it could not be read.
    Response { status: u16, body: Result<String, String> },
}

/// Whether `status` is one of the success codes, 200 to 299.
pub open spec fn is_success_spec(status: u16) -> bool {
    200 <= status <= 299
}

/// Whether `status` is one of the success codes, 200 to 299.
pub fn is_success(status: u16) -> (success: bool)
    ensures
        success == is_success_spec(status),
{
    200 <= status && status <= 299
}

} // verus!
