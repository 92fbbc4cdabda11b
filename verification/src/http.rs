//! The requests that the engine asks for and the replies that it reads, as
//! plain values. Sending a request and receiving its reply is the caller's
//! part.

use vstd::prelude::*;

verus! {

/// The text of a status code as `http::StatusCode` displays it: the number
/// and the reason phrase that belongs to it.
pub uninterp spec fn spec_status_text(code: u16) -> Seq<char>;

/// Calls `reqwest::StatusCode::from_u16` and renders the status with its
/// `Display` impl, which writes the number, a space and the canonical
/// reason phrase. Both read the number alone, so the contract gives the
/// text its name. `from_u16` accepts every number from 100 to 999.
#[verifier::external_body]
fn status_text(code: u16) -> (text: String)
    requires
        100 <= code <= 999,
    ensures
        text@ == spec_status_text(code),
{
    reqwest::StatusCode::from_u16(code).map(|status| status.to_string()).unwrap_or_default()
}

/// The status code of a reply: a number from 100 to 999.
#[derive(Clone, Copy, Debug)]
pub struct HttpStatus {
    code: u16,
}

impl HttpStatus {
    #[verifier::type_invariant]
    spec fn in_range(self) -> bool {
        100 <= self.code <= 999
    }

    /// The number of this status.
    pub closed spec fn spec_code(&self) -> u16 {
        self.code
    }

    /// Accepts a number from 100 to 999 as a status, and no other.
    pub fn new(code: u16) -> (status: Option<HttpStatus>)
        ensures
            match status {
                Some(s) => 100 <= code <= 999 && s.spec_code() == code,
                None => !(100 <= code <= 999),
            },
    {
        if 100 <= code && code <= 999 {
            Some(HttpStatus { code })
        } else {
            None
        }
    }

    /// Returns the number of this status.
    pub fn code(&self) -> (code: u16)
        ensures
            code == self.spec_code(),
            100 <= code <= 999,
    {
        proof {
            use_type_invariant(self);
        }
        self.code
    }

    /// Tells whether the status reports success: 200 to 299.
    pub fn is_success(&self) -> (success: bool)
        ensures
            success == spec_is_success(self.spec_code()),
    {
        200 <= self.code && self.code < 300
    }

    /// Tells whether the status says that the object is not there: 404.
    pub fn is_not_found(&self) -> (missing: bool)
        ensures
            missing == (self.spec_code() == NOT_FOUND),
    {
        self.code == NOT_FOUND
    }

    /// Renders the status as it appears in messages.
    pub fn describe(&self) -> (text: String)
        ensures
            text@ == spec_status_text(self.spec_code()),
    {
        proof {
            use_type_invariant(self);
        }
        status_text(self.code)
    }
}

/// The status that says that the object is not there.
pub const NOT_FOUND: u16 = 404;

/// Whether a status number reports success.
pub open spec fn spec_is_success(code: u16) -> bool {
    200 <= code < 300
}

/// The method of a request.
#[derive(Clone, Copy, Debug, PartialEq, Eq, Structural)]
pub enum Method {
    /// Ask for the properties of an object.
    Propfind,
    /// Create a collection.
    Mkcol,
    /// Ask for the headers of an object.
    Head,
    /// Fetch an object.
    Get,
    /// Store an object.
    Put,
}

impl Method {
    /// The method's name on the wire.
    pub open spec fn spec_name(&self) -> Seq<char> {
        match self {
            Method::Propfind => "PROPFIND"@,
            Method::Mkcol => "MKCOL"@,
            Method::Head => "HEAD"@,
            Method::Get => "GET"@,
            Method::Put => "PUT"@,
        }
    }

    /// Returns the method's name on the wire.
    pub fn name(&self) -> (name: &'static str)
        ensures
            name@ == self.spec_name(),
    {
        match self {
            Method::Propfind => "PROPFIND",
            Method::Mkcol => "MKCOL",
            Method::Head => "HEAD",
            Method::Get => "GET",
            Method::Put => "PUT",
        }
    }
}

/// A request that the engine asks for. Every request is sent with the
/// account's basic credentials.
#[derive(Debug)]
pub struct RemoteRequest {
    /// The method.
    pub method: Method,
    /// The address.
    pub url: String,
    /// Whether the request carries `Depth: 0`.
    pub depth_zero: bool,
    /// The content type, where the request names one.
    pub content_type: Option<String>,
    /// The body, where the request has one.
    pub body: Option<String>,
}

/// The mathematical content of a [`RemoteRequest`].
pub struct RemoteRequestView {
    pub method: Method,
    pub url: Seq<char>,
    pub depth_zero: bool,
    pub content_type: Option<Seq<char>>,
    pub body: Option<Seq<char>>,
}

/// The mathematical content of a text that may be missing.
pub open spec fn spec_option_text(text: Option<String>) -> Option<Seq<char>> {
    match text {
        Some(t) => Some(t@),
        None => None,
    }
}

impl View for RemoteRequest {
    type V = RemoteRequestView;

    open spec fn view(&self) -> RemoteRequestView {
        RemoteRequestView {
            method: self.method,
            url: self.url@,
            depth_zero: self.depth_zero,
            content_type: spec_option_text(self.content_type),
            body: spec_option_text(self.body),
        }
    }
}

/// What a server answered.
#[derive(Debug)]
pub struct Answer {
    /// The status.
    pub status: HttpStatus,
    /// The last-modified header, where there is one and it is text.
    pub last_modified: Option<String>,
    /// The entity-tag header, where there is one and it is text.
    pub etag: Option<String>,
    /// The body as text, or why it could not be read.
    pub body: Result<String, String>,
}

/// The mathematical content of an [`Answer`].
pub struct AnswerView {
    pub status: u16,
    pub last_modified: Option<Seq<char>>,
    pub etag: Option<Seq<char>>,
    pub body: Result<Seq<char>, Seq<char>>,
}

impl View for Answer {
    type V = AnswerView;

    open spec fn view(&self) -> AnswerView {
        AnswerView {
            status: self.status.spec_code(),
            last_modified: spec_option_text(self.last_modified),
            etag: spec_option_text(self.etag),
            body: match self.body {
                Ok(text) => Ok(text@),
                Err(detail) => Err(detail@),
            },
        }
    }
}

impl AnswerView {
    /// The body, or the empty text where it could not be read.
    pub open spec fn body_or_empty(self) -> Seq<char> {
        match self.body {
            Ok(text) => text,
            Err(_) => Seq::empty(),
        }
    }
}

/// How a request ended.
#[derive(Debug)]
pub enum Reply {
    /// The request could not be put together.
    BuildFailed(String),
    /// The request could not be sent, or no answer came.
    SendFailed(String),
    /// The server answered.
    Answered(Answer),
}

/// The mathematical content of a [`Reply`].
pub enum ReplyView {
    BuildFailed(Seq<char>),
    SendFailed(Seq<char>),
    Answered(AnswerView),
}

impl View for Reply {
    type V = ReplyView;

    open spec fn view(&self) -> ReplyView {
        match self {
            Reply::BuildFailed(detail) => ReplyView::BuildFailed(detail@),
            Reply::SendFailed(detail) => ReplyView::SendFailed(detail@),
            Reply::Answered(answer) => ReplyView::Answered(answer@),
        }
    }
}

} // verus!
