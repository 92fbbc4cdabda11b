//! The error taxonomy of the synchronization engine.

use vstd::prelude::*;
use vstd::string::StringExecFns;

verus! {

/// What went wrong during a synchronization step.
#[derive(Debug)]
pub enum SyncError {
    /// The request could not be built or sent.
    Request(String),
    /// The server answered with a status that is no success.
    Response(String),
    /// A local file could not be read or written.
    FileSystem(String),
    /// The WebDAV protocol step failed, such as a missing folder.
    WebDav(String),
    /// The endpoint settings are malformed.
    Configuration(String),
}

/// The kind of a [`SyncError`], without its message.
#[derive(Clone, Copy, Debug, PartialEq, Eq, Structural)]
pub enum ErrorKind {
    Request,
    Response,
    FileSystem,
    WebDav,
    Configuration,
}

/// The text that a description of an error of kind `kind` begins with.
pub open spec fn kind_prefix(kind: ErrorKind) -> Seq<char> {
    match kind {
        ErrorKind::Request => "Request error: "@,
        ErrorKind::Response => "Response error: "@,
        ErrorKind::FileSystem => "File system error: "@,
        ErrorKind::WebDav => "WebDAV error: "@,
        ErrorKind::Configuration => "Configuration error: "@,
    }
}

/// The mathematical content of a [`SyncError`]: its kind and its message.
pub struct SyncErrorView {
    pub kind: ErrorKind,
    pub message: Seq<char>,
}

impl View for SyncError {
    type V = SyncErrorView;

    open spec fn view(&self) -> SyncErrorView {
        SyncErrorView { kind: self.spec_kind(), message: self.spec_message() }
    }
}

impl SyncErrorView {
    /// The user-visible description: the kind's prefix, then the message.
    pub open spec fn describe(self) -> Seq<char> {
        kind_prefix(self.kind) + self.message
    }
}

/// What is known of a request that failed before any answer came.
#[derive(Clone, Copy, Debug, PartialEq, Eq, Structural)]
pub struct TransportFailure {
    /// The request ran out of time.
    pub timeout: bool,
    /// No connection could be made.
    pub connect: bool,
    /// The failure stems from the status of an answer.
    pub status: bool,
}

/// The error that stands for a failed request. A timeout is told first,
/// then a failed connection, then a bad status; anything else is a plain
/// request error. Only a bad status is an error of the response.
pub open spec fn spec_from_transport_failure(
    failure: TransportFailure,
    detail: Seq<char>,
) -> SyncErrorView {
    if failure.timeout {
        SyncErrorView { kind: ErrorKind::Request, message: "Request timeout: "@ + detail }
    } else if failure.connect {
        SyncErrorView { kind: ErrorKind::Request, message: "Connection error: "@ + detail }
    } else if failure.status {
        SyncErrorView { kind: ErrorKind::Response, message: "HTTP error: "@ + detail }
    } else {
        SyncErrorView { kind: ErrorKind::Request, message: "Request error: "@ + detail }
    }
}

impl SyncError {
    /// The error that stands for a failed request, whose own description
    /// is `detail`.
    pub fn from_transport_failure(failure: TransportFailure, detail: &str) -> (error: SyncError)
        ensures
            error@ == spec_from_transport_failure(failure, detail@),
    {
        if failure.timeout {
            SyncError::with_detail(ErrorKind::Request, "Request timeout: ", detail)
        } else if failure.connect {
            SyncError::with_detail(ErrorKind::Request, "Connection error: ", detail)
        } else if failure.status {
            SyncError::with_detail(ErrorKind::Response, "HTTP error: ", detail)
        } else {
            SyncError::with_detail(ErrorKind::Request, "Request error: ", detail)
        }
    }

    /// The error that stands for a failure of the local file system, whose
    /// own description is `detail`.
    pub fn from_io_failure(detail: &str) -> (error: SyncError)
        ensures
            error@ == (SyncErrorView { kind: ErrorKind::FileSystem, message: detail@ }),
    {
        SyncError::FileSystem(String::from_str(detail))
    }

    /// The error that stands for settings that are no valid JSON, where the
    /// parser's own description is `detail`.
    pub fn from_json_failure(detail: &str) -> (error: SyncError)
        ensures
            error@ == (SyncErrorView {
                kind: ErrorKind::Configuration,
                message: "JSON parsing error: "@ + detail@,
            }),
    {
        SyncError::with_detail(ErrorKind::Configuration, "JSON parsing error: ", detail)
    }

    /// The error that stands for an address that cannot be parsed, where
    /// the parser's own description is `detail`.
    pub fn from_url_failure(detail: &str) -> (error: SyncError)
        ensures
            error@ == (SyncErrorView {
                kind: ErrorKind::Configuration,
                message: "URL parsing error: "@ + detail@,
            }),
    {
        SyncError::with_detail(ErrorKind::Configuration, "URL parsing error: ", detail)
    }

    /// Builds an error of kind `kind` whose message is `prefix` followed by
    /// `detail`.
    pub fn with_detail(kind: ErrorKind, prefix: &str, detail: &str) -> (error: SyncError)
        ensures
            error@ == (SyncErrorView { kind, message: prefix@ + detail@ }),
    {
        let mut message = String::from_str(prefix);
        message.append(detail);
        SyncError::of_kind(kind, message)
    }

    /// Builds an error of kind `kind` with the message `message`.
    pub fn of_kind(kind: ErrorKind, message: String) -> (error: SyncError)
        ensures
            error@ == (SyncErrorView { kind, message: message@ }),
    {
        match kind {
            ErrorKind::Request => SyncError::Request(message),
            ErrorKind::Response => SyncError::Response(message),
            ErrorKind::FileSystem => SyncError::FileSystem(message),
            ErrorKind::WebDav => SyncError::WebDav(message),
            ErrorKind::Configuration => SyncError::Configuration(message),
        }
    }

    /// The kind of this error.
    pub open spec fn spec_kind(&self) -> ErrorKind {
        match self {
            SyncError::Request(_) => ErrorKind::Request,
            SyncError::Response(_) => ErrorKind::Response,
            SyncError::FileSystem(_) => ErrorKind::FileSystem,
            SyncError::WebDav(_) => ErrorKind::WebDav,
            SyncError::Configuration(_) => ErrorKind::Configuration,
        }
    }

    /// The message carried by this error.
    pub open spec fn spec_message(&self) -> Seq<char> {
        match self {
            SyncError::Request(m) => m@,
            SyncError::Response(m) => m@,
            SyncError::FileSystem(m) => m@,
            SyncError::WebDav(m) => m@,
            SyncError::Configuration(m) => m@,
        }
    }

    /// The user-visible description: the kind's prefix, then the message.
    pub open spec fn spec_describe(&self) -> Seq<char> {
        kind_prefix(self.spec_kind()) + self.spec_message()
    }

    /// Returns the kind of this error.
    pub fn kind(&self) -> (k: ErrorKind)
        ensures
            k == self.spec_kind(),
    {
        match self {
            SyncError::Request(_) => ErrorKind::Request,
            SyncError::Response(_) => ErrorKind::Response,
            SyncError::FileSystem(_) => ErrorKind::FileSystem,
            SyncError::WebDav(_) => ErrorKind::WebDav,
            SyncError::Configuration(_) => ErrorKind::Configuration,
        }
    }

    /// Returns the message carried by this error.
    pub fn message(&self) -> (m: &str)
        ensures
            m@ == self.spec_message(),
    {
        match self {
            SyncError::Request(m) => m.as_str(),
            SyncError::Response(m) => m.as_str(),
            SyncError::FileSystem(m) => m.as_str(),
            SyncError::WebDav(m) => m.as_str(),
            SyncError::Configuration(m) => m.as_str(),
        }
    }

    /// Renders the error as the text shown to the user.
    pub fn describe(&self) -> (text: String)
        ensures
            text@ == self.spec_describe(),
    {
        let prefix = match self {
            SyncError::Request(_) => "Request error: ",
            SyncError::Response(_) => "Response error: ",
            SyncError::FileSystem(_) => "File system error: ",
            SyncError::WebDav(_) => "WebDAV error: ",
            SyncError::Configuration(_) => "Configuration error: ",
        };
        let mut text = String::from_str(prefix);
        text.append(self.message());
        text
    }
}

} // verus!
