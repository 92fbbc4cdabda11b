//! The transport client: which request each remote operation makes, and
//! what each reply means.
//!
//! An operation comes in two halves. The first builds the request
//! ([`RemoteRequest`]); the second reads the reply ([`Reply`]) that the
//! caller got for it. Between the two the caller talks to the server.

use crate::error::ErrorKind;
use crate::error::SyncError;
use crate::error::SyncErrorView;
use crate::http::spec_is_success;
use crate::http::spec_option_text;
use crate::http::spec_status_text;
use crate::http::Answer;
use crate::http::Method;
use crate::http::RemoteRequest;
use crate::http::RemoteRequestView;
use crate::http::Reply;
use crate::http::ReplyView;
use crate::http::NOT_FOUND;
use crate::text::decimal;
use crate::text::ends_with_slash;
use crate::text::spec_decimal;
use crate::text::spec_trim_trailing_slashes;
use crate::text::starts_with_slash;
use crate::text::trim_trailing_slashes;
use crate::timestamp::find_last_modified_in_xml;
use crate::timestamp::spec_find_last_modified_in_xml;
use crate::timestamp::spec_timestamp_from_headers;
use crate::timestamp::timestamp_from_headers;
use crate::types::NextcloudConfig;
use crate::types::NextcloudConfigView;
use url::Url;
use vstd::prelude::*;
use vstd::string::StringExecFns;

verus! {

/// Why `url::Url::parse` refuses a text as an absolute address, in the
/// words of the error it returns; `None` where it accepts the text.
pub uninterp spec fn spec_url_parse_failure(input: Seq<char>) -> Option<Seq<char>>;

/// Calls `url::Url::parse` and, where it returns an error, renders the
/// error with its `Display` impl. The parser reads the text alone, so the
/// contract gives the outcome its name and claims nothing further.
#[verifier::external_body]
fn url_parse_failure(input: &str) -> (failure: Option<String>)
    ensures
        spec_option_text(failure) == spec_url_parse_failure(input@),
{
    Url::parse(input).err().map(|error| error.to_string())
}

/// The body of the metadata probe: it asks for the last-modified property.
pub const PROPFIND_BODY: &'static str =
    "<?xml version=\"1.0\" encoding=\"utf-8\"?>\n                <propfind xmlns=\"DAV:\">\n                    <prop>\n                    <getlastmodified/>\n                    </prop>\n                </propfind>";

/// The address of the account's files: the server address without the
/// slashes at its end, the path of the files service, and the account name.
pub open spec fn spec_account_url(config: NextcloudConfigView) -> Seq<char> {
    spec_trim_trailing_slashes(config.server_url) + "/remote.php/dav/files/"@ + config.username
}

/// The sync folder with exactly one slash put in front where it has none.
pub open spec fn spec_folder_path(config: NextcloudConfigView) -> Seq<char> {
    if config.sync_folder.len() > 0 && config.sync_folder[0] == '/' {
        config.sync_folder
    } else {
        "/"@ + config.sync_folder
    }
}

/// The address of the sync folder.
pub open spec fn spec_folder_url(config: NextcloudConfigView) -> Seq<char> {
    spec_account_url(config) + spec_folder_path(config)
}

/// The name of the file that holds note `tab_index`, locally and remotely.
pub open spec fn spec_note_file_name(tab_index: usize) -> Seq<char> {
    "note_"@ + spec_decimal(tab_index as nat) + ".md"@
}

/// The address of note `tab_index`: the address of the sync folder, ended
/// by a slash, and the note's file name.
pub open spec fn spec_note_url(config: NextcloudConfigView, tab_index: usize) -> Seq<char> {
    let folder = spec_folder_url(config);
    let base = if folder.len() > 0 && folder.last() == '/' {
        folder
    } else {
        folder + "/"@
    };
    base + spec_note_file_name(tab_index)
}

/// The error for settings that lack a server, an account or a secret.
pub open spec fn spec_incomplete() -> SyncErrorView {
    SyncErrorView {
        kind: ErrorKind::Configuration,
        message: "Nextcloud configuration is incomplete"@,
    }
}

/// The address of note `tab_index`, or the configuration error that says
/// why the server address is no absolute address.
pub open spec fn spec_note_webdav_url(config: NextcloudConfigView, tab_index: usize) -> Result<
    Seq<char>,
    SyncErrorView,
> {
    match spec_url_parse_failure(spec_trim_trailing_slashes(config.server_url)) {
        Some(detail) => Err(
            SyncErrorView {
                kind: ErrorKind::Configuration,
                message: "URL parsing error: "@ + detail,
            },
        ),
        None => Ok(spec_note_url(config, tab_index)),
    }
}

/// The request that an operation on note `tab_index` makes.
pub open spec fn spec_note_request(
    config: NextcloudConfigView,
    tab_index: usize,
    method: Method,
    depth_zero: bool,
    content_type: Option<Seq<char>>,
    body: Option<Seq<char>>,
) -> Result<RemoteRequestView, SyncErrorView> {
    match spec_note_webdav_url(config, tab_index) {
        Ok(url) => Ok(RemoteRequestView { method, url, depth_zero, content_type, body }),
        Err(e) => Err(e),
    }
}

/// The mathematical content of a request that may have failed to build.
pub open spec fn spec_request_result(result: Result<RemoteRequest, SyncError>) -> Result<
    RemoteRequestView,
    SyncErrorView,
> {
    match result {
        Ok(request) => Ok(request@),
        Err(e) => Err(e@),
    }
}

/// The mathematical content of a text that may have failed to arrive.
pub open spec fn spec_text_result(result: Result<String, SyncError>) -> Result<
    Seq<char>,
    SyncErrorView,
> {
    match result {
        Ok(text) => Ok(text@),
        Err(e) => Err(e@),
    }
}

/// The mathematical content of a result that carries a plain value.
pub open spec fn spec_plain_result<T>(result: Result<T, SyncError>) -> Result<T, SyncErrorView> {
    match result {
        Ok(value) => Ok(value),
        Err(e) => Err(e@),
    }
}

/// An error of kind `kind` whose message is `message`.
pub open spec fn spec_error(kind: ErrorKind, message: Seq<char>) -> SyncErrorView {
    SyncErrorView { kind, message }
}

/// What the reply to the connection test means: whether the server
/// answered with success.
pub open spec fn spec_test_connection(reply: ReplyView) -> Result<bool, SyncErrorView> {
    match reply {
        ReplyView::BuildFailed(detail) => Err(
            spec_error(ErrorKind::Request, "Failed to build request: "@ + detail),
        ),
        ReplyView::SendFailed(detail) => Err(
            spec_error(ErrorKind::Request, "Connection test failed: "@ + detail),
        ),
        ReplyView::Answered(answer) => Ok(spec_is_success(answer.status)),
    }
}

/// What to do about the sync folder.
#[derive(Debug)]
pub enum ContainerStep {
    /// The folder is there.
    Ready,
    /// The folder is missing: send this request to create it.
    Create(RemoteRequest),
    /// The folder can neither be found nor created in this pass.
    Failed(SyncError),
}

/// The mathematical content of a [`ContainerStep`].
pub enum ContainerStepView {
    Ready,
    Create(RemoteRequestView),
    Failed(SyncErrorView),
}

impl View for ContainerStep {
    type V = ContainerStepView;

    open spec fn view(&self) -> ContainerStepView {
        match self {
            ContainerStep::Ready => ContainerStepView::Ready,
            ContainerStep::Create(request) => ContainerStepView::Create(request@),
            ContainerStep::Failed(e) => ContainerStepView::Failed(e@),
        }
    }
}

/// The request that asks whether the sync folder exists.
pub open spec fn spec_container_probe_request(config: NextcloudConfigView) -> RemoteRequestView {
    RemoteRequestView {
        method: Method::Propfind,
        url: spec_folder_url(config),
        depth_zero: true,
        content_type: None,
        body: None,
    }
}

/// The request that creates the sync folder.
pub open spec fn spec_container_create_request(config: NextcloudConfigView) -> RemoteRequestView {
    RemoteRequestView {
        method: Method::Mkcol,
        url: spec_folder_url(config),
        depth_zero: false,
        content_type: None,
        body: None,
    }
}

/// What the reply to the probe of the sync folder means. A folder that is
/// not found is created; any other status that is no success is fatal.
pub open spec fn spec_ensure_remote_directory(
    config: NextcloudConfigView,
    reply: ReplyView,
) -> ContainerStepView {
    match reply {
        ReplyView::BuildFailed(detail) => ContainerStepView::Failed(
            spec_error(ErrorKind::Request, "Failed to build request: "@ + detail),
        ),
        ReplyView::SendFailed(detail) => ContainerStepView::Failed(
            spec_error(ErrorKind::Request, "Failed to check directory: "@ + detail),
        ),
        ReplyView::Answered(answer) => if answer.status == NOT_FOUND {
            ContainerStepView::Create(spec_container_create_request(config))
        } else if !spec_is_success(answer.status) {
            ContainerStepView::Failed(
                spec_error(
                    ErrorKind::WebDav,
                    "Failed to check directory, status: "@ + spec_status_text(answer.status),
                ),
            )
        } else {
            ContainerStepView::Ready
        },
    }
}

/// What the reply to the creation of the sync folder means.
pub open spec fn spec_remote_directory_created(reply: ReplyView) -> Result<(), SyncErrorView> {
    match reply {
        ReplyView::BuildFailed(detail) => Err(
            spec_error(ErrorKind::Request, "Failed to build request: "@ + detail),
        ),
        ReplyView::SendFailed(detail) => Err(
            spec_error(ErrorKind::Request, "Failed to create directory: "@ + detail),
        ),
        ReplyView::Answered(answer) => if !spec_is_success(answer.status) {
            Err(
                spec_error(
                    ErrorKind::WebDav,
                    "Failed to create directory, status: "@ + spec_status_text(answer.status),
                ),
            )
        } else {
            Ok(())
        },
    }
}

/// What the reply to the metadata probe means. A note that is not found is
/// absent, which is no error. `now` is the current time in seconds since
/// the epoch.
pub open spec fn spec_remote_note_modified_time(reply: ReplyView, now: u64) -> Result<
    Option<u64>,
    SyncErrorView,
> {
    match reply {
        ReplyView::BuildFailed(detail) => Err(
            spec_error(ErrorKind::Request, "Failed to build request: "@ + detail),
        ),
        ReplyView::SendFailed(detail) => Err(
            spec_error(ErrorKind::Request, "Failed to get remote note info: "@ + detail),
        ),
        ReplyView::Answered(answer) => if answer.status == NOT_FOUND {
            Ok(None)
        } else if !spec_is_success(answer.status) {
            Err(
                spec_error(
                    ErrorKind::Response,
                    "Failed to get remote note info, status: "@ + spec_status_text(answer.status)
                        + ", body: "@ + answer.body_or_empty(),
                ),
            )
        } else {
            match answer.body {
                Err(detail) => Err(
                    spec_error(ErrorKind::Response, "Failed to read response: "@ + detail),
                ),
                Ok(body) => Ok(spec_find_last_modified_in_xml(body, now)),
            }
        },
    }
}

/// What the reply to the header probe means.
pub open spec fn spec_remote_mod_time_from_head(reply: ReplyView) -> Result<
    Option<u64>,
    SyncErrorView,
> {
    match reply {
        ReplyView::BuildFailed(detail) => Err(
            spec_error(ErrorKind::Request, "Failed to get remote note HEAD info: "@ + detail),
        ),
        ReplyView::SendFailed(detail) => Err(
            spec_error(ErrorKind::Request, "Failed to get remote note HEAD info: "@ + detail),
        ),
        ReplyView::Answered(answer) => if answer.status == NOT_FOUND {
            Ok(None)
        } else if !spec_is_success(answer.status) {
            Err(
                spec_error(
                    ErrorKind::Response,
                    "Failed to get remote note HEAD info, status: "@ + spec_status_text(
                        answer.status,
                    ),
                ),
            )
        } else {
            Ok(spec_timestamp_from_headers(answer.last_modified, answer.etag))
        },
    }
}

/// What the reply to an upload means.
pub open spec fn spec_upload_note(reply: ReplyView) -> Result<(), SyncErrorView> {
    match reply {
        ReplyView::BuildFailed(detail) => Err(
            spec_error(ErrorKind::Request, "Failed to upload note: "@ + detail),
        ),
        ReplyView::SendFailed(detail) => Err(
            spec_error(ErrorKind::Request, "Failed to upload note: "@ + detail),
        ),
        ReplyView::Answered(answer) => if !spec_is_success(answer.status) {
            Err(
                spec_error(
                    ErrorKind::Response,
                    "Failed to upload note, status: "@ + spec_status_text(answer.status),
                ),
            )
        } else {
            Ok(())
        },
    }
}

/// What the reply to the download of note `tab_index` means. A note that is
/// not found is an error here: the caller has seen it exist.
pub open spec fn spec_download_note(tab_index: usize, reply: ReplyView) -> Result<
    Seq<char>,
    SyncErrorView,
> {
    match reply {
        ReplyView::BuildFailed(detail) => Err(
            spec_error(ErrorKind::Request, "Failed to download note: "@ + detail),
        ),
        ReplyView::SendFailed(detail) => Err(
            spec_error(ErrorKind::Request, "Failed to download note: "@ + detail),
        ),
        ReplyView::Answered(answer) => if answer.status == NOT_FOUND {
            Err(
                spec_error(
                    ErrorKind::WebDav,
                    "Remote note "@ + spec_decimal(tab_index as nat) + " does not exist"@,
                ),
            )
        } else if !spec_is_success(answer.status) {
            Err(
                spec_error(
                    ErrorKind::Response,
                    "Failed to download note, status: "@ + spec_status_text(answer.status)
                        + ", body: "@ + answer.body_or_empty(),
                ),
            )
        } else {
            match answer.body {
                Err(detail) => Err(
                    spec_error(ErrorKind::Response, "Failed to read response: "@ + detail),
                ),
                Ok(body) => Ok(body),
            }
        },
    }
}

/// Renders the index of a note.
fn index_text(tab_index: usize) -> (text: String)
    ensures
        text@ == spec_decimal(tab_index as nat),
{
    decimal(tab_index as u64)
}

/// Builds the name of the file that holds note `tab_index`.
pub fn note_file_name(tab_index: usize) -> (name: String)
    ensures
        name@ == spec_note_file_name(tab_index),
{
    let mut name = String::from_str("note_");
    name.append(index_text(tab_index).as_str());
    name.append(".md");
    name
}

/// Builds the message that reports a status that is no success.
fn status_message(prefix: &str, answer: &Answer) -> (message: String)
    ensures
        message@ == prefix@ + spec_status_text(answer@.status),
{
    let mut message = String::from_str(prefix);
    message.append(answer.status.describe().as_str());
    message
}

/// Builds the message that reports a status that is no success together
/// with the body that came with it.
fn status_body_message(prefix: &str, answer: &Answer) -> (message: String)
    ensures
        message@ == prefix@ + spec_status_text(answer@.status) + ", body: "@
            + answer@.body_or_empty(),
{
    let mut message = status_message(prefix, answer);
    message.append(", body: ");
    match &answer.body {
        Ok(text) => {
            message.append(text.as_str());
        },
        Err(_) => {
            assert(message@ =~= message@ + Seq::<char>::empty());
        },
    }
    message
}

/// The client of one remote endpoint.
#[derive(Debug)]
pub struct NextcloudClient {
    config: NextcloudConfig,
}

impl View for NextcloudClient {
    type V = NextcloudConfigView;

    closed spec fn view(&self) -> NextcloudConfigView {
        self.config@
    }
}

impl NextcloudClient {
    #[verifier::type_invariant]
    spec fn complete(self) -> bool {
        self.config.spec_is_complete()
    }

    /// Makes a client for the endpoint that `config` describes. Settings
    /// without a server address, an account name or a secret are refused.
    pub fn new(config: NextcloudConfig) -> (client: Result<NextcloudClient, SyncError>)
        ensures
            match client {
                Ok(c) => config.spec_is_complete() && c@ == config@,
                Err(e) => !config.spec_is_complete() && e@ == spec_incomplete(),
            },
    {
        if !config.is_complete() {
            return Err(
                SyncError::of_kind(
                    ErrorKind::Configuration,
                    String::from_str("Nextcloud configuration is incomplete"),
                ),
            );
        }
        Ok(NextcloudClient { config })
    }

    /// Returns the settings that the client was made with. They name a
    /// server, an account and a secret.
    pub fn config(&self) -> (config: &NextcloudConfig)
        ensures
            config@ == self@,
            config.spec_is_complete(),
    {
        proof {
            use_type_invariant(self);
        }
        &self.config
    }

    /// Builds the address of the account's files.
    pub fn account_url(&self) -> (url: String)
        ensures
            url@ == spec_account_url(self@),
    {
        let mut url = String::from_str(trim_trailing_slashes(self.config.server_url.as_str()));
        url.append("/remote.php/dav/files/");
        url.append(self.config.username.as_str());
        url
    }

    /// Builds the address of the sync folder.
    pub fn folder_url(&self) -> (url: String)
        ensures
            url@ == spec_folder_url(self@),
    {
        let mut url = self.account_url();
        if !starts_with_slash(self.config.sync_folder.as_str()) {
            url.append("/");
            proof {
                reveal_strlit("/");
            }
        }
        url.append(self.config.sync_folder.as_str());
        assert(url@ =~= spec_folder_url(self@));
        url
    }

    /// Builds the address of note `tab_index`. Fails with a configuration
    /// error where the server address is no absolute address.
    pub fn get_note_webdav_url(&self, tab_index: usize) -> (url: Result<String, SyncError>)
        ensures
            spec_text_result(url) == spec_note_webdav_url(self@, tab_index),
    {
        let server_url = trim_trailing_slashes(self.config.server_url.as_str());
        if let Some(detail) = url_parse_failure(server_url) {
            return Err(SyncError::from_url_failure(detail.as_str()));
        }
        let mut url = self.folder_url();
        if !ends_with_slash(url.as_str()) {
            url.append("/");
        }
        url.append(note_file_name(tab_index).as_str());
        Ok(url)
    }

    fn note_request(
        &self,
        tab_index: usize,
        method: Method,
        depth_zero: bool,
        content_type: Option<String>,
        body: Option<String>,
    ) -> (request: Result<RemoteRequest, SyncError>)
        ensures
            spec_request_result(request) == spec_note_request(
                self@,
                tab_index,
                method,
                depth_zero,
                spec_option_text(content_type),
                spec_option_text(body),
            ),
    {
        match self.get_note_webdav_url(tab_index) {
            Ok(url) => Ok(RemoteRequest { method, url, depth_zero, content_type, body }),
            Err(e) => Err(e),
        }
    }

    /// The request of the connection test: the properties of the account's
    /// files, at depth zero.
    pub fn connection_test_request(&self) -> (request: RemoteRequest)
        ensures
            request@ == (RemoteRequestView {
                method: Method::Propfind,
                url: spec_account_url(self@),
                depth_zero: true,
                content_type: None,
                body: None,
            }),
    {
        RemoteRequest {
            method: Method::Propfind,
            url: self.account_url(),
            depth_zero: true,
            content_type: None,
            body: None,
        }
    }

    /// Reads the reply to the connection test.
    pub fn test_connection(&self, reply: Reply) -> (reachable: Result<bool, SyncError>)
        ensures
            spec_plain_result(reachable) == spec_test_connection(reply@),
    {
        match reply {
            Reply::BuildFailed(detail) => Err(
                SyncError::with_detail(
                    ErrorKind::Request,
                    "Failed to build request: ",
                    detail.as_str(),
                ),
            ),
            Reply::SendFailed(detail) => Err(
                SyncError::with_detail(
                    ErrorKind::Request,
                    "Connection test failed: ",
                    detail.as_str(),
                ),
            ),
            Reply::Answered(answer) => Ok(answer.status.is_success()),
        }
    }

    /// The request that asks whether the sync folder exists.
    pub fn container_probe_request(&self) -> (request: RemoteRequest)
        ensures
            request@ == spec_container_probe_request(self@),
    {
        RemoteRequest {
            method: Method::Propfind,
            url: self.folder_url(),
            depth_zero: true,
            content_type: None,
            body: None,
        }
    }

    /// Reads the reply to the probe of the sync folder and says what to do
    /// about the folder.
    pub fn ensure_remote_directory(&self, reply: Reply) -> (step: ContainerStep)
        ensures
            step@ == spec_ensure_remote_directory(self@, reply@),
    {
        match reply {
            Reply::BuildFailed(detail) => ContainerStep::Failed(
                SyncError::with_detail(
                    ErrorKind::Request,
                    "Failed to build request: ",
                    detail.as_str(),
                ),
            ),
            Reply::SendFailed(detail) => ContainerStep::Failed(
                SyncError::with_detail(
                    ErrorKind::Request,
                    "Failed to check directory: ",
                    detail.as_str(),
                ),
            ),
            Reply::Answered(answer) => {
                if answer.status.is_not_found() {
                    ContainerStep::Create(
                        RemoteRequest {
                            method: Method::Mkcol,
                            url: self.folder_url(),
                            depth_zero: false,
                            content_type: None,
                            body: None,
                        },
                    )
                } else if !answer.status.is_success() {
                    let message = status_message("Failed to check directory, status: ", &answer);
                    ContainerStep::Failed(
                        SyncError::of_kind(ErrorKind::WebDav, message),
                    )
                } else {
                    ContainerStep::Ready
                }
            },
        }
    }

    /// Reads the reply to the creation of the sync folder.
    pub fn remote_directory_created(&self, reply: Reply) -> (created: Result<(), SyncError>)
        ensures
            spec_plain_result(created) == spec_remote_directory_created(reply@),
    {
        match reply {
            Reply::BuildFailed(detail) => Err(
                SyncError::with_detail(
                    ErrorKind::Request,
                    "Failed to build request: ",
                    detail.as_str(),
                ),
            ),
            Reply::SendFailed(detail) => Err(
                SyncError::with_detail(
                    ErrorKind::Request,
                    "Failed to create directory: ",
                    detail.as_str(),
                ),
            ),
            Reply::Answered(answer) => {
                if !answer.status.is_success() {
                    let message = status_message("Failed to create directory, status: ", &answer);
                    Err(SyncError::of_kind(ErrorKind::WebDav, message))
                } else {
                    Ok(())
                }
            },
        }
    }

    /// The request of the metadata probe of note `tab_index`: its
    /// properties at depth zero, with a body that asks for the
    /// last-modified property.
    pub fn metadata_probe_request(&self, tab_index: usize) -> (request: Result<
        RemoteRequest,
        SyncError,
    >)
        ensures
            spec_request_result(request) == spec_note_request(
                self@,
                tab_index,
                Method::Propfind,
                true,
                Some("application/xml"@),
                Some(PROPFIND_BODY@),
            ),
    {
        self.note_request(
            tab_index,
            Method::Propfind,
            true,
            Some(String::from_str("application/xml")),
            Some(String::from_str(PROPFIND_BODY)),
        )
    }

    /// Reads the reply to the metadata probe: the remote modification time,
    /// `None` for a note that is absent. `now` is the current time in
    /// seconds since the epoch, which stands in where the answer holds no
    /// time.
    pub fn get_remote_note_modified_time(&self, reply: Reply, now: u64) -> (modified: Result<
        Option<u64>,
        SyncError,
    >)
        ensures
            spec_plain_result(modified) == spec_remote_note_modified_time(reply@, now),
    {
        match reply {
            Reply::BuildFailed(detail) => Err(
                SyncError::with_detail(
                    ErrorKind::Request,
                    "Failed to build request: ",
                    detail.as_str(),
                ),
            ),
            Reply::SendFailed(detail) => Err(
                SyncError::with_detail(
                    ErrorKind::Request,
                    "Failed to get remote note info: ",
                    detail.as_str(),
                ),
            ),
            Reply::Answered(answer) => {
                if answer.status.is_not_found() {
                    return Ok(None);
                }
                if !answer.status.is_success() {
                    let message = status_body_message("Failed to get remote note info, status: ", &answer);
                    return Err(SyncError::of_kind(ErrorKind::Response, message));
                }
                match answer.body {
                    Err(detail) => Err(
                        SyncError::with_detail(
                            ErrorKind::Response,
                            "Failed to read response: ",
                            detail.as_str(),
                        ),
                    ),
                    Ok(body) => Ok(find_last_modified_in_xml(body.as_str(), now)),
                }
            },
        }
    }

    /// The request of the header probe of note `tab_index`.
    pub fn header_probe_request(&self, tab_index: usize) -> (request: Result<
        RemoteRequest,
        SyncError,
    >)
        ensures
            spec_request_result(request) == spec_note_request(
                self@,
                tab_index,
                Method::Head,
                false,
                None,
                None,
            ),
    {
        self.note_request(tab_index, Method::Head, false, None, None)
    }

    /// Reads the reply to the header probe: the remote modification time as
    /// the headers give it, `None` for a note that is absent or whose
    /// headers give no time.
    pub fn get_remote_mod_time_from_head(&self, reply: Reply) -> (modified: Result<
        Option<u64>,
        SyncError,
    >)
        ensures
            spec_plain_result(modified) == spec_remote_mod_time_from_head(reply@),
    {
        match reply {
            Reply::BuildFailed(detail) => Err(
                SyncError::with_detail(
                    ErrorKind::Request,
                    "Failed to get remote note HEAD info: ",
                    detail.as_str(),
                ),
            ),
            Reply::SendFailed(detail) => Err(
                SyncError::with_detail(
                    ErrorKind::Request,
                    "Failed to get remote note HEAD info: ",
                    detail.as_str(),
                ),
            ),
            Reply::Answered(answer) => {
                if answer.status.is_not_found() {
                    return Ok(None);
                }
                if !answer.status.is_success() {
                    let message = status_message("Failed to get remote note HEAD info, status: ", &answer);
                    return Err(SyncError::of_kind(ErrorKind::Response, message));
                }
                let last_modified = match &answer.last_modified {
                    Some(text) => Some(text.as_str()),
                    None => None,
                };
                let etag = match &answer.etag {
                    Some(text) => Some(text.as_str()),
                    None => None,
                };
                Ok(timestamp_from_headers(last_modified, etag))
            },
        }
    }

    /// The request that uploads `content` as note `tab_index`.
    pub fn upload_request(&self, tab_index: usize, content: String) -> (request: Result<
        RemoteRequest,
        SyncError,
    >)
        ensures
            spec_request_result(request) == spec_note_request(
                self@,
                tab_index,
                Method::Put,
                false,
                None,
                Some(content@),
            ),
    {
        self.note_request(tab_index, Method::Put, false, None, Some(content))
    }

    /// Reads the reply to an upload.
    pub fn upload_note(&self, reply: Reply) -> (uploaded: Result<(), SyncError>)
        ensures
            spec_plain_result(uploaded) == spec_upload_note(reply@),
    {
        match reply {
            Reply::BuildFailed(detail) => Err(
                SyncError::with_detail(
                    ErrorKind::Request,
                    "Failed to upload note: ",
                    detail.as_str(),
                ),
            ),
            Reply::SendFailed(detail) => Err(
                SyncError::with_detail(
                    ErrorKind::Request,
                    "Failed to upload note: ",
                    detail.as_str(),
                ),
            ),
            Reply::Answered(answer) => {
                if !answer.status.is_success() {
                    let message = status_message("Failed to upload note, status: ", &answer);
                    Err(SyncError::of_kind(ErrorKind::Response, message))
                } else {
                    Ok(())
                }
            },
        }
    }

    /// The request that downloads note `tab_index`.
    pub fn download_request(&self, tab_index: usize) -> (request: Result<RemoteRequest, SyncError>)
        ensures
            spec_request_result(request) == spec_note_request(
                self@,
                tab_index,
                Method::Get,
                false,
                None,
                None,
            ),
    {
        self.note_request(tab_index, Method::Get, false, None, None)
    }

    /// Reads the reply to the download of note `tab_index`: its content.
    pub fn download_note(&self, tab_index: usize, reply: Reply) -> (content: Result<
        String,
        SyncError,
    >)
        ensures
            spec_text_result(content) == spec_download_note(tab_index, reply@),
    {
        match reply {
            Reply::BuildFailed(detail) => Err(
                SyncError::with_detail(
                    ErrorKind::Request,
                    "Failed to download note: ",
                    detail.as_str(),
                ),
            ),
            Reply::SendFailed(detail) => Err(
                SyncError::with_detail(
                    ErrorKind::Request,
                    "Failed to download note: ",
                    detail.as_str(),
                ),
            ),
            Reply::Answered(answer) => {
                if answer.status.is_not_found() {
                    let mut message = String::from_str("Remote note ");
                    message.append(index_text(tab_index).as_str());
                    message.append(" does not exist");
                    return Err(SyncError::of_kind(ErrorKind::WebDav, message));
                }
                if !answer.status.is_success() {
                    let message = status_body_message("Failed to download note, status: ", &answer);
                    return Err(SyncError::of_kind(ErrorKind::Response, message));
                }
                match answer.body {
                    Err(detail) => Err(
                        SyncError::with_detail(
                            ErrorKind::Response,
                            "Failed to read response: ",
                            detail.as_str(),
                        ),
                    ),
                    Ok(body) => Ok(body),
                }
            },
        }
    }
}

/// An object that the server does not find is no error for a probe. Both
/// probes of a note read "not found" as "absent", whatever else the answer
/// holds; the probe of the sync folder reads it as the order to create the
/// folder, with a `MKCOL` on the folder's own address. Only a download takes
/// it for an error.
pub proof fn law_not_found_is_absent(
    config: NextcloudConfigView,
    tab_index: usize,
    answer: crate::http::AnswerView,
    now: u64,
)
    requires
        answer.status == NOT_FOUND,
    ensures
        spec_remote_note_modified_time(ReplyView::Answered(answer), now) == Ok::<
            Option<u64>,
            SyncErrorView,
        >(None),
        spec_remote_mod_time_from_head(ReplyView::Answered(answer)) == Ok::<
            Option<u64>,
            SyncErrorView,
        >(None),
        spec_ensure_remote_directory(config, ReplyView::Answered(answer))
            == ContainerStepView::Create(spec_container_create_request(config)),
        spec_container_create_request(config).method == Method::Mkcol,
        spec_container_create_request(config).url == spec_container_probe_request(config).url,
        spec_download_note(tab_index, ReplyView::Answered(answer)) is Err,
{
}

/// The metadata probe reports a note as absent only where the server does
/// not find it. For every other answer it gives a result that is not
/// "absent": an error where the status is no success or the body cannot be
/// read, and else a time, since the resolver finds one in every body.
pub proof fn law_metadata_probe_absent_only_when_not_found(
    answer: crate::http::AnswerView,
    now: u64,
)
    ensures
        ({
            let result = spec_remote_note_modified_time(ReplyView::Answered(answer), now);
            &&& (result == Ok::<Option<u64>, SyncErrorView>(None)) <==> answer.status == NOT_FOUND
            &&& spec_is_success(answer.status) && answer.body is Ok ==> {
                &&& result is Ok
                &&& result->Ok_0 is Some
                &&& result->Ok_0 == spec_find_last_modified_in_xml(answer.body->Ok_0, now)
            }
        }),
{
}

} // verus!
