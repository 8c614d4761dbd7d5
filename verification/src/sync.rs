//! Synchronisation of the metadata overlay and the settings with a
//! WebDAV store.
//!
//! The library decides which request to send and what a reply means.
//! Sending is the caller's part.

use crate::error::{failure, outcome_view, ErrorKind, ServiceError, ServiceErrorView};
use crate::http::{
    http_outcome_of, is_success, HttpFailure, HttpMethod, HttpOutcomeView, HttpReply, HttpRequest,
    HttpRequestView,
};
use crate::overlay::{MetadataStore, Overlays};
use crate::settings::{get_app_settings, AppSettings, AppSettingsView};
use crate::text::{
    chars_of, contains_sub, decimal, ends_with, has_suffix, joined, string_of_range, trim_end_char,
    trimmed_end_len, u64_to_string,
};
use vstd::prelude::*;
use vstd::string::*;
use vstd::utf8::encode_utf8;

verus! {

/// The text that the standard base64 alphabet with padding gives for a
/// sequence of bytes.
pub uninterp spec fn base64_standard(bytes: Seq<u8>) -> Seq<char>;

/// The most bytes that are handed to the encoder at once.
pub const ENCODABLE_BYTES: usize = 0x4000_0000;

/// Trusted: `Engine::encode` of the `base64` crate's `STANDARD` engine
/// returns the text that [`base64_standard`] names. The input is kept
/// short enough for the length of the output to be computed.
#[verifier::external_body]
fn base64_encode(bytes: &[u8]) -> (r: String)
    requires
        bytes@.len() <= ENCODABLE_BYTES,
    ensures
        r@ == base64_standard(bytes@),
{
    base64::Engine::encode(&base64::engine::general_purpose::STANDARD, bytes)
}

/// The value of the `Authorization` header for a user and a password.
pub open spec fn basic_auth(username: Seq<char>, password: Seq<char>) -> Seq<char> {
    "Basic "@ + base64_standard(encode_utf8(username + ":"@ + password))
}

/// Builds the value of the `Authorization` header. The result is none
/// where user and password together are too long to encode.
pub fn build_webdav_auth(username: &str, password: &str) -> (r: Option<String>)
    ensures
        r is Some <==> encode_utf8(username@ + ":"@ + password@).len() <= ENCODABLE_BYTES,
        r matches Some(header) ==> header@ == basic_auth(username@, password@),
{
    let head = joined(username, ":");
    let credentials = joined(head.as_str(), password);
    let bytes = credentials.as_str().as_bytes();
    if bytes.len() > ENCODABLE_BYTES {
        return None;
    }
    let encoded = base64_encode(bytes);
    Some(joined("Basic ", encoded.as_str()))
}

/// The URL of the directory that holds the synchronised document: the
/// endpoint without trailing slashes.
pub open spec fn webdav_dir_url(base_url: Seq<char>) -> Seq<char> {
    trim_end_char(base_url, '/')
}

/// The URL of the synchronised document under an endpoint.
pub open spec fn webdav_sync_url(base_url: Seq<char>) -> Seq<char> {
    webdav_dir_url(base_url) + "/service-master-sync.json"@
}

/// The URL of the directory that holds the synchronised document.
pub fn get_webdav_dir_url(base_url: &str) -> (r: String)
    ensures
        r@ == webdav_dir_url(base_url@),
{
    let all = chars_of(base_url);
    let n = trimmed_end_len(&all, '/');
    string_of_range(&all, 0, n)
}

/// The URL of the synchronised document under an endpoint.
pub fn get_webdav_sync_url(base_url: &str) -> (r: String)
    ensures
        r@ == webdav_sync_url(base_url@),
{
    let dir = get_webdav_dir_url(base_url);
    joined(dir.as_str(), "/service-master-sync.json")
}

/// Whether an endpoint is the bare root of the provider that keeps
/// documents out of its root: without trailing slashes it ends in
/// `/dav`.
pub open spec fn is_provider_root(url: Seq<char>) -> bool {
    ends_with(webdav_dir_url(url), "/dav"@) || webdav_dir_url(url)
        == "https://dav.jianguoyun.com/dav"@
}

/// The URL of the directory that is made under the provider's root.
pub open spec fn provider_dir_url(url: Seq<char>) -> Seq<char> {
    webdav_dir_url(url) + "/service-master"@
}

/// The URL of the synchronised document under the provider's root.
pub open spec fn provider_sync_url(url: Seq<char>) -> Seq<char> {
    provider_dir_url(url) + "/service-master-sync.json"@
}

/// Executable form of [`is_provider_root`].
pub fn provider_root(url: &str) -> (r: bool)
    ensures
        r == is_provider_root(url@),
{
    let dir = get_webdav_dir_url(url);
    let all = chars_of(dir.as_str());
    let suffix = chars_of("/dav");
    let whole = chars_of("https://dav.jianguoyun.com/dav");
    has_suffix(&all, &suffix) || crate::text::chars_eq(&all, &whole)
}

/// The seconds allowed to a request that tests the connection.
pub const TEST_TIMEOUT_SECS: u64 = 10;

/// The seconds allowed to a request that moves the document.
pub const SYNC_TIMEOUT_SECS: u64 = 30;

/// The request that probes a directory.
pub open spec fn propfind(url: Seq<char>, auth: Seq<char>, timeout_secs: u64) -> HttpRequestView {
    HttpRequestView {
        method: HttpMethod::Propfind,
        url,
        headers: seq![("Authorization"@, auth), ("Depth"@, "0"@)],
        body: None,
        timeout_secs,
    }
}

/// The request that makes a directory.
pub open spec fn mkcol(url: Seq<char>, auth: Seq<char>) -> HttpRequestView {
    HttpRequestView {
        method: HttpMethod::Mkcol,
        url,
        headers: seq![("Authorization"@, auth)],
        body: None,
        timeout_secs: SYNC_TIMEOUT_SECS,
    }
}

/// The request that fetches the document.
pub open spec fn get(url: Seq<char>, auth: Seq<char>) -> HttpRequestView {
    HttpRequestView {
        method: HttpMethod::Get,
        url,
        headers: seq![("Authorization"@, auth)],
        body: None,
        timeout_secs: SYNC_TIMEOUT_SECS,
    }
}

/// The request that stores the document.
pub open spec fn put(url: Seq<char>, auth: Seq<char>, data: Seq<char>) -> HttpRequestView {
    HttpRequestView {
        method: HttpMethod::Put,
        url,
        headers: seq![
            ("Authorization"@, auth),
            ("Content-Type"@, "application/json; charset=utf-8"@),
        ],
        body: Some(data),
        timeout_secs: SYNC_TIMEOUT_SECS,
    }
}

fn header(name: &str, value: &str) -> (r: (String, String))
    ensures
        r.0@ == name@,
        r.1@ == value@,
{
    (name.to_owned(), value.to_owned())
}

/// Builds the request that probes a directory.
pub fn propfind_request(url: &str, auth: &str, timeout_secs: u64) -> (r: HttpRequest)
    ensures
        r@ == propfind(url@, auth@, timeout_secs),
{
    let mut headers: Vec<(String, String)> = Vec::new();
    headers.push(header("Authorization", auth));
    headers.push(header("Depth", "0"));
    proof {
        assert(headers.deep_view() =~= seq![("Authorization"@, auth@), ("Depth"@, "0"@)]);
    }
    HttpRequest { method: HttpMethod::Propfind, url: url.to_owned(), headers, body: None, timeout_secs }
}

/// Builds the request that makes a directory.
pub fn mkcol_request(url: &str, auth: &str) -> (r: HttpRequest)
    ensures
        r@ == mkcol(url@, auth@),
{
    let mut headers: Vec<(String, String)> = Vec::new();
    headers.push(header("Authorization", auth));
    proof {
        assert(headers.deep_view() =~= seq![("Authorization"@, auth@)]);
    }
    HttpRequest {
        method: HttpMethod::Mkcol,
        url: url.to_owned(),
        headers,
        body: None,
        timeout_secs: SYNC_TIMEOUT_SECS,
    }
}

/// Builds the request that fetches the document.
pub fn get_request(url: &str, auth: &str) -> (r: HttpRequest)
    ensures
        r@ == get(url@, auth@),
{
    let mut headers: Vec<(String, String)> = Vec::new();
    headers.push(header("Authorization", auth));
    proof {
        assert(headers.deep_view() =~= seq![("Authorization"@, auth@)]);
    }
    HttpRequest {
        method: HttpMethod::Get,
        url: url.to_owned(),
        headers,
        body: None,
        timeout_secs: SYNC_TIMEOUT_SECS,
    }
}

/// Builds the request that stores the document.
pub fn put_request(url: &str, auth: &str, data: &str) -> (r: HttpRequest)
    ensures
        r@ == put(url@, auth@, data@),
{
    let mut headers: Vec<(String, String)> = Vec::new();
    headers.push(header("Authorization", auth));
    headers.push(header("Content-Type", "application/json; charset=utf-8"));
    proof {
        assert(headers.deep_view() =~= seq![
            ("Authorization"@, auth@),
            ("Content-Type"@, "application/json; charset=utf-8"@),
        ]);
    }
    HttpRequest {
        method: HttpMethod::Put,
        url: url.to_owned(),
        headers,
        body: Some(data.to_owned()),
        timeout_secs: SYNC_TIMEOUT_SECS,
    }
}

/// The failure that reports that no client could be set up.
pub open spec fn no_client(reason: Seq<char>) -> ServiceErrorView {
    failure(ErrorKind::PermissionOrTransport, "Failed to create HTTP client: "@ + reason)
}

fn no_client_error(reason: &str) -> (r: ServiceError)
    ensures
        r@ == no_client(reason@),
{
    ServiceError::new(
        ErrorKind::PermissionOrTransport,
        joined("Failed to create HTTP client: ", reason),
    )
}

/// The failure that reports refused credentials.
pub open spec fn auth_failed() -> ServiceErrorView {
    failure(ErrorKind::AuthFailure, "认证失败，请检查用户名和密码"@)
}

fn auth_failed_error() -> (r: ServiceError)
    ensures
        r@ == auth_failed(),
{
    ServiceError::of(ErrorKind::AuthFailure, "认证失败，请检查用户名和密码")
}

/// The request that tests the connection to an endpoint.
pub fn test_webdav_request(url: &str, auth: &str) -> (r: HttpRequest)
    ensures
        r@ == propfind(url@, auth@, TEST_TIMEOUT_SECS),
{
    propfind_request(url, auth, TEST_TIMEOUT_SECS)
}

/// The text of a body: empty where the body could not be read.
pub open spec fn body_text(body: Result<Seq<char>, Seq<char>>) -> Seq<char> {
    match body {
        Ok(text) => text,
        Err(_) => Seq::empty(),
    }
}

/// A message that carries the status of a reply and its body: a head, the
/// status in decimal, what stands between, and the body as it came.
pub open spec fn carrying(
    head: Seq<char>,
    status: u16,
    between: Seq<char>,
    body: Result<Seq<char>, Seq<char>>,
) -> Seq<char> {
    head + decimal(status as nat) + between + body_text(body)
}

/// A failure for a reply that is neither a success nor a refusal of the
/// credentials nor a missing resource.
pub open spec fn unexpected_reply(
    head: Seq<char>,
    status: u16,
    between: Seq<char>,
    body: Result<Seq<char>, Seq<char>>,
) -> ServiceErrorView {
    failure(ErrorKind::RemoteProtocolError, carrying(head, status, between, body))
}

fn unexpected_reply_error(head: &str, reply: HttpReply, between: &str) -> (r: ServiceError)
    ensures
        r@ == unexpected_reply(
            head@,
            reply.status,
            between@,
            match reply.body {
                Ok(text) => Ok(text@),
                Err(reason) => Err(reason@),
            },
        ),
{
    let code = u64_to_string(reply.status as u64);
    let text = match reply.body {
        Ok(text) => text,
        Err(_) => String::new(),
    };
    let a = joined(head, code.as_str());
    let b = joined(a.as_str(), between);
    ServiceError::new(ErrorKind::RemoteProtocolError, joined(b.as_str(), text.as_str()))
}

/// A message that carries status and body holds both as they are: the
/// status in decimal and the body are contiguous parts of it.
pub proof fn lemma_carrying_holds_status_and_body(
    head: Seq<char>,
    status: u16,
    between: Seq<char>,
    body: Result<Seq<char>, Seq<char>>,
)
    ensures
        contains_sub(carrying(head, status, between, body), decimal(status as nat)),
        contains_sub(carrying(head, status, between, body), body_text(body)),
{
    let message = carrying(head, status, between, body);
    let code = decimal(status as nat);
    let text = body_text(body);
    let at = head.len() as int;
    assert(message.subrange(at, at + code.len()) =~= code);
    let then = at + code.len() + between.len();
    assert(message.subrange(then, then + text.len()) =~= text);
}

/// Whether a reply is neither a success nor a refusal of the credentials
/// nor a missing resource.
pub open spec fn is_unexpected(status: u16) -> bool {
    !is_success(status) && status != 401 && status != 404
}

/// A failure holds the status and the body of a reply: it is a failure
/// of the remote protocol whose message has the status in decimal and
/// the body as contiguous parts.
pub open spec fn holds_status_and_body<T>(
    result: Result<T, ServiceErrorView>,
    status: u16,
    body: Result<Seq<char>, Seq<char>>,
) -> bool {
    result matches Err(e) && e.kind == ErrorKind::RemoteProtocolError && contains_sub(
        e.message,
        decimal(status as nat),
    ) && contains_sub(e.message, body_text(body))
}

/// What the outcome of the connection test means: success for a status
/// from 200 to 299, a failure of its own kind for 401 and for 404, and a
/// failure that carries status and body for any other.
pub open spec fn connection_tested(outcome: HttpOutcomeView) -> Result<
    Seq<char>,
    ServiceErrorView,
> {
    match outcome {
        HttpOutcomeView::NoClient(reason) => Err(no_client(reason)),
        HttpOutcomeView::NotSent(reason) => Err(
            failure(ErrorKind::PermissionOrTransport, "Connection failed: "@ + reason),
        ),
        HttpOutcomeView::Replied { status, body } => if is_success(status) {
            Ok("Connection successful"@)
        } else if status == 401 {
            Err(
                failure(
                    ErrorKind::AuthFailure,
                    "Authentication failed: incorrect username or password"@,
                ),
            )
        } else if status == 404 {
            Err(failure(ErrorKind::NotFound, "Path not found: check WebDAV URL"@))
        } else {
            Err(unexpected_reply("Connection failed with status: "@, status, ": "@, body))
        },
    }
}

/// Decides the result of the connection test from the outcome of
/// [`test_webdav_request`].
pub fn test_webdav_connection(outcome: Result<HttpReply, HttpFailure>) -> (r: Result<
    String,
    ServiceError,
>)
    ensures
        outcome_view(r) == connection_tested(http_outcome_of(outcome)),
{
    let reply = match outcome {
        Ok(reply) => reply,
        Err(HttpFailure::Client(reason)) => {
            return Err(no_client_error(reason.as_str()));
        },
        Err(HttpFailure::Send(reason)) => {
            return Err(
                ServiceError::new(
                    ErrorKind::PermissionOrTransport,
                    joined("Connection failed: ", reason.as_str()),
                ),
            );
        },
    };
    if 200 <= reply.status && reply.status < 300 {
        Ok("Connection successful".to_owned())
    } else if reply.status == 401 {
        Err(
            ServiceError::of(
                ErrorKind::AuthFailure,
                "Authentication failed: incorrect username or password",
            ),
        )
    } else if reply.status == 404 {
        Err(ServiceError::of(ErrorKind::NotFound, "Path not found: check WebDAV URL"))
    } else {
        Err(unexpected_reply_error("Connection failed with status: ", reply, ": "))
    }
}

/// The message that reports a stored document.
pub open spec fn upload_done() -> Seq<char> {
    "同步成功！"@
}

/// What the outcome of storing the document means: success for a status
/// from 200 to 299; a failure of its own kind for 401 and for 404; for
/// any other status a failure that carries status and body, with advice
/// for 405.
pub open spec fn uploaded(outcome: HttpOutcomeView) -> Result<Seq<char>, ServiceErrorView> {
    match outcome {
        HttpOutcomeView::NoClient(reason) => Err(no_client(reason)),
        HttpOutcomeView::NotSent(reason) => Err(
            failure(ErrorKind::PermissionOrTransport, "Upload failed: "@ + reason),
        ),
        HttpOutcomeView::Replied { status, body } => if is_success(status) {
            Ok(upload_done())
        } else if status == 401 {
            Err(auth_failed())
        } else if status == 404 {
            Err(failure(ErrorKind::NotFound, "上传失败 (404): WebDAV 目录不存在。\n\n对于坚果云，请先在网页端创建一个文件夹（如 service-master），然后使用完整路径：\nhttps://dav.jianguoyun.com/dav/service-master/"@))
        } else if status == 405 {
            Err(
                unexpected_reply(
                    "不支持的操作 ("@,
                    status,
                    ")，该 WebDAV 服务器可能不允许在此路径上传文件: "@,
                    body,
                ),
            )
        } else {
            Err(unexpected_reply("上传失败 ("@, status, "): "@, body))
        },
    }
}

/// Decides the result of storing the document from the outcome of the
/// request that [`put_request`] builds.
pub fn do_webdav_upload(outcome: Result<HttpReply, HttpFailure>) -> (r: Result<
    String,
    ServiceError,
>)
    ensures
        outcome_view(r) == uploaded(http_outcome_of(outcome)),
{
    let reply = match outcome {
        Ok(reply) => reply,
        Err(HttpFailure::Client(reason)) => {
            return Err(no_client_error(reason.as_str()));
        },
        Err(HttpFailure::Send(reason)) => {
            return Err(
                ServiceError::new(
                    ErrorKind::PermissionOrTransport,
                    joined("Upload failed: ", reason.as_str()),
                ),
            );
        },
    };
    let status = reply.status;
    if 200 <= status && status < 300 {
        Ok("同步成功！".to_owned())
    } else if status == 401 {
        Err(auth_failed_error())
    } else if status == 404 {
        Err(ServiceError::of(ErrorKind::NotFound, "上传失败 (404): WebDAV 目录不存在。\n\n对于坚果云，请先在网页端创建一个文件夹（如 service-master），然后使用完整路径：\nhttps://dav.jianguoyun.com/dav/service-master/"))
    } else if status == 405 {
        Err(
            unexpected_reply_error(
                "不支持的操作 (",
                reply,
                ")，该 WebDAV 服务器可能不允许在此路径上传文件: ",
            ),
        )
    } else {
        Err(unexpected_reply_error("上传失败 (", reply, "): "))
    }
}

/// The states of the exchange that makes sure a directory exists.
#[derive(Clone, Copy, Debug, PartialEq, Eq, Structural)]
pub enum DirectoryState {
    /// The probe has been sent.
    AwaitProbe,
    /// The request that makes the directory has been sent.
    AwaitCreate,
}

/// What follows in the exchange that makes sure a directory exists.
#[derive(Debug, PartialEq, Eq)]
pub enum DirectoryStep {
    Send { request: HttpRequest, state: DirectoryState },
    Finish(Result<(), ServiceError>),
}

/// Mathematical form of [`DirectoryStep`].
pub enum DirectoryStepView {
    Send { request: HttpRequestView, state: DirectoryState },
    Finish(Result<(), ServiceErrorView>),
}

impl View for DirectoryStep {
    type V = DirectoryStepView;

    open spec fn view(&self) -> DirectoryStepView {
        match self {
            DirectoryStep::Send { request, state } => DirectoryStepView::Send {
                request: request@,
                state: *state,
            },
            DirectoryStep::Finish(r) => DirectoryStepView::Finish(
                match r {
                    Ok(()) => Ok(()),
                    Err(e) => Err(e@),
                },
            ),
        }
    }
}

/// Whether a reply came with a status from 200 to 299.
pub open spec fn replied_success(outcome: HttpOutcomeView) -> bool {
    outcome matches HttpOutcomeView::Replied { status, body } && is_success(status)
}

/// What making the directory came to: 201 says that it was made, 405
/// and 409 that it was there; any other reply is a failure that carries
/// status and body.
pub open spec fn directory_made(outcome: HttpOutcomeView) -> Result<(), ServiceErrorView> {
    match outcome {
        HttpOutcomeView::NoClient(reason) => Err(no_client(reason)),
        HttpOutcomeView::NotSent(reason) => Err(
            failure(ErrorKind::PermissionOrTransport, "Failed to create directory: "@ + reason),
        ),
        HttpOutcomeView::Replied { status, body } => if status == 201 || status
            == 405 || status == 409 {
            Ok(())
        } else {
            Err(unexpected_reply("Failed to create WebDAV directory: "@, status, ": "@, body))
        },
    }
}

/// The step that follows an outcome: a directory whose probe succeeds
/// is there; otherwise it is made, and the reply to that decides.
pub open spec fn directory_next(
    state: DirectoryState,
    base_url: Seq<char>,
    auth: Seq<char>,
    outcome: HttpOutcomeView,
) -> DirectoryStepView {
    match state {
        DirectoryState::AwaitProbe => if replied_success(outcome) {
            DirectoryStepView::Finish(Ok(()))
        } else {
            DirectoryStepView::Send {
                request: mkcol(webdav_dir_url(base_url), auth),
                state: DirectoryState::AwaitCreate,
            }
        },
        DirectoryState::AwaitCreate => DirectoryStepView::Finish(directory_made(outcome)),
    }
}

/// Starts making sure that the directory of an endpoint exists: the
/// probe is sent first.
pub fn ensure_webdav_directory(base_url: &str, auth: &str) -> (r: (HttpRequest, DirectoryState))
    ensures
        r.0@ == propfind(webdav_dir_url(base_url@), auth@, SYNC_TIMEOUT_SECS),
        r.1 == DirectoryState::AwaitProbe,
{
    let dir = get_webdav_dir_url(base_url);
    (propfind_request(dir.as_str(), auth, SYNC_TIMEOUT_SECS), DirectoryState::AwaitProbe)
}

/// Decides the step that follows an outcome while making sure that the
/// directory exists.
pub fn ensure_webdav_directory_next(
    state: DirectoryState,
    base_url: &str,
    auth: &str,
    outcome: Result<HttpReply, HttpFailure>,
) -> (r: DirectoryStep)
    ensures
        r@ == directory_next(state, base_url@, auth@, http_outcome_of(outcome)),
{
    match state {
        DirectoryState::AwaitProbe => {
            let there = match &outcome {
                Ok(reply) => 200 <= reply.status && reply.status < 300,
                Err(_) => false,
            };
            if there {
                DirectoryStep::Finish(Ok(()))
            } else {
                let dir = get_webdav_dir_url(base_url);
                DirectoryStep::Send {
                    request: mkcol_request(dir.as_str(), auth),
                    state: DirectoryState::AwaitCreate,
                }
            }
        },
        DirectoryState::AwaitCreate => {
            let reply = match outcome {
                Ok(reply) => reply,
                Err(HttpFailure::Client(reason)) => {
                    return DirectoryStep::Finish(Err(no_client_error(reason.as_str())));
                },
                Err(HttpFailure::Send(reason)) => {
                    return DirectoryStep::Finish(
                        Err(
                            ServiceError::new(
                                ErrorKind::PermissionOrTransport,
                                joined("Failed to create directory: ", reason.as_str()),
                            ),
                        ),
                    );
                },
            };
            let status = reply.status;
            if status == 201 || status == 405 || status == 409 {
                DirectoryStep::Finish(Ok(()))
            } else {
                DirectoryStep::Finish(
                    Err(unexpected_reply_error("Failed to create WebDAV directory: ", reply, ": ")),
                )
            }
        },
    }
}

/// The states of an upload.
#[derive(Clone, Copy, Debug, PartialEq, Eq, Structural)]
pub enum PushState {
    /// The request that makes the provider's directory has been sent.
    AwaitDirectory,
    /// The document has been sent. `guided` says that it went to the
    /// provider's root because the directory was not confirmed, so that
    /// a failure is answered with guidance.
    AwaitUpload { guided: bool },
}

/// What follows in an upload.
#[derive(Debug, PartialEq, Eq)]
pub enum PushStep {
    Send { request: HttpRequest, state: PushState },
    Finish(Result<String, ServiceError>),
}

/// Mathematical form of [`PushStep`].
pub enum PushStepView {
    Send { request: HttpRequestView, state: PushState },
    Finish(Result<Seq<char>, ServiceErrorView>),
}

impl View for PushStep {
    type V = PushStepView;

    open spec fn view(&self) -> PushStepView {
        match self {
            PushStep::Send { request, state } => PushStepView::Send {
                request: request@,
                state: *state,
            },
            PushStep::Finish(r) => PushStepView::Finish(outcome_view(*r)),
        }
    }
}

/// The first request of an upload: under the provider's bare root the
/// directory is made first, elsewhere the document is sent at once.
pub open spec fn push_first(url: Seq<char>, auth: Seq<char>, data: Seq<char>) -> (
    HttpRequestView,
    PushState,
) {
    if is_provider_root(url) {
        (mkcol(provider_dir_url(url), auth), PushState::AwaitDirectory)
    } else {
        (put(webdav_sync_url(url), auth, data), PushState::AwaitUpload { guided: false })
    }
}

/// Whether the reply confirms the provider's directory: 201 says that
/// it was made, 405 and 301 that it was there.
pub open spec fn directory_confirmed(outcome: HttpOutcomeView) -> bool {
    outcome matches HttpOutcomeView::Replied { status, body } && (status == 201
        || status == 405 || status == 301)
}

/// The advice given where the document could not be stored in the
/// provider's root.
pub open spec fn root_guidance() -> Seq<char> {
    "无法在坚果云根目录创建文件。\n\n请按以下步骤操作：\n1. 登录 jianguoyun.com\n2. 创建一个文件夹（如 service-master）\n3. 将服务器地址改为：\n   https://dav.jianguoyun.com/dav/service-master/\n4. 保存设置后重试"@
}

/// A result with the message of its failure replaced by the advice.
pub open spec fn guided(r: Result<Seq<char>, ServiceErrorView>) -> Result<
    Seq<char>,
    ServiceErrorView,
> {
    match r {
        Ok(message) => Ok(message),
        Err(e) => Err(failure(e.kind, root_guidance())),
    }
}

/// The step that follows an outcome of an upload. A confirmed directory
/// takes the document; without confirmation the document goes to the
/// endpoint itself. The reply to the document decides.
pub open spec fn push_next(
    state: PushState,
    url: Seq<char>,
    auth: Seq<char>,
    data: Seq<char>,
    outcome: HttpOutcomeView,
) -> PushStepView {
    match state {
        PushState::AwaitDirectory => if outcome is NoClient {
            PushStepView::Finish(Err(no_client(outcome->NoClient_0)))
        } else if directory_confirmed(outcome) {
            PushStepView::Send {
                request: put(provider_sync_url(url), auth, data),
                state: PushState::AwaitUpload { guided: false },
            }
        } else {
            PushStepView::Send {
                request: put(webdav_sync_url(url), auth, data),
                state: PushState::AwaitUpload { guided: true },
            }
        },
        PushState::AwaitUpload { guided: with_guidance } => PushStepView::Finish(
            if with_guidance {
                guided(uploaded(outcome))
            } else {
                uploaded(outcome)
            },
        ),
    }
}

fn provider_directory(url: &str) -> (r: String)
    ensures
        r@ == provider_dir_url(url@),
{
    let dir = get_webdav_dir_url(url);
    joined(dir.as_str(), "/service-master")
}

fn provider_document(url: &str) -> (r: String)
    ensures
        r@ == provider_sync_url(url@),
{
    let dir = provider_directory(url);
    joined(dir.as_str(), "/service-master-sync.json")
}

/// Starts the upload of the document `data` to an endpoint.
pub fn sync_to_webdav(url: &str, auth: &str, data: &str) -> (r: (HttpRequest, PushState))
    ensures
        (r.0@, r.1) == push_first(url@, auth@, data@),
{
    if provider_root(url) {
        let dir = provider_directory(url);
        (mkcol_request(dir.as_str(), auth), PushState::AwaitDirectory)
    } else {
        let target = get_webdav_sync_url(url);
        (put_request(target.as_str(), auth, data), PushState::AwaitUpload { guided: false })
    }
}

/// Decides the step that follows an outcome of the upload.
pub fn sync_to_webdav_next(
    state: PushState,
    url: &str,
    auth: &str,
    data: &str,
    outcome: Result<HttpReply, HttpFailure>,
) -> (r: PushStep)
    ensures
        r@ == push_next(state, url@, auth@, data@, http_outcome_of(outcome)),
{
    match state {
        PushState::AwaitDirectory => {
            let confirmed = match outcome {
                Ok(reply) => reply.status == 201 || reply.status == 405 || reply.status == 301,
                Err(HttpFailure::Client(reason)) => {
                    return PushStep::Finish(Err(no_client_error(reason.as_str())));
                },
                Err(HttpFailure::Send(_)) => false,
            };
            if confirmed {
                let target = provider_document(url);
                PushStep::Send {
                    request: put_request(target.as_str(), auth, data),
                    state: PushState::AwaitUpload { guided: false },
                }
            } else {
                let target = get_webdav_sync_url(url);
                PushStep::Send {
                    request: put_request(target.as_str(), auth, data),
                    state: PushState::AwaitUpload { guided: true },
                }
            }
        },
        PushState::AwaitUpload { guided: with_guidance } => {
            let result = do_webdav_upload(outcome);
            if with_guidance {
                match result {
                    Ok(message) => PushStep::Finish(Ok(message)),
                    Err(e) => PushStep::Finish(Err(ServiceError::of(e.kind, "无法在坚果云根目录创建文件。\n\n请按以下步骤操作：\n1. 登录 jianguoyun.com\n2. 创建一个文件夹（如 service-master）\n3. 将服务器地址改为：\n   https://dav.jianguoyun.com/dav/service-master/\n4. 保存设置后重试"))),
                }
            } else {
                PushStep::Finish(result)
            }
        },
    }
}

/// The states of a download.
#[derive(Clone, Copy, Debug, PartialEq, Eq, Structural)]
pub enum PullState {
    /// The document has been asked for where it is expected.
    AwaitPrimary,
    /// The document has been asked for in the provider's root.
    AwaitFallback,
}

/// What follows in a download.
#[derive(Debug, PartialEq, Eq)]
pub enum PullStep {
    Send { request: HttpRequest, state: PullState },
    /// The document has come: its text is to be read and applied.
    Apply(String),
    Finish(ServiceError),
}

/// Mathematical form of [`PullStep`].
pub enum PullStepView {
    Send { request: HttpRequestView, state: PullState },
    Apply(Seq<char>),
    Finish(ServiceErrorView),
}

impl View for PullStep {
    type V = PullStepView;

    open spec fn view(&self) -> PullStepView {
        match self {
            PullStep::Send { request, state } => PullStepView::Send {
                request: request@,
                state: *state,
            },
            PullStep::Apply(text) => PullStepView::Apply(text@),
            PullStep::Finish(e) => PullStepView::Finish(e@),
        }
    }
}

/// The first request of a download: under the provider's bare root the
/// document is looked for in the provider's directory.
pub open spec fn pull_first(url: Seq<char>, auth: Seq<char>) -> HttpRequestView {
    if is_provider_root(url) {
        get(provider_sync_url(url), auth)
    } else {
        get(webdav_sync_url(url), auth)
    }
}

/// The failure that reports that nothing has been synchronised yet.
pub open spec fn nothing_synced() -> ServiceErrorView {
    failure(ErrorKind::NotFound, "未找到同步数据。请先上传配置到 WebDAV。"@)
}

/// What a download came to: the document's text for a status from 200
/// to 299 with a readable body; a failure of its own kind for 404 and
/// for 401; a failure that carries status and body for any other.
pub open spec fn downloaded(outcome: HttpOutcomeView) -> Result<Seq<char>, ServiceErrorView> {
    match outcome {
        HttpOutcomeView::NoClient(reason) => Err(no_client(reason)),
        HttpOutcomeView::NotSent(reason) => Err(
            failure(ErrorKind::PermissionOrTransport, "Download failed: "@ + reason),
        ),
        HttpOutcomeView::Replied { status, body } => if status == 404 {
            Err(nothing_synced())
        } else if status == 401 {
            Err(auth_failed())
        } else if !is_success(status) {
            Err(unexpected_reply("下载失败 ("@, status, "): "@, body))
        } else {
            match body {
                Ok(text) => Ok(text),
                Err(reason) => Err(
                    failure(
                        ErrorKind::PermissionOrTransport,
                        "Failed to read response: "@ + reason,
                    ),
                ),
            }
        },
    }
}

/// The step that ends a download.
pub open spec fn pull_done(r: Result<Seq<char>, ServiceErrorView>) -> PullStepView {
    match r {
        Ok(text) => PullStepView::Apply(text),
        Err(e) => PullStepView::Finish(e),
    }
}

/// Whether the reply says that the resource is missing.
pub open spec fn replied_missing(outcome: HttpOutcomeView) -> bool {
    outcome matches HttpOutcomeView::Replied { status, body } && status == 404
}

/// The step that follows an outcome of a download. A document missing
/// from the provider's directory is looked for once more, in the
/// provider's root; any other reply decides.
pub open spec fn pull_next(
    state: PullState,
    url: Seq<char>,
    auth: Seq<char>,
    outcome: HttpOutcomeView,
) -> PullStepView {
    if state == PullState::AwaitPrimary && replied_missing(outcome) && is_provider_root(url) {
        PullStepView::Send {
            request: get(webdav_sync_url(url), auth),
            state: PullState::AwaitFallback,
        }
    } else {
        pull_done(downloaded(outcome))
    }
}

/// Starts the download of the document from an endpoint.
pub fn sync_from_webdav(url: &str, auth: &str) -> (r: (HttpRequest, PullState))
    ensures
        r.0@ == pull_first(url@, auth@),
        r.1 == PullState::AwaitPrimary,
{
    let target = if provider_root(url) {
        provider_document(url)
    } else {
        get_webdav_sync_url(url)
    };
    (get_request(target.as_str(), auth), PullState::AwaitPrimary)
}

fn download_result(outcome: Result<HttpReply, HttpFailure>) -> (r: Result<String, ServiceError>)
    ensures
        outcome_view(r) == downloaded(http_outcome_of(outcome)),
{
    let reply = match outcome {
        Ok(reply) => reply,
        Err(HttpFailure::Client(reason)) => {
            return Err(no_client_error(reason.as_str()));
        },
        Err(HttpFailure::Send(reason)) => {
            return Err(
                ServiceError::new(
                    ErrorKind::PermissionOrTransport,
                    joined("Download failed: ", reason.as_str()),
                ),
            );
        },
    };
    let status = reply.status;
    if status == 404 {
        Err(ServiceError::of(ErrorKind::NotFound, "未找到同步数据。请先上传配置到 WebDAV。"))
    } else if status == 401 {
        Err(auth_failed_error())
    } else if !(200 <= status && status < 300) {
        Err(unexpected_reply_error("下载失败 (", reply, "): "))
    } else {
        match reply.body {
            Ok(text) => Ok(text),
            Err(reason) => Err(
                ServiceError::new(
                    ErrorKind::PermissionOrTransport,
                    joined("Failed to read response: ", reason.as_str()),
                ),
            ),
        }
    }
}

/// Decides the step that follows an outcome of the download.
pub fn sync_from_webdav_next(
    state: PullState,
    url: &str,
    auth: &str,
    outcome: Result<HttpReply, HttpFailure>,
) -> (r: PullStep)
    ensures
        r@ == pull_next(state, url@, auth@, http_outcome_of(outcome)),
{
    let missing = match &outcome {
        Ok(reply) => reply.status == 404,
        Err(_) => false,
    };
    let primary = match state {
        PullState::AwaitPrimary => true,
        PullState::AwaitFallback => false,
    };
    if primary && missing && provider_root(url) {
        let target = get_webdav_sync_url(url);
        return PullStep::Send {
            request: get_request(target.as_str(), auth),
            state: PullState::AwaitFallback,
        };
    }
    match download_result(outcome) {
        Ok(text) => PullStep::Apply(text),
        Err(e) => PullStep::Finish(e),
    }
}

/// What is sent to the remote store: the overlay, the settings without
/// the endpoint and credentials of the store, and the time of sending.
#[derive(Debug, PartialEq, Eq)]
pub struct WebDavSyncData {
    pub metadata: MetadataStore,
    pub settings: AppSettings,
    pub sync_time: String,
}

/// Mathematical form of [`WebDavSyncData`].
pub struct SyncDataView {
    pub metadata: Overlays,
    pub settings: AppSettingsView,
    pub sync_time: Seq<char>,
}

impl View for WebDavSyncData {
    type V = SyncDataView;

    open spec fn view(&self) -> SyncDataView {
        SyncDataView {
            metadata: self.metadata@,
            settings: self.settings@,
            sync_time: self.sync_time@,
        }
    }
}

/// The payload that is sent for a local state.
pub open spec fn payload_of(
    metadata: Overlays,
    settings: AppSettingsView,
    sync_time: Seq<char>,
) -> SyncDataView {
    SyncDataView { metadata, settings: settings.without_credentials(), sync_time }
}

/// Builds the payload from the local state. Settings that could not be
/// read count as those of a fresh installation.
pub fn get_sync_data(metadata: MetadataStore, settings: Option<AppSettings>, sync_time: String) -> (r:
    WebDavSyncData)
    ensures
        r@ == payload_of(
            metadata@,
            match settings {
                Some(s) => s@,
                None => AppSettingsView::initial(),
            },
            sync_time@,
        ),
{
    let mut snapshot = get_app_settings(settings);
    snapshot.webdav_url = None;
    snapshot.webdav_username = None;
    snapshot.webdav_password = None;
    WebDavSyncData { metadata, settings: snapshot, sync_time }
}

/// The local state after a payload is applied.
#[derive(Debug, PartialEq, Eq)]
pub struct AppliedSync {
    /// The overlay to store.
    pub metadata: MetadataStore,
    /// The settings to store.
    pub settings: AppSettings,
    /// The message that reports success once both are stored.
    pub message: String,
}

/// Mathematical form of [`AppliedSync`].
pub struct AppliedView {
    pub metadata: Overlays,
    pub settings: AppSettingsView,
    pub message: Seq<char>,
}

impl View for AppliedSync {
    type V = AppliedView;

    open spec fn view(&self) -> AppliedView {
        AppliedView {
            metadata: self.metadata@,
            settings: self.settings@,
            message: self.message@,
        }
    }
}

/// The local state after a payload is applied: the overlay is the
/// payload's, and so are the settings, but for the endpoint and
/// credentials of the remote store, which stay the local ones.
pub open spec fn applied(payload: SyncDataView, local: AppSettingsView) -> AppliedView {
    AppliedView {
        metadata: payload.metadata,
        settings: payload.settings.with_credentials_of(local),
        message: "同步成功！(同步时间: "@ + payload.sync_time + ")"@,
    }
}

/// What applying a downloaded document comes to: a document that could
/// not be read is a failure that carries the reason.
pub open spec fn apply_result(parsed: Result<WebDavSyncData, String>, local: AppSettingsView) -> Result<
    AppliedView,
    ServiceErrorView,
> {
    match parsed {
        Ok(payload) => Ok(applied(payload@, local)),
        Err(reason) => Err(failure(ErrorKind::ParseFailure, "无法解析同步数据: "@ + reason@)),
    }
}

/// Applies a downloaded document, as read by the caller, to the local
/// state.
pub fn apply_sync_data(parsed: Result<WebDavSyncData, String>, current: AppSettings) -> (r: Result<
    AppliedSync,
    ServiceError,
>)
    ensures
        (match r {
            Ok(a) => Ok::<AppliedView, ServiceErrorView>(a@),
            Err(e) => Err::<AppliedView, ServiceErrorView>(e@),
        }) == apply_result(parsed, current@),
{
    let payload = match parsed {
        Ok(payload) => payload,
        Err(reason) => {
            return Err(
                ServiceError::new(
                    ErrorKind::ParseFailure,
                    joined("无法解析同步数据: ", reason.as_str()),
                ),
            );
        },
    };
    let mut settings = payload.settings;
    settings.webdav_url = current.webdav_url;
    settings.webdav_username = current.webdav_username;
    settings.webdav_password = current.webdav_password;
    let head = joined("同步成功！(同步时间: ", payload.sync_time.as_str());
    let message = joined(head.as_str(), ")");
    Ok(AppliedSync { metadata: payload.metadata, settings, message })
}

/// Uploading a local state and applying the download to it gives that
/// state back: the overlay and the settings are what they were.
pub proof fn lemma_push_then_pull_restores(
    metadata: Overlays,
    settings: AppSettingsView,
    sync_time: Seq<char>,
)
    ensures
        applied(payload_of(metadata, settings, sync_time), settings).metadata == metadata,
        applied(payload_of(metadata, settings, sync_time), settings).settings == settings,
{
}

/// Applying a payload never touches the local endpoint and credentials
/// of the remote store, whatever the payload holds in their place.
pub proof fn lemma_pull_keeps_credentials(payload: SyncDataView, local: AppSettingsView)
    ensures
        applied(payload, local).settings.webdav_url == local.webdav_url,
        applied(payload, local).settings.webdav_username == local.webdav_username,
        applied(payload, local).settings.webdav_password == local.webdav_password,
        applied(payload, local).settings.without_credentials()
            == payload.settings.without_credentials(),
{
}

/// A payload carries neither the endpoint nor the credentials of the
/// remote store.
pub proof fn lemma_payload_has_no_credentials(
    metadata: Overlays,
    settings: AppSettingsView,
    sync_time: Seq<char>,
)
    ensures
        payload_of(metadata, settings, sync_time).settings.webdav_url is None,
        payload_of(metadata, settings, sync_time).settings.webdav_username is None,
        payload_of(metadata, settings, sync_time).settings.webdav_password is None,
{
}

/// A point in time of the system clock.
#[verifier::external_type_specification]
#[verifier::external_body]
pub struct ExSystemTime(std::time::SystemTime);

/// Trusted: `SystemTime::now`, the time of the system clock. Nothing is
/// promised of it.
#[verifier::external_body]
fn system_now() -> (r: std::time::SystemTime)
{
    std::time::SystemTime::now()
}

/// Trusted: `SystemTime::duration_since` the start of 1970; none where
/// the time lies before it.
#[verifier::external_body]
fn since_epoch(time: &std::time::SystemTime) -> (r: Option<std::time::Duration>)
{
    time.duration_since(std::time::UNIX_EPOCH).ok()
}

/// Trusted: `Duration::as_secs`, the whole seconds of a duration.
#[verifier::external_body]
fn whole_seconds(duration: &std::time::Duration) -> (r: u64)
{
    duration.as_secs()
}

/// The time stamp for the seconds that have passed since the start of
/// 1970: their number in decimal. A clock set before 1970 gives none,
/// and counts as 0.
pub open spec fn sync_time_for(seconds: Option<u64>) -> Seq<char> {
    match seconds {
        Some(n) => decimal(n as nat),
        None => decimal(0),
    }
}

/// The time stamp for the seconds that have passed since the start of
/// 1970.
pub fn format_sync_time(seconds: Option<u64>) -> (r: String)
    ensures
        r@ == sync_time_for(seconds),
{
    match seconds {
        Some(n) => u64_to_string(n),
        None => u64_to_string(0),
    }
}

/// The time stamp of now: the stamp for whatever the clock says has
/// passed since the start of 1970.
pub fn chrono_now() -> (r: String)
    ensures
        exists|seconds: Option<u64>| r@ == sync_time_for(seconds),
{
    let now = system_now();
    let seconds = match since_epoch(&now) {
        Some(elapsed) => Some(whole_seconds(&elapsed)),
        None => None,
    };
    format_sync_time(seconds)
}

/// Every reply that is neither a success nor a refusal of the
/// credentials nor a missing resource is reported with its status and
/// its body: by the connection test, by the upload and by the download.
pub proof fn lemma_unexpected_replies_are_reported_in_full(
    status: u16,
    body: Result<Seq<char>, Seq<char>>,
)
    requires
        is_unexpected(status),
    ensures
        holds_status_and_body(
            connection_tested(HttpOutcomeView::Replied { status, body }),
            status,
            body,
        ),
        holds_status_and_body(uploaded(HttpOutcomeView::Replied { status, body }), status, body),
        holds_status_and_body(downloaded(HttpOutcomeView::Replied { status, body }), status, body),
{
    lemma_carrying_holds_status_and_body("Connection failed with status: "@, status, ": "@, body);
    lemma_carrying_holds_status_and_body(
        "不支持的操作 ("@,
        status,
        ")，该 WebDAV 服务器可能不允许在此路径上传文件: "@,
        body,
    );
    lemma_carrying_holds_status_and_body("上传失败 ("@, status, "): "@, body);
    lemma_carrying_holds_status_and_body("下载失败 ("@, status, "): "@, body);
}

/// The upload succeeds exactly for a status from 200 to 299.
pub proof fn lemma_upload_succeeds_on_success(status: u16, body: Result<Seq<char>, Seq<char>>)
    ensures
        uploaded(HttpOutcomeView::Replied { status, body }) is Ok <==> is_success(status),
{
}

/// A directory that could not be made is reported with the status and
/// the body of the reply.
pub proof fn lemma_directory_failure_is_reported_in_full(
    status: u16,
    body: Result<Seq<char>, Seq<char>>,
)
    requires
        status != 201,
        status != 405,
        status != 409,
    ensures
        holds_status_and_body(
            directory_made(HttpOutcomeView::Replied { status, body }),
            status,
            body,
        ),
{
    lemma_carrying_holds_status_and_body("Failed to create WebDAV directory: "@, status, ": "@, body);
}

} // verus!
