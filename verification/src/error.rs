//! Errors of the CLI and the messages shown for errors of the Golem services.

use crate::log::{paint_bold, paint_red_bold, paint_yellow_bold, painted};
use crate::text::{join, joined, push_char, strings_view};
use vstd::prelude::*;

verus! {

/// Signals that an error was already reported to the user, so that only a failing exit
/// code remains to be given.
#[derive(Debug, Clone, Copy)]
pub struct NonSuccessfulExit;

/// Errors that the command handler answers with hints.
#[derive(PartialEq, Eq, Structural, Clone, Copy, Debug)]
pub enum HintError {
    NoApplicationManifestFound,
    ExpectedCloudProfile,
}

impl HintError {
    /// The name of the error.
    pub fn to_text(&self) -> (res: &'static str)
        ensures
            res@ == match self {
                HintError::NoApplicationManifestFound => "NoApplicationManifestFound"@,
                HintError::ExpectedCloudProfile => "ExpectedCloudProfile"@,
            },
    {
        match self {
            HintError::NoApplicationManifestFound => "NoApplicationManifestFound",
            HintError::ExpectedCloudProfile => "ExpectedCloudProfile",
        }
    }
}

/// The decimal digits of `n`.
pub open spec fn decimal(n: nat) -> Seq<char>
    decreases n,
{
    if n < 10 {
        seq![digit_char(n)]
    } else {
        decimal(n / 10) + seq![digit_char(n % 10)]
    }
}

/// The digit for `d < 10`.
pub open spec fn digit_char(d: nat) -> char {
    if d == 0 { '0' } else if d == 1 { '1' } else if d == 2 { '2' } else if d == 3 { '3' }
    else if d == 4 { '4' } else if d == 5 { '5' } else if d == 6 { '6' } else if d == 7 { '7' }
    else if d == 8 { '8' } else { '9' }
}

fn digit(d: u64) -> (c: char)
    requires
        d < 10,
    ensures
        c == digit_char(d as nat),
{
    if d == 0 { '0' } else if d == 1 { '1' } else if d == 2 { '2' } else if d == 3 { '3' }
    else if d == 4 { '4' } else if d == 5 { '5' } else if d == 6 { '6' } else if d == 7 { '7' }
    else if d == 8 { '8' } else { '9' }
}

/// The decimal text of `n`.
pub fn u64_to_text(n: u64) -> (res: String)
    ensures
        res@ == decimal(n as nat),
    decreases n,
{
    if n < 10 {
        let mut s = String::new();
        push_char(&mut s, digit(n));
        assert(s@ =~= seq![digit_char(n as nat)]);
        s
    } else {
        let mut s = u64_to_text(n / 10);
        push_char(&mut s, digit(n % 10));
        s
    }
}

/// The status code and message of an error response of a Golem service.
#[derive(Debug)]
pub struct ServiceErrorResponse {
    pub status_code: u16,
    pub message: String,
}

/// The name of a Golem service, for messages.
pub trait HasServiceName {
    /// The name.
    spec fn spec_service_name() -> Seq<char>;

    /// The name.
    fn service_name() -> (res: &'static str)
        ensures
            res@ == Self::spec_service_name(),
    ;
}

/// The component service of a self-hosted Golem.
pub struct ComponentService;

/// The component service of Golem Cloud.
pub struct CloudComponentService;

/// The worker service of a self-hosted Golem.
pub struct WorkerService;

/// The worker service of Golem Cloud.
pub struct CloudWorkerService;

/// The project service of Golem Cloud.
pub struct CloudProjectService;

impl HasServiceName for ComponentService {
    open spec fn spec_service_name() -> Seq<char> {
        "Component"@
    }

    fn service_name() -> (res: &'static str) {
        "Component"
    }
}

impl HasServiceName for CloudComponentService {
    open spec fn spec_service_name() -> Seq<char> {
        "Cloud Component"@
    }

    fn service_name() -> (res: &'static str) {
        "Cloud Component"
    }
}

impl HasServiceName for WorkerService {
    open spec fn spec_service_name() -> Seq<char> {
        "Worker"@
    }

    fn service_name() -> (res: &'static str) {
        "Worker"
    }
}

impl HasServiceName for CloudWorkerService {
    open spec fn spec_service_name() -> Seq<char> {
        "Cloud Worker"@
    }

    fn service_name() -> (res: &'static str) {
        "Cloud Worker"
    }
}

impl HasServiceName for CloudProjectService {
    open spec fn spec_service_name() -> Seq<char> {
        "Cloud Project"@
    }

    fn service_name() -> (res: &'static str) {
        "Cloud Project"
    }
}

/// An error response body of a Golem service API.
pub enum ApiError<E> {
    Error400(Vec<String>),
    Error401(String),
    Error403(String),
    Error404(String),
    Error409(String),
    Error500(E),
}

/// The status code of an error response.
pub open spec fn api_error_status<E>(e: ApiError<E>) -> u16 {
    match e {
        ApiError::Error400(_) => 400,
        ApiError::Error401(_) => 401,
        ApiError::Error403(_) => 403,
        ApiError::Error404(_) => 404,
        ApiError::Error409(_) => 409,
        ApiError::Error500(_) => 500,
    }
}

impl ServiceErrorResponse {
    /// The response for an error body whose server error carries a plain message: the
    /// messages of a bad request are listed one per line.
    pub fn from_api_error(e: ApiError<String>) -> (res: Self)
        ensures
            res.status_code == api_error_status(e),
            res.message@ == match e {
                ApiError::Error400(errors) => joined(strings_view(errors@), "\n"@),
                ApiError::Error401(m) => m@,
                ApiError::Error403(m) => m@,
                ApiError::Error404(m) => m@,
                ApiError::Error409(m) => m@,
                ApiError::Error500(m) => m@,
            },
    {
        match e {
            ApiError::Error400(errors) => ServiceErrorResponse {
                status_code: 400,
                message: join(&errors, "\n"),
            },
            ApiError::Error401(m) => ServiceErrorResponse { status_code: 401, message: m },
            ApiError::Error403(m) => ServiceErrorResponse { status_code: 403, message: m },
            ApiError::Error404(m) => ServiceErrorResponse { status_code: 404, message: m },
            ApiError::Error409(m) => ServiceErrorResponse { status_code: 409, message: m },
            ApiError::Error500(m) => ServiceErrorResponse { status_code: 500, message: m },
        }
    }
}

/// The id of a worker.
pub struct WorkerId {
    pub component_id: String,
    pub worker_name: String,
}

/// The id of a promise: the worker that created it and the oplog index of its creation.
pub struct PromiseId {
    pub worker_id: WorkerId,
    pub oplog_idx: u64,
}

/// A component id with its version.
pub struct VersionedComponentId {
    pub component_id: String,
    pub version: u64,
}

/// An error of the Golem worker executor.
pub enum GolemError {
    InvalidRequest { details: String },
    WorkerAlreadyExists { worker_id: WorkerId },
    WorkerNotFound { worker_id: WorkerId },
    WorkerCreationFailed { worker_id: WorkerId, details: String },
    FailedToResumeWorker { worker_id: WorkerId, reason: Box<GolemError> },
    ComponentDownloadFailed { component_id: VersionedComponentId, reason: String },
    ComponentParseFailed { component_id: VersionedComponentId, reason: String },
    GetLatestVersionOfComponentFailed { component_id: String, reason: String },
    PromiseNotFound { promise_id: PromiseId },
    PromiseDropped { promise_id: PromiseId },
    PromiseAlreadyCompleted { promise_id: PromiseId },
    Interrupted { recover_immediately: bool },
    ParamTypeMismatch,
    NoValueInMessage,
    ValueMismatch { details: String },
    UnexpectedOplogEntry { expected: String, got: String },
    RuntimeError { details: String },
    InvalidShardId { shard_id: String, shard_ids: Vec<String> },
    PreviousInvocationFailed,
    PreviousInvocationExited,
    Unknown { details: String },
    InvalidAccount,
    ShardingNotReady,
    InitialComponentFileDownloadFailed { path: String, reason: String },
    FileSystemError { path: String, reason: String },
}

/// `<component id>/<worker name>`.
pub open spec fn worker_id_text(w: WorkerId) -> Seq<char> {
    w.component_id@ + "/"@ + w.worker_name@
}

/// `<component id>/<worker name>/<oplog index>`.
pub open spec fn promise_id_text(p: PromiseId) -> Seq<char> {
    worker_id_text(p.worker_id) + "/"@ + decimal(p.oplog_idx as nat)
}

/// The text of a worker id.
pub fn display_worker_id(worker_id: &WorkerId) -> (res: String)
    ensures
        res@ == worker_id_text(*worker_id),
{
    let mut s = worker_id.component_id.clone();
    s.append("/");
    s.append(worker_id.worker_name.as_str());
    s
}

/// The text of a promise id.
pub fn display_promise_id(promise_id: &PromiseId) -> (res: String)
    ensures
        res@ == promise_id_text(*promise_id),
{
    let mut s = display_worker_id(&promise_id.worker_id);
    s.append("/");
    let n = u64_to_text(promise_id.oplog_idx);
    s.append(n.as_str());
    s
}

/// `r` is the message shown for `e`, with ids and paths in bold and reasons in bold yellow.
pub open spec fn golem_error_text(r: Seq<char>, e: GolemError) -> bool
    decreases e,
{
    match e {
        GolemError::InvalidRequest { details } => r == "Invalid request: "@ + details@,
        GolemError::WorkerAlreadyExists { worker_id } => exists|p: Seq<char>|
            #[trigger] painted(p, worker_id_text(worker_id), "1"@) && r == "Worker already exists: "@
                + p,
        GolemError::WorkerNotFound { worker_id } => exists|p: Seq<char>|
            #[trigger] painted(p, worker_id_text(worker_id), "1"@) && r == "Worker not found: "@ + p,
        GolemError::WorkerCreationFailed { worker_id, details } => exists|p: Seq<char>|
            #[trigger] painted(p, worker_id_text(worker_id), "1"@) && r == "Failed to create worker "@
                + p + ": "@ + details@,
        GolemError::FailedToResumeWorker { worker_id, reason } => exists|
            p: Seq<char>,
            inner: Seq<char>,
            q: Seq<char>,
        |
            #![trigger painted(p, worker_id_text(worker_id), "1"@), painted(q, inner, "1;33"@)]
            painted(p, worker_id_text(worker_id), "1"@) && golem_error_text(inner, *reason)
                && painted(q, inner, "1;33"@) && r == "Failed to resume worker "@ + p + ": "@ + q,
        GolemError::ComponentDownloadFailed { component_id, reason } => exists|
            p: Seq<char>,
            v: Seq<char>,
            q: Seq<char>,
        |
            #![trigger painted(p, component_id.component_id@, "1"@), painted(v, decimal(component_id.version as nat), "1"@), painted(q, reason@, "1;33"@)]
            painted(p, component_id.component_id@, "1"@) && painted(
                v,
                decimal(component_id.version as nat),
                "1"@,
            ) && painted(q, reason@, "1;33"@) && r == "Failed to download component "@ + p + "@"@
                + v + ": "@ + q,
        GolemError::ComponentParseFailed { component_id, reason } => exists|
            p: Seq<char>,
            v: Seq<char>,
            q: Seq<char>,
        |
            #![trigger painted(p, component_id.component_id@, "1"@), painted(v, decimal(component_id.version as nat), "1"@), painted(q, reason@, "1;33"@)]
            painted(p, component_id.component_id@, "1"@) && painted(
                v,
                decimal(component_id.version as nat),
                "1"@,
            ) && painted(q, reason@, "1;33"@) && r == "Failed to parse component "@ + p + "@"@ + v
                + ": "@ + q,
        GolemError::GetLatestVersionOfComponentFailed { component_id, reason } => exists|
            p: Seq<char>,
            q: Seq<char>,
        |
            #![trigger painted(p, component_id@, "1"@), painted(q, reason@, "1;33"@)]
            painted(p, component_id@, "1"@) && painted(q, reason@, "1;33"@) && r
                == "Failed to get latest version of component "@ + p + ": "@ + q,
        GolemError::PromiseNotFound { promise_id } => exists|p: Seq<char>|
            #[trigger] painted(p, promise_id_text(promise_id), "1"@) && r == "Promise not found: "@
                + p,
        GolemError::PromiseDropped { promise_id } => exists|p: Seq<char>|
            #[trigger] painted(p, promise_id_text(promise_id), "1"@) && r == "Promise dropped: "@ + p,
        GolemError::PromiseAlreadyCompleted { promise_id } => exists|p: Seq<char>|
            #[trigger] painted(p, promise_id_text(promise_id), "1"@) && r
                == "Promise already completed: "@ + p,
        GolemError::Interrupted { recover_immediately } => r == if recover_immediately {
            "Simulated crash"@
        } else {
            "Worker interrupted"@
        },
        GolemError::ParamTypeMismatch => r == "Parameter type mismatch"@,
        GolemError::NoValueInMessage => r == "No value in message"@,
        GolemError::ValueMismatch { details } => exists|q: Seq<char>|
            #[trigger] painted(q, details@, "1;33"@) && r == "Parameter value mismatch: "@ + q,
        GolemError::UnexpectedOplogEntry { expected, got } => exists|p: Seq<char>, q: Seq<char>|
            #![trigger painted(p, expected@, "1"@), painted(q, got@, "1;33"@)]
            painted(p, expected@, "1"@) && painted(q, got@, "1;33"@) && r
                == "Unexpected oplog entry: expected "@ + p + ", got "@ + q,
        GolemError::RuntimeError { details } => r == "Runtime error: "@ + details@,
        GolemError::InvalidShardId { shard_id, shard_ids } => r == "Invalid shard id: "@
            + shard_id@ + " not in ["@ + joined(strings_view(shard_ids@), ", "@) + "]"@,
        GolemError::PreviousInvocationFailed => r == "The previously invoked function failed"@,
        GolemError::PreviousInvocationExited => r == "The previously invoked function exited"@,
        GolemError::Unknown { details } => r == "Unknown error: "@ + details@,
        GolemError::InvalidAccount => r == "Invalid account"@,
        GolemError::ShardingNotReady => r == "Sharding not ready"@,
        GolemError::InitialComponentFileDownloadFailed { path, reason } => exists|
            p: Seq<char>,
            q: Seq<char>,
        |
            #![trigger painted(p, path@, "1"@), painted(q, reason@, "1;33"@)]
            painted(p, path@, "1"@) && painted(q, reason@, "1;33"@) && r
                == "Failed to download initial file "@ + p + ": "@ + q,
        GolemError::FileSystemError { path, reason } => exists|p: Seq<char>, q: Seq<char>|
            #![trigger painted(p, path@, "1"@), painted(q, reason@, "1;33"@)]
            painted(p, path@, "1"@) && painted(q, reason@, "1;33"@) && r == "File system error: "@
                + p + ", "@ + q,
    }
}

fn cat2(a: &str, b: &str) -> (res: String)
    ensures
        res@ == a@ + b@,
{
    let mut r = a.to_string();
    r.append(b);
    r
}

fn cat3(a: &str, b: &str, c: &str) -> (res: String)
    ensures
        res@ == a@ + b@ + c@,
{
    let mut r = a.to_string();
    r.append(b);
    r.append(c);
    r
}

fn cat4(a: &str, b: &str, c: &str, d: &str) -> (res: String)
    ensures
        res@ == a@ + b@ + c@ + d@,
{
    let mut r = a.to_string();
    r.append(b);
    r.append(c);
    r.append(d);
    r
}

/// The message shown for an executor error.
pub fn display_golem_error(error: &GolemError) -> (res: String)
    ensures
        golem_error_text(res@, *error),
    decreases error,
{
    match error {
        GolemError::InvalidRequest { details } => cat2("Invalid request: ", details.as_str()),
        GolemError::WorkerAlreadyExists { worker_id } => {
            let p = paint_bold(display_worker_id(worker_id).as_str());
            cat2("Worker already exists: ", p.as_str())
        },
        GolemError::WorkerNotFound { worker_id } => {
            let p = paint_bold(display_worker_id(worker_id).as_str());
            cat2("Worker not found: ", p.as_str())
        },
        GolemError::WorkerCreationFailed { worker_id, details } => {
            let p = paint_bold(display_worker_id(worker_id).as_str());
            cat4("Failed to create worker ", p.as_str(), ": ", details.as_str())
        },
        GolemError::FailedToResumeWorker { worker_id, reason } => {
            let p = paint_bold(display_worker_id(worker_id).as_str());
            let inner = display_golem_error(reason);
            let q = paint_yellow_bold(inner.as_str());
            cat4("Failed to resume worker ", p.as_str(), ": ", q.as_str())
        },
        GolemError::ComponentDownloadFailed { component_id, reason } => {
            let p = paint_bold(component_id.component_id.as_str());
            let v = paint_bold(u64_to_text(component_id.version).as_str());
            let q = paint_yellow_bold(reason.as_str());
            let a = cat4("Failed to download component ", p.as_str(), "@", v.as_str());
            cat3(a.as_str(), ": ", q.as_str())
        },
        GolemError::ComponentParseFailed { component_id, reason } => {
            let p = paint_bold(component_id.component_id.as_str());
            let v = paint_bold(u64_to_text(component_id.version).as_str());
            let q = paint_yellow_bold(reason.as_str());
            let a = cat4("Failed to parse component ", p.as_str(), "@", v.as_str());
            cat3(a.as_str(), ": ", q.as_str())
        },
        GolemError::GetLatestVersionOfComponentFailed { component_id, reason } => {
            let p = paint_bold(component_id.as_str());
            let q = paint_yellow_bold(reason.as_str());
            cat4("Failed to get latest version of component ", p.as_str(), ": ", q.as_str())
        },
        GolemError::PromiseNotFound { promise_id } => {
            let p = paint_bold(display_promise_id(promise_id).as_str());
            cat2("Promise not found: ", p.as_str())
        },
        GolemError::PromiseDropped { promise_id } => {
            let p = paint_bold(display_promise_id(promise_id).as_str());
            cat2("Promise dropped: ", p.as_str())
        },
        GolemError::PromiseAlreadyCompleted { promise_id } => {
            let p = paint_bold(display_promise_id(promise_id).as_str());
            cat2("Promise already completed: ", p.as_str())
        },
        GolemError::Interrupted { recover_immediately } => {
            if *recover_immediately {
                "Simulated crash".to_string()
            } else {
                "Worker interrupted".to_string()
            }
        },
        GolemError::ParamTypeMismatch => "Parameter type mismatch".to_string(),
        GolemError::NoValueInMessage => "No value in message".to_string(),
        GolemError::ValueMismatch { details } => {
            let q = paint_yellow_bold(details.as_str());
            cat2("Parameter value mismatch: ", q.as_str())
        },
        GolemError::UnexpectedOplogEntry { expected, got } => {
            let p = paint_bold(expected.as_str());
            let q = paint_yellow_bold(got.as_str());
            cat4("Unexpected oplog entry: expected ", p.as_str(), ", got ", q.as_str())
        },
        GolemError::RuntimeError { details } => cat2("Runtime error: ", details.as_str()),
        GolemError::InvalidShardId { shard_id, shard_ids } => {
            let ids = join(shard_ids, ", ");
            let a = cat4("Invalid shard id: ", shard_id.as_str(), " not in [", ids.as_str());
            cat2(a.as_str(), "]")
        },
        GolemError::PreviousInvocationFailed => "The previously invoked function failed".to_string(),
        GolemError::PreviousInvocationExited => "The previously invoked function exited".to_string(),
        GolemError::Unknown { details } => cat2("Unknown error: ", details.as_str()),
        GolemError::InvalidAccount => "Invalid account".to_string(),
        GolemError::ShardingNotReady => "Sharding not ready".to_string(),
        GolemError::InitialComponentFileDownloadFailed { path, reason } => {
            let p = paint_bold(path.as_str());
            let q = paint_yellow_bold(reason.as_str());
            cat4("Failed to download initial file ", p.as_str(), ": ", q.as_str())
        },
        GolemError::FileSystemError { path, reason } => {
            let p = paint_bold(path.as_str());
            let q = paint_yellow_bold(reason.as_str());
            cat4("File system error: ", p.as_str(), ", ", q.as_str())
        },
    }
}

/// The response for a worker service error: a server error carries an executor error,
/// shown with `display_golem_error`.
pub fn response_from_worker_error(e: ApiError<GolemError>) -> (res: ServiceErrorResponse)
    ensures
        res.status_code == api_error_status(e),
        match e {
            ApiError::Error400(errors) => res.message@ == joined(strings_view(errors@), "\n"@),
            ApiError::Error401(m) => res.message@ == m@,
            ApiError::Error403(m) => res.message@ == m@,
            ApiError::Error404(m) => res.message@ == m@,
            ApiError::Error409(m) => res.message@ == m@,
            ApiError::Error500(g) => golem_error_text(res.message@, g),
        },
{
    match e {
        ApiError::Error400(errors) => ServiceErrorResponse {
            status_code: 400,
            message: join(&errors, "\n"),
        },
        ApiError::Error401(m) => ServiceErrorResponse { status_code: 401, message: m },
        ApiError::Error403(m) => ServiceErrorResponse { status_code: 403, message: m },
        ApiError::Error404(m) => ServiceErrorResponse { status_code: 404, message: m },
        ApiError::Error409(m) => ServiceErrorResponse { status_code: 409, message: m },
        ApiError::Error500(g) => ServiceErrorResponse {
            status_code: 500,
            message: display_golem_error(&g),
        },
    }
}

/// The canonical reason phrase of an HTTP status code, where `http` knows one.
pub uninterp spec fn canonical_reason(code: u16) -> Option<Seq<char>>;

/// Calls `canonical_reason` of `http::StatusCode` for `code`, converted with
/// `StatusCode::from_u16` (which accepts exactly the codes 100 to 999); the reason is tied
/// to the code by `canonical_reason`.
#[verifier::external_body]
fn status_canonical_reason(code: u16) -> (res: Option<&'static str>)
    requires
        100 <= code <= 999,
    ensures
        match res {
            Some(r) => canonical_reason(code) == Some(r@),
            None => canonical_reason(code) is None,
        },
{
    match http::StatusCode::from_u16(code) {
        Ok(status) => status.canonical_reason(),
        Err(_) => None,
    }
}

/// How a status code is shown: a valid code (100 to 999) as `http` displays it, with its
/// reason phrase, any other as its number.
pub open spec fn status_code_text(code: u16) -> Seq<char> {
    if 100 <= code <= 999 {
        decimal(code as nat) + " "@ + match canonical_reason(code) {
            Some(r) => r,
            None => "<unknown status code>"@,
        }
    } else {
        decimal(code as nat)
    }
}

/// The text of a status code.
pub fn format_status_code(code: u16) -> (res: String)
    ensures
        res@ == status_code_text(code),
{
    let mut s = u64_to_text(code as u64);
    if 100 <= code && code <= 999 {
        s.append(" ");
        match status_canonical_reason(code) {
            Some(r) => s.append(r),
            None => s.append("<unknown status code>"),
        }
    }
    s
}

/// What `String::from_utf8_lossy` makes of `bytes`.
pub uninterp spec fn utf8_lossy(bytes: Seq<u8>) -> Seq<char>;

/// Calls std `String::from_utf8_lossy`; the text is tied to the bytes by `utf8_lossy`, and
/// valid UTF-8 is decoded as it is, as std documents.
#[verifier::external_body]
pub(crate) fn from_utf8_lossy(bytes: &[u8]) -> (res: String)
    ensures
        res@ == utf8_lossy(bytes@),
        vstd::utf8::valid_utf8(bytes@) ==> res@ == vstd::utf8::decode_utf8(bytes@),
{
    String::from_utf8_lossy(bytes).into_owned()
}

/// An error of a call to a Golem service, as its client reports it; `E` is the service's
/// error response.
pub enum ClientError<E> {
    /// The service answered with an error response.
    Item(E),
    /// The request failed; the error's text.
    Reqwest(String),
    /// A header could not be built; the error's text.
    ReqwestHeader(String),
    /// The response could not be read; the error's text.
    Serde(String),
    /// The service answered with an unexpected status and body.
    Unexpected { code: u16, data: Vec<u8> },
}

/// What went wrong in a call to a Golem service.
pub enum ServiceErrorKind {
    ErrorResponse(ServiceErrorResponse),
    ReqwestError(String),
    ReqwestHeaderError(String),
    SerdeError(String),
    UnexpectedResponse { status_code: u16, payload: Vec<u8> },
}

/// An error of a call to a Golem service, with the name of the service.
pub struct ServiceError {
    pub service_name: &'static str,
    pub kind: ServiceErrorKind,
}

impl ServiceError {
    /// The error of a client of the service `T`, with error responses converted.
    pub fn from_client_error<T: HasServiceName>(error: ClientError<ServiceErrorResponse>) -> (res:
        ServiceError)
        ensures
            res.service_name@ == T::spec_service_name(),
            match error {
                ClientError::Item(e) => res.kind == ServiceErrorKind::ErrorResponse(e),
                ClientError::Reqwest(m) => res.kind == ServiceErrorKind::ReqwestError(m),
                ClientError::ReqwestHeader(m) => res.kind == ServiceErrorKind::ReqwestHeaderError(m),
                ClientError::Serde(m) => res.kind == ServiceErrorKind::SerdeError(m),
                ClientError::Unexpected { code, data } => res.kind
                    == ServiceErrorKind::UnexpectedResponse { status_code: code, payload: data },
            },
    {
        ServiceError {
            service_name: T::service_name(),
            kind: match error {
                ClientError::Item(e) => ServiceErrorKind::ErrorResponse(e),
                ClientError::Reqwest(m) => ServiceErrorKind::ReqwestError(m),
                ClientError::ReqwestHeader(m) => ServiceErrorKind::ReqwestHeaderError(m),
                ClientError::Serde(m) => ServiceErrorKind::SerdeError(m),
                ClientError::Unexpected { code, data } => ServiceErrorKind::UnexpectedResponse {
                    status_code: code,
                    payload: data,
                },
            },
        }
    }
}

/// `r` is the message shown for `e`: the service name in bold, the status in bold red and
/// the details in bold yellow.
pub open spec fn service_error_text(r: Seq<char>, e: ServiceError) -> bool {
    exists|name: Seq<char>, status: Seq<char>, detail: Seq<char>|
        #![trigger painted(name, e.service_name@, "1"@), painted(detail, service_error_detail(e.kind), "1;33"@), painted(status, service_error_status(e.kind), "1;31"@)]
        painted(name, e.service_name@, "1"@) && painted(detail, service_error_detail(e.kind), "1;33"@)
            && painted(status, service_error_status(e.kind), "1;31"@) && r == name
            + " Service - "@ + match e.kind {
            ServiceErrorKind::ErrorResponse(_) => "Error: "@ + status + ", "@ + detail,
            ServiceErrorKind::ReqwestError(_) => "Network Error: "@ + detail,
            ServiceErrorKind::ReqwestHeaderError(_) => "Header Error: "@ + detail,
            ServiceErrorKind::SerdeError(_) => "Serialization Error: "@ + detail,
            ServiceErrorKind::UnexpectedResponse { .. } => "Unexpected Response Error: "@ + status
                + ", "@ + detail,
        }
}

/// The status part of the message of an error (empty where it has none).
pub open spec fn service_error_status(k: ServiceErrorKind) -> Seq<char> {
    match k {
        ServiceErrorKind::ErrorResponse(r) => status_code_text(r.status_code),
        ServiceErrorKind::UnexpectedResponse { status_code, .. } => status_code_text(status_code),
        _ => Seq::empty(),
    }
}

/// The detail part of the message of an error.
pub open spec fn service_error_detail(k: ServiceErrorKind) -> Seq<char> {
    match k {
        ServiceErrorKind::ErrorResponse(r) => r.message@,
        ServiceErrorKind::ReqwestError(m) => m@,
        ServiceErrorKind::ReqwestHeaderError(m) => m@,
        ServiceErrorKind::SerdeError(m) => m@,
        ServiceErrorKind::UnexpectedResponse { payload, .. } => utf8_lossy(payload@),
    }
}

/// The message shown for an error of a service call.
pub fn display_service_error(error: &ServiceError) -> (res: String)
    ensures
        service_error_text(res@, *error),
{
    let name = paint_bold(error.service_name);
    let (label, status, detail): (&str, String, String) = match &error.kind {
        ServiceErrorKind::ErrorResponse(r) => ("Error: ", format_status_code(r.status_code), r.message.clone()),
        ServiceErrorKind::ReqwestError(m) => ("Network Error: ", String::new(), m.clone()),
        ServiceErrorKind::ReqwestHeaderError(m) => ("Header Error: ", String::new(), m.clone()),
        ServiceErrorKind::SerdeError(m) => ("Serialization Error: ", String::new(), m.clone()),
        ServiceErrorKind::UnexpectedResponse { status_code, payload } => (
            "Unexpected Response Error: ",
            format_status_code(*status_code),
            from_utf8_lossy(payload.as_slice()),
        ),
    };
    let painted_status = paint_red_bold(status.as_str());
    let painted_detail = paint_yellow_bold(detail.as_str());
    let mut res = name;
    res.append(" Service - ");
    res.append(label);
    match &error.kind {
        ServiceErrorKind::ErrorResponse(_) | ServiceErrorKind::UnexpectedResponse { .. } => {
            res.append(painted_status.as_str());
            res.append(", ");
        },
        _ => {},
    }
    res.append(painted_detail.as_str());
    proof {
        reveal_strlit("");
        assert(status@ == service_error_status(error.kind));
        assert(detail@ == service_error_detail(error.kind));
        assert(painted(painted_status@, service_error_status(error.kind), "1;31"@));
        assert(painted(painted_detail@, service_error_detail(error.kind), "1;33"@));
        assert(painted(name@, error.service_name@, "1"@));
        let tail = match error.kind {
            ServiceErrorKind::ErrorResponse(_) => "Error: "@ + painted_status@ + ", "@ + painted_detail@,
            ServiceErrorKind::ReqwestError(_) => "Network Error: "@ + painted_detail@,
            ServiceErrorKind::ReqwestHeaderError(_) => "Header Error: "@ + painted_detail@,
            ServiceErrorKind::SerdeError(_) => "Serialization Error: "@ + painted_detail@,
            ServiceErrorKind::UnexpectedResponse { .. } => "Unexpected Response Error: "@
                + painted_status@ + ", "@ + painted_detail@,
        };
        assert(res@ =~= name@ + " Service - "@ + tail);
    }
    res
}

/// Whether a worker service status has an error body that is parsed.
pub open spec fn is_worker_error_status(status: u16) -> bool {
    status == 400 || status == 401 || status == 403 || status == 404 || status == 409 || status
        == 500
}

/// The error of a worker connection that the service refused with `status` and `body`:
/// where the status has an error body and the body parsed (as `parsed`, of that status),
/// the error response; else an unexpected response.
pub fn worker_error_from_response(
    status: u16,
    parsed: Option<ApiError<GolemError>>,
    body: Vec<u8>,
) -> (res: ServiceError)
    requires
        parsed matches Some(e) ==> api_error_status(e) == status,
    ensures
        res.service_name@ == "Worker"@,
        match parsed {
            Some(e) => if is_worker_error_status(status) {
                res.kind matches ServiceErrorKind::ErrorResponse(r) && r.status_code == status
                    && match e {
                    ApiError::Error400(errors) => r.message@ == joined(strings_view(errors@), "\n"@),
                    ApiError::Error401(m) => r.message@ == m@,
                    ApiError::Error403(m) => r.message@ == m@,
                    ApiError::Error404(m) => r.message@ == m@,
                    ApiError::Error409(m) => r.message@ == m@,
                    ApiError::Error500(g) => golem_error_text(r.message@, g),
                }
            } else {
                res.kind == ServiceErrorKind::UnexpectedResponse { status_code: status, payload: body }
            },
            None => res.kind == ServiceErrorKind::UnexpectedResponse {
                status_code: status,
                payload: body,
            },
        },
{
    let known = status == 400 || status == 401 || status == 403 || status == 404 || status == 409
        || status == 500;
    let error = match parsed {
        Some(e) => if known {
            ClientError::Item(response_from_worker_error(e))
        } else {
            ClientError::Unexpected { code: status, data: body }
        },
        None => ClientError::Unexpected { code: status, data: body },
    };
    ServiceError::from_client_error::<WorkerService>(error)
}

} // verus!
