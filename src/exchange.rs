//! The run request's exchange with the service, as decisions on plain
//! values: where to send, how to read the reply's body, and what the
//! caller gets back for each kind of reply.

use reqwest::StatusCode;
use vstd::prelude::*;

use crate::client::Client;
use crate::executor::Executor;
use crate::response::{opt_result, ExecResponse, ExecResponseView, ExecResult, ExecResultView, RawExecResponse};

verus! {

/// The text that a status code is displayed as: the code and its reason
/// phrase.
pub uninterp spec fn status_display(code: u16) -> Seq<char>;

/// Relies on StatusCode::from_u16, which accepts every code from 100 to
/// 999, and on StatusCode's Display, whose text depends on the code alone.
#[verifier::external_body]
fn status_line(code: u16) -> (r: String)
    requires
        100 <= code <= 999,
    ensures
        r@ == status_display(code),
{
    StatusCode::from_u16(code).unwrap().to_string()
}

/// A code that an HTTP status can have.
pub open spec fn is_status_code(code: u16) -> bool {
    100 <= code <= 999
}

/// The one status on which the service's reply holds a result.
pub open spec fn is_success(code: u16) -> bool {
    code == 200
}

/// How the body of a reply is to be read.
#[derive(Debug, Clone, Copy, PartialEq, Eq)]
pub enum BodyKind {
    /// As the JSON form of a `RawExecResponse`.
    Json,
    /// As plain text.
    Text,
}

/// How to read the body of a reply that came with `status`.
pub fn body_kind(status: u16) -> (r: BodyKind)
    ensures
        r == (if is_success(status) { BodyKind::Json } else { BodyKind::Text }),
{
    if status == 200 {
        BodyKind::Json
    } else {
        BodyKind::Text
    }
}

/// What came of sending a run request and reading the reply.
#[derive(Debug, Clone, PartialEq, Eq)]
pub enum Reply {
    /// No reply: the request could not be sent or no response arrived.
    NoReply { message: String },
    /// A reply with `status` whose body was read as JSON.
    Decoded { status: u16, raw: RawExecResponse },
    /// A reply with `status` whose body was read as text.
    Text { status: u16, body: String },
    /// A reply with `status` whose body could not be read or decoded.
    Unreadable { status: u16, message: String },
}

/// A reply whose status, if it has one, is a valid code.
pub open spec fn is_valid_reply(reply: Reply) -> bool {
    match reply {
        Reply::NoReply { .. } => true,
        Reply::Decoded { status, .. } => is_status_code(status),
        Reply::Text { status, .. } => is_status_code(status),
        Reply::Unreadable { status, .. } => is_status_code(status),
    }
}

/// Why a run request gave no response.
#[derive(Debug, Clone, PartialEq, Eq)]
pub enum ExecError {
    /// The exchange with the service failed before a reply arrived.
    Transport { message: String },
    /// A reply arrived with `status`, but its body could not be read.
    Body { status: u16, message: String },
}

pub enum ExecErrorView {
    Transport { message: Seq<char> },
    Body { status: u16, message: Seq<char> },
}

impl View for ExecError {
    type V = ExecErrorView;

    open spec fn view(&self) -> ExecErrorView {
        match self {
            ExecError::Transport { message } => ExecErrorView::Transport { message: message@ },
            ExecError::Body { status, message } => ExecErrorView::Body { status: *status, message: message@ },
        }
    }
}

/// The view of a run request's outcome.
pub open spec fn outcome_view(r: Result<ExecResponse, ExecError>) -> Result<ExecResponseView, ExecErrorView> {
    match r {
        Ok(resp) => Ok(resp@),
        Err(e) => Err(e@),
    }
}

/// The diagnostic that stands for a rejected request: the status line, a
/// colon and a space, and the reply's body.
pub open spec fn rejection_text(status_line: Seq<char>, body: Seq<char>) -> Seq<char> {
    status_line + ": "@ + body
}

/// The response made up for a request that the service rejected: no
/// output, the diagnostic on standard error and in the combined output,
/// exit code 1, no signal, no compile stage, and the request's own
/// language and version.
pub open spec fn rejected_view(e: Executor, status: u16, status_line: Seq<char>, body: Seq<char>) -> ExecResponseView {
    ExecResponseView {
        language: e.language@,
        version: e.version@,
        run: ExecResultView {
            stdout: Seq::empty(),
            stderr: rejection_text(status_line, body),
            output: rejection_text(status_line, body),
            code: 1,
            signal: None,
        },
        compile: None,
        status,
    }
}

/// The response for a reply that held a result: the result as the service
/// sent it, with the observed status.
pub open spec fn accepted_view(raw: RawExecResponse, status: u16) -> ExecResponseView {
    ExecResponseView {
        language: raw.language@,
        version: raw.version@,
        run: raw.run@,
        compile: opt_result(raw.compile),
        status,
    }
}

/// What a run request of `e` comes to for each kind of reply: an error
/// only where no reply arrived or its body could not be read; a response
/// in every other case, whatever the status.
pub open spec fn settled(e: Executor, reply: Reply) -> Result<ExecResponseView, ExecErrorView> {
    match reply {
        Reply::NoReply { message } => Err(ExecErrorView::Transport { message: message@ }),
        Reply::Decoded { status, raw } => Ok(accepted_view(raw, status)),
        Reply::Text { status, body } => Ok(rejected_view(e, status, status_display(status), body@)),
        Reply::Unreadable { status, message } => Err(ExecErrorView::Body { status, message: message@ }),
    }
}

/// A run request ends in an error exactly when no reply arrived or its
/// body could not be read; a reply with any status, success or not,
/// gives a response with that status, and a rejection's response has exit
/// code 1 and no compile stage.
pub proof fn lemma_error_only_without_reply(e: Executor, reply: Reply)
    ensures
        settled(e, reply) is Err <==> (reply is NoReply || reply is Unreadable),
        reply matches Reply::Decoded { status, .. } ==> settled(e, reply)->Ok_0.status == status,
        reply matches Reply::Text { status, .. } ==> {
            let r = settled(e, reply)->Ok_0;
            &&& r.status == status
            &&& r.run.code == 1
            &&& r.compile is None
            &&& r.language == e.language@
            &&& r.version == e.version@
        },
{
}

/// The outcome of a run request depends on the request's language and
/// version and on the reply alone: two runs that see the same reply end
/// alike.
pub proof fn lemma_settle_repeatable(
    e1: Executor,
    e2: Executor,
    reply: Reply,
    r1: Result<ExecResponse, ExecError>,
    r2: Result<ExecResponse, ExecError>,
)
    requires
        e1.language@ == e2.language@,
        e1.version@ == e2.version@,
        outcome_view(r1) == settled(e1, reply),
        outcome_view(r2) == settled(e2, reply),
    ensures
        outcome_view(r1) == outcome_view(r2),
{
}

/// The response for a request that the service rejected with `status`,
/// where `status_line` is how that status is displayed and `body` is the
/// text of the reply.
pub fn rejected_response(executor: &Executor, status: u16, status_line: &str, body: &str) -> (r: ExecResponse)
    ensures
        r@ == rejected_view(*executor, status, status_line@, body@),
{
    let text = String::from_str(status_line).concat(": ").concat(body);
    let run = ExecResult {
        stdout: String::new(),
        stderr: text.clone(),
        output: text,
        code: 1,
        signal: None,
    };
    ExecResponse {
        language: executor.language.clone(),
        version: executor.version.clone(),
        run,
        compile: None,
        status,
    }
}

impl Client {
    /// Where run requests are sent: the base URL followed by `/execute`.
    pub fn execute_url(&self) -> (r: String)
        ensures
            r@ == self@.url + "/execute"@,
    {
        self.get_url().concat("/execute")
    }

    /// Where the list of runtimes is fetched from: the base URL followed by
    /// `/runtimes`.
    pub fn runtimes_url(&self) -> (r: String)
        ensures
            r@ == self@.url + "/runtimes"@,
    {
        self.get_url().concat("/runtimes")
    }

    /// The outcome of a run request of `executor` that ended in `reply`.
    /// The request is read, never changed.
    pub fn settle_execute(executor: &Executor, reply: Reply) -> (r: Result<ExecResponse, ExecError>)
        requires
            is_valid_reply(reply),
        ensures
            outcome_view(r) == settled(*executor, reply),
    {
        match reply {
            Reply::NoReply { message } => Err(ExecError::Transport { message }),
            Reply::Decoded { status, raw } => Ok(
                ExecResponse {
                    language: raw.language,
                    version: raw.version,
                    run: raw.run,
                    compile: raw.compile,
                    status,
                },
            ),
            Reply::Text { status, body } => {
                let line = status_line(status);
                Ok(rejected_response(executor, status, line.as_str(), body.as_str()))
            },
            Reply::Unreadable { status, message } => Err(ExecError::Body { status, message }),
        }
    }
}

} // verus!
