//! What the service reports back: one stage's result, the whole response,
//! and the runtimes it offers.

use vstd::prelude::*;

verus! {

/// The outcome of one stage of a run: compiling or running.
#[derive(Debug, Clone, PartialEq, Eq)]
pub struct ExecResult {
    pub stdout: String,
    pub stderr: String,
    /// Standard output and standard error, interleaved.
    pub output: String,
    /// The process's exit code.
    pub code: i64,
    /// The name of the signal that ended the process, if one did.
    pub signal: Option<String>,
}

pub struct ExecResultView {
    pub stdout: Seq<char>,
    pub stderr: Seq<char>,
    pub output: Seq<char>,
    pub code: int,
    pub signal: Option<Seq<char>>,
}

impl View for ExecResult {
    type V = ExecResultView;

    open spec fn view(&self) -> ExecResultView {
        ExecResultView {
            stdout: self.stdout@,
            stderr: self.stderr@,
            output: self.output@,
            code: self.code as int,
            signal: match self.signal {
                Some(s) => Some(s@),
                None => None,
            },
        }
    }
}

/// The view of an optional stage result.
pub open spec fn opt_result(o: Option<ExecResult>) -> Option<ExecResultView> {
    match o {
        Some(r) => Some(r@),
        None => None,
    }
}

/// The response to one request: what ran, how each stage ended, and the
/// HTTP status that the service answered with.
#[derive(Debug, Clone, PartialEq, Eq)]
pub struct ExecResponse {
    pub language: String,
    pub version: String,
    /// The run stage; present in every response.
    pub run: ExecResult,
    /// The compile stage, for languages that have one.
    pub compile: Option<ExecResult>,
    pub status: u16,
}

pub struct ExecResponseView {
    pub language: Seq<char>,
    pub version: Seq<char>,
    pub run: ExecResultView,
    pub compile: Option<ExecResultView>,
    pub status: u16,
}

impl View for ExecResponse {
    type V = ExecResponseView;

    open spec fn view(&self) -> ExecResponseView {
        ExecResponseView {
            language: self.language@,
            version: self.version@,
            run: self.run@,
            compile: opt_result(self.compile),
            status: self.status,
        }
    }
}

/// A response as the service sends it on success, before its status is
/// attached.
#[derive(Debug, Clone, PartialEq, Eq)]
pub struct RawExecResponse {
    pub language: String,
    pub version: String,
    pub run: ExecResult,
    pub compile: Option<ExecResult>,
}

/// A language that the service can run, in one version, with the other
/// names it goes by.
#[derive(Debug, Clone, PartialEq, Eq)]
pub struct Runtime {
    pub language: String,
    pub version: String,
    pub aliases: Vec<String>,
}

} // verus!
