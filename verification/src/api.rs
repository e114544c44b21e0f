//! The HTTP endpoints' requests and responses, and how an endpoint answers
//! each outcome of its work.
use vstd::prelude::*;
use vstd::string::*;
use crate::ids::nil_id;
use crate::models::{opt_text, CodeSnippet, ExecutionJob, ExecutionResult, Language};
use crate::runs::ResultView;
use crate::stamps::Timestamp;
use crate::text::join2;

verus! {

/// The status of a request that succeeded.
pub const STATUS_OK: u16 = 200;

/// The status of a lookup that found nothing.
pub const STATUS_NOT_FOUND: u16 = 404;

/// The status of a request that failed on the server's side.
pub const STATUS_INTERNAL_ERROR: u16 = 500;

/// A request to run code.
pub struct ExecuteRequest {
    pub language: Language,
    pub code: String,
}

/// The answer to a request to run code.
pub struct ExecuteResponse {
    pub job_id: u128,
    pub stdout: String,
    pub stderr: String,
    pub exit_code: i64,
    pub time_taken_ms: u64,
    pub error: Option<String>,
}

impl ExecuteResponse {
    pub open spec fn view(&self) -> ResultView {
        ResultView {
            job_id: self.job_id,
            stdout: self.stdout@,
            stderr: self.stderr@,
            exit_code: self.exit_code,
            time_taken_ms: self.time_taken_ms,
            error: opt_text(self.error),
        }
    }
}

/// A request to save code.
pub struct SaveRequest {
    pub language: Language,
    pub code: String,
}

/// The answer to a request to save code.
pub struct SaveResponse {
    pub snippet_id: u128,
}

/// The job that a request to run code becomes: the request's language and
/// code under a fresh identifier, with no owner and no input.
pub fn submitted_job(job_id: u128, request: ExecuteRequest) -> (job: ExecutionJob)
    ensures
        job.job_id == job_id,
        job.language == request.language,
        job.code@ == request.code@,
        job.user_id is None,
        job.stdin is None,
{
    ExecutionJob {
        job_id,
        language: request.language,
        code: request.code,
        user_id: None,
        stdin: None,
    }
}

/// The answer to a request to run code: the job's result with status 200, or,
/// when the job could not be run, status 500 with the error
/// `Failed to submit job: ` and the reason, exit code `-1` and no output.
pub fn execute_response(job_id: u128, outcome: Result<ExecutionResult, String>) -> (answer: (
    u16,
    ExecuteResponse,
))
    ensures
        outcome is Ok ==> answer.0 == STATUS_OK && answer.1@ == outcome->Ok_0@,
        outcome is Err ==> answer.0 == STATUS_INTERNAL_ERROR && answer.1@ == (ResultView {
            job_id,
            stdout: Seq::empty(),
            stderr: Seq::empty(),
            exit_code: -1i64,
            time_taken_ms: 0u64,
            error: Some("Failed to submit job: "@ + outcome->Err_0@),
        }),
{
    match outcome {
        Ok(result) => (
            STATUS_OK,
            ExecuteResponse {
                job_id: result.job_id,
                stdout: result.stdout,
                stderr: result.stderr,
                exit_code: result.exit_code,
                time_taken_ms: result.time_taken_ms,
                error: result.error,
            },
        ),
        Err(reason) => (
            STATUS_INTERNAL_ERROR,
            ExecuteResponse {
                job_id,
                stdout: String::new(),
                stderr: String::new(),
                exit_code: -1,
                time_taken_ms: 0,
                error: Some(join2("Failed to submit job: ", reason.as_str())),
            },
        ),
    }
}

/// The snippet that a request to save code becomes: the request's language and
/// code under a fresh identifier, owned by nobody (the nil identifier).
pub fn anonymous_snippet(id: u128, request: SaveRequest, created_at: Timestamp) -> (snippet:
    CodeSnippet)
    ensures
        snippet.id == id,
        snippet.user_id == 0,
        snippet.language == request.language,
        snippet.code@ == request.code@,
        snippet.created_at.parts() == created_at.parts(),
{
    CodeSnippet {
        id,
        user_id: nil_id(),
        language: request.language,
        code: request.code,
        created_at,
    }
}

/// The answer to a request to save code: the snippet's identifier with status
/// 200, or the nil identifier with status 500 when saving failed.
pub fn save_response(snippet_id: u128, saved: Result<(), String>) -> (answer: (u16, SaveResponse))
    ensures
        saved is Ok ==> answer.0 == STATUS_OK && answer.1.snippet_id == snippet_id,
        saved is Err ==> answer.0 == STATUS_INTERNAL_ERROR && answer.1.snippet_id == 0,
{
    match saved {
        Ok(()) => (STATUS_OK, SaveResponse { snippet_id }),
        Err(_) => (STATUS_INTERNAL_ERROR, SaveResponse { snippet_id: nil_id() }),
    }
}

/// The answer to a request to load code: the snippet with status 200, nothing
/// with status 404 when there is no such snippet, and nothing with status 500
/// when the lookup failed.
pub fn load_response(found: Result<Option<CodeSnippet>, String>) -> (answer: (
    u16,
    Option<CodeSnippet>,
))
    ensures
        found matches Ok(Some(s)) ==> answer.0 == STATUS_OK && (answer.1 is Some && answer.1->0@
            == s@),
        found matches Ok(None) ==> answer.0 == STATUS_NOT_FOUND && answer.1 is None,
        found is Err ==> answer.0 == STATUS_INTERNAL_ERROR && answer.1 is None,
{
    match found {
        Ok(Some(snippet)) => (STATUS_OK, Some(snippet)),
        Ok(None) => (STATUS_NOT_FOUND, None),
        Err(_) => (STATUS_INTERNAL_ERROR, None),
    }
}

} // verus!
