use hyperexecute::api::{
    anonymous_snippet, execute_response, load_response, save_response, submitted_job,
    ExecuteRequest, SaveRequest, STATUS_INTERNAL_ERROR, STATUS_NOT_FOUND, STATUS_OK,
};
use hyperexecute::models::{ExecutionResult, Language};
use hyperexecute::stamps::Timestamp;

#[test]
fn submitted_job_has_no_owner_or_input() {
    let job = submitted_job(9, ExecuteRequest { language: Language::Cpp, code: "x".to_string() });
    assert_eq!(job.job_id, 9);
    assert_eq!(job.language, Language::Cpp);
    assert_eq!(job.code, "x");
    assert!(job.user_id.is_none());
    assert!(job.stdin.is_none());
}

#[test]
fn execute_response_passes_result_through() {
    let result = ExecutionResult {
        job_id: 4,
        stdout: "o".to_string(),
        stderr: "e".to_string(),
        exit_code: 1,
        time_taken_ms: 30,
        error: None,
    };
    let (status, r) = execute_response(4, Ok(result));
    assert_eq!(status, STATUS_OK);
    assert_eq!((r.job_id, r.stdout.as_str(), r.stderr.as_str(), r.exit_code, r.time_taken_ms), (4, "o", "e", 1, 30));
    assert!(r.error.is_none());
}

#[test]
fn execute_response_on_failure() {
    let (status, r) = execute_response(5, Err("queue down".to_string()));
    assert_eq!(status, 500);
    assert_eq!(status, STATUS_INTERNAL_ERROR);
    assert_eq!((r.job_id, r.stdout.as_str(), r.stderr.as_str(), r.exit_code, r.time_taken_ms), (5, "", "", -1, 0));
    assert_eq!(r.error.as_deref(), Some("Failed to submit job: queue down"));
}

#[test]
fn anonymous_snippet_is_owned_by_nil() {
    let t = Timestamp::from_parts(10, 0).unwrap();
    let s = anonymous_snippet(3, SaveRequest { language: Language::Python, code: "c".to_string() }, t);
    assert_eq!((s.id, s.user_id, s.language, s.code.as_str()), (3, 0, Language::Python, "c"));
    assert_eq!(s.created_at.secs(), 10);
}

#[test]
fn save_responses() {
    let (status, r) = save_response(8, Ok(()));
    assert_eq!((status, r.snippet_id), (200, 8));
    let (status, r) = save_response(8, Err("locked".to_string()));
    assert_eq!((status, r.snippet_id), (500, 0));
}

#[test]
fn load_responses() {
    let t = Timestamp::from_parts(10, 0).unwrap();
    let s = anonymous_snippet(3, SaveRequest { language: Language::Python, code: "c".to_string() }, t);
    let (status, found) = load_response(Ok(Some(s)));
    assert_eq!(status, STATUS_OK);
    assert_eq!(found.unwrap().id, 3);
    let (status, found) = load_response(Ok(None));
    assert_eq!(status, STATUS_NOT_FOUND);
    assert!(found.is_none());
    let (status, found) = load_response(Err("io".to_string()));
    assert_eq!(status, 500);
    assert!(found.is_none());
}
