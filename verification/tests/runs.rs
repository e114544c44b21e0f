use hyperexecute::models::{ExecutionJob, Language};
use hyperexecute::runs::{
    compile_failed_result, exe_file_name, interpreted_result, internal_error_result,
    local_compile_failed_result, local_exit_result, server_plan, source_file_name, worker_plan,
    RunOutcome, RUN_TIMEOUT_SECS,
};

const ID: u128 = 0x550e8400e29b41d4a716446655440000;
const ID_TEXT: &str = "550e8400-e29b-41d4-a716-446655440000";

fn job(language: Language) -> ExecutionJob {
    ExecutionJob { job_id: ID, language, code: "print(1)".to_string(), user_id: None, stdin: None }
}

#[test]
fn file_names_carry_the_job_id() {
    assert_eq!(source_file_name(ID, Language::Python), format!("temp_{}.py", ID_TEXT));
    assert_eq!(source_file_name(ID, Language::Cpp), format!("temp_{}.cpp", ID_TEXT));
    assert_eq!(source_file_name(ID, Language::JavaScript), format!("temp_{}.js", ID_TEXT));
    assert_eq!(exe_file_name(ID), format!("temp_{}.exe", ID_TEXT));
}

#[test]
fn distinct_jobs_get_distinct_files() {
    assert_ne!(source_file_name(1, Language::Python), source_file_name(2, Language::Python));
    assert_ne!(exe_file_name(1), exe_file_name(2));
}

#[test]
fn server_plan_runs_interpreted_languages_directly() {
    let plan = server_plan(&job(Language::Python));
    let src = format!("temp_{}.py", ID_TEXT);
    assert_eq!(plan.source_file, src);
    assert!(plan.compile.is_none());
    assert_eq!(plan.run, vec!["python".to_string(), src.clone()]);
    assert_eq!(plan.cleanup, vec![src]);
    let plan = server_plan(&job(Language::JavaScript));
    assert_eq!(plan.run[0], "node");
}

#[test]
fn server_plan_compiles_cpp_first() {
    let plan = server_plan(&job(Language::Cpp));
    let src = format!("temp_{}.cpp", ID_TEXT);
    let exe = format!("temp_{}.exe", ID_TEXT);
    assert_eq!(
        plan.compile,
        Some(vec!["g++".to_string(), "-O2".to_string(), src.clone(), "-o".to_string(), exe.clone()])
    );
    assert_eq!(plan.run, vec![format!("./{}", exe)]);
    assert_eq!(plan.cleanup, vec![src, exe]);
}

#[test]
fn worker_plan_compiles_cpp_with_o3() {
    let plan = worker_plan(&job(Language::Cpp));
    assert_eq!(plan.compile.unwrap()[1], "-O3");
    let plan = worker_plan(&job(Language::Python));
    assert_eq!(plan.run, vec!["python".to_string(), format!("temp_{}.py", ID_TEXT)]);
}

#[test]
fn spawn_failure_result() {
    let r = interpreted_result(ID, RunOutcome::SpawnFailed("no such file".to_string()), 3);
    assert_eq!(r.job_id, ID);
    assert_eq!(r.stdout, "");
    assert_eq!(r.stderr, "Failed to spawn: no such file");
    assert_eq!(r.exit_code, -1);
    assert_eq!(r.time_taken_ms, 3);
    assert_eq!(r.error.as_deref(), Some("Process error: no such file"));
}

#[test]
fn exited_result_decodes_output() {
    let r = interpreted_result(
        ID,
        RunOutcome::Exited { stdout: b"hi\n".to_vec(), stderr: vec![0xff, b'x'], code: Some(3) },
        12,
    );
    assert_eq!(r.stdout, "hi\n");
    assert_eq!(r.stderr, "\u{fffd}x");
    assert_eq!(r.exit_code, 3);
    assert_eq!(r.time_taken_ms, 12);
    assert_eq!(r.error, None);
    let r = interpreted_result(ID, RunOutcome::Exited { stdout: vec![], stderr: vec![], code: None }, 1);
    assert_eq!(r.exit_code, -1);
}

#[test]
fn wait_failure_result() {
    let r = interpreted_result(ID, RunOutcome::WaitFailed("gone".to_string()), 4);
    assert_eq!(r.stderr, "Failed to wait: gone");
    assert_eq!(r.error.as_deref(), Some("Process error: gone"));
    assert_eq!(r.exit_code, -1);
}

#[test]
fn timeout_result() {
    assert_eq!(RUN_TIMEOUT_SECS, 10);
    let r = interpreted_result(ID, RunOutcome::TimedOut, 10001);
    assert_eq!(r.stdout, "");
    assert_eq!(r.stderr, "");
    assert_eq!(r.exit_code, -1);
    assert_eq!(r.time_taken_ms, 10001);
    assert_eq!(r.error.as_deref(), Some("Execution timed out (10s limit)"));
}

#[test]
fn compile_failure_results() {
    let r = compile_failed_result(ID, b"error: x", 9);
    assert_eq!(r.stderr, "error: x");
    assert_eq!(r.error.as_deref(), Some("Compilation failed"));
    assert_eq!(r.exit_code, -1);
    let r = local_compile_failed_result(ID, 8);
    assert_eq!(r.stderr, "Compilation failed");
    assert_eq!(r.error.as_deref(), Some("Compilation Error"));
    assert_eq!(r.time_taken_ms, 8);
}

#[test]
fn local_exit_and_internal_error_results() {
    let r = local_exit_result(ID, b"out", b"err", Some(0), 5);
    assert_eq!((r.stdout.as_str(), r.stderr.as_str(), r.exit_code, r.error), ("out", "err", 0, None));
    let r = internal_error_result(ID, "disk full");
    assert_eq!(r.job_id, ID);
    assert_eq!(r.time_taken_ms, 0);
    assert_eq!(r.exit_code, -1);
    assert_eq!(r.error.as_deref(), Some("Internal Execute Error: disk full"));
}
