use hyperexecute::container::{
    collect_logs, container_limits, container_plan, container_result, LogFrame, WaitOutcome,
    MAX_EXECUTION_TIME_MS, MEMORY_LIMIT_BYTES,
};
use hyperexecute::models::{ExecutionJob, Language};

const ID: u128 = 0x550e8400e29b41d4a716446655440000;

#[test]
fn limits_forbid_swap_and_network() {
    let l = container_limits();
    assert_eq!(MEMORY_LIMIT_BYTES, 134_217_728);
    assert_eq!(l.memory, 134_217_728);
    assert_eq!(l.memory_swap, l.memory);
    assert_eq!(l.nano_cpus, 1_000_000_000);
    assert_eq!(l.network_mode, "none");
    assert_eq!(l.pids_limit, 64);
}

#[test]
fn container_plan_for_python() {
    let job = ExecutionJob {
        job_id: ID,
        language: Language::Python,
        code: "print('hi')".to_string(),
        user_id: None,
        stdin: None,
    };
    let plan = container_plan(&job);
    assert_eq!(plan.image, "python:3.10-alpine");
    assert_eq!(plan.name, "exec_550e8400-e29b-41d4-a716-446655440000");
    assert_eq!(
        plan.cmd,
        vec![
            "sh".to_string(),
            "-c".to_string(),
            "echo 'print('\\''hi'\\'')' > main.py && python main.py".to_string()
        ]
    );
}

#[test]
fn container_plan_for_cpp() {
    let job = ExecutionJob {
        job_id: ID,
        language: Language::Cpp,
        code: "int main(){}".to_string(),
        user_id: None,
        stdin: None,
    };
    let plan = container_plan(&job);
    assert_eq!(plan.image, "gcc:12");
    assert_eq!(
        plan.cmd[2],
        "echo 'int main(){}' > main.cpp && g++ -O3 main.cpp -o prog && ./prog"
    );
}

#[test]
fn quoted_code_survives_the_shell_word() {
    // Reading the word between `echo ` and ` >` back by shell rules gives the code.
    let code = "a'b''c\\";
    let job = ExecutionJob { job_id: ID, language: Language::JavaScript, code: code.to_string(), user_id: None, stdin: None };
    let plan = container_plan(&job);
    let word = &plan.cmd[2]["echo ".len()..plan.cmd[2].find(" > main.js").unwrap()];
    let mut out = String::new();
    let mut quoted = false;
    let mut chars = word.chars();
    while let Some(c) = chars.next() {
        if quoted {
            if c == '\'' { quoted = false } else { out.push(c) }
        } else if c == '\'' {
            quoted = true
        } else if c == '\\' {
            out.push(chars.next().unwrap())
        } else {
            out.push(c)
        }
    }
    assert_eq!(out, code);
}

#[test]
fn logs_are_split_by_stream_in_order() {
    let frames = vec![
        LogFrame::StdOut(b"a".to_vec()),
        LogFrame::StdErr(b"e1".to_vec()),
        LogFrame::Other,
        LogFrame::StdOut(vec![0xff]),
        LogFrame::Unreadable,
        LogFrame::StdErr(b"e2".to_vec()),
    ];
    let (out, err) = collect_logs(&frames);
    assert_eq!(out, "a\u{fffd}");
    assert_eq!(err, "e1e2");
}

#[test]
fn container_results_by_outcome() {
    assert_eq!(MAX_EXECUTION_TIME_MS, 5000);
    let frames = vec![LogFrame::StdOut(b"ok".to_vec())];
    let r = container_result(ID, 120, WaitOutcome::Exited(0), &frames);
    assert_eq!((r.job_id, r.exit_code, r.error.clone(), r.stdout.as_str()), (ID, 0, None, "ok"));
    let r = container_result(ID, 5001, WaitOutcome::Exited(0), &frames);
    assert_eq!((r.exit_code, r.error.as_deref()), (-1, Some("Execution timed out")));
    let r = container_result(ID, 5000, WaitOutcome::Failed, &frames);
    assert_eq!((r.exit_code, r.error.as_deref()), (-1, Some("Execution failed or killed")));
    assert_eq!(r.time_taken_ms, 5000);
}
