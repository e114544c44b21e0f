use hyperexecute::dispatch::{after_database, after_redis, result_address, ClaimStep, PopStep, JOB_WAIT_SECS, MAX_CONCURRENT_JOBS};

#[test]
fn redis_job_is_taken_first() {
    match after_redis(Some("{\"a\":1}".to_string()), true) {
        PopStep::ParseJob(p) => assert_eq!(p, "{\"a\":1}"),
        _ => panic!("expected the Redis job"),
    }
    assert!(matches!(after_redis(None, true), PopStep::AskDatabase));
    assert!(matches!(after_redis(None, false), PopStep::NoJob));
    assert_eq!(JOB_WAIT_SECS, 5);
    assert_eq!(MAX_CONCURRENT_JOBS, 10);
}

#[test]
fn database_row_is_claimed() {
    match after_database(Some(("id".to_string(), "payload".to_string()))) {
        ClaimStep::Claim { job_id, payload } => assert_eq!((job_id.as_str(), payload.as_str()), ("id", "payload")),
        ClaimStep::NoJob => panic!("expected a claim"),
    }
    assert!(matches!(after_database(None), ClaimStep::NoJob));
}

#[test]
fn result_addresses() {
    let a = result_address(0x550e8400e29b41d4a716446655440000);
    assert_eq!(a.channel, "job_result:550e8400-e29b-41d4-a716-446655440000");
    assert_eq!(a.field, "550e8400-e29b-41d4-a716-446655440000");
    assert_ne!(result_address(1).channel, result_address(2).channel);
}
