use hyperexecute::models::{CodeSnippet, Language};
use hyperexecute::records::{claimed_job, completed_result, restore_snippet, stored_snippet, StoredSnippet};
use hyperexecute::stamps::Timestamp;

const ID: u128 = 0x550e8400e29b41d4a716446655440000;

fn snippet() -> CodeSnippet {
    CodeSnippet {
        id: ID,
        user_id: 7,
        language: Language::JavaScript,
        code: "console.log(1)".to_string(),
        created_at: Timestamp::from_parts(1431648000, 0).unwrap(),
    }
}

#[test]
fn stored_columns() {
    let row = stored_snippet(&snippet());
    assert_eq!(row.id, "550e8400-e29b-41d4-a716-446655440000");
    assert_eq!(row.user_id, "00000000-0000-0000-0000-000000000007");
    assert_eq!(row.code, "console.log(1)");
    assert_eq!(row.created_at, "2015-05-15 00:00:00 UTC");
}

#[test]
fn stored_snippet_reads_back() {
    let s = snippet();
    let back = restore_snippet(&stored_snippet(&s), s.language).ok().unwrap();
    assert_eq!(back.id, s.id);
    assert_eq!(back.user_id, s.user_id);
    assert_eq!(back.language, s.language);
    assert_eq!(back.code, s.code);
    assert_eq!((back.created_at.secs(), back.created_at.nanos()), (1431648000, 0));
}

#[test]
fn bad_ids_are_errors() {
    let mut row = stored_snippet(&snippet());
    row.user_id = "nobody".to_string();
    assert!(restore_snippet(&row, Language::Python).is_err());
    let row = StoredSnippet {
        id: "x".to_string(),
        user_id: "00000000-0000-0000-0000-000000000007".to_string(),
        code: String::new(),
        created_at: String::new(),
    };
    assert!(restore_snippet(&row, Language::Python).is_err());
}

#[test]
fn unreadable_creation_time_is_epoch() {
    let mut row = stored_snippet(&snippet());
    row.created_at = "2024-13-45".to_string();
    let back = restore_snippet(&row, Language::Cpp).ok().unwrap();
    assert_eq!((back.created_at.secs(), back.created_at.nanos()), (0, 0));
}

#[test]
fn claimed_jobs() {
    let (id, payload) = claimed_job("550e8400-e29b-41d4-a716-446655440000", "{}".to_string()).ok().unwrap();
    assert_eq!(id, ID);
    assert_eq!(payload, "{}");
    assert!(claimed_job("bogus", "{}".to_string()).is_err());
}

#[test]
fn completed_results() {
    assert_eq!(completed_result(None), None);
    assert_eq!(completed_result(Some(None)), None);
    assert_eq!(completed_result(Some(Some("r".to_string()))), Some("r".to_string()));
}
