use pali_terminal::logging::{log_level_for_verbosity, LogLevel};
use pali_terminal::resolve::{is_full_id, resolve_partial_id, ResolveOutcome};
use pali_terminal::todo::Todo;
use pali_terminal::ID_DISPLAY_LENGTH;

#[test]
fn test_id_truncation() {
    let test_id = "abcdefghijklmnop"; // 16 characters
    let truncated = &test_id[..ID_DISPLAY_LENGTH];
    assert_eq!(truncated, "abcdefgh");
    assert_eq!(truncated.len(), ID_DISPLAY_LENGTH);
}

#[test]
fn test_full_uuid_detection() {
    let full_uuid = "d2fadfdb-5541-4ace-9443-d01cd917a640";
    assert!(full_uuid.len() >= 36 && full_uuid.contains('-'));
    assert!(is_full_id(full_uuid));

    let partial = "d2fadfdb";
    assert!(!(partial.len() >= 36 && partial.contains('-')));
    assert!(!is_full_id(partial));
}

#[test]
fn test_logging_levels() {
    // Test verbose count to log level mapping
    let test_cases = [
        (0, LogLevel::Warn),
        (1, LogLevel::Info),
        (2, LogLevel::Debug),
        (3, LogLevel::Trace),
        (10, LogLevel::Trace), // Any value >= 3 should be trace
    ];

    for (verbose_count, expected_level) in test_cases {
        assert_eq!(
            log_level_for_verbosity(verbose_count),
            expected_level,
            "verbose_count {} should map to {:?}",
            verbose_count,
            expected_level
        );
    }
}

fn sample_todo(id: &str, title: &str) -> Todo {
    Todo {
        id: id.to_string(),
        title: title.to_string(),
        description: None,
        completed: false,
        priority: 2,
        due_date: None,
        created_at: 1640995200,
        updated_at: 1640995200,
    }
}

#[test]
fn test_resolve_unique_prefix() {
    let todos = vec![
        sample_todo("d2fadfdb-5541-4ace-9443-d01cd917a640", "One"),
        sample_todo("9a1b2c3d-0000-4ace-9443-d01cd917a640", "Two"),
    ];
    match resolve_partial_id("d2fa", &todos) {
        ResolveOutcome::Resolved(id) => {
            assert_eq!(id, "d2fadfdb-5541-4ace-9443-d01cd917a640");
        }
        other => panic!("expected a unique match, got {:?}", other),
    }
}

#[test]
fn test_resolve_not_found_and_ambiguous() {
    let todos = vec![
        sample_todo("aabb0001-5541-4ace-9443-d01cd917a640", "One"),
        sample_todo("aabb0002-0000-4ace-9443-d01cd917a640", "Two"),
    ];
    assert!(matches!(
        resolve_partial_id("zzzz", &todos),
        ResolveOutcome::NotFound
    ));
    match resolve_partial_id("aabb", &todos) {
        ResolveOutcome::Ambiguous { matches } => {
            assert_eq!(matches.len(), 2);
        }
        other => panic!("expected ambiguity, got {:?}", other),
    }
}

#[test]
fn test_resolve_full_id_passes_through() {
    let todos: Vec<Todo> = Vec::new();
    match resolve_partial_id("d2fadfdb-5541-4ace-9443-d01cd917a640", &todos) {
        ResolveOutcome::Resolved(id) => {
            assert_eq!(id, "d2fadfdb-5541-4ace-9443-d01cd917a640");
        }
        other => panic!("expected pass-through, got {:?}", other),
    }
}
