use reclaim_cli::cli::{TaskCompletionFilter, TaskFilter};
use reclaim_cli::json::{json_parse, json_to_string, JsonValue};
use reclaim_cli::model::{
    apply_task_completion_filter, filter_active_tasks, is_active_task, status_indicates_completed,
    task_is_completed, task_of_json, Task,
};

fn test_task(id: u64, title: &str) -> Task {
    Task {
        id,
        title: title.to_string(),
        status: Some("NEW".to_string()),
        due: Some("2026-02-23T17:00:00Z".to_string()),
        priority: Some("P3".to_string()),
        notes: Some("note".to_string()),
        deleted: false,
        extra: vec![],
    }
}

fn fixture_with_extras() -> Task {
    Task {
        id: 7,
        title: "Ship release".to_string(),
        status: Some("NEW".to_string()),
        due: None,
        priority: Some("P2".to_string()),
        notes: None,
        deleted: false,
        extra: vec![
            ("snoozeUntil".to_string(), JsonValue::Text("2026-02-25T17:00:00Z".to_string())),
            ("zCustom".to_string(), JsonValue::Bool(true)),
        ],
    }
}

#[test]
fn task_round_trip_preserves_extension_fields() {
    let text = json_to_string(&fixture_with_extras().into_json());
    let parsed = json_parse(&text).expect("round-trip text should parse");
    let decoded = task_of_json(parsed).expect("round-trip value should decode");
    assert_eq!(decoded, fixture_with_extras());
}

#[test]
fn task_decode_tolerates_unknown_fields() {
    let parsed = json_parse(
        "{\"id\":3,\"title\":\"T\",\"unknownField\":{\"deep\":[1,2]},\"deleted\":false}",
    )
    .unwrap();
    let decoded = task_of_json(parsed).unwrap();
    assert_eq!(decoded.id, 3);
    assert_eq!(decoded.extra.len(), 1);
    assert_eq!(decoded.extra[0].0, "unknownField");
}

#[test]
fn pretty_rendering_indents_objects() {
    let value = json_parse("{\"a\":1}").unwrap();
    assert_eq!(reclaim_cli::json::json_to_pretty(&value), "{\n  \"a\": 1\n}");
}

#[test]
fn task_decode_requires_id() {
    let parsed = json_parse("{\"title\":\"T\"}").unwrap();
    let error = task_of_json(parsed).unwrap_err();
    assert_eq!(error, "missing field 'id'");
}

#[test]
fn status_indicates_completed_is_case_insensitive() {
    assert!(status_indicates_completed(Some("COMPLETED")));
    assert!(status_indicates_completed(Some("completed")));
    assert!(status_indicates_completed(Some("Done")));
    assert!(!status_indicates_completed(Some("NEW")));
    assert!(!status_indicates_completed(None));
}

#[test]
fn completion_defaults_to_open_without_signals() {
    let task = test_task(1, "One");
    assert!(!task_is_completed(&task));
}

#[test]
fn completion_reads_boolean_extension_field() {
    let mut task = test_task(1, "One");
    task.extra = vec![("completed".to_string(), JsonValue::Bool(true))];
    assert!(task_is_completed(&task));
}

#[test]
fn is_active_excludes_deleted_and_terminal_statuses() {
    let mut deleted = test_task(1, "One");
    deleted.deleted = true;
    let mut archived = test_task(2, "Two");
    archived.status = Some("ARCHIVED".to_string());
    let mut cancelled = test_task(3, "Three");
    cancelled.status = Some("CANCELLED".to_string());
    let open = test_task(4, "Four");
    assert!(!is_active_task(&deleted));
    assert!(!is_active_task(&archived));
    assert!(!is_active_task(&cancelled));
    assert!(is_active_task(&open));
}

#[test]
fn active_filter_keeps_only_the_active_task() {
    let mut deleted = test_task(1, "Gone");
    deleted.deleted = true;
    let active = test_task(2, "Here");
    let kept = filter_active_tasks(vec![deleted, active], TaskFilter::Active);
    assert_eq!(kept.len(), 1);
    assert_eq!(kept[0].id, 2);
}

#[test]
fn all_filter_keeps_everything() {
    let mut deleted = test_task(1, "Gone");
    deleted.deleted = true;
    let active = test_task(2, "Here");
    let kept = filter_active_tasks(vec![deleted, active], TaskFilter::All);
    assert_eq!(kept.len(), 2);
}

#[test]
fn apply_task_completion_filter_matches_status_field() {
    let mut tasks = vec![
        Task {
            id: 1,
            title: "Plan roadmap".to_string(),
            status: Some("OPEN".to_string()),
            due: None,
            priority: None,
            notes: None,
            deleted: false,
            extra: vec![],
        },
        Task {
            id: 2,
            title: "Archive docs".to_string(),
            status: Some("COMPLETED".to_string()),
            due: None,
            priority: None,
            notes: None,
            deleted: false,
            extra: vec![],
        },
    ];

    apply_task_completion_filter(&mut tasks, Some(TaskCompletionFilter::Completed));
    assert_eq!(tasks.len(), 1);
    assert_eq!(tasks[0].id, 2);
}

#[test]
fn apply_task_completion_filter_matches_completion_status_extra_field() {
    let completed_extra = vec![(
        "completionStatus".to_string(),
        JsonValue::Text("COMPLETED".to_string()),
    )];

    let mut tasks = vec![
        Task {
            id: 123,
            title: "Prepare launch checklist".to_string(),
            status: Some("OPEN".to_string()),
            due: None,
            priority: None,
            notes: None,
            deleted: false,
            extra: completed_extra,
        },
        Task {
            id: 999,
            title: "Other item".to_string(),
            status: Some("OPEN".to_string()),
            due: None,
            priority: None,
            notes: None,
            deleted: false,
            extra: vec![],
        },
    ];

    apply_task_completion_filter(&mut tasks, Some(TaskCompletionFilter::Completed));
    assert_eq!(tasks.len(), 1);
    assert_eq!(tasks[0].id, 123);
}

#[test]
fn apply_task_completion_filter_matches_boolean_extra_fields() {
    let completed_extra = vec![("completed".to_string(), JsonValue::Bool(true))];

    let mut tasks = vec![
        Task {
            id: 123,
            title: "Plan".to_string(),
            status: Some("OPEN".to_string()),
            due: None,
            priority: None,
            notes: None,
            deleted: false,
            extra: completed_extra,
        },
        Task {
            id: 456,
            title: "Build".to_string(),
            status: Some("OPEN".to_string()),
            due: None,
            priority: None,
            notes: None,
            deleted: false,
            extra: vec![],
        },
    ];

    apply_task_completion_filter(&mut tasks, Some(TaskCompletionFilter::Completed));
    assert_eq!(tasks.len(), 1);
    assert_eq!(tasks[0].id, 123);
}

#[test]
fn open_filter_keeps_the_open_task() {
    let mut done = test_task(1, "Done one");
    done.status = Some("completed".to_string());
    let open = test_task(2, "Open one");
    let mut tasks = vec![done, open];
    apply_task_completion_filter(&mut tasks, Some(TaskCompletionFilter::Open));
    assert_eq!(tasks.len(), 1);
    assert_eq!(tasks[0].id, 2);
}
