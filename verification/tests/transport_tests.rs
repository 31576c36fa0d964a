use reclaim_cli::cli::{CreateArgs, EventCategory, Priority};
use reclaim_cli::error::CliError;
use reclaim_cli::json::{json_to_string, JsonValue};
use reclaim_cli::model::EventListQuery;
use reclaim_cli::payload::build_create_task_request;
use reclaim_cli::transport::{HttpMethod, HttpReclaimApi};

fn api() -> HttpReclaimApi {
    HttpReclaimApi::new(
        Some("key".to_string()),
        "https://api.app.reclaim.ai/api".to_string(),
        15,
    )
    .expect("api should initialize")
}

fn create_args() -> CreateArgs {
    CreateArgs {
        title: "Plan Q1 roadmap".to_string(),
        notes: None,
        priority: Some(Priority::P2),
        due: None,
        time_chunks_required: None,
        event_category: EventCategory::Work,
        min_chunk_size: None,
        max_chunk_size: None,
        always_private: true,
    }
}

#[test]
fn base_url_gains_trailing_separator() {
    assert_eq!(api().base_url, "https://api.app.reclaim.ai/api/");
}

#[test]
fn base_url_with_separator_is_kept() {
    let api = HttpReclaimApi::new(
        Some("key".to_string()),
        "https://api.app.reclaim.ai/api/".to_string(),
        15,
    )
    .unwrap();
    assert_eq!(api.base_url, "https://api.app.reclaim.ai/api/");
}

#[test]
fn malformed_base_url_fails_fast() {
    let error =
        HttpReclaimApi::new(Some("key".to_string()), "not a url".to_string(), 15).unwrap_err();
    assert_eq!(error, CliError::InvalidBaseUrl("not a url".to_string()));
    assert_eq!(error.render(), "Invalid base URL: not a url");
}

#[test]
fn missing_api_key_fails_fast() {
    let error = HttpReclaimApi::new(None, "https://example.net".to_string(), 15).unwrap_err();
    assert_eq!(error, CliError::MissingApiKey);
    let blank =
        HttpReclaimApi::new(Some("   ".to_string()), "https://example.net".to_string(), 15)
            .unwrap_err();
    assert_eq!(blank, CliError::MissingApiKey);
}

#[test]
fn timeout_has_a_floor_of_one_second() {
    let api =
        HttpReclaimApi::new(Some("key".to_string()), "https://example.net".to_string(), 0).unwrap();
    assert_eq!(api.timeout_secs, 1);
}

#[test]
fn request_with_notification_key_adds_query_param() {
    let api = api();
    let plan = api.patch_task_plan(123, JsonValue::Obj(vec![]), Some("notif-123"));
    assert_eq!(plan.method, HttpMethod::Patch);
    assert_eq!(plan.path, "tasks/123");
    assert_eq!(
        plan.query,
        vec![("notificationKey".to_string(), "notif-123".to_string())]
    );
    let url = format!(
        "{}{}?{}={}",
        api.base_url, plan.path, plan.query[0].0, plan.query[0].1
    );
    assert_eq!(
        url,
        "https://api.app.reclaim.ai/api/tasks/123?notificationKey=notif-123"
    );
}

#[test]
fn request_with_notification_key_ignores_blank_value() {
    let api = api();
    let plan = api.delete_task_plan(123, Some("   "));
    assert_eq!(plan.method, HttpMethod::Delete);
    assert!(plan.query.is_empty());
    let url = format!("{}{}", api.base_url, plan.path);
    assert_eq!(url, "https://api.app.reclaim.ai/api/tasks/123");
}

#[test]
fn list_events_plan_assembles_query_pairs() {
    let query = EventListQuery {
        calendar_ids: vec![829105, 7],
        all_connected: Some(true),
        start: Some(" 2026-02-01 ".to_string()),
        end: Some("   ".to_string()),
        source_details: None,
        thin: Some(false),
    };
    let plan = api().list_events_plan(&query);
    assert_eq!(plan.path, "events");
    assert_eq!(
        plan.query,
        vec![
            ("calendarIds".to_string(), "829105".to_string()),
            ("calendarIds".to_string(), "7".to_string()),
            ("allConnected".to_string(), "true".to_string()),
            ("start".to_string(), "2026-02-01".to_string()),
            ("thin".to_string(), "false".to_string()),
        ]
    );
}

#[test]
fn get_event_plan_carries_optional_flags() {
    let plan = api().get_event_plan(829105, "r2d260ojiopn", Some(true), None);
    assert_eq!(plan.method, HttpMethod::Get);
    assert_eq!(plan.path, "events/829105/r2d260ojiopn");
    assert_eq!(plan.query, vec![("sourceDetails".to_string(), "true".to_string())]);
}

#[test]
fn create_task_plan_serializes_only_present_fields() {
    let request = build_create_task_request(create_args()).unwrap();
    let plan = api().create_task_plan(&request);
    assert_eq!(plan.method, HttpMethod::Post);
    assert_eq!(plan.path, "tasks");
    let body = plan.body.expect("create sends a body");
    assert_eq!(
        json_to_string(&body),
        "{\"alwaysPrivate\":true,\"eventCategory\":\"WORK\",\"priority\":\"P2\",\"title\":\"Plan Q1 roadmap\"}"
    );
}

#[test]
fn chunk_bounds_default_from_total() {
    let mut args = create_args();
    args.time_chunks_required = Some(4);
    let request = build_create_task_request(args).unwrap();
    assert_eq!(request.min_chunk_size, Some(1));
    assert_eq!(request.max_chunk_size, Some(4));
}

#[test]
fn min_chunk_size_above_total_is_rejected() {
    let mut args = create_args();
    args.time_chunks_required = Some(4);
    args.min_chunk_size = Some(5);
    let error = build_create_task_request(args).unwrap_err();
    assert_eq!(
        error.render(),
        "Invalid --min-chunk-size value: 5 exceeds --time-chunks-required (4)."
    );
}

#[test]
fn chunk_bounds_without_total_are_rejected() {
    let mut args = create_args();
    args.min_chunk_size = Some(2);
    let error = build_create_task_request(args).unwrap_err();
    assert!(error.render().contains("require --time-chunks-required"));
}

#[test]
fn crossed_chunk_bounds_are_rejected() {
    let mut args = create_args();
    args.time_chunks_required = Some(6);
    args.min_chunk_size = Some(4);
    args.max_chunk_size = Some(3);
    let error = build_create_task_request(args).unwrap_err();
    assert_eq!(
        error.render(),
        "Invalid chunk bounds: --min-chunk-size (4) cannot exceed --max-chunk-size (3)."
    );
}

#[test]
fn blank_due_is_rejected() {
    let mut args = create_args();
    args.due = Some("  ".to_string());
    let error = build_create_task_request(args).unwrap_err();
    assert_eq!(error.render(), "Invalid --due value: it cannot be empty.");
}
