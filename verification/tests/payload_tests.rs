use reclaim_cli::cli::{EventsApplyArgs, EventsCreateArgs, EventsDeleteArgs, EventsUpdateArgs, PatchArgs, Priority, PutArgs};
use reclaim_cli::error::CliError;
use reclaim_cli::json::{json_to_string, obj_get, JsonValue};
use reclaim_cli::payload::{
    build_event_create_request, build_event_delete_request, build_event_update_request,
    build_events_apply_request, build_patch_payload, parse_json_object_argument, parse_set_entry,
    parse_set_value, plan_put_payload, PutPayloadPlan,
};

fn action_of(request: &JsonValue) -> &Vec<(String, JsonValue)> {
    let entries = match request {
        JsonValue::Obj(entries) => entries,
        other => panic!("expected an object, got {:?}", other),
    };
    let actions = match obj_get(entries, "actionsTaken") {
        Some(JsonValue::Arr(items)) => items,
        other => panic!("expected actionsTaken array, got {:?}", other),
    };
    match &actions[0] {
        JsonValue::Obj(entries) => entries,
        other => panic!("expected an action object, got {:?}", other),
    }
}

#[test]
fn parse_set_value_supports_json_literals() {
    assert_eq!(parse_set_value("true"), JsonValue::Bool(true));
    assert_eq!(parse_set_value("42"), JsonValue::Num("42".to_string()));
    assert_eq!(
        parse_set_value("{\"nested\":1}"),
        JsonValue::Obj(vec![("nested".to_string(), JsonValue::Num("1".to_string()))])
    );
    assert_eq!(parse_set_value("P4"), JsonValue::Text("P4".to_string()));
}

#[test]
fn parse_json_object_argument_requires_object() {
    let error = parse_json_object_argument("[]", "--json").unwrap_err();
    assert!(error.render().contains("expected a JSON object"));
}

#[test]
fn parse_set_entry_requires_equals_sign() {
    let error = parse_set_entry("priority").unwrap_err();
    assert!(error.render().contains("Expected KEY=VALUE"));
}

#[test]
fn parse_set_entry_rejects_blank_key() {
    let error = parse_set_entry("  =1").unwrap_err();
    assert!(error.render().contains("key cannot be empty"));
}

#[test]
fn patch_with_nothing_fails_invalid_input() {
    let args = PatchArgs { task_id: 1, json: None, set: vec![], notification_key: None };
    let error = build_patch_payload(&args).unwrap_err();
    match &error {
        CliError::InvalidInput { message, .. } => {
            assert_eq!(message, "PATCH requires at least one field update.");
        }
        other => panic!("expected InvalidInput, got {:?}", other),
    }
}

#[test]
fn patch_with_overrides_builds_payload() {
    let args = PatchArgs {
        task_id: 1,
        json: None,
        set: vec!["priority=P4".to_string()],
        notification_key: None,
    };
    let payload = build_patch_payload(&args).unwrap();
    assert_eq!(json_to_string(&payload), "{\"priority\":\"P4\"}");
}

#[test]
fn later_stages_overwrite_earlier_keys() {
    let args = PatchArgs {
        task_id: 1,
        json: Some("{\"a\":1,\"b\":2}".to_string()),
        set: vec!["b=9".to_string(), "c=done".to_string()],
        notification_key: None,
    };
    let payload = build_patch_payload(&args).unwrap();
    let entries = match &payload {
        JsonValue::Obj(entries) => entries,
        other => panic!("expected an object, got {:?}", other),
    };
    assert_eq!(obj_get(entries, "a"), Some(&JsonValue::Num("1".to_string())));
    assert_eq!(obj_get(entries, "b"), Some(&JsonValue::Num("9".to_string())));
    assert_eq!(obj_get(entries, "c"), Some(&JsonValue::Text("done".to_string())));
    assert_eq!(json_to_string(&payload), "{\"a\":1,\"b\":9,\"c\":\"done\"}");
}

#[test]
fn put_with_nothing_fails_before_any_network_call() {
    let args = PutArgs { task_id: 1, json: None, set: vec![], notification_key: None };
    let error = plan_put_payload(&args).unwrap_err();
    assert!(error.render().contains("PUT requires update data"));
}

#[test]
fn put_with_only_overrides_fetches_current_task() {
    let args = PutArgs {
        task_id: 1,
        json: None,
        set: vec!["priority=P2".to_string()],
        notification_key: None,
    };
    assert_eq!(plan_put_payload(&args).unwrap(), PutPayloadPlan::FetchCurrent);
}

#[test]
fn put_with_blob_is_ready_with_overrides_applied() {
    let args = PutArgs {
        task_id: 1,
        json: Some("{\"title\":\"Plan sprint\"}".to_string()),
        set: vec!["priority=P2".to_string()],
        notification_key: None,
    };
    match plan_put_payload(&args).unwrap() {
        PutPayloadPlan::Ready(payload) => {
            assert_eq!(
                json_to_string(&payload),
                "{\"priority\":\"P2\",\"title\":\"Plan sprint\"}"
            );
        }
        other => panic!("expected Ready, got {:?}", other),
    }
}

#[test]
fn build_event_create_request_wraps_add_event_action() {
    let args = EventsCreateArgs {
        calendar_id: 829105,
        title: "Team sync".to_string(),
        start: "2026-02-21T18:30:00Z".to_string(),
        end: "2026-02-21T19:00:00Z".to_string(),
        policy_id: "00000000-0000-0000-0000-000000000000".to_string(),
        attendees: vec!["person@example.com".to_string()],
        description: None,
        location: None,
        priority: Some(Priority::P2),
        visibility: None,
        transparency: None,
        guests_can_modify: false,
        guests_can_invite_others: true,
        guests_can_see_other_guests: true,
        json: None,
        set: vec![],
    };

    let request = build_event_create_request(args).unwrap();
    let action = action_of(&request);
    assert_eq!(
        obj_get(action, "type"),
        Some(&JsonValue::Text("AddEventAction".to_string()))
    );
    assert_eq!(obj_get(action, "calendarId"), Some(&JsonValue::Num("829105".to_string())));
    assert_eq!(
        obj_get(action, "attendees"),
        Some(&JsonValue::Arr(vec![JsonValue::Obj(vec![(
            "email".to_string(),
            JsonValue::Text("person@example.com".to_string()),
        )])]))
    );
}

#[test]
fn build_event_update_request_requires_mutation_fields() {
    let args = EventsUpdateArgs {
        calendar_id: 829105,
        event_id: "abc123".to_string(),
        policy_id: "00000000-0000-0000-0000-000000000000".to_string(),
        title: None,
        description: None,
        location: None,
        priority: None,
        visibility: None,
        transparency: None,
        start: None,
        end: None,
        json: None,
        set: vec![],
    };

    let error = build_event_update_request(args).unwrap_err();
    assert!(error.render().contains("requires at least one field change"));
}

#[test]
fn build_event_update_request_requires_paired_range() {
    let args = EventsUpdateArgs {
        calendar_id: 829105,
        event_id: "abc123".to_string(),
        policy_id: "00000000-0000-0000-0000-000000000000".to_string(),
        title: None,
        description: None,
        location: None,
        priority: None,
        visibility: None,
        transparency: None,
        start: Some("2026-02-21T18:30:00Z".to_string()),
        end: None,
        json: None,
        set: vec![],
    };

    let error = build_event_update_request(args).unwrap_err();
    assert!(error.render().contains("--start and --end must be passed together"));
}

#[test]
fn build_event_delete_request_addresses_event_by_key() {
    let args = EventsDeleteArgs {
        calendar_id: 829105,
        event_id: "r2d260ojiopn".to_string(),
        policy_id: "00000000-0000-0000-0000-000000000000".to_string(),
        message: None,
    };

    let request = build_event_delete_request(args).unwrap();
    let action = action_of(&request);
    assert_eq!(
        obj_get(action, "type"),
        Some(&JsonValue::Text("CancelEventAction".to_string()))
    );
    assert_eq!(
        obj_get(action, "eventKey"),
        Some(&JsonValue::Text("829105/r2d260ojiopn".to_string()))
    );
}

#[test]
fn build_events_apply_request_requires_actions_taken() {
    let args = EventsApplyArgs { json: "{}".to_string() };

    let error = build_events_apply_request(&args.json).unwrap_err();
    assert!(error.render().contains("actionsTaken is required"));
}

#[test]
fn build_event_create_request_rejects_blank_policy() {
    let args = EventsCreateArgs {
        calendar_id: 1,
        title: "t".to_string(),
        start: "2026-02-21T18:30:00Z".to_string(),
        end: "2026-02-21T19:00:00Z".to_string(),
        policy_id: "   ".to_string(),
        attendees: vec![],
        description: None,
        location: None,
        priority: None,
        visibility: None,
        transparency: None,
        guests_can_modify: false,
        guests_can_invite_others: true,
        guests_can_see_other_guests: true,
        json: None,
        set: vec![],
    };

    let error = build_event_create_request(args).unwrap_err();
    assert!(error.render().contains("--policy-id value: it cannot be empty"));
}
