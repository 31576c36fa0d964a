use reclaim_cli::error::CliError;
use reclaim_cli::json::{json_parse, JsonValue};
use reclaim_cli::response::{
    extract_api_message, extract_request_id, hint_for_status, interpret_task_response,
    interpret_value_or_null_response, interpret_value_response, map_transport_error,
    parse_api_error,
};
use reclaim_cli::transport::RequestDebugInfo;

#[test]
fn parse_api_error_includes_request_and_response_context() {
    let headers = vec![("x-request-id".to_string(), "req-123".to_string())];
    let request_debug = RequestDebugInfo {
        method: "POST".to_string(),
        url: "https://api.app.reclaim.ai/api/tasks".to_string(),
        body: Some("{\"title\":\"fix??\",\"priority\":\"P4\"}".to_string()),
    };

    let error = parse_api_error(
        500,
        "{\"error\":\"internal_error\",\"detail\":\"validation failed\"}",
        "https://api.app.reclaim.ai/api/tasks",
        &headers,
        Some(&request_debug),
    );
    let rendered = error.render();

    assert!(rendered.contains("Reclaim API returned HTTP 500"));
    assert!(rendered.contains("Request: POST https://api.app.reclaim.ai/api/tasks"));
    assert!(rendered.contains("API message: internal_error"));
    assert!(rendered.contains("Raw response JSON"));
    assert!(rendered.contains("Request payload"));
    assert!(rendered.contains("Reclaim request id: req-123"));
}

#[test]
fn extract_api_message_reads_nested_errors_object() {
    let payload = json_parse(
        "{\"errors\":{\"priority\":[\"must be one of P1, P2, P3, P4\"]}}",
    )
    .expect("fixture should parse");

    assert_eq!(
        extract_api_message(&payload),
        Some("priority: must be one of P1, P2, P3, P4".to_string())
    );
}

#[test]
fn extract_api_message_prefers_message_field() {
    let payload = json_parse("{\"message\":\" boom \",\"error\":\"other\"}").unwrap();
    assert_eq!(extract_api_message(&payload), Some("boom".to_string()));
}

#[test]
fn extract_request_id_tries_names_in_order() {
    let headers = vec![
        ("x-request-id".to_string(), "   ".to_string()),
        ("x-correlation-id".to_string(), "corr-9".to_string()),
    ];
    assert_eq!(extract_request_id(&headers), Some("corr-9".to_string()));
    assert_eq!(extract_request_id(&vec![]), None);
}

#[test]
fn hint_for_status_names_each_class() {
    assert_eq!(
        hint_for_status(404),
        Some("Verify the task ID exists in your Reclaim account.".to_string())
    );
    assert_eq!(
        hint_for_status(429),
        Some("Rate limited by Reclaim. Wait a few seconds and retry.".to_string())
    );
    assert!(hint_for_status(503).unwrap().contains("5xx"));
    assert_eq!(hint_for_status(301), None);
}

#[test]
fn empty_error_body_falls_back_to_status_line() {
    let error = parse_api_error(502, "   ", "https://example.net/x", &vec![], None);
    let rendered = error.render();
    assert!(rendered.contains("API message: Request failed with HTTP 502."));
    assert!(rendered.contains("Raw response body: <empty>"));
    assert!(rendered.contains("Request: UNKNOWN https://example.net/x"));
}

#[test]
fn map_transport_error_classifies_timeout() {
    let error = map_transport_error(true, false, "deadline elapsed", None);
    let rendered = error.render();
    assert!(rendered.contains("timed out before receiving a response"));
    assert!(rendered.contains("deadline elapsed"));
    assert_eq!(error.hint(), Some("Try again or raise --timeout-secs."));
}

#[test]
fn map_transport_error_classifies_connection_failure() {
    let error = map_transport_error(false, true, "connection refused", None);
    assert!(error.render().contains("Could not connect to the Reclaim API"));
}

#[test]
fn successful_task_response_decodes() {
    let task = interpret_task_response(
        200,
        "{\"id\":5,\"title\":\"T\",\"deleted\":false}",
        "https://example.net/tasks/5",
        &vec![],
        None,
    )
    .expect("2xx task body should decode");
    assert_eq!(task.id, 5);
    assert_eq!(task.title, "T");
    assert!(!task.deleted);
}

#[test]
fn non_json_success_body_is_a_parse_error() {
    let error = interpret_task_response(200, "<html>", "https://example.net/t", &vec![], None)
        .unwrap_err();
    let rendered = error.render();
    assert!(rendered.contains("Reclaim API returned a non-JSON success response"));
    assert!(rendered.contains("Raw response body: <html>"));
    assert_eq!(
        error.hint(),
        Some("Keep the raw response body above when reporting this issue.")
    );
}

#[test]
fn non_success_status_is_an_api_error() {
    let error =
        interpret_value_response(404, "{}", "https://example.net/t", &vec![], None).unwrap_err();
    match error {
        CliError::Api { status, .. } => assert_eq!(status, 404),
        other => panic!("expected Api error, got {:?}", other),
    }
}

#[test]
fn event_list_body_must_be_an_array() {
    let error = reclaim_cli::response::interpret_value_list_response(
        200,
        "{\"events\":[]}",
        "https://example.net/events",
        &vec![],
        None,
    )
    .unwrap_err();
    assert!(error.render().contains("expected a JSON array"));
}

#[test]
fn delete_with_empty_body_is_null() {
    let value = interpret_value_or_null_response(204, "  ", "https://example.net/t", &vec![], None)
        .expect("empty delete body should be accepted");
    assert_eq!(value, JsonValue::Null);
}
