//! The response interpreter: distinguishes transport failures from
//! HTTP-level failures from payload-shape failures, and attaches forensic
//! context (request method, URL and body; response status, headers and
//! body; upstream request id) plus a status-specific remediation hint to
//! each.

use vstd::prelude::*;
use vstd::string::*;

use crate::error::CliError;
use crate::json::{
    json_parse, lemma_arr_model_rec, pretty_json_or_raw, sget, spec_json_parse,
    spec_json_pretty, Json, JsonValue,
};
use crate::model::{spec_task_of_json, spec_tasks_of_json, task_of_json, tasks_of_json, Task};
use crate::text::{
    spec_decimal, spec_trim, spec_truncate, str_eq, trim_str, truncate_debug_text, u64_to_dec,
};
use crate::transport::{opt_debug_view, DebugModel, RequestDebugInfo};

verus! {

/// Character budget for raw-body and payload dumps in error messages.
pub const DEBUG_BODY_LIMIT: usize = 8192;

/// Character budget for inline error summaries.
pub const DEBUG_SUMMARY_LIMIT: usize = 512;

pub open spec fn spec_hint_for_status(status: u16) -> Option<Seq<char>> {
    if status == 400 || status == 422 {
        Some(
            "Check command arguments and inspect the raw response JSON above for field-level validation details."@,
        )
    } else if status == 401 || status == 403 {
        Some("Set a valid API key with RECLAIM_API_KEY or --api-key, then retry."@)
    } else if status == 404 {
        Some("Verify the task ID exists in your Reclaim account."@)
    } else if status == 429 {
        Some("Rate limited by Reclaim. Wait a few seconds and retry."@)
    } else if 500 <= status <= 599 {
        Some(
            "Reclaim returned a 5xx. This can be an outage OR a rejected payload surfaced as internal_error. Compare the request payload above with a known-good request."@,
        )
    } else {
        None
    }
}

/// The remediation hint for a non-2xx status: argument checks for 400/422,
/// credential hints for 401/403, identifier checks for 404, backoff for
/// 429, and the ambiguous-fault hint for 5xx.
pub fn hint_for_status(status: u16) -> (r: Option<String>)
    ensures
        match r {
            Some(h) => spec_hint_for_status(status) == Some(h@),
            None => spec_hint_for_status(status) is None,
        },
{
    if status == 400 || status == 422 {
        Some(
            String::from_str(
                "Check command arguments and inspect the raw response JSON above for field-level validation details.",
            ),
        )
    } else if status == 401 || status == 403 {
        Some(String::from_str("Set a valid API key with RECLAIM_API_KEY or --api-key, then retry."))
    } else if status == 404 {
        Some(String::from_str("Verify the task ID exists in your Reclaim account."))
    } else if status == 429 {
        Some(String::from_str("Rate limited by Reclaim. Wait a few seconds and retry."))
    } else if 500 <= status && status <= 599 {
        Some(
            String::from_str(
                "Reclaim returned a 5xx. This can be an outage OR a rejected payload surfaced as internal_error. Compare the request payload above with a known-good request.",
            ),
        )
    } else {
        None
    }
}

/// Pretty-printed when the text is JSON, raw otherwise.
pub open spec fn spec_pretty_or_raw(s: Seq<char>) -> Seq<char> {
    match spec_json_parse(s) {
        Some(j) => spec_json_pretty(j),
        None => s,
    }
}

/// The reconstructed request context appended to transport errors: empty
/// without a snapshot, else the request line and, when captured, the
/// payload truncated to the summary budget.
pub open spec fn spec_request_context(d: Option<DebugModel>) -> Seq<char> {
    match d {
        None => Seq::empty(),
        Some(d) => "\nRequest: "@ + d.method + " "@ + d.url + match d.body {
            Some(p) => "\nRequest payload: "@ + spec_truncate(
                spec_pretty_or_raw(p),
                DEBUG_SUMMARY_LIMIT as nat,
            ),
            None => Seq::empty(),
        },
    }
}

/// Renders the request context for a transport error message.
pub fn format_request_context(request_debug: Option<&RequestDebugInfo>) -> (r: String)
    ensures
        r@ == spec_request_context(opt_debug_view(request_debug)),
{
    match request_debug {
        None => String::new(),
        Some(d) => {
            let mut out = String::from_str("\nRequest: ");
            out.append(d.method.as_str());
            out.append(" ");
            out.append(d.url.as_str());
            if let Some(p) = &d.body {
                out.append("\nRequest payload: ");
                let pretty = pretty_json_or_raw(p.as_str());
                let truncated = truncate_debug_text(pretty.as_str(), DEBUG_SUMMARY_LIMIT);
                out.append(truncated.as_str());
            }
            out
        },
    }
}

pub open spec fn spec_transport_error(
    is_timeout: bool,
    is_connect: bool,
    error_text: Seq<char>,
    d: Option<DebugModel>,
) -> (Seq<char>, Seq<char>) {
    let ctx = spec_request_context(d);
    if is_timeout {
        (
            "Request to Reclaim timed out before receiving a response. Source error: "@
                + error_text + ctx,
            "Try again or raise --timeout-secs."@,
        )
    } else if is_connect {
        (
            "Could not connect to the Reclaim API. Source error: "@ + error_text + ctx,
            "Check network access and confirm --base-url is correct."@,
        )
    } else {
        (
            "Request failed before receiving a usable API response. Source error: "@ + error_text
                + ctx,
            "Retry. If this keeps happening, verify your network and API key."@,
        )
    }
}

/// Classifies a network-level failure as a timeout, a connection failure,
/// or a generic transport failure, carrying the original error text and
/// the reconstructed request context.
pub fn map_transport_error(
    is_timeout: bool,
    is_connect: bool,
    error_text: &str,
    request_debug: Option<&RequestDebugInfo>,
) -> (r: CliError)
    ensures
        r matches CliError::Transport { message, hint } && ({
            let e = spec_transport_error(
                is_timeout,
                is_connect,
                error_text@,
                opt_debug_view(request_debug),
            );
            message@ == e.0 && match hint {
                Some(h) => h@ == e.1,
                None => false,
            }
        }),
{
    let ctx = format_request_context(request_debug);
    if is_timeout {
        let mut message = String::from_str(
            "Request to Reclaim timed out before receiving a response. Source error: ",
        );
        message.append(error_text);
        message.append(ctx.as_str());
        CliError::Transport {
            message,
            hint: Some(String::from_str("Try again or raise --timeout-secs.")),
        }
    } else if is_connect {
        let mut message = String::from_str(
            "Could not connect to the Reclaim API. Source error: ",
        );
        message.append(error_text);
        message.append(ctx.as_str());
        CliError::Transport {
            message,
            hint: Some(
                String::from_str("Check network access and confirm --base-url is correct."),
            ),
        }
    } else {
        let mut message = String::from_str(
            "Request failed before receiving a usable API response. Source error: ",
        );
        message.append(error_text);
        message.append(ctx.as_str());
        CliError::Transport {
            message,
            hint: Some(
                String::from_str(
                    "Retry. If this keeps happening, verify your network and API key.",
                ),
            ),
        }
    }
}

pub open spec fn spec_body_read_error_message(
    error_text: Seq<char>,
    d: Option<DebugModel>,
) -> Seq<char> {
    "Could not read Reclaim API response body: "@ + error_text + "\n"@ + spec_request_context(d)
}

/// The transport error reported when the response body itself cannot be
/// read.
pub fn body_read_error(error_text: &str, request_debug: Option<&RequestDebugInfo>) -> (r: CliError)
    ensures
        r matches CliError::Transport { message, hint } && message@
            == spec_body_read_error_message(error_text@, opt_debug_view(request_debug)) && match hint {
            Some(h) => h@
                == "Retry the command. If this repeats, capture the output and file a bug."@,
            None => false,
        },
{
    let mut message = String::from_str("Could not read Reclaim API response body: ");
    message.append(error_text);
    message.append("\n");
    let ctx = format_request_context(request_debug);
    message.append(ctx.as_str());
    CliError::Transport {
        message,
        hint: Some(
            String::from_str(
                "Retry the command. If this repeats, capture the output and file a bug.",
            ),
        ),
    }
}

/// Object field lookup on any JSON value: `None` off objects.
pub open spec fn jget(j: Json, key: Seq<char>) -> Option<Json> {
    if j is Obj {
        sget(j->Obj_0, key)
    } else {
        None
    }
}

/// A top-level text field, trimmed, when present and non-blank.
pub open spec fn spec_try_text_field(j: Json, key: Seq<char>) -> Option<Seq<char>> {
    match jget(j, key) {
        Some(v) => if v is Text && spec_trim(v->Text_0).len() > 0 {
            Some(spec_trim(v->Text_0))
        } else {
            None
        },
        None => None,
    }
}

fn try_text_field(value: &JsonValue, key: &str) -> (r: Option<String>)
    ensures
        match r {
            Some(s) => spec_try_text_field(value@, key@) == Some(s@),
            None => spec_try_text_field(value@, key@) is None,
        },
{
    let entries = match value {
        JsonValue::Obj(entries) => entries,
        _ => {
            return None;
        },
    };
    proof {
        crate::json::lemma_entries_model_rec(entries@);
    }
    match crate::json::obj_get(entries, key) {
        Some(JsonValue::Text(s)) => {
            let trimmed = trim_str(s.as_str());
            if trimmed.as_str().unicode_len() > 0 {
                Some(trimmed)
            } else {
                None
            }
        },
        _ => None,
    }
}

/// The message found inside an `errors` array: the first string item, or
/// the first item with a string `message` field.
pub open spec fn spec_arr_errors(items: Seq<Json>) -> Option<Seq<char>>
    decreases items.len(),
{
    if items.len() == 0 {
        None
    } else if items[0] is Text {
        Some(items[0]->Text_0)
    } else {
        match jget(items[0], "message"@) {
            Some(m) => if m is Text {
                Some(m->Text_0)
            } else {
                spec_arr_errors(items.drop_first())
            },
            None => spec_arr_errors(items.drop_first()),
        }
    }
}

/// The message found inside one field of an `errors` object: the string
/// value, or the first usable item of an array value, prefixed with the
/// field name.
pub open spec fn spec_field_errors(field: Seq<char>, v: Json) -> Option<Seq<char>> {
    if v is Text {
        Some(field + ": "@ + v->Text_0)
    } else if v is Arr {
        match spec_arr_errors(v->Arr_0) {
            Some(m) => Some(field + ": "@ + m),
            None => None,
        }
    } else {
        None
    }
}

/// The message found inside an `errors` object: the first field that
/// yields one.
pub open spec fn spec_obj_errors(entries: Seq<(Seq<char>, Json)>) -> Option<Seq<char>>
    decreases entries.len(),
{
    if entries.len() == 0 {
        None
    } else {
        match spec_field_errors(entries[0].0, entries[0].1) {
            Some(m) => Some(m),
            None => spec_obj_errors(entries.drop_first()),
        }
    }
}

/// The human-readable message carried by a nested `errors` value: a
/// string, an array of strings or of objects with a `message`, or an
/// object mapping field names to either — first match wins.
pub open spec fn spec_errors_message(e: Json) -> Option<Seq<char>> {
    if e is Text {
        Some(e->Text_0)
    } else if e is Arr {
        spec_arr_errors(e->Arr_0)
    } else if e is Obj {
        spec_obj_errors(e->Obj_0)
    } else {
        None
    }
}

#[verifier::loop_isolation(false)]
fn arr_errors(items: &Vec<JsonValue>) -> (r: Option<String>)
    ensures
        match r {
            Some(s) => spec_arr_errors(crate::json::arr_model_rec(items@)) == Some(s@),
            None => spec_arr_errors(crate::json::arr_model_rec(items@)) is None,
        },
{
    proof {
        lemma_arr_model_rec(items@);
    }
    let ghost full = crate::json::arr_model_rec(items@);
    proof {
        assert(full.skip(0) =~= full);
    }
    let mut i: usize = 0;
    while i < items.len()
        invariant
            0 <= i <= items@.len(),
            full.len() == items@.len(),
            forall|k: int| 0 <= k < items@.len() ==> full[k] == #[trigger] items@[k]@,
            spec_arr_errors(full) == spec_arr_errors(full.skip(i as int)),
        decreases items@.len() - i,
    {
        proof {
            assert(full.skip(i as int)[0] == full[i as int]);
            assert(full.skip(i as int).drop_first() =~= full.skip(i as int + 1));
        }
        match &items[i] {
            JsonValue::Text(s) => {
                return Some(s.clone());
            },
            other => {
                if let Some(m) = try_message_field(other) {
                    return Some(m);
                }
            },
        }
        i = i + 1;
    }
    proof {
        assert(full.skip(items@.len() as int) =~= Seq::<Json>::empty());
    }
    None
}

/// The string `message` field of an item, when the item is an object
/// carrying one.
fn try_message_field(item: &JsonValue) -> (r: Option<String>)
    ensures
        match r {
            Some(s) => jget(item@, "message"@) matches Some(m) && m is Text && m->Text_0 == s@,
            None => !(jget(item@, "message"@) matches Some(m) && m is Text),
        },
{
    let entries = match item {
        JsonValue::Obj(entries) => entries,
        _ => {
            return None;
        },
    };
    proof {
        crate::json::lemma_entries_model_rec(entries@);
    }
    match crate::json::obj_get(entries, "message") {
        Some(JsonValue::Text(s)) => Some(s.clone()),
        _ => None,
    }
}

fn field_errors(field: &String, v: &JsonValue) -> (r: Option<String>)
    ensures
        match r {
            Some(s) => spec_field_errors(field@, v@) == Some(s@),
            None => spec_field_errors(field@, v@) is None,
        },
{
    match v {
        JsonValue::Text(s) => {
            let mut out = field.clone();
            out.append(": ");
            out.append(s.as_str());
            Some(out)
        },
        JsonValue::Arr(items) => {
            match arr_errors(items) {
                Some(m) => {
                    let mut out = field.clone();
                    out.append(": ");
                    out.append(m.as_str());
                    Some(out)
                },
                None => None,
            }
        },
        _ => None,
    }
}

/// Extracts a human-readable message from a nested `errors` value.
#[verifier::loop_isolation(false)]
pub fn extract_errors_message(errors: &JsonValue) -> (r: Option<String>)
    ensures
        match r {
            Some(s) => spec_errors_message(errors@) == Some(s@),
            None => spec_errors_message(errors@) is None,
        },
{
    match errors {
        JsonValue::Text(s) => Some(s.clone()),
        JsonValue::Arr(items) => {
            proof {
                lemma_arr_model_rec(items@);
            }
            arr_errors(items)
        },
        JsonValue::Obj(entries) => {
            proof {
                crate::json::lemma_entries_model_rec(entries@);
            }
            let ghost full = crate::json::entries_model(entries@);
            proof {
                assert(full.skip(0) =~= full);
            }
            let mut i: usize = 0;
            while i < entries.len()
                invariant
                    0 <= i <= entries@.len(),
                    full.len() == entries@.len(),
                    full == crate::json::entries_model(entries@),
                    spec_obj_errors(full) == spec_obj_errors(full.skip(i as int)),
                decreases entries@.len() - i,
            {
                proof {
                    assert(full.skip(i as int)[0] == full[i as int]);
                    assert(full.skip(i as int).drop_first() =~= full.skip(i as int + 1));
                }
                if let Some(m) = field_errors(&entries[i].0, &entries[i].1) {
                    return Some(m);
                }
                i = i + 1;
            }
            proof {
                assert(full.skip(entries@.len() as int) =~= Seq::<(Seq<char>, Json)>::empty());
            }
            None
        },
        _ => None,
    }
}

/// The extracted API message of an error body: the first non-blank of the
/// `message`, `title`, `error` and `detail` text fields, then whatever a
/// nested `errors` value yields, trimmed and non-blank.
pub open spec fn spec_extract_api_message(j: Json) -> Option<Seq<char>> {
    match spec_try_text_field(j, "message"@) {
        Some(m) => Some(m),
        None => match spec_try_text_field(j, "title"@) {
            Some(m) => Some(m),
            None => match spec_try_text_field(j, "error"@) {
                Some(m) => Some(m),
                None => match spec_try_text_field(j, "detail"@) {
                    Some(m) => Some(m),
                    None => match jget(j, "errors"@) {
                        Some(e) => match spec_errors_message(e) {
                            Some(m) => if spec_trim(m).len() > 0 {
                                Some(spec_trim(m))
                            } else {
                                None
                            },
                            None => None,
                        },
                        None => None,
                    },
                },
            },
        },
    }
}

/// Extracts the human-readable message of a parsed error body.
pub fn extract_api_message(value: &JsonValue) -> (r: Option<String>)
    ensures
        match r {
            Some(s) => spec_extract_api_message(value@) == Some(s@),
            None => spec_extract_api_message(value@) is None,
        },
{
    if let Some(m) = try_text_field(value, "message") {
        return Some(m);
    }
    if let Some(m) = try_text_field(value, "title") {
        return Some(m);
    }
    if let Some(m) = try_text_field(value, "error") {
        return Some(m);
    }
    if let Some(m) = try_text_field(value, "detail") {
        return Some(m);
    }
    let entries = match value {
        JsonValue::Obj(entries) => entries,
        _ => {
            return None;
        },
    };
    proof {
        crate::json::lemma_entries_model_rec(entries@);
    }
    match crate::json::obj_get(entries, "errors") {
        Some(errors) => match extract_errors_message(errors) {
            Some(m) => {
                let trimmed = trim_str(m.as_str());
                if trimmed.as_str().unicode_len() > 0 {
                    Some(trimmed)
                } else {
                    None
                }
            },
            None => None,
        },
        None => None,
    }
}

/// The upstream request id, read from the conventional header names in
/// order; a present-but-blank header falls through to the next name.
pub open spec fn spec_header_get(
    headers: Seq<(Seq<char>, Seq<char>)>,
    name: Seq<char>,
) -> Option<Seq<char>>
    decreases headers.len(),
{
    if headers.len() == 0 {
        None
    } else if headers[0].0 == name {
        Some(headers[0].1)
    } else {
        spec_header_get(headers.drop_first(), name)
    }
}

pub open spec fn spec_try_header(
    headers: Seq<(Seq<char>, Seq<char>)>,
    name: Seq<char>,
) -> Option<Seq<char>> {
    match spec_header_get(headers, name) {
        Some(v) => if spec_trim(v).len() > 0 {
            Some(spec_trim(v))
        } else {
            None
        },
        None => None,
    }
}

pub open spec fn spec_extract_request_id(headers: Seq<(Seq<char>, Seq<char>)>) -> Option<
    Seq<char>,
> {
    match spec_try_header(headers, "x-request-id"@) {
        Some(v) => Some(v),
        None => match spec_try_header(headers, "x-correlation-id"@) {
            Some(v) => Some(v),
            None => spec_try_header(headers, "x-amzn-trace-id"@),
        },
    }
}

#[verifier::loop_isolation(false)]
fn header_get<'a>(headers: &'a Vec<(String, String)>, name: &str) -> (r: Option<&'a String>)
    ensures
        match r {
            Some(v) => spec_header_get(crate::transport::pairs_model(headers@), name@) == Some(
                v@,
            ),
            None => spec_header_get(crate::transport::pairs_model(headers@), name@) is None,
        },
{
    let ghost full = crate::transport::pairs_model(headers@);
    proof {
        assert(full.skip(0) =~= full);
    }
    let mut i: usize = 0;
    while i < headers.len()
        invariant
            0 <= i <= headers@.len(),
            full.len() == headers@.len(),
            spec_header_get(full, name@) == spec_header_get(full.skip(i as int), name@),
        decreases headers@.len() - i,
    {
        proof {
            assert(full.skip(i as int)[0] == full[i as int]);
            assert(full.skip(i as int).drop_first() =~= full.skip(i as int + 1));
        }
        if str_eq(headers[i].0.as_str(), name) {
            return Some(&headers[i].1);
        }
        i = i + 1;
    }
    proof {
        assert(full.skip(headers@.len() as int) =~= Seq::<(Seq<char>, Seq<char>)>::empty());
    }
    None
}

fn try_header(headers: &Vec<(String, String)>, name: &str) -> (r: Option<String>)
    ensures
        match r {
            Some(v) => spec_try_header(crate::transport::pairs_model(headers@), name@) == Some(
                v@,
            ),
            None => spec_try_header(crate::transport::pairs_model(headers@), name@) is None,
        },
{
    match header_get(headers, name) {
        Some(v) => {
            let trimmed = trim_str(v.as_str());
            if trimmed.as_str().unicode_len() > 0 {
                Some(trimmed)
            } else {
                None
            }
        },
        None => None,
    }
}

/// Reads the upstream request id from the response headers, trying the
/// conventional names in order. Header names are expected lowercased, as
/// HTTP/2 and the HTTP client's header map normalize them.
pub fn extract_request_id(headers: &Vec<(String, String)>) -> (r: Option<String>)
    ensures
        match r {
            Some(v) => spec_extract_request_id(crate::transport::pairs_model(headers@)) == Some(
                v@,
            ),
            None => spec_extract_request_id(crate::transport::pairs_model(headers@)) is None,
        },
{
    if let Some(v) = try_header(headers, "x-request-id") {
        return Some(v);
    }
    if let Some(v) = try_header(headers, "x-correlation-id") {
        return Some(v);
    }
    try_header(headers, "x-amzn-trace-id")
}

/// The message shown when the error body yields no extracted message: the
/// truncated raw body when there is one, else a generic status line.
pub open spec fn spec_api_fallback_message(status: u16, body_t: Seq<char>) -> Seq<char> {
    if body_t.len() > 0 {
        spec_truncate(body_t, DEBUG_SUMMARY_LIMIT as nat)
    } else {
        "Request failed with HTTP "@ + spec_decimal(status as nat) + "."@
    }
}

pub open spec fn spec_api_extracted_message(
    status: u16,
    body_t: Seq<char>,
    parsed: Option<Json>,
) -> Seq<char> {
    match parsed {
        Some(j) => match spec_extract_api_message(j) {
            Some(m) => m,
            None => spec_api_fallback_message(status, body_t),
        },
        None => spec_api_fallback_message(status, body_t),
    }
}

/// The full forensic bundle of a non-2xx response: request method and URL,
/// the extracted message, the response URL when it differs, the upstream
/// request id when present, the raw response (pretty-printed and
/// truncated), and the request payload when captured.
pub open spec fn spec_api_error_message(
    status: u16,
    body: Seq<char>,
    response_url: Seq<char>,
    headers: Seq<(Seq<char>, Seq<char>)>,
    d: Option<DebugModel>,
) -> Seq<char> {
    let body_t = spec_trim(body);
    let parsed = if body_t.len() == 0 {
        None
    } else {
        spec_json_parse(body_t)
    };
    let msg = spec_api_extracted_message(status, body_t, parsed);
    let req_method = match d {
        Some(dd) => dd.method,
        None => "UNKNOWN"@,
    };
    let req_url = match d {
        Some(dd) => dd.url,
        None => response_url,
    };
    let head = "Request: "@ + req_method + " "@ + req_url + "\nAPI message: "@ + msg;
    let with_url = if req_url != response_url {
        head + "\nResponse URL: "@ + response_url
    } else {
        head
    };
    let with_id = match spec_extract_request_id(headers) {
        Some(id) => with_url + "\nReclaim request id: "@ + id,
        None => with_url,
    };
    let with_raw = match parsed {
        Some(j) => with_id + "\nRaw response JSON: "@ + spec_truncate(
            spec_json_pretty(j),
            DEBUG_BODY_LIMIT as nat,
        ),
        None => if body_t.len() == 0 {
            with_id + "\nRaw response body: <empty>"@
        } else {
            with_id + "\nRaw response body: "@ + spec_truncate(body_t, DEBUG_BODY_LIMIT as nat)
        },
    };
    match d {
        Some(dd) => match dd.body {
            Some(p) => with_raw + "\nRequest payload: "@ + spec_truncate(
                spec_pretty_or_raw(p),
                DEBUG_BODY_LIMIT as nat,
            ),
            None => with_raw,
        },
        None => with_raw,
    }
}

/// `e` is the Api error a given non-2xx response produces.
pub open spec fn is_api_error(
    e: CliError,
    status: u16,
    body: Seq<char>,
    response_url: Seq<char>,
    headers: Seq<(Seq<char>, Seq<char>)>,
    d: Option<DebugModel>,
) -> bool {
    &&& e matches CliError::Api { status: s, message, hint }
    &&& s == status
    &&& message@ == spec_api_error_message(status, body, response_url, headers, d)
    &&& match hint {
        Some(h) => spec_hint_for_status(status) == Some(h@),
        None => spec_hint_for_status(status) is None,
    }
}

/// Builds the Api error for a non-2xx response, with the full forensic
/// bundle and a status-specific remediation hint.
pub fn parse_api_error(
    status: u16,
    response_body: &str,
    response_url: &str,
    response_headers: &Vec<(String, String)>,
    request_debug: Option<&RequestDebugInfo>,
) -> (r: CliError)
    ensures
        is_api_error(
            r,
            status,
            response_body@,
            response_url@,
            crate::transport::pairs_model(response_headers@),
            opt_debug_view(request_debug),
        ),
{
    let body_t = trim_str(response_body);
    let parsed: Option<JsonValue> = if body_t.as_str().unicode_len() == 0 {
        None
    } else {
        json_parse(body_t.as_str())
    };
    let msg: String = match &parsed {
        Some(v) => match extract_api_message(v) {
            Some(m) => m,
            None => api_fallback_message(status, &body_t),
        },
        None => api_fallback_message(status, &body_t),
    };
    let mut out = String::from_str("Request: ");
    match request_debug {
        Some(d) => {
            out.append(d.method.as_str());
            out.append(" ");
            out.append(d.url.as_str());
        },
        None => {
            out.append("UNKNOWN");
            out.append(" ");
            out.append(response_url);
        },
    }
    out.append("\nAPI message: ");
    out.append(msg.as_str());
    let urls_equal = match request_debug {
        Some(d) => str_eq(d.url.as_str(), response_url),
        None => true,
    };
    if !urls_equal {
        out.append("\nResponse URL: ");
        out.append(response_url);
    }
    if let Some(id) = extract_request_id(response_headers) {
        out.append("\nReclaim request id: ");
        out.append(id.as_str());
    }
    match &parsed {
        Some(v) => {
            out.append("\nRaw response JSON: ");
            let pretty = crate::json::json_to_pretty(v);
            let truncated = truncate_debug_text(pretty.as_str(), DEBUG_BODY_LIMIT);
            out.append(truncated.as_str());
        },
        None => {
            if body_t.as_str().unicode_len() == 0 {
                out.append("\nRaw response body: <empty>");
            } else {
                out.append("\nRaw response body: ");
                let truncated = truncate_debug_text(body_t.as_str(), DEBUG_BODY_LIMIT);
                out.append(truncated.as_str());
            }
        },
    }
    if let Some(d) = request_debug {
        if let Some(p) = &d.body {
            out.append("\nRequest payload: ");
            let pretty = pretty_json_or_raw(p.as_str());
            let truncated = truncate_debug_text(pretty.as_str(), DEBUG_BODY_LIMIT);
            out.append(truncated.as_str());
        }
    }
    CliError::Api { status, message: out, hint: hint_for_status(status) }
}

fn api_fallback_message(status: u16, body_t: &String) -> (r: String)
    ensures
        r@ == spec_api_fallback_message(status, body_t@),
{
    if body_t.as_str().unicode_len() > 0 {
        truncate_debug_text(body_t.as_str(), DEBUG_SUMMARY_LIMIT)
    } else {
        let mut out = String::from_str("Request failed with HTTP ");
        let dec = u64_to_dec(status as u64);
        out.append(dec.as_str());
        out.append(".");
        out
    }
}

/// The message of a Response-Parse error: why the body did not decode, the
/// request context, and the raw body (pretty-printed and truncated).
pub open spec fn spec_response_parse_message(
    reason: Seq<char>,
    body: Seq<char>,
    response_url: Seq<char>,
    d: Option<DebugModel>,
) -> Seq<char> {
    let line1 = "Reclaim API returned a non-JSON success response: "@ + reason;
    let line2 = match d {
        Some(dd) => "\nRequest: "@ + dd.method + " "@ + dd.url,
        None => "\nResponse URL: "@ + response_url,
    };
    let body_t = spec_trim(body);
    let line3 = if body_t.len() > 0 {
        "\nRaw response body: "@ + spec_truncate(
            spec_pretty_or_raw(body_t),
            DEBUG_BODY_LIMIT as nat,
        )
    } else {
        "\nRaw response body: <empty>"@
    };
    line1 + line2 + line3
}

/// `e` is the Response-Parse error a given undecodable 2xx body produces.
pub open spec fn is_response_parse_error(
    e: CliError,
    reason: Seq<char>,
    body: Seq<char>,
    response_url: Seq<char>,
    d: Option<DebugModel>,
) -> bool {
    &&& e matches CliError::ResponseParse { message, hint }
    &&& message@ == spec_response_parse_message(reason, body, response_url, d)
    &&& match hint {
        Some(h) => h@ == "Keep the raw response body above when reporting this issue."@,
        None => false,
    }
}

fn response_parse_error(
    reason: &str,
    body: &str,
    response_url: &str,
    request_debug: Option<&RequestDebugInfo>,
) -> (r: CliError)
    ensures
        is_response_parse_error(
            r,
            reason@,
            body@,
            response_url@,
            opt_debug_view(request_debug),
        ),
{
    let mut out = String::from_str("Reclaim API returned a non-JSON success response: ");
    out.append(reason);
    match request_debug {
        Some(d) => {
            out.append("\nRequest: ");
            out.append(d.method.as_str());
            out.append(" ");
            out.append(d.url.as_str());
        },
        None => {
            out.append("\nResponse URL: ");
            out.append(response_url);
        },
    }
    let body_t = trim_str(body);
    if body_t.as_str().unicode_len() > 0 {
        out.append("\nRaw response body: ");
        let pretty = pretty_json_or_raw(body_t.as_str());
        let truncated = truncate_debug_text(pretty.as_str(), DEBUG_BODY_LIMIT);
        out.append(truncated.as_str());
    } else {
        out.append("\nRaw response body: <empty>");
    }
    proof {
        assert(out@ =~= spec_response_parse_message(
            reason@,
            body@,
            response_url@,
            opt_debug_view(request_debug),
        ));
    }
    CliError::ResponseParse {
        message: out,
        hint: Some(
            String::from_str("Keep the raw response body above when reporting this issue."),
        ),
    }
}

pub open spec fn spec_status_success(status: u16) -> bool {
    200 <= status < 300
}

/// Interprets a response whose body must decode as one task: a non-2xx
/// status yields the Api error, an undecodable 2xx body yields the
/// Response-Parse error, and otherwise the decoded task is returned.
pub fn interpret_task_response(
    status: u16,
    body: &str,
    response_url: &str,
    headers: &Vec<(String, String)>,
    request_debug: Option<&RequestDebugInfo>,
) -> (r: Result<Task, CliError>)
    ensures
        !spec_status_success(status) ==> (r matches Err(e) && is_api_error(
            e,
            status,
            body@,
            response_url@,
            crate::transport::pairs_model(headers@),
            opt_debug_view(request_debug),
        )),
        spec_status_success(status) ==> match spec_json_parse(body@) {
            None => r matches Err(e) && is_response_parse_error(
                e,
                "the body is not valid JSON"@,
                body@,
                response_url@,
                opt_debug_view(request_debug),
            ),
            Some(j) => match spec_task_of_json(j) {
                Ok(tm) => r matches Ok(t) && t@ == tm,
                Err(reason) => r matches Err(e) && is_response_parse_error(
                    e,
                    reason,
                    body@,
                    response_url@,
                    opt_debug_view(request_debug),
                ),
            },
        },
{
    if !(200 <= status && status < 300) {
        return Err(parse_api_error(status, body, response_url, headers, request_debug));
    }
    match json_parse(body) {
        None => Err(
            response_parse_error("the body is not valid JSON", body, response_url, request_debug),
        ),
        Some(v) => match task_of_json(v) {
            Ok(t) => Ok(t),
            Err(reason) => Err(
                response_parse_error(reason.as_str(), body, response_url, request_debug),
            ),
        },
    }
}

/// Interprets a response whose body must decode as a list of tasks.
pub fn interpret_task_list_response(
    status: u16,
    body: &str,
    response_url: &str,
    headers: &Vec<(String, String)>,
    request_debug: Option<&RequestDebugInfo>,
) -> (r: Result<Vec<Task>, CliError>)
    ensures
        !spec_status_success(status) ==> (r matches Err(e) && is_api_error(
            e,
            status,
            body@,
            response_url@,
            crate::transport::pairs_model(headers@),
            opt_debug_view(request_debug),
        )),
        spec_status_success(status) ==> match spec_json_parse(body@) {
            None => r matches Err(e) && is_response_parse_error(
                e,
                "the body is not valid JSON"@,
                body@,
                response_url@,
                opt_debug_view(request_debug),
            ),
            Some(j) => match spec_tasks_of_json(j) {
                Ok(ms) => r matches Ok(ts) && ms.len() == ts@.len() && forall|i: int|
                    0 <= i < ms.len() ==> ms[i] == #[trigger] ts@[i]@,
                Err(reason) => r matches Err(e) && is_response_parse_error(
                    e,
                    reason,
                    body@,
                    response_url@,
                    opt_debug_view(request_debug),
                ),
            },
        },
{
    if !(200 <= status && status < 300) {
        return Err(parse_api_error(status, body, response_url, headers, request_debug));
    }
    match json_parse(body) {
        None => Err(
            response_parse_error("the body is not valid JSON", body, response_url, request_debug),
        ),
        Some(v) => match tasks_of_json(v) {
            Ok(ts) => Ok(ts),
            Err(reason) => Err(
                response_parse_error(reason.as_str(), body, response_url, request_debug),
            ),
        },
    }
}

/// Interprets a response whose body may be any JSON value.
pub fn interpret_value_response(
    status: u16,
    body: &str,
    response_url: &str,
    headers: &Vec<(String, String)>,
    request_debug: Option<&RequestDebugInfo>,
) -> (r: Result<JsonValue, CliError>)
    ensures
        !spec_status_success(status) ==> (r matches Err(e) && is_api_error(
            e,
            status,
            body@,
            response_url@,
            crate::transport::pairs_model(headers@),
            opt_debug_view(request_debug),
        )),
        spec_status_success(status) ==> match spec_json_parse(body@) {
            None => r matches Err(e) && is_response_parse_error(
                e,
                "the body is not valid JSON"@,
                body@,
                response_url@,
                opt_debug_view(request_debug),
            ),
            Some(j) => r matches Ok(v) && v@ == j,
        },
{
    if !(200 <= status && status < 300) {
        return Err(parse_api_error(status, body, response_url, headers, request_debug));
    }
    match json_parse(body) {
        None => Err(
            response_parse_error("the body is not valid JSON", body, response_url, request_debug),
        ),
        Some(v) => Ok(v),
    }
}

/// Interprets a response whose body must be a JSON array of values.
pub fn interpret_value_list_response(
    status: u16,
    body: &str,
    response_url: &str,
    headers: &Vec<(String, String)>,
    request_debug: Option<&RequestDebugInfo>,
) -> (r: Result<Vec<JsonValue>, CliError>)
    ensures
        !spec_status_success(status) ==> (r matches Err(e) && is_api_error(
            e,
            status,
            body@,
            response_url@,
            crate::transport::pairs_model(headers@),
            opt_debug_view(request_debug),
        )),
        spec_status_success(status) ==> match spec_json_parse(body@) {
            None => r matches Err(e) && is_response_parse_error(
                e,
                "the body is not valid JSON"@,
                body@,
                response_url@,
                opt_debug_view(request_debug),
            ),
            Some(j) => if j is Arr {
                r matches Ok(items) && crate::json::arr_model_rec(items@) == j->Arr_0
            } else {
                r matches Err(e) && is_response_parse_error(
                    e,
                    "expected a JSON array"@,
                    body@,
                    response_url@,
                    opt_debug_view(request_debug),
                )
            },
        },
{
    if !(200 <= status && status < 300) {
        return Err(parse_api_error(status, body, response_url, headers, request_debug));
    }
    match json_parse(body) {
        None => Err(
            response_parse_error("the body is not valid JSON", body, response_url, request_debug),
        ),
        Some(v) => match v {
            JsonValue::Arr(items) => Ok(items),
            _ => Err(
                response_parse_error("expected a JSON array", body, response_url, request_debug),
            ),
        },
    }
}

/// Interprets a delete-style response: an empty 2xx body counts as a valid
/// "no content" result and maps to `Null`.
pub fn interpret_value_or_null_response(
    status: u16,
    body: &str,
    response_url: &str,
    headers: &Vec<(String, String)>,
    request_debug: Option<&RequestDebugInfo>,
) -> (r: Result<JsonValue, CliError>)
    ensures
        !spec_status_success(status) ==> (r matches Err(e) && is_api_error(
            e,
            status,
            body@,
            response_url@,
            crate::transport::pairs_model(headers@),
            opt_debug_view(request_debug),
        )),
        spec_status_success(status) && spec_trim(body@).len() == 0 ==> r == Ok::<
            JsonValue,
            CliError,
        >(JsonValue::Null),
        spec_status_success(status) && spec_trim(body@).len() > 0 ==> match spec_json_parse(
            spec_trim(body@),
        ) {
            None => r matches Err(e) && is_response_parse_error(
                e,
                "the body is not valid JSON"@,
                body@,
                response_url@,
                opt_debug_view(request_debug),
            ),
            Some(j) => r matches Ok(v) && v@ == j,
        },
{
    if !(200 <= status && status < 300) {
        return Err(parse_api_error(status, body, response_url, headers, request_debug));
    }
    let body_t = trim_str(body);
    if body_t.as_str().unicode_len() == 0 {
        return Ok(JsonValue::Null);
    }
    match json_parse(body_t.as_str()) {
        None => Err(
            response_parse_error("the body is not valid JSON", body, response_url, request_debug),
        ),
        Some(v) => Ok(v),
    }
}

} // verus!
