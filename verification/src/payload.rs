//! The payload builder: merges typed flag fields, an optional raw JSON
//! object, and repeatable `key=value` overrides into one canonical JSON
//! object, with per-command validation. Precedence, lowest to highest:
//! typed flags, then the raw JSON blob, then the overrides; each stage
//! fully overwrites colliding keys from the previous one.

use vstd::prelude::*;
use vstd::string::*;

use crate::cli::{
    spec_category_str, spec_priority_str, spec_transparency_str, spec_visibility_str, CreateArgs,
    EventsCreateArgs, EventsDeleteArgs, EventsUpdateArgs, PatchArgs, PutArgs,
};
use crate::error::{is_invalid_input, CliError, SpecInvalid};
use crate::json::{
    entries_model, entries_model_rec, json_parse, lemma_arr_model_rec, lemma_entries_model_rec,
    merge_object_fields, obj_get, sget, spec_json_parse, Json, JsonValue,
};
use crate::model::{spec_task_entries, CreateTaskRequest, Task};
use crate::text::{
    find_char, opt_view, spec_decimal, spec_find, spec_trim, trim_str, u64_to_dec,
};

verus! {

/// An override value is the parsed JSON literal when the text is valid
/// JSON, and the literal string otherwise.
pub open spec fn spec_set_value(raw: Seq<char>) -> Json {
    match spec_json_parse(raw) {
        Some(j) => j,
        None => Json::Text(raw),
    }
}

/// Parses one override value: a JSON literal when it is one, else the
/// literal string.
pub fn parse_set_value(raw: &str) -> (r: JsonValue)
    ensures
        r@ == spec_set_value(raw@),
{
    match json_parse(raw) {
        Some(v) => v,
        None => JsonValue::Text(raw.to_owned()),
    }
}

pub open spec fn spec_parse_set_entry(entry: Seq<char>) -> Result<(Seq<char>, Json), SpecInvalid> {
    match spec_find(entry, '=') {
        None => Err(
            SpecInvalid {
                message: "Invalid --set value '"@ + entry + "'. Expected KEY=VALUE."@,
                hint: Some("Examples: --set priority=P4 --set snoozeUntil=2026-02-25T17:00:00Z"@),
            },
        ),
        Some(i) => {
            let key = spec_trim(entry.take(i));
            if key.len() == 0 {
                Err(
                    SpecInvalid {
                        message: "Invalid --set value '"@ + entry + "': key cannot be empty."@,
                        hint: Some("Use a non-empty key, e.g. --set priority=P4"@),
                    },
                )
            } else {
                Ok((key, spec_set_value(spec_trim(entry.skip(i + 1)))))
            }
        },
    }
}

/// Splits one `KEY=VALUE` override on its first `=`; the key must be
/// non-empty after trimming.
pub fn parse_set_entry(entry: &str) -> (r: Result<(String, JsonValue), CliError>)
    ensures
        match r {
            Ok(kv) => spec_parse_set_entry(entry@) == Ok::<(Seq<char>, Json), SpecInvalid>(
                (kv.0@, kv.1@),
            ),
            Err(e) => spec_parse_set_entry(entry@) matches Err(se) && is_invalid_input(e, se),
        },
{
    let n = entry.unicode_len();
    match find_char(entry, '=') {
        None => {
            let mut message = String::from_str("Invalid --set value '");
            message.append(entry);
            message.append("'. Expected KEY=VALUE.");
            Err(
                CliError::InvalidInput {
                    message,
                    hint: Some(
                        String::from_str(
                            "Examples: --set priority=P4 --set snoozeUntil=2026-02-25T17:00:00Z",
                        ),
                    ),
                },
            )
        },
        Some(i) => {
            let key = trim_str(entry.substring_char(0, i));
            proof {
                assert(entry@.subrange(0, i as int) == entry@.take(i as int));
            }
            if key.unicode_len() == 0 {
                let mut message = String::from_str("Invalid --set value '");
                message.append(entry);
                message.append("': key cannot be empty.");
                Err(
                    CliError::InvalidInput {
                        message,
                        hint: Some(String::from_str("Use a non-empty key, e.g. --set priority=P4")),
                    },
                )
            } else {
                let raw_value = trim_str(entry.substring_char(i + 1, n));
                proof {
                    assert(entry@.subrange(i as int + 1, n as int) == entry@.skip(i as int + 1));
                }
                let value = parse_set_value(raw_value.as_str());
                Ok((key, value))
            }
        },
    }
}

/// The overrides parsed in order, stopping at the first invalid one.
pub open spec fn spec_parse_set_entries(entries: Seq<Seq<char>>) -> Result<
    Seq<(Seq<char>, Json)>,
    SpecInvalid,
>
    decreases entries.len(),
{
    if entries.len() == 0 {
        Ok(Seq::empty())
    } else {
        match spec_parse_set_entries(entries.drop_last()) {
            Err(e) => Err(e),
            Ok(rest) => match spec_parse_set_entry(entries.last()) {
                Err(e) => Err(e),
                Ok(kv) => Ok(rest.push(kv)),
            },
        }
    }
}

proof fn lemma_set_entries_err_prefix(entries: Seq<Seq<char>>, i: int)
    requires
        0 <= i <= entries.len(),
        spec_parse_set_entries(entries.take(i)) is Err,
    ensures
        spec_parse_set_entries(entries) == spec_parse_set_entries(entries.take(i)),
    decreases entries.len() - i,
{
    if i == entries.len() {
        assert(entries.take(i) =~= entries);
    } else {
        assert(entries.take(i + 1).drop_last() =~= entries.take(i));
        lemma_set_entries_err_prefix(entries, i + 1);
    }
}

/// Parses every `KEY=VALUE` override, in order; the first invalid entry
/// fails the whole call.
#[verifier::loop_isolation(false)]
pub fn parse_set_entries(entries: &Vec<String>) -> (r: Result<Vec<(String, JsonValue)>, CliError>)
    ensures
        match r {
            Ok(ups) => spec_parse_set_entries(entries.deep_view()) == Ok::<
                Seq<(Seq<char>, Json)>,
                SpecInvalid,
            >(entries_model(ups@)),
            Err(e) => spec_parse_set_entries(entries.deep_view()) matches Err(se)
                && is_invalid_input(e, se),
        },
{
    let ghost full = entries.deep_view();
    proof {
        assert(full.len() == entries@.len());
        assert(forall|k: int| 0 <= k < entries@.len() ==> full[k] == entries@[k]@);
    }
    let mut ups: Vec<(String, JsonValue)> = Vec::new();
    proof {
        assert(full.take(0) =~= Seq::<Seq<char>>::empty());
        assert(entries_model(ups@) =~= Seq::<(Seq<char>, Json)>::empty());
    }
    let mut i: usize = 0;
    while i < entries.len()
        invariant
            0 <= i <= entries@.len(),
            spec_parse_set_entries(full.take(i as int)) == Ok::<
                Seq<(Seq<char>, Json)>,
                SpecInvalid,
            >(entries_model(ups@)),
        decreases entries@.len() - i,
    {
        proof {
            assert(full.take(i as int + 1).drop_last() =~= full.take(i as int));
            assert(full.take(i as int + 1).last() == entries@[i as int]@);
        }
        match parse_set_entry(entries[i].as_str()) {
            Ok(kv) => {
                let ghost pre = entries_model(ups@);
                ups.push(kv);
                proof {
                    assert(entries_model(ups@) =~= pre.push((kv.0@, kv.1@)));
                }
            },
            Err(e) => {
                proof {
                    lemma_set_entries_err_prefix(full, i as int + 1);
                }
                return Err(e);
            },
        }
        i = i + 1;
    }
    proof {
        assert(full.take(entries@.len() as int) =~= full);
    }
    Ok(ups)
}

pub open spec fn spec_obj_hint(flag: Seq<char>) -> Seq<char> {
    "Pass "@ + flag + " with a JSON object, e.g. "@ + flag + " '{\"priority\":\"P4\"}'."@
}

/// What a raw JSON-object argument parses to: the trimmed text must be
/// non-empty, valid JSON, and an object.
pub open spec fn spec_parse_json_object(raw: Seq<char>, flag: Seq<char>) -> Result<
    Seq<(Seq<char>, Json)>,
    SpecInvalid,
> {
    let t = spec_trim(raw);
    if t.len() == 0 {
        Err(
            SpecInvalid {
                message: "Invalid "@ + flag + " value: it cannot be empty."@,
                hint: Some(spec_obj_hint(flag)),
            },
        )
    } else {
        match spec_json_parse(t) {
            None => Err(
                SpecInvalid {
                    message: "Invalid "@ + flag + " JSON: the value does not parse as JSON."@,
                    hint: Some(spec_obj_hint(flag)),
                },
            ),
            Some(j) => if j is Obj {
                Ok(j->Obj_0)
            } else {
                Err(
                    SpecInvalid {
                        message: "Invalid "@ + flag + " value: expected a JSON object."@,
                        hint: Some(spec_obj_hint(flag)),
                    },
                )
            },
        }
    }
}

fn obj_hint(flag_name: &str) -> (r: String)
    ensures
        r@ == spec_obj_hint(flag_name@),
{
    let mut hint = String::from_str("Pass ");
    hint.append(flag_name);
    hint.append(" with a JSON object, e.g. ");
    hint.append(flag_name);
    hint.append(" '{\"priority\":\"P4\"}'.");
    hint
}

/// Parses a raw JSON object argument (`--json`), rejecting empty input,
/// invalid JSON, and non-object values.
pub fn parse_json_object_argument(raw_json: &str, flag_name: &str) -> (r: Result<
    Vec<(String, JsonValue)>,
    CliError,
>)
    ensures
        match r {
            Ok(entries) => spec_parse_json_object(raw_json@, flag_name@) == Ok::<
                Seq<(Seq<char>, Json)>,
                SpecInvalid,
            >(entries_model(entries@)),
            Err(e) => spec_parse_json_object(raw_json@, flag_name@) matches Err(se)
                && is_invalid_input(e, se),
        },
{
    let trimmed = trim_str(raw_json);
    if trimmed.as_str().unicode_len() == 0 {
        let mut message = String::from_str("Invalid ");
        message.append(flag_name);
        message.append(" value: it cannot be empty.");
        return Err(CliError::InvalidInput { message, hint: Some(obj_hint(flag_name)) });
    }
    match json_parse(trimmed.as_str()) {
        None => {
            let mut message = String::from_str("Invalid ");
            message.append(flag_name);
            message.append(" JSON: the value does not parse as JSON.");
            Err(CliError::InvalidInput { message, hint: Some(obj_hint(flag_name)) })
        },
        Some(v) => match v {
            JsonValue::Obj(entries) => {
                proof {
                    lemma_entries_model_rec(entries@);
                }
                Ok(entries)
            },
            _ => {
                let mut message = String::from_str("Invalid ");
                message.append(flag_name);
                message.append(" value: expected a JSON object.");
                Err(CliError::InvalidInput { message, hint: Some(obj_hint(flag_name)) })
            },
        },
    }
}

/// The PATCH payload: the blob's fields overlaid with the overrides; the
/// result must carry at least one field.
pub open spec fn spec_build_patch_payload(json: Option<Seq<char>>, set: Seq<Seq<char>>) -> Result<
    Json,
    SpecInvalid,
> {
    let base = match json {
        Some(raw) => spec_parse_json_object(raw, "--json"@),
        None => Ok(Seq::empty()),
    };
    match base {
        Err(e) => Err(e),
        Ok(b) => match spec_parse_set_entries(set) {
            Err(e) => Err(e),
            Ok(ups) => {
                let merged = b + ups;
                if merged.len() == 0 {
                    Err(
                        SpecInvalid {
                            message: "PATCH requires at least one field update."@,
                            hint: Some(
                                "Pass --json '{\"priority\":\"P4\"}' or one/more --set key=value entries."@,
                            ),
                        },
                    )
                } else {
                    Ok(Json::Obj(merged))
                }
            },
        },
    }
}

/// Builds the PATCH payload from the `--json` blob and the `--set`
/// overrides. With neither, or with both empty, the call fails
/// Invalid-Input; overrides producing a non-empty object always succeed.
pub fn build_patch_payload(args: &PatchArgs) -> (r: Result<JsonValue, CliError>)
    ensures
        match r {
            Ok(v) => spec_build_patch_payload(opt_view(args.json), args.set.deep_view()) == Ok::<
                Json,
                SpecInvalid,
            >(v@),
            Err(e) => spec_build_patch_payload(opt_view(args.json), args.set.deep_view()) matches
                Err(se) && is_invalid_input(e, se),
        },
{
    let mut payload: Vec<(String, JsonValue)> = match &args.json {
        Some(raw) => match parse_json_object_argument(raw.as_str(), "--json") {
            Ok(entries) => entries,
            Err(e) => {
                return Err(e);
            },
        },
        None => Vec::new(),
    };
    proof {
        assert(opt_view(args.json) is None ==> entries_model(payload@) =~= Seq::<
            (Seq<char>, Json),
        >::empty());
    }
    let updates = match parse_set_entries(&args.set) {
        Ok(ups) => ups,
        Err(e) => {
            return Err(e);
        },
    };
    merge_object_fields(&mut payload, updates);
    if payload.len() == 0 {
        return Err(
            CliError::InvalidInput {
                message: String::from_str("PATCH requires at least one field update."),
                hint: Some(
                    String::from_str(
                        "Pass --json '{\"priority\":\"P4\"}' or one/more --set key=value entries.",
                    ),
                ),
            },
        );
    }
    let r = JsonValue::Obj(payload);
    proof {
        lemma_entries_model_rec(r->Obj_0@);
    }
    Ok(r)
}

/// A PATCH build with neither blob nor overrides always fails; one whose
/// overrides parse to at least one entry always succeeds in building a
/// payload.
pub proof fn lemma_patch_requires_fields(set: Seq<Seq<char>>)
    ensures
        spec_build_patch_payload(None, Seq::<Seq<char>>::empty()) is Err,
        (spec_parse_set_entries(set) matches Ok(ups) && ups.len() > 0)
            ==> spec_build_patch_payload(None, set) is Ok,
{
    assert(spec_parse_set_entries(Seq::<Seq<char>>::empty()) == Ok::<
        Seq<(Seq<char>, Json)>,
        SpecInvalid,
    >(Seq::empty()));
    assert(Seq::<(Seq<char>, Json)>::empty() + Seq::<(Seq<char>, Json)>::empty() =~= Seq::<
        (Seq<char>, Json),
    >::empty());
    if spec_parse_set_entries(set) is Ok {
        let ups = spec_parse_set_entries(set)->Ok_0;
        assert(Seq::<(Seq<char>, Json)>::empty() + ups =~= ups);
    }
}

/// How a PUT payload is to be produced: directly from the given blob and
/// overrides, or by fetching the current resource first and layering the
/// overrides on top.
#[derive(Debug, PartialEq)]
pub enum PutPayloadPlan {
    Ready(JsonValue),
    FetchCurrent,
}

/// The PUT payload when a blob was given: the blob's fields overlaid with
/// the overrides.
pub open spec fn spec_put_direct(raw: Seq<char>, set: Seq<Seq<char>>) -> Result<
    Json,
    SpecInvalid,
> {
    match spec_parse_json_object(raw, "--json"@) {
        Err(e) => Err(e),
        Ok(b) => match spec_parse_set_entries(set) {
            Err(e) => Err(e),
            Ok(ups) => Ok(Json::Obj(b + ups)),
        },
    }
}

pub open spec fn spec_put_missing_data() -> SpecInvalid {
    SpecInvalid {
        message: "PUT requires update data. Pass --json and/or one or more --set entries."@,
        hint: Some("Examples: --json '{\"title\":\"Plan sprint\"}' or --set priority=P4"@),
    }
}

/// Decides how to build a PUT payload. With neither blob nor overrides the
/// call fails Invalid-Input before any network activity; with a blob the
/// payload is complete here; with only overrides the current resource must
/// be fetched first.
pub fn plan_put_payload(args: &PutArgs) -> (r: Result<PutPayloadPlan, CliError>)
    ensures
        args.json is None && args.set@.len() == 0 ==> (r matches Err(e) && is_invalid_input(
            e,
            spec_put_missing_data(),
        )),
        args.json matches Some(raw) ==> match spec_put_direct(raw@, args.set.deep_view()) {
            Ok(j) => r matches Ok(p) && p matches PutPayloadPlan::Ready(v) && v@ == j,
            Err(se) => r matches Err(e) && is_invalid_input(e, se),
        },
        args.json is None && args.set@.len() > 0 ==> r == Ok::<PutPayloadPlan, CliError>(
            PutPayloadPlan::FetchCurrent,
        ),
{
    if args.json.is_none() && args.set.len() == 0 {
        return Err(
            CliError::InvalidInput {
                message: String::from_str(
                    "PUT requires update data. Pass --json and/or one or more --set entries.",
                ),
                hint: Some(
                    String::from_str(
                        "Examples: --json '{\"title\":\"Plan sprint\"}' or --set priority=P4",
                    ),
                ),
            },
        );
    }
    match &args.json {
        Some(raw) => {
            let mut payload = match parse_json_object_argument(raw.as_str(), "--json") {
                Ok(entries) => entries,
                Err(e) => {
                    return Err(e);
                },
            };
            let updates = match parse_set_entries(&args.set) {
                Ok(ups) => ups,
                Err(e) => {
                    return Err(e);
                },
            };
            merge_object_fields(&mut payload, updates);
            let v = JsonValue::Obj(payload);
            proof {
                lemma_entries_model_rec(v->Obj_0@);
            }
            Ok(PutPayloadPlan::Ready(v))
        },
        None => Ok(PutPayloadPlan::FetchCurrent),
    }
}

/// The PUT payload built from the fetched resource: its serialized fields
/// overlaid with the overrides. This is how a partial update is expressed
/// through a full-replace protocol.
pub open spec fn spec_put_from_task(
    t: crate::model::TaskModel,
    set: Seq<Seq<char>>,
) -> Result<Json, SpecInvalid> {
    match spec_parse_set_entries(set) {
        Err(e) => Err(e),
        Ok(ups) => Ok(Json::Obj(spec_task_entries(t) + ups)),
    }
}

/// Completes a PUT payload from the fetched current task, consuming it,
/// and layers the overrides on top.
pub fn finish_put_payload(task: Task, set: &Vec<String>) -> (r: Result<JsonValue, CliError>)
    ensures
        match r {
            Ok(v) => spec_put_from_task(task@, set.deep_view()) == Ok::<Json, SpecInvalid>(v@),
            Err(e) => spec_put_from_task(task@, set.deep_view()) matches Err(se)
                && is_invalid_input(e, se),
        },
{
    let updates = match parse_set_entries(set) {
        Ok(ups) => ups,
        Err(e) => {
            return Err(e);
        },
    };
    let mut payload = task.into_entries();
    merge_object_fields(&mut payload, updates);
    let v = JsonValue::Obj(payload);
    proof {
        lemma_entries_model_rec(v->Obj_0@);
    }
    Ok(v)
}

/// A raw apply request must be a JSON object whose `actionsTaken` is a
/// non-empty array.
pub open spec fn spec_build_apply_request(raw: Seq<char>) -> Result<Json, SpecInvalid> {
    match spec_parse_json_object(raw, "--json"@) {
        Err(e) => Err(e),
        Ok(entries) => if sget(entries, "actionsTaken"@) matches Some(Json::Arr(a)) && a.len()
            > 0 {
            Ok(Json::Obj(entries))
        } else {
            Err(
                SpecInvalid {
                    message: "Invalid --json request: actionsTaken is required and must be a non-empty array."@,
                    hint: Some(
                        "Example: --json '{\"actionsTaken\":[{\"type\":\"CancelEventAction\",...}]}'"@,
                    ),
                },
            )
        },
    }
}

/// Validates a caller-supplied raw apply request.
pub fn build_events_apply_request(raw_json: &str) -> (r: Result<JsonValue, CliError>)
    ensures
        match r {
            Ok(v) => spec_build_apply_request(raw_json@) == Ok::<Json, SpecInvalid>(v@),
            Err(e) => spec_build_apply_request(raw_json@) matches Err(se) && is_invalid_input(
                e,
                se,
            ),
        },
{
    let entries = match parse_json_object_argument(raw_json, "--json") {
        Ok(entries) => entries,
        Err(e) => {
            return Err(e);
        },
    };
    let has_actions = match obj_get(&entries, "actionsTaken") {
        Some(JsonValue::Arr(items)) => {
            proof {
                lemma_arr_model_rec(items@);
            }
            items.len() > 0
        },
        _ => false,
    };
    if !has_actions {
        return Err(
            CliError::InvalidInput {
                message: String::from_str(
                    "Invalid --json request: actionsTaken is required and must be a non-empty array.",
                ),
                hint: Some(
                    String::from_str(
                        "Example: --json '{\"actionsTaken\":[{\"type\":\"CancelEventAction\",...}]}'",
                    ),
                ),
            },
        );
    }
    let v = JsonValue::Obj(entries);
    proof {
        lemma_entries_model_rec(v->Obj_0@);
    }
    Ok(v)
}

/// The envelope of the batch-action protocol: one action wrapped in a
/// one-element `actionsTaken` array.
pub open spec fn spec_wrap_action(entries: Seq<(Seq<char>, Json)>) -> Json {
    Json::Obj(seq![("actionsTaken"@, Json::Arr(seq![Json::Obj(entries)]))])
}

fn wrap_action(action: Vec<(String, JsonValue)>) -> (r: JsonValue)
    ensures
        r@ == spec_wrap_action(entries_model(action@)),
{
    let ghost am = entries_model(action@);
    let inner = JsonValue::Obj(action);
    proof {
        lemma_entries_model_rec(inner->Obj_0@);
    }
    let mut items: Vec<JsonValue> = Vec::new();
    items.push(inner);
    let arr = JsonValue::Arr(items);
    proof {
        lemma_arr_model_rec(arr->Arr_0@);
        assert(Seq::new(arr->Arr_0@.len(), |i: int| crate::json::jmodel(arr->Arr_0@[i])) =~= seq![
            Json::Obj(am),
        ]);
    }
    let mut outer: Vec<(String, JsonValue)> = Vec::new();
    outer.push((String::from_str("actionsTaken"), arr));
    let r = JsonValue::Obj(outer);
    proof {
        lemma_entries_model_rec(r->Obj_0@);
        assert(entries_model(outer@) =~= seq![("actionsTaken"@, Json::Arr(seq![Json::Obj(am)]))]);
    }
    r
}

fn push_entry(entries: &mut Vec<(String, JsonValue)>, key: &str, v: JsonValue)
    ensures
        entries_model(final(entries)@) == entries_model(old(entries)@).push((key@, v@)),
{
    let ghost pre = entries_model(entries@);
    entries.push((key.to_owned(), v));
    proof {
        assert(entries_model(entries@) =~= pre.push((key@, v@)));
    }
}

/// Appends `(key, trimmed text)` when the optional text is non-blank.
pub open spec fn spec_push_trimmed(
    entries: Seq<(Seq<char>, Json)>,
    key: Seq<char>,
    o: Option<Seq<char>>,
) -> Seq<(Seq<char>, Json)> {
    match o {
        Some(s) => if spec_trim(s).len() > 0 {
            entries.push((key, Json::Text(spec_trim(s))))
        } else {
            entries
        },
        None => entries,
    }
}

fn push_trimmed_opt(entries: &mut Vec<(String, JsonValue)>, key: &str, o: &Option<String>)
    ensures
        entries_model(final(entries)@) == spec_push_trimmed(
            entries_model(old(entries)@),
            key@,
            opt_view(*o),
        ),
{
    if let Some(s) = o {
        let trimmed = trim_str(s.as_str());
        if trimmed.as_str().unicode_len() > 0 {
            push_entry(entries, key, JsonValue::Text(trimmed));
        }
    }
}

/// The attendee list: each non-blank address, trimmed, as `{ "email": a }`.
pub open spec fn spec_attendees(ss: Seq<Seq<char>>) -> Seq<Json>
    decreases ss.len(),
{
    if ss.len() == 0 {
        Seq::empty()
    } else {
        let rest = spec_attendees(ss.drop_last());
        let t = spec_trim(ss.last());
        if t.len() > 0 {
            rest.push(Json::Obj(seq![("email"@, Json::Text(t))]))
        } else {
            rest
        }
    }
}

#[verifier::loop_isolation(false)]
fn attendees_json(attendees: &Vec<String>) -> (r: JsonValue)
    ensures
        r@ == Json::Arr(spec_attendees(attendees.deep_view())),
{
    let ghost full = attendees.deep_view();
    proof {
        assert(full.len() == attendees@.len());
        assert(forall|k: int| 0 <= k < attendees@.len() ==> full[k] == attendees@[k]@);
    }
    let mut items: Vec<JsonValue> = Vec::new();
    proof {
        assert(crate::json::arr_model_rec(items@) =~= Seq::<Json>::empty());
        assert(full.take(0) =~= Seq::<Seq<char>>::empty());
    }
    let mut i: usize = 0;
    while i < attendees.len()
        invariant
            0 <= i <= attendees@.len(),
            crate::json::arr_model_rec(items@) == spec_attendees(full.take(i as int)),
        decreases attendees@.len() - i,
    {
        proof {
            assert(full.take(i as int + 1).drop_last() =~= full.take(i as int));
            assert(full.take(i as int + 1).last() == attendees@[i as int]@);
        }
        let trimmed = trim_str(attendees[i].as_str());
        if trimmed.as_str().unicode_len() > 0 {
            let mut obj: Vec<(String, JsonValue)> = Vec::new();
            obj.push((String::from_str("email"), JsonValue::Text(trimmed)));
            let o = JsonValue::Obj(obj);
            proof {
                lemma_entries_model_rec(o->Obj_0@);
                assert(entries_model(obj@) =~= seq![
                    ("email"@, Json::Text(spec_trim(attendees@[i as int]@))),
                ]);
            }
            let ghost pre = items@;
            items.push(o);
            proof {
                assert(items@.drop_last() =~= pre);
                assert(crate::json::arr_model_rec(items@) == crate::json::arr_model_rec(pre).push(
                    crate::json::jmodel(o),
                ));
                assert(crate::json::jmodel(o) == Json::Obj(
                    seq![("email"@, Json::Text(spec_trim(attendees@[i as int]@)))],
                ));
                assert(spec_attendees(full.take(i as int + 1)) == spec_attendees(
                    full.take(i as int),
                ).push(
                    Json::Obj(seq![("email"@, Json::Text(spec_trim(attendees@[i as int]@)))]),
                ));
            }
        } else {
            proof {
                assert(spec_attendees(full.take(i as int + 1)) == spec_attendees(
                    full.take(i as int),
                ));
            }
        }
        i = i + 1;
    }
    proof {
        assert(full.take(attendees@.len() as int) =~= full);
    }
    JsonValue::Arr(items)
}

/// The fixed date range object of an event action.
pub open spec fn spec_date_range(start: Seq<char>, end: Seq<char>) -> Json {
    Json::Obj(
        seq![
            ("type"@, Json::Text("FixedDateTimeRange"@)),
            ("start"@, Json::Text(start)),
            ("end"@, Json::Text(end)),
        ],
    )
}

fn date_range_json(start: String, end: String) -> (r: JsonValue)
    ensures
        r@ == spec_date_range(start@, end@),
{
    let ghost sm = start@;
    let ghost em = end@;
    let mut obj: Vec<(String, JsonValue)> = Vec::new();
    obj.push((String::from_str("type"), JsonValue::Text(String::from_str("FixedDateTimeRange"))));
    obj.push((String::from_str("start"), JsonValue::Text(start)));
    obj.push((String::from_str("end"), JsonValue::Text(end)));
    let r = JsonValue::Obj(obj);
    proof {
        lemma_entries_model_rec(r->Obj_0@);
        assert(entries_model(obj@) =~= seq![
            ("type"@, Json::Text("FixedDateTimeRange"@)),
            ("start"@, Json::Text(sm)),
            ("end"@, Json::Text(em)),
        ]);
    }
    r
}

pub open spec fn spec_policy_error() -> SpecInvalid {
    SpecInvalid {
        message: "Invalid --policy-id value: it cannot be empty."@,
        hint: Some(
            "Use a UUID, or omit --policy-id to use 00000000-0000-0000-0000-000000000000."@,
        ),
    }
}

fn policy_error() -> (r: CliError)
    ensures
        is_invalid_input(r, spec_policy_error()),
{
    CliError::InvalidInput {
        message: String::from_str("Invalid --policy-id value: it cannot be empty."),
        hint: Some(
            String::from_str(
                "Use a UUID, or omit --policy-id to use 00000000-0000-0000-0000-000000000000.",
            ),
        ),
    }
}

/// The raw blob stage of an event action: the parsed `--json` object, or
/// nothing.
pub open spec fn spec_blob_entries(json: Option<Seq<char>>) -> Result<
    Seq<(Seq<char>, Json)>,
    SpecInvalid,
> {
    match json {
        Some(raw) => spec_parse_json_object(raw, "--json"@),
        None => Ok(Seq::empty()),
    }
}

fn blob_entries(json: &Option<String>) -> (r: Result<Vec<(String, JsonValue)>, CliError>)
    ensures
        match r {
            Ok(entries) => spec_blob_entries(opt_view(*json)) == Ok::<
                Seq<(Seq<char>, Json)>,
                SpecInvalid,
            >(entries_model(entries@)),
            Err(e) => spec_blob_entries(opt_view(*json)) matches Err(se) && is_invalid_input(
                e,
                se,
            ),
        },
{
    match json {
        Some(raw) => parse_json_object_argument(raw.as_str(), "--json"),
        None => {
            let empty: Vec<(String, JsonValue)> = Vec::new();
            proof {
                assert(entries_model(empty@) =~= Seq::<(Seq<char>, Json)>::empty());
            }
            Ok(empty)
        },
    }
}

/// The typed-flag stage of an event creation: the AddEventAction fields in
/// the order they are assembled.
pub open spec fn spec_event_create_base(a: EventsCreateArgs) -> Seq<(Seq<char>, Json)> {
    let b0 = seq![
        ("type"@, Json::Text("AddEventAction"@)),
        ("hash"@, Json::Text(Seq::<char>::empty())),
        ("policyId"@, Json::Text(spec_trim(a.policy_id@))),
        ("eventKey"@, Json::Text(Seq::<char>::empty())),
        ("calendarId"@, Json::Num(spec_decimal(a.calendar_id as nat))),
        ("title"@, Json::Text(a.title@)),
        ("dateRange"@, spec_date_range(spec_trim(a.start@), spec_trim(a.end@))),
        ("guestsCanModify"@, Json::Bool(a.guests_can_modify)),
        ("guestsCanInviteOthers"@, Json::Bool(a.guests_can_invite_others)),
        ("guestsCanSeeOtherGuests"@, Json::Bool(a.guests_can_see_other_guests)),
        ("attendees"@, Json::Arr(spec_attendees(a.attendees.deep_view()))),
    ];
    let b1 = spec_push_trimmed(b0, "description"@, opt_view(a.description));
    let b2 = spec_push_trimmed(b1, "location"@, opt_view(a.location));
    let b3 = match a.priority {
        Some(p) => b2.push(("priority"@, Json::Text(spec_priority_str(p)))),
        None => b2,
    };
    let b4 = match a.visibility {
        Some(v) => b3.push(("visibility"@, Json::Text(spec_visibility_str(v)))),
        None => b3,
    };
    match a.transparency {
        Some(tp) => b4.push(("transparency"@, Json::Text(spec_transparency_str(tp)))),
        None => b4,
    }
}

/// An AddEventAction request: start, end and policy id must be non-blank,
/// and the blob and overrides are layered over the typed fields.
pub open spec fn spec_event_create_request(a: EventsCreateArgs) -> Result<Json, SpecInvalid> {
    if spec_trim(a.start@).len() == 0 || spec_trim(a.end@).len() == 0 {
        Err(
            SpecInvalid {
                message: "Invalid event time range: --start and --end are required."@,
                hint: Some(
                    "Use ISO 8601 timestamps, e.g. --start 2026-02-21T18:30:00Z --end 2026-02-21T19:00:00Z"@,
                ),
            },
        )
    } else if spec_trim(a.policy_id@).len() == 0 {
        Err(spec_policy_error())
    } else {
        match spec_blob_entries(opt_view(a.json)) {
            Err(e) => Err(e),
            Ok(b) => match spec_parse_set_entries(a.set.deep_view()) {
                Err(e) => Err(e),
                Ok(ups) => Ok(spec_wrap_action(spec_event_create_base(a) + b + ups)),
            },
        }
    }
}

/// Builds the AddEventAction envelope for creating an event.
pub fn build_event_create_request(args: EventsCreateArgs) -> (r: Result<JsonValue, CliError>)
    ensures
        match r {
            Ok(v) => spec_event_create_request(args) == Ok::<Json, SpecInvalid>(v@),
            Err(e) => spec_event_create_request(args) matches Err(se) && is_invalid_input(e, se),
        },
{
    let start = trim_str(args.start.as_str());
    let end = trim_str(args.end.as_str());
    if start.as_str().unicode_len() == 0 || end.as_str().unicode_len() == 0 {
        return Err(
            CliError::InvalidInput {
                message: String::from_str(
                    "Invalid event time range: --start and --end are required.",
                ),
                hint: Some(
                    String::from_str(
                        "Use ISO 8601 timestamps, e.g. --start 2026-02-21T18:30:00Z --end 2026-02-21T19:00:00Z",
                    ),
                ),
            },
        );
    }
    let policy_id = trim_str(args.policy_id.as_str());
    if policy_id.as_str().unicode_len() == 0 {
        return Err(policy_error());
    }
    let mut action: Vec<(String, JsonValue)> = Vec::new();
    proof {
        assert(entries_model(action@) =~= Seq::<(Seq<char>, Json)>::empty());
    }
    push_entry(&mut action, "type", JsonValue::Text(String::from_str("AddEventAction")));
    push_entry(&mut action, "hash", JsonValue::Text(String::new()));
    push_entry(&mut action, "policyId", JsonValue::Text(policy_id));
    push_entry(&mut action, "eventKey", JsonValue::Text(String::new()));
    push_entry(&mut action, "calendarId", JsonValue::Num(u64_to_dec(args.calendar_id)));
    push_entry(&mut action, "title", JsonValue::Text(args.title));
    push_entry(&mut action, "dateRange", date_range_json(start, end));
    push_entry(&mut action, "guestsCanModify", JsonValue::Bool(args.guests_can_modify));
    push_entry(
        &mut action,
        "guestsCanInviteOthers",
        JsonValue::Bool(args.guests_can_invite_others),
    );
    push_entry(
        &mut action,
        "guestsCanSeeOtherGuests",
        JsonValue::Bool(args.guests_can_see_other_guests),
    );
    push_entry(&mut action, "attendees", attendees_json(&args.attendees));
    proof {
        assert(entries_model(action@) =~= seq![
            ("type"@, Json::Text("AddEventAction"@)),
            ("hash"@, Json::Text(Seq::<char>::empty())),
            ("policyId"@, Json::Text(spec_trim(args.policy_id@))),
            ("eventKey"@, Json::Text(Seq::<char>::empty())),
            ("calendarId"@, Json::Num(spec_decimal(args.calendar_id as nat))),
            ("title"@, Json::Text(args.title@)),
            ("dateRange"@, spec_date_range(spec_trim(args.start@), spec_trim(args.end@))),
            ("guestsCanModify"@, Json::Bool(args.guests_can_modify)),
            ("guestsCanInviteOthers"@, Json::Bool(args.guests_can_invite_others)),
            ("guestsCanSeeOtherGuests"@, Json::Bool(args.guests_can_see_other_guests)),
            ("attendees"@, Json::Arr(spec_attendees(args.attendees.deep_view()))),
        ]);
    }
    push_trimmed_opt(&mut action, "description", &args.description);
    push_trimmed_opt(&mut action, "location", &args.location);
    if let Some(p) = args.priority {
        push_entry(&mut action, "priority", JsonValue::Text(p.as_str().to_owned()));
    }
    if let Some(v) = args.visibility {
        push_entry(&mut action, "visibility", JsonValue::Text(v.as_str().to_owned()));
    }
    if let Some(tp) = args.transparency {
        push_entry(&mut action, "transparency", JsonValue::Text(tp.as_str().to_owned()));
    }
    proof {
        assert(entries_model(action@) == spec_event_create_base(args));
    }
    let blob = match blob_entries(&args.json) {
        Ok(entries) => entries,
        Err(e) => {
            return Err(e);
        },
    };
    merge_object_fields(&mut action, blob);
    let updates = match parse_set_entries(&args.set) {
        Ok(ups) => ups,
        Err(e) => {
            return Err(e);
        },
    };
    merge_object_fields(&mut action, updates);
    Ok(wrap_action(action))
}

pub open spec fn spec_is_identity_key(k: Seq<char>) -> bool {
    ||| k == "type"@
    ||| k == "hash"@
    ||| k == "policyId"@
    ||| k == "calendarId"@
    ||| k == "eventId"@
}

/// Whether the action carries any field beyond its own identity fields.
pub open spec fn spec_has_update_key(entries: Seq<(Seq<char>, Json)>) -> bool {
    exists|i: int| 0 <= i < entries.len() && !spec_is_identity_key(#[trigger] entries[i].0)
}

fn has_update_key(entries: &Vec<(String, JsonValue)>) -> (r: bool)
    ensures
        r == spec_has_update_key(entries_model(entries@)),
{
    let ghost m = entries_model(entries@);
    let mut i: usize = 0;
    while i < entries.len()
        invariant
            m == entries_model(entries@),
            0 <= i <= entries@.len(),
            m.len() == entries@.len(),
            forall|k: int| 0 <= k < i ==> spec_is_identity_key(#[trigger] m[k].0),
        decreases entries@.len() - i,
    {
        let key = entries[i].0.as_str();
        let identity = crate::text::str_eq(key, "type") || crate::text::str_eq(key, "hash")
            || crate::text::str_eq(key, "policyId") || crate::text::str_eq(key, "calendarId")
            || crate::text::str_eq(key, "eventId");
        if !identity {
            proof {
                assert(!spec_is_identity_key(m[i as int].0));
            }
            return true;
        }
        i = i + 1;
    }
    false
}

/// The typed-flag stage of an event update: identity fields, then each
/// given optional field, then the date range when both ends were given.
pub open spec fn spec_event_update_base(a: EventsUpdateArgs) -> Seq<(Seq<char>, Json)> {
    let b0 = seq![
        ("type"@, Json::Text("UpdateEventAction"@)),
        ("hash"@, Json::Text(Seq::<char>::empty())),
        ("policyId"@, Json::Text(spec_trim(a.policy_id@))),
        ("calendarId"@, Json::Num(spec_decimal(a.calendar_id as nat))),
        ("eventId"@, Json::Text(a.event_id@)),
    ];
    let b1 = spec_push_trimmed(b0, "title"@, opt_view(a.title));
    let b2 = spec_push_trimmed(b1, "description"@, opt_view(a.description));
    let b3 = spec_push_trimmed(b2, "location"@, opt_view(a.location));
    let b4 = match a.priority {
        Some(p) => b3.push(("priority"@, Json::Text(spec_priority_str(p)))),
        None => b3,
    };
    let b5 = match a.visibility {
        Some(v) => b4.push(("visibility"@, Json::Text(spec_visibility_str(v)))),
        None => b4,
    };
    let b6 = match a.transparency {
        Some(tp) => b5.push(("transparency"@, Json::Text(spec_transparency_str(tp)))),
        None => b5,
    };
    if a.start is Some && a.end is Some {
        b6.push(
            ("dateRange"@, spec_date_range(spec_trim(a.start->0@), spec_trim(a.end->0@))),
        )
    } else {
        b6
    }
}

/// An UpdateEventAction request: the policy id must be non-blank, the two
/// range ends come together or not at all, and the final action must change
/// at least one field beyond its identity.
pub open spec fn spec_event_update_request(a: EventsUpdateArgs) -> Result<Json, SpecInvalid> {
    if spec_trim(a.policy_id@).len() == 0 {
        Err(spec_policy_error())
    } else if (a.start is Some) != (a.end is Some) {
        Err(
            SpecInvalid {
                message: "Invalid date range update: --start and --end must be passed together."@,
                hint: Some(
                    "Pass both --start and --end, or neither. For partial advanced updates, use --json."@,
                ),
            },
        )
    } else if a.start is Some && a.end is Some && (spec_trim(a.start->0@).len() == 0 || spec_trim(
        a.end->0@,
    ).len() == 0) {
        Err(
            SpecInvalid {
                message: "Invalid date range update: --start and --end cannot be empty."@,
                hint: Some(
                    "Use ISO 8601 timestamps, e.g. --start 2026-02-21T18:30:00Z --end 2026-02-21T19:00:00Z"@,
                ),
            },
        )
    } else {
        match spec_blob_entries(opt_view(a.json)) {
            Err(e) => Err(e),
            Ok(b) => match spec_parse_set_entries(a.set.deep_view()) {
                Err(e) => Err(e),
                Ok(ups) => {
                    let m = spec_event_update_base(a) + b + ups;
                    if spec_has_update_key(m) {
                        Ok(spec_wrap_action(m))
                    } else {
                        Err(
                            SpecInvalid {
                                message: "Event update requires at least one field change."@,
                                hint: Some(
                                    "Pass one of: --title/--description/--location/--priority/--start+--end, or use --json/--set."@,
                                ),
                            },
                        )
                    }
                },
            },
        }
    }
}

/// Builds the UpdateEventAction envelope for updating an event.
pub fn build_event_update_request(args: EventsUpdateArgs) -> (r: Result<JsonValue, CliError>)
    ensures
        match r {
            Ok(v) => spec_event_update_request(args) == Ok::<Json, SpecInvalid>(v@),
            Err(e) => spec_event_update_request(args) matches Err(se) && is_invalid_input(e, se),
        },
{
    let policy_id = trim_str(args.policy_id.as_str());
    if policy_id.as_str().unicode_len() == 0 {
        return Err(policy_error());
    }
    if args.start.is_some() != args.end.is_some() {
        return Err(
            CliError::InvalidInput {
                message: String::from_str(
                    "Invalid date range update: --start and --end must be passed together.",
                ),
                hint: Some(
                    String::from_str(
                        "Pass both --start and --end, or neither. For partial advanced updates, use --json.",
                    ),
                ),
            },
        );
    }
    let date_range: Option<JsonValue> = match (&args.start, &args.end) {
        (Some(start), Some(end)) => {
            let start = trim_str(start.as_str());
            let end = trim_str(end.as_str());
            if start.as_str().unicode_len() == 0 || end.as_str().unicode_len() == 0 {
                return Err(
                    CliError::InvalidInput {
                        message: String::from_str(
                            "Invalid date range update: --start and --end cannot be empty.",
                        ),
                        hint: Some(
                            String::from_str(
                                "Use ISO 8601 timestamps, e.g. --start 2026-02-21T18:30:00Z --end 2026-02-21T19:00:00Z",
                            ),
                        ),
                    },
                );
            }
            Some(date_range_json(start, end))
        },
        _ => None,
    };
    let mut action: Vec<(String, JsonValue)> = Vec::new();
    proof {
        assert(entries_model(action@) =~= Seq::<(Seq<char>, Json)>::empty());
    }
    push_entry(&mut action, "type", JsonValue::Text(String::from_str("UpdateEventAction")));
    push_entry(&mut action, "hash", JsonValue::Text(String::new()));
    push_entry(&mut action, "policyId", JsonValue::Text(policy_id));
    push_entry(&mut action, "calendarId", JsonValue::Num(u64_to_dec(args.calendar_id)));
    push_entry(&mut action, "eventId", JsonValue::Text(args.event_id));
    proof {
        assert(entries_model(action@) =~= seq![
            ("type"@, Json::Text("UpdateEventAction"@)),
            ("hash"@, Json::Text(Seq::<char>::empty())),
            ("policyId"@, Json::Text(spec_trim(args.policy_id@))),
            ("calendarId"@, Json::Num(spec_decimal(args.calendar_id as nat))),
            ("eventId"@, Json::Text(args.event_id@)),
        ]);
    }
    push_trimmed_opt(&mut action, "title", &args.title);
    push_trimmed_opt(&mut action, "description", &args.description);
    push_trimmed_opt(&mut action, "location", &args.location);
    if let Some(p) = args.priority {
        push_entry(&mut action, "priority", JsonValue::Text(p.as_str().to_owned()));
    }
    if let Some(v) = args.visibility {
        push_entry(&mut action, "visibility", JsonValue::Text(v.as_str().to_owned()));
    }
    if let Some(tp) = args.transparency {
        push_entry(&mut action, "transparency", JsonValue::Text(tp.as_str().to_owned()));
    }
    if let Some(dr) = date_range {
        push_entry(&mut action, "dateRange", dr);
    }
    proof {
        assert(entries_model(action@) == spec_event_update_base(args));
    }
    let blob = match blob_entries(&args.json) {
        Ok(entries) => entries,
        Err(e) => {
            return Err(e);
        },
    };
    merge_object_fields(&mut action, blob);
    let updates = match parse_set_entries(&args.set) {
        Ok(ups) => ups,
        Err(e) => {
            return Err(e);
        },
    };
    merge_object_fields(&mut action, updates);
    if !has_update_key(&action) {
        return Err(
            CliError::InvalidInput {
                message: String::from_str("Event update requires at least one field change."),
                hint: Some(
                    String::from_str(
                        "Pass one of: --title/--description/--location/--priority/--start+--end, or use --json/--set.",
                    ),
                ),
            },
        );
    }
    Ok(wrap_action(action))
}

/// A CancelEventAction request: the policy id must be non-blank; the event
/// is addressed by its `calendarId/eventId` key.
pub open spec fn spec_event_delete_request(a: EventsDeleteArgs) -> Result<Json, SpecInvalid> {
    if spec_trim(a.policy_id@).len() == 0 {
        Err(spec_policy_error())
    } else {
        let b0 = seq![
            ("type"@, Json::Text("CancelEventAction"@)),
            ("hash"@, Json::Text(Seq::<char>::empty())),
            ("policyId"@, Json::Text(spec_trim(a.policy_id@))),
            (
                "eventKey"@,
                Json::Text(spec_decimal(a.calendar_id as nat) + "/"@ + a.event_id@),
            ),
        ];
        Ok(
            spec_wrap_action(
                spec_push_trimmed(b0, "notificationMessage"@, opt_view(a.message)),
            ),
        )
    }
}

/// Builds the CancelEventAction envelope for deleting (cancelling) an
/// event.
pub fn build_event_delete_request(args: EventsDeleteArgs) -> (r: Result<JsonValue, CliError>)
    ensures
        match r {
            Ok(v) => spec_event_delete_request(args) == Ok::<Json, SpecInvalid>(v@),
            Err(e) => spec_event_delete_request(args) matches Err(se) && is_invalid_input(e, se),
        },
{
    let policy_id = trim_str(args.policy_id.as_str());
    if policy_id.as_str().unicode_len() == 0 {
        return Err(policy_error());
    }
    let mut event_key = u64_to_dec(args.calendar_id);
    event_key.append("/");
    event_key.append(args.event_id.as_str());
    let mut action: Vec<(String, JsonValue)> = Vec::new();
    proof {
        assert(entries_model(action@) =~= Seq::<(Seq<char>, Json)>::empty());
    }
    push_entry(&mut action, "type", JsonValue::Text(String::from_str("CancelEventAction")));
    push_entry(&mut action, "hash", JsonValue::Text(String::new()));
    push_entry(&mut action, "policyId", JsonValue::Text(policy_id));
    push_entry(&mut action, "eventKey", JsonValue::Text(event_key));
    proof {
        assert(entries_model(action@) =~= seq![
            ("type"@, Json::Text("CancelEventAction"@)),
            ("hash"@, Json::Text(Seq::<char>::empty())),
            ("policyId"@, Json::Text(spec_trim(args.policy_id@))),
            (
                "eventKey"@,
                Json::Text(spec_decimal(args.calendar_id as nat) + "/"@ + args.event_id@),
            ),
        ]);
    }
    push_trimmed_opt(&mut action, "notificationMessage", &args.message);
    Ok(wrap_action(action))
}

pub open spec fn spec_due_blank(a: CreateArgs) -> bool {
    a.due matches Some(d) && spec_trim(d@).len() == 0
}

pub open spec fn spec_chunks_orphaned(a: CreateArgs) -> bool {
    (a.min_chunk_size is Some || a.max_chunk_size is Some) && a.time_chunks_required is None
}

/// The minimum chunk size after defaulting: the given one, else 1.
pub open spec fn spec_resolved_min(a: CreateArgs) -> u32 {
    match a.min_chunk_size {
        Some(m) => m,
        None => 1,
    }
}

/// The maximum chunk size after defaulting: the given one, else the total.
pub open spec fn spec_resolved_max(a: CreateArgs) -> u32
    recommends
        a.time_chunks_required is Some,
{
    match a.max_chunk_size {
        Some(m) => m,
        None => a.time_chunks_required->0,
    }
}

pub open spec fn spec_msg_min_exceeds(min: u32, total: u32) -> SpecInvalid {
    SpecInvalid {
        message: "Invalid --min-chunk-size value: "@ + spec_decimal(min as nat)
            + " exceeds --time-chunks-required ("@ + spec_decimal(total as nat) + ")."@,
        hint: Some("Use a min chunk size less than or equal to --time-chunks-required."@),
    }
}

pub open spec fn spec_msg_max_exceeds(max: u32, total: u32) -> SpecInvalid {
    SpecInvalid {
        message: "Invalid --max-chunk-size value: "@ + spec_decimal(max as nat)
            + " exceeds --time-chunks-required ("@ + spec_decimal(total as nat) + ")."@,
        hint: Some("Use a max chunk size less than or equal to --time-chunks-required."@),
    }
}

pub open spec fn spec_msg_bounds_crossed(min: u32, max: u32) -> SpecInvalid {
    SpecInvalid {
        message: "Invalid chunk bounds: --min-chunk-size ("@ + spec_decimal(min as nat)
            + ") cannot exceed --max-chunk-size ("@ + spec_decimal(max as nat) + ")."@,
        hint: Some("Choose chunk sizes where min <= max."@),
    }
}

/// The Invalid-Input error a create request fails with, if any: blank due,
/// orphaned chunk bounds, a bound above the total, or crossed bounds — in
/// that order.
pub open spec fn spec_create_error(a: CreateArgs) -> Option<SpecInvalid> {
    if spec_due_blank(a) {
        Some(
            SpecInvalid {
                message: "Invalid --due value: it cannot be empty."@,
                hint: Some("Use ISO 8601, for example: --due 2026-02-19T15:00:00Z"@),
            },
        )
    } else if spec_chunks_orphaned(a) {
        Some(
            SpecInvalid {
                message: "Invalid chunk options: --min-chunk-size/--max-chunk-size require --time-chunks-required."@,
                hint: Some(
                    "Pass --time-chunks-required with chunk size options, e.g. --time-chunks-required 4 --min-chunk-size 2 --max-chunk-size 4"@,
                ),
            },
        )
    } else {
        match a.time_chunks_required {
            Some(tc) => if spec_resolved_min(a) > tc {
                Some(spec_msg_min_exceeds(spec_resolved_min(a), tc))
            } else if spec_resolved_max(a) > tc {
                Some(spec_msg_max_exceeds(spec_resolved_max(a), tc))
            } else if spec_resolved_min(a) > spec_resolved_max(a) {
                Some(spec_msg_bounds_crossed(spec_resolved_min(a), spec_resolved_max(a)))
            } else {
                None
            },
            None => None,
        }
    }
}

fn bound_message(prefix: &str, bound: u32, total: u32) -> (r: String)
    ensures
        r@ == prefix@ + spec_decimal(bound as nat) + " exceeds --time-chunks-required ("@
            + spec_decimal(total as nat) + ")."@,
{
    let mut message = prefix.to_owned();
    let b = u64_to_dec(bound as u64);
    message.append(b.as_str());
    message.append(" exceeds --time-chunks-required (");
    let t = u64_to_dec(total as u64);
    message.append(t.as_str());
    message.append(").");
    message
}

/// Validates and resolves a create request. With a total given and bounds
/// omitted, the bounds default to 1 and the total; each bound must stay
/// within the total, and the minimum within the maximum.
pub fn build_create_task_request(args: CreateArgs) -> (r: Result<CreateTaskRequest, CliError>)
    ensures
        spec_create_error(args) matches Some(se) ==> (r matches Err(e) && is_invalid_input(e, se)),
        spec_create_error(args) is None ==> (r matches Ok(q) && {
            &&& q.title == args.title
            &&& q.notes == args.notes
            &&& q.due == args.due
            &&& match args.priority {
                Some(p) => opt_view(q.priority) == Some(spec_priority_str(p)),
                None => q.priority is None,
            }
            &&& q.time_chunks_required == args.time_chunks_required
            &&& q.min_chunk_size == if args.time_chunks_required is Some {
                Some(spec_resolved_min(args))
            } else {
                None::<u32>
            }
            &&& q.max_chunk_size == if args.time_chunks_required is Some {
                Some(spec_resolved_max(args))
            } else {
                None::<u32>
            }
            &&& opt_view(q.event_category) == Some(spec_category_str(args.event_category))
            &&& q.always_private == Some(args.always_private)
        }),
{
    if let Some(due) = &args.due {
        let trimmed = trim_str(due.as_str());
        if trimmed.as_str().unicode_len() == 0 {
            return Err(
                CliError::InvalidInput {
                    message: String::from_str("Invalid --due value: it cannot be empty."),
                    hint: Some(
                        String::from_str("Use ISO 8601, for example: --due 2026-02-19T15:00:00Z"),
                    ),
                },
            );
        }
    }
    if (args.min_chunk_size.is_some() || args.max_chunk_size.is_some())
        && args.time_chunks_required.is_none() {
        return Err(
            CliError::InvalidInput {
                message: String::from_str(
                    "Invalid chunk options: --min-chunk-size/--max-chunk-size require --time-chunks-required.",
                ),
                hint: Some(
                    String::from_str(
                        "Pass --time-chunks-required with chunk size options, e.g. --time-chunks-required 4 --min-chunk-size 2 --max-chunk-size 4",
                    ),
                ),
            },
        );
    }
    let mut min_chunk_size = args.min_chunk_size;
    let mut max_chunk_size = args.max_chunk_size;
    if let Some(total_chunks) = args.time_chunks_required {
        let resolved_min = match min_chunk_size {
            Some(m) => m,
            None => 1,
        };
        let resolved_max = match max_chunk_size {
            Some(m) => m,
            None => total_chunks,
        };
        min_chunk_size = Some(resolved_min);
        max_chunk_size = Some(resolved_max);
        if resolved_min > total_chunks {
            return Err(
                CliError::InvalidInput {
                    message: bound_message(
                        "Invalid --min-chunk-size value: ",
                        resolved_min,
                        total_chunks,
                    ),
                    hint: Some(
                        String::from_str(
                            "Use a min chunk size less than or equal to --time-chunks-required.",
                        ),
                    ),
                },
            );
        }
        if resolved_max > total_chunks {
            return Err(
                CliError::InvalidInput {
                    message: bound_message(
                        "Invalid --max-chunk-size value: ",
                        resolved_max,
                        total_chunks,
                    ),
                    hint: Some(
                        String::from_str(
                            "Use a max chunk size less than or equal to --time-chunks-required.",
                        ),
                    ),
                },
            );
        }
        if resolved_min > resolved_max {
            let mut message = String::from_str("Invalid chunk bounds: --min-chunk-size (");
            let mn = u64_to_dec(resolved_min as u64);
            message.append(mn.as_str());
            message.append(") cannot exceed --max-chunk-size (");
            let mx = u64_to_dec(resolved_max as u64);
            message.append(mx.as_str());
            message.append(").");
            return Err(
                CliError::InvalidInput {
                    message,
                    hint: Some(String::from_str("Choose chunk sizes where min <= max.")),
                },
            );
        }
    }
    Ok(
        CreateTaskRequest {
            title: args.title,
            notes: args.notes,
            priority: match args.priority {
                Some(p) => Some(p.as_str().to_owned()),
                None => None,
            },
            due: args.due,
            time_chunks_required: args.time_chunks_required,
            min_chunk_size,
            max_chunk_size,
            event_category: Some(args.event_category.as_str().to_owned()),
            always_private: Some(args.always_private),
        },
    )
}

} // verus!
