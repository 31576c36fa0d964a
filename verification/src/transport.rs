//! Transport configuration and request construction: bearer credential and
//! base-URL validation at construction time, and the method, path, query
//! and body of every API request. The HTTP client itself lives outside the
//! library; it performs exactly the plans built here.

use vstd::prelude::*;
use vstd::string::*;

use crate::error::CliError;
use crate::json::JsonValue;
use crate::model::{CreateTaskRequest, EventListQuery};
use crate::text::{opt_view, spec_decimal, spec_trim, spec_trim_end_char, trim_end_char, trim_str, u64_to_dec};

verus! {

/// A snapshot of an outgoing request, threaded through every error path so
/// failures can show exactly what was sent.
#[derive(Debug)]
pub struct RequestDebugInfo {
    pub method: String,
    pub url: String,
    pub body: Option<String>,
}

/// The mathematical view of a request snapshot.
#[verifier::ext_equal]
pub struct DebugModel {
    pub method: Seq<char>,
    pub url: Seq<char>,
    pub body: Option<Seq<char>>,
}

impl View for RequestDebugInfo {
    type V = DebugModel;

    open spec fn view(&self) -> DebugModel {
        DebugModel { method: self.method@, url: self.url@, body: opt_view(self.body) }
    }
}

pub open spec fn opt_debug_view(d: Option<&RequestDebugInfo>) -> Option<DebugModel> {
    match d {
        Some(info) => Some(info@),
        None => None,
    }
}

/// An HTTP method of the API surface.
#[derive(Debug, Clone, Copy, Eq, PartialEq, Structural)]
pub enum HttpMethod {
    Get,
    Post,
    Put,
    Patch,
    Delete,
}

pub open spec fn spec_method_str(m: HttpMethod) -> Seq<char> {
    match m {
        HttpMethod::Get => "GET"@,
        HttpMethod::Post => "POST"@,
        HttpMethod::Put => "PUT"@,
        HttpMethod::Patch => "PATCH"@,
        HttpMethod::Delete => "DELETE"@,
    }
}

impl HttpMethod {
    pub fn as_str(self) -> (r: &'static str)
        ensures
            r@ == spec_method_str(self),
    {
        match self {
            HttpMethod::Get => "GET",
            HttpMethod::Post => "POST",
            HttpMethod::Put => "PUT",
            HttpMethod::Patch => "PATCH",
            HttpMethod::Delete => "DELETE",
        }
    }
}

/// One request, fully determined: method, path relative to the base URL,
/// query parameters, and an optional JSON body.
#[derive(Debug)]
pub struct RequestPlan {
    pub method: HttpMethod,
    pub path: String,
    pub query: Vec<(String, String)>,
    pub body: Option<JsonValue>,
}

pub open spec fn pairs_model(s: Seq<(String, String)>) -> Seq<(Seq<char>, Seq<char>)> {
    Seq::new(s.len(), |i: int| (s[i].0@, s[i].1@))
}

pub open spec fn spec_bool_str(b: bool) -> Seq<char> {
    if b {
        "true"@
    } else {
        "false"@
    }
}

fn bool_str(b: bool) -> (r: &'static str)
    ensures
        r@ == spec_bool_str(b),
{
    if b {
        "true"
    } else {
        "false"
    }
}

/// What `url::Url::parse` yields on a text: the URL's serialization and
/// its path, or nothing where the text does not parse.
pub uninterp spec fn spec_url_parse(s: Seq<char>) -> Option<(Seq<char>, Seq<char>)>;

/// Relies on url::Url::parse: `Some` exactly when the text parses as an
/// absolute URL, and then the parsed URL's serialization and path. The
/// parse is a function of the text alone.
#[verifier::external_body]
fn url_parse_parts(raw: &str) -> (r: Option<(String, String)>)
    ensures
        (r is Some) == (spec_url_parse(raw@) is Some),
        r matches Some(p) ==> Some((p.0@, p.1@)) == spec_url_parse(raw@),
{
    match url::Url::parse(raw) {
        Ok(u) => {
            let path = u.path().to_string();
            Some((String::from(u), path))
        },
        Err(_) => None,
    }
}

/// The serialization of a parsed URL after its path is replaced.
pub uninterp spec fn spec_url_with_path(base: Seq<char>, path: Seq<char>) -> Option<Seq<char>>;

/// Relies on url::Url::parse and Url::set_path: the URL re-serialized with
/// the given path, a function of the two texts alone.
#[verifier::external_body]
fn url_with_path(base: &str, path: &str) -> (r: Option<String>)
    ensures
        (r is Some) == (spec_url_with_path(base@, path@) is Some),
        r matches Some(s) ==> Some(s@) == spec_url_with_path(base@, path@),
{
    match url::Url::parse(base) {
        Ok(mut u) => {
            u.set_path(path);
            Some(String::from(u))
        },
        Err(_) => None,
    }
}

/// The normalized base URL: the parsed URL's serialization, with a
/// trailing path separator guaranteed so relative joins behave predictably.
pub open spec fn spec_normalize_base_url(raw: Seq<char>) -> Option<Seq<char>> {
    match spec_url_parse(raw) {
        None => None,
        Some(parts) => if parts.1.len() > 0 && parts.1.last() == '/' {
            Some(parts.0)
        } else {
            spec_url_with_path(parts.0, spec_trim_end_char(parts.1, '/') + "/"@)
        },
    }
}

/// Normalizes the base URL, failing fast with Invalid-Base-URL on a
/// malformed one.
pub fn normalize_base_url(raw: &str) -> (r: Result<String, CliError>)
    ensures
        match r {
            Ok(s) => spec_normalize_base_url(raw@) == Some(s@),
            Err(e) => spec_normalize_base_url(raw@) is None && (e matches
                CliError::InvalidBaseUrl(u) && u@ == raw@),
        },
{
    let parts = match url_parse_parts(raw) {
        Some(parts) => parts,
        None => {
            return Err(CliError::InvalidBaseUrl(raw.to_owned()));
        },
    };
    let (text, path) = parts;
    let plen = path.as_str().unicode_len();
    if plen > 0 && path.as_str().get_char(plen - 1) == '/' {
        return Ok(text);
    }
    let mut adjusted = trim_end_char(path.as_str(), '/');
    adjusted.append("/");
    match url_with_path(text.as_str(), adjusted.as_str()) {
        Some(normalized) => Ok(normalized),
        None => Err(CliError::InvalidBaseUrl(raw.to_owned())),
    }
}

/// The transport configuration: one credential, base URL and timeout per
/// client, fixed for its lifetime.
#[derive(Debug)]
pub struct HttpReclaimApi {
    pub api_key: String,
    pub base_url: String,
    pub timeout_secs: u64,
}

impl HttpReclaimApi {
    /// Validates the credential and the base URL up front: a missing or
    /// blank key and a malformed URL each fail here, never at request
    /// time. The timeout is at least one second.
    pub fn new(api_key: Option<String>, base_url: String, timeout_secs: u64) -> (r: Result<
        Self,
        CliError,
    >)
        ensures
            match r {
                Ok(api) => {
                    &&& api_key matches Some(k) && spec_trim(k@).len() > 0
                    &&& api.api_key@ == spec_trim(api_key->0@)
                    &&& spec_normalize_base_url(base_url@) == Some(api.base_url@)
                    &&& api.timeout_secs == if timeout_secs >= 1 {
                        timeout_secs
                    } else {
                        1u64
                    }
                },
                Err(e) => match e {
                    CliError::MissingApiKey => !(api_key matches Some(k) && spec_trim(k@).len()
                        > 0),
                    CliError::InvalidBaseUrl(u) => (api_key matches Some(k) && spec_trim(k@).len()
                        > 0) && spec_normalize_base_url(base_url@) is None && u@ == base_url@,
                    _ => false,
                },
            },
    {
        let key = match api_key {
            Some(k) => {
                let trimmed = trim_str(k.as_str());
                if trimmed.as_str().unicode_len() == 0 {
                    return Err(CliError::MissingApiKey);
                }
                trimmed
            },
            None => {
                return Err(CliError::MissingApiKey);
            },
        };
        let normalized = match normalize_base_url(base_url.as_str()) {
            Ok(s) => s,
            Err(e) => {
                return Err(e);
            },
        };
        let timeout = if timeout_secs >= 1 {
            timeout_secs
        } else {
            1
        };
        Ok(HttpReclaimApi { api_key: key, base_url: normalized, timeout_secs: timeout })
    }

    /// The request that lists every task; client-side filtering happens
    /// after the fetch.
    pub fn list_tasks_plan(&self) -> (r: RequestPlan)
        ensures
            r.method == HttpMethod::Get,
            r.path@ == "tasks"@,
            pairs_model(r.query@) =~= Seq::<(Seq<char>, Seq<char>)>::empty(),
            r.body is None,
    {
        RequestPlan {
            method: HttpMethod::Get,
            path: String::from_str("tasks"),
            query: Vec::new(),
            body: None,
        }
    }

    /// The request that fetches one task by id.
    pub fn get_task_plan(&self, task_id: u64) -> (r: RequestPlan)
        ensures
            r.method == HttpMethod::Get,
            r.path@ == "tasks/"@ + spec_decimal(task_id as nat),
            pairs_model(r.query@) =~= Seq::<(Seq<char>, Seq<char>)>::empty(),
            r.body is None,
    {
        RequestPlan {
            method: HttpMethod::Get,
            path: task_path(task_id),
            query: Vec::new(),
            body: None,
        }
    }

    /// The request that creates a task from a validated create request.
    pub fn create_task_plan(&self, request: &CreateTaskRequest) -> (r: RequestPlan)
        ensures
            r.method == HttpMethod::Post,
            r.path@ == "tasks"@,
            pairs_model(r.query@) =~= Seq::<(Seq<char>, Seq<char>)>::empty(),
            r.body matches Some(b) && b@ == crate::json::Json::Obj(
                crate::model::spec_create_request_entries(*request),
            ),
    {
        RequestPlan {
            method: HttpMethod::Post,
            path: String::from_str("tasks"),
            query: Vec::new(),
            body: Some(request.to_json()),
        }
    }

    /// The request that lists events with the given query.
    pub fn list_events_plan(&self, query: &EventListQuery) -> (r: RequestPlan)
        ensures
            r.method == HttpMethod::Get,
            r.path@ == "events"@,
            pairs_model(r.query@) == spec_event_query(*query),
            r.body is None,
    {
        RequestPlan {
            method: HttpMethod::Get,
            path: String::from_str("events"),
            query: event_query_pairs(query),
            body: None,
        }
    }

    /// The request that fetches one event by calendar and event id.
    pub fn get_event_plan(
        &self,
        calendar_id: u64,
        event_id: &str,
        source_details: Option<bool>,
        thin: Option<bool>,
    ) -> (r: RequestPlan)
        ensures
            r.method == HttpMethod::Get,
            r.path@ == "events/"@ + spec_decimal(calendar_id as nat) + "/"@ + event_id@,
            pairs_model(r.query@) == spec_flag_pairs(source_details, thin),
            r.body is None,
    {
        let mut path = String::from_str("events/");
        let dec = u64_to_dec(calendar_id);
        path.append(dec.as_str());
        path.append("/");
        path.append(event_id);
        let mut query: Vec<(String, String)> = Vec::new();
        proof {
            assert(pairs_model(query@) =~= Seq::<(Seq<char>, Seq<char>)>::empty());
        }
        if let Some(sd) = source_details {
            push_pair(&mut query, "sourceDetails", bool_str(sd));
        }
        if let Some(t) = thin {
            push_pair(&mut query, "thin", bool_str(t));
        }
        RequestPlan { method: HttpMethod::Get, path, query, body: None }
    }

    /// The request that applies a batch of schedule actions.
    pub fn apply_schedule_actions_plan(&self, request: JsonValue) -> (r: RequestPlan)
        ensures
            r.method == HttpMethod::Post,
            r.path@ == "schedule-actions/apply-actions"@,
            pairs_model(r.query@) =~= Seq::<(Seq<char>, Seq<char>)>::empty(),
            r.body matches Some(b) && b@ == request@,
    {
        RequestPlan {
            method: HttpMethod::Post,
            path: String::from_str("schedule-actions/apply-actions"),
            query: Vec::new(),
            body: Some(request),
        }
    }

    /// The request that replaces a task, with the notification key
    /// attached only when non-blank.
    pub fn put_task_plan(
        &self,
        task_id: u64,
        request: JsonValue,
        notification_key: Option<&str>,
    ) -> (r: RequestPlan)
        ensures
            r.method == HttpMethod::Put,
            r.path@ == "tasks/"@ + spec_decimal(task_id as nat),
            pairs_model(r.query@) == spec_notification_query(opt_str_view(notification_key)),
            r.body matches Some(b) && b@ == request@,
    {
        RequestPlan {
            method: HttpMethod::Put,
            path: task_path(task_id),
            query: notification_query(notification_key),
            body: Some(request),
        }
    }

    /// The request that partially updates a task.
    pub fn patch_task_plan(
        &self,
        task_id: u64,
        request: JsonValue,
        notification_key: Option<&str>,
    ) -> (r: RequestPlan)
        ensures
            r.method == HttpMethod::Patch,
            r.path@ == "tasks/"@ + spec_decimal(task_id as nat),
            pairs_model(r.query@) == spec_notification_query(opt_str_view(notification_key)),
            r.body matches Some(b) && b@ == request@,
    {
        RequestPlan {
            method: HttpMethod::Patch,
            path: task_path(task_id),
            query: notification_query(notification_key),
            body: Some(request),
        }
    }

    /// The request that deletes a task.
    pub fn delete_task_plan(&self, task_id: u64, notification_key: Option<&str>) -> (r:
        RequestPlan)
        ensures
            r.method == HttpMethod::Delete,
            r.path@ == "tasks/"@ + spec_decimal(task_id as nat),
            pairs_model(r.query@) == spec_notification_query(opt_str_view(notification_key)),
            r.body is None,
    {
        RequestPlan {
            method: HttpMethod::Delete,
            path: task_path(task_id),
            query: notification_query(notification_key),
            body: None,
        }
    }
}

fn task_path(task_id: u64) -> (r: String)
    ensures
        r@ == "tasks/"@ + spec_decimal(task_id as nat),
{
    let mut path = String::from_str("tasks/");
    let dec = u64_to_dec(task_id);
    path.append(dec.as_str());
    path
}

pub open spec fn opt_str_view(o: Option<&str>) -> Option<Seq<char>> {
    match o {
        Some(s) => Some(s@),
        None => None,
    }
}

/// The notification-key query: present only when the caller passed a
/// non-blank key, trimmed.
pub open spec fn spec_notification_query(nk: Option<Seq<char>>) -> Seq<(Seq<char>, Seq<char>)> {
    match nk {
        Some(s) => if spec_trim(s).len() > 0 {
            seq![("notificationKey"@, spec_trim(s))]
        } else {
            Seq::empty()
        },
        None => Seq::empty(),
    }
}

fn notification_query(notification_key: Option<&str>) -> (r: Vec<(String, String)>)
    ensures
        pairs_model(r@) == spec_notification_query(opt_str_view(notification_key)),
{
    let mut query: Vec<(String, String)> = Vec::new();
    proof {
        assert(pairs_model(query@) =~= Seq::<(Seq<char>, Seq<char>)>::empty());
    }
    if let Some(nk) = notification_key {
        let trimmed = trim_str(nk);
        if trimmed.as_str().unicode_len() > 0 {
            let ghost pre = pairs_model(query@);
            query.push((String::from_str("notificationKey"), trimmed));
            proof {
                assert(pairs_model(query@) =~= seq![("notificationKey"@, spec_trim(nk@))]);
            }
        }
    }
    query
}

fn push_pair(query: &mut Vec<(String, String)>, key: &str, value: &str)
    ensures
        pairs_model(final(query)@) == pairs_model(old(query)@).push((key@, value@)),
{
    let ghost pre = pairs_model(query@);
    query.push((key.to_owned(), value.to_owned()));
    proof {
        assert(pairs_model(query@) =~= pre.push((key@, value@)));
    }
}

pub open spec fn spec_push_opt_bool_pair(
    pairs: Seq<(Seq<char>, Seq<char>)>,
    key: Seq<char>,
    o: Option<bool>,
) -> Seq<(Seq<char>, Seq<char>)> {
    match o {
        Some(b) => pairs.push((key, spec_bool_str(b))),
        None => pairs,
    }
}

/// The optional source-details and thin flags of an event fetch.
pub open spec fn spec_flag_pairs(source_details: Option<bool>, thin: Option<bool>) -> Seq<
    (Seq<char>, Seq<char>),
> {
    spec_push_opt_bool_pair(
        spec_push_opt_bool_pair(Seq::empty(), "sourceDetails"@, source_details),
        "thin"@,
        thin,
    )
}

/// The calendar-id pairs of an events listing, in order.
pub open spec fn spec_calendar_pairs(ids: Seq<u64>) -> Seq<(Seq<char>, Seq<char>)>
    decreases ids.len(),
{
    if ids.len() == 0 {
        Seq::empty()
    } else {
        spec_calendar_pairs(ids.drop_last()).push(
            ("calendarIds"@, spec_decimal(ids.last() as nat)),
        )
    }
}

/// Appends `(key, trimmed text)` when the optional text is non-blank.
pub open spec fn spec_push_trimmed_pair(
    pairs: Seq<(Seq<char>, Seq<char>)>,
    key: Seq<char>,
    o: Option<Seq<char>>,
) -> Seq<(Seq<char>, Seq<char>)> {
    match o {
        Some(s) => if spec_trim(s).len() > 0 {
            pairs.push((key, spec_trim(s)))
        } else {
            pairs
        },
        None => pairs,
    }
}

/// The full query of an events listing: every calendar id, then the
/// optional flags and date bounds that were given.
pub open spec fn spec_event_query(q: EventListQuery) -> Seq<(Seq<char>, Seq<char>)> {
    let p0 = spec_calendar_pairs(q.calendar_ids@);
    let p1 = spec_push_opt_bool_pair(p0, "allConnected"@, q.all_connected);
    let p2 = spec_push_trimmed_pair(p1, "start"@, opt_view(q.start));
    let p3 = spec_push_trimmed_pair(p2, "end"@, opt_view(q.end));
    let p4 = spec_push_opt_bool_pair(p3, "sourceDetails"@, q.source_details);
    spec_push_opt_bool_pair(p4, "thin"@, q.thin)
}

#[verifier::loop_isolation(false)]
fn event_query_pairs(q: &EventListQuery) -> (r: Vec<(String, String)>)
    ensures
        pairs_model(r@) == spec_event_query(*q),
{
    let mut query: Vec<(String, String)> = Vec::new();
    proof {
        assert(pairs_model(query@) =~= Seq::<(Seq<char>, Seq<char>)>::empty());
        assert(q.calendar_ids@.take(0) =~= Seq::<u64>::empty());
    }
    let mut i: usize = 0;
    while i < q.calendar_ids.len()
        invariant
            0 <= i <= q.calendar_ids@.len(),
            pairs_model(query@) == spec_calendar_pairs(q.calendar_ids@.take(i as int)),
        decreases q.calendar_ids@.len() - i,
    {
        proof {
            assert(q.calendar_ids@.take(i as int + 1).drop_last() =~= q.calendar_ids@.take(
                i as int,
            ));
        }
        let dec = u64_to_dec(q.calendar_ids[i]);
        push_pair(&mut query, "calendarIds", dec.as_str());
        i = i + 1;
    }
    proof {
        assert(q.calendar_ids@.take(q.calendar_ids@.len() as int) =~= q.calendar_ids@);
    }
    if let Some(b) = q.all_connected {
        push_pair(&mut query, "allConnected", bool_str(b));
    }
    push_trimmed_pair(&mut query, "start", &q.start);
    push_trimmed_pair(&mut query, "end", &q.end);
    if let Some(b) = q.source_details {
        push_pair(&mut query, "sourceDetails", bool_str(b));
    }
    if let Some(b) = q.thin {
        push_pair(&mut query, "thin", bool_str(b));
    }
    query
}

fn push_trimmed_pair(query: &mut Vec<(String, String)>, key: &str, o: &Option<String>)
    ensures
        pairs_model(final(query)@) == spec_push_trimmed_pair(
            pairs_model(old(query)@),
            key@,
            opt_view(*o),
        ),
{
    if let Some(s) = o {
        let trimmed = trim_str(s.as_str());
        if trimmed.as_str().unicode_len() > 0 {
            let ghost pre = pairs_model(query@);
            query.push((key.to_owned(), trimmed));
            proof {
                assert(pairs_model(query@) =~= pre.push((key@, spec_trim(s@))));
            }
        }
    }
}

} // verus!
