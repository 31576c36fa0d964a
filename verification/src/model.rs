//! The domain model: the task value shape exchanged with the API, its JSON
//! encoding and tolerant decoding (unknown fields are preserved verbatim),
//! the create-task request shape, and the client-side task filters.

use vstd::prelude::*;
use vstd::string::*;

use crate::cli::{TaskCompletionFilter, TaskFilter};
use crate::json::{
    entries_model, entries_model_rec, jmodel, lemma_arr_model_rec, lemma_entries_model_rec,
    obj_get, sget, Json, JsonValue,
};
use crate::text::{
    opt_view, parse_u64_digits, spec_decimal, spec_eq_ignore_ascii_case, spec_parse_u64,
    str_eq, str_eq_ignore_ascii_case, u64_to_dec,
};

verus! {

/// A remote-owned task. `extra` carries every field the service returned
/// that the client does not model explicitly; it survives a read, modify,
/// write round trip unchanged unless explicitly overridden.
#[derive(Debug, PartialEq)]
pub struct Task {
    pub id: u64,
    pub title: String,
    pub status: Option<String>,
    pub due: Option<String>,
    pub priority: Option<String>,
    pub notes: Option<String>,
    pub deleted: bool,
    pub extra: Vec<(String, JsonValue)>,
}

/// The mathematical view of a `Task`.
#[verifier::ext_equal]
pub struct TaskModel {
    pub id: u64,
    pub title: Seq<char>,
    pub status: Option<Seq<char>>,
    pub due: Option<Seq<char>>,
    pub priority: Option<Seq<char>>,
    pub notes: Option<Seq<char>>,
    pub deleted: bool,
    pub extra: Seq<(Seq<char>, Json)>,
}

impl View for Task {
    type V = TaskModel;

    open spec fn view(&self) -> TaskModel {
        TaskModel {
            id: self.id,
            title: self.title@,
            status: opt_view(self.status),
            due: opt_view(self.due),
            priority: opt_view(self.priority),
            notes: opt_view(self.notes),
            deleted: self.deleted,
            extra: entries_model(self.extra@),
        }
    }
}

pub open spec fn spec_opt_text_json(o: Option<Seq<char>>) -> Json {
    match o {
        Some(s) => Json::Text(s),
        None => Json::Null,
    }
}

/// The JSON object entries a task serializes to: the modeled fields in
/// declaration order, then the extra fields verbatim. Absent optional
/// fields serialize as explicit `null`, mirroring the wire shape reads
/// produce.
pub open spec fn spec_task_entries(t: TaskModel) -> Seq<(Seq<char>, Json)> {
    seq![
        ("id"@, Json::Num(spec_decimal(t.id as nat))),
        ("title"@, Json::Text(t.title)),
        ("status"@, spec_opt_text_json(t.status)),
        ("due"@, spec_opt_text_json(t.due)),
        ("priority"@, spec_opt_text_json(t.priority)),
        ("notes"@, spec_opt_text_json(t.notes)),
        ("deleted"@, Json::Bool(t.deleted)),
    ] + t.extra
}

pub open spec fn spec_task_to_json(t: TaskModel) -> Json {
    Json::Obj(spec_task_entries(t))
}

fn opt_text_json(o: &Option<String>) -> (r: JsonValue)
    ensures
        r@ == spec_opt_text_json(opt_view(*o)),
{
    match o {
        Some(s) => JsonValue::Text(s.clone()),
        None => JsonValue::Null,
    }
}

impl Task {
    /// Serializes the task to its JSON object entries, consuming it.
    pub fn into_entries(self) -> (r: Vec<(String, JsonValue)>)
        ensures
            entries_model(r@) == spec_task_entries(self@),
    {
        let ghost t = self@;
        let mut out: Vec<(String, JsonValue)> = Vec::new();
        out.push((String::from_str("id"), JsonValue::Num(u64_to_dec(self.id))));
        out.push((String::from_str("title"), JsonValue::Text(self.title)));
        out.push((String::from_str("status"), opt_text_json(&self.status)));
        out.push((String::from_str("due"), opt_text_json(&self.due)));
        out.push((String::from_str("priority"), opt_text_json(&self.priority)));
        out.push((String::from_str("notes"), opt_text_json(&self.notes)));
        out.push((String::from_str("deleted"), JsonValue::Bool(self.deleted)));
        let mut extra = self.extra;
        out.append(&mut extra);
        proof {
            assert(entries_model(out@) =~= spec_task_entries(t));
        }
        out
    }

    /// Serializes the task to a JSON object value, consuming it.
    pub fn into_json(self) -> (r: JsonValue)
        ensures
            r@ == spec_task_to_json(self@),
    {
        let ghost t = self@;
        let entries = self.into_entries();
        let r = JsonValue::Obj(entries);
        proof {
            lemma_entries_model_rec(r->Obj_0@);
        }
        r
    }
}

pub open spec fn is_known_task_key(k: Seq<char>) -> bool {
    ||| k == "id"@
    ||| k == "title"@
    ||| k == "status"@
    ||| k == "due"@
    ||| k == "priority"@
    ||| k == "notes"@
    ||| k == "deleted"@
}

/// The running state of a task decode.
#[verifier::ext_equal]
pub struct TaskAcc {
    pub id: Option<u64>,
    pub title: Option<Seq<char>>,
    pub status: Option<Seq<char>>,
    pub due: Option<Seq<char>>,
    pub priority: Option<Seq<char>>,
    pub notes: Option<Seq<char>>,
    pub deleted: bool,
    pub extra: Seq<(Seq<char>, Json)>,
}

pub open spec fn spec_task_acc_init() -> TaskAcc {
    TaskAcc {
        id: None,
        title: None,
        status: None,
        due: None,
        priority: None,
        notes: None,
        deleted: false,
        extra: Seq::empty(),
    }
}

/// One decode step: a modeled key must carry a value of its type (with
/// `null` accepted for the optional text fields), any other key lands in
/// `extra` verbatim. A repeated modeled key takes the later value.
pub open spec fn spec_task_step(acc: TaskAcc, key: Seq<char>, v: Json) -> Result<TaskAcc, Seq<
    char,
>> {
    if key == "id"@ {
        if v is Num && spec_parse_u64(v->Num_0) is Some {
            Ok(TaskAcc { id: Some(spec_parse_u64(v->Num_0)->0), ..acc })
        } else {
            Err("invalid value for field 'id'"@)
        }
    } else if key == "title"@ {
        if v is Text {
            Ok(TaskAcc { title: Some(v->Text_0), ..acc })
        } else {
            Err("invalid value for field 'title'"@)
        }
    } else if key == "status"@ {
        match v {
            Json::Text(s) => Ok(TaskAcc { status: Some(s), ..acc }),
            Json::Null => Ok(TaskAcc { status: None, ..acc }),
            _ => Err("invalid value for field 'status'"@),
        }
    } else if key == "due"@ {
        match v {
            Json::Text(s) => Ok(TaskAcc { due: Some(s), ..acc }),
            Json::Null => Ok(TaskAcc { due: None, ..acc }),
            _ => Err("invalid value for field 'due'"@),
        }
    } else if key == "priority"@ {
        match v {
            Json::Text(s) => Ok(TaskAcc { priority: Some(s), ..acc }),
            Json::Null => Ok(TaskAcc { priority: None, ..acc }),
            _ => Err("invalid value for field 'priority'"@),
        }
    } else if key == "notes"@ {
        match v {
            Json::Text(s) => Ok(TaskAcc { notes: Some(s), ..acc }),
            Json::Null => Ok(TaskAcc { notes: None, ..acc }),
            _ => Err("invalid value for field 'notes'"@),
        }
    } else if key == "deleted"@ {
        if v is Bool {
            Ok(TaskAcc { deleted: v->Bool_0, ..acc })
        } else {
            Err("invalid value for field 'deleted'"@)
        }
    } else {
        Ok(TaskAcc { extra: acc.extra.push((key, v)), ..acc })
    }
}

pub open spec fn spec_task_scan(entries: Seq<(Seq<char>, Json)>, acc: TaskAcc) -> Result<
    TaskAcc,
    Seq<char>,
>
    decreases entries.len(),
{
    if entries.len() == 0 {
        Ok(acc)
    } else {
        match spec_task_step(acc, entries[0].0, entries[0].1) {
            Err(e) => Err(e),
            Ok(a2) => spec_task_scan(entries.drop_first(), a2),
        }
    }
}

/// What a JSON value decodes to as a task, or the reason it does not.
pub open spec fn spec_task_of_json(j: Json) -> Result<TaskModel, Seq<char>> {
    if !(j is Obj) {
        Err("expected a JSON object"@)
    } else {
        match spec_task_scan(j->Obj_0, spec_task_acc_init()) {
            Err(e) => Err(e),
            Ok(acc) => if acc.id is None {
                Err("missing field 'id'"@)
            } else if acc.title is None {
                Err("missing field 'title'"@)
            } else {
                Ok(
                    TaskModel {
                        id: acc.id->0,
                        title: acc.title->0,
                        status: acc.status,
                        due: acc.due,
                        priority: acc.priority,
                        notes: acc.notes,
                        deleted: acc.deleted,
                        extra: acc.extra,
                    },
                )
            },
        }
    }
}

/// Decodes a task from a JSON value, consuming it.
#[verifier::loop_isolation(false)]
pub fn task_of_json(v: JsonValue) -> (r: Result<Task, String>)
    ensures
        match r {
            Ok(t) => spec_task_of_json(v@) == Ok::<TaskModel, Seq<char>>(t@),
            Err(msg) => spec_task_of_json(v@) matches Err(e) && msg@ == e,
        },
{
    let ghost jm = v@;
    let mut entries = match v {
        JsonValue::Obj(entries) => entries,
        _ => {
            return Err(String::from_str("expected a JSON object"));
        },
    };
    proof {
        lemma_entries_model_rec(entries@);
    }
    let ghost full = entries_model(entries@);
    proof {
        assert(jm is Obj && jm->Obj_0 == full);
    }
    let mut id: Option<u64> = None;
    let mut title: Option<String> = None;
    let mut status: Option<String> = None;
    let mut due: Option<String> = None;
    let mut priority: Option<String> = None;
    let mut notes: Option<String> = None;
    let mut deleted: bool = false;
    let mut extra: Vec<(String, JsonValue)> = Vec::new();
    let ghost mut acc = spec_task_acc_init();
    while entries.len() > 0
        invariant
            jm is Obj && jm->Obj_0 == full,
            acc == (TaskAcc {
                id: id,
                title: opt_view(title),
                status: opt_view(status),
                due: opt_view(due),
                priority: opt_view(priority),
                notes: opt_view(notes),
                deleted: deleted,
                extra: entries_model(extra@),
            }),
            spec_task_scan(full, spec_task_acc_init()) == spec_task_scan(
                entries_model(entries@),
                acc,
            ),
        decreases entries@.len(),
    {
        let ghost pre = entries_model(entries@);
        let (key, value) = entries.remove(0);
        proof {
            assert(pre[0] == (key@, value@));
            assert(entries_model(entries@) =~= pre.drop_first());
        }
        let ghost stepped = spec_task_step(acc, key@, value@);
        if str_eq(key.as_str(), "id") {
            match value {
                JsonValue::Num(text) => {
                    match parse_u64_digits(text.as_str()) {
                        Some(n) => {
                            id = Some(n);
                        },
                        None => {
                            return Err(String::from_str("invalid value for field 'id'"));
                        },
                    }
                },
                _ => {
                    return Err(String::from_str("invalid value for field 'id'"));
                },
            }
        } else if str_eq(key.as_str(), "title") {
            match value {
                JsonValue::Text(s) => {
                    title = Some(s);
                },
                _ => {
                    return Err(String::from_str("invalid value for field 'title'"));
                },
            }
        } else if str_eq(key.as_str(), "status") {
            match value {
                JsonValue::Text(s) => {
                    status = Some(s);
                },
                JsonValue::Null => {
                    status = None;
                },
                _ => {
                    return Err(String::from_str("invalid value for field 'status'"));
                },
            }
        } else if str_eq(key.as_str(), "due") {
            match value {
                JsonValue::Text(s) => {
                    due = Some(s);
                },
                JsonValue::Null => {
                    due = None;
                },
                _ => {
                    return Err(String::from_str("invalid value for field 'due'"));
                },
            }
        } else if str_eq(key.as_str(), "priority") {
            match value {
                JsonValue::Text(s) => {
                    priority = Some(s);
                },
                JsonValue::Null => {
                    priority = None;
                },
                _ => {
                    return Err(String::from_str("invalid value for field 'priority'"));
                },
            }
        } else if str_eq(key.as_str(), "notes") {
            match value {
                JsonValue::Text(s) => {
                    notes = Some(s);
                },
                JsonValue::Null => {
                    notes = None;
                },
                _ => {
                    return Err(String::from_str("invalid value for field 'notes'"));
                },
            }
        } else if str_eq(key.as_str(), "deleted") {
            match value {
                JsonValue::Bool(b) => {
                    deleted = b;
                },
                _ => {
                    return Err(String::from_str("invalid value for field 'deleted'"));
                },
            }
        } else {
            let ghost preextra = entries_model(extra@);
            extra.push((key, value));
            proof {
                assert(entries_model(extra@) =~= preextra.push((key@, value@)));
            }
        }
        proof {
            acc = stepped->Ok_0;
            assert(acc =~= (TaskAcc {
                id: id,
                title: opt_view(title),
                status: opt_view(status),
                due: opt_view(due),
                priority: opt_view(priority),
                notes: opt_view(notes),
                deleted: deleted,
                extra: entries_model(extra@),
            }));
        }
    }
    proof {
        assert(entries_model(entries@) =~= Seq::<(Seq<char>, Json)>::empty());
    }
    let id = match id {
        Some(n) => n,
        None => {
            return Err(String::from_str("missing field 'id'"));
        },
    };
    let title = match title {
        Some(s) => s,
        None => {
            return Err(String::from_str("missing field 'title'"));
        },
    };
    Ok(Task { id, title, status, due, priority, notes, deleted, extra })
}

/// Encoding a well-formed task and decoding the result gives the task
/// back, extra fields included: the round trip loses nothing. Well-formed
/// means no extra field reuses a modeled key.
pub open spec fn spec_task_wf(t: TaskModel) -> bool {
    forall|i: int| 0 <= i < t.extra.len() ==> !is_known_task_key(#[trigger] t.extra[i].0)
}

proof fn lemma_scan_extra(entries: Seq<(Seq<char>, Json)>, acc: TaskAcc)
    requires
        forall|i: int| 0 <= i < entries.len() ==> !is_known_task_key(#[trigger] entries[i].0),
    ensures
        spec_task_scan(entries, acc) == Ok::<TaskAcc, Seq<char>>(
            TaskAcc { extra: acc.extra + entries, ..acc },
        ),
    decreases entries.len(),
{
    if entries.len() == 0 {
        assert(acc.extra + entries =~= acc.extra);
        assert(TaskAcc { extra: acc.extra + entries, ..acc } =~= acc);
    } else {
        let acc2 = TaskAcc { extra: acc.extra.push(entries[0]), ..acc };
        assert(spec_task_step(acc, entries[0].0, entries[0].1) == Ok::<TaskAcc, Seq<char>>(acc2));
        lemma_scan_extra(entries.drop_first(), acc2);
        assert(acc2.extra + entries.drop_first() =~= acc.extra + entries);
    }
}

/// Round trip: serializing a task and decoding the result yields an equal
/// task, unmodeled extension fields included.
pub proof fn lemma_task_round_trip(t: TaskModel)
    requires
        spec_task_wf(t),
    ensures
        spec_task_of_json(spec_task_to_json(t)) == Ok::<TaskModel, Seq<char>>(t),
{
    reveal_strlit("id");
    reveal_strlit("title");
    reveal_strlit("status");
    reveal_strlit("due");
    reveal_strlit("priority");
    reveal_strlit("notes");
    reveal_strlit("deleted");
    let entries = spec_task_entries(t);
    let known = seq![
        ("id"@, Json::Num(spec_decimal(t.id as nat))),
        ("title"@, Json::Text(t.title)),
        ("status"@, spec_opt_text_json(t.status)),
        ("due"@, spec_opt_text_json(t.due)),
        ("priority"@, spec_opt_text_json(t.priority)),
        ("notes"@, spec_opt_text_json(t.notes)),
        ("deleted"@, Json::Bool(t.deleted)),
    ];
    crate::text::lemma_decimal_parses(t.id);
    let a0 = spec_task_acc_init();
    let a1 = TaskAcc { id: Some(t.id), ..a0 };
    let a2 = TaskAcc { title: Some(t.title), ..a1 };
    let a3 = TaskAcc { status: t.status, ..a2 };
    let a4 = TaskAcc { due: t.due, ..a3 };
    let a5 = TaskAcc { priority: t.priority, ..a4 };
    let a6 = TaskAcc { notes: t.notes, ..a5 };
    let a7 = TaskAcc { deleted: t.deleted, ..a6 };
    assert(entries[0] == known[0]);
    assert(spec_task_step(a0, entries[0].0, entries[0].1) == Ok::<TaskAcc, Seq<char>>(a1));
    assert(entries.drop_first()[0] == known[1]);
    assert(known[1].0 == "title"@ && known[1].1 == Json::Text(t.title));
    assert(known[2].0 == "status"@ && known[2].1 == spec_opt_text_json(t.status));
    assert(known[3].0 == "due"@ && known[3].1 == spec_opt_text_json(t.due));
    assert(known[4].0 == "priority"@ && known[4].1 == spec_opt_text_json(t.priority));
    assert(known[5].0 == "notes"@ && known[5].1 == spec_opt_text_json(t.notes));
    assert(known[6].0 == "deleted"@ && known[6].1 == Json::Bool(t.deleted));
    assert(spec_task_step(a1, known[1].0, known[1].1) == Ok::<TaskAcc, Seq<char>>(a2)) by {
        assert(known[1].0 == "title"@ && "title"@ != "id"@);
    }
    assert(spec_task_step(a2, known[2].0, known[2].1) == Ok::<TaskAcc, Seq<char>>(a3)) by {
        assert(known[2].0 == "status"@ && "status"@ != "id"@ && "status"@ != "title"@);
    }
    assert(spec_task_step(a3, known[3].0, known[3].1) == Ok::<TaskAcc, Seq<char>>(a4)) by {
        assert(known[3].0 == "due"@ && "due"@ != "id"@ && "due"@ != "title"@ && "due"@
            != "status"@);
    }
    assert(spec_task_step(a4, known[4].0, known[4].1) == Ok::<TaskAcc, Seq<char>>(a5)) by {
        assert(known[4].0 == "priority"@ && "priority"@ != "id"@ && "priority"@ != "title"@
            && "priority"@ != "status"@ && "priority"@ != "due"@);
    }
    assert(spec_task_step(a5, known[5].0, known[5].1) == Ok::<TaskAcc, Seq<char>>(a6)) by {
        assert(("notes"@)[0] == 'n' && ("title"@)[0] == 't');
        assert(known[5].0 == "notes"@ && "notes"@ != "id"@ && "notes"@ != "title"@ && "notes"@
            != "status"@ && "notes"@ != "due"@ && "notes"@ != "priority"@);
    }
    assert(spec_task_step(a6, known[6].0, known[6].1) == Ok::<TaskAcc, Seq<char>>(a7)) by {
        assert(known[6].0 == "deleted"@ && "deleted"@ != "id"@ && "deleted"@ != "title"@
            && "deleted"@ != "status"@ && "deleted"@ != "due"@ && "deleted"@ != "priority"@
            && "deleted"@ != "notes"@);
    }
    let e1 = entries.drop_first();
    let e2 = e1.drop_first();
    let e3 = e2.drop_first();
    let e4 = e3.drop_first();
    let e5 = e4.drop_first();
    let e6 = e5.drop_first();
    let e7 = e6.drop_first();
    assert(e1[0] == known[1] && e2[0] == known[2] && e3[0] == known[3] && e4[0] == known[4]
        && e5[0] == known[5] && e6[0] == known[6]);
    assert(e7 =~= t.extra);
    lemma_scan_extra(t.extra, a7);
    let af = TaskAcc { extra: a7.extra + t.extra, ..a7 };
    assert(af.extra =~= t.extra);
    assert(entries.len() == 7 + t.extra.len());
    assert(spec_task_scan(entries, a0) == spec_task_scan(e1, a1));
    assert(spec_task_scan(e1, a1) == spec_task_scan(e2, a2));
    assert(spec_task_scan(e2, a2) == spec_task_scan(e3, a3));
    assert(spec_task_scan(e3, a3) == spec_task_scan(e4, a4));
    assert(spec_task_scan(e4, a4) == spec_task_scan(e5, a5));
    assert(spec_task_scan(e5, a5) == spec_task_scan(e6, a6));
    assert(spec_task_scan(e6, a6) == spec_task_scan(e7, a7));
    assert(spec_task_scan(e7, a7) == Ok::<TaskAcc, Seq<char>>(af));
    assert(spec_task_scan(entries, a0) == Ok::<TaskAcc, Seq<char>>(af));
    assert(spec_task_of_json(spec_task_to_json(t)) == Ok::<TaskModel, Seq<char>>(
        TaskModel {
            id: t.id,
            title: t.title,
            status: af.status,
            due: af.due,
            priority: af.priority,
            notes: af.notes,
            deleted: af.deleted,
            extra: af.extra,
        },
    ));
    assert(TaskModel {
        id: t.id,
        title: t.title,
        status: af.status,
        due: af.due,
        priority: af.priority,
        notes: af.notes,
        deleted: af.deleted,
        extra: af.extra,
    } =~= t);
}

/// A caller-constructed, write-only create request: `title` required, every
/// other field omitted entirely from the wire payload when absent.
#[derive(Debug, PartialEq)]
pub struct CreateTaskRequest {
    pub title: String,
    pub notes: Option<String>,
    pub priority: Option<String>,
    pub due: Option<String>,
    pub time_chunks_required: Option<u32>,
    pub min_chunk_size: Option<u32>,
    pub max_chunk_size: Option<u32>,
    pub event_category: Option<String>,
    pub always_private: Option<bool>,
}

pub open spec fn spec_push_opt_text(
    entries: Seq<(Seq<char>, Json)>,
    key: Seq<char>,
    o: Option<Seq<char>>,
) -> Seq<(Seq<char>, Json)> {
    match o {
        Some(s) => entries.push((key, Json::Text(s))),
        None => entries,
    }
}

pub open spec fn spec_push_opt_num(
    entries: Seq<(Seq<char>, Json)>,
    key: Seq<char>,
    o: Option<u32>,
) -> Seq<(Seq<char>, Json)> {
    match o {
        Some(n) => entries.push((key, Json::Num(spec_decimal(n as nat)))),
        None => entries,
    }
}

/// The wire object of a create request: absent optional fields are left
/// out entirely, never written as `null`.
pub open spec fn spec_create_request_entries(r: CreateTaskRequest) -> Seq<(Seq<char>, Json)> {
    let e0 = seq![("title"@, Json::Text(r.title@))];
    let e1 = spec_push_opt_text(e0, "notes"@, opt_view(r.notes));
    let e2 = spec_push_opt_text(e1, "priority"@, opt_view(r.priority));
    let e3 = spec_push_opt_text(e2, "due"@, opt_view(r.due));
    let e4 = spec_push_opt_num(e3, "timeChunksRequired"@, r.time_chunks_required);
    let e5 = spec_push_opt_num(e4, "minChunkSize"@, r.min_chunk_size);
    let e6 = spec_push_opt_num(e5, "maxChunkSize"@, r.max_chunk_size);
    let e7 = spec_push_opt_text(e6, "eventCategory"@, opt_view(r.event_category));
    match r.always_private {
        Some(b) => e7.push(("alwaysPrivate"@, Json::Bool(b))),
        None => e7,
    }
}

impl CreateTaskRequest {
    /// The JSON payload sent to create a task.
    pub fn to_json(&self) -> (r: JsonValue)
        ensures
            r@ == Json::Obj(spec_create_request_entries(*self)),
    {
        let mut out: Vec<(String, JsonValue)> = Vec::new();
        out.push((String::from_str("title"), JsonValue::Text(self.title.clone())));
        proof {
            assert(entries_model(out@) =~= seq![("title"@, Json::Text(self.title@))]);
        }
        push_opt_text(&mut out, "notes", &self.notes);
        push_opt_text(&mut out, "priority", &self.priority);
        push_opt_text(&mut out, "due", &self.due);
        push_opt_num(&mut out, "timeChunksRequired", &self.time_chunks_required);
        push_opt_num(&mut out, "minChunkSize", &self.min_chunk_size);
        push_opt_num(&mut out, "maxChunkSize", &self.max_chunk_size);
        push_opt_text(&mut out, "eventCategory", &self.event_category);
        if let Some(b) = self.always_private {
            let ghost pre = entries_model(out@);
            out.push((String::from_str("alwaysPrivate"), JsonValue::Bool(b)));
            proof {
                assert(entries_model(out@) =~= pre.push(("alwaysPrivate"@, Json::Bool(b))));
            }
        }
        let r = JsonValue::Obj(out);
        proof {
            lemma_entries_model_rec(r->Obj_0@);
        }
        r
    }
}

fn push_opt_text(entries: &mut Vec<(String, JsonValue)>, key: &str, o: &Option<String>)
    ensures
        entries_model(final(entries)@) == spec_push_opt_text(
            entries_model(old(entries)@),
            key@,
            opt_view(*o),
        ),
{
    let ghost pre = entries_model(entries@);
    if let Some(s) = o {
        entries.push((key.to_owned(), JsonValue::Text(s.clone())));
        proof {
            assert(entries_model(entries@) =~= pre.push((key@, Json::Text(s@))));
        }
    }
}

fn push_opt_num(entries: &mut Vec<(String, JsonValue)>, key: &str, o: &Option<u32>)
    ensures
        entries_model(final(entries)@) == spec_push_opt_num(
            entries_model(old(entries)@),
            key@,
            *o,
        ),
{
    let ghost pre = entries_model(entries@);
    if let Some(n) = o {
        entries.push((key.to_owned(), JsonValue::Num(u64_to_dec(*n as u64))));
        proof {
            assert(entries_model(entries@) =~= pre.push((key@, Json::Num(spec_decimal(*n as nat)))));
        }
    }
}

/// The query shape of an events listing.
#[derive(Debug)]
pub struct EventListQuery {
    pub calendar_ids: Vec<u64>,
    pub all_connected: Option<bool>,
    pub start: Option<String>,
    pub end: Option<String>,
    pub source_details: Option<bool>,
    pub thin: Option<bool>,
}

pub open spec fn spec_status_completed(s: Option<Seq<char>>) -> bool {
    s matches Some(t) && (spec_eq_ignore_ascii_case(t, "COMPLETED"@) || spec_eq_ignore_ascii_case(
        t,
        "COMPLETE"@,
    ) || spec_eq_ignore_ascii_case(t, "DONE"@) || spec_eq_ignore_ascii_case(t, "FINISHED"@))
}

/// Whether a status string names a completed task, case-insensitively.
pub fn status_indicates_completed(status: Option<&str>) -> (r: bool)
    ensures
        r == spec_status_completed(
            match status {
                Some(s) => Some(s@),
                None => None,
            },
        ),
{
    match status {
        Some(s) => str_eq_ignore_ascii_case(s, "COMPLETED") || str_eq_ignore_ascii_case(
            s,
            "COMPLETE",
        ) || str_eq_ignore_ascii_case(s, "DONE") || str_eq_ignore_ascii_case(s, "FINISHED"),
        None => false,
    }
}

/// A task counts as completed when its status is a completion synonym, or
/// the unmodeled `completionStatus` field is one, or an unmodeled
/// `completed` (or, failing that, `isComplete`) boolean is true. With no
/// signal at all it counts as open.
pub open spec fn spec_task_completed(t: TaskModel) -> bool {
    ||| spec_status_completed(t.status)
    ||| (sget(t.extra, "completionStatus"@) matches Some(Json::Text(s)) && spec_status_completed(
        Some(s),
    ))
    ||| match sget(t.extra, "completed"@) {
        Some(Json::Bool(b)) => b,
        _ => match sget(t.extra, "isComplete"@) {
            Some(Json::Bool(b)) => b,
            _ => false,
        },
    }
}

pub fn task_is_completed(task: &Task) -> (r: bool)
    ensures
        r == spec_task_completed(task@),
{
    let status_completed = match &task.status {
        Some(s) => status_indicates_completed(Some(s.as_str())),
        None => false,
    };
    if status_completed {
        return true;
    }
    let completion_status = match obj_get(&task.extra, "completionStatus") {
        Some(JsonValue::Text(s)) => status_indicates_completed(Some(s.as_str())),
        _ => false,
    };
    if completion_status {
        return true;
    }
    match obj_get(&task.extra, "completed") {
        Some(JsonValue::Bool(b)) => *b,
        _ => match obj_get(&task.extra, "isComplete") {
            Some(JsonValue::Bool(b)) => *b,
            _ => false,
        },
    }
}

/// A task is active unless it is deleted or its status is exactly
/// `ARCHIVED` or `CANCELLED`.
pub open spec fn spec_task_active(t: TaskModel) -> bool {
    !t.deleted && !(t.status matches Some(s) && (s == "ARCHIVED"@ || s == "CANCELLED"@))
}

pub fn is_active_task(task: &Task) -> (r: bool)
    ensures
        r == spec_task_active(task@),
{
    if task.deleted {
        return false;
    }
    match &task.status {
        Some(s) => !(str_eq(s.as_str(), "ARCHIVED") || str_eq(s.as_str(), "CANCELLED")),
        None => true,
    }
}

/// The subsequence of active tasks, in order.
pub open spec fn spec_keep_active(s: Seq<Task>) -> Seq<Task>
    decreases s.len(),
{
    if s.len() == 0 {
        Seq::empty()
    } else if spec_task_active(s[0]@) {
        seq![s[0]] + spec_keep_active(s.drop_first())
    } else {
        spec_keep_active(s.drop_first())
    }
}

/// The server-independent retention filter: `Active` drops deleted,
/// archived and cancelled tasks; `All` keeps everything. This runs before
/// any completion filtering.
pub fn filter_active_tasks(tasks: Vec<Task>, filter: TaskFilter) -> (r: Vec<Task>)
    ensures
        r@ == match filter {
            TaskFilter::Active => spec_keep_active(tasks@),
            TaskFilter::All => tasks@,
        },
{
    match filter {
        TaskFilter::All => tasks,
        TaskFilter::Active => {
            let ghost orig = tasks@;
            let mut tasks = tasks;
            let mut out: Vec<Task> = Vec::new();
            while tasks.len() > 0
                invariant
                    tasks@ == orig.take(tasks@.len() as int),
                    tasks@.len() <= orig.len(),
                    out@ == spec_keep_active(orig.skip(tasks@.len() as int)),
                decreases tasks@.len(),
            {
                let ghost n = tasks@.len() as int;
                let t = tasks.pop().unwrap();
                proof {
                    assert(t == orig[n - 1]);
                    assert(tasks@ =~= orig.take(n - 1));
                    let suf = orig.skip(n - 1);
                    assert(suf[0] == orig[n - 1]);
                    assert(suf.drop_first() =~= orig.skip(n));
                }
                if is_active_task(&t) {
                    out.insert(0, t);
                    proof {
                        assert(out@ =~= seq![orig[n - 1]] + spec_keep_active(orig.skip(n)));
                    }
                }
            }
            proof {
                assert(orig.skip(0) =~= orig);
            }
            out
        },
    }
}

/// Under the Active filter no deleted, archived or cancelled task
/// survives: every task the filter keeps is active. (Under `All` the list
/// is returned unchanged, so every task is included.)
pub proof fn lemma_keep_active_only_active(s: Seq<Task>, i: int)
    requires
        0 <= i < spec_keep_active(s).len(),
    ensures
        spec_task_active(spec_keep_active(s)[i]@),
    decreases s.len(),
{
    if s.len() > 0 {
        if spec_task_active(s[0]@) {
            if i > 0 {
                lemma_keep_active_only_active(s.drop_first(), i - 1);
            }
        } else {
            lemma_keep_active_only_active(s.drop_first(), i);
        }
    }
}

pub open spec fn spec_completion_keeps(t: TaskModel, f: TaskCompletionFilter) -> bool {
    match f {
        TaskCompletionFilter::Open => !spec_task_completed(t),
        TaskCompletionFilter::Completed => spec_task_completed(t),
    }
}

pub open spec fn spec_keep_completion(s: Seq<Task>, f: TaskCompletionFilter) -> Seq<Task>
    decreases s.len(),
{
    if s.len() == 0 {
        Seq::empty()
    } else if spec_completion_keeps(s[0]@, f) {
        seq![s[0]] + spec_keep_completion(s.drop_first(), f)
    } else {
        spec_keep_completion(s.drop_first(), f)
    }
}

/// The second, independent client-side predicate: keeps open or completed
/// tasks as asked, or leaves the list alone when no completion filter was
/// requested.
pub fn apply_task_completion_filter(tasks: &mut Vec<Task>, filter: Option<TaskCompletionFilter>)
    ensures
        final(tasks)@ == match filter {
            Some(f) => spec_keep_completion(old(tasks)@, f),
            None => old(tasks)@,
        },
{
    let f = match filter {
        Some(f) => f,
        None => {
            return ;
        },
    };
    let ghost orig = tasks@;
    let mut out: Vec<Task> = Vec::new();
    while tasks.len() > 0
        invariant
            tasks@ == orig.take(tasks@.len() as int),
            tasks@.len() <= orig.len(),
            out@ == spec_keep_completion(orig.skip(tasks@.len() as int), f),
        decreases tasks@.len(),
    {
        let ghost n = tasks@.len() as int;
        let t = tasks.pop().unwrap();
        proof {
            assert(t == orig[n - 1]);
            assert(tasks@ =~= orig.take(n - 1));
            let suf = orig.skip(n - 1);
            assert(suf[0] == orig[n - 1]);
            assert(suf.drop_first() =~= orig.skip(n));
        }
        if task_is_completed(&t) == matches!(f, TaskCompletionFilter::Completed) {
            out.insert(0, t);
            proof {
                assert(out@ =~= seq![orig[n - 1]] + spec_keep_completion(orig.skip(n), f));
            }
        }
    }
    proof {
        assert(orig.skip(0) =~= orig);
    }
    *tasks = out;
}

/// Decode of a JSON array of tasks, first failure wins.
pub open spec fn spec_tasks_scan(items: Seq<Json>) -> Result<Seq<TaskModel>, Seq<char>>
    decreases items.len(),
{
    if items.len() == 0 {
        Ok(Seq::empty())
    } else {
        match spec_tasks_scan(items.drop_last()) {
            Err(e) => Err(e),
            Ok(rest) => match spec_task_of_json(items.last()) {
                Err(e) => Err(e),
                Ok(t) => Ok(rest.push(t)),
            },
        }
    }
}

pub open spec fn spec_tasks_of_json(j: Json) -> Result<Seq<TaskModel>, Seq<char>> {
    if !(j is Arr) {
        Err("expected a JSON array"@)
    } else {
        spec_tasks_scan(j->Arr_0)
    }
}

proof fn lemma_tasks_scan_err_prefix(items: Seq<Json>, i: int)
    requires
        0 <= i <= items.len(),
        spec_tasks_scan(items.take(i)) is Err,
    ensures
        spec_tasks_scan(items) == spec_tasks_scan(items.take(i)),
    decreases items.len() - i,
{
    if i == items.len() {
        assert(items.take(i) =~= items);
    } else {
        assert(items.take(i + 1).drop_last() =~= items.take(i));
        lemma_tasks_scan_err_prefix(items, i + 1);
    }
}

/// Decodes a JSON value as a list of tasks, consuming it.
#[verifier::loop_isolation(false)]
pub fn tasks_of_json(v: JsonValue) -> (r: Result<Vec<Task>, String>)
    ensures
        match r {
            Ok(ts) => spec_tasks_of_json(v@) matches Ok(ms) && ms.len() == ts@.len() && forall|
                i: int,
            |
                0 <= i < ms.len() ==> ms[i] == #[trigger] ts@[i]@,
            Err(msg) => spec_tasks_of_json(v@) matches Err(e) && msg@ == e,
        },
{
    let ghost jm = v@;
    let mut items = match v {
        JsonValue::Arr(items) => items,
        _ => {
            return Err(String::from_str("expected a JSON array"));
        },
    };
    proof {
        lemma_arr_model_rec(items@);
    }
    let ghost full = jm->Arr_0;
    let mut out: Vec<Task> = Vec::new();
    let ghost mut done: int = 0;
    while items.len() > 0
        invariant
            jm is Arr && jm->Arr_0 == full,
            full.len() == done + items@.len(),
            0 <= done,
            forall|i: int| 0 <= i < items@.len() ==> full[done + i] == #[trigger] items@[i]@,
            spec_tasks_scan(full.take(done)) matches Ok(ms) && ms.len() == out@.len() && forall|
                i: int,
            | 0 <= i < ms.len() ==> ms[i] == #[trigger] out@[i]@,
        decreases items@.len(),
    {
        let ghost pre_items = items@;
        let item = items.remove(0);
        proof {
            assert(item@ == full[done]);
            assert(items@ =~= pre_items.drop_first());
        }
        match task_of_json(item) {
            Ok(t) => {
                out.push(t);
                proof {
                    assert(full.take(done + 1).drop_last() =~= full.take(done));
                    assert(full.take(done + 1).last() == full[done]);
                    done = done + 1;
                }
            },
            Err(msg) => {
                proof {
                    assert(full.take(done + 1).drop_last() =~= full.take(done));
                    assert(full.take(done + 1).last() == full[done]);
                    lemma_tasks_scan_err_prefix(full, done + 1);
                }
                return Err(msg);
            },
        }
    }
    proof {
        assert(full.take(done) =~= full);
    }
    Ok(out)
}

} // verus!
