//! Command-line surface: the commands and their argument shapes, as plain
//! data. The binary's argument parser fills these in and hands them to the
//! library.

use vstd::prelude::*;

verus! {

#[derive(Debug)]
pub struct Cli {
    pub api_key: Option<String>,
    pub base_url: String,
    pub timeout_secs: u64,
    pub format: OutputFormat,
    pub command: Command,
}

#[derive(Debug)]
pub enum Command {
    List(ListArgs),
    Dashboard(DashboardArgs),
    Get(GetArgs),
    Put(PutArgs),
    Patch(PatchArgs),
    Delete(DeleteArgs),
    Events(EventsArgs),
    Create(CreateArgs),
}

#[derive(Debug)]
pub struct ListArgs {
    pub all: bool,
    pub filter: Option<TaskCompletionFilter>,
}

#[derive(Debug)]
pub struct DashboardArgs {
    pub all: bool,
}

#[derive(Debug)]
pub struct GetArgs {
    pub task_id: u64,
}

#[derive(Debug)]
pub struct PutArgs {
    pub task_id: u64,
    pub json: Option<String>,
    pub set: Vec<String>,
    pub notification_key: Option<String>,
}

#[derive(Debug)]
pub struct PatchArgs {
    pub task_id: u64,
    pub json: Option<String>,
    pub set: Vec<String>,
    pub notification_key: Option<String>,
}

#[derive(Debug)]
pub struct DeleteArgs {
    pub task_id: u64,
    pub notification_key: Option<String>,
}

#[derive(Debug)]
pub struct EventsArgs {
    pub command: EventsCommand,
}

#[derive(Debug)]
pub enum EventsCommand {
    List(EventsListArgs),
    Get(EventsGetArgs),
    Create(EventsCreateArgs),
    Update(EventsUpdateArgs),
    Delete(EventsDeleteArgs),
    Apply(EventsApplyArgs),
}

#[derive(Debug)]
pub struct EventsListArgs {
    pub calendar_ids: Vec<u64>,
    pub all_connected: bool,
    pub start: Option<String>,
    pub end: Option<String>,
    pub source_details: bool,
    pub thin: bool,
}

#[derive(Debug)]
pub struct EventsGetArgs {
    pub calendar_id: u64,
    pub event_id: String,
    pub source_details: bool,
    pub thin: bool,
}

#[derive(Debug, Clone, Copy, Eq, PartialEq, Structural)]
pub enum EventTransparency {
    Opaque,
    Transparent,
}

pub open spec fn spec_transparency_str(t: EventTransparency) -> Seq<char> {
    match t {
        EventTransparency::Opaque => "OPAQUE"@,
        EventTransparency::Transparent => "TRANSPARENT"@,
    }
}

impl EventTransparency {
    pub fn as_str(self) -> (r: &'static str)
        ensures
            r@ == spec_transparency_str(self),
    {
        match self {
            EventTransparency::Opaque => "OPAQUE",
            EventTransparency::Transparent => "TRANSPARENT",
        }
    }
}

#[derive(Debug, Clone, Copy, Eq, PartialEq, Structural)]
pub enum EventVisibility {
    Default,
    Public,
    Private,
}

pub open spec fn spec_visibility_str(v: EventVisibility) -> Seq<char> {
    match v {
        EventVisibility::Default => "DEFAULT"@,
        EventVisibility::Public => "PUBLIC"@,
        EventVisibility::Private => "PRIVATE"@,
    }
}

impl EventVisibility {
    pub fn as_str(self) -> (r: &'static str)
        ensures
            r@ == spec_visibility_str(self),
    {
        match self {
            EventVisibility::Default => "DEFAULT",
            EventVisibility::Public => "PUBLIC",
            EventVisibility::Private => "PRIVATE",
        }
    }
}

#[derive(Debug)]
pub struct EventsCreateArgs {
    pub calendar_id: u64,
    pub title: String,
    pub start: String,
    pub end: String,
    pub policy_id: String,
    pub attendees: Vec<String>,
    pub description: Option<String>,
    pub location: Option<String>,
    pub priority: Option<Priority>,
    pub visibility: Option<EventVisibility>,
    pub transparency: Option<EventTransparency>,
    pub guests_can_modify: bool,
    pub guests_can_invite_others: bool,
    pub guests_can_see_other_guests: bool,
    pub json: Option<String>,
    pub set: Vec<String>,
}

#[derive(Debug)]
pub struct EventsUpdateArgs {
    pub calendar_id: u64,
    pub event_id: String,
    pub policy_id: String,
    pub title: Option<String>,
    pub description: Option<String>,
    pub location: Option<String>,
    pub priority: Option<Priority>,
    pub visibility: Option<EventVisibility>,
    pub transparency: Option<EventTransparency>,
    pub start: Option<String>,
    pub end: Option<String>,
    pub json: Option<String>,
    pub set: Vec<String>,
}

#[derive(Debug)]
pub struct EventsDeleteArgs {
    pub calendar_id: u64,
    pub event_id: String,
    pub policy_id: String,
    pub message: Option<String>,
}

#[derive(Debug)]
pub struct EventsApplyArgs {
    pub json: String,
}

#[derive(Debug, Clone, Copy, Eq, PartialEq, Structural)]
pub enum Priority {
    P1,
    P2,
    P3,
    P4,
}

pub open spec fn spec_priority_str(p: Priority) -> Seq<char> {
    match p {
        Priority::P1 => "P1"@,
        Priority::P2 => "P2"@,
        Priority::P3 => "P3"@,
        Priority::P4 => "P4"@,
    }
}

impl Priority {
    pub fn as_str(self) -> (r: &'static str)
        ensures
            r@ == spec_priority_str(self),
    {
        match self {
            Priority::P1 => "P1",
            Priority::P2 => "P2",
            Priority::P3 => "P3",
            Priority::P4 => "P4",
        }
    }
}

#[derive(Debug, Clone, Copy, Eq, PartialEq, Structural)]
pub enum EventCategory {
    Work,
    Personal,
}

pub open spec fn spec_category_str(c: EventCategory) -> Seq<char> {
    match c {
        EventCategory::Work => "WORK"@,
        EventCategory::Personal => "PERSONAL"@,
    }
}

impl EventCategory {
    pub fn as_str(self) -> (r: &'static str)
        ensures
            r@ == spec_category_str(self),
    {
        match self {
            EventCategory::Work => "WORK",
            EventCategory::Personal => "PERSONAL",
        }
    }
}

#[derive(Debug)]
pub struct CreateArgs {
    pub title: String,
    pub notes: Option<String>,
    pub priority: Option<Priority>,
    pub due: Option<String>,
    pub time_chunks_required: Option<u32>,
    pub event_category: EventCategory,
    pub min_chunk_size: Option<u32>,
    pub max_chunk_size: Option<u32>,
    pub always_private: bool,
}

#[derive(Debug, Clone, Copy, Eq, PartialEq, Structural)]
pub enum OutputFormat {
    Human,
    Json,
}

/// Which tasks a listing keeps: active ones only, or every task.
#[derive(Debug, Clone, Copy, Eq, PartialEq, Structural)]
pub enum TaskFilter {
    Active,
    All,
}

/// A second, independent client-side predicate layered after fetch.
#[derive(Debug, Clone, Copy, Eq, PartialEq, Structural)]
pub enum TaskCompletionFilter {
    Open,
    Completed,
}

} // verus!
