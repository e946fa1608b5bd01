//! The task endpoints.

use vstd::prelude::*;

use crate::api::fields::{
    date_complaint, date_or_complaint, is_malformed_time, member_read, moment_read, read_member,
    read_recurrence, read_time, recurrence_refusal, rule_given, Field, MemberField, TimeField,
};
use crate::dates::{
    calendar_date_of, day_of, moment_of, parse_iso_date, parse_rfc3339, parsed_date,
    parsed_rfc3339, shows_time, writes_time, Date, Moment, Timestamp, LAST_DAY,
};
use crate::horizon::{first_layout, is_first_layout, Window, HORIZON_DAYS};
use crate::ids::{
    different_uuids_have_different_texts, hyphenated, is_version_7, new_uuid, new_uuids, parse_uuid,
    parsed_uuid, placeholder_member, uuid_text, writes_uuid, MemberId, TaskId, PLACEHOLDER_MEMBER,
};
use crate::model::task::{
    effort_of, is_level, priority_of, status_text_round_trip, CompletionLog, EffortLevel, Priority,
    Task, TaskFilter, TaskInstance, TaskStatus,
};
use crate::reply::{
    found, found_row, identified, identify, outcome, stored, stored_value, Refusal, Rejection,
    Reply, StatusCode, StorageFailure,
};
use crate::text::{
    ascii_tags_are_lower_cased, blank, copy_text, copy_texts, digits, digits_text, is_blank, join,
    normalise_each, normalise_tag, normalise_tags, normalised_tag, normalised_tags, text_of, texts,
};

verus! {

/// The largest number of upcoming instances that is listed.
pub const UPCOMING_CAP: i64 = 100;

// ─── Requests ─────────────────────────────────────────────────────────────────

/// Body of `POST /api/v1/tasks`. Times are RFC 3339 with an offset.
#[derive(Debug)]
pub struct CreateTaskRequest {
    /// One-line summary; stored as it is, must not be blank.
    pub title: String,
    /// Free-form notes.
    pub notes: Option<String>,
    /// Latest meaningful completion time.
    pub due_by: Option<String>,
    /// Earliest meaningful start time.
    pub earliest_at: Option<String>,
    /// Effort, 1 to 5.
    pub effort: Option<u8>,
    /// Priority, 1 to 5.
    pub priority: Option<u8>,
    /// Tags; normalised before they are stored.
    pub tags: Option<Vec<String>>,
    /// Recurrence rule; comes together with the timezone or not at all.
    pub recurrence_rrule: Option<String>,
    /// Timezone of the recurrence rule.
    pub recurrence_timezone: Option<String>,
}

/// Body of `PATCH /api/v1/tasks/{id}`. A field that is absent is left as it is;
/// `null` takes away what can be taken away.
#[derive(Debug)]
pub struct UpdateTaskRequest {
    /// New title; must not be blank.
    pub title: Option<String>,
    /// New notes; `null` and the empty text take them away.
    pub notes: Field<String>,
    /// New status: open, doing, done or skipped.
    pub status: Option<String>,
    /// New latest completion time; `null` and the empty text take it away.
    pub due_by: Field<String>,
    /// New earliest start time; `null` and the empty text take it away.
    pub earliest_at: Field<String>,
    /// New effort, 1 to 5.
    pub effort: Option<u8>,
    /// New priority, 1 to 5.
    pub priority: Option<u8>,
    /// New tags, in place of all the old ones; `null` and the empty list take
    /// them all away.
    pub tags: Field<Vec<String>>,
    /// New recurrence rule; comes together with the timezone or not at all.
    pub recurrence_rrule: Option<String>,
    /// Timezone of the new recurrence rule.
    pub recurrence_timezone: Option<String>,
}

/// Body of `POST /api/v1/tasks/{id}/complete` and `.../skip`.
#[derive(Debug)]
pub struct CompleteTaskRequest {
    /// The date of the instance, `YYYY-MM-DD`.
    pub instance_date: String,
    /// Free-form note.
    pub notes: Option<String>,
}

/// Body of `POST /api/v1/tasks/{id}/assignee`.
#[derive(Debug)]
pub struct ChangeAssigneeRequest {
    /// The new default assignee; absent takes the assignee away.
    pub member_id: Option<String>,
}

/// Query of `GET /api/v1/tasks`.
#[derive(Debug)]
pub struct ListTasksQuery {
    /// Only tasks in this state.
    pub status: Option<String>,
    /// Only tasks with this tag; it is normalised as stored tags are, so that
    /// its case does not matter.
    pub tag: Option<String>,
    /// Only tasks due at or before this RFC 3339 time.
    pub due_before: Option<String>,
}

/// Query of `GET /api/v1/tasks/upcoming`.
#[derive(Debug)]
pub struct UpcomingQuery {
    /// How many instances to list; see [`default_upcoming_limit`] and
    /// [`UPCOMING_CAP`].
    pub limit: i64,
}

/// How many upcoming instances are listed when the request does not say.
pub fn default_upcoming_limit() -> (r: i64)
    ensures
        r == 20,
{
    20
}

// ─── Responses ────────────────────────────────────────────────────────────────

/// A task as the endpoints show it. UUIDs are hyphenated, times RFC 3339.
#[derive(Debug)]
pub struct TaskResponse {
    /// Identifies the task.
    pub id: String,
    /// One-line summary.
    pub title: String,
    /// Free-form notes.
    pub notes: Option<String>,
    /// Lifecycle state.
    pub status: String,
    /// Latest meaningful completion time.
    pub due_by: Option<String>,
    /// Earliest meaningful start time.
    pub earliest_at: Option<String>,
    /// Effort, 1 to 5.
    pub effort: Option<u8>,
    /// Priority, 1 to 5.
    pub priority: Option<u8>,
    /// Normalised tags.
    pub tags: Vec<String>,
    /// Who the task belongs to.
    pub owner_id: String,
    /// Who is doing it.
    pub assignee_ids: Vec<String>,
    /// Who may take it; empty means anyone.
    pub eligible_member_ids: Vec<String>,
    /// Who is shown as doing it by default.
    pub current_assignee_id: Option<String>,
    /// Recurrence rule; absent for a one-shot task.
    pub recurrence_rrule: Option<String>,
    /// Timezone of the recurrence rule; there exactly when the rule is.
    pub recurrence_timezone: Option<String>,
    /// When the task was made.
    pub created_at: String,
    /// When the task was last changed.
    pub updated_at: String,
}

/// A completion log entry as the endpoints show it.
#[derive(Debug)]
pub struct CompletionLogResponse {
    /// Identifies the entry.
    pub id: String,
    /// The task that was acted on.
    pub task_id: String,
    /// The date of the instance, `YYYY-MM-DD`.
    pub instance_date: String,
    /// Who acted.
    pub completed_by: String,
    /// When.
    pub completed_at: String,
    /// Whether the instance was skipped rather than completed.
    pub skipped: bool,
    /// Free-form context.
    pub notes: Option<String>,
}

/// An upcoming instance of a recurring task, with what is needed of the task.
#[derive(Debug)]
pub struct UpcomingInstanceResponse {
    /// Identifies the instance.
    pub instance_id: String,
    /// The recurring task.
    pub task_id: String,
    /// When the instance is due.
    pub scheduled_at: String,
    /// Who is shown as doing it by default.
    pub current_assignee_id: Option<String>,
    /// Title of the task.
    pub title: String,
    /// Status of the task.
    pub status: String,
}

/// The hyphenated texts of a list of members.
pub open spec fn member_texts(members: Seq<MemberId>) -> Seq<Seq<char>> {
    members.map_values(|m: MemberId| hyphenated(m.0))
}

/// The hyphenated text of a member that may be absent.
pub open spec fn member_text(member: Option<MemberId>) -> Option<Seq<char>> {
    match member {
        Some(m) => Some(hyphenated(m.0)),
        None => None,
    }
}

impl TaskResponse {
    /// Whether this is how `task` is shown.
    pub open spec fn shows(self, task: Task) -> bool {
        &&& writes_uuid(self.id@, task.id.0)
        &&& self.title@ == task.title@
        &&& text_of(self.notes) == text_of(task.notes)
        &&& self.status@ == task.status.text()
        &&& shows_time(self.due_by, task.due_by)
        &&& shows_time(self.earliest_at, task.earliest_at)
        &&& self.effort == effort_of(task.effort)
        &&& self.priority == priority_of(task.priority)
        &&& texts(self.tags@) == texts(task.tags@)
        &&& writes_uuid(self.owner_id@, task.owner_id.0)
        &&& texts(self.assignee_ids@) == member_texts(task.assignee_ids@)
        &&& texts(self.eligible_member_ids@) == member_texts(task.eligible_member_ids@)
        &&& text_of(self.current_assignee_id) == member_text(task.current_assignee_id)
        &&& text_of(self.recurrence_rrule) == (match task.recurrence {
            Some(rule) => Some(rule.rrule@),
            None => None,
        })
        &&& text_of(self.recurrence_timezone) == (match task.recurrence {
            Some(rule) => Some(rule.timezone@),
            None => None,
        })
        &&& writes_time(self.created_at@, task.created_at@)
        &&& writes_time(self.updated_at@, task.updated_at@)
    }
}

/// The text of a date in a completion log: the year padded to four characters,
/// the month and the day to two.
pub open spec fn log_date_text(year: int, month: int, day: int) -> Seq<char> {
    (if year <= -1000 {
        "-"@ + digits((-year) as nat, 4)
    } else if year < 0 {
        "-"@ + digits((-year) as nat, 3)
    } else {
        digits(year as nat, 4)
    }) + "-"@ + digits(month as nat, 2) + "-"@ + digits(day as nat, 2)
}

impl CompletionLogResponse {
    /// Whether this is how `log` is shown.
    pub open spec fn shows(self, log: CompletionLog) -> bool {
        let (year, month, day) = calendar_date_of(log.instance_date@);
        &&& writes_uuid(self.id@, log.id.0)
        &&& writes_uuid(self.task_id@, log.task_id.0)
        &&& self.instance_date@ == log_date_text(year, month, day)
        &&& year >= 0 ==> parsed_date(self.instance_date@) == Some(log.instance_date@)
        &&& writes_uuid(self.completed_by@, log.completed_by.0)
        &&& writes_time(self.completed_at@, log.completed_at@)
        &&& self.skipped == log.skipped
        &&& text_of(self.notes) == text_of(log.notes)
    }
}

/// The text of a member that may be absent.
pub fn member_to_text(member: Option<MemberId>) -> (r: Option<String>)
    ensures
        text_of(r) == member_text(member),
{
    match member {
        Some(m) => Some(uuid_text(m.0)),
        None => None,
    }
}

fn members_to_texts(members: &Vec<MemberId>) -> (r: Vec<String>)
    ensures
        texts(r@) == member_texts(members@),
{
    let mut out: Vec<String> = Vec::new();
    for i in 0..members.len()
        invariant
            texts(out@) == member_texts(members@.take(i as int)),
    {
        let text = uuid_text(members[i].0);
        proof {
            assert(texts(out@.push(text)) =~= texts(out@).push(text@));
            assert(member_texts(members@.take(i + 1)) =~= member_texts(members@.take(i as int)).push(
                text@,
            ));
        }
        out.push(text);
    }
    proof {
        assert(members@.take(members@.len() as int) =~= members@);
    }
    out
}

/// How a task is shown.
pub fn task_to_response(task: &Task) -> (r: TaskResponse)
    ensures
        r.shows(*task),
{
    let due_by = match task.due_by {
        Some(at) => at.to_rfc3339(),
        None => None,
    };
    let earliest_at = match task.earliest_at {
        Some(at) => at.to_rfc3339(),
        None => None,
    };
    let effort = match task.effort {
        Some(level) => Some(level.value()),
        None => None,
    };
    let priority = match task.priority {
        Some(level) => Some(level.value()),
        None => None,
    };
    let (recurrence_rrule, recurrence_timezone) = match &task.recurrence {
        Some(rule) => (Some(rule.rrule.clone()), Some(rule.timezone.clone())),
        None => (None, None),
    };
    TaskResponse {
        id: uuid_text(task.id.0),
        title: task.title.clone(),
        notes: copy_text(&task.notes),
        status: task.status.as_str().to_owned(),
        due_by,
        earliest_at,
        effort,
        priority,
        tags: copy_texts(&task.tags),
        owner_id: uuid_text(task.owner_id.0),
        assignee_ids: members_to_texts(&task.assignee_ids),
        eligible_member_ids: members_to_texts(&task.eligible_member_ids),
        current_assignee_id: member_to_text(task.current_assignee_id),
        recurrence_rrule,
        recurrence_timezone,
        created_at: task.created_at.rfc3339_text(),
        updated_at: task.updated_at.rfc3339_text(),
    }
}

/// The text of a date in a completion log.
fn log_date(date: Date) -> (r: String)
    ensures
        ({
            let (year, month, day) = calendar_date_of(date@);
            &&& r@ == log_date_text(year, month, day)
            &&& year >= 0 ==> parsed_date(r@) == Some(date@)
        }),
{
    let (year, month, day) = date.calendar();
    proof {
        reveal_strlit("-");
        assert("-"@ =~= seq!['-']);
    }
    let head = if year <= -1000 {
        join("-", digits_text((-year) as u32, 4).as_str())
    } else if year < 0 {
        join("-", digits_text((-year) as u32, 3).as_str())
    } else {
        digits_text(year as u32, 4)
    };
    head.concat("-").concat(digits_text(month as u32, 2).as_str()).concat("-").concat(
        digits_text(day as u32, 2).as_str(),
    )
}

/// How a completion log entry is shown.
pub fn completion_log_to_response(log: &CompletionLog) -> (r: CompletionLogResponse)
    ensures
        r.shows(*log),
{
    CompletionLogResponse {
        id: uuid_text(log.id.0),
        task_id: uuid_text(log.task_id.0),
        instance_date: log_date(log.instance_date),
        completed_by: uuid_text(log.completed_by.0),
        completed_at: log.completed_at.rfc3339_text(),
        skipped: log.skipped,
        notes: copy_text(&log.notes),
    }
}

// ─── Well-formedness ─────────────────────────────────────────────────────────────

/// What holds of every task of the household: its title is not blank, and its
/// times can be shown.
pub open spec fn is_well_formed(task: Task) -> bool {
    &&& !blank(task.title@)
    &&& task.due_by matches Some(at) ==> at@.has_rfc3339_text()
    &&& task.earliest_at matches Some(at) ==> at@.has_rfc3339_text()
}

/// What is said of an effort and a priority that are not 1 to 5. Each text is
/// looked at only where its number is refused.
#[derive(Debug)]
pub struct LevelComplaints {
    /// Said of the effort.
    pub effort: String,
    /// Said of the priority.
    pub priority: String,
}

/// What is said of a new task that the rules of the household refuse. Each text
/// is looked at only where what it speaks of is refused.
#[derive(Debug)]
pub struct TaskComplaints {
    /// Said of a blank title.
    pub title: String,
    /// Said of the effort and the priority.
    pub levels: LevelComplaints,
}

// ─── Create ───────────────────────────────────────────────────────────────────

/// Why a new task is refused, if it is. The checks come in this order: the
/// recurrence pair, `due_by`, `earliest_at`, `effort`, `priority`, the title.
pub open spec fn create_refusal(
    req: CreateTaskRequest,
    verdict: Result<(), String>,
    complaints: TaskComplaints,
    due_by_malformed: bool,
    earliest_at_malformed: bool,
) -> Option<Refusal> {
    if recurrence_refusal(req.recurrence_rrule, req.recurrence_timezone, verdict) is Some {
        recurrence_refusal(req.recurrence_rrule, req.recurrence_timezone, verdict)
    } else if due_by_malformed {
        Some(Refusal::unprocessable("due_by: invalid RFC 3339 datetime"@))
    } else if earliest_at_malformed {
        Some(Refusal::unprocessable("earliest_at: invalid RFC 3339 datetime"@))
    } else if req.effort is Some && !is_level(req.effort->0) {
        Some(Refusal::unprocessable("effort: "@ + complaints.levels.effort@))
    } else if req.priority is Some && !is_level(req.priority->0) {
        Some(Refusal::unprocessable("priority: "@ + complaints.levels.priority@))
    } else if blank(req.title@) {
        Some(Refusal::unprocessable(complaints.title@))
    } else {
        None
    }
}

/// The tags a request gives.
pub open spec fn tags_given(tags: Option<Vec<String>>) -> Seq<Seq<char>> {
    match tags {
        Some(tags) => texts(tags@),
        None => Seq::empty(),
    }
}

/// Whether `task` is the task that a request for a new one makes at `now`: what
/// the request says, open, owned by the placeholder member, assigned to no one.
pub open spec fn is_created(
    task: Task,
    req: CreateTaskRequest,
    due_by: Option<Moment>,
    earliest_at: Option<Moment>,
    now: Timestamp,
) -> bool {
    &&& is_version_7(task.id.0)
    &&& task.title == req.title
    &&& task.notes == req.notes
    &&& task.status == TaskStatus::Open
    &&& moment_of(task.due_by) == due_by
    &&& moment_of(task.earliest_at) == earliest_at
    &&& effort_of(task.effort) == req.effort
    &&& priority_of(task.priority) == req.priority
    &&& texts(task.tags@) == tags_given(req.tags).map_values(
        |tag: Seq<char>| normalised_tag(tag),
    )
    &&& task.owner_id == MemberId(PLACEHOLDER_MEMBER)
    &&& task.assignee_ids@ == Seq::<MemberId>::empty()
    &&& task.eligible_member_ids@ == Seq::<MemberId>::empty()
    &&& task.current_assignee_id is None
    &&& task.recurrence == rule_given(req.recurrence_rrule, req.recurrence_timezone)
    &&& task.created_at == now
    &&& task.updated_at == now
}

/// `POST /api/v1/tasks`: the task that the request makes, or why it is refused.
///
/// `verdict` is the validator's answer on the rule that
/// [`rule_to_check`](crate::api::fields::rule_to_check) gives for the request.
pub fn create_task(
    req: CreateTaskRequest,
    verdict: Result<(), String>,
    complaints: TaskComplaints,
    now: Timestamp,
) -> (r: Result<Task, Rejection>)
    ensures
        ({
            let refusal = create_refusal(
                req,
                verdict,
                complaints,
                is_malformed_time(req.due_by),
                is_malformed_time(req.earliest_at),
            );
            match r {
                Ok(task) => {
                    &&& refusal is None
                    &&& is_created(
                        task,
                        req,
                        moment_read(req.due_by),
                        moment_read(req.earliest_at),
                        now,
                    )
                    &&& is_well_formed(task)
                    &&& ascii_tags_are_lower_cased(tags_given(req.tags))
                },
                Err(rejection) => refusal == Some(rejection@),
            }
        }),
{
    let due_by = read_time(&req.due_by);
    let earliest_at = read_time(&req.earliest_at);
    build_task(req, due_by, earliest_at, verdict, complaints, now)
}

/// The task that a request makes, its times already read.
pub fn build_task(
    req: CreateTaskRequest,
    due_by: TimeField,
    earliest_at: TimeField,
    verdict: Result<(), String>,
    complaints: TaskComplaints,
    now: Timestamp,
) -> (r: Result<Task, Rejection>)
    ensures
        ({
            let refusal = create_refusal(
                req,
                verdict,
                complaints,
                due_by is Malformed,
                earliest_at is Malformed,
            );
            match r {
                Ok(task) => {
                    &&& refusal is None
                    &&& is_created(task, req, due_by.moment(), earliest_at.moment(), now)
                    &&& ascii_tags_are_lower_cased(tags_given(req.tags))
                },
                Err(rejection) => refusal == Some(rejection@),
            }
        }),
{
    let recurrence = match read_recurrence(
        &req.recurrence_rrule,
        &req.recurrence_timezone,
        &verdict,
    ) {
        Ok(rule) => rule,
        Err(rejection) => return Err(rejection),
    };
    let due_by = match due_by {
        TimeField::Absent => None,
        TimeField::At(at) => Some(at),
        TimeField::Malformed => return Err(
            Rejection::unprocessable("due_by: invalid RFC 3339 datetime".to_owned()),
        ),
    };
    let earliest_at = match earliest_at {
        TimeField::Absent => None,
        TimeField::At(at) => Some(at),
        TimeField::Malformed => return Err(
            Rejection::unprocessable("earliest_at: invalid RFC 3339 datetime".to_owned()),
        ),
    };
    let effort = match req.effort {
        None => None,
        Some(value) => match EffortLevel::new(value) {
            Some(level) => Some(level),
            None => return Err(
                Rejection::unprocessable(join("effort: ", complaints.levels.effort.as_str())),
            ),
        },
    };
    let priority = match req.priority {
        None => None,
        Some(value) => match Priority::new(value) {
            Some(level) => Some(level),
            None => return Err(
                Rejection::unprocessable(join("priority: ", complaints.levels.priority.as_str())),
            ),
        },
    };
    if is_blank(req.title.as_str()) {
        return Err(Rejection::unprocessable(complaints.title));
    }
    let tags = match &req.tags {
        Some(tags) => normalise_each(tags),
        None => {
            let none: Vec<String> = Vec::new();
            proof {
                assert(texts(none@) =~= Seq::<Seq<char>>::empty().map_values(
                    |tag: Seq<char>| normalised_tag(tag),
                ));
            }
            none
        },
    };
    Ok(
        Task {
            id: TaskId(new_uuid()),
            title: req.title,
            notes: req.notes,
            status: TaskStatus::Open,
            due_by,
            earliest_at,
            effort,
            priority,
            tags,
            owner_id: placeholder_member(),
            assignee_ids: Vec::new(),
            eligible_member_ids: Vec::new(),
            current_assignee_id: None,
            recurrence,
            created_at: now,
            updated_at: now,
        },
    )
}

/// The answer to a request for a new task, once storage has been asked to keep
/// it: 201 with the task, 500 if it could not be kept. Whether its instances
/// could be laid out does not matter here.
pub fn created_task(task: &Task, kept: Result<(), StorageFailure>) -> (r: Result<
    Reply<TaskResponse>,
    Rejection,
>)
    ensures
        match r {
            Ok(reply) => kept is Ok && reply.status == StatusCode::Created && reply.body.shows(
                *task,
            ),
            Err(rejection) => kept is Err && rejection@ == Refusal::internal(),
        },
{
    match kept {
        Ok(_) => Ok(Reply { status: StatusCode::Created, body: task_to_response(task) }),
        Err(_) => Err(Rejection::internal()),
    }
}

// ─── Laying out instances ─────────────────────────────────────────────────────

/// Whether `instance` is an occurrence of `task` at `scheduled_at`: it takes
/// over the task's default assignee.
pub open spec fn is_instance_at(instance: TaskInstance, task: Task, scheduled_at: Timestamp) -> bool {
    &&& instance.task_id == task.id
    &&& instance.scheduled_at == scheduled_at
    &&& instance.current_assignee_id == task.current_assignee_id
    &&& exists|uuid: u128| is_version_7(uuid) && instance.id@ == #[trigger] hyphenated(uuid)
}

/// The instances of `task` at the given times under the given identifiers. They
/// can be told apart by their identifiers if these differ.
pub fn instances_with(task: &Task, times: &Vec<Timestamp>, ids: &Vec<u128>) -> (r: Vec<
    TaskInstance,
>)
    requires
        ids@.len() == times@.len(),
    ensures
        r@.len() == times@.len(),
        forall|i: int|
            0 <= i < times@.len() ==> {
                &&& (#[trigger] r@[i]).id@ == hyphenated(ids@[i])
                &&& r@[i].task_id == task.id
                &&& r@[i].scheduled_at == times@[i]
                &&& r@[i].current_assignee_id == task.current_assignee_id
            },
        forall|i: int|
            0 <= i < times@.len() && is_version_7(ids@[i]) ==> is_instance_at(
                #[trigger] r@[i],
                *task,
                times@[i],
            ),
        ids@.no_duplicates() ==> forall|i: int, j: int|
            0 <= i < j < times@.len() ==> (#[trigger] r@[i]).id@ != (#[trigger] r@[j]).id@,
{
    let mut out: Vec<TaskInstance> = Vec::new();
    for i in 0..times.len()
        invariant
            ids@.len() == times@.len(),
            out@.len() == i,
            forall|k: int|
                0 <= k < i ==> {
                    &&& (#[trigger] out@[k]).id@ == hyphenated(ids@[k])
                    &&& out@[k].task_id == task.id
                    &&& out@[k].scheduled_at == times@[k]
                    &&& out@[k].current_assignee_id == task.current_assignee_id
                },
    {
        out.push(
            TaskInstance {
                id: uuid_text(ids[i]),
                task_id: task.id,
                scheduled_at: times[i],
                current_assignee_id: task.current_assignee_id,
            },
        );
    }
    proof {
        if ids@.no_duplicates() {
            assert forall|i: int, j: int| 0 <= i < j < times@.len() implies (
            #[trigger] out@[i]).id@ != (#[trigger] out@[j]).id@ by {
                different_uuids_have_different_texts(ids@[i], ids@[j]);
            }
        }
    }
    out
}

/// The instances of `task` at the given times, each under an identifier that is
/// drawn for it.
pub fn instances_at(task: &Task, times: &Vec<Timestamp>) -> (r: Vec<TaskInstance>)
    ensures
        r@.len() == times@.len(),
        forall|i: int|
            0 <= i < times@.len() ==> is_instance_at(#[trigger] r@[i], *task, times@[i]),
{
    let ids = new_uuids(times.len());
    instances_with(task, times, &ids)
}

/// Where a new task is laid out: nowhere if it is a one-shot task, and otherwise
/// from when it was made to the horizon.
pub fn layout_window(task: &Task) -> (r: Option<Window>)
    requires
        task.recurrence is Some ==> task.created_at@.julian_day + HORIZON_DAYS <= LAST_DAY,
    ensures
        is_first_layout(r, task.recurrence, task.created_at),
{
    first_layout(&task.recurrence, task.created_at)
}

/// The instances to keep, given what the expansion of the task's rule over its
/// [`layout_window`] or from the cutoff of an [`InstanceReplacement`] on came to,
/// or what to log when it failed.
pub fn materialise_instances(task: &Task, times: Result<Vec<Timestamp>, String>) -> (r: Result<
    Vec<TaskInstance>,
    String,
>)
    ensures
        match (times, r) {
            (Ok(times), Ok(instances)) => instances@.len() == times@.len() && forall|i: int|
                0 <= i < times@.len() ==> is_instance_at(
                    #[trigger] instances@[i],
                    *task,
                    times@[i],
                ),
            (Err(reason), Err(message)) => message@ == "materialise_instances: "@ + reason@,
            _ => false,
        },
{
    match times {
        Ok(times) => Ok(instances_at(task, &times)),
        Err(reason) => Err(join("materialise_instances: ", reason.as_str())),
    }
}

/// A new task is laid out only if it recurs, from when it was made to the horizon.
/// Its instances are the times that its rule was expanded to, one for one; they
/// belong to the task that is shown, and to no one in particular.
pub proof fn new_tasks_are_laid_out_from_their_making(
    task: Task,
    response: TaskResponse,
    req: CreateTaskRequest,
    due_by: Option<Moment>,
    earliest_at: Option<Moment>,
    now: Timestamp,
    window: Option<Window>,
    times: Seq<Timestamp>,
    instances: Seq<TaskInstance>,
)
    requires
        is_created(task, req, due_by, earliest_at, now),
        response.shows(task),
        is_first_layout(window, task.recurrence, task.created_at),
        instances.len() == times.len(),
        forall|i: int|
            0 <= i < times.len() ==> is_instance_at(#[trigger] instances[i], task, times[i]),
    ensures
        window is Some <==> req.recurrence_rrule is Some && req.recurrence_timezone is Some,
        window matches Some(w) ==> w.from == now && w.until@ == now@.plus_days(HORIZON_DAYS as int),
        forall|i: int|
            0 <= i < instances.len() ==> {
                &&& (#[trigger] instances[i]).scheduled_at == times[i]
                &&& writes_uuid(response.id@, instances[i].task_id.0)
                &&& instances[i].current_assignee_id is None
            },
{
}

/// What to log of keeping the instances, if it failed.
pub fn store_instances(kept: Result<(), StorageFailure>) -> (r: Result<(), String>)
    ensures
        match (kept, r) {
            (Ok(_), Ok(_)) => true,
            (Err(failure), Err(message)) => message@ == "upsert_task_instances: "@
                + failure.message@,
            _ => false,
        },
{
    match kept {
        Ok(_) => Ok(()),
        Err(failure) => Err(join("upsert_task_instances: ", failure.message.as_str())),
    }
}

// ─── Read ─────────────────────────────────────────────────────────────────────

/// What the task identifier in a path comes to.
pub open spec fn task_id_of(text: Seq<char>) -> Result<TaskId, Refusal> {
    match identified(parsed_uuid(text), "invalid task ID"@) {
        Ok(uuid) => Ok(TaskId(uuid)),
        Err(refusal) => Err(refusal),
    }
}

/// Reads the task identifier in a path.
pub fn parse_task_id(text: &str) -> (r: Result<TaskId, Rejection>)
    ensures
        outcome(r) == task_id_of(text@),
{
    match identify(parse_uuid(text), "invalid task ID") {
        Ok(uuid) => Ok(TaskId(uuid)),
        Err(rejection) => Err(rejection),
    }
}

/// The task that a read found: 404 if there is none.
pub fn found_task(read: Result<Option<Task>, StorageFailure>) -> (r: Result<Task, Rejection>)
    ensures
        outcome(r) == found_row(read, "task not found"@),
{
    found(read, "task not found")
}

/// `GET /api/v1/tasks/{id}`: the answer once the task has been read.
pub fn get_task(read: Result<Option<Task>, StorageFailure>) -> (r: Result<
    Reply<TaskResponse>,
    Rejection,
>)
    ensures
        match (found_row(read, "task not found"@), outcome(r)) {
            (Ok(task), Ok(reply)) => reply.status == StatusCode::Success && reply.body.shows(task),
            (Err(refusal), Err(answer)) => answer == refusal,
            _ => false,
        },
{
    match found_task(read) {
        Ok(task) => Ok(Reply { status: StatusCode::Success, body: task_to_response(&task) }),
        Err(rejection) => Err(rejection),
    }
}

/// Whether the responses show the tasks one by one.
pub open spec fn show_all(responses: Seq<TaskResponse>, tasks: Seq<Task>) -> bool {
    &&& responses.len() == tasks.len()
    &&& forall|i: int| 0 <= i < tasks.len() ==> (#[trigger] responses[i]).shows(tasks[i])
}

/// Why a listing is refused, if it is: an unknown status, then a malformed time.
pub open spec fn list_refusal(params: ListTasksQuery, due_before_malformed: bool) -> Option<
    Refusal,
> {
    if params.status is Some && TaskStatus::of_text(params.status->0@) is None {
        Some(Refusal::bad_request("unknown status: "@ + params.status->0@))
    } else if due_before_malformed {
        Some(Refusal::bad_request("due_before: invalid RFC 3339 datetime"@))
    } else {
        None
    }
}

/// Whether `filter` asks for what the query asks for.
pub open spec fn is_filter_of(
    filter: TaskFilter,
    params: ListTasksQuery,
    due_before: Option<Moment>,
) -> bool {
    &&& filter.status == (match params.status {
        Some(text) => TaskStatus::of_text(text@),
        None => None,
    })
    &&& text_of(filter.tag) == (match params.tag {
        Some(text) => Some(normalised_tag(text@)),
        None => None,
    })
    &&& params.tag matches Some(text) ==> ascii_tags_are_lower_cased(seq![text@])
    &&& moment_of(filter.due_before) == due_before
}

/// `GET /api/v1/tasks`: the filter that the query asks for.
pub fn list_tasks_handler(params: ListTasksQuery) -> (r: Result<TaskFilter, Rejection>)
    ensures
        ({
            let refusal = list_refusal(params, is_malformed_time(params.due_before));
            match r {
                Ok(filter) => refusal is None && is_filter_of(
                    filter,
                    params,
                    moment_read(params.due_before),
                ),
                Err(rejection) => refusal == Some(rejection@),
            }
        }),
{
    let due_before = read_time(&params.due_before);
    list_filter(params, due_before)
}

/// The filter that a query asks for, its time already read.
pub fn list_filter(params: ListTasksQuery, due_before: TimeField) -> (r: Result<
    TaskFilter,
    Rejection,
>)
    ensures
        ({
            let refusal = list_refusal(params, due_before is Malformed);
            match r {
                Ok(filter) => refusal is None && is_filter_of(filter, params, due_before.moment()),
                Err(rejection) => refusal == Some(rejection@),
            }
        }),
{
    let status = match &params.status {
        None => None,
        Some(text) => match TaskStatus::parse(text.as_str()) {
            Some(status) => Some(status),
            None => return Err(
                Rejection::bad_request(join("unknown status: ", text.as_str())),
            ),
        },
    };
    let due_before = match due_before {
        TimeField::Absent => None,
        TimeField::At(at) => Some(at),
        TimeField::Malformed => return Err(
            Rejection::bad_request("due_before: invalid RFC 3339 datetime".to_owned()),
        ),
    };
    let tag = match &params.tag {
        None => None,
        Some(text) => Some(normalise_tag(text.as_str())),
    };
    Ok(TaskFilter { status, tag, due_before })
}

/// The answer to a listing once the tasks have been read.
pub fn listed_tasks(read: Result<Vec<Task>, StorageFailure>) -> (r: Result<
    Reply<Vec<TaskResponse>>,
    Rejection,
>)
    ensures
        match (stored_value(read), outcome(r)) {
            (Ok(tasks), Ok(reply)) => reply.status == StatusCode::Success && show_all(
                reply.body@,
                tasks@,
            ),
            (Err(refusal), Err(answer)) => answer == refusal,
            _ => false,
        },
{
    let tasks = match stored(read) {
        Ok(tasks) => tasks,
        Err(rejection) => return Err(rejection),
    };
    let mut body: Vec<TaskResponse> = Vec::new();
    for i in 0..tasks.len()
        invariant
            show_all(body@, tasks@.take(i as int)),
    {
        body.push(task_to_response(&tasks[i]));
    }
    proof {
        assert(tasks@.take(tasks@.len() as int) =~= tasks@);
    }
    Ok(Reply { status: StatusCode::Success, body })
}

/// Whether the responses show the entries one by one.
pub open spec fn show_history(
    responses: Seq<CompletionLogResponse>,
    logs: Seq<CompletionLog>,
) -> bool {
    &&& responses.len() == logs.len()
    &&& forall|i: int| 0 <= i < logs.len() ==> (#[trigger] responses[i]).shows(logs[i])
}

/// `GET /api/v1/tasks/{id}/history`: the answer once the log has been read.
pub fn get_task_history(read: Result<Vec<CompletionLog>, StorageFailure>) -> (r: Result<
    Reply<Vec<CompletionLogResponse>>,
    Rejection,
>)
    ensures
        match (stored_value(read), outcome(r)) {
            (Ok(logs), Ok(reply)) => reply.status == StatusCode::Success && show_history(
                reply.body@,
                logs@,
            ),
            (Err(refusal), Err(answer)) => answer == refusal,
            _ => false,
        },
{
    let logs = match stored(read) {
        Ok(logs) => logs,
        Err(rejection) => return Err(rejection),
    };
    let mut body: Vec<CompletionLogResponse> = Vec::new();
    for i in 0..logs.len()
        invariant
            show_history(body@, logs@.take(i as int)),
    {
        body.push(completion_log_to_response(&logs[i]));
    }
    proof {
        assert(logs@.take(logs@.len() as int) =~= logs@);
    }
    Ok(Reply { status: StatusCode::Success, body })
}

// ─── Patch ────────────────────────────────────────────────────────────────────

/// What a patch does to an optional time.
#[derive(Clone, Copy, Debug)]
pub enum TimeChange {
    /// Leaves it as it is.
    Keep,
    /// Takes it away.
    Clear,
    /// Gives a text that is not RFC 3339.
    Malformed,
    /// Replaces it.
    Replace(Timestamp),
}

/// Whether a patched time gives a text that is neither empty nor RFC 3339.
pub open spec fn is_malformed_change(text: Field<String>) -> bool {
    text matches Field::Given(s) && s@.len() > 0 && parsed_rfc3339(s@) is None
}

/// Whether `new` is what a patched time makes of `old`.
pub open spec fn is_time_patched(
    new: Option<Timestamp>,
    old: Option<Timestamp>,
    text: Field<String>,
) -> bool {
    match text {
        Field::Absent => new == old,
        Field::Null => new is None,
        Field::Given(s) => if s@.len() == 0 {
            new is None
        } else {
            moment_of(new) == parsed_rfc3339(s@)
        },
    }
}

/// Whether a field of a patch is `null` or the empty text.
pub open spec fn is_taken_away(text: Field<String>) -> bool {
    text is Null || (text matches Field::Given(s) && s@.len() == 0)
}

impl TimeChange {
    /// Whether this is what a patched time reads as.
    pub open spec fn reads(self, text: Field<String>) -> bool {
        match text {
            Field::Absent => self is Keep,
            Field::Null => self is Clear,
            Field::Given(s) => if s@.len() == 0 {
                self is Clear
            } else {
                match parsed_rfc3339(s@) {
                    None => self is Malformed,
                    Some(moment) => self matches TimeChange::Replace(t) && t@ == moment,
                }
            },
        }
    }

    /// What the change makes of a time.
    pub open spec fn applied(self, time: Option<Timestamp>) -> Option<Timestamp> {
        match self {
            TimeChange::Replace(t) => Some(t),
            TimeChange::Clear => None,
            _ => time,
        }
    }

    /// What the change makes of a time.
    pub fn apply(self, time: Option<Timestamp>) -> (r: Option<Timestamp>)
        ensures
            r == self.applied(time),
    {
        match self {
            TimeChange::Replace(t) => Some(t),
            TimeChange::Clear => None,
            _ => time,
        }
    }
}

/// Reads a patched time: absent keeps it, `null` and the empty text take it away.
pub fn read_time_change(text: &Field<String>) -> (r: TimeChange)
    ensures
        r.reads(*text),
        r is Malformed <==> is_malformed_change(*text),
        r matches TimeChange::Replace(at) ==> at@.has_rfc3339_text(),
{
    match text {
        Field::Absent => TimeChange::Keep,
        Field::Null => TimeChange::Clear,
        Field::Given(s) => if s.as_str().is_empty() {
            TimeChange::Clear
        } else {
            match parse_rfc3339(s.as_str()) {
                None => TimeChange::Malformed,
                Some(t) => TimeChange::Replace(t),
            }
        },
    }
}

/// Why a patch is refused, if it is. The checks come in this order: the title,
/// the status, `due_by`, `earliest_at`, `effort`, `priority`, the recurrence
/// pair.
pub open spec fn patch_refusal(
    req: UpdateTaskRequest,
    verdict: Result<(), String>,
    complaints: LevelComplaints,
    due_by_malformed: bool,
    earliest_at_malformed: bool,
) -> Option<Refusal> {
    if req.title is Some && blank(req.title->0@) {
        Some(Refusal::unprocessable("title must not be empty"@))
    } else if req.status is Some && TaskStatus::of_text(req.status->0@) is None {
        Some(Refusal::unprocessable("unknown status: "@ + req.status->0@))
    } else if due_by_malformed {
        Some(Refusal::unprocessable("due_by: invalid RFC 3339 datetime"@))
    } else if earliest_at_malformed {
        Some(Refusal::unprocessable("earliest_at: invalid RFC 3339 datetime"@))
    } else if req.effort is Some && !is_level(req.effort->0) {
        Some(Refusal::unprocessable("effort: "@ + complaints.effort@))
    } else if req.priority is Some && !is_level(req.priority->0) {
        Some(Refusal::unprocessable("priority: "@ + complaints.priority@))
    } else {
        recurrence_refusal(req.recurrence_rrule, req.recurrence_timezone, verdict)
    }
}

/// Whether `new` is what a patch makes of `old` at `now`, all but its times.
pub open spec fn is_patched(new: Task, old: Task, req: UpdateTaskRequest, now: Timestamp) -> bool {
    &&& new.id == old.id
    &&& new.title == (match req.title {
        Some(title) => title,
        None => old.title,
    })
    &&& new.notes == (match req.notes {
        Field::Absent => old.notes,
        Field::Null => None,
        Field::Given(notes) => if notes@.len() == 0 {
            None
        } else {
            Some(notes)
        },
    })
    &&& Some(new.status) == (match req.status {
        Some(text) => TaskStatus::of_text(text@),
        None => Some(old.status),
    })
    &&& match req.effort {
        Some(value) => effort_of(new.effort) == Some(value),
        None => new.effort == old.effort,
    }
    &&& match req.priority {
        Some(value) => priority_of(new.priority) == Some(value),
        None => new.priority == old.priority,
    }
    &&& match req.tags {
        Field::Absent => new.tags == old.tags,
        Field::Null => new.tags@.len() == 0,
        Field::Given(tags) => texts(new.tags@) == normalised_tags(texts(tags@)),
    }
    &&& new.owner_id == old.owner_id
    &&& new.assignee_ids == old.assignee_ids
    &&& new.eligible_member_ids == old.eligible_member_ids
    &&& new.current_assignee_id == old.current_assignee_id
    &&& new.recurrence == (match rule_given(req.recurrence_rrule, req.recurrence_timezone) {
        Some(rule) => Some(rule),
        None => old.recurrence,
    })
    &&& new.created_at == old.created_at
    &&& new.updated_at == now
}

/// Whether a patch replaces the recurrence rule of `old` by one that says
/// something else.
pub open spec fn changes_recurrence(old: Task, req: UpdateTaskRequest) -> bool {
    match rule_given(req.recurrence_rrule, req.recurrence_timezone) {
        None => false,
        Some(rule) => match old.recurrence {
            None => true,
            Some(current) => !current.same(rule),
        },
    }
}

/// A patched task, to be kept.
#[derive(Debug)]
pub struct TaskPatch {
    /// The task as it is to be kept.
    pub task: Task,
    /// Whether its recurrence rule now says something else.
    pub recurrence_changed: bool,
}

/// `PATCH /api/v1/tasks/{id}`: what the request makes of the task that was
/// found, or why it is refused.
///
/// `verdict` is the validator's answer on the rule that
/// [`rule_to_check`](crate::api::fields::rule_to_check) gives for the request.
pub fn patch_task(
    old: Task,
    req: UpdateTaskRequest,
    verdict: Result<(), String>,
    complaints: LevelComplaints,
    now: Timestamp,
) -> (r: Result<TaskPatch, Rejection>)
    ensures
        ({
            let refusal = patch_refusal(
                req,
                verdict,
                complaints,
                is_malformed_change(req.due_by),
                is_malformed_change(req.earliest_at),
            );
            match r {
                Ok(patch) => {
                    &&& refusal is None
                    &&& is_patched(patch.task, old, req, now)
                    &&& is_time_patched(patch.task.due_by, old.due_by, req.due_by)
                    &&& is_time_patched(patch.task.earliest_at, old.earliest_at, req.earliest_at)
                    &&& patch.recurrence_changed == changes_recurrence(old, req)
                    &&& is_well_formed(old) ==> is_well_formed(patch.task)
                    &&& req.tags matches Field::Given(tags) ==> ascii_tags_are_lower_cased(
                        texts(tags@),
                    )
                },
                Err(rejection) => refusal == Some(rejection@),
            }
        }),
{
    let due_by = read_time_change(&req.due_by);
    let earliest_at = read_time_change(&req.earliest_at);
    apply_patch(old, req, due_by, earliest_at, verdict, complaints, now)
}

/// What a patch makes of a task, its times already read.
pub fn apply_patch(
    old: Task,
    req: UpdateTaskRequest,
    due_by: TimeChange,
    earliest_at: TimeChange,
    verdict: Result<(), String>,
    complaints: LevelComplaints,
    now: Timestamp,
) -> (r: Result<TaskPatch, Rejection>)
    ensures
        ({
            let refusal = patch_refusal(
                req,
                verdict,
                complaints,
                due_by is Malformed,
                earliest_at is Malformed,
            );
            match r {
                Ok(patch) => {
                    &&& refusal is None
                    &&& is_patched(patch.task, old, req, now)
                    &&& patch.task.due_by == due_by.applied(old.due_by)
                    &&& patch.task.earliest_at == earliest_at.applied(old.earliest_at)
                    &&& patch.recurrence_changed == changes_recurrence(old, req)
                    &&& req.tags matches Field::Given(tags) ==> ascii_tags_are_lower_cased(
                        texts(tags@),
                    )
                },
                Err(rejection) => refusal == Some(rejection@),
            }
        }),
{
    let mut task = old;
    if let Some(title) = req.title {
        if is_blank(title.as_str()) {
            return Err(Rejection::unprocessable("title must not be empty".to_owned()));
        }
        task.title = title;
    }
    match req.notes {
        Field::Absent => {},
        Field::Null => {
            task.notes = None;
        },
        Field::Given(notes) => {
            task.notes =
            if notes.as_str().is_empty() {
                None
            } else {
                Some(notes)
            };
        },
    }
    if let Some(text) = req.status {
        match TaskStatus::parse(text.as_str()) {
            Some(status) => {
                task.status = status;
            },
            None => return Err(
                Rejection::unprocessable(join("unknown status: ", text.as_str())),
            ),
        }
    }
    if let TimeChange::Malformed = due_by {
        return Err(Rejection::unprocessable("due_by: invalid RFC 3339 datetime".to_owned()));
    }
    task.due_by = due_by.apply(task.due_by);
    if let TimeChange::Malformed = earliest_at {
        return Err(Rejection::unprocessable("earliest_at: invalid RFC 3339 datetime".to_owned()));
    }
    task.earliest_at = earliest_at.apply(task.earliest_at);
    if let Some(value) = req.effort {
        match EffortLevel::new(value) {
            Some(level) => {
                task.effort = Some(level);
            },
            None => return Err(
                Rejection::unprocessable(join("effort: ", complaints.effort.as_str())),
            ),
        }
    }
    if let Some(value) = req.priority {
        match Priority::new(value) {
            Some(level) => {
                task.priority = Some(level);
            },
            None => return Err(
                Rejection::unprocessable(join("priority: ", complaints.priority.as_str())),
            ),
        }
    }
    match req.tags {
        Field::Absent => {},
        Field::Null => {
            task.tags = Vec::new();
        },
        Field::Given(tags) => {
            task.tags = normalise_tags(&tags);
        },
    }
    let recurrence_changed = match read_recurrence(
        &req.recurrence_rrule,
        &req.recurrence_timezone,
        &verdict,
    ) {
        Err(rejection) => return Err(rejection),
        Ok(None) => false,
        Ok(Some(rule)) => {
            let changed = match &task.recurrence {
                None => true,
                Some(current) => !current.is_same(&rule),
            };
            task.recurrence = Some(rule);
            changed
        },
    };
    task.updated_at = now;
    Ok(TaskPatch { task, recurrence_changed })
}

/// The future instances that have to give way to those of a new rule.
#[derive(Clone, Copy, Debug, PartialEq, Eq, Structural)]
pub struct InstanceReplacement {
    /// The task.
    pub task_id: TaskId,
    /// Instances at or after this time go, and the new ones are laid out from it.
    pub cutoff: Timestamp,
}

/// The answer to a patch once storage has been asked to keep it, and the
/// instances that have to be replaced: 200 with the task, 500 if it could not
/// be kept. Instances are replaced only if the recurrence rule changed.
pub fn patched_task(patch: &TaskPatch, kept: Result<(), StorageFailure>) -> (r: Result<
    (Reply<TaskResponse>, Option<InstanceReplacement>),
    Rejection,
>)
    ensures
        match r {
            Ok((reply, replacement)) => {
                &&& kept is Ok
                &&& reply.status == StatusCode::Success
                &&& reply.body.shows(patch.task)
                &&& replacement == (if patch.recurrence_changed && patch.task.recurrence is Some {
                    Some(
                        InstanceReplacement {
                            task_id: patch.task.id,
                            cutoff: patch.task.updated_at,
                        },
                    )
                } else {
                    None
                })
            },
            Err(rejection) => kept is Err && rejection@ == Refusal::internal(),
        },
{
    match kept {
        Err(_) => Err(Rejection::internal()),
        Ok(_) => {
            let replacement = if patch.recurrence_changed && patch.task.recurrence.is_some() {
                Some(
                    InstanceReplacement {
                        task_id: patch.task.id,
                        cutoff: patch.task.updated_at,
                    },
                )
            } else {
                None
            };
            let reply = Reply {
                status: StatusCode::Success,
                body: task_to_response(&patch.task),
            };
            Ok((reply, replacement))
        },
    }
}

/// A patch that says nothing changes nothing but the time of the last change.
pub proof fn empty_patch_keeps_the_task(
    new: Task,
    old: Task,
    req: UpdateTaskRequest,
    now: Timestamp,
)
    requires
        req.title is None,
        req.notes is Absent,
        req.status is None,
        req.due_by is Absent,
        req.earliest_at is Absent,
        req.effort is None,
        req.priority is None,
        req.tags is Absent,
        req.recurrence_rrule is None,
        req.recurrence_timezone is None,
        is_patched(new, old, req, now),
        is_time_patched(new.due_by, old.due_by, req.due_by),
        is_time_patched(new.earliest_at, old.earliest_at, req.earliest_at),
    ensures
        new == (Task { updated_at: now, ..old }),
        !changes_recurrence(old, req),
{
}

/// `null` takes a field away, whatever the task was, and so does the empty text
/// or list; neither is ever refused.
pub proof fn null_takes_a_field_away(
    new: Task,
    old: Task,
    req: UpdateTaskRequest,
    now: Timestamp,
)
    requires
        is_patched(new, old, req, now),
        is_time_patched(new.due_by, old.due_by, req.due_by),
        is_time_patched(new.earliest_at, old.earliest_at, req.earliest_at),
    ensures
        is_taken_away(req.notes) ==> new.notes is None,
        is_taken_away(req.due_by) ==> new.due_by is None && !is_malformed_change(req.due_by),
        is_taken_away(req.earliest_at) ==> new.earliest_at is None && !is_malformed_change(
            req.earliest_at,
        ),
        (req.tags matches Field::Given(tags) ==> tags@.len() == 0) && req.tags !is Absent
            ==> new.tags@.len() == 0,
{
    if let Field::Given(tags) = req.tags {
        assert(texts(tags@).len() == tags@.len());
        assert(texts(new.tags@).len() == new.tags@.len());
    }
}

/// A patch that gives the recurrence rule the task already has does not change
/// it, so that no instance is replaced.
pub proof fn same_rule_is_no_change(old: Task, req: UpdateTaskRequest)
    requires
        req.recurrence_rrule is Some,
        req.recurrence_timezone is Some,
        old.recurrence is Some,
        old.recurrence->0.rrule@ == req.recurrence_rrule->0@,
        old.recurrence->0.timezone@ == req.recurrence_timezone->0@,
    ensures
        !changes_recurrence(old, req),
{
}

/// Patching twice with the same request is patching once with the second time:
/// nothing in a patch depends on how often it is sent, and the second one does
/// not change the recurrence rule again.
pub proof fn patching_is_idempotent(
    old: Task,
    once: Task,
    twice: Task,
    req: UpdateTaskRequest,
    first: Timestamp,
    second: Timestamp,
)
    requires
        is_patched(once, old, req, first),
        is_time_patched(once.due_by, old.due_by, req.due_by),
        is_time_patched(once.earliest_at, old.earliest_at, req.earliest_at),
        is_patched(twice, once, req, second),
        is_time_patched(twice.due_by, once.due_by, req.due_by),
        is_time_patched(twice.earliest_at, once.earliest_at, req.earliest_at),
    ensures
        is_patched(twice, old, req, second),
        is_time_patched(twice.due_by, old.due_by, req.due_by),
        is_time_patched(twice.earliest_at, old.earliest_at, req.earliest_at),
        !changes_recurrence(once, req),
{
}

/// What is stored of a task: the task itself and its log, newest entry first.
pub struct TaskRecord {
    /// The task.
    pub task: Task,
    /// What became of its instances.
    pub history: Seq<CompletionLog>,
}

impl TaskRecord {
    /// The record once a patch is kept: the log stays as it is.
    pub open spec fn patched(self, patch: TaskPatch) -> TaskRecord {
        TaskRecord { task: patch.task, history: self.history }
    }

    /// The record once an entry is logged: it comes before all others, and the
    /// task is in the state that it leaves the task in, last changed when the
    /// entry was made.
    pub open spec fn logged(self, log: CompletionLog) -> TaskRecord {
        TaskRecord {
            task: Task {
                status: log.resolution(),
                updated_at: log.completed_at,
                ..self.task
            },
            history: seq![log] + self.history,
        }
    }
}

/// Any state can replace any other: a patch that gives nothing but one of the
/// four states is not refused, leaves the task in that state, shows it so, and
/// leaves the log of the task as it is.
pub proof fn any_status_replaces_any_other(
    record: TaskRecord,
    patch: TaskPatch,
    response: TaskResponse,
    status: TaskStatus,
    req: UpdateTaskRequest,
    verdict: Result<(), String>,
    complaints: LevelComplaints,
    now: Timestamp,
)
    requires
        req.title is None,
        req.notes is Absent,
        req.status is Some,
        req.status->0@ == status.text(),
        req.due_by is Absent,
        req.earliest_at is Absent,
        req.effort is None,
        req.priority is None,
        req.tags is Absent,
        req.recurrence_rrule is None,
        req.recurrence_timezone is None,
        is_patched(patch.task, record.task, req, now),
        is_time_patched(patch.task.due_by, record.task.due_by, req.due_by),
        is_time_patched(patch.task.earliest_at, record.task.earliest_at, req.earliest_at),
        response.shows(patch.task),
    ensures
        patch_refusal(
            req,
            verdict,
            complaints,
            is_malformed_change(req.due_by),
            is_malformed_change(req.earliest_at),
        ) is None,
        record.patched(patch).task == (Task { status, updated_at: now, ..record.task }),
        response.status@ == status.text(),
        record.patched(patch).history == record.history,
{
    status_text_round_trip(status);
}

// ─── Complete, skip, reassign ─────────────────────────────────────────────────

/// Why completing or skipping an instance is refused, if it is: the identifier
/// in the path, then the date in the body. `id` and `day` are what they were
/// read as.
pub open spec fn completion_refusal(
    id: Option<u128>,
    day: Option<int>,
    req: CompleteTaskRequest,
) -> Option<Refusal> {
    if id is None {
        Some(Refusal::bad_request("invalid task ID"@))
    } else if day is None {
        Some(Refusal::unprocessable(date_complaint("instance_date"@, req.instance_date@)))
    } else {
        None
    }
}

/// Whether `log` records that the instance a request names was completed or
/// skipped at `now`.
pub open spec fn records(
    log: CompletionLog,
    id: Option<u128>,
    day: Option<int>,
    req: CompleteTaskRequest,
    skipped: bool,
    now: Timestamp,
) -> bool {
    &&& is_version_7(log.id.0)
    &&& Some(log.task_id.0) == id
    &&& Some(log.instance_date@) == day
    &&& log.completed_by == MemberId(PLACEHOLDER_MEMBER)
    &&& log.completed_at == now
    &&& log.skipped == skipped
    &&& log.notes == req.notes
}

/// The entry that completing or skipping an instance logs, its identifier and
/// its date already read.
pub fn log_instance(
    id: Option<u128>,
    date: Option<Date>,
    req: CompleteTaskRequest,
    skipped: bool,
    now: Timestamp,
) -> (r: Result<CompletionLog, Rejection>)
    ensures
        match r {
            Ok(log) => completion_refusal(id, day_of(date), req) is None && records(
                log,
                id,
                day_of(date),
                req,
                skipped,
                now,
            ),
            Err(rejection) => completion_refusal(id, day_of(date), req) == Some(rejection@),
        },
{
    let uuid: u128 = match identify(id, "invalid task ID") {
        Ok(uuid) => uuid,
        Err(rejection) => return Err(rejection),
    };
    let date = match date_or_complaint(date, "instance_date", req.instance_date.as_str()) {
        Ok(date) => date,
        Err(message) => return Err(Rejection::unprocessable(message)),
    };
    Ok(CompletionLog::new(TaskId(uuid), date, placeholder_member(), now, skipped, req.notes))
}

/// `POST /api/v1/tasks/{id}/complete`: the entry to be logged together with
/// the status `done`, or why the request is refused.
pub fn complete_task(id: &str, req: CompleteTaskRequest, now: Timestamp) -> (r: Result<
    CompletionLog,
    Rejection,
>)
    ensures
        match r {
            Ok(log) => completion_refusal(
                parsed_uuid(id@),
                parsed_date(req.instance_date@),
                req,
            ) is None && records(
                log,
                parsed_uuid(id@),
                parsed_date(req.instance_date@),
                req,
                false,
                now,
            ),
            Err(rejection) => completion_refusal(
                parsed_uuid(id@),
                parsed_date(req.instance_date@),
                req,
            ) == Some(rejection@),
        },
{
    let date = parse_iso_date(req.instance_date.as_str());
    log_instance(parse_uuid(id), date, req, false, now)
}

/// `POST /api/v1/tasks/{id}/skip`: the entry to be logged together with the
/// status `skipped`, or why the request is refused.
pub fn skip_task(id: &str, req: CompleteTaskRequest, now: Timestamp) -> (r: Result<
    CompletionLog,
    Rejection,
>)
    ensures
        match r {
            Ok(log) => completion_refusal(
                parsed_uuid(id@),
                parsed_date(req.instance_date@),
                req,
            ) is None && records(
                log,
                parsed_uuid(id@),
                parsed_date(req.instance_date@),
                req,
                true,
                now,
            ),
            Err(rejection) => completion_refusal(
                parsed_uuid(id@),
                parsed_date(req.instance_date@),
                req,
            ) == Some(rejection@),
        },
{
    let date = parse_iso_date(req.instance_date.as_str());
    log_instance(parse_uuid(id), date, req, true, now)
}

/// Whether the task whose instance is completed or skipped is there: 404 if it
/// is not, and nothing is logged.
pub fn completion_target(read: Result<Option<Task>, StorageFailure>) -> (r: Result<(), Rejection>)
    ensures
        outcome(r) == (match found_row(read, "task not found"@) {
            Ok(_) => Ok::<(), Refusal>(()),
            Err(refusal) => Err(refusal),
        }),
{
    match found_task(read) {
        Ok(_) => Ok(()),
        Err(rejection) => Err(rejection),
    }
}

/// The answer once storage has been asked to log the entry and to set the
/// status: 200 with the entry, or 500.
pub fn logged_completion(log: &CompletionLog, kept: Result<(), StorageFailure>) -> (r: Result<
    Reply<CompletionLogResponse>,
    Rejection,
>)
    ensures
        match r {
            Ok(reply) => kept is Ok && reply.status == StatusCode::Success && reply.body.shows(
                *log,
            ),
            Err(rejection) => kept is Err && rejection@ == Refusal::internal(),
        },
{
    match kept {
        Ok(_) => Ok(Reply { status: StatusCode::Success, body: completion_log_to_response(log) }),
        Err(_) => Err(Rejection::internal()),
    }
}

impl CompletionLogResponse {
    /// The texts and the flag that the response holds.
    pub open spec fn content(self) -> (
        (Seq<char>, Seq<char>, Seq<char>, Seq<char>, Seq<char>),
        bool,
        Option<Seq<char>>,
    ) {
        (
            (
                self.id@,
                self.task_id@,
                self.instance_date@,
                self.completed_by@,
                self.completed_at@,
            ),
            self.skipped,
            text_of(self.notes),
        )
    }
}

/// Whether no entry of a log was made after the one it follows.
pub open spec fn is_newest_first(history: Seq<CompletionLog>) -> bool {
    forall|i: int, j: int|
        0 <= i <= j < history.len() ==> (#[trigger] history[j]).completed_at@.instant() <= (
        #[trigger] history[i]).completed_at@.instant()
}

/// Logging an entry puts it before all others and leaves those as they are: the
/// history shown afterwards is the new entry followed by the history shown
/// before, word for word. Of the task itself it changes the state and the time of
/// the last change. The history of a task that nothing was logged of is empty. An entry that is not older than the newest one keeps the log newest
/// first.
pub proof fn history_only_grows(
    record: TaskRecord,
    log: CompletionLog,
    before: Seq<CompletionLogResponse>,
    after: Seq<CompletionLogResponse>,
)
    requires
        show_history(before, record.history),
        show_history(after, record.logged(log).history),
    ensures
        record.history.len() == 0 ==> before.len() == 0,
        after.len() == before.len() + 1,
        after[0].shows(log),
        forall|i: int|
            0 <= i < before.len() ==> (#[trigger] after[i + 1]).content() == before[i].content(),
        record.logged(log).task == (Task {
            status: log.resolution(),
            updated_at: log.completed_at,
            ..record.task
        }),
        is_newest_first(record.history) && (record.history.len() > 0
            ==> record.history[0].completed_at@.instant() <= log.completed_at@.instant())
            ==> is_newest_first(record.logged(log).history),
{
    let kept = record.history;
    let new = record.logged(log).history;
    assert(new[0] == log);
    assert forall|i: int| 0 <= i < before.len() implies (#[trigger] after[i + 1]).content()
        == before[i].content() by {
        assert(new[i + 1] == kept[i]);
        assert(after[i + 1].shows(new[i + 1]));
        assert(before[i].shows(kept[i]));
    }
    if is_newest_first(kept) && (kept.len() > 0 ==> kept[0].completed_at@.instant()
        <= log.completed_at@.instant()) {
        assert forall|i: int, j: int| 0 <= i <= j < new.len() implies (
        #[trigger] new[j]).completed_at@.instant() <= (
        #[trigger] new[i]).completed_at@.instant() by {
            if j > 0 {
                assert(new[j] == kept[j - 1]);
                if i > 0 {
                    assert(new[i] == kept[i - 1]);
                } else {
                    assert(kept[j - 1].completed_at@.instant() <= kept[0].completed_at@.instant());
                }
            }
        }
    }
}

/// A completed and a skipped instance are logged alike but for the flag that
/// tells them apart.
pub proof fn skipping_differs_by_the_flag(
    completed: CompletionLog,
    skipped: CompletionLog,
    id: Option<u128>,
    day: Option<int>,
    req: CompleteTaskRequest,
    now: Timestamp,
)
    requires
        records(completed, id, day, req, false, now),
        records(skipped, id, day, req, true, now),
    ensures
        !completed.skipped,
        skipped.skipped,
        completed.task_id == skipped.task_id,
        completed.instance_date@ == skipped.instance_date@,
        completed.completed_by == skipped.completed_by,
        completed.completed_at == skipped.completed_at,
        completed.notes == skipped.notes,
{
}

/// A request for another default assignee, read.
#[derive(Clone, Copy, Debug, PartialEq, Eq, Structural)]
pub struct Reassignment {
    /// The task.
    pub task_id: TaskId,
    /// Its new default assignee; absent takes the assignee away.
    pub assignee: Option<MemberId>,
}

/// What a request for another default assignee comes to: the identifier in the
/// path counts first, then the one in the body. `id` and `member` are what they
/// were read as.
pub open spec fn reassignment_of(id: Option<u128>, member: MemberField) -> Result<
    Reassignment,
    Refusal,
> {
    match identified(id, "invalid task ID"@) {
        Err(refusal) => Err(refusal),
        Ok(uuid) => match member {
            MemberField::Absent => Ok(Reassignment { task_id: TaskId(uuid), assignee: None }),
            MemberField::Given(member) => Ok(
                Reassignment { task_id: TaskId(uuid), assignee: Some(member) },
            ),
            MemberField::Malformed => Err(Refusal::unprocessable("invalid member ID"@)),
        },
    }
}

/// `POST /api/v1/tasks/{id}/assignee`: the reassignment that the request asks for.
pub fn change_assignee(id: &str, req: ChangeAssigneeRequest) -> (r: Result<
    Reassignment,
    Rejection,
>)
    ensures
        outcome(r) == reassignment_of(parsed_uuid(id@), member_read(req.member_id)),
{
    build_reassignment(parse_uuid(id), read_member(&req.member_id))
}

/// The reassignment that a request asks for, its identifiers already read.
pub fn build_reassignment(id: Option<u128>, member: MemberField) -> (r: Result<
    Reassignment,
    Rejection,
>)
    ensures
        outcome(r) == reassignment_of(id, member),
{
    let task_id = match identify(id, "invalid task ID") {
        Ok(uuid) => TaskId(uuid),
        Err(rejection) => return Err(rejection),
    };
    match member {
        MemberField::Absent => Ok(Reassignment { task_id, assignee: None }),
        MemberField::Given(member) => Ok(Reassignment { task_id, assignee: Some(member) }),
        MemberField::Malformed => Err(
            Rejection::unprocessable("invalid member ID".to_owned()),
        ),
    }
}

/// The task that was found, with its new default assignee: 404 if there is no
/// such task. Nothing else of the task changes but the time of its last change.
pub fn reassign_task(
    read: Result<Option<Task>, StorageFailure>,
    assignee: Option<MemberId>,
    now: Timestamp,
) -> (r: Result<Task, Rejection>)
    ensures
        outcome(r) == (match found_row(read, "task not found"@) {
            Ok(task) => Ok(Task { current_assignee_id: assignee, updated_at: now, ..task }),
            Err(refusal) => Err(refusal),
        }),
        (read matches Ok(Some(task)) ==> is_well_formed(task)) ==> (r matches Ok(task)
            ==> is_well_formed(task)),
{
    match found_task(read) {
        Ok(task) => Ok(Task { current_assignee_id: assignee, updated_at: now, ..task }),
        Err(rejection) => Err(rejection),
    }
}

/// The answer once storage has been asked to keep a changed task: 200 with the
/// task, or 500.
pub fn updated_task(task: &Task, kept: Result<(), StorageFailure>) -> (r: Result<
    Reply<TaskResponse>,
    Rejection,
>)
    ensures
        match r {
            Ok(reply) => kept is Ok && reply.status == StatusCode::Success && reply.body.shows(
                *task,
            ),
            Err(rejection) => kept is Err && rejection@ == Refusal::internal(),
        },
{
    match kept {
        Ok(_) => Ok(Reply { status: StatusCode::Success, body: task_to_response(task) }),
        Err(_) => Err(Rejection::internal()),
    }
}

// ─── Upcoming ─────────────────────────────────────────────────────────────────

/// A read of the instances of one task from a time on.
#[derive(Clone, Copy, Debug, PartialEq, Eq, Structural)]
pub struct InstanceQuery {
    /// The task.
    pub task_id: TaskId,
    /// Instances before this time are left out.
    pub from: Timestamp,
    /// How many instances are wanted at most.
    pub limit: i64,
}

/// How many instances a request for upcoming ones is answered with at most:
/// as many as it asks for, none for a negative number, and never more than
/// [`UPCOMING_CAP`].
pub open spec fn capped(limit: i64) -> i64 {
    if limit < 0 {
        0
    } else if limit <= UPCOMING_CAP {
        limit
    } else {
        UPCOMING_CAP
    }
}

/// The limit that holds for a request.
fn cap(limit: i64) -> (r: i64)
    ensures
        r == capped(limit),
{
    if limit < 0 {
        0
    } else if limit <= UPCOMING_CAP {
        limit
    } else {
        UPCOMING_CAP
    }
}

/// `GET /api/v1/tasks/upcoming`: the tasks to read, and the limit that holds.
pub fn list_upcoming(params: UpcomingQuery) -> (r: (TaskFilter, i64))
    ensures
        r.0 == (TaskFilter { status: Some(TaskStatus::Open), tag: None, due_before: None }),
        r.1 == capped(params.limit),
{
    (TaskFilter { status: Some(TaskStatus::Open), tag: None, due_before: None }, cap(params.limit))
}

/// The read that an upcoming listing needs for a task: none for a one-shot task,
/// which has no instances.
pub fn upcoming_instances_query(task: &Task, now: Timestamp, limit: i64) -> (r: Option<
    InstanceQuery,
>)
    ensures
        r == (if task.recurrence is Some {
            Some(InstanceQuery { task_id: task.id, from: now, limit })
        } else {
            None
        }),
{
    if task.recurrence.is_some() {
        Some(InstanceQuery { task_id: task.id, from: now, limit })
    } else {
        None
    }
}

/// An instance and the task it belongs to.
pub type Occurrence = (TaskInstance, Task);

/// When an occurrence is due.
pub open spec fn due_instant(occurrence: Occurrence) -> int {
    occurrence.0.scheduled_at@.instant()
}

/// The instances with the task they belong to.
pub open spec fn occurrences_of(task: Task, instances: Seq<TaskInstance>) -> Seq<Occurrence> {
    instances.map_values(|i: TaskInstance| (i, task))
}

/// The occurrences that the reads brought, task by task. One-shot tasks have
/// none, and a read that failed brings none.
pub open spec fn gathered(
    tasks: Seq<Task>,
    reads: Seq<Result<Vec<TaskInstance>, StorageFailure>>,
) -> Seq<Occurrence>
    decreases tasks.len(),
{
    if tasks.len() == 0 {
        Seq::empty()
    } else {
        let rest = gathered(tasks.drop_last(), reads);
        match reads[tasks.len() - 1] {
            Ok(instances) => if tasks.last().recurrence is Some {
                rest + occurrences_of(tasks.last(), instances@)
            } else {
                rest
            },
            Err(_) => rest,
        }
    }
}

/// Where an occurrence due at `at` goes in a chronological list: behind all
/// that are due no later.
pub open spec fn place_for(list: Seq<Occurrence>, at: int) -> int
    decreases list.len(),
{
    if list.len() == 0 || due_instant(list.last()) <= at {
        list.len() as int
    } else {
        place_for(list.drop_last(), at)
    }
}

/// The occurrences in chronological order, those due at the same time in the
/// order they came in.
pub open spec fn chronological(list: Seq<Occurrence>) -> Seq<Occurrence>
    decreases list.len(),
{
    if list.len() == 0 {
        list
    } else {
        let rest = chronological(list.drop_last());
        rest.insert(place_for(rest, due_instant(list.last())), list.last())
    }
}

/// The first of a list, as many as a limit lets through.
pub open spec fn within_limit(list: Seq<Occurrence>, limit: i64) -> Seq<Occurrence> {
    if capped(limit) < list.len() {
        list.take(capped(limit) as int)
    } else {
        list
    }
}

impl UpcomingInstanceResponse {
    /// Whether this is how an occurrence is shown.
    pub open spec fn shows(self, occurrence: Occurrence) -> bool {
        let (instance, task) = occurrence;
        &&& self.instance_id@ == instance.id@
        &&& writes_uuid(self.task_id@, task.id.0)
        &&& writes_time(self.scheduled_at@, instance.scheduled_at@)
        &&& text_of(self.current_assignee_id) == member_text(instance.current_assignee_id)
        &&& self.title@ == task.title@
        &&& self.status@ == task.status.text()
    }
}

/// Whether the responses show the occurrences one by one.
pub open spec fn show_upcoming(
    responses: Seq<UpcomingInstanceResponse>,
    list: Seq<Occurrence>,
) -> bool {
    &&& responses.len() == list.len()
    &&& forall|i: int| 0 <= i < list.len() ==> (#[trigger] responses[i]).shows(list[i])
}

fn upcoming_to_response(instance: &TaskInstance, task: &Task) -> (r: UpcomingInstanceResponse)
    ensures
        r.shows((*instance, *task)),
{
    UpcomingInstanceResponse {
        instance_id: instance.id.clone(),
        task_id: uuid_text(task.id.0),
        scheduled_at: instance.scheduled_at.rfc3339_text(),
        current_assignee_id: member_to_text(instance.current_assignee_id),
        title: task.title.clone(),
        status: task.status.as_str().to_owned(),
    }
}

/// The answer to a request for upcoming instances: those of the recurring
/// tasks, nearest first, at most `limit` of them, and at most
/// [`UPCOMING_CAP`] whatever the limit.
///
/// `reads` holds, for each task, what [`upcoming_instances_query`] brought; it
/// is not looked at for a one-shot task.
pub fn listed_upcoming(
    tasks: &Vec<Task>,
    reads: &Vec<Result<Vec<TaskInstance>, StorageFailure>>,
    limit: i64,
) -> (r: Reply<Vec<UpcomingInstanceResponse>>)
    requires
        reads@.len() == tasks@.len(),
    ensures
        r.status == StatusCode::Success,
        show_upcoming(r.body@, within_limit(chronological(gathered(tasks@, reads@)), limit)),
        r.body@.len() <= UPCOMING_CAP,
        0 <= limit ==> r.body@.len() <= limit,
        limit < 0 ==> r.body@.len() == 0,
{
    let mut times: Vec<Timestamp> = Vec::new();
    let mut body: Vec<UpcomingInstanceResponse> = Vec::new();
    let ghost mut seen: Seq<Occurrence> = Seq::empty();
    for i in 0..tasks.len()
        invariant
            reads@.len() == tasks@.len(),
            seen == gathered(tasks@.take(i as int), reads@),
            times@.len() == chronological(seen).len(),
            forall|j: int|
                0 <= j < times@.len() ==> #[trigger] times@[j] == chronological(
                    seen,
                )[j].0.scheduled_at,
            show_upcoming(body@, chronological(seen)),
    {
        let ghost before = seen;
        proof {
            assert(tasks@.take(i + 1).drop_last() =~= tasks@.take(i as int));
        }
        if tasks[i].recurrence.is_some() {
            if let Ok(instances) = &reads[i] {
                proof {
                    assert(before + occurrences_of(tasks@[i as int], instances@.take(0))
                        =~= before);
                }
                for k in 0..instances.len()
                    invariant
                        i < tasks@.len(),
                        seen == before + occurrences_of(
                            tasks@[i as int],
                            instances@.take(k as int),
                        ),
                        times@.len() == chronological(seen).len(),
                        forall|j: int|
                            0 <= j < times@.len() ==> #[trigger] times@[j] == chronological(
                                seen,
                            )[j].0.scheduled_at,
                        show_upcoming(body@, chronological(seen)),
                {
                    let at = instances[k].scheduled_at;
                    let response = upcoming_to_response(&instances[k], &tasks[i]);
                    let ghost list = chronological(seen);
                    let mut place: usize = times.len();
                    proof {
                        assert(list.take(list.len() as int) =~= list);
                    }
                    while place > 0 && at.is_before(times[place - 1])
                        invariant
                            place <= times@.len(),
                            times@.len() == list.len(),
                            forall|j: int|
                                0 <= j < times@.len() ==> #[trigger] times@[j]
                                    == list[j].0.scheduled_at,
                            place_for(list, at@.instant()) == place_for(
                                list.take(place as int),
                                at@.instant(),
                            ),
                        decreases place,
                    {
                        proof {
                            assert(times@[place - 1] == list[place - 1].0.scheduled_at);
                            assert(list.take(place as int).drop_last() =~= list.take(place - 1));
                        }
                        place = place - 1;
                    }
                    proof {
                        if place > 0 {
                            assert(times@[place - 1] == list[place - 1].0.scheduled_at);
                        }
                        assert(place_for(list, at@.instant()) == place);
                        let occurrence = (instances@[k as int], tasks@[i as int]);
                        let longer = before + occurrences_of(
                            tasks@[i as int],
                            instances@.take(k + 1),
                        );
                        assert(longer =~= seen.push(occurrence));
                        assert(longer.drop_last() =~= seen);
                        seen = longer;
                        assert(chronological(seen) == list.insert(place as int, occurrence));
                    }
                    times.insert(place, at);
                    body.insert(place, response);
                }
                proof {
                    assert(instances@.take(instances@.len() as int) =~= instances@);
                }
            }
        }
    }
    proof {
        assert(tasks@.take(tasks@.len() as int) =~= tasks@);
    }
    let most: i64 = cap(limit);
    if (most as u64) < body.len() as u64 {
        body.truncate(most as usize);
    }
    Reply { status: StatusCode::Success, body }
}

/// Whether no occurrence is due before the one it follows.
pub open spec fn is_chronological(list: Seq<Occurrence>) -> bool {
    forall|i: int, j: int|
        0 <= i <= j < list.len() ==> due_instant(#[trigger] list[i]) <= due_instant(
            #[trigger] list[j],
        )
}

proof fn place_splits_list(list: Seq<Occurrence>, at: int)
    requires
        is_chronological(list),
    ensures
        0 <= place_for(list, at) <= list.len(),
        forall|i: int| 0 <= i < place_for(list, at) ==> due_instant(#[trigger] list[i]) <= at,
        forall|i: int|
            place_for(list, at) <= i < list.len() ==> due_instant(#[trigger] list[i]) > at,
    decreases list.len(),
{
    if list.len() > 0 {
        let shorter = list.drop_last();
        if due_instant(list.last()) > at {
            place_splits_list(shorter, at);
            assert forall|i: int| 0 <= i < place_for(list, at) implies due_instant(
                #[trigger] list[i],
            ) <= at by {
                assert(shorter[i] == list[i]);
            }
            assert forall|i: int| place_for(list, at) <= i < list.len() implies due_instant(
                #[trigger] list[i],
            ) > at by {
                if i < shorter.len() {
                    assert(shorter[i] == list[i]);
                }
            }
        }
    }
}

/// Upcoming instances come nearest first, and none is lost or made up on the way.
pub proof fn upcoming_is_nearest_first(list: Seq<Occurrence>)
    ensures
        is_chronological(chronological(list)),
        chronological(list).to_multiset() == list.to_multiset(),
    decreases list.len(),
{
    if list.len() > 0 {
        upcoming_is_nearest_first(list.drop_last());
        let rest = chronological(list.drop_last());
        let at = due_instant(list.last());
        place_splits_list(rest, at);
        let place = place_for(rest, at);
        vstd::seq_lib::to_multiset_insert(rest, place, list.last());
        vstd::seq_lib::to_multiset_build(list.drop_last(), list.last());
        assert(list =~= list.drop_last().push(list.last()));
        let all = chronological(list);
        assert forall|i: int, j: int| 0 <= i <= j < all.len() implies due_instant(
            #[trigger] all[i],
        ) <= due_instant(#[trigger] all[j]) by {
            let a = if i < place {
                i
            } else {
                i - 1
            };
            let b = if j < place {
                j
            } else {
                j - 1
            };
            if i != place {
                assert(all[i] == rest[a]);
            }
            if j != place {
                assert(all[j] == rest[b]);
            }
        }
    }
}

/// The occurrences of a list that are due at `at`, in their order.
pub open spec fn due_at(list: Seq<Occurrence>, at: int) -> Seq<Occurrence>
    decreases list.len(),
{
    if list.len() == 0 {
        list
    } else if due_instant(list.last()) == at {
        due_at(list.drop_last(), at).push(list.last())
    } else {
        due_at(list.drop_last(), at)
    }
}

proof fn due_at_splits(left: Seq<Occurrence>, right: Seq<Occurrence>, at: int)
    ensures
        due_at(left + right, at) == due_at(left, at) + due_at(right, at),
    decreases right.len(),
{
    if right.len() == 0 {
        assert(left + right =~= left);
        assert(due_at(right, at) =~= Seq::empty());
        assert(due_at(left, at) + due_at(right, at) =~= due_at(left, at));
    } else {
        due_at_splits(left, right.drop_last(), at);
        assert((left + right).drop_last() =~= left + right.drop_last());
        assert((left + right).last() == right.last());
        let head = due_at(left, at) + due_at(right.drop_last(), at);
        assert(head.push(right.last()) =~= due_at(left, at) + due_at(
            right.drop_last(),
            at,
        ).push(right.last()));
    }
}

proof fn due_at_finds_nothing(list: Seq<Occurrence>, at: int)
    requires
        forall|i: int| 0 <= i < list.len() ==> due_instant(#[trigger] list[i]) != at,
    ensures
        due_at(list, at) == Seq::<Occurrence>::empty(),
    decreases list.len(),
{
    if list.len() > 0 {
        let shorter = list.drop_last();
        assert forall|i: int| 0 <= i < shorter.len() implies due_instant(#[trigger] shorter[i])
            != at by {
            assert(shorter[i] == list[i]);
        }
        assert(due_instant(list[list.len() - 1]) != at);
        due_at_finds_nothing(shorter, at);
    }
}

/// Instances that are due at the same time stay in the order of their tasks.
pub proof fn upcoming_keeps_the_order_of_ties(list: Seq<Occurrence>, at: int)
    ensures
        due_at(chronological(list), at) == due_at(list, at),
    decreases list.len(),
{
    if list.len() > 0 {
        upcoming_keeps_the_order_of_ties(list.drop_last(), at);
        upcoming_is_nearest_first(list.drop_last());
        let rest = chronological(list.drop_last());
        let last = list.last();
        place_splits_list(rest, due_instant(last));
        let place = place_for(rest, due_instant(last));
        let left = rest.take(place);
        let right = rest.skip(place);
        assert(rest =~= left + right);
        assert(chronological(list) =~= left.push(last) + right);
        due_at_splits(left, right, at);
        due_at_splits(left.push(last), right, at);
        assert(left.push(last).drop_last() =~= left);
        if due_instant(last) == at {
            assert forall|i: int| 0 <= i < right.len() implies due_instant(#[trigger] right[i])
                != at by {
                assert(right[i] == rest[place + i]);
            }
            due_at_finds_nothing(right, at);
            assert(due_at(left, at) + due_at(right, at) =~= due_at(left, at));
            assert(due_at(left, at).push(last) + due_at(right, at) =~= due_at(left, at).push(last));
        }
    }
}

/// No more upcoming instances are listed than the cap allows, whatever was
/// asked for, nor more than was asked for; a negative number asks for none.
/// The limit that [`list_upcoming`] gives lets through what was asked for.
pub proof fn upcoming_is_capped(list: Seq<Occurrence>, limit: i64)
    ensures
        within_limit(list, limit).len() <= UPCOMING_CAP,
        0 <= limit ==> within_limit(list, limit).len() <= limit,
        limit < 0 ==> within_limit(list, limit).len() == 0,
        within_limit(list, capped(limit)) == within_limit(list, limit),
{
}

/// A task is addressed by the identifier it is shown with: a path that holds
/// it names that very task.
pub proof fn shown_task_is_addressable(response: TaskResponse, task: Task)
    requires
        response.shows(task),
    ensures
        task_id_of(response.id@) == Ok::<_, Refusal>(task.id),
{
}

/// The times that a task is shown with, sent back in a request, are the times of
/// the task.
pub proof fn shown_times_read_back(response: TaskResponse, task: Task)
    requires
        response.shows(task),
        is_well_formed(task),
    ensures
        moment_read(response.due_by) == moment_of(task.due_by),
        moment_read(response.earliest_at) == moment_of(task.earliest_at),
        !is_malformed_time(response.due_by),
        !is_malformed_time(response.earliest_at),
{
}

} // verus!
