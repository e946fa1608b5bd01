//! Tasks: what a request makes of them, and how they are shown.

use vstd::prelude::*;

use crate::api::fields::{Field, MemberField, TimeField};
use crate::api::task::{
    apply_patch, build_reassignment, build_task, change_assignee, complete_task,
    completion_log_to_response, completion_target, create_task, created_task,
    default_upcoming_limit, found_task, gathered, get_task, get_task_history, instances_at,
    instances_with, is_patched, layout_window, list_filter, list_tasks_handler, list_upcoming, listed_tasks,
    listed_upcoming, log_date_text, log_instance, logged_completion, materialise_instances, member_to_text,
    parse_task_id, patch_task, patched_task, read_time_change, reassign_task, skip_task,
    store_instances, tags_given, task_to_response, updated_task, upcoming_instances_query,
    ChangeAssigneeRequest, CompleteTaskRequest, CompletionLogResponse, CreateTaskRequest,
    InstanceQuery, InstanceReplacement, LevelComplaints, ListTasksQuery, Occurrence, Reassignment,
    TaskComplaints, TaskPatch, TaskResponse, TimeChange, UpcomingInstanceResponse, UpcomingQuery,
    UpdateTaskRequest,
};
use crate::dates::{
    calendar_date_is_found, is_calendar_date, julian_day_of, parsed_date, parsed_rfc3339, Date,
    Timestamp,
};
use crate::horizon::Window;
use crate::ids::{hyphenated, is_version_7, parsed_uuid, MemberId, TaskId};
use crate::laws::terms::{
    agree, is_400, is_404, is_422, is_bare_500, is_no_level_or_one, is_no_time_or_one, is_time_read,
    may_tell_time, says_something, tells_day, tells_id, tells_time,
};
use crate::model::task::{
    CompletionLog, EffortLevel, Priority, RecurrenceRule, Task, TaskFilter, TaskInstance, TaskStatus,
};
use crate::reply::{Rejection, Reply, StatusCode, StorageFailure};
use crate::text::{
    all_digits, blank, digits, digits_read_back, lowercase, normalised_tags, number, numbers_within, texts, trimmed,
};

verus! {

// ─── States and levels ────────────────────────────────────────────────────────

/// A text is read as the state it names, and as none if it names none.
pub proof fn states_are_read_by_their_names(text: &str, r: Option<TaskStatus>)
    requires
        call_ensures(TaskStatus::parse, (text,), r),
    ensures
        r == Some(TaskStatus::Open) <==> text@ == "open"@,
        r == Some(TaskStatus::Doing) <==> text@ == "doing"@,
        r == Some(TaskStatus::Done) <==> text@ == "done"@,
        r == Some(TaskStatus::Skipped) <==> text@ == "skipped"@,
{
    reveal_strlit("open");
    reveal_strlit("doing");
    reveal_strlit("done");
    reveal_strlit("skipped");
    assert("open"@[0] != "done"@[0]);
    assert("open"@.len() == 4 && "doing"@.len() == 5 && "done"@.len() == 4 && "skipped"@.len()
        == 7);
}

/// Every state is written as its name.
pub proof fn states_are_written_as_their_names(status: TaskStatus, r: &'static str)
    requires
        call_ensures(TaskStatus::as_str, (status,), r),
    ensures
        status is Open ==> r@ == "open"@,
        status is Doing ==> r@ == "doing"@,
        status is Done ==> r@ == "done"@,
        status is Skipped ==> r@ == "skipped"@,
{
}

/// The name of a state.
pub open spec fn is_name_of(text: Seq<char>, status: TaskStatus) -> bool {
    &&& status is Open ==> text == "open"@
    &&& status is Doing ==> text == "doing"@
    &&& status is Done ==> text == "done"@
    &&& status is Skipped ==> text == "skipped"@
}

/// Whether a text names a state.
pub open spec fn is_a_name(text: Seq<char>) -> bool {
    text == "open"@ || text == "doing"@ || text == "done"@ || text == "skipped"@
}

/// Whether a text that may be absent is absent or names a state.
pub open spec fn is_no_name_or_one(text: Option<String>) -> bool {
    text is Some ==> is_a_name((text->0)@)
}

/// A number makes an effort or a priority exactly if it is from 1 to 5, and the
/// number is kept and given back.
pub proof fn levels_go_from_one_to_five(
    value: u8,
    effort: Option<EffortLevel>,
    priority: Option<Priority>,
    some_effort: EffortLevel,
    effort_number: u8,
    some_priority: Priority,
    priority_number: u8,
)
    requires
        call_ensures(EffortLevel::new, (value,), effort),
        call_ensures(Priority::new, (value,), priority),
        call_ensures(EffortLevel::value, (some_effort,), effort_number),
        call_ensures(Priority::value, (some_priority,), priority_number),
    ensures
        effort_number == some_effort@ && 1 <= effort_number <= 5,
        priority_number == some_priority@ && 1 <= priority_number <= 5,
        effort is Some <==> 1 <= value <= 5,
        effort is Some ==> (effort->0)@ == value,
        priority is Some <==> 1 <= value <= 5,
        priority is Some ==> (priority->0)@ == value,
{
}

/// Whether a number is that of an effort, both of which may be absent.
pub open spec fn is_effort(value: Option<u8>, effort: Option<EffortLevel>) -> bool {
    &&& value is Some <==> effort is Some
    &&& value is Some ==> value->0 == (effort->0)@
}

/// Whether a number is that of a priority, both of which may be absent.
pub open spec fn is_priority(value: Option<u8>, priority: Option<Priority>) -> bool {
    &&& value is Some <==> priority is Some
    &&& value is Some ==> value->0 == (priority->0)@
}

// ─── How tasks are shown ──────────────────────────────────────────────────────

/// Whether the texts tell the identifiers of the members one by one.
pub open spec fn tell_members(shown: Seq<String>, members: Seq<MemberId>) -> bool {
    &&& shown.len() == members.len()
    &&& forall|k: int| 0 <= k < members.len() ==> (#[trigger] shown[k])@ == hyphenated(members[k].0)
}

/// Whether a text tells the identifier of a member, both of which may be absent.
pub open spec fn may_tell_member(text: Option<String>, member: Option<MemberId>) -> bool {
    &&& text is Some <==> member is Some
    &&& text is Some ==> (text->0)@ == hyphenated((member->0).0)
}

/// Whether the texts are the same one by one.
pub open spec fn same_texts(one: Seq<String>, other: Seq<String>) -> bool {
    &&& one.len() == other.len()
    &&& forall|k: int| 0 <= k < one.len() ==> (#[trigger] one[k])@ == other[k]@
}

/// Whether a response tells a task, field by field.
pub open spec fn tells_task(shown: TaskResponse, task: Task) -> bool {
    &&& tells_id(shown.id@, task.id.0)
    &&& shown.title@ == task.title@
    &&& agree(shown.notes, task.notes)
    &&& is_name_of(shown.status@, task.status)
    &&& may_tell_time(shown.due_by, task.due_by)
    &&& may_tell_time(shown.earliest_at, task.earliest_at)
    &&& is_effort(shown.effort, task.effort)
    &&& is_priority(shown.priority, task.priority)
    &&& same_texts(shown.tags@, task.tags@)
    &&& tells_id(shown.owner_id@, task.owner_id.0)
    &&& tell_members(shown.assignee_ids@, task.assignee_ids@)
    &&& tell_members(shown.eligible_member_ids@, task.eligible_member_ids@)
    &&& may_tell_member(shown.current_assignee_id, task.current_assignee_id)
    &&& shown.recurrence_rrule is Some <==> task.recurrence is Some
    &&& shown.recurrence_timezone is Some <==> task.recurrence is Some
    &&& task.recurrence is Some ==> (shown.recurrence_rrule->0)@ == task.recurrence->0.rrule@
    &&& task.recurrence is Some ==> (shown.recurrence_timezone->0)@ == task.recurrence->0.timezone@
    &&& tells_time(shown.created_at@, task.created_at)
    &&& tells_time(shown.updated_at@, task.updated_at)
}

proof fn texts_are_told_apart(one: Seq<String>, other: Seq<String>)
    requires
        texts(one) == texts(other),
    ensures
        same_texts(one, other),
{
    assert(texts(one).len() == one.len());
    assert(texts(other).len() == other.len());
    assert forall|k: int| 0 <= k < one.len() implies (#[trigger] one[k])@ == other[k]@ by {
        assert(texts(one)[k] == one[k]@);
        assert(texts(other)[k] == other[k]@);
    }
}

proof fn members_are_told(shown: Seq<String>, members: Seq<MemberId>)
    requires
        texts(shown) == crate::api::task::member_texts(members),
    ensures
        tell_members(shown, members),
{
    assert(texts(shown).len() == shown.len());
    assert forall|k: int| 0 <= k < members.len() implies (#[trigger] shown[k])@ == hyphenated(
        members[k].0,
    ) by {
        assert(texts(shown)[k] == shown[k]@);
    }
}

proof fn shown_task_is_told(shown: TaskResponse, task: Task)
    requires
        shown.shows(task),
    ensures
        tells_task(shown, task),
{
    texts_are_told_apart(shown.tags@, task.tags@);
    members_are_told(shown.assignee_ids@, task.assignee_ids@);
    members_are_told(shown.eligible_member_ids@, task.eligible_member_ids@);
}

/// A response tells every field of its task.
pub proof fn response_tells_the_task(task: Task, shown: TaskResponse)
    requires
        call_ensures(task_to_response, (&task,), shown),
    ensures
        tells_task(shown, task),
{
    shown_task_is_told(shown, task);
}

/// The text of a member tells the member.
pub proof fn member_text_tells_the_member(member: Option<MemberId>, r: Option<String>)
    requires
        call_ensures(member_to_text, (member,), r),
    ensures
        may_tell_member(r, member),
{
}

/// Whether a text tells a calendar date, part by part: the year with at least
/// four characters, its sign among them, then two digits each for the month and
/// the day.
pub open spec fn tells_parts(text: Seq<char>, year: int, month: int, day: int) -> bool {
    let n = text.len() as int;
    let sign = if year < 0 {
        1int
    } else {
        0int
    };
    let magnitude = if year < 0 {
        -year
    } else {
        year
    };
    &&& n == (if year <= -1000 {
        11int
    } else {
        10int
    })
    &&& year < 0 ==> text[0] == '-'
    &&& text[n - 6] == '-'
    &&& text[n - 3] == '-'
    &&& all_digits(text.subrange(sign, n - 6))
    &&& number(text.subrange(sign, n - 6)) == magnitude
    &&& all_digits(text.subrange(n - 5, n - 3))
    &&& number(text.subrange(n - 5, n - 3)) == month
    &&& all_digits(text.subrange(n - 2, n))
    &&& number(text.subrange(n - 2, n)) == day
}

proof fn parts_are_told(year: int, month: int, day: int)
    requires
        is_calendar_date(year, month, day),
    ensures
        tells_parts(log_date_text(year, month, day), year, month, day),
{
    reveal_with_fuel(numbers_within, 5);
    reveal_strlit("-");
    let text = log_date_text(year, month, day);
    let n = text.len() as int;
    let width: nat = if -1000 < year < 0 {
        3
    } else {
        4
    };
    let magnitude = if year < 0 {
        -year
    } else {
        year
    };
    let sign = if year < 0 {
        1int
    } else {
        0int
    };
    digits_read_back(magnitude as nat, width);
    digits_read_back(month as nat, 2);
    digits_read_back(day as nat, 2);
    assert(text.subrange(sign, n - 6) =~= digits(magnitude as nat, width));
    assert(text.subrange(n - 5, n - 3) =~= digits(month as nat, 2));
    assert(text.subrange(n - 2, n) =~= digits(day as nat, 2));
}

/// Whether a response tells an entry of the log of the given date, field by field.
pub open spec fn tells_log(shown: CompletionLogResponse, log: CompletionLog) -> bool {
    &&& tells_id(shown.id@, log.id.0)
    &&& tells_id(shown.task_id@, log.task_id.0)
    &&& forall|year: int, month: int, day: int| #[trigger]
        is_calendar_date(year, month, day) && julian_day_of(year, month, day)
            == log.instance_date@ ==> {
            &&& tells_parts(shown.instance_date@, year, month, day)
            &&& year >= 0 ==> tells_day(shown.instance_date@, log.instance_date@)
        }
    &&& tells_id(shown.completed_by@, log.completed_by.0)
    &&& tells_time(shown.completed_at@, log.completed_at)
    &&& shown.skipped == log.skipped
    &&& agree(shown.notes, log.notes)
}

proof fn shown_log_is_told(shown: CompletionLogResponse, log: CompletionLog)
    requires
        shown.shows(log),
    ensures
        tells_log(shown, log),
{
    assert forall|year: int, month: int, day: int| #[trigger]
        is_calendar_date(year, month, day) && julian_day_of(year, month, day)
            == log.instance_date@ implies {
        &&& tells_parts(shown.instance_date@, year, month, day)
        &&& year >= 0 ==> tells_day(shown.instance_date@, log.instance_date@)
    } by {
        calendar_date_is_found(year, month, day);
        parts_are_told(year, month, day);
    }
}

/// A response tells every field of its log entry.
pub proof fn response_tells_the_log_entry(log: CompletionLog, shown: CompletionLogResponse)
    requires
        call_ensures(completion_log_to_response, (&log,), shown),
    ensures
        tells_log(shown, log),
{
    shown_log_is_told(shown, log);
}

// ─── Creation ─────────────────────────────────────────────────────────────────

/// Whether the two recurrence fields can be taken: both are there and the rule
/// is one that is supported, or neither is.
pub open spec fn rule_can_be_taken(
    rrule: Option<String>,
    timezone: Option<String>,
    verdict: Result<(), String>,
) -> bool {
    &&& rrule is Some <==> timezone is Some
    &&& rrule is Some ==> verdict is Ok
}

/// Whether a rejection says what is wrong with the two recurrence fields.
pub open spec fn refuses_rule(
    rejection: Rejection,
    rrule: Option<String>,
    timezone: Option<String>,
    verdict: Result<(), String>,
) -> bool {
    if rrule is Some && timezone is Some {
        is_422(rejection, "recurrence: "@ + (verdict->Err_0)@)
    } else {
        is_422(
            rejection,
            "recurrence_rrule and recurrence_timezone must both be provided or both absent"@,
        )
    }
}

/// Whether a rule is the one that the two recurrence fields give, and there is
/// none if they give none.
pub open spec fn is_rule_of(
    rule: Option<RecurrenceRule>,
    rrule: Option<String>,
    timezone: Option<String>,
) -> bool {
    &&& rule is Some <==> rrule is Some && timezone is Some
    &&& rule is Some ==> rule->0.rrule@ == (rrule->0)@ && rule->0.timezone@ == (timezone->0)@
}

/// Whether the tags are those that were given, each trimmed and in lower case.
pub open spec fn are_tags_given(tags: Seq<String>, given: Seq<String>) -> bool {
    &&& tags.len() == given.len()
    &&& forall|k: int|
        0 <= k < tags.len() ==> (#[trigger] tags[k])@ == lowercase(trimmed(given[k]@))
}

proof fn tags_given_are_taken(task: Task, req: CreateTaskRequest)
    requires
        texts(task.tags@) == tags_given(req.tags).map_values(
            |tag: Seq<char>| crate::text::normalised_tag(tag),
        ),
    ensures
        req.tags is None ==> task.tags@.len() == 0,
        req.tags is Some ==> are_tags_given(task.tags@, (req.tags->0)@),
{
    assert(texts(task.tags@).len() == task.tags@.len());
    if let Some(given) = req.tags {
        assert forall|k: int| 0 <= k < task.tags@.len() implies (#[trigger] task.tags@[k])@
            == lowercase(trimmed(given@[k]@)) by {
            assert(texts(task.tags@)[k] == task.tags@[k]@);
            assert(texts(given@)[k] == given@[k]@);
        }
    }
}

/// Whether all that a request for a new task gives can be taken.
pub open spec fn can_be_made(req: CreateTaskRequest, verdict: Result<(), String>) -> bool {
    &&& says_something(req.title@)
    &&& rule_can_be_taken(req.recurrence_rrule, req.recurrence_timezone, verdict)
    &&& is_no_time_or_one(req.due_by)
    &&& is_no_time_or_one(req.earliest_at)
    &&& is_no_level_or_one(req.effort)
    &&& is_no_level_or_one(req.priority)
}

/// A task is made exactly if all that the request gives can be taken; it is then
/// what the request says, open, and nobody's.
pub proof fn new_task_is_what_was_asked_for(
    req: CreateTaskRequest,
    verdict: Result<(), String>,
    complaints: TaskComplaints,
    now: Timestamp,
    r: Result<Task, Rejection>,
)
    requires
        call_ensures(create_task, (req, verdict, complaints, now), r),
    ensures
        r is Ok <==> can_be_made(req, verdict),
        r matches Ok(task) ==> {
            &&& is_version_7(task.id.0)
            &&& task.title@ == req.title@
            &&& agree(task.notes, req.notes)
            &&& task.status is Open
            &&& is_time_read(task.due_by, req.due_by)
            &&& is_time_read(task.earliest_at, req.earliest_at)
            &&& is_effort(req.effort, task.effort)
            &&& is_priority(req.priority, task.priority)
            &&& req.tags is None ==> task.tags@.len() == 0
            &&& req.tags is Some ==> are_tags_given(task.tags@, (req.tags->0)@)
            &&& task.owner_id.0 == 0x7000_8000_0000_0000_0001u128
            &&& task.assignee_ids@.len() == 0
            &&& task.eligible_member_ids@.len() == 0
            &&& task.current_assignee_id is None
            &&& is_rule_of(task.recurrence, req.recurrence_rrule, req.recurrence_timezone)
            &&& task.created_at == now
            &&& task.updated_at == now
        },
{
    if let Ok(task) = r {
        tags_given_are_taken(task, req);
    }
    if says_something(req.title@) {
        assert(!blank(req.title@));
    }
}

/// A refused request for a new task is answered with what is wrong first: the
/// recurrence rule, the two times, the effort, the priority, the title.
pub proof fn refused_task_is_told_why(
    req: CreateTaskRequest,
    verdict: Result<(), String>,
    complaints: TaskComplaints,
    now: Timestamp,
    rejection: Rejection,
)
    requires
        call_ensures(
            create_task,
            (req, verdict, complaints, now),
            Err::<Task, Rejection>(rejection),
        ),
    ensures
        ({
            let rule = rule_can_be_taken(req.recurrence_rrule, req.recurrence_timezone, verdict);
            let due_by = is_no_time_or_one(req.due_by);
            let earliest_at = is_no_time_or_one(req.earliest_at);
            let effort = is_no_level_or_one(req.effort);
            let priority = is_no_level_or_one(req.priority);
            &&& !rule ==> refuses_rule(
                rejection,
                req.recurrence_rrule,
                req.recurrence_timezone,
                verdict,
            )
            &&& rule && !due_by ==> is_422(rejection, "due_by: invalid RFC 3339 datetime"@)
            &&& rule && due_by && !earliest_at ==> is_422(
                rejection,
                "earliest_at: invalid RFC 3339 datetime"@,
            )
            &&& rule && due_by && earliest_at && !effort ==> is_422(
                rejection,
                "effort: "@ + complaints.levels.effort@,
            )
            &&& rule && due_by && earliest_at && effort && !priority ==> is_422(
                rejection,
                "priority: "@ + complaints.levels.priority@,
            )
            &&& rule && due_by && earliest_at && effort && priority ==> is_422(
                rejection,
                complaints.title@,
            )
        }),
{
}

/// A task that is made from times that are already read has these times, and a
/// time that could not be read is refused.
pub proof fn times_already_read_are_taken(
    req: CreateTaskRequest,
    due_by: TimeField,
    earliest_at: TimeField,
    verdict: Result<(), String>,
    complaints: TaskComplaints,
    now: Timestamp,
    r: Result<Task, Rejection>,
)
    requires
        call_ensures(build_task, (req, due_by, earliest_at, verdict, complaints, now), r),
    ensures
        r is Ok <==> {
            &&& says_something(req.title@)
            &&& rule_can_be_taken(req.recurrence_rrule, req.recurrence_timezone, verdict)
            &&& due_by !is Malformed
            &&& earliest_at !is Malformed
            &&& is_no_level_or_one(req.effort)
            &&& is_no_level_or_one(req.priority)
        },
        r matches Ok(task) ==> {
            &&& task.title@ == req.title@
            &&& agree(task.notes, req.notes)
            &&& task.status is Open
            &&& due_by is Absent ==> task.due_by is None
            &&& due_by matches TimeField::At(at) ==> task.due_by is Some && (task.due_by->0)@ == at@
            &&& earliest_at is Absent ==> task.earliest_at is None
            &&& earliest_at matches TimeField::At(at) ==> task.earliest_at is Some && (
            task.earliest_at->0)@ == at@
            &&& is_effort(req.effort, task.effort)
            &&& is_priority(req.priority, task.priority)
            &&& req.tags is None ==> task.tags@.len() == 0
            &&& req.tags is Some ==> are_tags_given(task.tags@, (req.tags->0)@)
            &&& is_rule_of(task.recurrence, req.recurrence_rrule, req.recurrence_timezone)
            &&& task.created_at == now
            &&& task.updated_at == now
        },
{
    if let Ok(task) = r {
        tags_given_are_taken(task, req);
    }
    if says_something(req.title@) {
        assert(!blank(req.title@));
    }
}

/// A task that was kept is answered with 201 and told; one that was not, with a
/// bare 500.
pub proof fn kept_task_is_told(
    task: Task,
    kept: Result<(), StorageFailure>,
    r: Result<Reply<TaskResponse>, Rejection>,
)
    requires
        call_ensures(created_task, (&task, kept), r),
    ensures
        r is Ok <==> kept is Ok,
        r matches Ok(reply) ==> reply.status == StatusCode::Created && tells_task(reply.body, task),
        r matches Err(rejection) ==> is_bare_500(rejection),
{
    if let Ok(reply) = r {
        shown_task_is_told(reply.body, task);
    }
}

// ─── Instances ────────────────────────────────────────────────────────────────

/// Each time gets one instance of the task: at that time, with the default
/// assignee of the task, under an identifier of its own.
pub proof fn each_time_gets_an_instance(
    task: Task,
    times: Vec<Timestamp>,
    instances: Vec<TaskInstance>,
)
    requires
        call_ensures(instances_at, (&task, &times), instances),
    ensures
        instances@.len() == times@.len(),
        forall|k: int|
            0 <= k < times@.len() ==> {
                &&& (#[trigger] instances@[k]).task_id == task.id
                &&& instances@[k].scheduled_at == times@[k]
                &&& instances@[k].current_assignee_id == task.current_assignee_id
                &&& exists|uuid: u128|
                    is_version_7(uuid) && instances@[k].id@ == #[trigger] hyphenated(uuid)
            },
{
    assert forall|k: int| 0 <= k < times@.len() implies {
        &&& (#[trigger] instances@[k]).task_id == task.id
        &&& instances@[k].scheduled_at == times@[k]
        &&& instances@[k].current_assignee_id == task.current_assignee_id
        &&& exists|uuid: u128|
            is_version_7(uuid) && instances@[k].id@ == #[trigger] hyphenated(uuid)
    } by {
        assert(crate::api::task::is_instance_at(instances@[k], task, times@[k]));
    }
}

/// Instances under given identifiers have these identifiers.
pub proof fn instances_take_their_identifiers(
    task: Task,
    times: Vec<Timestamp>,
    ids: Vec<u128>,
    instances: Vec<TaskInstance>,
)
    requires
        ids@.len() == times@.len(),
        call_ensures(instances_with, (&task, &times, &ids), instances),
    ensures
        instances@.len() == times@.len(),
        forall|k: int|
            0 <= k < times@.len() ==> {
                &&& (#[trigger] instances@[k]).id@ == hyphenated(ids@[k])
                &&& instances@[k].task_id == task.id
                &&& instances@[k].scheduled_at == times@[k]
                &&& instances@[k].current_assignee_id == task.current_assignee_id
            },
{
}

/// A one-shot task is laid out nowhere; one that recurs, for sixty days from when
/// it was made, at the same clock time and offset.
pub proof fn recurring_task_is_laid_out_for_sixty_days(task: Task, window: Option<Window>)
    requires
        call_ensures(layout_window, (&task,), window),
    ensures
        window is Some <==> task.recurrence is Some,
        window is Some ==> {
            &&& window->0.from == task.created_at
            &&& window->0.until@.julian_day == task.created_at@.julian_day + 60
            &&& window->0.until@.nanos_of_day == task.created_at@.nanos_of_day
            &&& window->0.until@.offset_seconds == task.created_at@.offset_seconds
        },
{
}

/// What a rule was expanded to is made into instances, one for each time; what it
/// failed with is repeated.
pub proof fn expansion_is_made_into_instances(
    task: Task,
    times: Result<Vec<Timestamp>, String>,
    r: Result<Vec<TaskInstance>, String>,
)
    requires
        call_ensures(materialise_instances, (&task, times), r),
    ensures
        r is Ok <==> times is Ok,
        r matches Ok(instances) ==> {
            &&& instances@.len() == (times->Ok_0)@.len()
            &&& forall|k: int|
                0 <= k < instances@.len() ==> {
                    &&& (#[trigger] instances@[k]).task_id == task.id
                    &&& instances@[k].scheduled_at == (times->Ok_0)@[k]
                    &&& instances@[k].current_assignee_id == task.current_assignee_id
                }
        },
        r matches Err(message) ==> message@ == "materialise_instances: "@ + (times->Err_0)@,
{
    if let Ok(instances) = r {
        assert forall|k: int| 0 <= k < instances@.len() implies {
            &&& (#[trigger] instances@[k]).task_id == task.id
            &&& instances@[k].scheduled_at == (times->Ok_0)@[k]
            &&& instances@[k].current_assignee_id == task.current_assignee_id
        } by {
            assert(crate::api::task::is_instance_at(instances@[k], task, (times->Ok_0)@[k]));
        }
    }
}

/// What storage said when instances could not be kept is repeated.
pub proof fn unkept_instances_are_reported(
    kept: Result<(), StorageFailure>,
    r: Result<(), String>,
)
    requires
        call_ensures(store_instances, (kept,), r),
    ensures
        r is Ok <==> kept is Ok,
        r is Err ==> (r->Err_0)@ == "upsert_task_instances: "@ + (kept->Err_0).message@,
{
}

// ─── Patches ──────────────────────────────────────────────────────────────────

/// Whether a field of a patch takes away what is there: it is `null`, or an empty
/// text.
pub open spec fn takes_away(field: Field<String>) -> bool {
    field is Null || (field is Given && (field->Given_0)@.len() == 0)
}

/// Whether a field of a patch gives a text.
pub open spec fn gives_text(field: Field<String>) -> bool {
    field is Given && (field->Given_0)@.len() > 0
}

/// Whether a field of a patch is no text or a time.
pub open spec fn gives_no_text_or_time(field: Field<String>) -> bool {
    gives_text(field) ==> parsed_rfc3339((field->Given_0)@) is Some
}

/// Whether a time is what a field of a patch leaves of another.
pub open spec fn is_time_left(
    new: Option<Timestamp>,
    old: Option<Timestamp>,
    field: Field<String>,
) -> bool {
    &&& field is Absent ==> new == old
    &&& takes_away(field) ==> new is None
    &&& gives_text(field) ==> new is Some && parsed_rfc3339((field->Given_0)@) == Some((new->0)@)
}

/// Whether all that a patch gives can be taken.
pub open spec fn can_be_patched(req: UpdateTaskRequest, verdict: Result<(), String>) -> bool {
    &&& req.title is Some ==> says_something((req.title->0)@)
    &&& is_no_name_or_one(req.status)
    &&& gives_no_text_or_time(req.due_by)
    &&& gives_no_text_or_time(req.earliest_at)
    &&& is_no_level_or_one(req.effort)
    &&& is_no_level_or_one(req.priority)
    &&& rule_can_be_taken(req.recurrence_rrule, req.recurrence_timezone, verdict)
}

/// Whether the tags are those that were given, each trimmed and in lower case,
/// without those of which nothing is left.
pub open spec fn are_tags_left(tags: Seq<String>, given: Seq<String>) -> bool {
    texts(tags) == texts(given).map_values(|tag: Seq<char>| lowercase(trimmed(tag))).filter(
        |tag: Seq<char>| tag.len() > 0,
    )
}

/// Normalising tags takes each of them by itself, in order, and leaves out those
/// of which nothing is left.
pub proof fn each_tag_is_normalised_by_itself(given: Seq<Seq<char>>)
    ensures
        normalised_tags(given) == given.map_values(
            |tag: Seq<char>| lowercase(trimmed(tag)),
        ).filter(|tag: Seq<char>| tag.len() > 0),
    decreases given.len(),
{
    reveal(Seq::filter);
    let each = given.map_values(|tag: Seq<char>| lowercase(trimmed(tag)));
    if given.len() > 0 {
        each_tag_is_normalised_by_itself(given.drop_last());
        assert(each.drop_last() =~= given.drop_last().map_values(
            |tag: Seq<char>| lowercase(trimmed(tag)),
        ));
        assert(each.last() == lowercase(trimmed(given.last())));
    } else {
        assert(each =~= Seq::empty());
    }
}

/// Whether a task is what a patch leaves of another: what the patch gives it
/// has, what the patch takes away it lacks, and all else is as it was.
pub open spec fn is_left(new: Task, old: Task, req: UpdateTaskRequest, now: Timestamp) -> bool {
    &&& new.id == old.id
    &&& new.title@ == (if req.title is Some {
        (req.title->0)@
    } else {
        old.title@
    })
    &&& req.notes is Absent ==> agree(new.notes, old.notes)
    &&& takes_away(req.notes) ==> new.notes is None
    &&& gives_text(req.notes) ==> new.notes is Some && (new.notes->0)@ == (req.notes->Given_0)@
    &&& req.status is None ==> new.status == old.status
    &&& req.status is Some ==> is_name_of((req.status->0)@, new.status)
    &&& req.effort is None ==> new.effort == old.effort
    &&& req.effort is Some ==> is_effort(req.effort, new.effort)
    &&& req.priority is None ==> new.priority == old.priority
    &&& req.priority is Some ==> is_priority(req.priority, new.priority)
    &&& req.tags is Absent ==> same_texts(new.tags@, old.tags@)
    &&& req.tags is Null ==> new.tags@.len() == 0
    &&& req.tags is Given ==> are_tags_left(new.tags@, (req.tags->Given_0)@)
    &&& new.owner_id == old.owner_id
    &&& new.assignee_ids@ == old.assignee_ids@
    &&& new.eligible_member_ids@ == old.eligible_member_ids@
    &&& new.current_assignee_id == old.current_assignee_id
    &&& req.recurrence_rrule is None ==> new.recurrence == old.recurrence
    &&& req.recurrence_rrule is Some ==> is_rule_of(
        new.recurrence,
        req.recurrence_rrule,
        req.recurrence_timezone,
    )
    &&& new.created_at == old.created_at
    &&& new.updated_at == now
}

/// Whether a patch gives a recurrence rule where there was none, or one with
/// another text.
pub open spec fn gives_another_rule(old: Task, req: UpdateTaskRequest) -> bool {
    &&& req.recurrence_rrule is Some
    &&& req.recurrence_timezone is Some
    &&& {
        ||| old.recurrence is None
        ||| old.recurrence->0.rrule@ != (req.recurrence_rrule->0)@
        ||| old.recurrence->0.timezone@ != (req.recurrence_timezone->0)@
    }
}

proof fn patched_task_is_left(
    new: Task,
    old: Task,
    req: UpdateTaskRequest,
    verdict: Result<(), String>,
    now: Timestamp,
)
    requires
        is_patched(new, old, req, now),
        rule_can_be_taken(req.recurrence_rrule, req.recurrence_timezone, verdict),
    ensures
        is_left(new, old, req, now),
{
    if let Field::Given(tags) = req.tags {
        each_tag_is_normalised_by_itself(texts(tags@));
    }
}

/// A patch is taken exactly if all that it gives can be; the task is then what
/// the patch leaves of it.
pub proof fn patch_changes_what_it_names(
    old: Task,
    req: UpdateTaskRequest,
    verdict: Result<(), String>,
    complaints: LevelComplaints,
    now: Timestamp,
    r: Result<TaskPatch, Rejection>,
)
    requires
        call_ensures(patch_task, (old, req, verdict, complaints, now), r),
    ensures
        r is Ok <==> can_be_patched(req, verdict),
        r matches Ok(patch) ==> {
            &&& is_left(patch.task, old, req, now)
            &&& is_time_left(patch.task.due_by, old.due_by, req.due_by)
            &&& is_time_left(patch.task.earliest_at, old.earliest_at, req.earliest_at)
            &&& patch.recurrence_changed <==> gives_another_rule(old, req)
        },
{
    if req.title is Some && says_something((req.title->0)@) {
        assert(!blank((req.title->0)@));
    }
    if let Ok(patch) = r {
        patched_task_is_left(patch.task, old, req, verdict, now);
    }
}

/// A refused patch is answered with what is wrong first: the title, the status,
/// the two times, the effort, the priority, the recurrence rule.
pub proof fn refused_patch_is_told_why(
    old: Task,
    req: UpdateTaskRequest,
    verdict: Result<(), String>,
    complaints: LevelComplaints,
    now: Timestamp,
    rejection: Rejection,
)
    requires
        call_ensures(
            patch_task,
            (old, req, verdict, complaints, now),
            Err::<TaskPatch, Rejection>(rejection),
        ),
    ensures
        ({
            let title = req.title is Some ==> says_something((req.title->0)@);
            let status = is_no_name_or_one(req.status);
            let due_by = gives_no_text_or_time(req.due_by);
            let earliest_at = gives_no_text_or_time(req.earliest_at);
            let effort = is_no_level_or_one(req.effort);
            let priority = is_no_level_or_one(req.priority);
            &&& !title ==> is_422(rejection, "title must not be empty"@)
            &&& title && !status ==> is_422(rejection, "unknown status: "@ + (req.status->0)@)
            &&& title && status && !due_by ==> is_422(
                rejection,
                "due_by: invalid RFC 3339 datetime"@,
            )
            &&& title && status && due_by && !earliest_at ==> is_422(
                rejection,
                "earliest_at: invalid RFC 3339 datetime"@,
            )
            &&& title && status && due_by && earliest_at && !effort ==> is_422(
                rejection,
                "effort: "@ + complaints.effort@,
            )
            &&& title && status && due_by && earliest_at && effort && !priority ==> is_422(
                rejection,
                "priority: "@ + complaints.priority@,
            )
            &&& title && status && due_by && earliest_at && effort && priority ==> refuses_rule(
                rejection,
                req.recurrence_rrule,
                req.recurrence_timezone,
                verdict,
            )
        }),
{
    if req.title is Some && says_something((req.title->0)@) {
        assert(!blank((req.title->0)@));
    }
}

/// Whenever a patch that is taken gives a rule where there was none, or one with
/// another text or timezone, the patch is marked and its answer has the instances
/// of the task replaced from the time of the change on; otherwise none is.
pub proof fn another_rule_replaces_the_instances(
    old: Task,
    req: UpdateTaskRequest,
    verdict: Result<(), String>,
    complaints: LevelComplaints,
    now: Timestamp,
    patch: TaskPatch,
    kept: Result<(), StorageFailure>,
    reply: Reply<TaskResponse>,
    replacement: Option<InstanceReplacement>,
)
    requires
        call_ensures(
            patch_task,
            (old, req, verdict, complaints, now),
            Ok::<TaskPatch, Rejection>(patch),
        ),
        call_ensures(
            patched_task,
            (&patch, kept),
            Ok::<_, Rejection>((reply, replacement)),
        ),
    ensures
        gives_another_rule(old, req) ==> patch.recurrence_changed && replacement == Some(
            InstanceReplacement { task_id: old.id, cutoff: now },
        ),
        !gives_another_rule(old, req) ==> !patch.recurrence_changed && replacement is None,
{
}

/// The same of a patch whose times are already read.
pub proof fn another_rule_marks_the_patch(
    old: Task,
    req: UpdateTaskRequest,
    due_by: TimeChange,
    earliest_at: TimeChange,
    verdict: Result<(), String>,
    complaints: LevelComplaints,
    now: Timestamp,
    r: Result<TaskPatch, Rejection>,
)
    requires
        call_ensures(
            apply_patch,
            (old, req, due_by, earliest_at, verdict, complaints, now),
            r,
        ),
    ensures
        r is Ok <==> {
            &&& req.title is Some ==> says_something((req.title->0)@)
            &&& is_no_name_or_one(req.status)
            &&& due_by !is Malformed
            &&& earliest_at !is Malformed
            &&& is_no_level_or_one(req.effort)
            &&& is_no_level_or_one(req.priority)
            &&& rule_can_be_taken(req.recurrence_rrule, req.recurrence_timezone, verdict)
        },
        r matches Ok(patch) ==> {
            &&& is_left(patch.task, old, req, now)
            &&& due_by is Keep ==> patch.task.due_by == old.due_by
            &&& due_by is Clear ==> patch.task.due_by is None
            &&& due_by matches TimeChange::Replace(at) ==> patch.task.due_by == Some(at)
            &&& earliest_at is Keep ==> patch.task.earliest_at == old.earliest_at
            &&& earliest_at is Clear ==> patch.task.earliest_at is None
            &&& earliest_at matches TimeChange::Replace(at) ==> patch.task.earliest_at == Some(at)
            &&& patch.recurrence_changed <==> gives_another_rule(old, req)
        },
{
    if req.title is Some && says_something((req.title->0)@) {
        assert(!blank((req.title->0)@));
    }
    if let Ok(patch) = r {
        patched_task_is_left(patch.task, old, req, verdict, now);
    }
}

/// A field of a patch is read as what it does to a time, and does just that.
pub proof fn time_field_does_what_it_says(
    field: Field<String>,
    change: TimeChange,
    old: Option<Timestamp>,
    new: Option<Timestamp>,
)
    requires
        call_ensures(read_time_change, (&field,), change),
        call_ensures(TimeChange::apply, (change, old), new),
    ensures
        change is Malformed <==> !gives_no_text_or_time(field),
        change !is Malformed ==> is_time_left(new, old, field),
        change is Malformed ==> new == old,
{
}

/// A patch that was kept is answered with 200 and its task is told; one that was
/// not, with a bare 500.
pub proof fn kept_patch_is_told(
    patch: TaskPatch,
    kept: Result<(), StorageFailure>,
    r: Result<(Reply<TaskResponse>, Option<InstanceReplacement>), Rejection>,
)
    requires
        call_ensures(patched_task, (&patch, kept), r),
    ensures
        r is Ok <==> kept is Ok,
        r is Ok ==> (r->Ok_0).0.status == StatusCode::Success && tells_task(
            (r->Ok_0).0.body,
            patch.task,
        ),
        r matches Err(rejection) ==> is_bare_500(rejection),
{
    if r is Ok {
        shown_task_is_told((r->Ok_0).0.body, patch.task);
    }
}

// ─── Reads ────────────────────────────────────────────────────────────────────

/// Whether a path that names no task is refused, and one that does names it.
pub proof fn path_names_a_task(text: &str, r: Result<TaskId, Rejection>)
    requires
        call_ensures(parse_task_id, (text,), r),
    ensures
        r is Ok <==> parsed_uuid(text@) is Some,
        r is Ok ==> Some((r->Ok_0).0) == parsed_uuid(text@),
        r matches Err(rejection) ==> is_400(rejection, "invalid task ID"@),
{
}

/// A task that was found is told; one that was not found is a 404, and a read
/// that failed a bare 500.
pub proof fn read_task_is_told(
    read: Result<Option<Task>, StorageFailure>,
    r: Result<Reply<TaskResponse>, Rejection>,
)
    requires
        call_ensures(get_task, (read,), r),
    ensures
        r is Ok <==> read is Ok && read->Ok_0 is Some,
        r matches Ok(reply) ==> reply.status == StatusCode::Success && tells_task(
            reply.body,
            (read->Ok_0)->0,
        ),
        r matches Err(rejection) ==> {
            &&& read is Ok ==> is_404(rejection, "task not found"@)
            &&& read is Err ==> is_bare_500(rejection)
        },
{
    if let Ok(reply) = r {
        shown_task_is_told(reply.body, (read->Ok_0)->0);
    }
}

/// The task that a read found is passed on.
pub proof fn found_task_is_passed_on(
    read: Result<Option<Task>, StorageFailure>,
    r: Result<Task, Rejection>,
    there: Result<(), Rejection>,
)
    requires
        call_ensures(found_task, (read,), r),
        call_ensures(completion_target, (read,), there),
    ensures
        r is Ok <==> read is Ok && read->Ok_0 is Some,
        r is Ok ==> Some(r->Ok_0) == read->Ok_0,
        r matches Err(rejection) ==> {
            &&& read is Ok ==> is_404(rejection, "task not found"@)
            &&& read is Err ==> is_bare_500(rejection)
        },
        there is Ok <==> read is Ok && read->Ok_0 is Some,
        there matches Err(rejection) ==> {
            &&& read is Ok ==> is_404(rejection, "task not found"@)
            &&& read is Err ==> is_bare_500(rejection)
        },
{
}

/// Every task that a listing read is told, in order.
pub proof fn listed_tasks_are_told(
    read: Result<Vec<Task>, StorageFailure>,
    r: Result<Reply<Vec<TaskResponse>>, Rejection>,
)
    requires
        call_ensures(listed_tasks, (read,), r),
    ensures
        r is Ok <==> read is Ok,
        r matches Ok(reply) ==> {
            &&& reply.status == StatusCode::Success
            &&& reply.body@.len() == (read->Ok_0)@.len()
            &&& forall|k: int|
                0 <= k < reply.body@.len() ==> tells_task(
                    #[trigger] reply.body@[k],
                    (read->Ok_0)@[k],
                )
        },
        r matches Err(rejection) ==> is_bare_500(rejection),
{
    if let Ok(reply) = r {
        assert forall|k: int| 0 <= k < reply.body@.len() implies tells_task(
            #[trigger] reply.body@[k],
            (read->Ok_0)@[k],
        ) by {
            shown_task_is_told(reply.body@[k], (read->Ok_0)@[k]);
        }
    }
}

/// Every entry of a history is told, in order.
pub proof fn history_is_told(
    read: Result<Vec<CompletionLog>, StorageFailure>,
    r: Result<Reply<Vec<CompletionLogResponse>>, Rejection>,
)
    requires
        call_ensures(get_task_history, (read,), r),
    ensures
        r is Ok <==> read is Ok,
        r matches Ok(reply) ==> {
            &&& reply.status == StatusCode::Success
            &&& reply.body@.len() == (read->Ok_0)@.len()
            &&& forall|k: int|
                0 <= k < reply.body@.len() ==> tells_log(
                    #[trigger] reply.body@[k],
                    (read->Ok_0)@[k],
                )
        },
        r matches Err(rejection) ==> is_bare_500(rejection),
{
    if let Ok(reply) = r {
        assert forall|k: int| 0 <= k < reply.body@.len() implies tells_log(
            #[trigger] reply.body@[k],
            (read->Ok_0)@[k],
        ) by {
            shown_log_is_told(reply.body@[k], (read->Ok_0)@[k]);
        }
    }
}

/// Whether a filter asks for just what a query asks for.
pub open spec fn filters(filter: TaskFilter, params: ListTasksQuery) -> bool {
    &&& filter.status is Some <==> params.status is Some
    &&& filter.status is Some ==> is_name_of((params.status->0)@, filter.status->0)
    &&& filter.tag is Some <==> params.tag is Some
    &&& filter.tag is Some ==> (filter.tag->0)@ == lowercase(trimmed((params.tag->0)@))
}

/// A listing is refused if its status names none or its time is none, and
/// otherwise asks for just what the query gives.
pub proof fn listing_asks_for_what_the_query_gives(
    params: ListTasksQuery,
    r: Result<TaskFilter, Rejection>,
)
    requires
        call_ensures(list_tasks_handler, (params,), r),
    ensures
        r is Ok <==> is_no_name_or_one(params.status) && is_no_time_or_one(params.due_before),
        r matches Ok(filter) ==> filters(filter, params) && is_time_read(
            filter.due_before,
            params.due_before,
        ),
        r matches Err(rejection) ==> {
            &&& !is_no_name_or_one(params.status) ==> is_400(
                rejection,
                "unknown status: "@ + (params.status->0)@,
            )
            &&& is_no_name_or_one(params.status) ==> is_400(
                rejection,
                "due_before: invalid RFC 3339 datetime"@,
            )
        },
{
}

/// The same of a query whose time is already read.
pub proof fn listing_takes_the_time_as_read(
    params: ListTasksQuery,
    due_before: TimeField,
    r: Result<TaskFilter, Rejection>,
)
    requires
        call_ensures(list_filter, (params, due_before), r),
    ensures
        r is Ok <==> is_no_name_or_one(params.status) && due_before !is Malformed,
        r matches Ok(filter) ==> {
            &&& filters(filter, params)
            &&& due_before is Absent ==> filter.due_before is None
            &&& due_before matches TimeField::At(at) ==> filter.due_before is Some && (
            filter.due_before->0)@ == at@
        },
{
}

/// The filter for everything leaves nothing out.
pub proof fn filter_for_everything_asks_for_nothing(r: TaskFilter)
    requires
        call_ensures(TaskFilter::all, (), r),
    ensures
        r.status is None,
        r.tag is None,
        r.due_before is None,
{
}

// ─── Completion ───────────────────────────────────────────────────────────────

/// Whether an entry records what became of an instance on a day.
pub open spec fn is_entry(
    log: CompletionLog,
    task: u128,
    day: int,
    notes: Option<String>,
    skipped: bool,
    now: Timestamp,
) -> bool {
    &&& is_version_7(log.id.0)
    &&& log.task_id.0 == task
    &&& log.instance_date@ == day
    &&& log.completed_by.0 == 0x7000_8000_0000_0000_0001u128
    &&& log.completed_at == now
    &&& log.skipped == skipped
    &&& agree(log.notes, notes)
}

/// Whether a rejection says why an instance could not be completed or skipped.
pub open spec fn refuses_completion(
    rejection: Rejection,
    task_is_named: bool,
    date: Seq<char>,
) -> bool {
    &&& !task_is_named ==> is_400(rejection, "invalid task ID"@)
    &&& task_is_named ==> is_422(
        rejection,
        "instance_date"@ + " '"@ + date + "': expected YYYY-MM-DD"@,
    )
}

/// Completing an instance logs that it was completed and skipping it that it was
/// skipped, of the task in the path and on the day in the body; a path that names
/// no task and a text that is no day are refused.
pub proof fn completion_is_logged(
    id: &str,
    req: CompleteTaskRequest,
    now: Timestamp,
    completed: Result<CompletionLog, Rejection>,
    skipped: Result<CompletionLog, Rejection>,
)
    requires
        call_ensures(complete_task, (id, req, now), completed),
        call_ensures(skip_task, (id, req, now), skipped),
    ensures
        ({
            let task = parsed_uuid(id@);
            let day = parsed_date(req.instance_date@);
            &&& completed is Ok <==> task is Some && day is Some
            &&& completed matches Ok(log) ==> is_entry(
                log,
                task->0,
                day->0,
                req.notes,
                false,
                now,
            )
            &&& completed matches Err(rejection) ==> refuses_completion(
                rejection,
                task is Some,
                req.instance_date@,
            )
            &&& skipped is Ok <==> task is Some && day is Some
            &&& skipped matches Ok(log) ==> is_entry(log, task->0, day->0, req.notes, true, now)
            &&& skipped matches Err(rejection) ==> refuses_completion(
                rejection,
                task is Some,
                req.instance_date@,
            )
        }),
{
}

/// The same of a request whose identifier and date are already read.
pub proof fn completion_already_read_is_logged(
    id: Option<u128>,
    date: Option<Date>,
    req: CompleteTaskRequest,
    skipped: bool,
    now: Timestamp,
    r: Result<CompletionLog, Rejection>,
)
    requires
        call_ensures(log_instance, (id, date, req, skipped, now), r),
    ensures
        r is Ok <==> id is Some && date is Some,
        r matches Ok(log) ==> is_entry(log, id->0, (date->0)@, req.notes, skipped, now),
        r matches Err(rejection) ==> refuses_completion(
            rejection,
            id is Some,
            req.instance_date@,
        ),
{
}

/// A skipped instance leaves its task skipped, a completed one leaves it done.
pub proof fn entry_resolves_its_task(log: CompletionLog, status: TaskStatus)
    requires
        call_ensures(CompletionLog::resolved_status, (&log,), status),
    ensures
        log.skipped ==> status is Skipped,
        !log.skipped ==> status is Done,
{
}

/// An entry that was logged is told; one that was not is a bare 500.
pub proof fn logged_entry_is_told(
    log: CompletionLog,
    kept: Result<(), StorageFailure>,
    r: Result<Reply<CompletionLogResponse>, Rejection>,
)
    requires
        call_ensures(logged_completion, (&log, kept), r),
    ensures
        r is Ok <==> kept is Ok,
        r matches Ok(reply) ==> reply.status == StatusCode::Success && tells_log(reply.body, log),
        r matches Err(rejection) ==> is_bare_500(rejection),
{
    if let Ok(reply) = r {
        shown_log_is_told(reply.body, log);
    }
}

// ─── Reassignment ─────────────────────────────────────────────────────────────

/// A task is given to the member that the body names, and to no one if it names
/// none; a path that names no task and a text that is no member are refused.
pub proof fn task_is_given_to_whom_the_body_names(
    id: &str,
    req: ChangeAssigneeRequest,
    r: Result<Reassignment, Rejection>,
)
    requires
        call_ensures(change_assignee, (id, req), r),
    ensures
        ({
            let member_can_be_read = req.member_id is Some ==> parsed_uuid((req.member_id->0)@) is Some;
            &&& r is Ok <==> parsed_uuid(id@) is Some && member_can_be_read
            &&& r matches Ok(change) ==> {
                &&& Some(change.task_id.0) == parsed_uuid(id@)
                &&& change.assignee is Some <==> req.member_id is Some
                &&& change.assignee is Some ==> Some((change.assignee->0).0) == parsed_uuid(
                    (req.member_id->0)@,
                )
            }
            &&& r matches Err(rejection) ==> {
                &&& parsed_uuid(id@) is None ==> is_400(rejection, "invalid task ID"@)
                &&& parsed_uuid(id@) is Some ==> is_422(rejection, "invalid member ID"@)
            }
        }),
{
}

/// The same of a request whose identifiers are already read.
pub proof fn task_is_given_to_the_member_as_read(
    id: Option<u128>,
    member: MemberField,
    r: Result<Reassignment, Rejection>,
)
    requires
        call_ensures(build_reassignment, (id, member), r),
    ensures
        r is Ok <==> id is Some && member !is Malformed,
        r matches Ok(change) ==> {
            &&& Some(change.task_id.0) == id
            &&& member is Absent ==> change.assignee is None
            &&& member matches MemberField::Given(given) ==> change.assignee == Some(given)
        },
{
}

/// A task that is given to someone else is otherwise the task it was.
pub proof fn reassigned_task_is_otherwise_the_same(
    read: Result<Option<Task>, StorageFailure>,
    assignee: Option<MemberId>,
    now: Timestamp,
    r: Result<Task, Rejection>,
)
    requires
        call_ensures(reassign_task, (read, assignee, now), r),
    ensures
        r is Ok <==> read is Ok && read->Ok_0 is Some,
        r matches Ok(task) ==> {
            let old = (read->Ok_0)->0;
            &&& task.current_assignee_id == assignee
            &&& task.updated_at == now
            &&& old == (Task {
                current_assignee_id: old.current_assignee_id,
                updated_at: old.updated_at,
                ..task
            })
        },
        r matches Err(rejection) ==> {
            &&& read is Ok ==> is_404(rejection, "task not found"@)
            &&& read is Err ==> is_bare_500(rejection)
        },
{
}

/// A changed task that was kept is told; one that was not is a bare 500.
pub proof fn changed_task_is_told(
    task: Task,
    kept: Result<(), StorageFailure>,
    r: Result<Reply<TaskResponse>, Rejection>,
)
    requires
        call_ensures(updated_task, (&task, kept), r),
    ensures
        r is Ok <==> kept is Ok,
        r matches Ok(reply) ==> reply.status == StatusCode::Success && tells_task(reply.body, task),
        r matches Err(rejection) ==> is_bare_500(rejection),
{
    if let Ok(reply) = r {
        shown_task_is_told(reply.body, task);
    }
}

// ─── Upcoming instances ───────────────────────────────────────────────────────

/// Upcoming instances are those of open tasks, as many as asked for but no more
/// than a hundred, and twenty if the request does not say.
pub proof fn upcoming_asks_for_open_tasks(
    params: UpcomingQuery,
    r: (TaskFilter, i64),
    unasked: i64,
)
    requires
        call_ensures(list_upcoming, (params,), r),
        call_ensures(default_upcoming_limit, (), unasked),
    ensures
        r.0.status == Some(TaskStatus::Open),
        r.0.tag is None,
        r.0.due_before is None,
        params.limit < 0 ==> r.1 == 0,
        0 <= params.limit <= 100 ==> r.1 == params.limit,
        params.limit > 100 ==> r.1 == 100,
        unasked == 20,
{
}

/// Just the recurring tasks are asked for their instances, from now on.
pub proof fn recurring_tasks_are_asked_for_instances(
    task: Task,
    now: Timestamp,
    limit: i64,
    r: Option<InstanceQuery>,
)
    requires
        call_ensures(upcoming_instances_query, (&task, now, limit), r),
    ensures
        r is Some <==> task.recurrence is Some,
        r is Some ==> r->0.task_id == task.id && r->0.from == now && r->0.limit == limit,
{
}

/// The occurrences that one task has to offer: those that were read, if the task
/// recurs and the read did not fail.
pub open spec fn offer_of(
    task: Task,
    read: Result<Vec<TaskInstance>, StorageFailure>,
) -> Seq<Occurrence> {
    if task.recurrence is Some && read is Ok {
        Seq::new((read->Ok_0)@.len(), |k: int| ((read->Ok_0)@[k], task))
    } else {
        Seq::empty()
    }
}

/// The occurrences that all tasks have to offer, one task after the other.
pub open spec fn offers(
    tasks: Seq<Task>,
    reads: Seq<Result<Vec<TaskInstance>, StorageFailure>>,
) -> Seq<Occurrence> {
    Seq::new(tasks.len(), |t: int| offer_of(tasks[t], reads[t])).flatten()
}

proof fn gathered_is_all_offers(
    tasks: Seq<Task>,
    reads: Seq<Result<Vec<TaskInstance>, StorageFailure>>,
)
    ensures
        gathered(tasks, reads) == offers(tasks, reads),
    decreases tasks.len(),
{
    let all = Seq::new(tasks.len(), |t: int| offer_of(tasks[t], reads[t]));
    all.lemma_flatten_and_flatten_alt_are_equivalent();
    if tasks.len() == 0 {
        assert(all.flatten() =~= Seq::empty());
    } else {
        let fewer = tasks.drop_last();
        let fewer_offers = Seq::new(fewer.len(), |t: int| offer_of(fewer[t], reads[t]));
        gathered_is_all_offers(fewer, reads);
        fewer_offers.lemma_flatten_and_flatten_alt_are_equivalent();
        assert(all.drop_last() =~= fewer_offers);
        let last = tasks.len() - 1;
        assert(all.last() == offer_of(tasks[last], reads[last]));
        assert(all.flatten() =~= fewer_offers.flatten() + all.last());
        if let Ok(instances) = reads[last] {
            if tasks[last].recurrence is Some {
                assert(crate::api::task::occurrences_of(tasks[last], instances@) =~= offer_of(
                    tasks[last],
                    reads[last],
                ));
            }
        }
    }
}

/// What of a list is due at a point in time.
pub open spec fn due_then(list: Seq<Occurrence>, at: int) -> Seq<Occurrence> {
    list.filter(|o: Occurrence| o.0.scheduled_at@.instant() == at)
}

proof fn ties_are_a_filter(list: Seq<Occurrence>, at: int)
    ensures
        crate::api::task::due_at(list, at) == due_then(list, at),
    decreases list.len(),
{
    reveal(Seq::filter);
    if list.len() > 0 {
        ties_are_a_filter(list.drop_last(), at);
    }
}

/// Whether a response tells an occurrence, field by field.
pub open spec fn tells_occurrence(shown: UpcomingInstanceResponse, occurrence: Occurrence) -> bool {
    &&& shown.instance_id@ == occurrence.0.id@
    &&& tells_id(shown.task_id@, occurrence.1.id.0)
    &&& tells_time(shown.scheduled_at@, occurrence.0.scheduled_at)
    &&& may_tell_member(shown.current_assignee_id, occurrence.0.current_assignee_id)
    &&& shown.title@ == occurrence.1.title@
    &&& is_name_of(shown.status@, occurrence.1.status)
}

/// Whether a list holds the same as another, nearest first, and what is due at the
/// same time in the order of the other.
pub open spec fn is_sorted_form(list: Seq<Occurrence>, all: Seq<Occurrence>) -> bool {
    &&& list.to_multiset() == all.to_multiset()
    &&& forall|i: int, j: int|
        0 <= i <= j < list.len() ==> (#[trigger] list[i]).0.scheduled_at@.instant() <= (
        #[trigger] list[j]).0.scheduled_at@.instant()
    &&& forall|at: int| #[trigger] due_then(list, at) == due_then(all, at)
}

/// How many of a number of things are listed under a limit.
pub open spec fn listed_under(limit: i64, count: nat) -> int {
    let most = if limit < 0 {
        0int
    } else if limit > 100 {
        100int
    } else {
        limit as int
    };
    if count < most {
        count as int
    } else {
        most
    }
}

/// Upcoming instances are told nearest first, until the limit is reached: of what
/// the tasks have to offer nothing is left out that is nearer than something told,
/// and nothing is left out at all as long as the limit is not reached.
pub proof fn nearest_instances_are_told(
    tasks: Vec<Task>,
    reads: Vec<Result<Vec<TaskInstance>, StorageFailure>>,
    limit: i64,
    reply: Reply<Vec<UpcomingInstanceResponse>>,
)
    requires
        reads@.len() == tasks@.len(),
        call_ensures(listed_upcoming, (&tasks, &reads, limit), reply),
    ensures
        reply.status == StatusCode::Success,
        exists|list: Seq<Occurrence>| #[trigger]
            is_sorted_form(list, offers(tasks@, reads@)) && reply.body@.len() == listed_under(
                limit,
                list.len(),
            ) && forall|k: int|
                0 <= k < reply.body@.len() ==> tells_occurrence(
                    #[trigger] reply.body@[k],
                    list[k],
                ),
{
    let all = offers(tasks@, reads@);
    gathered_is_all_offers(tasks@, reads@);
    let list = crate::api::task::chronological(all);
    crate::api::task::upcoming_is_nearest_first(all);
    assert forall|i: int, j: int| 0 <= i <= j < list.len() implies (
    #[trigger] list[i]).0.scheduled_at@.instant() <= (
    #[trigger] list[j]).0.scheduled_at@.instant() by {
        assert(crate::api::task::due_instant(list[i]) <= crate::api::task::due_instant(list[j]));
    }
    assert forall|at: int| #[trigger] due_then(list, at) == due_then(all, at) by {
        ties_are_a_filter(list, at);
        ties_are_a_filter(all, at);
        crate::api::task::upcoming_keeps_the_order_of_ties(all, at);
    }
    assert(is_sorted_form(list, all));
    let told = crate::api::task::within_limit(list, limit);
    assert forall|k: int| 0 <= k < reply.body@.len() implies tells_occurrence(
        #[trigger] reply.body@[k],
        list[k],
    ) by {
        assert(reply.body@[k].shows(told[k]));
        assert(told[k] == list[k]);
    }
}

} // verus!
