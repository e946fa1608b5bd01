//! The Today and Week views: which tasks, events and meals are candidates for a
//! day, and how what was chosen of them is shown.
//!
//! Which candidates surface, and in which order, is decided by a ranking rule
//! that is handed the candidates and gives back the items.

use vstd::prelude::*;

use crate::api::fields::{
    date_complaint, date_or_complaint, date_read, field_of, read_date, DateField, DateRange,
};
use crate::api::task::{member_text, member_to_text, InstanceQuery};
use crate::dates::{
    iso_text, moment_of, parse_rfc3339, parsed_rfc3339, writes_date, writes_time, Date, Moment,
    Timestamp, FIRST_DAY, LAST_DAY,
};
use crate::ids::{hyphenated, uuid_text, EventId, MemberId};
use crate::model::event::{Event, EventInstance, EventOverride, EventSourceKind, OverrideAction};
use crate::model::meal::{Meal, MealSlot};
use crate::model::task::{
    priority_of, CompletionLog, Priority, Task, TaskFilter, TaskInstance, TaskStatus,
};
use crate::reply::{Refusal, Rejection, Reply, StatusCode, StorageFailure};
use crate::text::{copy_text, text_of};

verus! {

/// How many instances of a task or event are read for a day at most.
pub const INSTANCE_LIMIT: i64 = 200;

/// How many days before a day its instances are read from, so that an instance
/// whose local date is the day is found whatever its offset from UTC.
pub const READ_AHEAD_DAYS: u32 = 2;

// ─── Requests and responses ───────────────────────────────────────────────────

/// Query of `GET /api/v1/surfacing/today`.
#[derive(Debug)]
pub struct TodayQuery {
    /// The day, `YYYY-MM-DD`; today if nothing is said.
    pub date: Option<String>,
}

/// Query of `GET /api/v1/week`.
#[derive(Debug)]
pub struct WeekQuery {
    /// Any day of the week, `YYYY-MM-DD`; this week if nothing is said.
    pub start: Option<String>,
}

/// A surfaced item as the endpoints show it.
#[derive(Debug)]
pub struct SurfacedItemResponse {
    /// `task`, `event` or `meal`.
    pub kind: String,
    /// Identifies the task, event or meal.
    pub source_id: String,
    /// One-line title.
    pub title: String,
    /// The time that matters, RFC 3339.
    pub at: String,
    /// Whether the item is open past its deadline.
    pub overdue: bool,
    /// Whether the item takes the whole day.
    pub all_day: bool,
    /// Priority, 1 to 5.
    pub priority: Option<u8>,
    /// Who is shown as doing it.
    pub current_assignee_id: Option<String>,
    /// The note of an overlay.
    pub annotation: Option<String>,
    /// Whether an overlay moved the item.
    pub rescheduled: bool,
}

/// Answer of `GET /api/v1/surfacing/today`.
#[derive(Debug)]
pub struct TodayResponse {
    /// The day, `YYYY-MM-DD`.
    pub date: String,
    /// Whether anything surfaced.
    pub has_surfaced: bool,
    /// What surfaced, in order.
    pub items: Vec<SurfacedItemResponse>,
}

/// One day of a [`WeekResponse`].
#[derive(Debug)]
pub struct WeekDayResponse {
    /// The day, `YYYY-MM-DD`.
    pub date: String,
    /// What surfaced on the day, in order.
    pub items: Vec<SurfacedItemResponse>,
}

/// Answer of `GET /api/v1/week`.
#[derive(Debug)]
pub struct WeekResponse {
    /// The Monday of the week, `YYYY-MM-DD`.
    pub start: String,
    /// The days of the week, Monday first.
    pub days: Vec<WeekDayResponse>,
}

// ─── Candidates ───────────────────────────────────────────────────────────────

/// What a candidate or an item stands for.
#[derive(Clone, Copy, Debug, PartialEq, Eq, Structural)]
pub enum SurfacedKind {
    /// A task or an instance of one.
    Task,
    /// An event or an occurrence of one.
    Event,
    /// A planned dinner.
    Meal,
}

/// Whether a candidate can still surface.
#[derive(Clone, Copy, Debug, PartialEq, Eq, Structural)]
pub enum Liveness {
    /// It can.
    Live,
    /// It is resolved and does not.
    Settled,
}

/// When a candidate matters.
#[derive(Clone, Copy, Debug)]
pub enum Timing {
    /// Between two times, each of which may be open.
    Window {
        /// Not before this.
        earliest_at: Option<Timestamp>,
        /// Not after this.
        due_by: Option<Timestamp>,
    },
    /// At a time.
    Scheduled(Timestamp),
}

/// Something that may surface on a day.
#[derive(Debug)]
pub struct SurfaceCandidate {
    /// What it stands for.
    pub kind: SurfacedKind,
    /// Identifies the task, event or meal.
    pub source_id: String,
    /// One-line title.
    pub title: String,
    /// Whether it can still surface.
    pub liveness: Liveness,
    /// When it matters.
    pub timing: Timing,
    /// Whether it takes the whole day.
    pub all_day: bool,
    /// Importance rank.
    pub priority: Option<Priority>,
    /// Who is shown as doing it.
    pub current_assignee_id: Option<MemberId>,
    /// The note of an overlay.
    pub annotation: Option<String>,
    /// Whether an overlay moved it.
    pub rescheduled: bool,
}

/// The content of a [`Timing`].
pub enum When {
    /// Between two times.
    Window {
        /// Not before this.
        earliest_at: Option<Moment>,
        /// Not after this.
        due_by: Option<Moment>,
    },
    /// At a time.
    Scheduled(Moment),
}

impl View for Timing {
    type V = When;

    open spec fn view(&self) -> When {
        match *self {
            Timing::Window { earliest_at, due_by } => When::Window {
                earliest_at: moment_of(earliest_at),
                due_by: moment_of(due_by),
            },
            Timing::Scheduled(at) => When::Scheduled(at@),
        }
    }
}

/// The content of a [`SurfaceCandidate`].
pub struct Candidate {
    /// What it stands for.
    pub kind: SurfacedKind,
    /// Identifies the task, event or meal.
    pub source_id: Seq<char>,
    /// One-line title.
    pub title: Seq<char>,
    /// Whether it can still surface.
    pub liveness: Liveness,
    /// When it matters.
    pub timing: When,
    /// Whether it takes the whole day.
    pub all_day: bool,
    /// Importance rank.
    pub priority: Option<Priority>,
    /// Who is shown as doing it.
    pub current_assignee_id: Option<MemberId>,
    /// The note of an overlay.
    pub annotation: Option<Seq<char>>,
    /// Whether an overlay moved it.
    pub rescheduled: bool,
}

impl View for SurfaceCandidate {
    type V = Candidate;

    open spec fn view(&self) -> Candidate {
        Candidate {
            kind: self.kind,
            source_id: self.source_id@,
            title: self.title@,
            liveness: self.liveness,
            timing: self.timing@,
            all_day: self.all_day,
            priority: self.priority,
            current_assignee_id: self.current_assignee_id,
            annotation: text_of(self.annotation),
            rescheduled: self.rescheduled,
        }
    }
}

/// The contents of a list of candidates.
pub open spec fn contents(candidates: Seq<SurfaceCandidate>) -> Seq<Candidate> {
    candidates.map_values(|c: SurfaceCandidate| c@)
}

proof fn contents_push(candidates: Seq<SurfaceCandidate>, candidate: SurfaceCandidate)
    ensures
        contents(candidates.push(candidate)) == contents(candidates).push(candidate@),
{
    assert(contents(candidates.push(candidate)) =~= contents(candidates).push(candidate@));
}

// ─── Tasks ────────────────────────────────────────────────────────────────────

/// Whether a task in the given state can still surface.
pub open spec fn liveness_of_status(status: TaskStatus) -> Liveness {
    match status {
        TaskStatus::Open | TaskStatus::Doing => Liveness::Live,
        TaskStatus::Done | TaskStatus::Skipped => Liveness::Settled,
    }
}

/// Whether a task in the given state can still surface.
pub fn liveness_of(status: TaskStatus) -> (r: Liveness)
    ensures
        r == liveness_of_status(status),
{
    match status {
        TaskStatus::Open | TaskStatus::Doing => Liveness::Live,
        TaskStatus::Done | TaskStatus::Skipped => Liveness::Settled,
    }
}

/// The candidate that a one-shot task is, whatever the day.
pub open spec fn window_candidate(task: Task) -> Candidate {
    Candidate {
        kind: SurfacedKind::Task,
        source_id: hyphenated(task.id.0),
        title: task.title@,
        liveness: liveness_of_status(task.status),
        timing: When::Window {
            earliest_at: moment_of(task.earliest_at),
            due_by: moment_of(task.due_by),
        },
        all_day: false,
        priority: task.priority,
        current_assignee_id: task.current_assignee_id,
        annotation: None,
        rescheduled: false,
    }
}

/// The candidate that an instance of a recurring task is on its day. It is
/// assigned to whom the instance says, or else to whom the task says.
pub open spec fn instance_candidate(task: Task, instance: TaskInstance) -> Candidate {
    Candidate {
        timing: When::Scheduled(instance.scheduled_at@),
        current_assignee_id: if instance.current_assignee_id is Some {
            instance.current_assignee_id
        } else {
            task.current_assignee_id
        },
        ..window_candidate(task)
    }
}

/// The candidates that the instances of a task are on a day: those whose local
/// date is the day.
pub open spec fn instance_candidates(
    task: Task,
    instances: Seq<TaskInstance>,
    day: int,
) -> Seq<Candidate>
    decreases instances.len(),
{
    if instances.len() == 0 {
        Seq::empty()
    } else {
        let rest = instance_candidates(task, instances.drop_last(), day);
        if instances.last().scheduled_at@.julian_day == day {
            rest.push(instance_candidate(task, instances.last()))
        } else {
            rest
        }
    }
}

/// The candidates that a task is on a day, given what the read of its instances
/// brought: a one-shot task is one, a recurring task one per instance on the
/// day, and none if the read failed.
pub open spec fn task_contribution(
    task: Task,
    read: Result<Vec<TaskInstance>, StorageFailure>,
    day: int,
) -> Seq<Candidate> {
    if task.recurrence is None {
        seq![window_candidate(task)]
    } else {
        match read {
            Ok(instances) => instance_candidates(task, instances@, day),
            Err(_) => Seq::empty(),
        }
    }
}

/// The candidates that the tasks are on a day, task by task.
pub open spec fn task_candidates(
    tasks: Seq<Task>,
    reads: Seq<Result<Vec<TaskInstance>, StorageFailure>>,
    day: int,
) -> Seq<Candidate>
    decreases tasks.len(),
{
    if tasks.len() == 0 {
        Seq::empty()
    } else {
        task_candidates(tasks.drop_last(), reads, day) + task_contribution(
            tasks.last(),
            reads[tasks.len() - 1],
            day,
        )
    }
}

/// From when on the instances for a day are read.
pub fn read_from(day: Date) -> (r: Timestamp)
    requires
        FIRST_DAY <= day@ - READ_AHEAD_DAYS,
    ensures
        r@ == Moment::midnight_utc(day@ - READ_AHEAD_DAYS),
{
    Timestamp::midnight_utc(day).minus_days(READ_AHEAD_DAYS)
}

/// The read that a day needs for a task: none for a one-shot task.
pub fn task_instances_query(task: &Task, day: Date) -> (r: Option<InstanceQuery>)
    requires
        FIRST_DAY <= day@ - READ_AHEAD_DAYS,
    ensures
        match r {
            None => task.recurrence is None,
            Some(query) => {
                &&& task.recurrence is Some
                &&& query.task_id == task.id
                &&& query.from@ == Moment::midnight_utc(day@ - READ_AHEAD_DAYS)
                &&& query.limit == INSTANCE_LIMIT
            },
        },
{
    if task.recurrence.is_some() {
        Some(InstanceQuery { task_id: task.id, from: read_from(day), limit: INSTANCE_LIMIT })
    } else {
        None
    }
}

fn task_candidate(task: &Task, timing: Timing, assignee: Option<MemberId>) -> (r: SurfaceCandidate)
    ensures
        r@ == (Candidate {
            timing: timing@,
            current_assignee_id: assignee,
            ..window_candidate(*task)
        }),
{
    SurfaceCandidate {
        kind: SurfacedKind::Task,
        source_id: uuid_text(task.id.0),
        title: task.title.clone(),
        liveness: liveness_of(task.status),
        timing,
        all_day: false,
        priority: task.priority,
        current_assignee_id: assignee,
        annotation: None,
        rescheduled: false,
    }
}

/// The candidates that the tasks are on a day.
///
/// `reads` holds, for each task, what [`task_instances_query`] brought; it is
/// not looked at for a one-shot task.
pub fn build_task_candidates(
    tasks: &Vec<Task>,
    reads: &Vec<Result<Vec<TaskInstance>, StorageFailure>>,
    day: Date,
) -> (r: Vec<SurfaceCandidate>)
    requires
        reads@.len() == tasks@.len(),
    ensures
        contents(r@) == task_candidates(tasks@, reads@, day@),
{
    let mut out: Vec<SurfaceCandidate> = Vec::new();
    proof {
        assert(contents(out@) =~= Seq::empty());
    }
    for i in 0..tasks.len()
        invariant
            reads@.len() == tasks@.len(),
            contents(out@) == task_candidates(tasks@.take(i as int), reads@, day@),
    {
        let task = &tasks[i];
        let ghost before = contents(out@);
        proof {
            assert(tasks@.take(i + 1).drop_last() =~= tasks@.take(i as int));
        }
        if task.recurrence.is_none() {
            let timing = Timing::Window { earliest_at: task.earliest_at, due_by: task.due_by };
            let candidate = task_candidate(task, timing, task.current_assignee_id);
            proof {
                contents_push(out@, candidate);
                assert(before.push(candidate@) =~= before + seq![candidate@]);
            }
            out.push(candidate);
        } else if let Ok(instances) = &reads[i] {
            proof {
                assert(before + instance_candidates(*task, instances@.take(0), day@) =~= before);
            }
            for k in 0..instances.len()
                invariant
                    contents(out@) == before + instance_candidates(
                        *task,
                        instances@.take(k as int),
                        day@,
                    ),
            {
                let instance = &instances[k];
                proof {
                    assert(instances@.take(k + 1).drop_last() =~= instances@.take(k as int));
                }
                if instance.scheduled_at.date().same_day(day) {
                    let assignee = match instance.current_assignee_id {
                        Some(member) => Some(member),
                        None => task.current_assignee_id,
                    };
                    let candidate = task_candidate(
                        task,
                        Timing::Scheduled(instance.scheduled_at),
                        assignee,
                    );
                    proof {
                        contents_push(out@, candidate);
                        let rest = instance_candidates(*task, instances@.take(k as int), day@);
                        assert((before + rest).push(candidate@) =~= before + rest.push(
                            candidate@,
                        ));
                    }
                    out.push(candidate);
                }
            }
            proof {
                assert(instances@.take(instances@.len() as int) =~= instances@);
            }
        } else {
            proof {
                assert(before + Seq::<Candidate>::empty() =~= before);
            }
        }
    }
    proof {
        assert(tasks@.take(tasks@.len() as int) =~= tasks@);
    }
    out
}

// ─── Events ───────────────────────────────────────────────────────────────────

/// Whether an overlay of the day cancels the event.
pub open spec fn is_cancelled(overrides: Seq<EventOverride>, event_id: EventId) -> bool {
    exists|i: int|
        0 <= i < overrides.len() && (#[trigger] overrides[i]).source_event_id == event_id
            && overrides[i].action == OverrideAction::Cancel
}

/// Whether an overlay moves or annotates the event.
pub open spec fn applies_to(overlay: EventOverride, event_id: EventId) -> bool {
    overlay.source_event_id == event_id && overlay.action != OverrideAction::Cancel
}

/// Which overlay of the day is applied to the event: of those that move or
/// annotate it the one made last, the first of several made at that time.
pub open spec fn applied_index(overrides: Seq<EventOverride>, event_id: EventId) -> Option<int>
    decreases overrides.len(),
{
    if overrides.len() == 0 {
        None
    } else {
        let rest = applied_index(overrides.drop_last(), event_id);
        let last = overrides.last();
        if !applies_to(last, event_id) {
            rest
        } else {
            match rest {
                None => Some(overrides.len() - 1),
                Some(i) => if last.created_at@.instant() > overrides[i].created_at@.instant() {
                    Some(overrides.len() - 1)
                } else {
                    rest
                },
            }
        }
    }
}

/// The overlay that is applied to the event.
pub open spec fn applied_overlay(overrides: Seq<EventOverride>, event_id: EventId) -> Option<
    EventOverride,
> {
    match applied_index(overrides, event_id) {
        Some(i) => Some(overrides[i]),
        None => None,
    }
}

/// The overlay behind a reference to one.
pub open spec fn borrowed(overlay: Option<&EventOverride>) -> Option<EventOverride> {
    match overlay {
        Some(o) => Some(*o),
        None => None,
    }
}

/// The time an overlay moves an occurrence to, if it does.
pub open spec fn moved_to(overlay: Option<EventOverride>) -> Option<Moment> {
    match overlay {
        Some(o) => if o.action == OverrideAction::Reschedule {
            match o.payload {
                Some(text) => parsed_rfc3339(text@),
                None => None,
            }
        } else {
            None
        },
        None => None,
    }
}

/// The note an overlay puts to an occurrence, if it does.
pub open spec fn noted(overlay: Option<EventOverride>) -> Option<Seq<char>> {
    match overlay {
        Some(o) => if o.action == OverrideAction::Annotate {
            text_of(o.payload)
        } else {
            None
        },
        None => None,
    }
}

/// The candidate that an occurrence of an event at `at` is, if it is moved to
/// `moved` and carries the note `note`.
pub open spec fn occurrence_candidate(
    event: Event,
    at: Moment,
    moved: Option<Moment>,
    note: Option<Seq<char>>,
) -> Candidate {
    Candidate {
        kind: SurfacedKind::Event,
        source_id: hyphenated(event.id.0),
        title: event.title@,
        liveness: Liveness::Live,
        timing: When::Scheduled(
            match moved {
                Some(new) => new,
                None => at,
            },
        ),
        all_day: event.all_day,
        priority: None,
        current_assignee_id: None,
        annotation: note,
        rescheduled: moved is Some,
    }
}

/// Whether an event has no occurrences but its own start: it is native and does
/// not recur.
pub open spec fn is_native_one_shot(event: Event) -> bool {
    event.recurrence is None && event.source.kind != EventSourceKind::Ics
}

/// The candidates that the occurrences of an event are on a day: those whose
/// local date is the day.
pub open spec fn occurrence_candidates(
    event: Event,
    instances: Seq<EventInstance>,
    overlay: Option<EventOverride>,
    day: int,
) -> Seq<Candidate>
    decreases instances.len(),
{
    if instances.len() == 0 {
        Seq::empty()
    } else {
        let rest = occurrence_candidates(event, instances.drop_last(), overlay, day);
        let at = instances.last().scheduled_at@;
        if at.julian_day == day {
            rest.push(occurrence_candidate(event, at, moved_to(overlay), noted(overlay)))
        } else {
            rest
        }
    }
}

/// The candidates that an event is on a day: none if it is cancelled; if it is
/// a native one-shot, one on its start date; otherwise one per occurrence on
/// the day, and none if the read of its occurrences failed.
pub open spec fn event_contribution(
    event: Event,
    read: Result<Vec<EventInstance>, StorageFailure>,
    overrides: Seq<EventOverride>,
    day: int,
) -> Seq<Candidate> {
    let overlay = applied_overlay(overrides, event.id);
    if is_cancelled(overrides, event.id) {
        Seq::empty()
    } else if is_native_one_shot(event) {
        if event.start_at@.julian_day == day {
            seq![occurrence_candidate(event, event.start_at@, moved_to(overlay), noted(overlay))]
        } else {
            Seq::empty()
        }
    } else {
        match read {
            Ok(instances) => occurrence_candidates(event, instances@, overlay, day),
            Err(_) => Seq::empty(),
        }
    }
}

/// The candidates that the events are on a day, event by event.
pub open spec fn event_candidates(
    events: Seq<Event>,
    reads: Seq<Result<Vec<EventInstance>, StorageFailure>>,
    overrides: Seq<EventOverride>,
    day: int,
) -> Seq<Candidate>
    decreases events.len(),
{
    if events.len() == 0 {
        Seq::empty()
    } else {
        event_candidates(events.drop_last(), reads, overrides, day) + event_contribution(
            events.last(),
            reads[events.len() - 1],
            overrides,
            day,
        )
    }
}

/// What was read of the events for a day.
#[derive(Debug)]
pub struct EventReads {
    /// The events.
    pub events: Result<Vec<Event>, StorageFailure>,
    /// The overlays of the day.
    pub overrides: Result<Vec<EventOverride>, StorageFailure>,
    /// For each event, what [`event_instances_query`] brought.
    pub instances: Vec<Result<Vec<EventInstance>, StorageFailure>>,
}

impl EventReads {
    /// Whether there is a read of occurrences for each event.
    pub open spec fn wf(self) -> bool {
        self.events matches Ok(events) ==> self.instances@.len() == events@.len()
    }

    /// The overlays; none if they could not be read.
    pub open spec fn overlays(self) -> Seq<EventOverride> {
        match self.overrides {
            Ok(overrides) => overrides@,
            Err(_) => Seq::empty(),
        }
    }

    /// The candidates that the events are on a day; none if the events could
    /// not be read.
    pub open spec fn candidates(self, day: int) -> Seq<Candidate> {
        match self.events {
            Ok(events) => event_candidates(events@, self.instances@, self.overlays(), day),
            Err(_) => Seq::empty(),
        }
    }
}

/// Whether an overlay of the day cancels the event.
pub fn cancels(overrides: &Vec<EventOverride>, event_id: EventId) -> (r: bool)
    ensures
        r == is_cancelled(overrides@, event_id),
{
    for i in 0..overrides.len()
        invariant
            forall|j: int|
                0 <= j < i ==> !((#[trigger] overrides@[j]).source_event_id == event_id
                    && overrides@[j].action == OverrideAction::Cancel),
    {
        if overrides[i].source_event_id == event_id && overrides[i].action
            == OverrideAction::Cancel {
            return true;
        }
    }
    false
}

/// The overlay that is applied to the event.
pub fn applied(overrides: &Vec<EventOverride>, event_id: EventId) -> (r: Option<&EventOverride>)
    ensures
        borrowed(r) == applied_overlay(overrides@, event_id),
{
    let mut best: Option<usize> = None;
    for i in 0..overrides.len()
        invariant
            match best {
                Some(b) => b < i && applied_index(overrides@.take(i as int), event_id) == Some(
                    b as int,
                ),
                None => applied_index(overrides@.take(i as int), event_id) is None,
            },
    {
        let overlay = &overrides[i];
        proof {
            assert(overrides@.take(i + 1).drop_last() =~= overrides@.take(i as int));
        }
        if overlay.source_event_id == event_id && overlay.action != OverrideAction::Cancel {
            match best {
                None => {
                    best = Some(i);
                },
                Some(b) => {
                    if overrides[b].created_at.is_before(overlay.created_at) {
                        best = Some(i);
                    }
                },
            }
        }
    }
    proof {
        assert(overrides@.take(overrides@.len() as int) =~= overrides@);
    }
    match best {
        Some(b) => Some(&overrides[b]),
        None => None,
    }
}

/// A read of the occurrences of one event from a time on.
#[derive(Clone, Copy, Debug, PartialEq, Eq, Structural)]
pub struct EventInstanceQuery {
    /// The event.
    pub event_id: EventId,
    /// Occurrences before this time are left out.
    pub from: Timestamp,
    /// How many occurrences are wanted at most.
    pub limit: i64,
}

/// The read that a day needs for an event: none if the event is cancelled or
/// has no occurrences but its start.
pub fn event_instances_query(event: &Event, overrides: &Vec<EventOverride>, day: Date) -> (r:
    Option<EventInstanceQuery>)
    requires
        FIRST_DAY <= day@ - READ_AHEAD_DAYS,
    ensures
        match r {
            None => is_cancelled(overrides@, event.id) || is_native_one_shot(*event),
            Some(query) => {
                &&& !is_cancelled(overrides@, event.id)
                &&& !is_native_one_shot(*event)
                &&& query.event_id == event.id
                &&& query.from@ == Moment::midnight_utc(day@ - READ_AHEAD_DAYS)
                &&& query.limit == INSTANCE_LIMIT
            },
        },
{
    if cancels(overrides, event.id) || (event.recurrence.is_none() && event.source.kind
        != EventSourceKind::Ics) {
        None
    } else {
        Some(
            EventInstanceQuery { event_id: event.id, from: read_from(day), limit: INSTANCE_LIMIT },
        )
    }
}

/// The candidate that an occurrence of an event is, the time it is moved to
/// already read.
pub fn moved_candidate(
    event: &Event,
    at: Timestamp,
    moved: Option<Timestamp>,
    note: Option<String>,
) -> (r: SurfaceCandidate)
    ensures
        r@ == occurrence_candidate(*event, at@, moment_of(moved), text_of(note)),
{
    let (surfaced_at, rescheduled) = match moved {
        Some(new) => (new, true),
        None => (at, false),
    };
    SurfaceCandidate {
        kind: SurfacedKind::Event,
        source_id: uuid_text(event.id.0),
        title: event.title.clone(),
        liveness: Liveness::Live,
        timing: Timing::Scheduled(surfaced_at),
        all_day: event.all_day,
        priority: None,
        current_assignee_id: None,
        annotation: note,
        rescheduled,
    }
}

/// The candidate that an occurrence of an event at `at` is under an overlay. A
/// reschedule whose payload is missing or not RFC 3339 leaves the time as it is.
pub fn event_candidate(event: &Event, at: Timestamp, overlay: Option<&EventOverride>) -> (r:
    SurfaceCandidate)
    ensures
        r@ == occurrence_candidate(
            *event,
            at@,
            moved_to(borrowed(overlay)),
            noted(borrowed(overlay)),
        ),
{
    let mut moved: Option<Timestamp> = None;
    let mut note: Option<String> = None;
    if let Some(overlay) = overlay {
        match overlay.action {
            OverrideAction::Reschedule => {
                if let Some(text) = &overlay.payload {
                    moved = parse_rfc3339(text.as_str());
                }
            },
            OverrideAction::Annotate => {
                note = copy_text(&overlay.payload);
            },
            OverrideAction::Cancel => {},
        }
    }
    moved_candidate(event, at, moved, note)
}

fn event_day_candidates(
    event: &Event,
    read: &Result<Vec<EventInstance>, StorageFailure>,
    overrides: &Vec<EventOverride>,
    day: Date,
) -> (r: Vec<SurfaceCandidate>)
    ensures
        contents(r@) == event_contribution(*event, *read, overrides@, day@),
{
    let mut out: Vec<SurfaceCandidate> = Vec::new();
    proof {
        assert(contents(out@) =~= Seq::empty());
    }
    if cancels(overrides, event.id) {
        return out;
    }
    let overlay = applied(overrides, event.id);
    if event.recurrence.is_none() && event.source.kind != EventSourceKind::Ics {
        if event.start_at.date().same_day(day) {
            let candidate = event_candidate(event, event.start_at, overlay);
            proof {
                contents_push(out@, candidate);
                assert(contents(out@).push(candidate@) =~= seq![candidate@]);
            }
            out.push(candidate);
        }
    } else if let Ok(instances) = read {
        for k in 0..instances.len()
            invariant
                contents(out@) == occurrence_candidates(
                    *event,
                    instances@.take(k as int),
                    borrowed(overlay),
                    day@,
                ),
        {
            let at = instances[k].scheduled_at;
            proof {
                assert(instances@.take(k + 1).drop_last() =~= instances@.take(k as int));
            }
            if at.date().same_day(day) {
                let candidate = event_candidate(event, at, overlay);
                proof {
                    contents_push(out@, candidate);
                }
                out.push(candidate);
            }
        }
        proof {
            assert(instances@.take(instances@.len() as int) =~= instances@);
        }
    }
    out
}

fn extend(candidates: &mut Vec<SurfaceCandidate>, more: Vec<SurfaceCandidate>)
    ensures
        contents(final(candidates)@) == contents(old(candidates)@) + contents(more@),
{
    let ghost first = candidates@;
    let mut more = more;
    let ghost second = more@;
    candidates.append(&mut more);
    proof {
        assert(contents(first + second) =~= contents(first) + contents(second));
    }
}

/// The candidates that the events are on a day.
pub fn build_event_candidates(reads: &EventReads, day: Date) -> (r: Vec<SurfaceCandidate>)
    requires
        reads.wf(),
    ensures
        contents(r@) == reads.candidates(day@),
{
    let mut out: Vec<SurfaceCandidate> = Vec::new();
    proof {
        assert(contents(out@) =~= Seq::empty());
    }
    let events = match &reads.events {
        Ok(events) => events,
        Err(_) => return out,
    };
    let none: Vec<EventOverride> = Vec::new();
    let overrides = match &reads.overrides {
        Ok(overrides) => overrides,
        Err(_) => &none,
    };
    assert(overrides@ == reads.overlays());
    for i in 0..events.len()
        invariant
            reads.instances@.len() == events@.len(),
            overrides@ == reads.overlays(),
            contents(out@) == event_candidates(
                events@.take(i as int),
                reads.instances@,
                overrides@,
                day@,
            ),
    {
        proof {
            assert(events@.take(i + 1).drop_last() =~= events@.take(i as int));
        }
        let more = event_day_candidates(&events[i], &reads.instances[i], overrides, day);
        extend(&mut out, more);
    }
    proof {
        assert(events@.take(events@.len() as int) =~= events@);
    }
    out
}

// ─── Meals ────────────────────────────────────────────────────────────────────

/// The candidate that a planned dinner is on its day.
pub open spec fn meal_candidate(meal: Meal, day: int) -> Candidate {
    Candidate {
        kind: SurfacedKind::Meal,
        source_id: hyphenated(meal.id.0),
        title: meal.name@,
        liveness: Liveness::Live,
        timing: When::Scheduled(Moment::midnight_utc(day)),
        all_day: true,
        priority: None,
        current_assignee_id: meal.cook,
        annotation: None,
        rescheduled: false,
    }
}

/// The candidates that the meals of a day are: one per dinner.
pub open spec fn dinner_candidates(meals: Seq<Meal>, day: int) -> Seq<Candidate>
    decreases meals.len(),
{
    if meals.len() == 0 {
        Seq::empty()
    } else {
        let rest = dinner_candidates(meals.drop_last(), day);
        if meals.last().slot == MealSlot::Dinner {
            rest.push(meal_candidate(meals.last(), day))
        } else {
            rest
        }
    }
}

/// The candidates that the meals of a day are; none if they could not be read.
pub open spec fn meal_candidates(read: Result<Vec<Meal>, StorageFailure>, day: int) -> Seq<
    Candidate,
> {
    match read {
        Ok(meals) => dinner_candidates(meals@, day),
        Err(_) => Seq::empty(),
    }
}

/// The candidates that the meals of a day are.
pub fn build_meal_candidates(read: &Result<Vec<Meal>, StorageFailure>, day: Date) -> (r: Vec<
    SurfaceCandidate,
>)
    ensures
        contents(r@) == meal_candidates(*read, day@),
{
    let mut out: Vec<SurfaceCandidate> = Vec::new();
    proof {
        assert(contents(out@) =~= Seq::empty());
    }
    let meals = match read {
        Ok(meals) => meals,
        Err(_) => return out,
    };
    let anchor = Timestamp::midnight_utc(day);
    for i in 0..meals.len()
        invariant
            anchor@ == Moment::midnight_utc(day@),
            contents(out@) == dinner_candidates(meals@.take(i as int), day@),
    {
        let meal = &meals[i];
        proof {
            assert(meals@.take(i + 1).drop_last() =~= meals@.take(i as int));
        }
        if meal.slot == MealSlot::Dinner {
            let candidate = SurfaceCandidate {
                kind: SurfacedKind::Meal,
                source_id: uuid_text(meal.id.0),
                title: meal.name.clone(),
                liveness: Liveness::Live,
                timing: Timing::Scheduled(anchor),
                all_day: true,
                priority: None,
                current_assignee_id: meal.cook,
                annotation: None,
                rescheduled: false,
            };
            proof {
                contents_push(out@, candidate);
            }
            out.push(candidate);
        }
    }
    proof {
        assert(meals@.take(meals@.len() as int) =~= meals@);
    }
    out
}

// ─── Today ────────────────────────────────────────────────────────────────────

/// What the day in a query comes to: the day it names, or the date of `now`.
pub open spec fn day_named(
    field: Option<(Seq<char>, Option<int>)>,
    now: Timestamp,
) -> Result<int, Refusal> {
    match field {
        None => Ok(now@.julian_day),
        Some((text, day)) => match day {
            Some(day) => Ok(day),
            None => Err(Refusal::bad_request(date_complaint("date"@, text))),
        },
    }
}

/// What the text of the day in a query comes to.
pub open spec fn day_asked_for(text: Option<String>, now: Timestamp) -> Result<int, Refusal> {
    day_named(date_read(text), now)
}

/// A result with the Julian day number of its date.
pub open spec fn day_outcome(r: Result<Date, Rejection>) -> Result<int, Refusal> {
    match r {
        Ok(date) => Ok(date@),
        Err(rejection) => Err(rejection@),
    }
}

/// The day of a query, its date field already read.
pub fn resolve_day(field: Option<DateField>, now: Timestamp) -> (r: Result<Date, Rejection>)
    ensures
        day_outcome(r) == day_named(field_of(field), now),
{
    match field {
        None => Ok(now.date()),
        Some(field) => match date_or_complaint(field.date, "date", field.text.as_str()) {
            Ok(date) => Ok(date),
            Err(message) => Err(Rejection::bad_request(message)),
        },
    }
}

/// `GET /api/v1/surfacing/today`: the day that the query asks for.
pub fn today(params: TodayQuery, now: Timestamp) -> (r: Result<Date, Rejection>)
    ensures
        day_outcome(r) == day_asked_for(params.date, now),
{
    resolve_day(read_date(&params.date), now)
}

/// The tasks that the Today and the Week view look at: all of them, whatever
/// their state.
pub fn tasks_to_read() -> (r: TaskFilter)
    ensures
        r.admits_all(),
{
    TaskFilter::all()
}

/// The days whose meals the Today view of a day looks at: that day alone.
pub fn meals_to_read(day: Date) -> (r: DateRange)
    ensures
        r.from == day,
        r.to == day,
{
    DateRange { from: day, to: day }
}

/// The candidates for a day: its tasks, its events, its dinners.
pub fn today_candidates(
    tasks: &Vec<Task>,
    task_reads: &Vec<Result<Vec<TaskInstance>, StorageFailure>>,
    event_reads: &EventReads,
    meals: &Result<Vec<Meal>, StorageFailure>,
    day: Date,
) -> (r: Vec<SurfaceCandidate>)
    requires
        task_reads@.len() == tasks@.len(),
        event_reads.wf(),
    ensures
        contents(r@) == task_candidates(tasks@, task_reads@, day@) + event_reads.candidates(day@)
            + meal_candidates(*meals, day@),
{
    let mut out = build_task_candidates(tasks, task_reads, day);
    extend(&mut out, build_event_candidates(event_reads, day));
    extend(&mut out, build_meal_candidates(meals, day));
    out
}

/// An item that surfaced.
#[derive(Debug)]
pub struct SurfacedItem {
    /// What it stands for.
    pub kind: SurfacedKind,
    /// Identifies the task, event or meal.
    pub source_id: String,
    /// One-line title.
    pub title: String,
    /// The time that matters.
    pub at: Timestamp,
    /// Whether it is open past its deadline.
    pub overdue: bool,
    /// Whether it takes the whole day.
    pub all_day: bool,
    /// Importance rank.
    pub priority: Option<Priority>,
    /// Who is shown as doing it.
    pub current_assignee_id: Option<MemberId>,
    /// The note of an overlay.
    pub annotation: Option<String>,
    /// Whether an overlay moved it.
    pub rescheduled: bool,
}

impl SurfacedKind {
    /// The text of the kind.
    pub open spec fn text(self) -> Seq<char> {
        match self {
            SurfacedKind::Task => "task"@,
            SurfacedKind::Event => "event"@,
            SurfacedKind::Meal => "meal"@,
        }
    }
}

/// The text of a kind.
pub fn kind_to_str(kind: SurfacedKind) -> (r: &'static str)
    ensures
        r@ == kind.text(),
{
    match kind {
        SurfacedKind::Task => "task",
        SurfacedKind::Event => "event",
        SurfacedKind::Meal => "meal",
    }
}

impl SurfacedItemResponse {
    /// The texts, the flags and the priority that the response holds.
    pub open spec fn content(self) -> (
        (Seq<char>, Seq<char>, Seq<char>, Seq<char>),
        (bool, bool, bool),
        Option<u8>,
        Option<Seq<char>>,
        Option<Seq<char>>,
    ) {
        (
            (self.kind@, self.source_id@, self.title@, self.at@),
            (self.overdue, self.all_day, self.rescheduled),
            self.priority,
            text_of(self.current_assignee_id),
            text_of(self.annotation),
        )
    }

    /// Whether this is how `item` is shown.
    pub open spec fn shows(self, item: SurfacedItem) -> bool {
        &&& self.kind@ == item.kind.text()
        &&& self.source_id@ == item.source_id@
        &&& self.title@ == item.title@
        &&& writes_time(self.at@, item.at@)
        &&& self.overdue == item.overdue
        &&& self.all_day == item.all_day
        &&& self.priority == priority_of(item.priority)
        &&& text_of(self.current_assignee_id) == member_text(item.current_assignee_id)
        &&& text_of(self.annotation) == text_of(item.annotation)
        &&& self.rescheduled == item.rescheduled
    }
}

/// Whether the responses show the items one by one.
pub open spec fn show_all(responses: Seq<SurfacedItemResponse>, items: Seq<SurfacedItem>) -> bool {
    &&& responses.len() == items.len()
    &&& forall|i: int| 0 <= i < items.len() ==> (#[trigger] responses[i]).shows(items[i])
}

/// How an item is shown.
pub fn surfaced_item_to_response(item: &SurfacedItem) -> (r: SurfacedItemResponse)
    ensures
        r.shows(*item),
{
    let priority = match item.priority {
        Some(level) => Some(level.value()),
        None => None,
    };
    SurfacedItemResponse {
        kind: kind_to_str(item.kind).to_owned(),
        source_id: item.source_id.clone(),
        title: item.title.clone(),
        at: item.at.rfc3339_text(),
        overdue: item.overdue,
        all_day: item.all_day,
        priority,
        current_assignee_id: member_to_text(item.current_assignee_id),
        annotation: copy_text(&item.annotation),
        rescheduled: item.rescheduled,
    }
}

fn items_to_responses(items: &Vec<SurfacedItem>) -> (r: Vec<SurfacedItemResponse>)
    ensures
        show_all(r@, items@),
{
    let mut out: Vec<SurfacedItemResponse> = Vec::new();
    for i in 0..items.len()
        invariant
            show_all(out@, items@.take(i as int)),
    {
        out.push(surfaced_item_to_response(&items[i]));
    }
    proof {
        assert(items@.take(items@.len() as int) =~= items@);
    }
    out
}

/// The answer of the Today view: what the ranking rule made of the candidates, in
/// its order, and whether that is anything at all.
pub fn today_response(day: Date, items: &Vec<SurfacedItem>) -> (r: Reply<TodayResponse>)
    ensures
        r.status == StatusCode::Success,
        writes_date(r.body.date@, day@),
        show_all(r.body.items@, items@),
        r.body.has_surfaced == (r.body.items@.len() > 0),
{
    Reply {
        status: StatusCode::Success,
        body: TodayResponse {
            date: day.iso_text(),
            has_surfaced: items.len() > 0,
            items: items_to_responses(items),
        },
    }
}

// ─── Week ─────────────────────────────────────────────────────────────────────

/// The Monday of the week of a day.
pub open spec fn monday_of(day: int) -> int {
    day - day % 7
}

/// The Monday of the week of a day.
pub fn week_start(day: Date) -> (r: Date)
    ensures
        r@ == monday_of(day@),
{
    let back: i32 = day.days_from_monday();
    let number: i32 = day.julian_day();
    proof {
        // The first day that a date can hold is itself a Monday.
        assert(FIRST_DAY % 7 == 0);
        assert(number >= FIRST_DAY ==> number - number % 7 >= FIRST_DAY);
    }
    day.minus_days(back as u32)
}

/// `GET /api/v1/week`: the Monday of the week that the query asks for.
pub fn week(params: WeekQuery, now: Timestamp) -> (r: Result<Date, Rejection>)
    ensures
        day_outcome(r) == (match day_asked_for(params.start, now) {
            Ok(day) => Ok(monday_of(day)),
            Err(refusal) => Err(refusal),
        }),
{
    match resolve_day(read_date(&params.start), now) {
        Ok(day) => Ok(week_start(day)),
        Err(rejection) => Err(rejection),
    }
}

/// The days of the week that starts on a Monday.
pub fn week_days(start: Date) -> (r: Vec<Date>)
    requires
        start@ + 6 <= LAST_DAY,
    ensures
        r@.len() == 7,
        forall|i: int| 0 <= i < 7 ==> (#[trigger] r@[i])@ == start@ + i,
{
    let mut out: Vec<Date> = Vec::new();
    let mut offset: u32 = 0;
    while offset < 7
        invariant
            offset <= 7,
            start@ + 6 <= LAST_DAY,
            out@.len() == offset,
            forall|i: int| 0 <= i < offset ==> (#[trigger] out@[i])@ == start@ + i,
        decreases 7 - offset,
    {
        out.push(start.plus_days(offset));
        offset = offset + 1;
    }
    out
}

/// What was read for one day of a week.
#[derive(Debug)]
pub struct DayReads {
    /// For each task, what [`task_instances_query`] brought.
    pub task_instances: Vec<Result<Vec<TaskInstance>, StorageFailure>>,
    /// What was read of the events.
    pub events: EventReads,
}

/// The candidates for the first `days` days of a week: of each day its tasks,
/// then its events. Meals are not among them.
pub open spec fn week_candidates_of(
    tasks: Seq<Task>,
    reads: Seq<DayReads>,
    start: int,
    days: int,
) -> Seq<Candidate>
    decreases days,
{
    if days <= 0 {
        Seq::empty()
    } else {
        week_candidates_of(tasks, reads, start, days - 1) + (task_candidates(
            tasks,
            reads[days - 1].task_instances@,
            start + days - 1,
        ) + reads[days - 1].events.candidates(start + days - 1))
    }
}

/// The candidates for a week.
pub fn week_candidates(tasks: &Vec<Task>, reads: &Vec<DayReads>, start: Date) -> (r: Vec<
    SurfaceCandidate,
>)
    requires
        start@ + 6 <= LAST_DAY,
        reads@.len() == 7,
        forall|i: int|
            0 <= i < 7 ==> (#[trigger] reads@[i]).task_instances@.len() == tasks@.len()
                && reads@[i].events.wf(),
    ensures
        contents(r@) == week_candidates_of(tasks@, reads@, start@, 7),
{
    let days = week_days(start);
    let mut out: Vec<SurfaceCandidate> = Vec::new();
    proof {
        assert(contents(out@) =~= Seq::empty());
    }
    for i in 0..7usize
        invariant
            days@.len() == 7,
            forall|k: int| 0 <= k < 7 ==> (#[trigger] days@[k])@ == start@ + k,
            reads@.len() == 7,
            forall|k: int|
                0 <= k < 7 ==> (#[trigger] reads@[k]).task_instances@.len() == tasks@.len()
                    && reads@[k].events.wf(),
            contents(out@) == week_candidates_of(tasks@, reads@, start@, i as int),
    {
        let ghost before = contents(out@);
        let day_reads = &reads[i];
        let of_tasks = build_task_candidates(tasks, &day_reads.task_instances, days[i]);
        let of_events = build_event_candidates(&day_reads.events, days[i]);
        let ghost a = contents(of_tasks@);
        let ghost b = contents(of_events@);
        extend(&mut out, of_tasks);
        extend(&mut out, of_events);
        proof {
            assert(before + a + b =~= before + (a + b));
        }
    }
    out
}

/// One day of a laid-out week.
#[derive(Debug)]
pub struct PlannedDay {
    /// The day.
    pub date: Date,
    /// What surfaced on it, in order.
    pub items: Vec<SurfacedItem>,
}

/// The items that a layout places on a day: those of the first entry for it.
pub open spec fn placed_on(plan: Seq<PlannedDay>, day: int) -> Seq<SurfacedItem>
    decreases plan.len(),
{
    if plan.len() == 0 {
        Seq::empty()
    } else if plan[0].date@ == day {
        plan[0].items@
    } else {
        placed_on(plan.skip(1), day)
    }
}

/// How the items that a layout places on a day are shown.
fn day_response(plan: &Vec<PlannedDay>, day: Date) -> (r: WeekDayResponse)
    ensures
        writes_date(r.date@, day@),
        show_all(r.items@, placed_on(plan@, day@)),
{
    proof {
        assert(plan@.skip(0) =~= plan@);
    }
    for i in 0..plan.len()
        invariant
            placed_on(plan@, day@) == placed_on(plan@.skip(i as int), day@),
    {
        let entry = &plan[i];
        proof {
            assert(plan@.skip(i as int)[0] == *entry);
            assert(plan@.skip(i as int).skip(1) =~= plan@.skip(i + 1));
        }
        if entry.date.same_day(day) {
            return WeekDayResponse {
                date: day.iso_text(),
                items: items_to_responses(&entry.items),
            };
        }
    }
    proof {
        assert(plan@.skip(plan@.len() as int).len() == 0);
    }
    WeekDayResponse { date: day.iso_text(), items: Vec::new() }
}

/// Whether the responses are the seven days from a Monday on, each with the items
/// that a layout places on it.
pub open spec fn show_week(
    responses: Seq<WeekDayResponse>,
    start: int,
    plan: Seq<PlannedDay>,
) -> bool {
    &&& responses.len() == 7
    &&& forall|i: int|
        0 <= i < 7 ==> writes_date((#[trigger] responses[i]).date@, start + i) && show_all(
            responses[i].items@,
            placed_on(plan, start + i),
        )
}

/// The answer of the Week view, once the candidates have been laid out: always the
/// seven days from the Monday on, a day without items among them.
pub fn week_response(start: Date, plan: &Vec<PlannedDay>) -> (r: Reply<WeekResponse>)
    requires
        start@ + 6 <= LAST_DAY,
    ensures
        r.status == StatusCode::Success,
        writes_date(r.body.start@, start@),
        show_week(r.body.days@, start@, plan@),
{
    let dates = week_days(start);
    let mut days: Vec<WeekDayResponse> = Vec::new();
    for i in 0..7usize
        invariant
            dates@.len() == 7,
            forall|k: int| 0 <= k < 7 ==> (#[trigger] dates@[k])@ == start@ + k,
            days@.len() == i,
            forall|k: int|
                0 <= k < i ==> writes_date((#[trigger] days@[k]).date@, start@ + k) && show_all(
                    days@[k].items@,
                    placed_on(plan@, start@ + k),
                ),
    {
        days.push(day_response(plan, dates[i]));
    }
    Reply { status: StatusCode::Success, body: WeekResponse { start: start.iso_text(), days } }
}

// ─── Laws ─────────────────────────────────────────────────────────────────────

/// The Monday of a week is a Monday, at most six days back, and the same for
/// every day of the week.
pub proof fn week_starts_on_its_monday(day: int, other: int)
    ensures
        monday_of(day) % 7 == 0,
        monday_of(day) <= day <= monday_of(day) + 6,
        monday_of(monday_of(day)) == monday_of(day),
        monday_of(day) <= other <= monday_of(day) + 6 ==> monday_of(other) == monday_of(day),
{
}

/// Events or meals that cannot be read only drop out of the day: its tasks, and
/// whatever else was read, are candidates as before.
pub proof fn unreadable_parts_only_drop_out(
    tasks: Seq<Task>,
    task_reads: Seq<Result<Vec<TaskInstance>, StorageFailure>>,
    events: EventReads,
    meals: Result<Vec<Meal>, StorageFailure>,
    day: int,
)
    ensures
        events.events is Err ==> task_candidates(tasks, task_reads, day) + events.candidates(day)
            + meal_candidates(meals, day) == task_candidates(tasks, task_reads, day)
            + meal_candidates(meals, day),
        meals is Err ==> task_candidates(tasks, task_reads, day) + events.candidates(day)
            + meal_candidates(meals, day) == task_candidates(tasks, task_reads, day)
            + events.candidates(day),
{
    let of_tasks = task_candidates(tasks, task_reads, day);
    if events.events is Err {
        assert(of_tasks + events.candidates(day) =~= of_tasks);
    }
    if meals is Err {
        assert(of_tasks + events.candidates(day) + meal_candidates(meals, day) =~= of_tasks
            + events.candidates(day));
    }
}

/// Whichever of its days is asked for, a week is answered alike: two days of one
/// week give the same Monday, at most six days before either, and, of the same
/// reads, the same candidates; and two answers on one layout say the same. They
/// show the seven days from the Monday on, in order, whatever the layout.
pub proof fn any_day_asks_for_its_week(
    one: WeekQuery,
    other: WeekQuery,
    now: Timestamp,
    tasks: Seq<Task>,
    reads: Seq<DayReads>,
    plan: Seq<PlannedDay>,
    response: WeekResponse,
    again: WeekResponse,
)
    requires
        day_asked_for(one.start, now) is Ok,
        day_asked_for(other.start, now) is Ok,
        ({
            let start = monday_of(day_asked_for(one.start, now)->Ok_0);
            let same = monday_of(day_asked_for(other.start, now)->Ok_0);
            &&& start <= day_asked_for(other.start, now)->Ok_0 <= start + 6
            &&& writes_date(response.start@, start)
            &&& show_week(response.days@, start, plan)
            &&& writes_date(again.start@, same)
            &&& show_week(again.days@, same, plan)
        }),
    ensures
        ({
            let day = day_asked_for(one.start, now)->Ok_0;
            let start = monday_of(day);
            let same = monday_of(day_asked_for(other.start, now)->Ok_0);
            &&& same == start
            &&& start % 7 == 0
            &&& start <= day <= start + 6
            &&& week_candidates_of(tasks, reads, same, 7) == week_candidates_of(
                tasks,
                reads,
                start,
                7,
            )
            &&& response.days@.len() == 7
            &&& response.days@[0].date@ == response.start@
            &&& forall|i: int|
                0 <= i < 7 ==> writes_date((#[trigger] response.days@[i]).date@, start + i)
        }),
        again.start@ == response.start@,
        again.days@.len() == response.days@.len(),
        forall|i: int|
            0 <= i < 7 ==> (#[trigger] again.days@[i]).date@ == response.days@[i].date@
                && again.days@[i].items@.len() == response.days@[i].items@.len(),
        forall|i: int, k: int|
            0 <= i < 7 && 0 <= k < response.days@[i].items@.len() ==> (
            #[trigger] again.days@[i].items@[k]).content() == response.days@[i].items@[k].content(),
{
    let start = monday_of(day_asked_for(one.start, now)->Ok_0);
    assert(monday_of(day_asked_for(other.start, now)->Ok_0) == start);
    assert(writes_date(response.days@[0].date@, start + 0));
    assert forall|i: int| 0 <= i < 7 implies (#[trigger] again.days@[i]).date@
        == response.days@[i].date@ && again.days@[i].items@.len()
        == response.days@[i].items@.len() by {
        assert(writes_date(response.days@[i].date@, start + i));
    }
    assert forall|i: int, k: int|
        0 <= i < 7 && 0 <= k < response.days@[i].items@.len() implies (
    #[trigger] again.days@[i].items@[k]).content() == response.days@[i].items@[k].content() by {
        let items = placed_on(plan, start + i);
        assert(show_all(response.days@[i].items@, items));
        assert(show_all(again.days@[i].items@, items));
        assert(response.days@[i].items@[k].shows(items[k]));
        assert(again.days@[i].items@[k].shows(items[k]));
    }
}

/// Whether the responses show the days of a layout one by one.
pub open spec fn show_days(responses: Seq<WeekDayResponse>, days: Seq<PlannedDay>) -> bool {
    &&& responses.len() == days.len()
    &&& forall|i: int|
        0 <= i < days.len() ==> writes_date((#[trigger] responses[i]).date@, days[i].date@)
            && show_all(responses[i].items@, days[i].items@)
}

proof fn entry_is_found(plan: Seq<PlannedDay>, k: int)
    requires
        0 <= k < plan.len(),
        forall|i: int| 0 <= i < k ==> (#[trigger] plan[i]).date@ != plan[k].date@,
    ensures
        placed_on(plan, plan[k].date@) == plan[k].items@,
    decreases plan.len(),
{
    if k > 0 {
        let rest = plan.skip(1);
        assert(plan[0].date@ != plan[k].date@);
        assert(rest[k - 1] == plan[k]);
        assert forall|i: int| 0 <= i < k - 1 implies (#[trigger] rest[i]).date@ != rest[k
            - 1].date@ by {
            assert(rest[i] == plan[i + 1]);
        }
        entry_is_found(rest, k - 1);
    }
}

/// A layout of the seven days from the Monday on is shown entry by entry.
pub proof fn seven_days_are_shown_as_laid_out(
    responses: Seq<WeekDayResponse>,
    start: int,
    plan: Seq<PlannedDay>,
)
    requires
        show_week(responses, start, plan),
        plan.len() == 7,
        forall|i: int| 0 <= i < 7 ==> (#[trigger] plan[i]).date@ == start + i,
    ensures
        show_days(responses, plan),
{
    assert forall|i: int| 0 <= i < 7 implies writes_date(
        (#[trigger] responses[i]).date@,
        plan[i].date@,
    ) && show_all(responses[i].items@, plan[i].items@) by {
        assert(plan[i].date@ == start + i);
        entry_is_found(plan, i);
    }
}

/// A cancelled event leaves no trace on the day: the candidates are those there
/// would be without it.
pub proof fn cancelled_event_is_hidden(
    events: Seq<Event>,
    reads: Seq<Result<Vec<EventInstance>, StorageFailure>>,
    overrides: Seq<EventOverride>,
    day: int,
    i: int,
)
    requires
        reads.len() == events.len(),
        0 <= i < events.len(),
        is_cancelled(overrides, events[i].id),
    ensures
        event_candidates(events, reads, overrides, day) == event_candidates(
            events.remove(i),
            reads.remove(i),
            overrides,
            day,
        ),
    decreases events.len(),
{
    let last = events.len() - 1;
    if i == last {
        assert(events.remove(i) =~= events.drop_last());
        assert(event_contribution(events[i], reads[i], overrides, day) =~= Seq::empty());
        unread_rows_do_not_matter(events.drop_last(), reads, reads.remove(i), overrides, day);
        let rest = event_candidates(events.drop_last(), reads, overrides, day);
        assert(rest + Seq::<Candidate>::empty() =~= rest);
    } else {
        let fewer = events.drop_last();
        unread_rows_do_not_matter(fewer, reads, reads.drop_last(), overrides, day);
        cancelled_event_is_hidden(fewer, reads.drop_last(), overrides, day, i);
        assert(events.remove(i).drop_last() =~= fewer.remove(i));
        assert(events.remove(i).last() == events.last());
        assert(reads.remove(i)[last - 1] == reads[last]);
        unread_rows_do_not_matter(
            fewer.remove(i),
            reads.drop_last().remove(i),
            reads.remove(i),
            overrides,
            day,
        );
    }
}

proof fn unread_rows_do_not_matter(
    events: Seq<Event>,
    one: Seq<Result<Vec<EventInstance>, StorageFailure>>,
    other: Seq<Result<Vec<EventInstance>, StorageFailure>>,
    overrides: Seq<EventOverride>,
    day: int,
)
    requires
        forall|k: int| 0 <= k < events.len() ==> one[k] == other[k],
    ensures
        event_candidates(events, one, overrides, day) == event_candidates(
            events,
            other,
            overrides,
            day,
        ),
    decreases events.len(),
{
    if events.len() > 0 {
        unread_rows_do_not_matter(events.drop_last(), one, other, overrides, day);
        assert(one[events.len() - 1] == other[events.len() - 1]);
    }
}

/// Of the overlays that move or annotate an event, the one that is applied is
/// one of them, was made no earlier than any other, and there is one as soon as
/// there is any.
pub proof fn latest_overlay_is_applied(overrides: Seq<EventOverride>, event_id: EventId)
    ensures
        match applied_index(overrides, event_id) {
            None => forall|k: int|
                0 <= k < overrides.len() ==> !applies_to(#[trigger] overrides[k], event_id),
            Some(i) => {
                &&& 0 <= i < overrides.len()
                &&& applies_to(overrides[i], event_id)
                &&& forall|k: int|
                    0 <= k < overrides.len() && applies_to(#[trigger] overrides[k], event_id)
                        ==> overrides[k].created_at@.instant() <= overrides[i].created_at@.instant()
                &&& forall|k: int|
                    0 <= k < i && applies_to(#[trigger] overrides[k], event_id)
                        ==> overrides[k].created_at@.instant() < overrides[i].created_at@.instant()
            },
        },
    decreases overrides.len(),
{
    if overrides.len() > 0 {
        let fewer = overrides.drop_last();
        latest_overlay_is_applied(fewer, event_id);
        assert forall|k: int| 0 <= k < fewer.len() implies #[trigger] overrides[k] == fewer[k] by {}
    }
}

/// A reschedule moves the occurrence and marks it as moved, and changes nothing
/// else of it; one whose payload is missing or malformed changes nothing at all.
pub proof fn reschedule_only_moves(event: Event, at: Moment, overlay: EventOverride)
    requires
        overlay.action == OverrideAction::Reschedule,
    ensures
        ({
            let plain = occurrence_candidate(event, at, None, None);
            let overlaid = occurrence_candidate(
                event,
                at,
                moved_to(Some(overlay)),
                noted(Some(overlay)),
            );
            match moved_to(Some(overlay)) {
                Some(new) => overlaid == (Candidate {
                    timing: When::Scheduled(new),
                    rescheduled: true,
                    ..plain
                }),
                None => overlaid == plain,
            }
        }),
{
}

/// A note is put to the occurrence, and changes nothing else of it.
pub proof fn annotation_only_notes(event: Event, at: Moment, overlay: EventOverride)
    requires
        overlay.action == OverrideAction::Annotate,
    ensures
        occurrence_candidate(event, at, moved_to(Some(overlay)), noted(Some(overlay)))
            == (Candidate {
            annotation: text_of(overlay.payload),
            ..occurrence_candidate(event, at, None, None)
        }),
{
}

/// Whether a candidate is scheduled on a day, unless an overlay moved it.
pub open spec fn lands_on(candidate: Candidate, day: int) -> bool {
    candidate.rescheduled || (candidate.timing matches When::Scheduled(at) && at.julian_day == day)
}

/// Every candidate that an event is on a day is scheduled on that day, unless an
/// overlay moved it.
pub proof fn events_land_on_the_day(
    event: Event,
    read: Result<Vec<EventInstance>, StorageFailure>,
    overrides: Seq<EventOverride>,
    day: int,
)
    ensures
        forall|i: int|
            0 <= i < event_contribution(event, read, overrides, day).len() ==> lands_on(
                #[trigger] event_contribution(event, read, overrides, day)[i],
                day,
            ),
{
    if !is_cancelled(overrides, event.id) && !is_native_one_shot(event) && read is Ok {
        occurrences_land_on_the_day(event, read->Ok_0@, applied_overlay(overrides, event.id), day);
    }
}

proof fn occurrences_land_on_the_day(
    event: Event,
    instances: Seq<EventInstance>,
    overlay: Option<EventOverride>,
    day: int,
)
    ensures
        forall|i: int|
            0 <= i < occurrence_candidates(event, instances, overlay, day).len() ==> lands_on(
                #[trigger] occurrence_candidates(event, instances, overlay, day)[i],
                day,
            ),
    decreases instances.len(),
{
    if instances.len() > 0 {
        let fewer = occurrence_candidates(event, instances.drop_last(), overlay, day);
        occurrences_land_on_the_day(event, instances.drop_last(), overlay, day);
        let all = occurrence_candidates(event, instances, overlay, day);
        assert forall|i: int| 0 <= i < all.len() implies lands_on(#[trigger] all[i], day) by {
            if i < fewer.len() {
                assert(all[i] == fewer[i]);
            }
        }
    }
}

/// An event that an overlay moves surfaces at its new time and nowhere else:
/// every candidate that it is on the day is scheduled there and marked as moved.
pub proof fn moved_event_leaves_its_slot(
    event: Event,
    read: Result<Vec<EventInstance>, StorageFailure>,
    overrides: Seq<EventOverride>,
    day: int,
)
    requires
        moved_to(applied_overlay(overrides, event.id)) is Some,
    ensures
        forall|i: int|
            0 <= i < event_contribution(event, read, overrides, day).len() ==> {
                let candidate = #[trigger] event_contribution(event, read, overrides, day)[i];
                candidate.rescheduled && candidate.timing == When::Scheduled(
                    moved_to(applied_overlay(overrides, event.id))->0,
                )
            },
{
    if !is_cancelled(overrides, event.id) && !is_native_one_shot(event) && read is Ok {
        moved_occurrences_leave_their_slots(
            event,
            read->Ok_0@,
            applied_overlay(overrides, event.id),
            day,
        );
    }
}

proof fn moved_occurrences_leave_their_slots(
    event: Event,
    instances: Seq<EventInstance>,
    overlay: Option<EventOverride>,
    day: int,
)
    requires
        moved_to(overlay) is Some,
    ensures
        forall|i: int|
            0 <= i < occurrence_candidates(event, instances, overlay, day).len() ==> {
                let candidate = #[trigger] occurrence_candidates(event, instances, overlay, day)[i];
                candidate.rescheduled && candidate.timing == When::Scheduled(moved_to(overlay)->0)
            },
    decreases instances.len(),
{
    if instances.len() > 0 {
        let fewer = occurrence_candidates(event, instances.drop_last(), overlay, day);
        moved_occurrences_leave_their_slots(event, instances.drop_last(), overlay, day);
        let all = occurrence_candidates(event, instances, overlay, day);
        assert forall|i: int| 0 <= i < all.len() implies {
            let candidate = #[trigger] all[i];
            candidate.rescheduled && candidate.timing == When::Scheduled(moved_to(overlay)->0)
        } by {
            if i < fewer.len() {
                assert(all[i] == fewer[i]);
            }
        }
    }
}

/// An event is at most one candidate on a day on which it takes place at most
/// once.
pub proof fn one_occurrence_is_one_candidate(
    event: Event,
    read: Result<Vec<EventInstance>, StorageFailure>,
    overrides: Seq<EventOverride>,
    day: int,
)
    requires
        read matches Ok(instances) ==> forall|i: int, j: int|
            0 <= i < j < instances@.len() ==> (#[trigger] instances@[i]).scheduled_at@.julian_day
                != day || (#[trigger] instances@[j]).scheduled_at@.julian_day != day,
    ensures
        event_contribution(event, read, overrides, day).len() <= 1,
{
    if let Ok(instances) = read {
        let overlay = applied_overlay(overrides, event.id);
        occurrences_are_counted(event, instances@, overlay, day);
    }
}

proof fn occurrences_are_counted(
    event: Event,
    instances: Seq<EventInstance>,
    overlay: Option<EventOverride>,
    day: int,
)
    requires
        forall|i: int, j: int|
            0 <= i < j < instances.len() ==> (#[trigger] instances[i]).scheduled_at@.julian_day
                != day || (#[trigger] instances[j]).scheduled_at@.julian_day != day,
    ensures
        occurrence_candidates(event, instances, overlay, day).len() <= 1,
        (forall|i: int|
            0 <= i < instances.len() ==> (#[trigger] instances[i]).scheduled_at@.julian_day != day)
            ==> occurrence_candidates(event, instances, overlay, day).len() == 0,
    decreases instances.len(),
{
    if instances.len() > 0 {
        let fewer = instances.drop_last();
        assert forall|i: int, j: int| 0 <= i < j < fewer.len() implies (
        #[trigger] fewer[i]).scheduled_at@.julian_day != day || (
        #[trigger] fewer[j]).scheduled_at@.julian_day != day by {
            assert(fewer[i] == instances[i] && fewer[j] == instances[j]);
        }
        occurrences_are_counted(event, fewer, overlay, day);
        let last = instances.len() - 1;
        if instances[last].scheduled_at@.julian_day == day {
            assert forall|i: int| 0 <= i < fewer.len() implies (
            #[trigger] fewer[i]).scheduled_at@.julian_day != day by {
                assert(fewer[i] == instances[i]);
                assert(instances[last].scheduled_at@.julian_day == day);
            }
        } else if forall|i: int|
            0 <= i < instances.len() ==> (#[trigger] instances[i]).scheduled_at@.julian_day
                != day {
            assert forall|i: int| 0 <= i < fewer.len() implies (
            #[trigger] fewer[i]).scheduled_at@.julian_day != day by {
                assert(fewer[i] == instances[i]);
            }
        }
    }
}

/// Every candidate that a recurring task is on a day is scheduled on that day.
pub proof fn recurring_tasks_land_on_the_day(task: Task, instances: Seq<TaskInstance>, day: int)
    ensures
        forall|i: int|
            0 <= i < instance_candidates(task, instances, day).len() ==> {
                let candidate = #[trigger] instance_candidates(task, instances, day)[i];
                candidate.timing matches When::Scheduled(at) && at.julian_day == day
            },
    decreases instances.len(),
{
    if instances.len() > 0 {
        let fewer = instance_candidates(task, instances.drop_last(), day);
        recurring_tasks_land_on_the_day(task, instances.drop_last(), day);
        let all = instance_candidates(task, instances, day);
        assert forall|i: int| 0 <= i < all.len() implies {
            let candidate = #[trigger] all[i];
            candidate.timing matches When::Scheduled(at) && at.julian_day == day
        } by {
            if i < fewer.len() {
                assert(all[i] == fewer[i]);
            }
        }
    }
}

/// A task in the state that a completion or a skip leaves it in is settled in
/// every candidate that it is, on every day.
pub proof fn logged_tasks_are_settled(
    task: Task,
    log: CompletionLog,
    read: Result<Vec<TaskInstance>, StorageFailure>,
    day: int,
)
    requires
        task.status == log.resolution(),
    ensures
        forall|i: int|
            0 <= i < task_contribution(task, read, day).len() ==> (#[trigger] task_contribution(
                task,
                read,
                day,
            )[i]).liveness == Liveness::Settled,
{
    if task.recurrence is Some {
        if let Ok(instances) = read {
            instances_live_as_their_task(task, instances@, day);
        }
    }
}

proof fn instances_live_as_their_task(task: Task, instances: Seq<TaskInstance>, day: int)
    ensures
        forall|i: int|
            0 <= i < instance_candidates(task, instances, day).len() ==> (
            #[trigger] instance_candidates(task, instances, day)[i]).liveness
                == liveness_of_status(task.status),
    decreases instances.len(),
{
    if instances.len() > 0 {
        let fewer = instance_candidates(task, instances.drop_last(), day);
        instances_live_as_their_task(task, instances.drop_last(), day);
        let all = instance_candidates(task, instances, day);
        assert forall|i: int| 0 <= i < all.len() implies (#[trigger] all[i]).liveness
            == liveness_of_status(task.status) by {
            if i < fewer.len() {
                assert(all[i] == fewer[i]);
            }
        }
    }
}

/// A meal is never a candidate for a week: every candidate there is a task or
/// an event.
pub proof fn week_shows_no_meals(tasks: Seq<Task>, reads: Seq<DayReads>, start: int, days: int)
    ensures
        forall|i: int|
            0 <= i < week_candidates_of(tasks, reads, start, days).len() ==> (
            #[trigger] week_candidates_of(tasks, reads, start, days)[i]).kind
                != SurfacedKind::Meal,
    decreases days,
{
    if days > 0 {
        week_shows_no_meals(tasks, reads, start, days - 1);
        let day = start + days - 1;
        let events = reads[days - 1].events;
        tasks_are_no_meals(tasks, reads[days - 1].task_instances@, day);
        if events.events is Ok {
            events_are_no_meals(
                events.events->Ok_0@,
                events.instances@,
                events.overlays(),
                day,
            );
        }
        let before = week_candidates_of(tasks, reads, start, days - 1);
        let of_tasks = task_candidates(tasks, reads[days - 1].task_instances@, day);
        let of_events = events.candidates(day);
        let all = week_candidates_of(tasks, reads, start, days);
        assert forall|i: int| 0 <= i < all.len() implies (#[trigger] all[i]).kind
            != SurfacedKind::Meal by {
            if i < before.len() {
                assert(all[i] == before[i]);
            } else if i < before.len() + of_tasks.len() {
                assert(all[i] == of_tasks[i - before.len()]);
            } else {
                assert(all[i] == of_events[i - before.len() - of_tasks.len()]);
            }
        }
    }
}

proof fn tasks_are_no_meals(
    tasks: Seq<Task>,
    reads: Seq<Result<Vec<TaskInstance>, StorageFailure>>,
    day: int,
)
    ensures
        forall|i: int|
            0 <= i < task_candidates(tasks, reads, day).len() ==> (#[trigger] task_candidates(
                tasks,
                reads,
                day,
            )[i]).kind == SurfacedKind::Task,
    decreases tasks.len(),
{
    if tasks.len() > 0 {
        tasks_are_no_meals(tasks.drop_last(), reads, day);
        let read = reads[tasks.len() - 1];
        if read is Ok {
            task_instances_are_tasks(tasks.last(), read->Ok_0@, day);
        }
        let before = task_candidates(tasks.drop_last(), reads, day);
        let more = task_contribution(tasks.last(), read, day);
        let all = task_candidates(tasks, reads, day);
        assert forall|i: int| 0 <= i < all.len() implies (#[trigger] all[i]).kind
            == SurfacedKind::Task by {
            if i < before.len() {
                assert(all[i] == before[i]);
            } else {
                assert(all[i] == more[i - before.len()]);
            }
        }
    }
}

proof fn task_instances_are_tasks(task: Task, instances: Seq<TaskInstance>, day: int)
    ensures
        forall|i: int|
            0 <= i < instance_candidates(task, instances, day).len() ==> (
            #[trigger] instance_candidates(task, instances, day)[i]).kind == SurfacedKind::Task,
    decreases instances.len(),
{
    if instances.len() > 0 {
        task_instances_are_tasks(task, instances.drop_last(), day);
        let fewer = instance_candidates(task, instances.drop_last(), day);
        let all = instance_candidates(task, instances, day);
        assert forall|i: int| 0 <= i < all.len() implies (#[trigger] all[i]).kind
            == SurfacedKind::Task by {
            if i < fewer.len() {
                assert(all[i] == fewer[i]);
            }
        }
    }
}

proof fn events_are_no_meals(
    events: Seq<Event>,
    reads: Seq<Result<Vec<EventInstance>, StorageFailure>>,
    overrides: Seq<EventOverride>,
    day: int,
)
    ensures
        forall|i: int|
            0 <= i < event_candidates(events, reads, overrides, day).len() ==> (
            #[trigger] event_candidates(events, reads, overrides, day)[i]).kind
                == SurfacedKind::Event,
    decreases events.len(),
{
    if events.len() > 0 {
        events_are_no_meals(events.drop_last(), reads, overrides, day);
        let read = reads[events.len() - 1];
        let event = events.last();
        if read is Ok {
            occurrences_are_events(
                event,
                read->Ok_0@,
                applied_overlay(overrides, event.id),
                day,
            );
        }
        let before = event_candidates(events.drop_last(), reads, overrides, day);
        let more = event_contribution(event, read, overrides, day);
        let all = event_candidates(events, reads, overrides, day);
        assert forall|i: int| 0 <= i < all.len() implies (#[trigger] all[i]).kind
            == SurfacedKind::Event by {
            if i < before.len() {
                assert(all[i] == before[i]);
            } else {
                assert(all[i] == more[i - before.len()]);
            }
        }
    }
}

proof fn occurrences_are_events(
    event: Event,
    instances: Seq<EventInstance>,
    overlay: Option<EventOverride>,
    day: int,
)
    ensures
        forall|i: int|
            0 <= i < occurrence_candidates(event, instances, overlay, day).len() ==> (
            #[trigger] occurrence_candidates(event, instances, overlay, day)[i]).kind
                == SurfacedKind::Event,
    decreases instances.len(),
{
    if instances.len() > 0 {
        occurrences_are_events(event, instances.drop_last(), overlay, day);
        let fewer = occurrence_candidates(event, instances.drop_last(), overlay, day);
        let all = occurrence_candidates(event, instances, overlay, day);
        assert forall|i: int| 0 <= i < all.len() implies (#[trigger] all[i]).kind
            == SurfacedKind::Event by {
            if i < fewer.len() {
                assert(all[i] == fewer[i]);
            }
        }
    }
}

} // verus!
