//! The Today and Week views.

use vstd::prelude::*;

use crate::api::surfacing::{
    applied_index, applied_overlay, contents, dinner_candidates, event_candidates,
    event_contribution, instance_candidates, is_cancelled, is_native_one_shot,
    latest_overlay_is_applied, meal_candidates, occurrence_candidates, placed_on, show_all,
    show_week, task_candidates, task_contribution, week_candidates_of, Candidate, DayReads,
    EventReads, Liveness, PlannedDay, SurfaceCandidate, SurfacedKind, Timing, WeekDayResponse,
    READ_AHEAD_DAYS,
};
use crate::dates::{parsed_rfc3339, Moment, Timestamp};
use crate::ids::hyphenated;
use crate::model::event::{
    Event, EventInstance, EventOverride, EventSourceKind, OverrideAction,
};
use crate::model::meal::{Meal, MealSlot};
use crate::model::task::{Task, TaskInstance, TaskStatus};
use crate::reply::StorageFailure;

verus! {

// ─── Tasks ────────────────────────────────────────────────────────────────────

/// Whether two times that may be absent are both absent or the same moment.
pub open spec fn is_same_time(one: Option<Timestamp>, other: Option<Timestamp>) -> bool {
    &&& one is Some <==> other is Some
    &&& one is Some ==> one->0@ == other->0@
}

/// Whether a candidate speaks of a task: its name, its rank, and whether it is
/// still to be done.
pub open spec fn speaks_of_task(candidate: SurfaceCandidate, task: Task) -> bool {
    &&& candidate.kind == SurfacedKind::Task
    &&& candidate.source_id@ == hyphenated(task.id.0)
    &&& candidate.title@ == task.title@
    &&& candidate.liveness == Liveness::Live <==> (task.status == TaskStatus::Open || task.status
        == TaskStatus::Doing)
    &&& !candidate.all_day
    &&& candidate.priority == task.priority
    &&& candidate.annotation is None
    &&& !candidate.rescheduled
}

/// Whether a candidate is that of a one-shot task: open from when the task may
/// be started to when it is due.
pub open spec fn is_one_shot_candidate(candidate: SurfaceCandidate, task: Task) -> bool {
    &&& speaks_of_task(candidate, task)
    &&& candidate.current_assignee_id == task.current_assignee_id
    &&& candidate.timing matches Timing::Window { earliest_at, due_by } && is_same_time(
        earliest_at,
        task.earliest_at,
    ) && is_same_time(due_by, task.due_by)
}

/// Whether a candidate is that of an instance of a recurring task.
pub open spec fn is_instance_candidate(
    candidate: SurfaceCandidate,
    task: Task,
    instance: TaskInstance,
) -> bool {
    &&& speaks_of_task(candidate, task)
    &&& candidate.timing matches Timing::Scheduled(at) && at@ == instance.scheduled_at@
    &&& instance.current_assignee_id is Some ==> candidate.current_assignee_id
        == instance.current_assignee_id
    &&& instance.current_assignee_id is None ==> candidate.current_assignee_id
        == task.current_assignee_id
}

proof fn single_task(task: Task, read: Result<Vec<TaskInstance>, StorageFailure>, day: int)
    ensures
        task_candidates(seq![task], seq![read], day) == task_contribution(task, read, day),
{
    let tasks = seq![task];
    assert(tasks.drop_last() =~= Seq::empty());
    assert(task_candidates(tasks.drop_last(), seq![read], day) =~= Seq::empty());
    assert(task_candidates(tasks, seq![read], day) =~= task_contribution(task, read, day));
}

/// A one-shot task is exactly one candidate on any day, with the window that the
/// task itself has: no more and no less of it is open.
pub proof fn one_shot_task_carries_its_window(
    task: Task,
    read: Result<Vec<TaskInstance>, StorageFailure>,
    day: int,
    candidates: Seq<SurfaceCandidate>,
)
    requires
        task.recurrence is None,
        contents(candidates) == task_candidates(seq![task], seq![read], day),
    ensures
        candidates.len() == 1,
        is_one_shot_candidate(candidates[0], task),
{
    single_task(task, read, day);
    assert(contents(candidates).len() == candidates.len());
    assert(contents(candidates)[0] == candidates[0]@);
}

proof fn instances_of_the_day(task: Task, instances: Seq<TaskInstance>, day: int)
    ensures
        ({
            let found = instances.filter(|i: TaskInstance| i.scheduled_at@.julian_day == day);
            let made = instance_candidates(task, instances, day);
            &&& made.len() == found.len()
            &&& forall|k: int|
                0 <= k < found.len() ==> #[trigger] made[k]
                    == crate::api::surfacing::instance_candidate(task, found[k])
        }),
    decreases instances.len(),
{
    reveal(Seq::filter);
    if instances.len() > 0 {
        instances_of_the_day(task, instances.drop_last(), day);
    }
}

/// A recurring task is one candidate for each of its instances whose local date
/// is the day, in their order, and no other.
pub proof fn recurring_task_is_its_instances_of_the_day(
    task: Task,
    instances: Vec<TaskInstance>,
    day: int,
    candidates: Seq<SurfaceCandidate>,
)
    requires
        task.recurrence is Some,
        contents(candidates) == task_candidates(
            seq![task],
            seq![Ok::<Vec<TaskInstance>, StorageFailure>(instances)],
            day,
        ),
    ensures
        ({
            let found = instances@.filter(|i: TaskInstance| i.scheduled_at@.julian_day == day);
            &&& candidates.len() == found.len()
            &&& forall|k: int|
                0 <= k < found.len() ==> is_instance_candidate(
                    #[trigger] candidates[k],
                    task,
                    found[k],
                )
        }),
{
    single_task(task, Ok(instances), day);
    instances_of_the_day(task, instances@, day);
    let found = instances@.filter(|i: TaskInstance| i.scheduled_at@.julian_day == day);
    assert(contents(candidates).len() == candidates.len());
    assert forall|k: int| 0 <= k < found.len() implies is_instance_candidate(
        #[trigger] candidates[k],
        task,
        found[k],
    ) by {
        assert(contents(candidates)[k] == candidates[k]@);
        assert(instance_candidates(task, instances@, day)[k]
            == crate::api::surfacing::instance_candidate(task, found[k]));
    }
}

/// A recurring task whose instances could not be read is no candidate.
pub proof fn unread_task_is_no_candidate(task: Task, failure: StorageFailure, day: int)
    requires
        task.recurrence is Some,
    ensures
        task_candidates(
            seq![task],
            seq![Err::<Vec<TaskInstance>, StorageFailure>(failure)],
            day,
        ).len() == 0,
{
    single_task(task, Err(failure), day);
}

proof fn task_reads_count_up_to_the_tasks(
    tasks: Seq<Task>,
    one: Seq<Result<Vec<TaskInstance>, StorageFailure>>,
    other: Seq<Result<Vec<TaskInstance>, StorageFailure>>,
    day: int,
)
    requires
        forall|k: int| 0 <= k < tasks.len() ==> one[k] == other[k],
    ensures
        task_candidates(tasks, one, day) == task_candidates(tasks, other, day),
    decreases tasks.len(),
{
    if tasks.len() > 0 {
        task_reads_count_up_to_the_tasks(tasks.drop_last(), one, other, day);
        assert(one[tasks.len() - 1] == other[tasks.len() - 1]);
    }
}

/// Tasks do not get in each other's way: the candidates of two lists of tasks,
/// put together, are those of the one followed by those of the other.
pub proof fn tasks_are_candidates_side_by_side(
    tasks: Seq<Task>,
    reads: Seq<Result<Vec<TaskInstance>, StorageFailure>>,
    more_tasks: Seq<Task>,
    more_reads: Seq<Result<Vec<TaskInstance>, StorageFailure>>,
    day: int,
)
    requires
        reads.len() == tasks.len(),
        more_reads.len() == more_tasks.len(),
    ensures
        task_candidates(tasks + more_tasks, reads + more_reads, day) == task_candidates(
            tasks,
            reads,
            day,
        ) + task_candidates(more_tasks, more_reads, day),
    decreases more_tasks.len(),
{
    let all = tasks + more_tasks;
    let all_reads = reads + more_reads;
    if more_tasks.len() == 0 {
        assert(all =~= tasks);
        assert(all_reads =~= reads);
        assert(task_candidates(more_tasks, more_reads, day) =~= Seq::empty());
        assert(task_candidates(tasks, reads, day) + Seq::<Candidate>::empty() =~= task_candidates(
            tasks,
            reads,
            day,
        ));
    } else {
        let fewer = more_tasks.drop_last();
        let fewer_reads = more_reads.drop_last();
        tasks_are_candidates_side_by_side(tasks, reads, fewer, fewer_reads, day);
        assert(all.drop_last() =~= tasks + fewer);
        assert(all.last() == more_tasks.last());
        assert(all_reads[all.len() - 1] == more_reads[more_tasks.len() - 1]);
        task_reads_count_up_to_the_tasks(tasks + fewer, reads + fewer_reads, all_reads, day);
        task_reads_count_up_to_the_tasks(fewer, fewer_reads, more_reads, day);
        let last = task_contribution(more_tasks.last(), more_reads[more_tasks.len() - 1], day);
        assert((task_candidates(tasks, reads, day) + task_candidates(fewer, more_reads, day)) + last
            =~= task_candidates(tasks, reads, day) + (task_candidates(fewer, more_reads, day)
            + last));
    }
}

proof fn task_is_in_its_place(
    tasks: Seq<Task>,
    reads: Seq<Result<Vec<TaskInstance>, StorageFailure>>,
    day: int,
    i: int,
) -> (at: int)
    requires
        reads.len() == tasks.len(),
        0 <= i < tasks.len(),
    ensures
        ({
            let all = task_candidates(tasks, reads, day);
            let own = task_candidates(seq![tasks[i]], seq![reads[i]], day);
            &&& 0 <= at
            &&& at + own.len() <= all.len()
            &&& all.subrange(at, at + own.len()) == own
        }),
{
    let (head, tail) = (tasks.take(i), tasks.skip(i + 1));
    let (head_reads, tail_reads) = (reads.take(i), reads.skip(i + 1));
    let own = seq![tasks[i]];
    let own_reads = seq![reads[i]];
    tasks_are_candidates_side_by_side(head, head_reads, own, own_reads, day);
    tasks_are_candidates_side_by_side(head + own, head_reads + own_reads, tail, tail_reads, day);
    assert(head + own + tail =~= tasks);
    assert(head_reads + own_reads + tail_reads =~= reads);
    let at = task_candidates(head, head_reads, day).len() as int;
    let mine = task_candidates(own, own_reads, day);
    assert(task_candidates(tasks, reads, day).subrange(at, at + mine.len()) =~= mine);
    at
}

/// Every one-shot task is a candidate of every day, with its own window.
pub proof fn every_one_shot_task_is_a_candidate(
    tasks: Seq<Task>,
    reads: Seq<Result<Vec<TaskInstance>, StorageFailure>>,
    day: int,
    candidates: Seq<SurfaceCandidate>,
    i: int,
)
    requires
        reads.len() == tasks.len(),
        contents(candidates) == task_candidates(tasks, reads, day),
        0 <= i < tasks.len(),
        tasks[i].recurrence is None,
    ensures
        exists|k: int|
            0 <= k < candidates.len() && is_one_shot_candidate(#[trigger] candidates[k], tasks[i]),
{
    let at = task_is_in_its_place(tasks, reads, day, i);
    let own = task_candidates(seq![tasks[i]], seq![reads[i]], day);
    single_task(tasks[i], reads[i], day);
    assert(own.len() == 1);
    let mine = candidates.subrange(at, at + 1);
    assert(contents(candidates).len() == candidates.len());
    assert(contents(mine) =~= contents(candidates).subrange(at, at + 1));
    one_shot_task_carries_its_window(tasks[i], reads[i], day, mine);
    assert(mine[0] == candidates[at]);
}

/// Every instance of a recurring task whose local date is the day is a
/// candidate of the day.
pub proof fn every_instance_of_the_day_is_a_candidate(
    tasks: Seq<Task>,
    reads: Seq<Result<Vec<TaskInstance>, StorageFailure>>,
    day: int,
    candidates: Seq<SurfaceCandidate>,
    i: int,
    j: int,
)
    requires
        reads.len() == tasks.len(),
        contents(candidates) == task_candidates(tasks, reads, day),
        0 <= i < tasks.len(),
        tasks[i].recurrence is Some,
        reads[i] is Ok,
        0 <= j < reads[i]->Ok_0@.len(),
        reads[i]->Ok_0@[j].scheduled_at@.julian_day == day,
    ensures
        exists|k: int|
            0 <= k < candidates.len() && is_instance_candidate(
                #[trigger] candidates[k],
                tasks[i],
                reads[i]->Ok_0@[j],
            ),
{
    let at = task_is_in_its_place(tasks, reads, day, i);
    let own = task_candidates(seq![tasks[i]], seq![reads[i]], day);
    let instances = reads[i]->Ok_0;
    let mine = candidates.subrange(at, at + own.len());
    assert(contents(candidates).len() == candidates.len());
    assert(contents(mine) =~= contents(candidates).subrange(at, at + own.len()));
    recurring_task_is_its_instances_of_the_day(tasks[i], instances, day, mine);
    let wanted = |x: TaskInstance| x.scheduled_at@.julian_day == day;
    let found = instances@.filter(wanted);
    instances@.lemma_filter_contains(wanted, j);
    let k = choose|k: int| 0 <= k < found.len() && found[k] == instances@[j];
    assert(is_instance_candidate(mine[k], tasks[i], found[k]));
    assert(mine[k] == candidates[at + k]);
}

// ─── Events ───────────────────────────────────────────────────────────────────

/// Whether a candidate speaks of an event.
pub open spec fn speaks_of_event(candidate: SurfaceCandidate, event: Event) -> bool {
    &&& candidate.kind == SurfacedKind::Event
    &&& candidate.source_id@ == hyphenated(event.id.0)
    &&& candidate.title@ == event.title@
    &&& candidate.liveness == Liveness::Live
    &&& candidate.all_day == event.all_day
    &&& candidate.priority is None
    &&& candidate.current_assignee_id is None
}

/// Whether a candidate is that of an occurrence at `at` that no one touched.
pub open spec fn is_plain_occurrence(candidate: SurfaceCandidate, event: Event, at: Moment) -> bool {
    &&& speaks_of_event(candidate, event)
    &&& candidate.timing matches Timing::Scheduled(then) && then@ == at
    &&& candidate.annotation is None
    &&& !candidate.rescheduled
}

/// Whether a candidate is that of an occurrence at `at` under an overlay: moved to
/// the time that a reschedule gives, or noted with the text of an annotation.
pub open spec fn is_overlaid_occurrence(
    candidate: SurfaceCandidate,
    event: Event,
    at: Moment,
    overlay: EventOverride,
) -> bool {
    let new = if overlay.action == OverrideAction::Reschedule && overlay.payload is Some {
        parsed_rfc3339(overlay.payload->0@)
    } else {
        None
    };
    &&& speaks_of_event(candidate, event)
    &&& new is Some ==> candidate.rescheduled && candidate.timing is Scheduled
        && candidate.timing->Scheduled_0@ == new->0
    &&& new is None ==> !candidate.rescheduled && candidate.timing is Scheduled
        && candidate.timing->Scheduled_0@ == at
    &&& overlay.action == OverrideAction::Annotate && overlay.payload is Some
        ==> candidate.annotation is Some && candidate.annotation->0@ == overlay.payload->0@
    &&& overlay.action != OverrideAction::Annotate || overlay.payload is None
        ==> candidate.annotation is None
}

/// Whether overlay `i` is the one that counts for an event: it moves or annotates
/// the event, and of all that do it is the latest, the first of several that are.
pub open spec fn is_latest_overlay(
    overrides: Seq<EventOverride>,
    event: Event,
    i: int,
) -> bool {
    &&& 0 <= i < overrides.len()
    &&& overrides[i].source_event_id == event.id
    &&& overrides[i].action != OverrideAction::Cancel
    &&& forall|k: int|
        0 <= k < overrides.len() && (#[trigger] overrides[k]).source_event_id == event.id
            && overrides[k].action != OverrideAction::Cancel ==> {
            &&& overrides[k].created_at@.instant() <= overrides[i].created_at@.instant()
            &&& k < i ==> overrides[k].created_at@.instant() < overrides[i].created_at@.instant()
        }
}

/// When an event takes place on a day: at its start if it is native and does not
/// recur, and otherwise at the times that were read of it.
pub open spec fn times_on_day(
    event: Event,
    read: Result<Vec<EventInstance>, StorageFailure>,
    day: int,
) -> Seq<Moment> {
    if event.recurrence is None && event.source.kind == EventSourceKind::Native {
        if event.start_at@.julian_day == day {
            seq![event.start_at@]
        } else {
            Seq::empty()
        }
    } else {
        match read {
            Ok(instances) => instances@.map_values(|i: EventInstance| i.scheduled_at@).filter(
                |at: Moment| at.julian_day == day,
            ),
            Err(_) => Seq::empty(),
        }
    }
}

proof fn single_event(
    event: Event,
    read: Result<Vec<EventInstance>, StorageFailure>,
    overrides: Seq<EventOverride>,
    day: int,
)
    ensures
        event_candidates(seq![event], seq![read], overrides, day) == event_contribution(
            event,
            read,
            overrides,
            day,
        ),
{
    let events = seq![event];
    assert(events.drop_last() =~= Seq::empty());
    assert(event_candidates(events.drop_last(), seq![read], overrides, day) =~= Seq::empty());
    assert(event_candidates(events, seq![read], overrides, day) =~= event_contribution(
        event,
        read,
        overrides,
        day,
    ));
}

/// An event that an overlay of the day cancels is no candidate of the day,
/// wherever among the overlays the cancellation stands and whatever else they do.
pub proof fn cancelled_event_is_no_candidate(
    event: Event,
    read: Result<Vec<EventInstance>, StorageFailure>,
    overrides: Seq<EventOverride>,
    day: int,
    i: int,
)
    requires
        0 <= i < overrides.len(),
        overrides[i].source_event_id == event.id,
        overrides[i].action == OverrideAction::Cancel,
    ensures
        event_candidates(seq![event], seq![read], overrides, day).len() == 0,
        is_cancelled(overrides, event.id),
{
    single_event(event, read, overrides, day);
}

/// Among the events of a day, a cancelled one leaves no trace: the candidates are
/// those there would be without it.
pub proof fn cancelling_takes_just_the_event(
    events: Seq<Event>,
    reads: Seq<Result<Vec<EventInstance>, StorageFailure>>,
    overrides: Seq<EventOverride>,
    day: int,
    e: int,
    i: int,
)
    requires
        reads.len() == events.len(),
        0 <= e < events.len(),
        0 <= i < overrides.len(),
        overrides[i].source_event_id == events[e].id,
        overrides[i].action == OverrideAction::Cancel,
    ensures
        event_candidates(events, reads, overrides, day) == event_candidates(
            events.remove(e),
            reads.remove(e),
            overrides,
            day,
        ),
{
    cancelled_event_is_no_candidate(events[e], reads[e], overrides, day, i);
    crate::api::surfacing::cancelled_event_is_hidden(events, reads, overrides, day, e);
}

/// An event is held to be cancelled only if an overlay of the day says so of that
/// very event.
pub proof fn only_a_cancellation_cancels(overrides: Seq<EventOverride>, event: Event)
    requires
        is_cancelled(overrides, event.id),
    ensures
        exists|i: int|
            0 <= i < overrides.len() && (#[trigger] overrides[i]).source_event_id == event.id
                && overrides[i].action == OverrideAction::Cancel,
{
}

proof fn occurrences_of_the_day(
    event: Event,
    instances: Seq<EventInstance>,
    overlay: Option<EventOverride>,
    day: int,
)
    ensures
        ({
            let times = instances.map_values(|i: EventInstance| i.scheduled_at@).filter(
                |at: Moment| at.julian_day == day,
            );
            let made = occurrence_candidates(event, instances, overlay, day);
            &&& made.len() == times.len()
            &&& forall|k: int|
                0 <= k < times.len() ==> #[trigger] made[k]
                    == crate::api::surfacing::occurrence_candidate(
                    event,
                    times[k],
                    crate::api::surfacing::moved_to(overlay),
                    crate::api::surfacing::noted(overlay),
                )
        }),
    decreases instances.len(),
{
    reveal(Seq::filter);
    let all = instances.map_values(|i: EventInstance| i.scheduled_at@);
    if instances.len() > 0 {
        occurrences_of_the_day(event, instances.drop_last(), overlay, day);
        assert(all.drop_last() =~= instances.drop_last().map_values(
            |i: EventInstance| i.scheduled_at@,
        ));
        assert(all.last() == instances.last().scheduled_at@);
    }
}

proof fn contribution_follows_the_times(
    event: Event,
    read: Result<Vec<EventInstance>, StorageFailure>,
    overrides: Seq<EventOverride>,
    day: int,
)
    requires
        forall|k: int|
            0 <= k < overrides.len() && (#[trigger] overrides[k]).source_event_id == event.id
                ==> overrides[k].action != OverrideAction::Cancel,
    ensures
        ({
            let times = times_on_day(event, read, day);
            let overlay = applied_overlay(overrides, event.id);
            let made = event_contribution(event, read, overrides, day);
            &&& made.len() == times.len()
            &&& forall|k: int|
                0 <= k < times.len() ==> #[trigger] made[k]
                    == crate::api::surfacing::occurrence_candidate(
                    event,
                    times[k],
                    crate::api::surfacing::moved_to(overlay),
                    crate::api::surfacing::noted(overlay),
                )
        }),
{
    assert(!is_cancelled(overrides, event.id));
    assert(is_native_one_shot(event) <==> event.recurrence is None && event.source.kind
        == EventSourceKind::Native);
    if !is_native_one_shot(event) && read is Ok {
        occurrences_of_the_day(
            event,
            read->Ok_0@,
            applied_overlay(overrides, event.id),
            day,
        );
    }
}

/// An event that no overlay of the day speaks of is one candidate for each time
/// that it takes place on the day, in order and as it is. Overlays of other
/// events do not touch it.
pub proof fn untouched_event_is_shown_as_it_is(
    event: Event,
    read: Result<Vec<EventInstance>, StorageFailure>,
    overrides: Seq<EventOverride>,
    day: int,
    candidates: Seq<SurfaceCandidate>,
)
    requires
        forall|k: int|
            0 <= k < overrides.len() ==> (#[trigger] overrides[k]).source_event_id != event.id,
        contents(candidates) == event_candidates(seq![event], seq![read], overrides, day),
    ensures
        candidates.len() == times_on_day(event, read, day).len(),
        forall|k: int|
            0 <= k < candidates.len() ==> is_plain_occurrence(
                #[trigger] candidates[k],
                event,
                times_on_day(event, read, day)[k],
            ),
{
    single_event(event, read, overrides, day);
    contribution_follows_the_times(event, read, overrides, day);
    latest_overlay_is_applied(overrides, event.id);
    assert(applied_index(overrides, event.id) is None);
    let made = event_contribution(event, read, overrides, day);
    assert(contents(candidates).len() == candidates.len());
    assert forall|k: int| 0 <= k < candidates.len() implies is_plain_occurrence(
        #[trigger] candidates[k],
        event,
        times_on_day(event, read, day)[k],
    ) by {
        assert(contents(candidates)[k] == candidates[k]@);
        assert(contents(candidates)[k] == made[k]);
    }
}

/// An event that is not cancelled is one candidate for each time that it takes
/// place on the day, under the latest overlay that moves or annotates it.
pub proof fn latest_overlay_shapes_the_event(
    event: Event,
    read: Result<Vec<EventInstance>, StorageFailure>,
    overrides: Seq<EventOverride>,
    i: int,
    day: int,
    candidates: Seq<SurfaceCandidate>,
)
    requires
        forall|k: int|
            0 <= k < overrides.len() && (#[trigger] overrides[k]).source_event_id == event.id
                ==> overrides[k].action != OverrideAction::Cancel,
        is_latest_overlay(overrides, event, i),
        contents(candidates) == event_candidates(seq![event], seq![read], overrides, day),
    ensures
        candidates.len() == times_on_day(event, read, day).len(),
        forall|k: int|
            0 <= k < candidates.len() ==> is_overlaid_occurrence(
                #[trigger] candidates[k],
                event,
                times_on_day(event, read, day)[k],
                overrides[i],
            ),
{
    single_event(event, read, overrides, day);
    contribution_follows_the_times(event, read, overrides, day);
    latest_overlay_is_applied(overrides, event.id);
    let found = applied_index(overrides, event.id);
    assert(found is Some);
    assert(overrides[found->0].source_event_id == event.id);
    assert(found->0 == i);
    assert(applied_overlay(overrides, event.id) == Some(overrides[i]));
    let made = event_contribution(event, read, overrides, day);
    assert(contents(candidates).len() == candidates.len());
    assert forall|k: int| 0 <= k < candidates.len() implies is_overlaid_occurrence(
        #[trigger] candidates[k],
        event,
        times_on_day(event, read, day)[k],
        overrides[i],
    ) by {
        assert(contents(candidates)[k] == candidates[k]@);
        assert(contents(candidates)[k] == made[k]);
    }
}

proof fn event_reads_count_up_to_the_events(
    events: Seq<Event>,
    one: Seq<Result<Vec<EventInstance>, StorageFailure>>,
    other: Seq<Result<Vec<EventInstance>, StorageFailure>>,
    overrides: Seq<EventOverride>,
    day: int,
)
    requires
        forall|k: int| 0 <= k < events.len() ==> one[k] == other[k],
    ensures
        event_candidates(events, one, overrides, day) == event_candidates(
            events,
            other,
            overrides,
            day,
        ),
    decreases events.len(),
{
    if events.len() > 0 {
        event_reads_count_up_to_the_events(events.drop_last(), one, other, overrides, day);
        assert(one[events.len() - 1] == other[events.len() - 1]);
    }
}

/// Events do not get in each other's way: the candidates of two lists of events,
/// put together, are those of the one followed by those of the other.
pub proof fn events_are_candidates_side_by_side(
    events: Seq<Event>,
    reads: Seq<Result<Vec<EventInstance>, StorageFailure>>,
    more_events: Seq<Event>,
    more_reads: Seq<Result<Vec<EventInstance>, StorageFailure>>,
    overrides: Seq<EventOverride>,
    day: int,
)
    requires
        reads.len() == events.len(),
        more_reads.len() == more_events.len(),
    ensures
        event_candidates(events + more_events, reads + more_reads, overrides, day)
            == event_candidates(events, reads, overrides, day) + event_candidates(
            more_events,
            more_reads,
            overrides,
            day,
        ),
    decreases more_events.len(),
{
    let all = events + more_events;
    let all_reads = reads + more_reads;
    let first = event_candidates(events, reads, overrides, day);
    if more_events.len() == 0 {
        assert(all =~= events);
        assert(all_reads =~= reads);
        assert(event_candidates(more_events, more_reads, overrides, day) =~= Seq::empty());
        assert(first + Seq::<Candidate>::empty() =~= first);
    } else {
        let fewer = more_events.drop_last();
        let fewer_reads = more_reads.drop_last();
        events_are_candidates_side_by_side(events, reads, fewer, fewer_reads, overrides, day);
        assert(all.drop_last() =~= events + fewer);
        assert(all.last() == more_events.last());
        assert(all_reads[all.len() - 1] == more_reads[more_events.len() - 1]);
        event_reads_count_up_to_the_events(
            events + fewer,
            reads + fewer_reads,
            all_reads,
            overrides,
            day,
        );
        event_reads_count_up_to_the_events(fewer, fewer_reads, more_reads, overrides, day);
        let middle = event_candidates(fewer, more_reads, overrides, day);
        let last = event_contribution(
            more_events.last(),
            more_reads[more_events.len() - 1],
            overrides,
            day,
        );
        assert((first + middle) + last =~= first + (middle + last));
    }
}

/// What was read of a day counts as it was read: the events that were read, under
/// the overlays that were read. Overlays that could not be read are none, and
/// without the events there is no candidate.
pub proof fn events_count_as_they_were_read(reads: EventReads, day: int)
    ensures
        reads.events is Err ==> reads.candidates(day).len() == 0,
        reads.events is Ok && reads.overrides is Ok ==> reads.candidates(day) == event_candidates(
            reads.events->Ok_0@,
            reads.instances@,
            reads.overrides->Ok_0@,
            day,
        ),
        reads.events is Ok && reads.overrides is Err ==> reads.candidates(day) == event_candidates(
            reads.events->Ok_0@,
            reads.instances@,
            Seq::empty(),
            day,
        ),
{
}

// ─── Meals ────────────────────────────────────────────────────────────────────

/// Whether a candidate is that of a dinner: it leads its day from midnight on,
/// and the cook is shown as doing it.
pub open spec fn is_dinner_candidate(candidate: SurfaceCandidate, meal: Meal, day: int) -> bool {
    &&& candidate.kind == SurfacedKind::Meal
    &&& candidate.source_id@ == hyphenated(meal.id.0)
    &&& candidate.title@ == meal.name@
    &&& candidate.liveness == Liveness::Live
    &&& candidate.timing matches Timing::Scheduled(at) && at@.julian_day == day
        && at@.nanos_of_day == 0 && at@.offset_seconds == 0
    &&& candidate.all_day
    &&& candidate.priority is None
    &&& candidate.current_assignee_id == meal.cook
    &&& candidate.annotation is None
    &&& !candidate.rescheduled
}

proof fn dinners_of_the_day(meals: Seq<Meal>, day: int)
    ensures
        ({
            let dinners = meals.filter(|m: Meal| m.slot == MealSlot::Dinner);
            let made = dinner_candidates(meals, day);
            &&& made.len() == dinners.len()
            &&& forall|k: int|
                0 <= k < dinners.len() ==> #[trigger] made[k]
                    == crate::api::surfacing::meal_candidate(dinners[k], day)
        }),
    decreases meals.len(),
{
    reveal(Seq::filter);
    if meals.len() > 0 {
        dinners_of_the_day(meals.drop_last(), day);
    }
}

/// Of the meals of a day its dinners are candidates, each of them, in their
/// order, and no other meal is.
pub proof fn dinners_are_candidates(
    meals: Vec<Meal>,
    day: int,
    candidates: Seq<SurfaceCandidate>,
)
    requires
        contents(candidates) == meal_candidates(Ok(meals), day),
    ensures
        ({
            let dinners = meals@.filter(|m: Meal| m.slot == MealSlot::Dinner);
            &&& candidates.len() == dinners.len()
            &&& forall|k: int|
                0 <= k < dinners.len() ==> is_dinner_candidate(
                    #[trigger] candidates[k],
                    dinners[k],
                    day,
                )
        }),
{
    dinners_of_the_day(meals@, day);
    let dinners = meals@.filter(|m: Meal| m.slot == MealSlot::Dinner);
    assert(contents(candidates).len() == candidates.len());
    assert forall|k: int| 0 <= k < dinners.len() implies is_dinner_candidate(
        #[trigger] candidates[k],
        dinners[k],
        day,
    ) by {
        assert(contents(candidates)[k] == candidates[k]@);
        assert(contents(candidates)[k] == dinner_candidates(meals@, day)[k]);
    }
}

// ─── Week ─────────────────────────────────────────────────────────────────────

/// The candidates of the tasks and events of one day of a week.
pub open spec fn of_one_day(
    tasks: Seq<Task>,
    reads: Seq<DayReads>,
    start: int,
    d: int,
) -> Seq<Candidate> {
    task_candidates(tasks, reads[d].task_instances@, start + d) + reads[d].events.candidates(
        start + d,
    )
}

/// The candidates of a week are those of its seven days, Monday to Sunday, each
/// with what was read for it; none is left out and none comes twice.
pub proof fn week_is_its_seven_days(
    tasks: Seq<Task>,
    reads: Seq<DayReads>,
    start: int,
    candidates: Seq<SurfaceCandidate>,
)
    requires
        contents(candidates) == week_candidates_of(tasks, reads, start, 7),
    ensures
        contents(candidates) == of_one_day(tasks, reads, start, 0) + of_one_day(
            tasks,
            reads,
            start,
            1,
        ) + of_one_day(tasks, reads, start, 2) + of_one_day(tasks, reads, start, 3) + of_one_day(
            tasks,
            reads,
            start,
            4,
        ) + of_one_day(tasks, reads, start, 5) + of_one_day(tasks, reads, start, 6),
{
    reveal_with_fuel(week_candidates_of, 8);
    assert(week_candidates_of(tasks, reads, start, 0) =~= Seq::empty());
    assert(Seq::<Candidate>::empty() + of_one_day(tasks, reads, start, 0) =~= of_one_day(
        tasks,
        reads,
        start,
        0,
    ));
}

proof fn day_is_in_its_place(
    tasks: Seq<Task>,
    reads: Seq<DayReads>,
    start: int,
    days: int,
    d: int,
) -> (at: int)
    requires
        0 <= d < days,
    ensures
        ({
            let all = week_candidates_of(tasks, reads, start, days);
            let own = of_one_day(tasks, reads, start, d);
            &&& 0 <= at
            &&& at + own.len() <= all.len()
            &&& all.subrange(at, at + own.len()) == own
        }),
    decreases days,
{
    let before = week_candidates_of(tasks, reads, start, days - 1);
    let all = week_candidates_of(tasks, reads, start, days);
    let own = of_one_day(tasks, reads, start, d);
    if d == days - 1 {
        let at = before.len() as int;
        assert(all.subrange(at, at + own.len()) =~= own);
        at
    } else {
        let at = day_is_in_its_place(tasks, reads, start, days - 1, d);
        assert(all.subrange(at, at + own.len()) =~= before.subrange(at, at + own.len()));
        at
    }
}

/// Whatever is a candidate of one of the seven days, of its tasks or of its
/// events, is a candidate of the week.
pub proof fn every_day_is_in_its_week(
    tasks: Seq<Task>,
    reads: Seq<DayReads>,
    start: int,
    candidates: Seq<SurfaceCandidate>,
    d: int,
    candidate: Candidate,
)
    requires
        contents(candidates) == week_candidates_of(tasks, reads, start, 7),
        0 <= d < 7,
        task_candidates(tasks, reads[d].task_instances@, start + d).contains(candidate)
            || reads[d].events.candidates(start + d).contains(candidate),
    ensures
        exists|k: int| 0 <= k < candidates.len() && (#[trigger] candidates[k])@ == candidate,
{
    let at = day_is_in_its_place(tasks, reads, start, 7, d);
    let of_tasks = task_candidates(tasks, reads[d].task_instances@, start + d);
    let of_events = reads[d].events.candidates(start + d);
    let own = of_one_day(tasks, reads, start, d);
    assert(own.contains(candidate)) by {
        if of_tasks.contains(candidate) {
            let k = choose|k: int| 0 <= k < of_tasks.len() && of_tasks[k] == candidate;
            assert(own[k] == candidate);
        } else {
            let k = choose|k: int| 0 <= k < of_events.len() && of_events[k] == candidate;
            assert(own[of_tasks.len() + k] == candidate);
        }
    }
    let k = choose|k: int| 0 <= k < own.len() && own[k] == candidate;
    let all = contents(candidates);
    assert(all.subrange(at, at + own.len())[k] == all[at + k]);
    assert(all.len() == candidates.len());
    assert(all[at + k] == candidates[at + k]@);
}

/// A native one-shot event that starts on one of the days of a week, and that no
/// overlay of that day speaks of, is a candidate of the week at its start.
pub proof fn event_of_any_day_is_in_its_week(
    tasks: Seq<Task>,
    reads: Seq<DayReads>,
    start: int,
    candidates: Seq<SurfaceCandidate>,
    d: int,
    e: int,
)
    requires
        contents(candidates) == week_candidates_of(tasks, reads, start, 7),
        0 <= d < 7,
        reads[d].events.events is Ok,
        reads[d].events.instances@.len() == reads[d].events.events->Ok_0@.len(),
        0 <= e < reads[d].events.events->Ok_0@.len(),
        ({
            let event = reads[d].events.events->Ok_0@[e];
            &&& event.recurrence is None
            &&& event.source.kind == EventSourceKind::Native
            &&& event.start_at@.julian_day == start + d
            &&& reads[d].events.overrides is Ok ==> forall|k: int|
                0 <= k < reads[d].events.overrides->Ok_0@.len() ==> (
                #[trigger] reads[d].events.overrides->Ok_0@[k]).source_event_id != event.id
        }),
    ensures
        exists|k: int|
            0 <= k < candidates.len() && is_plain_occurrence(
                #[trigger] candidates[k],
                reads[d].events.events->Ok_0@[e],
                reads[d].events.events->Ok_0@[e].start_at@,
            ),
{
    let of_day = reads[d].events;
    let events = of_day.events->Ok_0@;
    let event = events[e];
    let day = start + d;
    let overrides = of_day.overlays();
    let own = event_candidates(seq![event], seq![of_day.instances@[e]], overrides, day);
    single_event(event, of_day.instances@[e], overrides, day);
    contribution_follows_the_times(event, of_day.instances@[e], overrides, day);
    latest_overlay_is_applied(overrides, event.id);
    assert(own.len() == 1);
    events_are_candidates_side_by_side(
        events.take(e),
        of_day.instances@.take(e),
        seq![event],
        seq![of_day.instances@[e]],
        overrides,
        day,
    );
    events_are_candidates_side_by_side(
        events.take(e) + seq![event],
        of_day.instances@.take(e) + seq![of_day.instances@[e]],
        events.skip(e + 1),
        of_day.instances@.skip(e + 1),
        overrides,
        day,
    );
    assert(events.take(e) + seq![event] + events.skip(e + 1) =~= events);
    assert(of_day.instances@.take(e) + seq![of_day.instances@[e]] + of_day.instances@.skip(e + 1)
        =~= of_day.instances@);
    let before = event_candidates(events.take(e), of_day.instances@.take(e), overrides, day);
    assert(of_day.candidates(day)[before.len() as int] == own[0]);
    every_day_is_in_its_week(tasks, reads, start, candidates, d, own[0]);
    let k = choose|k: int| 0 <= k < candidates.len() && (#[trigger] candidates[k])@ == own[0];
    assert(is_plain_occurrence(candidates[k], event, event.start_at@));
}

/// The days of a layout are shown where they belong: a day that the layout has no
/// entry for is shown empty, and one with an entry shows what the first one holds.
pub proof fn laid_out_days_are_shown_in_their_place(
    responses: Seq<WeekDayResponse>,
    start: int,
    plan: Seq<PlannedDay>,
    d: int,
    p: int,
)
    requires
        show_week(responses, start, plan),
        0 <= d < 7,
    ensures
        responses.len() == 7,
        (forall|k: int| 0 <= k < plan.len() ==> (#[trigger] plan[k]).date@ != start + d)
            ==> responses[d].items@.len() == 0,
        0 <= p < plan.len() && plan[p].date@ == start + d && (forall|k: int|
            0 <= k < p ==> (#[trigger] plan[k]).date@ != start + d) ==> {
            &&& responses[d].items@.len() == plan[p].items@.len()
            &&& forall|k: int|
                0 <= k < plan[p].items@.len() ==> (#[trigger] responses[d].items@[k]).shows(
                    plan[p].items@[k],
                )
        },
{
    assert(show_all(responses[d].items@, placed_on(plan, start + d)));
    if forall|k: int| 0 <= k < plan.len() ==> (#[trigger] plan[k]).date@ != start + d {
        no_entry_places_nothing(plan, start + d);
    }
    if 0 <= p < plan.len() && plan[p].date@ == start + d && (forall|k: int|
        0 <= k < p ==> (#[trigger] plan[k]).date@ != start + d) {
        first_entry_is_placed(plan, start + d, p);
    }
}

proof fn no_entry_places_nothing(plan: Seq<PlannedDay>, day: int)
    requires
        forall|k: int| 0 <= k < plan.len() ==> (#[trigger] plan[k]).date@ != day,
    ensures
        placed_on(plan, day).len() == 0,
    decreases plan.len(),
{
    if plan.len() > 0 {
        assert(plan[0].date@ != day);
        let rest = plan.skip(1);
        assert forall|k: int| 0 <= k < rest.len() implies (#[trigger] rest[k]).date@ != day by {
            assert(rest[k] == plan[k + 1]);
        }
        no_entry_places_nothing(rest, day);
    }
}

proof fn first_entry_is_placed(plan: Seq<PlannedDay>, day: int, p: int)
    requires
        0 <= p < plan.len(),
        plan[p].date@ == day,
        forall|k: int| 0 <= k < p ==> (#[trigger] plan[k]).date@ != day,
    ensures
        placed_on(plan, day) == plan[p].items@,
    decreases plan.len(),
{
    if p > 0 {
        assert(plan[0].date@ != day);
        let rest = plan.skip(1);
        assert(rest[p - 1] == plan[p]);
        assert forall|k: int| 0 <= k < p - 1 implies (#[trigger] rest[k]).date@ != day by {
            assert(rest[k] == plan[k + 1]);
        }
        first_entry_is_placed(rest, day, p - 1);
    }
}

// ─── Reads and answers ────────────────────────────────────────────────────────

/// The instances of a day are read from early enough on: whatever its offset from
/// UTC, nothing whose local date is the day lies before the start of the read.
pub proof fn reads_reach_back_far_enough(at: Moment, day: int)
    requires
        at.julian_day == day,
        0 <= at.nanos_of_day,
        -93_600 < at.offset_seconds < 93_600,
    ensures
        Moment::midnight_utc(day - READ_AHEAD_DAYS).instant() <= at.instant(),
{
}

} // verus!
