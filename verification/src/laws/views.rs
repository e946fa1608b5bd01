//! The Today and Week views, operation by operation: where each candidate comes
//! from, and what each answer tells.

use vstd::prelude::*;

use crate::api::fields::{DateField, DateRange};
use crate::api::surfacing::{
    applied, build_event_candidates, build_meal_candidates, build_task_candidates, cancels,
    contents, event_candidate, event_candidates, event_instances_query, kind_to_str,
    latest_overlay_is_applied, liveness_of, meals_to_read, moved_candidate, read_from, resolve_day,
    show_all, surfaced_item_to_response, task_candidates, task_instances_query, tasks_to_read,
    today, today_candidates, today_response, week, week_candidates, week_candidates_of, week_days,
    week_response, week_start, Candidate, DayReads, EventInstanceQuery, EventReads, Liveness,
    PlannedDay, SurfaceCandidate, SurfacedItem, SurfacedItemResponse, SurfacedKind, TodayQuery,
    TodayResponse, WeekQuery, WeekResponse,
};
use crate::api::task::InstanceQuery;
use crate::dates::{parsed_date, Date, Moment, Timestamp};
use crate::ids::EventId;
use crate::laws::surfacing::{
    cancelled_event_is_no_candidate, dinners_are_candidates, events_are_candidates_side_by_side,
    is_dinner_candidate, is_instance_candidate, is_latest_overlay, is_one_shot_candidate,
    is_overlaid_occurrence, is_plain_occurrence, laid_out_days_are_shown_in_their_place,
    latest_overlay_shapes_the_event, one_shot_task_carries_its_window,
    recurring_task_is_its_instances_of_the_day, speaks_of_event, tasks_are_candidates_side_by_side,
    times_on_day, unread_task_is_no_candidate, untouched_event_is_shown_as_it_is,
};
use crate::laws::tasks::{is_priority, may_tell_member};
use crate::laws::terms::{agree, is_400, tells_day, tells_time};
use crate::model::event::{Event, EventInstance, EventOverride, OverrideAction};
use crate::model::meal::{Meal, MealSlot};
use crate::model::task::{Task, TaskFilter, TaskInstance, TaskStatus};
use crate::reply::{Rejection, Reply, StatusCode, StorageFailure};

verus! {

// ─── Where candidates come from ───────────────────────────────────────────────

/// What a candidate comes from.
pub enum Source {
    /// A one-shot task.
    OneShot(Task),
    /// An instance of a recurring task.
    Instance(Task, TaskInstance),
    /// An event, when it takes place, and the overlays of the day.
    Occurrence(Event, Moment, Seq<EventOverride>),
    /// A dinner of a day.
    Dinner(Meal, int),
}

/// Whether a candidate is the one that comes from an event: as it is if no overlay
/// of the day speaks of it, and otherwise under the latest.
pub open spec fn is_from_event(
    candidate: SurfaceCandidate,
    event: Event,
    at: Moment,
    overlays: Seq<EventOverride>,
) -> bool {
    if forall|k: int| 0 <= k < overlays.len() ==> (#[trigger] overlays[k]).source_event_id != event.id {
        is_plain_occurrence(candidate, event, at)
    } else {
        exists|i: int| #[trigger]
            is_latest_overlay(overlays, event, i) && is_overlaid_occurrence(
                candidate,
                event,
                at,
                overlays[i],
            )
    }
}

/// Whether a candidate is the one that comes from a source.
pub open spec fn is_from(candidate: SurfaceCandidate, source: Source) -> bool {
    match source {
        Source::OneShot(task) => is_one_shot_candidate(candidate, task),
        Source::Instance(task, instance) => is_instance_candidate(candidate, task, instance),
        Source::Occurrence(event, at, overlays) => is_from_event(candidate, event, at, overlays),
        Source::Dinner(meal, day) => is_dinner_candidate(candidate, meal, day),
    }
}

/// Whether the candidates come from the sources one by one.
pub open spec fn are_from(candidates: Seq<SurfaceCandidate>, sources: Seq<Source>) -> bool {
    &&& candidates.len() == sources.len()
    &&& forall|k: int| 0 <= k < sources.len() ==> is_from(#[trigger] candidates[k], sources[k])
}

/// The sources that a task is on a day: itself if it is a one-shot task, and
/// otherwise those of its instances whose local date is the day.
pub open spec fn task_sources(
    task: Task,
    read: Result<Vec<TaskInstance>, StorageFailure>,
    day: int,
) -> Seq<Source> {
    if task.recurrence is None {
        seq![Source::OneShot(task)]
    } else if read is Ok {
        (read->Ok_0)@.filter(|i: TaskInstance| i.scheduled_at@.julian_day == day).map_values(
            |i: TaskInstance| Source::Instance(task, i),
        )
    } else {
        Seq::empty()
    }
}

/// The sources that the tasks are on a day, task by task.
pub open spec fn all_task_sources(
    tasks: Seq<Task>,
    reads: Seq<Result<Vec<TaskInstance>, StorageFailure>>,
    day: int,
) -> Seq<Source> {
    Seq::new(tasks.len(), |t: int| task_sources(tasks[t], reads[t], day)).flatten()
}

/// The sources that an event is on a day: none if an overlay of the day cancels
/// it, and otherwise one for each time that it takes place on the day.
pub open spec fn event_sources(
    event: Event,
    read: Result<Vec<EventInstance>, StorageFailure>,
    overlays: Seq<EventOverride>,
    day: int,
) -> Seq<Source> {
    if exists|i: int|
        0 <= i < overlays.len() && (#[trigger] overlays[i]).source_event_id == event.id
            && overlays[i].action == OverrideAction::Cancel {
        Seq::empty()
    } else {
        times_on_day(event, read, day).map_values(
            |at: Moment| Source::Occurrence(event, at, overlays),
        )
    }
}

/// The sources that the events are on a day, event by event.
pub open spec fn all_event_sources(
    events: Seq<Event>,
    reads: Seq<Result<Vec<EventInstance>, StorageFailure>>,
    overlays: Seq<EventOverride>,
    day: int,
) -> Seq<Source> {
    Seq::new(events.len(), |e: int| event_sources(events[e], reads[e], overlays, day)).flatten()
}

/// The sources that what was read of the events is on a day: none if the events
/// could not be read, and as if there were no overlays if those could not be.
pub open spec fn read_event_sources(reads: EventReads, day: int) -> Seq<Source> {
    if reads.events is Err {
        Seq::empty()
    } else {
        all_event_sources(
            (reads.events->Ok_0)@,
            reads.instances@,
            if reads.overrides is Ok {
                (reads.overrides->Ok_0)@
            } else {
                Seq::empty()
            },
            day,
        )
    }
}

/// The sources that what was read of the meals is on a day: the dinners.
pub open spec fn meal_sources(read: Result<Vec<Meal>, StorageFailure>, day: int) -> Seq<Source> {
    if read is Ok {
        (read->Ok_0)@.filter(|m: Meal| m.slot == MealSlot::Dinner).map_values(
            |m: Meal| Source::Dinner(m, day),
        )
    } else {
        Seq::empty()
    }
}

/// The sources of one day of a week: its tasks, then its events.
pub open spec fn day_sources(tasks: Seq<Task>, reads: DayReads, day: int) -> Seq<Source> {
    all_task_sources(tasks, reads.task_instances@, day) + read_event_sources(reads.events, day)
}

/// The sources of a week, day by day from its start on.
pub open spec fn week_sources(tasks: Seq<Task>, reads: Seq<DayReads>, start: int) -> Seq<Source> {
    Seq::new(7, |d: int| day_sources(tasks, reads[d], start + d)).flatten()
}

proof fn flatten_by_last<A>(parts: Seq<Seq<A>>)
    ensures
        parts.len() == 0 ==> parts.flatten() == Seq::<A>::empty(),
        parts.len() > 0 ==> parts.flatten() == parts.drop_last().flatten() + parts.last(),
{
    parts.lemma_flatten_and_flatten_alt_are_equivalent();
    if parts.len() > 0 {
        parts.drop_last().lemma_flatten_and_flatten_alt_are_equivalent();
    }
}

proof fn put_together(
    first: Seq<SurfaceCandidate>,
    first_sources: Seq<Source>,
    second: Seq<SurfaceCandidate>,
    second_sources: Seq<Source>,
)
    requires
        are_from(first, first_sources),
        are_from(second, second_sources),
    ensures
        are_from(first + second, first_sources + second_sources),
{
    let all = first + second;
    let sources = first_sources + second_sources;
    assert forall|k: int| 0 <= k < sources.len() implies is_from(#[trigger] all[k], sources[k]) by {
        if k < first.len() {
            assert(is_from(first[k], first_sources[k]));
        } else {
            assert(is_from(second[k - first.len()], second_sources[k - first.len()]));
        }
    }
}

proof fn split(candidates: Seq<SurfaceCandidate>, first: Seq<Candidate>, second: Seq<Candidate>)
    requires
        contents(candidates) == first + second,
    ensures
        first.len() + second.len() == candidates.len(),
        contents(candidates.take(first.len() as int)) == first,
        contents(candidates.skip(first.len() as int)) == second,
        candidates == candidates.take(first.len() as int) + candidates.skip(first.len() as int),
{
    let at = first.len() as int;
    assert(contents(candidates).len() == candidates.len());
    assert(contents(candidates.take(at)) =~= contents(candidates).take(at));
    assert(contents(candidates.skip(at)) =~= contents(candidates).skip(at));
    assert(contents(candidates).take(at) =~= first);
    assert(contents(candidates).skip(at) =~= second);
    assert(candidates =~= candidates.take(at) + candidates.skip(at));
}

proof fn one_task(
    task: Task,
    read: Result<Vec<TaskInstance>, StorageFailure>,
    day: int,
    candidates: Seq<SurfaceCandidate>,
)
    requires
        contents(candidates) == task_candidates(seq![task], seq![read], day),
    ensures
        are_from(candidates, task_sources(task, read, day)),
{
    assert(contents(candidates).len() == candidates.len());
    if task.recurrence is None {
        one_shot_task_carries_its_window(task, read, day, candidates);
    } else if let Ok(instances) = read {
        recurring_task_is_its_instances_of_the_day(task, instances, day, candidates);
    } else {
        unread_task_is_no_candidate(task, read->Err_0, day);
    }
}

proof fn many_tasks(
    tasks: Seq<Task>,
    reads: Seq<Result<Vec<TaskInstance>, StorageFailure>>,
    day: int,
    candidates: Seq<SurfaceCandidate>,
)
    requires
        reads.len() == tasks.len(),
        contents(candidates) == task_candidates(tasks, reads, day),
    ensures
        are_from(candidates, all_task_sources(tasks, reads, day)),
    decreases tasks.len(),
{
    let parts = Seq::new(tasks.len(), |t: int| task_sources(tasks[t], reads[t], day));
    flatten_by_last(parts);
    assert(contents(candidates).len() == candidates.len());
    if tasks.len() > 0 {
        let (fewer, fewer_reads) = (tasks.drop_last(), reads.drop_last());
        let (task, read) = (tasks.last(), reads.last());
        tasks_are_candidates_side_by_side(fewer, fewer_reads, seq![task], seq![read], day);
        assert(fewer + seq![task] =~= tasks);
        assert(fewer_reads + seq![read] =~= reads);
        let first = task_candidates(fewer, fewer_reads, day);
        split(candidates, first, task_candidates(seq![task], seq![read], day));
        let at = first.len() as int;
        many_tasks(fewer, fewer_reads, day, candidates.take(at));
        one_task(task, read, day, candidates.skip(at));
        assert(parts.drop_last() =~= Seq::new(
            fewer.len(),
            |t: int| task_sources(fewer[t], fewer_reads[t], day),
        ));
        put_together(
            candidates.take(at),
            all_task_sources(fewer, fewer_reads, day),
            candidates.skip(at),
            task_sources(task, read, day),
        );
    }
}

proof fn some_overlay_is_the_latest(event: Event, overlays: Seq<EventOverride>, k: int) -> (i: int)
    requires
        0 <= k < overlays.len(),
        overlays[k].source_event_id == event.id,
        forall|j: int|
            0 <= j < overlays.len() && (#[trigger] overlays[j]).source_event_id == event.id
                ==> overlays[j].action != OverrideAction::Cancel,
    ensures
        is_latest_overlay(overlays, event, i),
    decreases overlays.len(),
{
    let last = overlays.len() - 1;
    let fewer = overlays.drop_last();
    if exists|j: int| 0 <= j < last && (#[trigger] overlays[j]).source_event_id == event.id {
        let j = choose|j: int| 0 <= j < last && (#[trigger] overlays[j]).source_event_id == event.id;
        assert(fewer[j] == overlays[j]);
        assert forall|j: int|
            0 <= j < fewer.len() && (#[trigger] fewer[j]).source_event_id == event.id implies fewer[j].action
            != OverrideAction::Cancel by {
            assert(fewer[j] == overlays[j]);
        }
        let i = some_overlay_is_the_latest(event, fewer, j);
        assert(fewer[i] == overlays[i]);
        assert forall|m: int|
            0 <= m < last && (#[trigger] overlays[m]).source_event_id == event.id
                && overlays[m].action != OverrideAction::Cancel implies {
            &&& overlays[m].created_at@.instant() <= overlays[i].created_at@.instant()
            &&& m < i ==> overlays[m].created_at@.instant() < overlays[i].created_at@.instant()
        } by {
            assert(fewer[m] == overlays[m]);
        }
        if overlays[last].source_event_id == event.id && overlays[i].created_at@.instant()
            < overlays[last].created_at@.instant() {
            last
        } else {
            i
        }
    } else {
        assert(k == last);
        last
    }
}

proof fn one_event(
    event: Event,
    read: Result<Vec<EventInstance>, StorageFailure>,
    overlays: Seq<EventOverride>,
    day: int,
    candidates: Seq<SurfaceCandidate>,
)
    requires
        contents(candidates) == event_candidates(seq![event], seq![read], overlays, day),
    ensures
        are_from(candidates, event_sources(event, read, overlays, day)),
{
    assert(contents(candidates).len() == candidates.len());
    if exists|i: int|
        0 <= i < overlays.len() && (#[trigger] overlays[i]).source_event_id == event.id
            && overlays[i].action == OverrideAction::Cancel {
        let i = choose|i: int|
            0 <= i < overlays.len() && (#[trigger] overlays[i]).source_event_id == event.id
                && overlays[i].action == OverrideAction::Cancel;
        cancelled_event_is_no_candidate(event, read, overlays, day, i);
    } else if forall|k: int|
        0 <= k < overlays.len() ==> (#[trigger] overlays[k]).source_event_id != event.id {
        untouched_event_is_shown_as_it_is(event, read, overlays, day, candidates);
    } else {
        let k = choose|k: int|
            0 <= k < overlays.len() && (#[trigger] overlays[k]).source_event_id == event.id;
        let i = some_overlay_is_the_latest(event, overlays, k);
        latest_overlay_shapes_the_event(event, read, overlays, i, day, candidates);
        let sources = event_sources(event, read, overlays, day);
        assert forall|k: int| 0 <= k < sources.len() implies is_from(
            #[trigger] candidates[k],
            sources[k],
        ) by {
            assert(is_latest_overlay(overlays, event, i));
        }
    }
}

proof fn many_events(
    events: Seq<Event>,
    reads: Seq<Result<Vec<EventInstance>, StorageFailure>>,
    overlays: Seq<EventOverride>,
    day: int,
    candidates: Seq<SurfaceCandidate>,
)
    requires
        reads.len() == events.len(),
        contents(candidates) == event_candidates(events, reads, overlays, day),
    ensures
        are_from(candidates, all_event_sources(events, reads, overlays, day)),
    decreases events.len(),
{
    let parts = Seq::new(
        events.len(),
        |e: int| event_sources(events[e], reads[e], overlays, day),
    );
    flatten_by_last(parts);
    assert(contents(candidates).len() == candidates.len());
    if events.len() > 0 {
        let (fewer, fewer_reads) = (events.drop_last(), reads.drop_last());
        let (event, read) = (events.last(), reads.last());
        events_are_candidates_side_by_side(
            fewer,
            fewer_reads,
            seq![event],
            seq![read],
            overlays,
            day,
        );
        assert(fewer + seq![event] =~= events);
        assert(fewer_reads + seq![read] =~= reads);
        let first = event_candidates(fewer, fewer_reads, overlays, day);
        split(candidates, first, event_candidates(seq![event], seq![read], overlays, day));
        let at = first.len() as int;
        many_events(fewer, fewer_reads, overlays, day, candidates.take(at));
        one_event(event, read, overlays, day, candidates.skip(at));
        assert(parts.drop_last() =~= Seq::new(
            fewer.len(),
            |e: int| event_sources(fewer[e], fewer_reads[e], overlays, day),
        ));
        put_together(
            candidates.take(at),
            all_event_sources(fewer, fewer_reads, overlays, day),
            candidates.skip(at),
            event_sources(event, read, overlays, day),
        );
    }
}

proof fn read_events(reads: EventReads, day: int, candidates: Seq<SurfaceCandidate>)
    requires
        reads.events is Ok ==> reads.instances@.len() == (reads.events->Ok_0)@.len(),
        contents(candidates) == reads.candidates(day),
    ensures
        are_from(candidates, read_event_sources(reads, day)),
{
    assert(contents(candidates).len() == candidates.len());
    if reads.events is Ok {
        many_events(
            (reads.events->Ok_0)@,
            reads.instances@,
            reads.overlays(),
            day,
            candidates,
        );
    }
}

proof fn read_meals(
    read: Result<Vec<Meal>, StorageFailure>,
    day: int,
    candidates: Seq<SurfaceCandidate>,
)
    requires
        contents(candidates) == crate::api::surfacing::meal_candidates(read, day),
    ensures
        are_from(candidates, meal_sources(read, day)),
{
    assert(contents(candidates).len() == candidates.len());
    if let Ok(meals) = read {
        dinners_are_candidates(meals, day, candidates);
    }
}

proof fn some_days(
    tasks: Seq<Task>,
    reads: Seq<DayReads>,
    start: int,
    days: nat,
    candidates: Seq<SurfaceCandidate>,
)
    requires
        days <= reads.len(),
        forall|d: int|
            0 <= d < reads.len() ==> (#[trigger] reads[d]).task_instances@.len() == tasks.len()
                && reads[d].events.wf(),
        contents(candidates) == week_candidates_of(tasks, reads, start, days as int),
    ensures
        are_from(
            candidates,
            Seq::new(days, |d: int| day_sources(tasks, reads[d], start + d)).flatten(),
        ),
    decreases days,
{
    let parts = Seq::new(days, |d: int| day_sources(tasks, reads[d], start + d));
    flatten_by_last(parts);
    assert(contents(candidates).len() == candidates.len());
    if days > 0 {
        let last = days - 1;
        let first = week_candidates_of(tasks, reads, start, last);
        let of_tasks = task_candidates(tasks, reads[last].task_instances@, start + last);
        let of_events = reads[last].events.candidates(start + last);
        split(candidates, first, of_tasks + of_events);
        let at = first.len() as int;
        let own = candidates.skip(at);
        some_days(tasks, reads, start, last as nat, candidates.take(at));
        split(own, of_tasks, of_events);
        let cut = of_tasks.len() as int;
        many_tasks(tasks, reads[last].task_instances@, start + last, own.take(cut));
        read_events(reads[last].events, start + last, own.skip(cut));
        put_together(
            own.take(cut),
            all_task_sources(tasks, reads[last].task_instances@, start + last),
            own.skip(cut),
            read_event_sources(reads[last].events, start + last),
        );
        assert(parts.drop_last() =~= Seq::new(
            last as nat,
            |d: int| day_sources(tasks, reads[d], start + d),
        ));
        put_together(
            candidates.take(at),
            parts.drop_last().flatten(),
            own,
            day_sources(tasks, reads[last], start + last),
        );
    }
}

/// The candidates of the tasks on a day come from the tasks, one from each
/// one-shot task and one from each instance of the day, in order; and from
/// nothing else.
pub proof fn task_candidates_come_from_the_tasks(
    tasks: Vec<Task>,
    reads: Vec<Result<Vec<TaskInstance>, StorageFailure>>,
    day: Date,
    candidates: Vec<SurfaceCandidate>,
)
    requires
        reads@.len() == tasks@.len(),
        call_ensures(build_task_candidates, (&tasks, &reads, day), candidates),
    ensures
        are_from(candidates@, all_task_sources(tasks@, reads@, day@)),
{
    many_tasks(tasks@, reads@, day@, candidates@);
}

/// The candidates of the events on a day come from the events that no overlay of
/// the day cancels, one for each time that they take place on the day, in order;
/// and from nothing else.
pub proof fn event_candidates_come_from_the_events(
    reads: EventReads,
    day: Date,
    candidates: Vec<SurfaceCandidate>,
)
    requires
        reads.events is Ok ==> reads.instances@.len() == (reads.events->Ok_0)@.len(),
        call_ensures(build_event_candidates, (&reads, day), candidates),
    ensures
        are_from(candidates@, read_event_sources(reads, day@)),
{
    read_events(reads, day@, candidates@);
}

/// The candidates of the meals on a day come from the dinners, one from each, in
/// order; and from nothing else.
pub proof fn meal_candidates_come_from_the_dinners(
    read: Result<Vec<Meal>, StorageFailure>,
    day: Date,
    candidates: Vec<SurfaceCandidate>,
)
    requires
        call_ensures(build_meal_candidates, (&read, day), candidates),
    ensures
        are_from(candidates@, meal_sources(read, day@)),
{
    read_meals(read, day@, candidates@);
}

/// The candidates of today come from its tasks, then its events, then its
/// dinners.
pub proof fn todays_candidates_come_from_tasks_events_and_dinners(
    tasks: Vec<Task>,
    task_reads: Vec<Result<Vec<TaskInstance>, StorageFailure>>,
    event_reads: EventReads,
    meals: Result<Vec<Meal>, StorageFailure>,
    day: Date,
    candidates: Vec<SurfaceCandidate>,
)
    requires
        task_reads@.len() == tasks@.len(),
        event_reads.events is Ok ==> event_reads.instances@.len() == (
        event_reads.events->Ok_0)@.len(),
        call_ensures(
            today_candidates,
            (&tasks, &task_reads, &event_reads, &meals, day),
            candidates,
        ),
    ensures
        are_from(
            candidates@,
            all_task_sources(tasks@, task_reads@, day@) + read_event_sources(event_reads, day@)
                + meal_sources(meals, day@),
        ),
{
    let of_tasks = task_candidates(tasks@, task_reads@, day@);
    let of_events = event_reads.candidates(day@);
    let of_meals = crate::api::surfacing::meal_candidates(meals, day@);
    split(candidates@, of_tasks + of_events, of_meals);
    let at = (of_tasks + of_events).len() as int;
    let first = candidates@.take(at);
    split(first, of_tasks, of_events);
    let cut = of_tasks.len() as int;
    many_tasks(tasks@, task_reads@, day@, first.take(cut));
    read_events(event_reads, day@, first.skip(cut));
    read_meals(meals, day@, candidates@.skip(at));
    put_together(
        first.take(cut),
        all_task_sources(tasks@, task_reads@, day@),
        first.skip(cut),
        read_event_sources(event_reads, day@),
    );
    put_together(
        first,
        all_task_sources(tasks@, task_reads@, day@) + read_event_sources(event_reads, day@),
        candidates@.skip(at),
        meal_sources(meals, day@),
    );
}

/// The candidates of a week come from the tasks and events of each of its seven
/// days, day by day; none is left out, and nothing else is there.
pub proof fn week_candidates_come_from_all_seven_days(
    tasks: Vec<Task>,
    reads: Vec<DayReads>,
    start: Date,
    candidates: Vec<SurfaceCandidate>,
)
    requires
        reads@.len() == 7,
        forall|d: int|
            0 <= d < 7 ==> {
                &&& (#[trigger] reads@[d]).task_instances@.len() == tasks@.len()
                &&& reads@[d].events.events is Ok ==> reads@[d].events.instances@.len() == (
                reads@[d].events.events->Ok_0)@.len()
            },
        call_ensures(week_candidates, (&tasks, &reads, start), candidates),
    ensures
        are_from(candidates@, week_sources(tasks@, reads@, start@)),
{
    some_days(tasks@, reads@, start@, 7, candidates@);
}

/// A week holds what each of its days holds: for every day, the candidates of its
/// tasks and those of its events stand among those of the week, field by field.
pub proof fn week_holds_each_of_its_days(
    tasks: Vec<Task>,
    reads: Vec<DayReads>,
    start: Date,
    candidates: Vec<SurfaceCandidate>,
    d: int,
    day: Date,
    of_tasks: Vec<SurfaceCandidate>,
    of_events: Vec<SurfaceCandidate>,
)
    requires
        0 <= d < 7,
        day@ == start@ + d,
        call_ensures(week_candidates, (&tasks, &reads, start), candidates),
        call_ensures(build_task_candidates, (&tasks, &reads@[d].task_instances, day), of_tasks),
        call_ensures(build_event_candidates, (&reads@[d].events, day), of_events),
    ensures
        exists|at: int|
            0 <= at && at + of_tasks@.len() + of_events@.len() <= candidates@.len()
                && #[trigger] contents(
                candidates@.subrange(at, at + of_tasks@.len() + of_events@.len()),
            ) == contents(of_tasks@) + contents(of_events@),
{
    let at = week_holds_a_day(tasks@, reads@, start@, 7, d, candidates@);
    let own = contents(of_tasks@) + contents(of_events@);
    assert(contents(of_tasks@).len() == of_tasks@.len());
    assert(contents(of_events@).len() == of_events@.len());
    assert(contents(candidates@.subrange(at, at + of_tasks@.len() + of_events@.len())) =~= own);
}

proof fn week_holds_a_day(
    tasks: Seq<Task>,
    reads: Seq<DayReads>,
    start: int,
    days: int,
    d: int,
    candidates: Seq<SurfaceCandidate>,
) -> (at: int)
    requires
        0 <= d < days,
        contents(candidates) == week_candidates_of(tasks, reads, start, days),
    ensures
        ({
            let own = task_candidates(tasks, reads[d].task_instances@, start + d)
                + reads[d].events.candidates(start + d);
            &&& 0 <= at
            &&& at + own.len() <= candidates.len()
            &&& contents(candidates.subrange(at, at + own.len())) == own
        }),
    decreases days,
{
    let before = week_candidates_of(tasks, reads, start, days - 1);
    let last = task_candidates(tasks, reads[days - 1].task_instances@, start + days - 1)
        + reads[days - 1].events.candidates(start + days - 1);
    let own = task_candidates(tasks, reads[d].task_instances@, start + d)
        + reads[d].events.candidates(start + d);
    split(candidates, before, last);
    let cut = before.len() as int;
    if d == days - 1 {
        assert(candidates.subrange(cut, cut + own.len()) =~= candidates.skip(cut));
        cut
    } else {
        let at = week_holds_a_day(tasks, reads, start, days - 1, d, candidates.take(cut));
        assert(candidates.take(cut).subrange(at, at + own.len()) =~= candidates.subrange(
            at,
            at + own.len(),
        ));
        at
    }
}

// ─── Tasks and overlays ───────────────────────────────────────────────────────

/// A task can still surface exactly while it is open or someone is on it.
pub proof fn open_tasks_are_live(status: TaskStatus, r: Liveness)
    requires
        call_ensures(liveness_of, (status,), r),
    ensures
        r is Live <==> status is Open || status is Doing,
{
}

/// The instances of a day are read from midnight UTC two days earlier on, which is
/// before all that has the day for its local date.
pub proof fn instances_are_read_from_early_enough(
    day: Date,
    from: Timestamp,
    instance: TaskInstance,
)
    requires
        call_ensures(read_from, (day,), from),
        instance.scheduled_at@.julian_day == day@,
        0 <= instance.scheduled_at@.nanos_of_day,
        -93_600 < instance.scheduled_at@.offset_seconds < 93_600,
    ensures
        from@.julian_day == day@ - 2,
        from@.nanos_of_day == 0,
        from@.offset_seconds == 0,
        from@.instant() <= instance.scheduled_at@.instant(),
{
}

/// Just the recurring tasks are asked for their instances, from two days before
/// the day on, two hundred of them at most.
pub proof fn recurring_tasks_are_read(task: Task, day: Date, r: Option<InstanceQuery>)
    requires
        call_ensures(task_instances_query, (&task, day), r),
    ensures
        r is Some <==> task.recurrence is Some,
        r is Some ==> {
            &&& r->0.task_id == task.id
            &&& r->0.from@.julian_day == day@ - 2
            &&& r->0.from@.nanos_of_day == 0
            &&& r->0.from@.offset_seconds == 0
            &&& r->0.limit == 200
        },
{
}

/// An event is cancelled exactly if one of the overlays of the day, whichever it
/// is, cancels that very event.
pub proof fn any_overlay_can_cancel(overlays: Vec<EventOverride>, event_id: EventId, r: bool)
    requires
        call_ensures(cancels, (&overlays, event_id), r),
    ensures
        r <==> exists|i: int|
            0 <= i < overlays@.len() && (#[trigger] overlays@[i]).source_event_id == event_id
                && overlays@[i].action == OverrideAction::Cancel,
        forall|i: int|
            0 <= i < overlays@.len() && (#[trigger] overlays@[i]).source_event_id == event_id
                && overlays@[i].action == OverrideAction::Cancel ==> r,
{
}

/// Wherever among the overlays of a day a cancellation stands, the event that it
/// names contributes nothing to the day.
pub proof fn cancelled_event_contributes_nothing(
    reads: EventReads,
    day: Date,
    candidates: Vec<SurfaceCandidate>,
    i: int,
    c: int,
)
    requires
        reads.events is Ok,
        reads.instances@.len() == (reads.events->Ok_0)@.len(),
        reads.overrides is Ok,
        call_ensures(build_event_candidates, (&reads, day), candidates),
        0 <= i < (reads.overrides->Ok_0)@.len(),
        (reads.overrides->Ok_0)@[i].action == OverrideAction::Cancel,
        0 <= c < candidates@.len(),
    ensures
        candidates@[c].source_id@ != crate::ids::hyphenated(
            (reads.overrides->Ok_0)@[i].source_event_id.0,
        ),
{
    let events = (reads.events->Ok_0)@;
    let overlays = (reads.overrides->Ok_0)@;
    event_candidates_come_from_the_events(reads, day, candidates);
    let sources = all_event_sources(events, reads.instances@, overlays, day@);
    assert(is_from(candidates@[c], sources[c]));
    let e = source_is_of_an_event(events, reads.instances@, overlays, day@, c);
    let own = event_sources(events[e], reads.instances@[e], overlays, day@);
    let k = choose|k: int| 0 <= k < own.len() && own[k] == sources[c];
    assert(own[k] is Occurrence);
    assert(own[k]->Occurrence_0 == events[e]);
    let at = own[k]->Occurrence_1;
    assert(is_from_event(candidates@[c], events[e], at, overlays));
    assert(speaks_of_event(candidates@[c], events[e]));
    assert(events[e].id != overlays[i].source_event_id);
    crate::ids::different_uuids_have_different_texts(
        events[e].id.0,
        overlays[i].source_event_id.0,
    );
}

proof fn source_is_of_an_event(
    events: Seq<Event>,
    reads: Seq<Result<Vec<EventInstance>, StorageFailure>>,
    overlays: Seq<EventOverride>,
    day: int,
    c: int,
) -> (e: int)
    requires
        reads.len() == events.len(),
        0 <= c < all_event_sources(events, reads, overlays, day).len(),
    ensures
        0 <= e < events.len(),
        event_sources(events[e], reads[e], overlays, day).contains(
            all_event_sources(events, reads, overlays, day)[c],
        ),
    decreases events.len(),
{
    let parts = Seq::new(
        events.len(),
        |e: int| event_sources(events[e], reads[e], overlays, day),
    );
    flatten_by_last(parts);
    let (fewer, fewer_reads) = (events.drop_last(), reads.drop_last());
    assert(parts.drop_last() =~= Seq::new(
        fewer.len(),
        |e: int| event_sources(fewer[e], fewer_reads[e], overlays, day),
    ));
    let before = parts.drop_last().flatten();
    if c < before.len() {
        let e = source_is_of_an_event(fewer, fewer_reads, overlays, day, c);
        assert(event_sources(events[e], reads[e], overlays, day) == event_sources(
            fewer[e],
            fewer_reads[e],
            overlays,
            day,
        ));
        e
    } else {
        let last = events.len() - 1;
        assert(parts.last() == event_sources(events[last], reads[last], overlays, day));
        assert(parts.last()[c - before.len()] == all_event_sources(events, reads, overlays, day)[c]);
        last
    }
}

/// Of the overlays that move or annotate an event the latest is applied, the first
/// of several that are; and none if there is none.
pub proof fn latest_overlay_is_the_one_applied(
    overlays: Vec<EventOverride>,
    event: Event,
    r: Option<&EventOverride>,
)
    requires
        call_ensures(applied, (&overlays, event.id), r),
    ensures
        r is None <==> forall|k: int|
            0 <= k < overlays@.len() && (#[trigger] overlays@[k]).source_event_id == event.id
                ==> overlays@[k].action == OverrideAction::Cancel,
        r is Some ==> exists|i: int| #[trigger]
            is_latest_overlay(overlays@, event, i) && *(r->0) == overlays@[i],
{
    latest_overlay_is_applied(overlays@, event.id);
    if let Some(i) = crate::api::surfacing::applied_index(overlays@, event.id) {
        assert(is_latest_overlay(overlays@, event, i));
    }
}

/// Just the events that are not cancelled and have more than their own start are
/// asked for their occurrences, from two days before the day on, two hundred of
/// them at most.
pub proof fn recurring_events_are_read(
    event: Event,
    overlays: Vec<EventOverride>,
    day: Date,
    r: Option<EventInstanceQuery>,
)
    requires
        call_ensures(event_instances_query, (&event, &overlays, day), r),
    ensures
        r is Some <==> (event.recurrence is Some || event.source.kind is Ics) && forall|k: int|
            0 <= k < overlays@.len() && (#[trigger] overlays@[k]).source_event_id == event.id
                ==> overlays@[k].action != OverrideAction::Cancel,
        r is Some ==> {
            &&& r->0.event_id == event.id
            &&& r->0.from@.julian_day == day@ - 2
            &&& r->0.from@.nanos_of_day == 0
            &&& r->0.from@.offset_seconds == 0
            &&& r->0.limit == 200
        },
{
}

/// An occurrence is a candidate at the time that it is moved to, or at its own if
/// it is not moved, with the note that it is given.
pub proof fn moved_occurrence_is_where_it_was_moved(
    event: Event,
    at: Timestamp,
    moved: Option<Timestamp>,
    note: Option<String>,
    candidate: SurfaceCandidate,
)
    requires
        call_ensures(moved_candidate, (&event, at, moved, note), candidate),
    ensures
        speaks_of_event(candidate, event),
        candidate.timing is Scheduled,
        moved is Some ==> candidate.timing->Scheduled_0@ == moved->0@,
        moved is None ==> candidate.timing->Scheduled_0@ == at@,
        candidate.rescheduled <==> moved is Some,
        agree(candidate.annotation, note),
{
}

/// An occurrence without an overlay is as it is; under one it is moved or noted as
/// the overlay says.
pub proof fn overlay_shapes_the_occurrence(
    event: Event,
    at: Timestamp,
    overlay: Option<&EventOverride>,
    candidate: SurfaceCandidate,
)
    requires
        call_ensures(event_candidate, (&event, at, overlay), candidate),
    ensures
        overlay is None ==> is_plain_occurrence(candidate, event, at@),
        overlay is Some ==> is_overlaid_occurrence(candidate, event, at@, *(overlay->0)),
{
}

// ─── Days ─────────────────────────────────────────────────────────────────────

/// Whether a day is the one that a text asks for: the date of the clock if there
/// is no text.
pub open spec fn is_day_asked_for(day: int, text: Option<String>, now: Timestamp) -> bool {
    &&& text is None ==> day == now@.julian_day
    &&& text is Some ==> parsed_date((text->0)@) == Some(day)
}

/// What is said of a text that is no date.
pub open spec fn complaint_about(text: Seq<char>) -> Seq<char> {
    "date"@ + " '"@ + text + "': expected YYYY-MM-DD"@
}

/// Today is the day that the query names, and the date of the clock if it names
/// none; a text that is no date is refused.
pub proof fn today_is_the_day_named(query: TodayQuery, now: Timestamp, r: Result<Date, Rejection>)
    requires
        call_ensures(today, (query, now), r),
    ensures
        r is Ok <==> (query.date is Some ==> parsed_date((query.date->0)@) is Some),
        r matches Ok(day) ==> is_day_asked_for(day@, query.date, now),
        r matches Err(rejection) ==> is_400(rejection, complaint_about((query.date->0)@)),
{
}

/// The same of a date that is already read.
pub proof fn day_as_read_is_the_day(
    field: Option<DateField>,
    now: Timestamp,
    r: Result<Date, Rejection>,
)
    requires
        call_ensures(resolve_day, (field, now), r),
    ensures
        r is Ok <==> (field is Some ==> field->0.date is Some),
        r matches Ok(day) ==> {
            &&& field is None ==> day@ == now@.julian_day
            &&& field is Some ==> day@ == (field->0.date->0)@
        },
        r matches Err(rejection) ==> is_400(rejection, complaint_about(field->0.text@)),
{
}

/// A week starts on a Monday, no later than the day asked for and at most six
/// days before it.
pub proof fn week_is_that_of_the_day_named(
    query: WeekQuery,
    now: Timestamp,
    r: Result<Date, Rejection>,
)
    requires
        call_ensures(week, (query, now), r),
    ensures
        r is Ok <==> (query.start is Some ==> parsed_date((query.start->0)@) is Some),
        r matches Ok(monday) ==> {
            &&& monday@ % 7 == 0
            &&& exists|day: int| #[trigger]
                is_day_asked_for(day, query.start, now) && monday@ <= day <= monday@ + 6
        },
        r matches Err(rejection) ==> is_400(rejection, complaint_about((query.start->0)@)),
{
    if r is Ok {
        let day = if query.start is None {
            now@.julian_day
        } else {
            parsed_date((query.start->0)@)->0
        };
        assert(is_day_asked_for(day, query.start, now));
    }
}

/// The start of a week is a Monday, and the week holds the day. A day number that
/// leaves nothing when divided by seven is that of a Monday.
pub proof fn week_starts_on_a_monday(day: Date, monday: Date)
    requires
        call_ensures(week_start, (day,), monday),
    ensures
        monday@ % 7 == 0,
        monday@ <= day@ <= monday@ + 6,
{
}

/// The days of a week are seven, one after the other from its start on.
pub proof fn week_has_seven_days(start: Date, days: Vec<Date>)
    requires
        call_ensures(week_days, (start,), days),
    ensures
        days@.len() == 7,
        forall|d: int| 0 <= d < 7 ==> (#[trigger] days@[d])@ == start@ + d,
{
}

/// All tasks are read for a view, and the meals of just the day.
pub proof fn all_tasks_and_the_meals_of_the_day_are_read(
    day: Date,
    filter: TaskFilter,
    range: DateRange,
)
    requires
        call_ensures(tasks_to_read, (), filter),
        call_ensures(meals_to_read, (day,), range),
    ensures
        filter.status is None,
        filter.tag is None,
        filter.due_before is None,
        range.from == day,
        range.to == day,
{
}

// ─── Answers ──────────────────────────────────────────────────────────────────

/// Every kind is written as its name.
pub proof fn kinds_are_written_as_their_names(kind: SurfacedKind, r: &'static str)
    requires
        call_ensures(kind_to_str, (kind,), r),
    ensures
        kind is Task ==> r@ == "task"@,
        kind is Event ==> r@ == "event"@,
        kind is Meal ==> r@ == "meal"@,
{
}

/// Whether a response tells an item, field by field.
pub open spec fn tells_item(shown: SurfacedItemResponse, item: SurfacedItem) -> bool {
    &&& item.kind is Task ==> shown.kind@ == "task"@
    &&& item.kind is Event ==> shown.kind@ == "event"@
    &&& item.kind is Meal ==> shown.kind@ == "meal"@
    &&& shown.source_id@ == item.source_id@
    &&& shown.title@ == item.title@
    &&& tells_time(shown.at@, item.at)
    &&& shown.overdue == item.overdue
    &&& shown.all_day == item.all_day
    &&& is_priority(shown.priority, item.priority)
    &&& may_tell_member(shown.current_assignee_id, item.current_assignee_id)
    &&& agree(shown.annotation, item.annotation)
    &&& shown.rescheduled == item.rescheduled
}

/// Whether the responses tell the items one by one.
pub open spec fn tell_items(shown: Seq<SurfacedItemResponse>, items: Seq<SurfacedItem>) -> bool {
    &&& shown.len() == items.len()
    &&& forall|k: int| 0 <= k < items.len() ==> tells_item(#[trigger] shown[k], items[k])
}

proof fn shown_items_are_told(shown: Seq<SurfacedItemResponse>, items: Seq<SurfacedItem>)
    requires
        show_all(shown, items),
    ensures
        tell_items(shown, items),
{
    assert forall|k: int| 0 <= k < items.len() implies tells_item(#[trigger] shown[k], items[k]) by {
        assert(shown[k].shows(items[k]));
    }
}

/// A response tells every field of its item.
pub proof fn response_tells_the_item(item: SurfacedItem, shown: SurfacedItemResponse)
    requires
        call_ensures(surfaced_item_to_response, (&item,), shown),
    ensures
        tells_item(shown, item),
{
}

/// The answer for today tells the day and all that surfaced, in order, and whether
/// anything did.
pub proof fn today_is_told(day: Date, items: Vec<SurfacedItem>, reply: Reply<TodayResponse>)
    requires
        call_ensures(today_response, (day, &items), reply),
    ensures
        reply.status == StatusCode::Success,
        tells_day(reply.body.date@, day@),
        tell_items(reply.body.items@, items@),
        reply.body.has_surfaced <==> items@.len() > 0,
{
    shown_items_are_told(reply.body.items@, items@);
}

/// The answer for a week tells its seven days from the start on, whatever was laid
/// out: on each day what the first entry of the layout for it holds, and nothing
/// if there is no entry.
pub proof fn week_is_told(
    start: Date,
    plan: Vec<PlannedDay>,
    reply: Reply<WeekResponse>,
    d: int,
    p: int,
)
    requires
        call_ensures(week_response, (start, &plan), reply),
        0 <= d < 7,
    ensures
        reply.status == StatusCode::Success,
        tells_day(reply.body.start@, start@),
        reply.body.days@.len() == 7,
        tells_day(reply.body.days@[d].date@, start@ + d),
        (forall|k: int| 0 <= k < plan@.len() ==> (#[trigger] plan@[k]).date@ != start@ + d)
            ==> reply.body.days@[d].items@.len() == 0,
        0 <= p < plan@.len() && plan@[p].date@ == start@ + d && (forall|k: int|
            0 <= k < p ==> (#[trigger] plan@[k]).date@ != start@ + d) ==> tell_items(
            reply.body.days@[d].items@,
            plan@[p].items@,
        ),
{
    laid_out_days_are_shown_in_their_place(reply.body.days@, start@, plan@, d, p);
    assert(crate::dates::writes_date(reply.body.days@[d].date@, start@ + d));
    if 0 <= p < plan@.len() && plan@[p].date@ == start@ + d && (forall|k: int|
        0 <= k < p ==> (#[trigger] plan@[k]).date@ != start@ + d) {
        assert(show_all(reply.body.days@[d].items@, plan@[p].items@));
        shown_items_are_told(reply.body.days@[d].items@, plan@[p].items@);
    }
}

} // verus!
