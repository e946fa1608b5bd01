//! What the operations take: all that the calendar and the machine can hold.

use vstd::prelude::*;

use crate::api::event;
use crate::api::grocery::{current_week_bounds, generate_grocery_items, GenerateQuery};
use crate::api::surfacing::{
    build_event_candidates, build_task_candidates, event_instances_query, read_from,
    task_instances_query, today_candidates, week_candidates, week_days, week_response, DayReads,
    EventReads, PlannedDay,
};
use crate::api::task;
use crate::dates::{Date, Timestamp};
use crate::horizon::{first_layout, horizon_window};
use crate::ids::EventId;
use crate::jobs::calendar_sync::{
    expanded, gather_occurrences, listed, sync_report, ListStage, Sweep, SweepStage, SyncOutcome,
};
use crate::jobs::recurrence_horizon;
use crate::model::event::{Event, EventOverride};
use crate::model::grocery::GroceryList;
use crate::model::meal::Meal;
use crate::model::task::{RecurrenceRule, Task, TaskInstance};
use crate::reply::StorageFailure;

verus! {

/// Days are counted on up to the end of the year 9999, and back to the start of the
/// year -9999.
pub proof fn calendar_ends_with_four_digits(date: Date, at: Timestamp, days: u32)
    ensures
        date@ + days <= 5373484 ==> call_requires(Date::plus_days, (date, days)),
        -1930999 <= date@ - days ==> call_requires(Date::minus_days, (date, days)),
        at@.julian_day + days <= 5373484 ==> call_requires(Timestamp::plus_days, (at, days)),
        -1930999 <= at@.julian_day - days ==> call_requires(Timestamp::minus_days, (at, days)),
{
}

/// Whatever is at least sixty days before the end of the calendar can be laid out,
/// and what does not recur always can.
pub proof fn layouts_need_sixty_days(
    at: Timestamp,
    rule: Option<RecurrenceRule>,
    task: Task,
    event: Event,
    stage: ListStage,
    events: Result<Vec<Event>, StorageFailure>,
    tasks: Result<Vec<Task>, StorageFailure>,
)
    ensures
        at@.julian_day <= 5373424 ==> call_requires(horizon_window, (at,)),
        rule is None || at@.julian_day <= 5373424 ==> call_requires(first_layout, (&rule, at)),
        task.recurrence is None || task.created_at@.julian_day <= 5373424 ==> call_requires(
            task::layout_window,
            (&task,),
        ),
        event.recurrence is None || event.created_at@.julian_day <= 5373424 ==> call_requires(
            event::layout_window,
            (&event,),
        ),
        events is Err || stage.now@.julian_day <= 5373424 ==> call_requires(
            listed,
            (stage, events),
        ),
        -1930969 <= at@.julian_day <= 5373424 ==> call_requires(
            recurrence_horizon::run_once,
            (tasks, at),
        ),
{
}

/// The views take any day but the very first two, and any week that ends within the
/// calendar; for each task and each event there is one read.
pub proof fn views_take_any_day(
    task: Task,
    event: Event,
    overlays: Vec<EventOverride>,
    day: Date,
    tasks: Vec<Task>,
    reads: Vec<Result<Vec<TaskInstance>, StorageFailure>>,
    events: EventReads,
    meals: Result<Vec<Meal>, StorageFailure>,
)
    requires
        reads@.len() == tasks@.len(),
        events.events is Ok ==> events.instances@.len() == (events.events->Ok_0)@.len(),
    ensures
        -1930997 <= day@ ==> {
            &&& call_requires(read_from, (day,))
            &&& call_requires(task_instances_query, (&task, day))
            &&& call_requires(event_instances_query, (&event, &overlays, day))
        },
        call_requires(build_task_candidates, (&tasks, &reads, day)),
        call_requires(build_event_candidates, (&events, day)),
        call_requires(today_candidates, (&tasks, &reads, &events, &meals, day)),
{
}

/// A week can be shown if it ends within the calendar.
pub proof fn weeks_end_within_the_calendar(
    start: Date,
    tasks: Vec<Task>,
    reads: Vec<DayReads>,
    plan: Vec<PlannedDay>,
)
    requires
        start@ <= 5373478,
        reads@.len() == 7,
        forall|d: int|
            0 <= d < 7 ==> {
                &&& (#[trigger] reads@[d]).task_instances@.len() == tasks@.len()
                &&& reads@[d].events.events is Ok ==> reads@[d].events.instances@.len() == (
                reads@[d].events.events->Ok_0)@.len()
            },
    ensures
        call_requires(week_days, (start,)),
        call_requires(week_candidates, (&tasks, &reads, start)),
        call_requires(week_response, (start, &plan)),
{
}

/// Additions can be planned for any days that are named, and for the current week
/// if it ends within the calendar.
pub proof fn additions_are_planned_for_any_days(
    list: Result<Option<GroceryList>, StorageFailure>,
    params: GenerateQuery,
    now: Timestamp,
)
    ensures
        now@.julian_day <= 5373478 ==> call_requires(current_week_bounds, (now,)),
        params.from is Some || params.to is Some || now@.julian_day <= 5373478 ==> call_requires(
            generate_grocery_items,
            (list, params, now),
        ),
        !(list is Ok && list->Ok_0 is Some) ==> call_requires(
            generate_grocery_items,
            (list, params, now),
        ),
{
}

/// Instances and rows are made of as many identifiers as times, and upcoming ones
/// are listed from as many reads as tasks.
pub proof fn there_is_one_of_each(
    task: Task,
    times: Vec<Timestamp>,
    ids: Vec<u128>,
    event_id: EventId,
    occurrences: Vec<(EventId, Timestamp)>,
    tasks: Vec<Task>,
    reads: Vec<Result<Vec<TaskInstance>, StorageFailure>>,
    limit: i64,
    sweeps: Vec<Sweep>,
    expansions: Vec<Vec<Timestamp>>,
    stage: SweepStage,
)
    ensures
        ids@.len() == times@.len() ==> call_requires(task::instances_with, (&task, &times, &ids)),
        ids@.len() == times@.len() ==> call_requires(
            event::event_instances_with,
            (event_id, &times, &ids),
        ),
        ids@.len() == occurrences@.len() ==> call_requires(
            event::event_rows_with,
            (&occurrences, &ids),
        ),
        reads@.len() == tasks@.len() ==> call_requires(
            task::listed_upcoming,
            (&tasks, &reads, limit),
        ),
        expansions@.len() == sweeps@.len() ==> call_requires(
            gather_occurrences,
            (&sweeps, &expansions),
        ),
        expansions@.len() == stage.sweeps@.len() ==> call_requires(expanded, (stage, &expansions)),
{
}

proof fn few_outcomes_add_up(outcomes: Seq<Result<SyncOutcome, String>>, most: nat)
    requires
        forall|k: int|
            0 <= k < outcomes.len() && outcomes[k] is Ok ==> (
            #[trigger] outcomes[k])->Ok_0.events_upserted <= most && outcomes[k]->Ok_0.events_pruned
                <= most,
    ensures
        crate::jobs::calendar_sync::total_upserted(outcomes) <= outcomes.len() * most,
        crate::jobs::calendar_sync::total_pruned(outcomes) <= outcomes.len() * most,
    decreases outcomes.len(),
{
    if outcomes.len() > 0 {
        let fewer = outcomes.drop_last();
        assert forall|k: int| 0 <= k < fewer.len() && fewer[k] is Ok implies (
        #[trigger] fewer[k])->Ok_0.events_upserted <= most && fewer[k]->Ok_0.events_pruned
            <= most by {
            assert(fewer[k] == outcomes[k]);
        }
        few_outcomes_add_up(fewer, most);
        let last = outcomes.len() - 1;
        assert(outcomes[last] == outcomes.last());
        assert(outcomes.len() * most == fewer.len() * most + most) by (nonlinear_arith)
            requires
                outcomes.len() == fewer.len() + 1,
        ;
    }
}

proof fn few_counts_add_up(outcomes: Seq<Result<usize, String>>, most: nat)
    requires
        forall|k: int|
            0 <= k < outcomes.len() && outcomes[k] is Ok ==> (#[trigger] outcomes[k])->Ok_0 <= most,
    ensures
        recurrence_horizon::total_kept(outcomes) <= outcomes.len() * most,
    decreases outcomes.len(),
{
    if outcomes.len() > 0 {
        let fewer = outcomes.drop_last();
        assert forall|k: int| 0 <= k < fewer.len() && fewer[k] is Ok implies (
        #[trigger] fewer[k])->Ok_0 <= most by {
            assert(fewer[k] == outcomes[k]);
        }
        few_counts_add_up(fewer, most);
        let last = outcomes.len() - 1;
        assert(outcomes[last] == outcomes.last());
        assert(outcomes.len() * most == fewer.len() * most + most) by (nonlinear_arith)
            requires
                outcomes.len() == fewer.len() + 1,
        ;
    }
}

/// A pass over up to sixty thousand calendars or tasks, with as many events or
/// instances each, is always reported.
pub proof fn passes_are_reported(
    outcomes: Vec<Result<SyncOutcome, String>>,
    counts: Vec<Result<usize, String>>,
    removed: Result<u64, StorageFailure>,
)
    requires
        outcomes@.len() <= 60_000,
        forall|k: int|
            0 <= k < outcomes@.len() && outcomes@[k] is Ok ==> (
            #[trigger] outcomes@[k])->Ok_0.events_upserted <= 60_000
                && outcomes@[k]->Ok_0.events_pruned <= 60_000,
        counts@.len() <= 60_000,
        forall|k: int|
            0 <= k < counts@.len() && counts@[k] is Ok ==> (#[trigger] counts@[k])->Ok_0 <= 60_000,
    ensures
        call_requires(sync_report, (&outcomes,)),
        call_requires(recurrence_horizon::horizon_report, (&counts, removed)),
{
    few_outcomes_add_up(outcomes@, 60_000);
    few_counts_add_up(counts@, 60_000);
}

} // verus!
