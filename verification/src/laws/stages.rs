//! The stages of a synchronisation and of the upkeep of recurring tasks: what each
//! hands on to the next.

use vstd::prelude::*;

use crate::dates::Timestamp;
use crate::feeds::FetchError;
use crate::ids::{hyphenated, is_version_7, EventId};
use crate::jobs::calendar_sync::{
    build_events, expanded, fetched, gather_occurrences, instances_kept, listed, occurrences_of,
    parsed, pruned, recorded, run_once, swept, sync_one, sync_report, upserted, FetchStage,
    InstanceStage, ListStage, ParseStage, ParsedEvent, PruneStage, RecordStage, Sweep, SweepStage,
    SyncOutcome, SyncReport, UpsertStage,
};
use crate::jobs::recurrence_horizon;
use crate::jobs::recurrence_horizon::{HorizonPass, HorizonReport};
use crate::laws::jobs::{
    every_stored_event_is_swept, fit_events_are_kept, horizon_report_is_a_sum, is_copy_of, is_fit,
    is_its_row, listed_uids_are_spared, pass_is_the_enabled_in_order, report_is_a_sum,
};
use crate::model::calendar::StoredCalendar;
use crate::model::event::Event;
use crate::model::task::{Task, TaskFilter, TaskInstance};
use crate::reply::StorageFailure;

verus! {

// ─── Download and parse ───────────────────────────────────────────────────────

/// A synchronisation starts with the calendar as it is stored.
pub proof fn synchronisation_starts_with_the_calendar(
    stored: StoredCalendar,
    now: Timestamp,
    stage: FetchStage,
)
    requires
        call_ensures(sync_one, (stored, now), stage),
    ensures
        stage.stored == stored,
        stage.now == now,
{
}

/// Whether a record says that a calendar failed, and leaves what is known of its
/// last success.
pub open spec fn is_failure_of(
    record: RecordStage,
    stored: StoredCalendar,
    error: Seq<char>,
) -> bool {
    &&& record.calendar_id == stored.calendar.id
    &&& record.state.last_error is Some
    &&& (record.state.last_error->0)@ == error
    &&& record.state.last_synced_at == stored.sync.last_synced_at
    &&& record.state.event_count == stored.sync.event_count
    &&& record.outcome.events_upserted == 0
    &&& record.outcome.events_pruned == 0
}

/// What is said of a failed download.
pub open spec fn is_said_of(text: Seq<char>, error: FetchError) -> bool {
    match error {
        FetchError::Request(reason) => text == "request failed: "@ + reason@,
        FetchError::TooLarge => text == "response exceeded 5242880 bytes"@,
        FetchError::BadStatus(status) => text == "unexpected status: "@ + crate::text::decimal(
            status as nat,
        ),
    }
}

/// What was downloaded is parsed; a download that failed is recorded as
/// unreachable, and nothing else happens.
pub proof fn download_is_parsed_or_unreachable(
    stage: FetchStage,
    reply: Result<String, FetchError>,
    r: Result<ParseStage, RecordStage>,
)
    requires
        call_ensures(fetched, (stage, reply), r),
    ensures
        r is Ok <==> reply is Ok,
        r matches Ok(next) ==> {
            &&& next.stored == stage.stored
            &&& next.now == stage.now
            &&& next.text@ == (reply->Ok_0)@
        },
        r matches Err(record) ==> {
            &&& record.state.last_status is Unreachable
            &&& record.state.last_error is Some
            &&& is_said_of((record.state.last_error->0)@, reply->Err_0)
            &&& is_failure_of(record, stage.stored, (record.state.last_error->0)@)
        },
{
}

/// Of a parsed feed every fit event is kept, as the feed has it and in its order;
/// a feed that cannot be parsed is recorded as such, and nothing else happens.
pub proof fn parsed_feed_is_kept_or_a_parse_error(
    stage: ParseStage,
    reply: Result<Vec<ParsedEvent>, String>,
    r: Result<UpsertStage, RecordStage>,
)
    requires
        call_ensures(parsed, (stage, reply), r),
    ensures
        r is Ok <==> reply is Ok,
        r matches Ok(next) ==> {
            let fit = (reply->Ok_0)@.filter(|p: ParsedEvent| is_fit(p));
            &&& next.calendar_id == stage.stored.calendar.id
            &&& next.now == stage.now
            &&& next.parsed@ == (reply->Ok_0)@
            &&& next.events@.len() == fit.len()
            &&& forall|k: int|
                0 <= k < fit.len() ==> is_copy_of(
                    #[trigger] next.events@[k],
                    fit[k],
                    hyphenated(stage.stored.calendar.id.0),
                    stage.now,
                )
        },
        r matches Err(record) ==> {
            &&& record.state.last_status is ParseError
            &&& is_failure_of(record, stage.stored, (reply->Err_0)@)
        },
{
    if let Ok(next) = r {
        fit_events_are_kept(
            (reply->Ok_0)@,
            next.events@,
            hyphenated(stage.stored.calendar.id.0),
            stage.now,
        );
    }
}

/// Every fit event of a feed is kept, as the feed has it and in its order.
pub proof fn fit_events_are_built(
    feed: Vec<ParsedEvent>,
    calendar: &str,
    now: Timestamp,
    events: Vec<Event>,
)
    requires
        call_ensures(build_events, (&feed, calendar, now), events),
    ensures
        ({
            let fit = feed@.filter(|p: ParsedEvent| is_fit(p));
            &&& events@.len() == fit.len()
            &&& forall|k: int|
                0 <= k < fit.len() ==> is_copy_of(#[trigger] events@[k], fit[k], calendar@, now)
        }),
{
    fit_events_are_kept(feed@, events@, calendar@, now);
}

// ─── Prune and sweep ──────────────────────────────────────────────────────────

/// Whether a text names a storage call that failed and repeats what storage said.
pub open spec fn says_call_failed(
    text: Seq<char>,
    call: Seq<char>,
    failure: StorageFailure,
) -> bool {
    text == call + failure.message@
}

/// Once the events are kept, every UID of the feed is spared from the removal that
/// follows, whether or not its event was kept, and no other is.
pub proof fn every_uid_of_the_feed_is_spared(
    stage: UpsertStage,
    reply: Result<(), StorageFailure>,
    r: Result<PruneStage, String>,
)
    requires
        call_ensures(upserted, (stage, reply), r),
    ensures
        r is Ok <==> reply is Ok,
        r matches Ok(next) ==> {
            &&& next.calendar_id == stage.calendar_id
            &&& next.now == stage.now
            &&& next.parsed@ == stage.parsed@
            &&& next.events_upserted == stage.events@.len()
            &&& next.uids@.len() == stage.parsed@.len()
            &&& forall|k: int|
                0 <= k < stage.parsed@.len() ==> (#[trigger] next.uids@[k])@
                    == stage.parsed@[k].uid@
        },
        r matches Err(message) ==> says_call_failed(
            message@,
            "upsert_external_events: "@,
            reply->Err_0,
        ),
{
    if let Ok(next) = r {
        listed_uids_are_spared(stage.parsed@, next.uids@);
    }
}

/// What was removed is counted, beside what was kept.
pub proof fn removals_are_counted(
    stage: PruneStage,
    reply: Result<u64, StorageFailure>,
    r: Result<ListStage, String>,
)
    requires
        call_ensures(pruned, (stage, reply), r),
    ensures
        r is Ok <==> reply is Ok,
        r matches Ok(next) ==> {
            &&& next.calendar_id == stage.calendar_id
            &&& next.now == stage.now
            &&& next.parsed@ == stage.parsed@
            &&& next.outcome.events_upserted == stage.events_upserted
            &&& next.outcome.events_pruned == reply->Ok_0
        },
        r matches Err(message) ==> says_call_failed(
            message@,
            "prune_events_missing_from_feed: "@,
            reply->Err_0,
        ),
{
}

/// Whether the sweeps are those of a feed: for every event of the feed that is
/// stored for the calendar exactly one, under an identifier that it is stored
/// under, in the order of the feed; and no other.
pub open spec fn sweep_the_stored(
    sweeps: Seq<Sweep>,
    feed: Seq<ParsedEvent>,
    events: Seq<Event>,
    calendar: Seq<char>,
) -> bool {
    &&& forall|k: int, j: int|
        0 <= k < feed.len() && 0 <= j < events.len() && is_its_row(
            #[trigger] events[j],
            #[trigger] feed[k],
            calendar,
        ) ==> exists|s: int| 0 <= s < sweeps.len() && (#[trigger] sweeps[s]).parsed_index == k
    &&& forall|s: int|
        0 <= s < sweeps.len() ==> {
            &&& (#[trigger] sweeps[s]).parsed_index < feed.len()
            &&& exists|j: int|
                0 <= j < events.len() && is_its_row(
                    #[trigger] events[j],
                    feed[sweeps[s].parsed_index as int],
                    calendar,
                ) && events[j].id == sweeps[s].event_id
        }
    &&& forall|s: int, t: int|
        0 <= s < t < sweeps.len() ==> (#[trigger] sweeps[s]).parsed_index < (
        #[trigger] sweeps[t]).parsed_index
}

/// Every event of the feed that is stored for the calendar is swept exactly once,
/// over the sixty days from now on; nothing else about it decides whether it is,
/// and nothing else is swept.
pub proof fn stored_events_of_the_feed_are_swept(
    stage: ListStage,
    reply: Result<Vec<Event>, StorageFailure>,
    r: Result<SweepStage, String>,
)
    requires
        stage.parsed@.len() <= usize::MAX,
        call_ensures(listed, (stage, reply), r),
    ensures
        r is Ok <==> reply is Ok,
        r matches Ok(next) ==> {
            &&& next.calendar_id == stage.calendar_id
            &&& next.now == stage.now
            &&& next.window.from == stage.now
            &&& next.window.until@.julian_day == stage.now@.julian_day + 60
            &&& next.window.until@.nanos_of_day == stage.now@.nanos_of_day
            &&& next.window.until@.offset_seconds == stage.now@.offset_seconds
            &&& next.parsed@ == stage.parsed@
            &&& sweep_the_stored(
                next.sweeps@,
                stage.parsed@,
                (reply->Ok_0)@,
                hyphenated(stage.calendar_id.0),
            )
            &&& next.outcome == stage.outcome
        },
        r matches Err(message) ==> says_call_failed(message@, "list_events: "@, reply->Err_0),
{
    if let Ok(next) = r {
        every_stored_event_is_swept(
            stage.parsed@,
            (reply->Ok_0)@,
            hyphenated(stage.calendar_id.0),
            next.sweeps@,
        );
    }
}

/// A sweep that failed is reported.
pub proof fn failed_sweep_is_reported(
    reply: Result<(), StorageFailure>,
    r: Result<(), String>,
)
    requires
        call_ensures(swept, (reply,), r),
    ensures
        r is Ok <==> reply is Ok,
        r matches Err(message) ==> says_call_failed(
            message@,
            "delete_future_event_instances: "@,
            reply->Err_0,
        ),
{
}

/// The occurrences of the sweeps: for each sweep its event at each time that it
/// was expanded to.
pub open spec fn swept_times(sweeps: Seq<Sweep>, expansions: Seq<Vec<Timestamp>>) -> Seq<
    (EventId, Timestamp),
> {
    Seq::new(
        sweeps.len(),
        |s: int| expansions[s]@.map_values(|at: Timestamp| (sweeps[s].event_id, at)),
    ).flatten()
}

proof fn occurrences_are_the_swept_times(sweeps: Seq<Sweep>, expansions: Seq<Vec<Timestamp>>)
    ensures
        occurrences_of(sweeps, expansions) == swept_times(sweeps, expansions),
    decreases sweeps.len(),
{
    let parts = Seq::new(
        sweeps.len(),
        |s: int| expansions[s]@.map_values(|at: Timestamp| (sweeps[s].event_id, at)),
    );
    parts.lemma_flatten_and_flatten_alt_are_equivalent();
    if sweeps.len() == 0 {
        assert(parts.flatten() =~= Seq::empty());
    } else {
        let fewer = sweeps.drop_last();
        let fewer_parts = Seq::new(
            fewer.len(),
            |s: int| expansions[s]@.map_values(|at: Timestamp| (fewer[s].event_id, at)),
        );
        occurrences_are_the_swept_times(fewer, expansions);
        fewer_parts.lemma_flatten_and_flatten_alt_are_equivalent();
        assert(parts.drop_last() =~= fewer_parts) by {
            assert forall|s: int| 0 <= s < fewer.len() implies parts[s] == fewer_parts[s] by {
                assert(parts[s] =~= fewer_parts[s]);
            }
        }
        let last = sweeps.len() - 1;
        assert(parts.last() =~= crate::jobs::calendar_sync::occurrences_at(
            sweeps[last].event_id,
            expansions[last]@,
        ));
    }
}

/// The occurrences that are gathered are the swept events at all the times that
/// they were expanded to, sweep by sweep.
pub proof fn every_swept_time_is_gathered(
    sweeps: Vec<Sweep>,
    expansions: Vec<Vec<Timestamp>>,
    r: Vec<(EventId, Timestamp)>,
)
    requires
        call_ensures(gather_occurrences, (&sweeps, &expansions), r),
    ensures
        r@ == swept_times(sweeps@, expansions@),
{
    occurrences_are_the_swept_times(sweeps@, expansions@);
}

/// Each swept event gets a row for each time that it was expanded to, sweep by
/// sweep, and there is no other row.
pub proof fn every_swept_time_gets_a_row(
    stage: SweepStage,
    expansions: Vec<Vec<Timestamp>>,
    r: InstanceStage,
)
    requires
        call_ensures(expanded, (stage, &expansions), r),
    ensures
        r.calendar_id == stage.calendar_id,
        r.now == stage.now,
        r.outcome == stage.outcome,
        ({
            let times = swept_times(stage.sweeps@, expansions@);
            &&& r.instances@.len() == times.len()
            &&& forall|k: int|
                0 <= k < times.len() ==> {
                    &&& (#[trigger] r.instances@[k]).event_id == times[k].0
                    &&& r.instances@[k].scheduled_at == times[k].1
                    &&& exists|uuid: u128|
                        is_version_7(uuid) && r.instances@[k].id@ == #[trigger] hyphenated(uuid)
                }
        }),
{
    occurrences_are_the_swept_times(stage.sweeps@, expansions@);
    let times = swept_times(stage.sweeps@, expansions@);
    assert forall|k: int| 0 <= k < times.len() implies {
        &&& (#[trigger] r.instances@[k]).event_id == times[k].0
        &&& r.instances@[k].scheduled_at == times[k].1
        &&& exists|uuid: u128|
            is_version_7(uuid) && r.instances@[k].id@ == #[trigger] hyphenated(uuid)
    } by {
        assert(crate::api::event::is_instance_at(r.instances@[k], times[k].0, times[k].1));
    }
}

// ─── Record and report ────────────────────────────────────────────────────────

/// Once the rows are kept, the success is recorded, with its time and the number
/// of events as far as it can be.
pub proof fn success_is_what_is_recorded(
    stage: InstanceStage,
    reply: Result<(), StorageFailure>,
    r: Result<RecordStage, String>,
)
    requires
        call_ensures(instances_kept, (stage, reply), r),
    ensures
        r is Ok <==> reply is Ok,
        r matches Ok(record) ==> {
            &&& record.calendar_id == stage.calendar_id
            &&& record.state.last_synced_at == Some(stage.now)
            &&& record.state.last_status is Synced
            &&& record.state.last_error is None
            &&& stage.outcome.events_upserted <= 4_294_967_295 ==> record.state.event_count
                == stage.outcome.events_upserted
            &&& stage.outcome.events_upserted > 4_294_967_295 ==> record.state.event_count
                == 4_294_967_295
            &&& record.outcome == stage.outcome
        },
        r matches Err(message) ==> says_call_failed(
            message@,
            "upsert_event_instances: "@,
            reply->Err_0,
        ),
{
}

/// Once the state is recorded, the synchronisation ends with what it did.
pub proof fn recorded_synchronisation_ends(
    stage: RecordStage,
    reply: Result<(), StorageFailure>,
    r: Result<SyncOutcome, String>,
)
    requires
        call_ensures(recorded, (stage, reply), r),
    ensures
        r is Ok <==> reply is Ok,
        r matches Ok(outcome) ==> outcome == stage.outcome,
        r matches Err(message) ==> says_call_failed(
            message@,
            "update_calendar_sync_state: "@,
            reply->Err_0,
        ),
{
}

/// A pass synchronises just the calendars that are switched on, in their order.
pub proof fn pass_takes_the_enabled_calendars(
    read: Result<Vec<StoredCalendar>, StorageFailure>,
    r: Result<Vec<StoredCalendar>, String>,
)
    requires
        call_ensures(run_once, (read,), r),
    ensures
        r is Ok <==> read is Ok,
        r matches Ok(enabled) ==> enabled@ == (read->Ok_0)@.filter(
            |c: StoredCalendar| c.calendar.enabled,
        ),
        r matches Err(message) ==> says_call_failed(message@, "list_calendars: "@, read->Err_0),
{
    if let Ok(calendars) = read {
        pass_is_the_enabled_in_order(calendars@);
    }
}

/// What a pass reports is a sum: a calendar more adds itself and what was done for
/// it, wherever it stands, one that failed adds nothing, and without calendars
/// nothing was done.
pub proof fn pass_reports_a_sum(
    outcomes: Vec<Result<SyncOutcome, String>>,
    report: SyncReport,
    more: Vec<Result<SyncOutcome, String>>,
    longer: SyncReport,
    i: int,
)
    requires
        call_ensures(sync_report, (&outcomes,), report),
        call_ensures(sync_report, (&more,), longer),
        0 <= i < more@.len(),
        outcomes@ == more@.remove(i),
    ensures
        more@[i] is Err ==> longer == report,
        more@[i] matches Ok(outcome) ==> {
            &&& longer.calendars_synced == report.calendars_synced + 1
            &&& longer.events_upserted == report.events_upserted + outcome.events_upserted
            &&& longer.events_pruned == report.events_pruned + outcome.events_pruned
        },
        outcomes@.len() == 0 ==> report == (SyncReport {
            calendars_synced: 0,
            events_upserted: 0,
            events_pruned: 0,
        }),
{
    assert(outcomes@.insert(i, more@[i]) =~= more@);
    report_is_a_sum(outcomes@, more@[i], i);
    if outcomes@.len() == 0 {
        assert(outcomes@ =~= Seq::empty());
    }
}

// ─── Upkeep of recurring tasks ────────────────────────────────────────────────

/// A pass over the recurring tasks reads all tasks, lays out the sixty days from
/// now on, and removes what is more than thirty days past.
pub proof fn pass_lays_out_all_tasks(
    filter: TaskFilter,
    read: Result<Vec<Task>, StorageFailure>,
    now: Timestamp,
    r: Result<HorizonPass, String>,
)
    requires
        call_ensures(recurrence_horizon::tasks_to_read, (), filter),
        call_ensures(recurrence_horizon::run_once, (read, now), r),
    ensures
        filter.status is None,
        filter.tag is None,
        filter.due_before is None,
        r is Ok <==> read is Ok,
        r matches Ok(pass) ==> {
            &&& pass.tasks@ == (read->Ok_0)@
            &&& pass.window.from == now
            &&& pass.window.until@.julian_day == now@.julian_day + 60
            &&& pass.window.until@.nanos_of_day == now@.nanos_of_day
            &&& pass.window.until@.offset_seconds == now@.offset_seconds
            &&& pass.prune_before@.julian_day == now@.julian_day - 30
            &&& pass.prune_before@.nanos_of_day == now@.nanos_of_day
            &&& pass.prune_before@.offset_seconds == now@.offset_seconds
        },
        r matches Err(message) ==> says_call_failed(message@, "list_tasks: "@, read->Err_0),
{
}

/// A one-shot task gets no instances; a recurring one gets one for each time that
/// its rule was expanded to.
pub proof fn recurring_task_is_laid_out(
    task: Task,
    times: Result<Vec<Timestamp>, String>,
    r: Result<Option<Vec<TaskInstance>>, String>,
)
    requires
        call_ensures(recurrence_horizon::materialise_task_to_horizon, (&task, times), r),
    ensures
        task.recurrence is None ==> r is Ok && r->Ok_0 is None,
        task.recurrence is Some ==> (r is Ok <==> times is Ok),
        task.recurrence is Some && times is Ok ==> {
            &&& r->Ok_0 is Some
            &&& ((r->Ok_0)->0)@.len() == (times->Ok_0)@.len()
            &&& forall|k: int|
                0 <= k < (times->Ok_0)@.len() ==> {
                    &&& (#[trigger] ((r->Ok_0)->0)@[k]).task_id == task.id
                    &&& ((r->Ok_0)->0)@[k].scheduled_at == (times->Ok_0)@[k]
                    &&& ((r->Ok_0)->0)@[k].current_assignee_id == task.current_assignee_id
                }
        },
        task.recurrence is Some && times is Err ==> (r->Err_0)@ == "materialise_instances: "@ + (
        times->Err_0)@,
{
    if task.recurrence is Some && times is Ok {
        let instances = (r->Ok_0)->0;
        assert forall|k: int| 0 <= k < (times->Ok_0)@.len() implies {
            &&& (#[trigger] instances@[k]).task_id == task.id
            &&& instances@[k].scheduled_at == (times->Ok_0)@[k]
            &&& instances@[k].current_assignee_id == task.current_assignee_id
        } by {
            assert(crate::api::task::is_instance_at(instances@[k], task, (times->Ok_0)@[k]));
        }
    }
}

/// Instances that were kept are counted, each of them.
pub proof fn kept_instances_are_counted(
    instances: Vec<TaskInstance>,
    kept: Result<(), StorageFailure>,
    r: Result<usize, String>,
)
    requires
        call_ensures(recurrence_horizon::instances_kept, (&instances, kept), r),
    ensures
        r is Ok <==> kept is Ok,
        r matches Ok(count) ==> count == instances@.len(),
        r matches Err(message) ==> says_call_failed(
            message@,
            "upsert_task_instances: "@,
            kept->Err_0,
        ),
{
}

/// What a pass over the recurring tasks reports is a sum: a task more is seen and
/// adds its instances, wherever it stands, and one that failed is just seen. A
/// removal that failed is reported in its place.
pub proof fn upkeep_reports_a_sum(
    outcomes: Vec<Result<usize, String>>,
    more: Vec<Result<usize, String>>,
    removed: Result<u64, StorageFailure>,
    report: Result<HorizonReport, String>,
    longer: Result<HorizonReport, String>,
    i: int,
)
    requires
        call_ensures(recurrence_horizon::horizon_report, (&outcomes, removed), report),
        call_ensures(recurrence_horizon::horizon_report, (&more, removed), longer),
        0 <= i < more@.len(),
        outcomes@ == more@.remove(i),
    ensures
        report is Ok <==> removed is Ok,
        longer is Ok <==> removed is Ok,
        removed is Ok ==> {
            let (one, other) = (report->Ok_0, longer->Ok_0);
            &&& one.tasks_seen == outcomes@.len()
            &&& other.tasks_seen == more@.len()
            &&& one.instances_pruned == removed->Ok_0
            &&& other.instances_pruned == removed->Ok_0
            &&& more@[i] is Err ==> other.instances_materialised == one.instances_materialised
            &&& more@[i] matches Ok(count) ==> other.instances_materialised
                == one.instances_materialised + count
            &&& outcomes@.len() == 0 ==> one.instances_materialised == 0
        },
        removed is Err ==> says_call_failed(
            (report->Err_0)@,
            "prune_old_instances: "@,
            removed->Err_0,
        ),
{
    assert(outcomes@.insert(i, more@[i]) =~= more@);
    horizon_report_is_a_sum(outcomes@, more@[i], i);
    if outcomes@.len() == 0 {
        assert(outcomes@ =~= Seq::empty());
    }
}

/// Calendars are synchronised four times a day and the recurring tasks laid out
/// anew once a day, long before the stretch that is laid out ends. A download is
/// given up after twenty seconds and five redirects.
pub proof fn jobs_run_often_enough()
    ensures
        4 * crate::jobs::calendar_sync::RUN_INTERVAL_SECS == 86_400,
        recurrence_horizon::RUN_INTERVAL_SECS == 86_400,
        recurrence_horizon::RUN_INTERVAL_SECS < 86_400 * crate::horizon::HORIZON_DAYS,
        crate::feeds::REQUEST_TIMEOUT_SECS == 20,
        crate::feeds::MAX_REDIRECTS == 5,
{
}

} // verus!
