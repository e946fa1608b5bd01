//! The synchronisation of subscribed calendars.
//!
//! One synchronisation of a calendar is a chain of stages, each of which holds
//! what has to be asked for next. The feed is downloaded and parsed, its events
//! are kept, events that left the feed are pruned, and the occurrences of the
//! others are laid out afresh. A download or a parse that fails leaves all of
//! that undone and only records the failure, so that the household goes on
//! seeing what it saw before.

use vstd::prelude::*;

use crate::api::event::{event_rows_with, is_instance_at};
use crate::dates::{Timestamp, LAST_DAY};
use crate::feeds::FetchError;
use crate::horizon::{horizon_window, Window, HORIZON_DAYS};
use crate::ids::{hyphenated, is_version_7, new_uuids, uuid_text, CalendarId, EventId};
use crate::model::calendar::{CalendarSyncState, StoredCalendar, SyncStatus};
use crate::model::event::{Event, EventDraft, EventInstance, EventSource};
use crate::reply::StorageFailure;
use crate::text::{blank, join, same_text, text_of, texts};

verus! {

/// How often the job runs, in seconds.
pub const RUN_INTERVAL_SECS: u64 = 21_600;

/// An event as the parser read it from a feed.
#[derive(Clone, Debug)]
pub struct ParsedEvent {
    /// Identifies the event in its feed.
    pub uid: String,
    /// One-line title.
    pub summary: String,
    /// When it starts.
    pub start: Timestamp,
    /// When it ends.
    pub end: Option<Timestamp>,
    /// Whether it takes the whole day.
    pub all_day: bool,
}

/// What one pass over all calendars did.
#[derive(Clone, Copy, Debug, PartialEq, Eq, Structural)]
pub struct SyncReport {
    /// Calendars whose synchronisation came to an end, whether or not their
    /// feed was good.
    pub calendars_synced: usize,
    /// Events that were handed to storage.
    pub events_upserted: usize,
    /// Events that were removed because they left their feed.
    pub events_pruned: u64,
}

/// What the synchronisation of one calendar did.
#[derive(Clone, Copy, Debug, PartialEq, Eq, Structural)]
pub struct SyncOutcome {
    /// Events that were handed to storage.
    pub events_upserted: usize,
    /// Events that were removed because they left their feed.
    pub events_pruned: u64,
}

// ─── Download and parse ───────────────────────────────────────────────────────

/// The feed has to be downloaded from the address of the calendar.
#[derive(Debug)]
pub struct FetchStage {
    /// The calendar.
    pub stored: StoredCalendar,
    /// When the synchronisation takes place.
    pub now: Timestamp,
}

/// The text of the feed has to be parsed.
#[derive(Debug)]
pub struct ParseStage {
    /// The calendar.
    pub stored: StoredCalendar,
    /// When the synchronisation takes place.
    pub now: Timestamp,
    /// The text of the feed.
    pub text: String,
}

/// The state of the calendar has to be recorded. After that the
/// synchronisation is at its end.
#[derive(Debug)]
pub struct RecordStage {
    /// The calendar.
    pub calendar_id: CalendarId,
    /// The state to record.
    pub state: CalendarSyncState,
    /// What the synchronisation did.
    pub outcome: SyncOutcome,
}

/// Starts the synchronisation of a calendar.
pub fn sync_one(stored: StoredCalendar, now: Timestamp) -> (r: FetchStage)
    ensures
        r == (FetchStage { stored, now }),
{
    FetchStage { stored, now }
}

/// Whether `record` records a failure of the given kind: what was known of the
/// last success stays, and nothing was kept or removed.
pub open spec fn records_failure(
    record: RecordStage,
    stored: StoredCalendar,
    status: SyncStatus,
    error: Seq<char>,
) -> bool {
    &&& record.calendar_id == stored.calendar.id
    &&& record.state.last_synced_at == stored.sync.last_synced_at
    &&& record.state.last_status == status
    &&& text_of(record.state.last_error) == Some(error)
    &&& record.state.event_count == stored.sync.event_count
    &&& record.outcome == (SyncOutcome { events_upserted: 0, events_pruned: 0 })
}

fn failure_record(stored: &StoredCalendar, status: SyncStatus, error: String) -> (r: RecordStage)
    ensures
        records_failure(r, *stored, status, error@),
{
    RecordStage {
        calendar_id: stored.calendar.id,
        state: CalendarSyncState {
            last_synced_at: stored.sync.last_synced_at,
            last_status: status,
            last_error: Some(error),
            event_count: stored.sync.event_count,
        },
        outcome: SyncOutcome { events_upserted: 0, events_pruned: 0 },
    }
}

/// Goes on after the download: to the parse, or to recording that the feed is
/// unreachable.
pub fn fetched(stage: FetchStage, reply: Result<String, FetchError>) -> (r: Result<
    ParseStage,
    RecordStage,
>)
    ensures
        match (reply, r) {
            (Ok(text), Ok(next)) => next == (ParseStage {
                stored: stage.stored,
                now: stage.now,
                text,
            }),
            (Err(error), Err(record)) => records_failure(
                record,
                stage.stored,
                SyncStatus::Unreachable,
                error.text(),
            ),
            _ => false,
        },
{
    match reply {
        Ok(text) => Ok(ParseStage { stored: stage.stored, now: stage.now, text }),
        Err(error) => Err(
            failure_record(&stage.stored, SyncStatus::Unreachable, error.message()),
        ),
    }
}

// ─── Events ───────────────────────────────────────────────────────────────────

/// Whether an event of a feed can be kept: its title is not blank, and it does
/// not end before it starts.
pub open spec fn can_be_kept(parsed: ParsedEvent) -> bool {
    &&& !blank(parsed.summary@)
    &&& parsed.end matches Some(end) ==> parsed.start@.instant() <= end@.instant()
}

/// Whether `event` is what an event of a feed is kept as. Its recurrence is left
/// to the feed.
pub open spec fn is_kept_as(
    parsed: ParsedEvent,
    event: Event,
    calendar_id: Seq<char>,
    now: Timestamp,
) -> bool {
    &&& is_version_7(event.id.0)
    &&& event.title@ == parsed.summary@
    &&& event.start_at == parsed.start
    &&& event.end_at == parsed.end
    &&& event.all_day == parsed.all_day
    &&& event.timezone@ == "Europe/Amsterdam"@
    &&& event.location is None
    &&& event.recurrence is None
    &&& event.source.is_from_feed(parsed.uid@, calendar_id, now)
    &&& event.created_at == now
    &&& event.updated_at == now
}

/// Whether `events` are what the events of a feed are kept as: one for each that
/// can be kept, in the order of the feed.
pub open spec fn are_kept_as(
    parsed: Seq<ParsedEvent>,
    events: Seq<Event>,
    calendar_id: Seq<char>,
    now: Timestamp,
) -> bool
    decreases parsed.len(),
{
    if parsed.len() == 0 {
        events.len() == 0
    } else if can_be_kept(parsed.last()) {
        &&& events.len() > 0
        &&& is_kept_as(parsed.last(), events.last(), calendar_id, now)
        &&& are_kept_as(parsed.drop_last(), events.drop_last(), calendar_id, now)
    } else {
        are_kept_as(parsed.drop_last(), events, calendar_id, now)
    }
}

/// What the events of a feed are kept as. One that cannot be kept is left out,
/// and does not keep the others from it.
pub fn build_events(parsed: &Vec<ParsedEvent>, calendar_id: &str, now: Timestamp) -> (r: Vec<
    Event,
>)
    ensures
        are_kept_as(parsed@, r@, calendar_id@, now),
        r@.len() <= parsed@.len(),
{
    let mut out: Vec<Event> = Vec::new();
    for i in 0..parsed.len()
        invariant
            are_kept_as(parsed@.take(i as int), out@, calendar_id@, now),
            out@.len() <= i,
    {
        let p = &parsed[i];
        proof {
            assert(parsed@.take(i + 1).drop_last() =~= parsed@.take(i as int));
        }
        let draft = EventDraft {
            title: p.summary.clone(),
            start_at: p.start,
            end_at: p.end,
            all_day: p.all_day,
            timezone: None,
            location: None,
            recurrence: None,
            source: EventSource::ics(p.uid.clone(), calendar_id.to_owned(), now),
        };
        if let Ok(event) = draft.build(now) {
            proof {
                assert(out@.push(event).drop_last() =~= out@);
            }
            out.push(event);
        }
    }
    proof {
        assert(parsed@.take(parsed@.len() as int) =~= parsed@);
    }
    out
}

/// The events of the feed have to be kept.
#[derive(Debug)]
pub struct UpsertStage {
    /// The calendar.
    pub calendar_id: CalendarId,
    /// When the synchronisation takes place.
    pub now: Timestamp,
    /// The events as the parser read them.
    pub parsed: Vec<ParsedEvent>,
    /// The events to keep.
    pub events: Vec<Event>,
}

/// Goes on after the parse: to keeping the events, or to recording that the
/// feed is not a calendar.
pub fn parsed(stage: ParseStage, reply: Result<Vec<ParsedEvent>, String>) -> (r: Result<
    UpsertStage,
    RecordStage,
>)
    ensures
        match (reply, r) {
            (Ok(events), Ok(next)) => {
                &&& next.calendar_id == stage.stored.calendar.id
                &&& next.now == stage.now
                &&& next.parsed == events
                &&& are_kept_as(
                    events@,
                    next.events@,
                    hyphenated(stage.stored.calendar.id.0),
                    stage.now,
                )
            },
            (Err(error), Err(record)) => records_failure(
                record,
                stage.stored,
                SyncStatus::ParseError,
                error@,
            ),
            _ => false,
        },
{
    match reply {
        Ok(parsed) => {
            let calendar_id = stage.stored.calendar.id;
            let events = build_events(&parsed, uuid_text(calendar_id.0).as_str(), stage.now);
            Ok(UpsertStage { calendar_id, now: stage.now, parsed, events })
        },
        Err(error) => Err(failure_record(&stage.stored, SyncStatus::ParseError, error)),
    }
}

// ─── Prune ────────────────────────────────────────────────────────────────────

/// The events of the calendar whose UID is not listed have to be removed.
#[derive(Debug)]
pub struct PruneStage {
    /// The calendar.
    pub calendar_id: CalendarId,
    /// When the synchronisation takes place.
    pub now: Timestamp,
    /// The events as the parser read them.
    pub parsed: Vec<ParsedEvent>,
    /// How many events were kept.
    pub events_upserted: usize,
    /// Every UID that the feed lists.
    pub uids: Vec<String>,
}

/// The UIDs that a feed lists.
pub open spec fn uids_of(parsed: Seq<ParsedEvent>) -> Seq<Seq<char>> {
    parsed.map_values(|p: ParsedEvent| p.uid@)
}

/// What is said of a storage call that failed.
pub open spec fn call_failure(call: Seq<char>, failure: StorageFailure) -> Seq<char> {
    call + failure.message@
}

/// Goes on after the events were kept: to the removal of those that left the
/// feed. A UID that the feed lists is spared even if its event could not be kept.
pub fn upserted(stage: UpsertStage, reply: Result<(), StorageFailure>) -> (r: Result<
    PruneStage,
    String,
>)
    ensures
        match (reply, r) {
            (Ok(_), Ok(next)) => {
                &&& next.calendar_id == stage.calendar_id
                &&& next.now == stage.now
                &&& next.parsed == stage.parsed
                &&& next.events_upserted == stage.events@.len()
                &&& texts(next.uids@) == uids_of(stage.parsed@)
            },
            (Err(failure), Err(message)) => message@ == call_failure(
                "upsert_external_events: "@,
                failure,
            ),
            _ => false,
        },
{
    if let Err(failure) = reply {
        return Err(join("upsert_external_events: ", failure.message.as_str()));
    }
    let mut uids: Vec<String> = Vec::new();
    for i in 0..stage.parsed.len()
        invariant
            texts(uids@) == uids_of(stage.parsed@.take(i as int)),
    {
        let uid = stage.parsed[i].uid.clone();
        proof {
            assert(texts(uids@.push(uid)) =~= texts(uids@).push(uid@));
            assert(uids_of(stage.parsed@.take(i + 1)) =~= uids_of(
                stage.parsed@.take(i as int),
            ).push(uid@));
        }
        uids.push(uid);
    }
    proof {
        assert(stage.parsed@.take(stage.parsed@.len() as int) =~= stage.parsed@);
    }
    Ok(
        PruneStage {
            calendar_id: stage.calendar_id,
            now: stage.now,
            parsed: stage.parsed,
            events_upserted: stage.events.len(),
            uids,
        },
    )
}

/// The stored events have to be read back, to learn under which identifiers
/// the events of the feed are kept.
#[derive(Debug)]
pub struct ListStage {
    /// The calendar.
    pub calendar_id: CalendarId,
    /// When the synchronisation takes place.
    pub now: Timestamp,
    /// The events as the parser read them.
    pub parsed: Vec<ParsedEvent>,
    /// What the synchronisation did so far.
    pub outcome: SyncOutcome,
}

/// Goes on after the removal: to reading the stored events back.
pub fn pruned(stage: PruneStage, reply: Result<u64, StorageFailure>) -> (r: Result<
    ListStage,
    String,
>)
    ensures
        match (reply, r) {
            (Ok(count), Ok(next)) => next == (ListStage {
                calendar_id: stage.calendar_id,
                now: stage.now,
                parsed: stage.parsed,
                outcome: SyncOutcome {
                    events_upserted: stage.events_upserted,
                    events_pruned: count,
                },
            }),
            (Err(failure), Err(message)) => message@ == call_failure(
                "prune_events_missing_from_feed: "@,
                failure,
            ),
            _ => false,
        },
{
    match reply {
        Ok(count) => Ok(
            ListStage {
                calendar_id: stage.calendar_id,
                now: stage.now,
                parsed: stage.parsed,
                outcome: SyncOutcome {
                    events_upserted: stage.events_upserted,
                    events_pruned: count,
                },
            },
        ),
        Err(failure) => Err(
            join("prune_events_missing_from_feed: ", failure.message.as_str()),
        ),
    }
}

// ─── Occurrences ──────────────────────────────────────────────────────────────

/// Whether a stored event is the event of a calendar's feed with the given UID.
pub open spec fn is_stored_as(event: Event, calendar_id: Seq<char>, uid: Seq<char>) -> bool {
    text_of(event.source.calendar_id) == Some(calendar_id) && text_of(event.source.external_id)
        == Some(uid)
}

/// The identifier that the event of a calendar's feed with the given UID is
/// stored under; of several, the last.
pub open spec fn stored_id(events: Seq<Event>, calendar_id: Seq<char>, uid: Seq<char>) -> Option<
    EventId,
>
    decreases events.len(),
{
    if events.len() == 0 {
        None
    } else if is_stored_as(events.last(), calendar_id, uid) {
        Some(events.last().id)
    } else {
        stored_id(events.drop_last(), calendar_id, uid)
    }
}

fn is_text(text: &Option<String>, wanted: &str) -> (r: bool)
    ensures
        r == (text_of(*text) == Some(wanted@)),
{
    match text {
        Some(s) => same_text(s.as_str(), wanted),
        None => false,
    }
}

fn find_stored_id(events: &Vec<Event>, calendar_id: &str, uid: &str) -> (r: Option<EventId>)
    ensures
        r == stored_id(events@, calendar_id@, uid@),
{
    let mut i: usize = events.len();
    proof {
        assert(events@.take(events@.len() as int) =~= events@);
    }
    while i > 0
        invariant
            i <= events@.len(),
            stored_id(events@, calendar_id@, uid@) == stored_id(
                events@.take(i as int),
                calendar_id@,
                uid@,
            ),
        decreases i,
    {
        let event = &events[i - 1];
        if is_text(&event.source.calendar_id, calendar_id) && is_text(
            &event.source.external_id,
            uid,
        ) {
            return Some(event.id);
        }
        proof {
            assert(events@.take(i as int).drop_last() =~= events@.take(i - 1));
        }
        i = i - 1;
    }
    None
}

/// The future occurrences of one event have to be removed, and its parsed event
/// to be expanded.
#[derive(Clone, Copy, Debug, PartialEq, Eq, Structural)]
pub struct Sweep {
    /// Which of the parsed events it is.
    pub parsed_index: usize,
    /// The identifier that the event is stored under.
    pub event_id: EventId,
}

/// The sweeps that a feed needs: one for each of its events that is stored, in
/// the order of the feed.
pub open spec fn sweeps_of(
    parsed: Seq<ParsedEvent>,
    events: Seq<Event>,
    calendar_id: Seq<char>,
) -> Seq<Sweep>
    decreases parsed.len(),
{
    if parsed.len() == 0 {
        Seq::empty()
    } else {
        let rest = sweeps_of(parsed.drop_last(), events, calendar_id);
        match stored_id(events, calendar_id, parsed.last().uid@) {
            Some(event_id) => rest.push(
                Sweep { parsed_index: (parsed.len() - 1) as usize, event_id },
            ),
            None => rest,
        }
    }
}

/// For each sweep in turn the future occurrences of its event have to be
/// removed, and its parsed event to be expanded over the window.
#[derive(Debug)]
pub struct SweepStage {
    /// The calendar.
    pub calendar_id: CalendarId,
    /// When the synchronisation takes place; occurrences at or after it are
    /// future ones.
    pub now: Timestamp,
    /// The stretch of time to expand over.
    pub window: Window,
    /// The events as the parser read them.
    pub parsed: Vec<ParsedEvent>,
    /// The sweeps.
    pub sweeps: Vec<Sweep>,
    /// What the synchronisation did so far.
    pub outcome: SyncOutcome,
}

/// Goes on after the stored events were read back: to the sweeps.
pub fn listed(stage: ListStage, reply: Result<Vec<Event>, StorageFailure>) -> (r: Result<
    SweepStage,
    String,
>)
    requires
        reply is Ok ==> stage.now@.julian_day + HORIZON_DAYS <= LAST_DAY,
    ensures
        match (reply, r) {
            (Ok(events), Ok(next)) => {
                &&& next.calendar_id == stage.calendar_id
                &&& next.now == stage.now
                &&& next.window.from == stage.now
                &&& next.window.until@ == stage.now@.plus_days(HORIZON_DAYS as int)
                &&& next.parsed == stage.parsed
                &&& next.sweeps@ == sweeps_of(
                    stage.parsed@,
                    events@,
                    hyphenated(stage.calendar_id.0),
                )
                &&& next.outcome == stage.outcome
            },
            (Err(failure), Err(message)) => message@ == call_failure("list_events: "@, failure),
            _ => false,
        },
{
    let events = match reply {
        Ok(events) => events,
        Err(failure) => return Err(join("list_events: ", failure.message.as_str())),
    };
    let calendar_id = uuid_text(stage.calendar_id.0);
    let mut sweeps: Vec<Sweep> = Vec::new();
    for i in 0..stage.parsed.len()
        invariant
            calendar_id@ == hyphenated(stage.calendar_id.0),
            sweeps@ == sweeps_of(stage.parsed@.take(i as int), events@, calendar_id@),
    {
        proof {
            assert(stage.parsed@.take(i + 1).drop_last() =~= stage.parsed@.take(i as int));
        }
        if let Some(event_id) = find_stored_id(
            &events,
            calendar_id.as_str(),
            stage.parsed[i].uid.as_str(),
        ) {
            sweeps.push(Sweep { parsed_index: i, event_id });
        }
    }
    proof {
        assert(stage.parsed@.take(stage.parsed@.len() as int) =~= stage.parsed@);
    }
    Ok(
        SweepStage {
            calendar_id: stage.calendar_id,
            now: stage.now,
            window: horizon_window(stage.now),
            parsed: stage.parsed,
            sweeps,
            outcome: stage.outcome,
        },
    )
}

/// What comes of removing the future occurrences of one event: the
/// synchronisation ends if it failed.
pub fn swept(reply: Result<(), StorageFailure>) -> (r: Result<(), String>)
    ensures
        match (reply, r) {
            (Ok(_), Ok(_)) => true,
            (Err(failure), Err(message)) => message@ == call_failure(
                "delete_future_event_instances: "@,
                failure,
            ),
            _ => false,
        },
{
    match reply {
        Ok(_) => Ok(()),
        Err(failure) => Err(join("delete_future_event_instances: ", failure.message.as_str())),
    }
}

/// The occurrences that the expansions give, sweep by sweep.
pub open spec fn occurrences_of(sweeps: Seq<Sweep>, expansions: Seq<Vec<Timestamp>>) -> Seq<
    (EventId, Timestamp),
>
    decreases sweeps.len(),
{
    if sweeps.len() == 0 {
        Seq::empty()
    } else {
        occurrences_of(sweeps.drop_last(), expansions) + occurrences_at(
            sweeps.last().event_id,
            expansions[sweeps.len() - 1]@,
        )
    }
}

/// The occurrences of an event at the given times.
pub open spec fn occurrences_at(event_id: EventId, times: Seq<Timestamp>) -> Seq<
    (EventId, Timestamp),
> {
    times.map_values(|at: Timestamp| (event_id, at))
}

/// Whether the instances stand for the occurrences one by one.
pub open spec fn stand_for(
    instances: Seq<EventInstance>,
    occurrences: Seq<(EventId, Timestamp)>,
) -> bool {
    &&& instances.len() == occurrences.len()
    &&& forall|i: int|
        0 <= i < occurrences.len() ==> is_instance_at(
            #[trigger] instances[i],
            occurrences[i].0,
            occurrences[i].1,
        )
}

/// The occurrences that the expansions give, sweep by sweep.
pub fn gather_occurrences(sweeps: &Vec<Sweep>, expansions: &Vec<Vec<Timestamp>>) -> (r: Vec<
    (EventId, Timestamp),
>)
    requires
        expansions@.len() == sweeps@.len(),
    ensures
        r@ == occurrences_of(sweeps@, expansions@),
{
    let mut out: Vec<(EventId, Timestamp)> = Vec::new();
    for i in 0..sweeps.len()
        invariant
            expansions@.len() == sweeps@.len(),
            out@ == occurrences_of(sweeps@.take(i as int), expansions@),
    {
        let event_id = sweeps[i].event_id;
        let times = &expansions[i];
        let ghost before = out@;
        proof {
            assert(sweeps@.take(i + 1).drop_last() =~= sweeps@.take(i as int));
            assert(before + occurrences_at(event_id, times@.take(0)) =~= before);
        }
        for k in 0..times.len()
            invariant
                out@ == before + occurrences_at(event_id, times@.take(k as int)),
        {
            proof {
                assert(before + occurrences_at(event_id, times@.take(k + 1)) =~= out@.push(
                    (event_id, times@[k as int]),
                ));
            }
            out.push((event_id, times[k]));
        }
        proof {
            assert(times@.take(times@.len() as int) =~= times@);
        }
    }
    proof {
        assert(sweeps@.take(sweeps@.len() as int) =~= sweeps@);
    }
    out
}

/// The new occurrences have to be kept.
#[derive(Debug)]
pub struct InstanceStage {
    /// The calendar.
    pub calendar_id: CalendarId,
    /// When the synchronisation takes place.
    pub now: Timestamp,
    /// The occurrences to keep.
    pub instances: Vec<EventInstance>,
    /// What the synchronisation did so far.
    pub outcome: SyncOutcome,
}

/// Goes on after the sweeps: to keeping the new occurrences, each under an
/// identifier that is drawn for it. `expansions` holds, for each sweep, the times
/// that its parsed event was expanded to.
pub fn expanded(stage: SweepStage, expansions: &Vec<Vec<Timestamp>>) -> (r: InstanceStage)
    requires
        expansions@.len() == stage.sweeps@.len(),
    ensures
        r.calendar_id == stage.calendar_id,
        r.now == stage.now,
        stand_for(r.instances@, occurrences_of(stage.sweeps@, expansions@)),
        r.outcome == stage.outcome,
{
    let occurrences = gather_occurrences(&stage.sweeps, expansions);
    let ids = new_uuids(occurrences.len());
    let instances = event_rows_with(&occurrences, &ids);
    InstanceStage {
        calendar_id: stage.calendar_id,
        now: stage.now,
        instances,
        outcome: stage.outcome,
    }
}

// ─── Record ───────────────────────────────────────────────────────────────────

/// Whether `record` records that a synchronisation succeeded at `now`.
pub open spec fn records_success(record: RecordStage, stage: InstanceStage) -> bool {
    &&& record.calendar_id == stage.calendar_id
    &&& record.state.last_synced_at == Some(stage.now)
    &&& record.state.last_status == SyncStatus::Synced
    &&& record.state.last_error is None
    &&& record.state.event_count == (if stage.outcome.events_upserted <= u32::MAX {
        stage.outcome.events_upserted as u32
    } else {
        u32::MAX
    })
    &&& record.outcome == stage.outcome
}

/// Goes on after the new occurrences were kept: to recording the success.
pub fn instances_kept(stage: InstanceStage, reply: Result<(), StorageFailure>) -> (r: Result<
    RecordStage,
    String,
>)
    ensures
        match (reply, r) {
            (Ok(_), Ok(record)) => records_success(record, stage),
            (Err(failure), Err(message)) => message@ == call_failure(
                "upsert_event_instances: "@,
                failure,
            ),
            _ => false,
        },
{
    if let Err(failure) = reply {
        return Err(join("upsert_event_instances: ", failure.message.as_str()));
    }
    let count: usize = stage.outcome.events_upserted;
    let event_count: u32 = if count as u64 <= u32::MAX as u64 {
        count as u32
    } else {
        u32::MAX
    };
    Ok(
        RecordStage {
            calendar_id: stage.calendar_id,
            state: CalendarSyncState {
                last_synced_at: Some(stage.now),
                last_status: SyncStatus::Synced,
                last_error: None,
                event_count,
            },
            outcome: stage.outcome,
        },
    )
}

/// Ends the synchronisation once its state was recorded.
pub fn recorded(stage: RecordStage, reply: Result<(), StorageFailure>) -> (r: Result<
    SyncOutcome,
    String,
>)
    ensures
        match (reply, r) {
            (Ok(_), Ok(outcome)) => outcome == stage.outcome,
            (Err(failure), Err(message)) => message@ == call_failure(
                "update_calendar_sync_state: "@,
                failure,
            ),
            _ => false,
        },
{
    match reply {
        Ok(_) => Ok(stage.outcome),
        Err(failure) => Err(join("update_calendar_sync_state: ", failure.message.as_str())),
    }
}

// ─── One pass ─────────────────────────────────────────────────────────────────

/// The calendars that are synchronised, in their order.
pub open spec fn enabled_of(calendars: Seq<StoredCalendar>) -> Seq<StoredCalendar>
    decreases calendars.len(),
{
    if calendars.len() == 0 {
        calendars
    } else if calendars.last().calendar.enabled {
        enabled_of(calendars.drop_last()).push(calendars.last())
    } else {
        enabled_of(calendars.drop_last())
    }
}

/// Starts a pass: the calendars to synchronise. The pass ends here if they
/// could not be read.
pub fn run_once(read: Result<Vec<StoredCalendar>, StorageFailure>) -> (r: Result<
    Vec<StoredCalendar>,
    String,
>)
    ensures
        match (read, r) {
            (Ok(calendars), Ok(enabled)) => enabled@ == enabled_of(calendars@),
            (Err(failure), Err(message)) => message@ == call_failure("list_calendars: "@, failure),
            _ => false,
        },
{
    let calendars = match read {
        Ok(calendars) => calendars,
        Err(failure) => return Err(join("list_calendars: ", failure.message.as_str())),
    };
    let ghost all = calendars@;
    let mut enabled: Vec<StoredCalendar> = Vec::new();
    for calendar in it: calendars
        invariant
            it.seq() == all,
            enabled@ == enabled_of(all.take(it.index())),
    {
        proof {
            assert(all.take(it.index() + 1).drop_last() =~= all.take(it.index()));
        }
        if calendar.calendar.enabled {
            enabled.push(calendar);
        }
    }
    proof {
        assert(all.take(all.len() as int) =~= all);
    }
    Ok(enabled)
}

/// The number of synchronisations that came to an end.
pub open spec fn total_synced(outcomes: Seq<Result<SyncOutcome, String>>) -> nat
    decreases outcomes.len(),
{
    if outcomes.len() == 0 {
        0
    } else {
        total_synced(outcomes.drop_last()) + (if outcomes.last() is Ok {
            1nat
        } else {
            0
        })
    }
}

/// The number of events that were handed to storage.
pub open spec fn total_upserted(outcomes: Seq<Result<SyncOutcome, String>>) -> nat
    decreases outcomes.len(),
{
    if outcomes.len() == 0 {
        0
    } else {
        total_upserted(outcomes.drop_last()) + (match outcomes.last() {
            Ok(outcome) => outcome.events_upserted as nat,
            Err(_) => 0,
        })
    }
}

/// The number of events that were removed.
pub open spec fn total_pruned(outcomes: Seq<Result<SyncOutcome, String>>) -> nat
    decreases outcomes.len(),
{
    if outcomes.len() == 0 {
        0
    } else {
        total_pruned(outcomes.drop_last()) + (match outcomes.last() {
            Ok(outcome) => outcome.events_pruned as nat,
            Err(_) => 0,
        })
    }
}

proof fn totals_grow(outcomes: Seq<Result<SyncOutcome, String>>, i: int)
    requires
        0 <= i <= outcomes.len(),
    ensures
        total_synced(outcomes.take(i)) <= i,
        total_upserted(outcomes.take(i)) <= total_upserted(outcomes),
        total_pruned(outcomes.take(i)) <= total_pruned(outcomes),
    decreases outcomes.len(),
{
    if i == outcomes.len() {
        assert(outcomes.take(i) =~= outcomes);
        if outcomes.len() > 0 {
            totals_grow(outcomes.drop_last(), i - 1);
            assert(outcomes.drop_last().take(i - 1) =~= outcomes.drop_last());
        }
    } else {
        totals_grow(outcomes.drop_last(), i);
        assert(outcomes.drop_last().take(i) =~= outcomes.take(i));
    }
}

/// What a pass did, given what came of each calendar. One that failed adds
/// nothing and does not keep the others from it.
pub fn sync_report(outcomes: &Vec<Result<SyncOutcome, String>>) -> (r: SyncReport)
    requires
        total_upserted(outcomes@) <= usize::MAX,
        total_pruned(outcomes@) <= u64::MAX,
    ensures
        r.calendars_synced == total_synced(outcomes@),
        r.events_upserted == total_upserted(outcomes@),
        r.events_pruned == total_pruned(outcomes@),
{
    let mut report = SyncReport { calendars_synced: 0, events_upserted: 0, events_pruned: 0 };
    for i in 0..outcomes.len()
        invariant
            total_upserted(outcomes@) <= usize::MAX,
            total_pruned(outcomes@) <= u64::MAX,
            report.calendars_synced == total_synced(outcomes@.take(i as int)),
            report.events_upserted == total_upserted(outcomes@.take(i as int)),
            report.events_pruned == total_pruned(outcomes@.take(i as int)),
    {
        proof {
            assert(outcomes@.take(i + 1).drop_last() =~= outcomes@.take(i as int));
            totals_grow(outcomes@, i as int);
            totals_grow(outcomes@, i + 1);
        }
        if let Ok(outcome) = &outcomes[i] {
            report.calendars_synced = report.calendars_synced + 1;
            report.events_upserted = report.events_upserted + outcome.events_upserted;
            report.events_pruned = report.events_pruned + outcome.events_pruned;
        }
    }
    proof {
        assert(outcomes@.take(outcomes@.len() as int) =~= outcomes@);
    }
    report
}

// ─── Laws ─────────────────────────────────────────────────────────────────────

/// A feed that could not be downloaded or parsed leaves what is known of the
/// last success as it was, is not recorded as synchronised, and changes no event.
pub proof fn failed_feed_keeps_the_last_success(
    record: RecordStage,
    stored: StoredCalendar,
    status: SyncStatus,
    error: Seq<char>,
)
    requires
        records_failure(record, stored, status, error),
        status == SyncStatus::Unreachable || status == SyncStatus::ParseError,
    ensures
        record.state.last_synced_at == stored.sync.last_synced_at,
        record.state.event_count == stored.sync.event_count,
        record.state.last_status != SyncStatus::Synced,
        record.state.last_error is Some,
        record.outcome.events_upserted == 0,
        record.outcome.events_pruned == 0,
{
}

/// No event that a synchronisation keeps is pruned by it: its UID is listed.
pub proof fn kept_events_are_spared(
    parsed: Seq<ParsedEvent>,
    events: Seq<Event>,
    calendar_id: Seq<char>,
    now: Timestamp,
    i: int,
)
    requires
        are_kept_as(parsed, events, calendar_id, now),
        0 <= i < events.len(),
    ensures
        events[i].source.external_id is Some,
        uids_of(parsed).contains(events[i].source.external_id->0@),
    decreases parsed.len(),
{
    let fewer = parsed.drop_last();
    if can_be_kept(parsed.last()) && i == events.len() - 1 {
        assert(uids_of(parsed)[parsed.len() - 1] == parsed.last().uid@);
    } else {
        let others = if can_be_kept(parsed.last()) {
            events.drop_last()
        } else {
            events
        };
        kept_events_are_spared(fewer, others, calendar_id, now, i);
        let uid = events[i].source.external_id->0@;
        let k = choose|k: int| 0 <= k < fewer.len() && uids_of(fewer)[k] == uid;
        assert(uids_of(parsed)[k] == uid);
    }
}

/// The number of the events of a feed that can be kept.
pub open spec fn keepable(parsed: Seq<ParsedEvent>) -> nat
    decreases parsed.len(),
{
    if parsed.len() == 0 {
        0
    } else {
        keepable(parsed.drop_last()) + (if can_be_kept(parsed.last()) {
            1nat
        } else {
            0
        })
    }
}

/// One bad event never sinks a feed: all the others are kept, and all of them
/// come read-only from this calendar.
pub proof fn bad_events_do_not_sink_a_feed(
    parsed: Seq<ParsedEvent>,
    events: Seq<Event>,
    calendar_id: Seq<char>,
    now: Timestamp,
)
    requires
        are_kept_as(parsed, events, calendar_id, now),
    ensures
        events.len() == keepable(parsed),
        forall|i: int|
            0 <= i < events.len() ==> (#[trigger] events[i]).source.read_only && text_of(
                events[i].source.calendar_id,
            ) == Some(calendar_id) && events[i].recurrence is None,
    decreases parsed.len(),
{
    if parsed.len() > 0 {
        let others = if can_be_kept(parsed.last()) {
            events.drop_last()
        } else {
            events
        };
        bad_events_do_not_sink_a_feed(parsed.drop_last(), others, calendar_id, now);
        assert forall|i: int| 0 <= i < others.len() implies #[trigger] events[i] == others[i] by {}
    }
}

/// Only enabled calendars are synchronised, and every enabled one is.
pub proof fn pass_covers_the_enabled(calendars: Seq<StoredCalendar>)
    ensures
        forall|i: int|
            0 <= i < enabled_of(calendars).len() ==> (#[trigger] enabled_of(
                calendars,
            )[i]).calendar.enabled,
        forall|k: int|
            0 <= k < calendars.len() && (#[trigger] calendars[k]).calendar.enabled ==> enabled_of(
                calendars,
            ).contains(calendars[k]),
    decreases calendars.len(),
{
    if calendars.len() > 0 {
        let fewer = calendars.drop_last();
        pass_covers_the_enabled(fewer);
        let all = enabled_of(calendars);
        let rest = enabled_of(fewer);
        assert forall|i: int| 0 <= i < all.len() implies (#[trigger] all[i]).calendar.enabled by {
            if i < rest.len() {
                assert(all[i] == rest[i]);
            }
        }
        assert forall|k: int|
            0 <= k < calendars.len() && (#[trigger] calendars[k]).calendar.enabled implies all.contains(
            calendars[k],
        ) by {
            if k < fewer.len() {
                assert(fewer[k] == calendars[k]);
                let j = choose|j: int| 0 <= j < rest.len() && rest[j] == calendars[k];
                assert(all[j] == calendars[k]);
            } else {
                assert(all[rest.len() as int] == calendars[k]);
            }
        }
    }
}

} // verus!
