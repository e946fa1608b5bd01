// The synchronisation of calendars, driven stage by stage.

use amity_service::api::calendar::{create_calendar, CalendarComplaints, CreateCalendarRequest};
use amity_service::api::fields::{read_time, TimeField};
use amity_service::dates::Timestamp;
use amity_service::feeds::FetchError;
use amity_service::ids::CalendarId;
use amity_service::jobs::calendar_sync::{
    build_events, expanded, fetched, instances_kept, listed, parsed, pruned, recorded, run_once,
    swept, sync_one, sync_report, upserted, ParsedEvent, SyncOutcome, SyncReport,
};
use amity_service::model::calendar::{CalendarSyncState, StoredCalendar, SyncStatus};
use amity_service::model::event::{Event, EventInstance, EventSourceKind};
use amity_service::reply::StorageFailure;

fn at(text: &str) -> Timestamp {
    match read_time(&Some(text.to_string())) {
        TimeField::At(t) => t,
        _ => panic!("{text} is no time"),
    }
}

fn some(text: &str) -> Option<String> {
    Some(text.to_string())
}

// The events of a household.
#[derive(Default)]
struct Household {
    events: Vec<Event>,
    event_instances: Vec<EventInstance>,
}

// An event of a feed, and when it takes place.
type FeedEvent = (ParsedEvent, Vec<Timestamp>);

fn feed_event(uid: &str, summary: &str, times: &[&str]) -> FeedEvent {
    let times: Vec<Timestamp> = times.iter().map(|t| at(t)).collect();
    let parsed = ParsedEvent {
        uid: uid.to_string(),
        summary: summary.to_string(),
        start: times[0],
        end: None,
        all_day: false,
    };
    (parsed, times)
}

fn find_calendar(store: &Vec<StoredCalendar>, id: CalendarId) -> Option<StoredCalendar> {
    store.iter().find(|c| c.calendar.id == id).cloned()
}

fn record(store: &mut Vec<StoredCalendar>, id: CalendarId, state: CalendarSyncState) {
    for row in store.iter_mut() {
        if row.calendar.id == id {
            row.sync = state.clone();
        }
    }
}

// One pass over the calendars, every feed holding the given events.
fn sync(
    store: &mut Vec<StoredCalendar>,
    house: &mut Household,
    now: Timestamp,
    feed: &Vec<FeedEvent>,
) -> SyncReport {
    let mut outcomes = Vec::new();
    for stored in run_once(Ok(store.clone())).unwrap() {
        let stage = fetched(sync_one(stored, now), Ok("BEGIN:VCALENDAR".to_string())).unwrap();
        let stage = parsed(stage, Ok(feed.iter().map(|f| f.0.clone()).collect())).unwrap();
        for event in &stage.events {
            let same = |e: &&mut Event| {
                e.source.external_id == event.source.external_id
                    && e.source.calendar_id == event.source.calendar_id
            };
            match house.events.iter_mut().find(same) {
                Some(kept) => *kept = Event { id: kept.id, ..event.clone() },
                None => house.events.push(event.clone()),
            }
        }
        let stage = upserted(stage, Ok(())).unwrap();
        let before = house.events.len();
        house.events.retain(|e| match &e.source.external_id {
            Some(uid) => stage.uids.contains(uid),
            None => true,
        });
        let removed = (before - house.events.len()) as u64;
        let stage = pruned(stage, Ok(removed)).unwrap();
        let stage = listed(stage, Ok(house.events.clone())).unwrap();
        let mut expansions = Vec::new();
        for sweep in &stage.sweeps {
            house.event_instances.retain(|i| {
                i.event_id != sweep.event_id || i.scheduled_at.is_before(stage.now)
            });
            swept(Ok(())).unwrap();
            expansions.push(feed[sweep.parsed_index].1.clone());
        }
        let stage = expanded(stage, &expansions);
        house.event_instances.extend(stage.instances.clone());
        let stage = instances_kept(stage, Ok(())).unwrap();
        record(store, stage.calendar_id, stage.state.clone());
        outcomes.push(recorded(stage, Ok(())));
    }
    sync_report(&outcomes)
}

fn now() -> Timestamp {
    at("2099-04-27T12:00:00Z")
}

fn calendar_words() -> CalendarComplaints {
    CalendarComplaints { name: "a name is needed".to_string(), url: "no such scheme".to_string() }
}

fn failure() -> StorageFailure {
    StorageFailure { message: "disk full".to_string() }
}

fn seeded() -> (Vec<StoredCalendar>, CalendarId) {
    let req = CreateCalendarRequest {
        name: "feed".to_string(),
        url: "https://example.test/f.ics".to_string(),
        category: None,
    };
    let calendar = create_calendar(req, Ok("other".to_string()), calendar_words(), now()).unwrap();
    let id = calendar.id;
    (vec![StoredCalendar { calendar, sync: CalendarSyncState::fresh() }], id)
}

fn two() -> Vec<FeedEvent> {
    vec![
        feed_event("a", "A", &["2099-05-01T09:00:00Z"]),
        feed_event("b", "B", &["2099-05-02T09:00:00Z"]),
    ]
}

fn one() -> Vec<FeedEvent> {
    vec![feed_event("a", "A", &["2099-05-01T09:00:00Z"])]
}

#[test]
fn sync_ingests_then_prunes_and_records_ok() {
    let (mut store, _) = seeded();
    let mut house = Household::default();
    sync(&mut store, &mut house, now(), &two());
    assert_eq!(house.events.len(), 2);

    let report = sync(&mut store, &mut house, now(), &one());
    assert_eq!(house.events.len(), 1);
    assert_eq!(house.events[0].source.external_id, some("a"));
    assert_eq!(report.events_pruned, 1);
    assert_eq!(store[0].sync.last_status, SyncStatus::Synced);
    assert_eq!(store[0].sync.last_status.as_str(), "ok");
    assert_eq!(store[0].sync.event_count, 1);
    assert_eq!(store[0].sync.last_synced_at, Some(now()));
    assert!(store[0].sync.last_error.is_none());
}

#[test]
fn a_failed_fetch_records_unreachable_and_keeps_events() {
    let (mut store, id) = seeded();
    let mut house = Household::default();
    sync(&mut store, &mut house, now(), &two());

    let later = at("2099-04-28T12:00:00Z");
    let stage = sync_one(store[0].clone(), later);
    let stage = fetched(stage, Err(FetchError::BadStatus(503))).unwrap_err();
    assert_eq!(stage.calendar_id, id);
    record(&mut store, id, stage.state.clone());
    let outcome = recorded(stage, Ok(())).unwrap();
    assert_eq!(outcome.events_upserted, 0);
    assert_eq!(outcome.events_pruned, 0);

    assert_eq!(house.events.len(), 2);
    let stored = find_calendar(&store, id).unwrap();
    assert_eq!(stored.sync.last_status, SyncStatus::Unreachable);
    assert_eq!(stored.sync.last_error, some("unexpected status: 503"));
    assert_eq!(stored.sync.last_synced_at, Some(now()));
    assert_eq!(stored.sync.event_count, 2);
}

#[test]
fn a_feed_that_is_no_calendar_records_a_parse_error() {
    let (store, id) = seeded();
    let stage = sync_one(store[0].clone(), now());
    let stage = fetched(stage, Ok("<html>".to_string())).unwrap();
    assert_eq!(stage.text, "<html>");
    let stage = parsed(stage, Err("no VCALENDAR".to_string())).unwrap_err();
    assert_eq!(stage.calendar_id, id);
    assert_eq!(stage.state.last_status, SyncStatus::ParseError);
    assert_eq!(stage.state.last_error, some("no VCALENDAR"));
    assert_eq!(stage.state.last_synced_at, None);
}

#[test]
fn an_event_that_cannot_be_kept_does_not_sink_the_feed() {
    let mut blank = feed_event("blank", "  ", &["2099-05-01T09:00:00Z"]).0;
    blank.end = None;
    let mut backwards = feed_event("back", "B", &["2099-05-01T09:00:00Z"]).0;
    backwards.end = Some(at("2099-05-01T08:00:00Z"));
    let fine = feed_event("fine", "F", &["2099-05-01T09:00:00Z"]).0;
    let events = build_events(&vec![blank.clone(), backwards, fine.clone()], "cal", now());
    assert_eq!(events.len(), 1);
    assert_eq!(events[0].title, "F");
    assert_eq!(events[0].source.external_id, some("fine"));
    assert_eq!(events[0].source.calendar_id, some("cal"));
    assert_eq!(events[0].source.kind, EventSourceKind::Ics);

    // A listed UID is spared even though its event was not kept.
    let (store, _) = seeded();
    let stage = fetched(sync_one(store[0].clone(), now()), Ok(String::new())).unwrap();
    let stage = parsed(stage, Ok(vec![blank, fine])).unwrap();
    assert_eq!(stage.events.len(), 1);
    let stage = upserted(stage, Ok(())).unwrap();
    assert_eq!(stage.events_upserted, 1);
    assert_eq!(stage.uids, vec!["blank".to_string(), "fine".to_string()]);
}

#[test]
fn storage_trouble_stops_a_sync() {
    let (store, id) = seeded();
    let start = || fetched(sync_one(store[0].clone(), now()), Ok(String::new())).unwrap();
    let parsed_stage = || parsed(start(), Ok(vec![one()[0].0.clone()])).unwrap();
    let kept = upserted(parsed_stage(), Err(failure())).unwrap_err();
    assert_eq!(kept, "upsert_external_events: disk full");
    let after_upsert = || upserted(parsed_stage(), Ok(())).unwrap();
    assert!(pruned(after_upsert(), Err(failure())).unwrap_err().ends_with("disk full"));
    let after_prune = || pruned(after_upsert(), Ok(0)).unwrap();
    assert!(listed(after_prune(), Err(failure())).unwrap_err().ends_with("disk full"));
    assert!(swept(Err(failure())).unwrap_err().ends_with("disk full"));
    let stage = listed(after_prune(), Ok(Vec::new())).unwrap();
    assert!(stage.sweeps.is_empty());
    assert_eq!(stage.window.from, now());
    assert_eq!(stage.window.until, now().plus_days(60));
    let stage = expanded(stage, &Vec::new());
    assert!(stage.instances.is_empty());
    assert_eq!(stage.calendar_id, id);
    assert!(instances_kept(stage, Err(failure())).unwrap_err().ends_with("disk full"));
}

#[test]
fn a_pass_covers_the_enabled_calendars() {
    let (mut store, _) = seeded();
    let (more, other) = seeded();
    store.extend(more);
    store[0].calendar.enabled = false;
    let enabled = run_once(Ok(store)).unwrap();
    assert_eq!(enabled.len(), 1);
    assert_eq!(enabled[0].calendar.id, other);
    assert!(run_once(Err(failure())).unwrap_err().ends_with("disk full"));
}

#[test]
fn a_report_leaves_out_what_failed() {
    let report = sync_report(&vec![
        Ok(SyncOutcome { events_upserted: 2, events_pruned: 1 }),
        Err("list_events: disk full".to_string()),
        Ok(SyncOutcome { events_upserted: 3, events_pruned: 0 }),
    ]);
    assert_eq!(report.calendars_synced, 2);
    assert_eq!(report.events_upserted, 5);
    assert_eq!(report.events_pruned, 1);
}
