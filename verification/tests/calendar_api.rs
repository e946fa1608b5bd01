// The calendar endpoints, driven phase by phase against a household in memory.

use amity_service::api::calendar::{
    create_calendar, created_calendar, delete_calendar_handler, get_calendar,
    list_calendars_handler, parse_calendar_id, patch_calendar, refresh_calendar, refreshed_calendar,
    CalendarComplaints, CalendarResponse, CreateCalendarRequest, PatchCalendarRequest,
};
use amity_service::api::event::{
    create_override, created_override, list_events_handler, override_target, CreateOverrideRequest,
};
use amity_service::api::fields::{read_time, TimeField};
use amity_service::api::surfacing::{
    event_instances_query, task_instances_query, today, today_candidates, today_response, week,
    week_candidates, week_days, week_response, DayReads, EventReads, Liveness, PlannedDay,
    SurfaceCandidate, SurfacedItem, Timing, TodayQuery, TodayResponse, WeekQuery, WeekResponse,
};
use amity_service::dates::{Date, Timestamp};
use amity_service::ids::CalendarId;
use amity_service::jobs::calendar_sync::{
    expanded, fetched, instances_kept, listed, parsed, pruned, recorded, run_once, swept, sync_one,
    sync_report, upserted, ParsedEvent, SyncReport,
};
use amity_service::model::calendar::{normalise_feed_url, CalendarSyncState, StoredCalendar};
use amity_service::model::event::{Event, EventInstance, EventOverride};
use amity_service::model::meal::Meal;
use amity_service::model::task::{Task, TaskInstance};
use amity_service::reply::{DeletedResponse, Rejection, Reply, StatusCode, StorageFailure};

fn at(text: &str) -> Timestamp {
    match read_time(&Some(text.to_string())) {
        TimeField::At(t) => t,
        _ => panic!("{text} is no time"),
    }
}

fn some(text: &str) -> Option<String> {
    Some(text.to_string())
}

// Everything a household has stored.
#[derive(Default)]
struct Household {
    tasks: Vec<Task>,
    task_instances: Vec<TaskInstance>,
    events: Vec<Event>,
    event_instances: Vec<EventInstance>,
    overrides: Vec<EventOverride>,
    meals: Vec<Meal>,
}

impl Household {
    fn event_reads(&self, day: Date) -> EventReads {
        let overrides: Vec<EventOverride> =
            self.overrides.iter().filter(|o| o.instance_date == day).cloned().collect();
        let mut instances = Vec::new();
        for event in &self.events {
            let mut rows = Vec::new();
            if let Some(query) = event_instances_query(event, &overrides, day) {
                for row in &self.event_instances {
                    if row.event_id == query.event_id && !row.scheduled_at.is_before(query.from) {
                        rows.push(row.clone());
                    }
                }
            }
            instances.push(Ok(rows));
        }
        EventReads { events: Ok(self.events.clone()), overrides: Ok(overrides), instances }
    }

    fn task_reads(&self, day: Date) -> Vec<Result<Vec<TaskInstance>, StorageFailure>> {
        let mut reads = Vec::new();
        for task in &self.tasks {
            let mut rows = Vec::new();
            if let Some(query) = task_instances_query(task, day) {
                for row in &self.task_instances {
                    if row.task_id == query.task_id && !row.scheduled_at.is_before(query.from) {
                        rows.push(row.clone());
                    }
                }
            }
            reads.push(Ok(rows));
        }
        reads
    }

    fn today(&self, date: &str) -> Reply<TodayResponse> {
        let params = TodayQuery { date: some(date) };
        let day = today(params, at("2026-05-25T10:00:00Z")).unwrap();
        let meals: Vec<Meal> = self.meals.iter().filter(|m| m.date == day).cloned().collect();
        let candidates = today_candidates(
            &self.tasks,
            &self.task_reads(day),
            &self.event_reads(day),
            &Ok(meals),
            day,
        );
        today_response(day, &rank(&candidates, day))
    }

    fn week(&self, start: Option<&str>, now: Timestamp) -> Result<Reply<WeekResponse>, Rejection> {
        let params = WeekQuery { start: start.map(|s| s.to_string()) };
        let monday = week(params, now)?;
        let mut reads = Vec::new();
        for day in week_days(monday) {
            reads.push(DayReads {
                task_instances: self.task_reads(day),
                events: self.event_reads(day),
            });
        }
        let candidates = week_candidates(&self.tasks, &reads, monday);
        let mut days = Vec::new();
        for date in week_days(monday) {
            days.push(PlannedDay { date, items: rank(&candidates, date) });
        }
        Ok(week_response(monday, &days))
    }
}

// A stand-in for the ranking rule: what is live and falls on the day, once,
// whole days first, then by time.
fn rank(candidates: &Vec<SurfaceCandidate>, day: Date) -> Vec<SurfacedItem> {
    let mut items: Vec<SurfacedItem> = Vec::new();
    for c in candidates {
        let when = match c.timing {
            Timing::Scheduled(when) => Some(when),
            Timing::Window { due_by, .. } => due_by,
        };
        let when = match when {
            Some(when) if c.liveness == Liveness::Live && when.date() == day => when,
            _ => continue,
        };
        if items.iter().any(|i| i.source_id == c.source_id && i.at == when) {
            continue;
        }
        items.push(SurfacedItem {
            kind: c.kind,
            source_id: c.source_id.clone(),
            title: c.title.clone(),
            at: when,
            overdue: false,
            all_day: c.all_day,
            priority: c.priority,
            current_assignee_id: c.current_assignee_id,
            annotation: c.annotation.clone(),
            rescheduled: c.rescheduled,
        });
    }
    items.sort_by_key(|i| (!i.all_day, i.at.parts().1, i.at.parts().2));
    items
}

// An event of a feed, and when it takes place.
type FeedEvent = (ParsedEvent, Vec<Timestamp>);

fn feed_event(uid: &str, summary: &str, times: &[&str]) -> FeedEvent {
    let times: Vec<Timestamp> = times.iter().map(|t| at(t)).collect();
    let parsed = ParsedEvent {
        uid: uid.to_string(),
        summary: summary.to_string(),
        start: times[0],
        end: None,
        all_day: false,
    };
    (parsed, times)
}

fn find_calendar(store: &Vec<StoredCalendar>, id: CalendarId) -> Option<StoredCalendar> {
    store.iter().find(|c| c.calendar.id == id).cloned()
}

fn record(store: &mut Vec<StoredCalendar>, id: CalendarId, state: CalendarSyncState) {
    for row in store.iter_mut() {
        if row.calendar.id == id {
            row.sync = state.clone();
        }
    }
}

// One pass over the calendars, every feed holding the given events.
fn sync(
    store: &mut Vec<StoredCalendar>,
    house: &mut Household,
    now: Timestamp,
    feed: &Vec<FeedEvent>,
) -> SyncReport {
    let mut outcomes = Vec::new();
    for stored in run_once(Ok(store.clone())).unwrap() {
        let stage = fetched(sync_one(stored, now), Ok("BEGIN:VCALENDAR".to_string())).unwrap();
        let stage = parsed(stage, Ok(feed.iter().map(|f| f.0.clone()).collect())).unwrap();
        for event in &stage.events {
            let same = |e: &&mut Event| {
                e.source.external_id == event.source.external_id
                    && e.source.calendar_id == event.source.calendar_id
            };
            match house.events.iter_mut().find(same) {
                Some(kept) => *kept = Event { id: kept.id, ..event.clone() },
                None => house.events.push(event.clone()),
            }
        }
        let stage = upserted(stage, Ok(())).unwrap();
        let before = house.events.len();
        house.events.retain(|e| match &e.source.external_id {
            Some(uid) => stage.uids.contains(uid),
            None => true,
        });
        let removed = (before - house.events.len()) as u64;
        let stage = pruned(stage, Ok(removed)).unwrap();
        let stage = listed(stage, Ok(house.events.clone())).unwrap();
        let mut expansions = Vec::new();
        for sweep in &stage.sweeps {
            house.event_instances.retain(|i| {
                i.event_id != sweep.event_id || i.scheduled_at.is_before(stage.now)
            });
            swept(Ok(())).unwrap();
            expansions.push(feed[sweep.parsed_index].1.clone());
        }
        let stage = expanded(stage, &expansions);
        house.event_instances.extend(stage.instances.clone());
        let stage = instances_kept(stage, Ok(())).unwrap();
        record(store, stage.calendar_id, stage.state.clone());
        outcomes.push(recorded(stage, Ok(())));
    }
    sync_report(&outcomes)
}

fn now() -> Timestamp {
    at("2099-04-27T12:00:00Z")
}

fn calendar_words() -> CalendarComplaints {
    CalendarComplaints { name: "a name is needed".to_string(), url: "no such scheme".to_string() }
}

fn failure() -> StorageFailure {
    StorageFailure { message: "disk full".to_string() }
}

fn request(name: &str, url: &str, category: Option<&str>) -> CreateCalendarRequest {
    CreateCalendarRequest {
        name: name.to_string(),
        url: url.to_string(),
        category: category.map(|c| c.to_string()),
    }
}

fn post(
    store: &mut Vec<StoredCalendar>,
    req: CreateCalendarRequest,
) -> Result<Reply<CalendarResponse>, Rejection> {
    let category = match &req.category {
        Some(category) => category.clone(),
        None => "other".to_string(),
    };
    let calendar = create_calendar(req, Ok(category), calendar_words(), now())?;
    let sync = CalendarSyncState::fresh();
    store.push(StoredCalendar { calendar: calendar.clone(), sync });
    created_calendar(&calendar, Ok(()))
}

fn get(store: &Vec<StoredCalendar>, id: &str) -> Result<Reply<CalendarResponse>, Rejection> {
    let id = parse_calendar_id(id)?;
    get_calendar(Ok(find_calendar(store, id)))
}

fn patch(
    store: &mut Vec<StoredCalendar>,
    id: &str,
    req: PatchCalendarRequest,
) -> Result<Reply<CalendarResponse>, Rejection> {
    let id = parse_calendar_id(id)?;
    let mut matched = false;
    for row in store.iter_mut() {
        if row.calendar.id == id {
            row.calendar.enabled = req.enabled;
            matched = true;
        }
    }
    patch_calendar(Ok(matched))?;
    get_calendar(Ok(find_calendar(store, id)))
}

fn delete(store: &mut Vec<StoredCalendar>, id: &str) -> Result<Reply<DeletedResponse>, Rejection> {
    let id = parse_calendar_id(id)?;
    let before = store.len();
    store.retain(|row| row.calendar.id != id);
    delete_calendar_handler(id, Ok(store.len() < before))
}

#[test]
fn create_lists_and_deletes_a_calendar() {
    let mut store = Vec::new();
    let req = request("holidays", "https://example.test/h.ics", Some("holiday"));
    let created = post(&mut store, req).unwrap();
    assert_eq!(created.status, StatusCode::Created);
    assert_eq!(created.body.name, "holidays");
    assert_eq!(created.body.category, "holiday");
    assert!(created.body.enabled);
    assert_eq!(created.body.last_status, "never");
    assert_eq!(created.body.event_count, 0);
    let id = created.body.id;

    let listed = list_calendars_handler(Ok(store.clone())).unwrap();
    assert_eq!(listed.status, StatusCode::Success);
    assert_eq!(listed.body.calendars.len(), 1);
    assert_eq!(listed.body.calendars[0].id, id);

    let got = get(&store, &id).unwrap();
    assert_eq!(got.status, StatusCode::Success);
    assert_eq!(got.body.name, "holidays");

    let deleted = delete(&mut store, &id).unwrap();
    assert_eq!(deleted.status, StatusCode::Success);
    assert_eq!(get(&store, &id).unwrap_err().status, StatusCode::NotFound);
}

#[test]
fn blank_name_is_422_and_bad_scheme_is_422() {
    let mut store = Vec::new();
    let blank = post(&mut store, request("  ", "https://example.test/x.ics", None)).unwrap_err();
    assert_eq!(blank.status, StatusCode::UnprocessableEntity);
    assert_eq!(blank.error, Some("a name is needed".to_string()));
    let scheme = post(&mut store, request("bad", "file:///etc/passwd", None)).unwrap_err();
    assert_eq!(scheme.status, StatusCode::UnprocessableEntity);
    assert_eq!(scheme.error, Some("no such scheme".to_string()));
}

#[test]
fn patch_toggles_enabled() {
    let mut store = Vec::new();
    let id = post(&mut store, request("club", "https://example.test/c.ics", None))
        .unwrap()
        .body
        .id;
    let patched = patch(&mut store, &id, PatchCalendarRequest { enabled: false }).unwrap();
    assert_eq!(patched.status, StatusCode::Success);
    assert!(!patched.body.enabled);
    assert!(!get(&store, &id).unwrap().body.enabled);
    let unknown = "018f1a2b-0000-7000-8000-000000000099";
    let missing = patch(&mut store, unknown, PatchCalendarRequest { enabled: true }).unwrap_err();
    assert_eq!(missing.status, StatusCode::NotFound);
}

#[test]
fn malformed_id_is_400() {
    let mut store = Vec::new();
    let bad_get = get(&store, "not-a-uuid").unwrap_err();
    assert_eq!(bad_get.status, StatusCode::BadRequest);
    let enable = PatchCalendarRequest { enabled: true };
    let bad_patch = patch(&mut store, "not-a-uuid", enable).unwrap_err();
    assert_eq!(bad_patch.status, StatusCode::BadRequest);
    let bad_delete = delete(&mut store, "not-a-uuid").unwrap_err();
    assert_eq!(bad_delete.status, StatusCode::BadRequest);
}

#[test]
fn ingested_external_event_surfaces_on_today() {
    let mut store = Vec::new();
    let mut house = Household::default();
    let req = request("school", "https://example.test/school.ics", Some("school"));
    assert_eq!(post(&mut store, req).unwrap().status, StatusCode::Created);
    let feed = vec![
        feed_event("school-play", "school play", &["2099-05-01T09:00:00Z"]),
        feed_event("other-day", "other day", &["2099-05-02T09:00:00Z"]),
    ];
    let report = sync(&mut store, &mut house, now(), &feed);
    assert_eq!(report.calendars_synced, 1);
    assert_eq!(report.events_upserted, 2);

    let today = house.today("2099-05-01");
    assert_eq!(today.status, StatusCode::Success);
    assert!(today.body.has_surfaced);
    assert_eq!(today.body.items.len(), 1);
    assert_eq!(today.body.items[0].kind, "event");
    assert_eq!(today.body.items[0].title, "school play");

    let other_day = house.today("2099-05-02");
    assert_eq!(other_day.body.items.len(), 1);
    assert_eq!(other_day.body.items[0].title, "other day");
}

fn fridays() -> FeedEvent {
    feed_event(
        "weekly-recurring",
        "weekly recurring",
        &["2099-05-01T09:00:00Z", "2099-05-08T09:00:00Z", "2099-05-15T09:00:00Z"],
    )
}

#[test]
fn recurring_external_event_surfaces_on_a_later_occurrence_and_sweeps_stale_ones() {
    let mut store = Vec::new();
    let mut house = Household::default();
    let req = request("club", "https://example.test/club.ics", Some("club"));
    assert_eq!(post(&mut store, req).unwrap().status, StatusCode::Created);
    let report = sync(&mut store, &mut house, now(), &vec![fridays()]);
    assert_eq!(report.calendars_synced, 1);
    assert_eq!(report.events_upserted, 1);

    let first = house.today("2099-05-01").body.items;
    assert_eq!(first.len(), 1);
    assert_eq!(first[0].title, "weekly recurring");

    let later = house.today("2099-05-15");
    assert_eq!(later.status, StatusCode::Success);
    assert!(later.body.has_surfaced);
    assert_eq!(later.body.items.len(), 1);
    assert_eq!(later.body.items[0].kind, "event");
    assert_eq!(later.body.items[0].title, "weekly recurring");

    // The feed takes the third Friday out.
    let fewer = feed_event(
        "weekly-recurring",
        "weekly recurring",
        &["2099-05-01T09:00:00Z", "2099-05-08T09:00:00Z"],
    );
    let next_day = at("2099-04-28T12:00:00Z");
    let report = sync(&mut store, &mut house, next_day, &vec![fewer]);
    assert_eq!(report.calendars_synced, 1);
    assert_eq!(report.events_upserted, 1);

    let swept = house.today("2099-05-15");
    assert!(!swept.body.has_surfaced);
    assert_eq!(swept.body.items.len(), 0);
    let still_first = house.today("2099-05-01").body.items;
    assert_eq!(still_first.len(), 1);
    assert_eq!(still_first[0].title, "weekly recurring");
}

#[test]
fn override_on_a_recurring_external_event_reflects_in_surfacing() {
    let mut store = Vec::new();
    let mut house = Household::default();
    let req = request("club", "https://example.test/club.ics", Some("club"));
    assert_eq!(post(&mut store, req).unwrap().status, StatusCode::Created);
    let report = sync(&mut store, &mut house, now(), &vec![fridays()]);
    assert_eq!(report.calendars_synced, 1);
    assert_eq!(report.events_upserted, 1);

    let events = list_events_handler(Ok(house.events.clone())).unwrap();
    assert_eq!(events.status, StatusCode::Success);
    let event = events.body.iter().find(|e| e.title == "weekly recurring").unwrap();
    assert_eq!(event.source_kind, "ics");
    assert!(event.read_only);

    let req = CreateOverrideRequest {
        instance_date: "2099-05-15".to_string(),
        action: "annotate".to_string(),
        payload: some("bring the away kit"),
    };
    let overlay = create_override(&event.id, req, "no such action".to_string(), now()).unwrap();
    let target = house.events.iter().find(|e| e.id == overlay.source_event_id).cloned();
    override_target(Ok(target)).unwrap();
    assert_eq!(created_override(&overlay, Ok(())).unwrap().status, StatusCode::Created);
    house.overrides.push(overlay);

    let annotated = house.today("2099-05-15").body.items;
    assert_eq!(annotated.len(), 1);
    assert_eq!(annotated[0].title, "weekly recurring");
    assert_eq!(annotated[0].annotation, some("bring the away kit"));
    assert_eq!(annotated[0].at, "2099-05-15T09:00:00Z");

    let other_week = house.today("2099-05-01").body.items;
    assert_eq!(other_week.len(), 1);
    assert!(other_week[0].annotation.is_none());
}

#[test]
fn feed_addresses_are_normalised() {
    let normal = |url: &str| normalise_feed_url(url.to_string());
    assert_eq!(normal("https://x.test/a"), some("https://x.test/a"));
    assert_eq!(normal("http://x.test/a"), some("http://x.test/a"));
    assert_eq!(normal("webcal://x.test/a"), some("https://x.test/a"));
    assert_eq!(normal("ftp://x.test/a"), None);
    assert_eq!(normal(""), None);
    for url in ["https://x.test/a", "http://x.test/a", "webcal://x.test/a"] {
        let once = normal(url).unwrap();
        assert_eq!(normal(&once), Some(once.clone()));
        assert!(once.starts_with("http://") || once.starts_with("https://"));
    }
}

#[test]
fn a_category_that_is_not_one_is_422() {
    let req = request("x", "https://x.test/a", Some("nonsense"));
    let rejection =
        create_calendar(
            req,
            Err("unknown category: nonsense".to_string()),
            calendar_words(),
            now(),
        )
        .unwrap_err();
    assert_eq!(rejection.status, StatusCode::UnprocessableEntity);
    assert!(rejection.error.unwrap().contains("unknown category: nonsense"));
}

#[test]
fn a_refresh_needs_a_calendar_and_shows_what_came_of_it() {
    assert_eq!(refresh_calendar(Ok(None)).unwrap_err().status, StatusCode::NotFound);
    assert_eq!(refresh_calendar(Err(failure())).unwrap_err().status.code(), 500);
    let mut store = Vec::new();
    post(&mut store, request("club", "https://example.test/c.ics", None)).unwrap();
    let row = store[0].clone();
    let asked = refresh_calendar(Ok(Some(row.clone()))).unwrap();
    assert_eq!(asked.calendar.id, row.calendar.id);
    let shown = refreshed_calendar(Ok(3), Ok(Some(row.clone()))).unwrap();
    assert_eq!(shown.status, StatusCode::Success);
    assert_eq!(shown.body.name, "club");
    let failed = refreshed_calendar(Err("list_events: x".to_string()), Ok(Some(row)));
    assert_eq!(failed.unwrap_err().status.code(), 500);
}

#[test]
fn storage_trouble_is_500_for_calendars() {
    let mut store = Vec::new();
    post(&mut store, request("club", "https://example.test/c.ics", None)).unwrap();
    let calendar = &store[0].calendar;
    assert_eq!(created_calendar(calendar, Err(failure())).unwrap_err().status.code(), 500);
    assert_eq!(list_calendars_handler(Err(failure())).unwrap_err().status.code(), 500);
    assert_eq!(get_calendar(Err(failure())).unwrap_err().status.code(), 500);
    assert_eq!(patch_calendar(Err(failure())).unwrap_err().status.code(), 500);
    let call = delete_calendar_handler(calendar.id, Err(failure()));
    assert_eq!(call.unwrap_err().status.code(), 500);
}
