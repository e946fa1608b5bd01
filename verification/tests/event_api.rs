// The event endpoints, driven phase by phase against a household in memory.

use amity_service::api::event::{
    create_event, create_override, created_event, created_override, event_instances_with,
    event_rows_with, get_event, layout_window, list_events_handler, materialise_event_instances,
    override_target, parse_event_id, store_event_instances, CreateEventRequest,
    CreateOverrideRequest, EventComplaints, EventResponse, OverrideResponse,
};
use amity_service::api::fields::{read_time, TimeField};
use amity_service::api::surfacing::{
    event_instances_query, task_instances_query, today, today_candidates, today_response, week,
    week_candidates, week_days, week_response, DayReads, EventReads, Liveness, PlannedDay,
    SurfaceCandidate, SurfacedItem, Timing, TodayQuery, TodayResponse, WeekQuery, WeekResponse,
};
use amity_service::api::task::{
    create_task, created_task, CreateTaskRequest, LevelComplaints, TaskComplaints, TaskResponse,
};
use amity_service::dates::{Date, Timestamp};
use amity_service::model::event::{
    Event, EventDraft, EventError, EventInstance, EventOverride, EventSource, EventSourceKind,
    OverrideAction,
};
use amity_service::model::meal::Meal;
use amity_service::model::task::{Task, TaskInstance};
use amity_service::reply::{Rejection, Reply, StatusCode, StorageFailure};

fn at(text: &str) -> Timestamp {
    match read_time(&Some(text.to_string())) {
        TimeField::At(t) => t,
        _ => panic!("{text} is no time"),
    }
}

fn some(text: &str) -> Option<String> {
    Some(text.to_string())
}

// Everything a household has stored.
#[derive(Default)]
struct Household {
    tasks: Vec<Task>,
    task_instances: Vec<TaskInstance>,
    events: Vec<Event>,
    event_instances: Vec<EventInstance>,
    overrides: Vec<EventOverride>,
    meals: Vec<Meal>,
}

impl Household {
    fn event_reads(&self, day: Date) -> EventReads {
        let overrides: Vec<EventOverride> =
            self.overrides.iter().filter(|o| o.instance_date == day).cloned().collect();
        let mut instances = Vec::new();
        for event in &self.events {
            let mut rows = Vec::new();
            if let Some(query) = event_instances_query(event, &overrides, day) {
                for row in &self.event_instances {
                    if row.event_id == query.event_id && !row.scheduled_at.is_before(query.from) {
                        rows.push(row.clone());
                    }
                }
            }
            instances.push(Ok(rows));
        }
        EventReads { events: Ok(self.events.clone()), overrides: Ok(overrides), instances }
    }

    fn task_reads(&self, day: Date) -> Vec<Result<Vec<TaskInstance>, StorageFailure>> {
        let mut reads = Vec::new();
        for task in &self.tasks {
            let mut rows = Vec::new();
            if let Some(query) = task_instances_query(task, day) {
                for row in &self.task_instances {
                    if row.task_id == query.task_id && !row.scheduled_at.is_before(query.from) {
                        rows.push(row.clone());
                    }
                }
            }
            reads.push(Ok(rows));
        }
        reads
    }

    fn today(&self, date: &str) -> Reply<TodayResponse> {
        let params = TodayQuery { date: some(date) };
        let day = today(params, at("2026-05-25T10:00:00Z")).unwrap();
        let meals: Vec<Meal> = self.meals.iter().filter(|m| m.date == day).cloned().collect();
        let candidates = today_candidates(
            &self.tasks,
            &self.task_reads(day),
            &self.event_reads(day),
            &Ok(meals),
            day,
        );
        today_response(day, &rank(&candidates, day))
    }

    fn week(&self, start: Option<&str>, now: Timestamp) -> Result<Reply<WeekResponse>, Rejection> {
        let params = WeekQuery { start: start.map(|s| s.to_string()) };
        let monday = week(params, now)?;
        let mut reads = Vec::new();
        for day in week_days(monday) {
            reads.push(DayReads {
                task_instances: self.task_reads(day),
                events: self.event_reads(day),
            });
        }
        let candidates = week_candidates(&self.tasks, &reads, monday);
        let mut days = Vec::new();
        for date in week_days(monday) {
            days.push(PlannedDay { date, items: rank(&candidates, date) });
        }
        Ok(week_response(monday, &days))
    }
}

// A stand-in for the ranking rule: what is live and falls on the day, once,
// whole days first, then by time.
fn rank(candidates: &Vec<SurfaceCandidate>, day: Date) -> Vec<SurfacedItem> {
    let mut items: Vec<SurfacedItem> = Vec::new();
    for c in candidates {
        let when = match c.timing {
            Timing::Scheduled(when) => Some(when),
            Timing::Window { due_by, .. } => due_by,
        };
        let when = match when {
            Some(when) if c.liveness == Liveness::Live && when.date() == day => when,
            _ => continue,
        };
        if items.iter().any(|i| i.source_id == c.source_id && i.at == when) {
            continue;
        }
        items.push(SurfacedItem {
            kind: c.kind,
            source_id: c.source_id.clone(),
            title: c.title.clone(),
            at: when,
            overdue: false,
            all_day: c.all_day,
            priority: c.priority,
            current_assignee_id: c.current_assignee_id,
            annotation: c.annotation.clone(),
            rescheduled: c.rescheduled,
        });
    }
    items.sort_by_key(|i| (!i.all_day, i.at.parts().1, i.at.parts().2));
    items
}

fn titled(title: &str) -> CreateTaskRequest {
    CreateTaskRequest {
        title: title.to_string(),
        notes: None,
        due_by: None,
        earliest_at: None,
        effort: None,
        priority: None,
        tags: None,
        recurrence_rrule: None,
        recurrence_timezone: None,
    }
}

fn post_task(house: &mut Household, req: CreateTaskRequest, now: Timestamp) -> Reply<TaskResponse> {
    let task = create_task(req, Ok(()), task_words(), now).unwrap();
    house.tasks.push(task.clone());
    created_task(&task, Ok(())).unwrap()
}

fn event(title: &str, start_at: &str) -> CreateEventRequest {
    CreateEventRequest {
        title: title.to_string(),
        start_at: start_at.to_string(),
        end_at: None,
        all_day: None,
        timezone: None,
        location: None,
        recurrence_rrule: None,
        recurrence_timezone: None,
    }
}

fn post_event(
    house: &mut Household,
    req: CreateEventRequest,
    now: Timestamp,
) -> Result<Reply<EventResponse>, Rejection> {
    let event = create_event(req, Ok(()), event_words(), now)?;
    house.events.push(event.clone());
    created_event(&event, Ok(()))
}

fn post_override(
    house: &mut Household,
    id: &str,
    req: CreateOverrideRequest,
    now: Timestamp,
) -> Result<Reply<OverrideResponse>, Rejection> {
    let overlay = create_override(id, req, "no such action".to_string(), now)?;
    let target = house.events.iter().find(|e| e.id == overlay.source_event_id).cloned();
    override_target(Ok(target))?;
    house.overrides.push(overlay.clone());
    created_override(&overlay, Ok(()))
}

fn overlay(date: &str, action: &str, payload: Option<&str>) -> CreateOverrideRequest {
    CreateOverrideRequest {
        instance_date: date.to_string(),
        action: action.to_string(),
        payload: payload.map(|p| p.to_string()),
    }
}

fn now() -> Timestamp {
    at("2026-05-25T10:00:00Z")
}

fn task_words() -> TaskComplaints {
    TaskComplaints { title: "a title is needed".to_string(), levels: level_words() }
}

fn level_words() -> LevelComplaints {
    LevelComplaints { effort: "no such effort".to_string(), priority: "no such rank".to_string() }
}

fn event_words() -> EventComplaints {
    EventComplaints {
        title: "a title is needed".to_string(),
        timezone: "a timezone is needed".to_string(),
        end: "it ends too early".to_string(),
    }
}

fn failure() -> StorageFailure {
    StorageFailure { message: "disk full".to_string() }
}

fn get(house: &Household, id: &str) -> Result<Reply<EventResponse>, Rejection> {
    let id = parse_event_id(id)?;
    get_event(Ok(house.events.iter().find(|e| e.id == id).cloned()))
}

#[test]
fn create_event_then_it_surfaces_on_today() {
    let mut house = Household::default();
    let created =
        post_event(&mut house, event("school play", "2099-01-01T19:00:00+00:00"), now()).unwrap();
    assert_eq!(created.status, StatusCode::Created);
    let reply = house.today("2099-01-01");
    assert_eq!(reply.status, StatusCode::Success);
    assert!(reply.body.has_surfaced);
    assert_eq!(reply.body.items.len(), 1);
    assert_eq!(reply.body.items[0].kind, "event");
    assert_eq!(reply.body.items[0].title, "school play");
    assert!(!reply.body.items[0].overdue);
    assert!(!reply.body.items[0].all_day);
}

#[test]
fn cancel_override_removes_the_event_from_today() {
    let mut house = Household::default();
    let created =
        post_event(&mut house, event("bin day", "2099-04-27T07:00:00+00:00"), now()).unwrap();
    assert_eq!(created.status, StatusCode::Created);
    let cancel = overlay("2099-04-27", "cancel", None);
    let cancelled = post_override(&mut house, &created.body.id, cancel, now()).unwrap();
    assert_eq!(cancelled.status, StatusCode::Created);
    assert_eq!(cancelled.body.action, "cancel");
    let reply = house.today("2099-04-27");
    assert_eq!(reply.status, StatusCode::Success);
    assert!(!reply.body.has_surfaced);
    assert!(reply.body.items.is_empty());
}

#[test]
fn all_day_event_leads_the_day_ahead_of_a_task() {
    let mut house = Household::default();
    let mut kings_day = event("king's day", "2099-04-27T00:00:00+00:00");
    kings_day.all_day = Some(true);
    let created = post_event(&mut house, kings_day, now()).unwrap();
    assert_eq!(created.status, StatusCode::Created);
    let mut plants = titled("water plants");
    plants.due_by = some("2099-04-27T15:00:00+00:00");
    assert_eq!(post_task(&mut house, plants, now()).status, StatusCode::Created);
    let items = house.today("2099-04-27").body.items;
    assert_eq!(items.len(), 2);
    assert_eq!(items[0].kind, "event");
    assert!(items[0].all_day);
    assert_eq!(items[0].title, "king's day");
}

#[test]
fn create_event_validates_input() {
    let blank = event("   ", "2099-01-01T10:00:00+00:00");
    let blank = create_event(blank, Ok(()), event_words(), now()).unwrap_err();
    assert_eq!(blank.status, StatusCode::UnprocessableEntity);
    assert_eq!(blank.error, some("a title is needed"));
    let mut half = event("standup", "2099-01-01T10:00:00+00:00");
    half.recurrence_rrule = some("FREQ=DAILY");
    let half = create_event(half, Ok(()), event_words(), now());
    assert_eq!(half.unwrap_err().status, StatusCode::UnprocessableEntity);
    let bad_start = create_event(event("x", "not-a-date"), Ok(()), event_words(), now());
    assert_eq!(bad_start.unwrap_err().status, StatusCode::UnprocessableEntity);
}

#[test]
fn get_event_found_and_not_found() {
    let mut house = Household::default();
    let created =
        post_event(&mut house, event("dentist", "2099-02-02T09:00:00+00:00"), now()).unwrap();
    let found = get(&house, &created.body.id).unwrap();
    assert_eq!(found.status, StatusCode::Success);
    assert_eq!(found.body.title, "dentist");
    let missing = get(&house, "018f1a2b-0000-7000-8000-000000000099").unwrap_err();
    assert_eq!(missing.status, StatusCode::NotFound);
    let bad = get(&house, "not-a-uuid").unwrap_err();
    assert_eq!(bad.status, StatusCode::BadRequest);
}

#[test]
fn override_on_missing_event_is_404() {
    let rejection = post_override(
        &mut Household::default(),
        "018f1a2b-0000-7000-8000-000000000099",
        overlay("2099-01-01", "cancel", None),
        now(),
    )
    .unwrap_err();
    assert_eq!(rejection.status, StatusCode::NotFound);
}

#[test]
fn a_full_event_is_shown_back() {
    let mut house = Household::default();
    let reply = post_event(
        &mut house,
        CreateEventRequest {
            title: "orchestra".to_string(),
            start_at: "2099-01-01T19:00:00+01:00".to_string(),
            end_at: some("2099-01-01T21:00:00+01:00"),
            all_day: Some(false),
            timezone: some("Europe/Paris"),
            location: some("town hall"),
            recurrence_rrule: some("FREQ=WEEKLY"),
            recurrence_timezone: some("Europe/Paris"),
        },
        now(),
    )
    .unwrap();
    assert_eq!(reply.body.title, "orchestra");
    assert_eq!(reply.body.start_at, "2099-01-01T19:00:00+01:00");
    assert_eq!(reply.body.end_at, some("2099-01-01T21:00:00+01:00"));
    assert!(!reply.body.all_day);
    assert_eq!(reply.body.timezone, "Europe/Paris");
    assert_eq!(reply.body.location, some("town hall"));
    assert_eq!(reply.body.recurrence_rrule, some("FREQ=WEEKLY"));
    assert_eq!(reply.body.recurrence_timezone, some("Europe/Paris"));
    assert_eq!(reply.body.source_kind, "native");
    assert!(!reply.body.read_only);
    assert_eq!(reply.body.created_at, "2026-05-25T10:00:00Z");
    assert_eq!(reply.body.updated_at, "2026-05-25T10:00:00Z");
    let listed = list_events_handler(Ok(house.events)).unwrap();
    assert_eq!(listed.body.len(), 1);
    assert_eq!(listed.body[0].id, reply.body.id);
}

#[test]
fn an_event_may_end_when_it_starts_but_not_before() {
    let mut same = event("x", "2099-01-01T19:00:00+01:00");
    same.end_at = some("2099-01-01T18:00:00Z");
    assert!(create_event(same, Ok(()), event_words(), now()).is_ok());
    let mut before = event("x", "2099-01-01T19:00:00+01:00");
    before.end_at = some("2099-01-01T17:59:59Z");
    let rejection = create_event(before, Ok(()), event_words(), now()).unwrap_err();
    assert_eq!(rejection.status.code(), 422);
    assert_eq!(rejection.error, some("it ends too early"));
    let mut nowhere = event("x", "2099-01-01T19:00:00+01:00");
    nowhere.timezone = some(" ");
    let rejection = create_event(nowhere, Ok(()), event_words(), now()).unwrap_err();
    assert_eq!(rejection.error, some("a timezone is needed"));
    let mut bad = event("x", "2099-01-01T19:00:00+01:00");
    bad.end_at = some("later");
    assert_eq!(create_event(bad, Ok(()), event_words(), now()).unwrap_err().status.code(), 422);
}

#[test]
fn a_draft_is_refused_for_one_reason() {
    let draft = |title: &str, timezone: Option<&str>, end: Option<&str>| EventDraft {
        title: title.to_string(),
        start_at: at("2099-01-01T19:00:00Z"),
        end_at: end.map(at),
        all_day: false,
        timezone: timezone.map(|t| t.to_string()),
        location: None,
        recurrence: None,
        source: EventSource::native(),
    };
    let early = Some("2098-01-01T00:00:00Z");
    assert_eq!(draft(" ", Some(" "), early).build(now()).unwrap_err(), EventError::EmptyTitle);
    assert_eq!(draft("x", Some(" "), early).build(now()).unwrap_err(), EventError::EmptyTimezone);
    assert_eq!(draft("x", None, early).build(now()).unwrap_err(), EventError::EndBeforeStart);
    let built = draft("x", None, None).build(now()).unwrap();
    assert_eq!(built.timezone, "Europe/Amsterdam");
    assert_eq!(built.source.kind, EventSourceKind::Native);
}

#[test]
fn a_rule_that_does_not_hold_is_422_for_an_event() {
    let mut req = event("x", "2099-01-01T19:00:00Z");
    req.recurrence_rrule = some("FREQ=NEVER");
    req.recurrence_timezone = some("UTC");
    let verdict = Err("unknown frequency".to_string());
    let rejection = create_event(req, verdict, event_words(), now()).unwrap_err();
    assert_eq!(rejection.status, StatusCode::UnprocessableEntity);
    assert!(rejection.error.unwrap().contains("unknown frequency"));
}

#[test]
fn overlays_are_read_before_the_event_is_looked_for() {
    let mut house = Household::default();
    let id =
        post_event(&mut house, event("x", "2099-01-01T19:00:00Z"), now()).unwrap().body.id;
    let bad_id = post_override(&mut house, "x", overlay("2099-01-01", "cancel", None), now());
    assert_eq!(bad_id.unwrap_err().status, StatusCode::BadRequest);
    let bad_date = post_override(&mut house, &id, overlay("1/1/2099", "cancel", None), now());
    assert_eq!(bad_date.unwrap_err().status, StatusCode::UnprocessableEntity);
    let bad_action = post_override(&mut house, &id, overlay("2099-01-01", "explode", None), now());
    let rejection = bad_action.unwrap_err();
    assert_eq!(rejection.status, StatusCode::UnprocessableEntity);
    assert_eq!(rejection.error, some("action: no such action"));
    for action in ["cancel", "reschedule", "annotate"] {
        let made = post_override(&mut house, &id, overlay("2099-01-01", action, Some("p")), now());
        assert_eq!(made.unwrap().body.action, action);
        assert_eq!(OverrideAction::parse(action).unwrap().as_str(), action);
    }
}

#[test]
fn storage_trouble_is_500_for_events() {
    let made = create_event(event("x", "2099-01-01T19:00:00Z"), Ok(()), event_words(), now()).unwrap();
    assert_eq!(created_event(&made, Err(failure())).unwrap_err().status.code(), 500);
    assert_eq!(get_event(Err(failure())).unwrap_err().status.code(), 500);
    assert_eq!(list_events_handler(Err(failure())).unwrap_err().status.code(), 500);
    assert_eq!(override_target(Err(failure())).unwrap_err().status.code(), 500);
    let id = "018f1a2b-0000-7000-8000-000000000099";
    let req = overlay("2099-01-01", "annotate", Some("x"));
    let note = create_override(id, req, "no such action".to_string(), now()).unwrap();
    assert_eq!(created_override(&note, Err(failure())).unwrap_err().status.code(), 500);
}

#[test]
fn occurrences_of_a_native_event_are_laid_out() {
    let mut req = event("x", "2099-01-01T19:00:00Z");
    req.recurrence_rrule = some("FREQ=DAILY");
    req.recurrence_timezone = some("UTC");
    let made = create_event(req, Ok(()), event_words(), now()).unwrap();
    let times = vec![at("2099-01-01T19:00:00Z"), at("2099-01-02T19:00:00Z")];
    let rows = materialise_event_instances(&made, Ok(times)).unwrap();
    assert_eq!(rows.len(), 2);
    assert_eq!(rows[1].event_id, made.id);
    assert_eq!(rows[1].scheduled_at, at("2099-01-02T19:00:00Z"));
    assert!(materialise_event_instances(&made, Err("bad rule".to_string())).is_err());
    assert!(store_event_instances(Ok(())).is_ok());
    assert!(store_event_instances(Err(failure())).unwrap_err().contains("disk full"));
}

#[test]
fn a_new_event_is_laid_out_only_if_it_recurs() {
    let once = event("x", "2099-01-01T19:00:00Z");
    let once = create_event(once, Ok(()), event_words(), now()).unwrap();
    assert!(layout_window(&once).is_none());
    let mut weekly = event("x", "2099-01-01T19:00:00Z");
    weekly.recurrence_rrule = some("FREQ=WEEKLY");
    weekly.recurrence_timezone = some("Europe/Amsterdam");
    let weekly = create_event(weekly, Ok(()), event_words(), now()).unwrap();
    let window = layout_window(&weekly).unwrap();
    assert_eq!(window.from, now());
    assert_eq!(window.until, now().plus_days(60));
}

#[test]
fn occurrences_go_by_the_identifiers_they_are_given() {
    let made = event("x", "2099-01-01T19:00:00Z");
    let made = create_event(made, Ok(()), event_words(), now()).unwrap();
    let times = vec![at("2099-01-01T19:00:00Z"), at("2099-01-08T19:00:00Z")];
    let rows = event_instances_with(made.id, &times, &vec![7, 8]);
    assert_eq!(rows[0].id, "00000000-0000-0000-0000-000000000007");
    assert_eq!(rows[1].id, "00000000-0000-0000-0000-000000000008");
    assert_eq!(rows[1].event_id, made.id);
    assert_eq!(rows[1].scheduled_at, times[1]);
    let rows = event_rows_with(&vec![(made.id, times[1])], &vec![9]);
    assert_eq!(rows[0].id, "00000000-0000-0000-0000-000000000009");
    assert_eq!(rows[0].scheduled_at, times[1]);
}
