// The Today view, driven phase by phase against a household in memory.

use amity_service::api::event::{
    create_event, create_override, created_event, created_override, materialise_event_instances,
    override_target, CreateEventRequest, CreateOverrideRequest, EventComplaints, EventResponse,
    OverrideResponse,
};
use amity_service::api::fields::{parse_date, read_time, TimeField};
use amity_service::api::surfacing::{
    applied, build_event_candidates, build_task_candidates, cancels, event_instances_query,
    kind_to_str, liveness_of, meals_to_read, read_from, surfaced_item_to_response,
    task_instances_query, tasks_to_read, today, today_candidates, today_response, week,
    week_candidates, week_days, week_response, DayReads, EventReads, Liveness, PlannedDay,
    SurfaceCandidate, SurfacedItem, SurfacedKind, Timing, TodayQuery, TodayResponse, WeekQuery,
    WeekResponse, INSTANCE_LIMIT,
};
use amity_service::api::task::{
    complete_task, create_task, created_task, default_upcoming_limit, list_upcoming,
    listed_upcoming, materialise_instances, upcoming_instances_query, CompleteTaskRequest,
    CreateTaskRequest, LevelComplaints, TaskComplaints, TaskResponse, UpcomingQuery,
};
use amity_service::dates::{Date, Timestamp};
use amity_service::ids::{EventId, MemberId};
use amity_service::model::event::{Event, EventInstance, EventOverride};
use amity_service::model::meal::Meal;
use amity_service::model::task::{Task, TaskInstance, TaskStatus};
use amity_service::reply::{Rejection, Reply, StatusCode, StorageFailure};

fn at(text: &str) -> Timestamp {
    match read_time(&Some(text.to_string())) {
        TimeField::At(t) => t,
        _ => panic!("{text} is no time"),
    }
}

fn some(text: &str) -> Option<String> {
    Some(text.to_string())
}

// Everything a household has stored.
#[derive(Default)]
struct Household {
    tasks: Vec<Task>,
    task_instances: Vec<TaskInstance>,
    events: Vec<Event>,
    event_instances: Vec<EventInstance>,
    overrides: Vec<EventOverride>,
    meals: Vec<Meal>,
}

impl Household {
    fn event_reads(&self, day: Date) -> EventReads {
        let overrides: Vec<EventOverride> =
            self.overrides.iter().filter(|o| o.instance_date == day).cloned().collect();
        let mut instances = Vec::new();
        for event in &self.events {
            let mut rows = Vec::new();
            if let Some(query) = event_instances_query(event, &overrides, day) {
                for row in &self.event_instances {
                    if row.event_id == query.event_id && !row.scheduled_at.is_before(query.from) {
                        rows.push(row.clone());
                    }
                }
            }
            instances.push(Ok(rows));
        }
        EventReads { events: Ok(self.events.clone()), overrides: Ok(overrides), instances }
    }

    fn task_reads(&self, day: Date) -> Vec<Result<Vec<TaskInstance>, StorageFailure>> {
        let mut reads = Vec::new();
        for task in &self.tasks {
            let mut rows = Vec::new();
            if let Some(query) = task_instances_query(task, day) {
                for row in &self.task_instances {
                    if row.task_id == query.task_id && !row.scheduled_at.is_before(query.from) {
                        rows.push(row.clone());
                    }
                }
            }
            reads.push(Ok(rows));
        }
        reads
    }

    fn today(&self, date: &str) -> Reply<TodayResponse> {
        let params = TodayQuery { date: some(date) };
        let day = today(params, at("2026-05-25T10:00:00Z")).unwrap();
        let meals: Vec<Meal> = self.meals.iter().filter(|m| m.date == day).cloned().collect();
        let candidates = today_candidates(
            &self.tasks,
            &self.task_reads(day),
            &self.event_reads(day),
            &Ok(meals),
            day,
        );
        today_response(day, &rank(&candidates, day))
    }

    fn week(&self, start: Option<&str>, now: Timestamp) -> Result<Reply<WeekResponse>, Rejection> {
        let params = WeekQuery { start: start.map(|s| s.to_string()) };
        let monday = week(params, now)?;
        let mut reads = Vec::new();
        for day in week_days(monday) {
            reads.push(DayReads {
                task_instances: self.task_reads(day),
                events: self.event_reads(day),
            });
        }
        let candidates = week_candidates(&self.tasks, &reads, monday);
        let mut days = Vec::new();
        for date in week_days(monday) {
            days.push(PlannedDay { date, items: rank(&candidates, date) });
        }
        Ok(week_response(monday, &days))
    }
}

// A stand-in for the ranking rule: what is live and falls on the day, once,
// whole days first, then by time.
fn rank(candidates: &Vec<SurfaceCandidate>, day: Date) -> Vec<SurfacedItem> {
    let mut items: Vec<SurfacedItem> = Vec::new();
    for c in candidates {
        let when = match c.timing {
            Timing::Scheduled(when) => Some(when),
            Timing::Window { due_by, .. } => due_by,
        };
        let when = match when {
            Some(when) if c.liveness == Liveness::Live && when.date() == day => when,
            _ => continue,
        };
        if items.iter().any(|i| i.source_id == c.source_id && i.at == when) {
            continue;
        }
        items.push(SurfacedItem {
            kind: c.kind,
            source_id: c.source_id.clone(),
            title: c.title.clone(),
            at: when,
            overdue: false,
            all_day: c.all_day,
            priority: c.priority,
            current_assignee_id: c.current_assignee_id,
            annotation: c.annotation.clone(),
            rescheduled: c.rescheduled,
        });
    }
    items.sort_by_key(|i| (!i.all_day, i.at.parts().1, i.at.parts().2));
    items
}

fn titled(title: &str) -> CreateTaskRequest {
    CreateTaskRequest {
        title: title.to_string(),
        notes: None,
        due_by: None,
        earliest_at: None,
        effort: None,
        priority: None,
        tags: None,
        recurrence_rrule: None,
        recurrence_timezone: None,
    }
}

fn post_task(house: &mut Household, req: CreateTaskRequest, now: Timestamp) -> Reply<TaskResponse> {
    let task = create_task(req, Ok(()), task_words(), now).unwrap();
    house.tasks.push(task.clone());
    created_task(&task, Ok(())).unwrap()
}

fn event(title: &str, start_at: &str) -> CreateEventRequest {
    CreateEventRequest {
        title: title.to_string(),
        start_at: start_at.to_string(),
        end_at: None,
        all_day: None,
        timezone: None,
        location: None,
        recurrence_rrule: None,
        recurrence_timezone: None,
    }
}

fn post_event(
    house: &mut Household,
    req: CreateEventRequest,
    now: Timestamp,
) -> Result<Reply<EventResponse>, Rejection> {
    let event = create_event(req, Ok(()), event_words(), now)?;
    house.events.push(event.clone());
    created_event(&event, Ok(()))
}

fn post_override(
    house: &mut Household,
    id: &str,
    req: CreateOverrideRequest,
    now: Timestamp,
) -> Result<Reply<OverrideResponse>, Rejection> {
    let overlay = create_override(id, req, "no such action".to_string(), now)?;
    let target = house.events.iter().find(|e| e.id == overlay.source_event_id).cloned();
    override_target(Ok(target))?;
    house.overrides.push(overlay.clone());
    created_override(&overlay, Ok(()))
}

fn overlay(date: &str, action: &str, payload: Option<&str>) -> CreateOverrideRequest {
    CreateOverrideRequest {
        instance_date: date.to_string(),
        action: action.to_string(),
        payload: payload.map(|p| p.to_string()),
    }
}

fn now() -> Timestamp {
    at("2026-05-25T10:00:00Z")
}

fn task_words() -> TaskComplaints {
    TaskComplaints { title: "a title is needed".to_string(), levels: level_words() }
}

fn level_words() -> LevelComplaints {
    LevelComplaints { effort: "no such effort".to_string(), priority: "no such rank".to_string() }
}

fn event_words() -> EventComplaints {
    EventComplaints {
        title: "a title is needed".to_string(),
        timezone: "a timezone is needed".to_string(),
        end: "it ends too early".to_string(),
    }
}

fn failure() -> StorageFailure {
    StorageFailure { message: "disk full".to_string() }
}

fn date(text: &str) -> Date {
    parse_date("date", text).unwrap()
}

#[test]
fn surfacing_today_is_empty_when_nothing_is_due() {
    let reply = Household::default().today("2099-01-01");
    assert_eq!(reply.status, StatusCode::Success);
    assert_eq!(reply.body.date, "2099-01-01");
    assert!(!reply.body.has_surfaced);
    assert!(reply.body.items.is_empty());
}

#[test]
fn surfacing_today_includes_one_shot_task_due_that_day() {
    let mut house = Household::default();
    let mut req = titled("call the dentist");
    req.due_by = some("2099-01-01T09:00:00+00:00");
    assert_eq!(post_task(&mut house, req, now()).status, StatusCode::Created);
    let reply = house.today("2099-01-01");
    assert_eq!(reply.status, StatusCode::Success);
    assert!(reply.body.has_surfaced);
    assert_eq!(reply.body.items.len(), 1);
    assert_eq!(reply.body.items[0].kind, "task");
    assert_eq!(reply.body.items[0].title, "call the dentist");
    assert!(!reply.body.items[0].overdue);
}

#[test]
fn surfacing_today_excludes_task_before_its_window_opens() {
    let mut house = Household::default();
    let mut req = titled("book summer camp");
    req.earliest_at = some("2099-03-01T00:00:00+00:00");
    req.due_by = some("2099-06-01T00:00:00+00:00");
    assert_eq!(post_task(&mut house, req, now()).status, StatusCode::Created);
    let reply = house.today("2099-01-01");
    assert_eq!(reply.status, StatusCode::Success);
    assert!(!reply.body.has_surfaced);
    assert!(reply.body.items.is_empty());
}

#[test]
fn surfacing_today_includes_recurring_instance_on_its_scheduled_day() {
    let mut house = Household::default();
    let mut req = titled("daily standup");
    req.recurrence_rrule = some("FREQ=DAILY");
    req.recurrence_timezone = some("Europe/Amsterdam");
    assert_eq!(post_task(&mut house, req, now()).status, StatusCode::Created);
    let times = vec![at("2026-05-25T12:00:00+02:00"), at("2026-05-26T12:00:00+02:00")];
    let rows = materialise_instances(&house.tasks[0], Ok(times)).unwrap();
    house.task_instances.extend(rows.clone());

    let (_, limit) = list_upcoming(UpcomingQuery { limit: default_upcoming_limit() });
    assert!(upcoming_instances_query(&house.tasks[0], now(), limit).is_some());
    let upcoming = listed_upcoming(&house.tasks, &vec![Ok(rows)], limit);
    assert!(!upcoming.body.is_empty());
    let day = &upcoming.body[0].scheduled_at[..10];

    let reply = house.today(day);
    assert_eq!(reply.status, StatusCode::Success);
    assert!(reply.body.has_surfaced);
    assert!(reply.body.items.iter().any(|i| i.title == "daily standup"));
    assert_eq!(reply.body.items.len(), 1);
}

// ─── Tasks ────────────────────────────────────────────────────────────────────

#[test]
fn what_is_open_or_under_way_is_live() {
    assert_eq!(liveness_of(TaskStatus::Open), Liveness::Live);
    assert_eq!(liveness_of(TaskStatus::Doing), Liveness::Live);
    assert_eq!(liveness_of(TaskStatus::Done), Liveness::Settled);
    assert_eq!(liveness_of(TaskStatus::Skipped), Liveness::Settled);
}

#[test]
fn a_logged_task_is_settled_in_all_its_candidates() {
    let mut req = titled("daily");
    req.recurrence_rrule = some("FREQ=DAILY");
    req.recurrence_timezone = some("UTC");
    let mut task = create_task(req, Ok(()), task_words(), now()).unwrap();
    let rows = materialise_instances(&task, Ok(vec![at("2099-01-01T09:00:00Z")])).unwrap();
    let done = CompleteTaskRequest { instance_date: "2099-01-01".to_string(), notes: None };
    let log =
        complete_task("018f1a2b-0000-7000-8000-000000000099", done, now()).unwrap();
    task.status = log.resolved_status();
    let one_shot = {
        let mut t = create_task(titled("once"), Ok(()), task_words(), now()).unwrap();
        t.status = log.resolved_status();
        t
    };
    let candidates = build_task_candidates(
        &vec![task, one_shot],
        &vec![Ok(rows), Ok(Vec::new())],
        date("2099-01-01"),
    );
    assert_eq!(candidates.len(), 2);
    assert!(candidates.iter().all(|c| c.liveness == Liveness::Settled));
}

#[test]
fn only_instances_on_the_day_are_candidates() {
    let mut req = titled("daily");
    req.recurrence_rrule = some("FREQ=DAILY");
    req.recurrence_timezone = some("UTC");
    req.priority = Some(2);
    let mut task = create_task(req, Ok(()), task_words(), now()).unwrap();
    task.current_assignee_id = Some(MemberId(5));
    let mut rows = materialise_instances(
        &task,
        Ok(vec![
            at("2098-12-31T23:30:00Z"),
            at("2099-01-01T00:30:00+02:00"),
            at("2099-01-01T23:30:00-05:00"),
            at("2099-01-02T00:00:00Z"),
        ]),
    )
    .unwrap();
    rows[1].current_assignee_id = None;
    rows[2].current_assignee_id = Some(MemberId(6));
    let candidates = build_task_candidates(&vec![task], &vec![Ok(rows)], date("2099-01-01"));
    assert_eq!(candidates.len(), 2);
    assert_eq!(candidates[0].current_assignee_id, Some(MemberId(5)));
    assert_eq!(candidates[1].current_assignee_id, Some(MemberId(6)));
    assert!(candidates.iter().all(|c| c.kind == SurfacedKind::Task && !c.all_day));
    assert!(candidates.iter().all(|c| c.priority.unwrap().value() == 2));
}

#[test]
fn a_failed_read_of_instances_leaves_out_its_task() {
    let mut req = titled("daily");
    req.recurrence_rrule = some("FREQ=DAILY");
    req.recurrence_timezone = some("UTC");
    let task = create_task(req, Ok(()), task_words(), now()).unwrap();
    let once = create_task(titled("once"), Ok(()), task_words(), now()).unwrap();
    let reads = vec![Err(failure()), Err(failure())];
    let candidates = build_task_candidates(&vec![task, once], &reads, date("2099-01-01"));
    assert_eq!(candidates.len(), 1);
    assert_eq!(candidates[0].title, "once");
}

#[test]
fn instances_are_read_from_two_days_before() {
    assert_eq!(read_from(date("2099-01-01")), at("2098-12-30T00:00:00Z"));
    let mut req = titled("daily");
    req.recurrence_rrule = some("FREQ=DAILY");
    req.recurrence_timezone = some("UTC");
    let task = create_task(req, Ok(()), task_words(), now()).unwrap();
    let query = task_instances_query(&task, date("2099-01-01")).unwrap();
    assert_eq!(query.task_id, task.id);
    assert_eq!(query.from, at("2098-12-30T00:00:00Z"));
    assert_eq!(query.limit, INSTANCE_LIMIT);
    assert_eq!(query.limit, 200);
    let once = create_task(titled("once"), Ok(()), task_words(), now()).unwrap();
    assert!(task_instances_query(&once, date("2099-01-01")).is_none());
}

// ─── Events ───────────────────────────────────────────────────────────────────

#[test]
fn the_latest_overlay_counts() {
    let mut house = Household::default();
    let id = post_event(&mut house, event("lesson", "2099-01-01T19:00:00Z"), now())
        .unwrap()
        .body
        .id;
    let first = overlay("2099-01-01", "annotate", Some("bring music"));
    post_override(&mut house, &id, first, now()).unwrap();
    let second = overlay("2099-01-01", "annotate", Some("bring nothing"));
    post_override(&mut house, &id, second, at("2026-05-25T10:00:01Z")).unwrap();
    let third = overlay("2099-01-01", "annotate", Some("too early"));
    post_override(&mut house, &id, third, at("2026-05-25T09:59:59Z")).unwrap();
    let elsewhere = overlay("2099-01-02", "cancel", None);
    post_override(&mut house, &id, elsewhere, now()).unwrap();
    let items = house.today("2099-01-01").body.items;
    assert_eq!(items.len(), 1);
    assert_eq!(items[0].annotation, some("bring nothing"));
}

#[test]
fn a_cancellation_hides_the_event_whatever_else_overlays_it() {
    let mut house = Household::default();
    let id = post_event(&mut house, event("lesson", "2099-01-01T19:00:00Z"), now())
        .unwrap()
        .body
        .id;
    post_override(&mut house, &id, overlay("2099-01-01", "cancel", None), now()).unwrap();
    let later = overlay("2099-01-01", "annotate", Some("or not"));
    post_override(&mut house, &id, later, now()).unwrap();
    let event_id = house.events[0].id;
    assert!(cancels(&house.overrides, event_id));
    assert!(!cancels(&house.overrides, EventId(1)));
    assert!(applied(&house.overrides, EventId(1)).is_none());
    assert!(house.today("2099-01-01").body.items.is_empty());
}

#[test]
fn a_move_to_no_time_at_all_leaves_the_event_where_it_was() {
    let mut house = Household::default();
    let id = post_event(&mut house, event("lesson", "2099-01-01T19:00:00Z"), now())
        .unwrap()
        .body
        .id;
    let nowhere = overlay("2099-01-01", "reschedule", Some("whenever"));
    post_override(&mut house, &id, nowhere, now()).unwrap();
    let items = house.today("2099-01-01").body.items;
    assert_eq!(items.len(), 1);
    assert_eq!(items[0].at, "2099-01-01T19:00:00Z");
    let moved = overlay("2099-01-01", "reschedule", Some("2099-01-01T20:15:00+01:00"));
    post_override(&mut house, &id, moved, at("2026-05-25T10:00:01Z")).unwrap();
    let items = house.today("2099-01-01").body.items;
    assert_eq!(items[0].at, "2099-01-01T20:15:00+01:00");
    assert!(items[0].rescheduled);
    assert_eq!(items[0].annotation, None);
}

#[test]
fn events_that_cannot_be_read_leave_the_day_without_events() {
    let reads = EventReads {
        events: Err(failure()),
        overrides: Ok(Vec::new()),
        instances: Vec::new(),
    };
    assert!(build_event_candidates(&reads, date("2099-01-01")).is_empty());
    let made = create_event(event("x", "2099-01-01T19:00:00Z"), Ok(()), event_words(), now()).unwrap();
    let reads = EventReads {
        events: Ok(vec![made]),
        overrides: Err(failure()),
        instances: vec![Ok(Vec::new())],
    };
    assert_eq!(build_event_candidates(&reads, date("2099-01-01")).len(), 1);
    assert!(build_event_candidates(&reads, date("2099-01-02")).is_empty());
}

// ─── Showing ──────────────────────────────────────────────────────────────────

#[test]
fn an_item_is_shown_with_all_it_has() {
    let mut req = titled("x");
    req.priority = Some(3);
    let task = create_task(req, Ok(()), task_words(), now()).unwrap();
    let shown = surfaced_item_to_response(&SurfacedItem {
        kind: SurfacedKind::Task,
        source_id: "s".to_string(),
        title: "x".to_string(),
        at: at("2099-01-01T19:00:00.5Z"),
        overdue: true,
        all_day: false,
        priority: task.priority,
        current_assignee_id: Some(MemberId(1)),
        annotation: some("note"),
        rescheduled: true,
    });
    assert_eq!(shown.kind, "task");
    assert_eq!(shown.source_id, "s");
    assert_eq!(shown.title, "x");
    assert_eq!(shown.at, "2099-01-01T19:00:00.5Z");
    assert!(shown.overdue);
    assert_eq!(shown.priority, Some(3));
    assert_eq!(shown.current_assignee_id, some("00000000-0000-0000-0000-000000000001"));
    assert_eq!(shown.annotation, some("note"));
    assert!(shown.rescheduled);
    assert_eq!(kind_to_str(SurfacedKind::Event), "event");
    assert_eq!(kind_to_str(SurfacedKind::Meal), "meal");
}

#[test]
fn the_day_is_today_unless_the_request_says_otherwise() {
    let midnight_there = at("2026-05-25T00:30:00+02:00");
    let day = today(TodayQuery { date: None }, midnight_there).unwrap();
    assert_eq!(day.iso_text(), "2026-05-25");
    let rejection = today(TodayQuery { date: some("25-05-2026") }, now()).unwrap_err();
    assert_eq!(rejection.status, StatusCode::BadRequest);
}

#[test]
fn a_moved_occurrence_does_not_surface_in_its_old_slot() {
    let mut req = event("lesson", "2099-01-01T19:00:00Z");
    req.recurrence_rrule = some("FREQ=DAILY");
    req.recurrence_timezone = some("UTC");
    let mut house = Household::default();
    let id = post_event(&mut house, req, now()).unwrap().body.id;
    let times = vec![at("2099-01-01T19:00:00Z"), at("2099-01-02T19:00:00Z")];
    let rows = materialise_event_instances(&house.events[0], Ok(times)).unwrap();
    house.event_instances.extend(rows);
    let moved = overlay("2099-01-02", "reschedule", Some("2099-01-02T08:00:00Z"));
    post_override(&mut house, &id, moved, now()).unwrap();

    let reads = house.event_reads(date("2099-01-02"));
    let candidates = build_event_candidates(&reads, date("2099-01-02"));
    assert_eq!(candidates.len(), 1);
    assert!(candidates[0].rescheduled);
    assert!(matches!(candidates[0].timing, Timing::Scheduled(t) if t == at("2099-01-02T08:00:00Z")));
    let untouched = house.today("2099-01-01").body.items;
    assert_eq!(untouched.len(), 1);
    assert!(!untouched[0].rescheduled);
}

#[test]
fn the_flag_says_whether_anything_surfaced() {
    let mut house = Household::default();
    let empty = house.today("2099-01-01").body;
    assert_eq!(empty.has_surfaced, !empty.items.is_empty());
    post_event(&mut house, event("dentist", "2099-01-01T09:00:00Z"), now()).unwrap();
    let full = house.today("2099-01-01").body;
    assert_eq!(full.items.len(), 1);
    assert_eq!(full.has_surfaced, !full.items.is_empty());
}

#[test]
fn the_views_look_at_all_tasks_and_the_meals_of_the_day() {
    let filter = tasks_to_read();
    assert!(filter.status.is_none() && filter.tag.is_none() && filter.due_before.is_none());
    let range = meals_to_read(date("2099-01-01"));
    assert_eq!((range.from, range.to), (date("2099-01-01"), date("2099-01-01")));
}
