// The task endpoints, driven phase by phase against a store held in memory.

use amity_service::api::fields::{parse_date, read_time, Field, TimeField};
use amity_service::api::task::{
    change_assignee, complete_task, completion_target, create_task, created_task,
    default_upcoming_limit, found_task, get_task, get_task_history, instances_with, layout_window,
    list_tasks_handler, list_upcoming, listed_tasks, listed_upcoming, logged_completion,
    materialise_instances, parse_task_id, patch_task, patched_task, reassign_task, skip_task,
    upcoming_instances_query, updated_task, ChangeAssigneeRequest, CompleteTaskRequest,
    CompletionLogResponse, CreateTaskRequest, InstanceReplacement, LevelComplaints, ListTasksQuery,
    TaskComplaints, TaskResponse, UpcomingInstanceResponse, UpcomingQuery, UpdateTaskRequest,
    UPCOMING_CAP,
};
use amity_service::dates::Timestamp;
use amity_service::ids::{placeholder_member, MemberId, TaskId};
use amity_service::model::task::{
    CompletionLog, EffortLevel, Priority, RecurrenceRule, Task, TaskFilter, TaskInstance,
    TaskStatus,
};
use amity_service::reply::{Rejection, Reply, StatusCode, StorageFailure};

const PLACEHOLDER: &str = "00000000-0000-7000-8000-000000000001";
const UNKNOWN: &str = "018f1a2b-0000-7000-8000-000000000099";

fn at(text: &str) -> Timestamp {
    match read_time(&Some(text.to_string())) {
        TimeField::At(t) => t,
        _ => panic!("{text} is no time"),
    }
}

fn now() -> Timestamp {
    at("2026-05-25T10:00:00Z")
}

fn task_words() -> TaskComplaints {
    TaskComplaints { title: "a title is needed".to_string(), levels: level_words() }
}

fn level_words() -> LevelComplaints {
    LevelComplaints { effort: "no such effort".to_string(), priority: "no such rank".to_string() }
}

fn failure() -> StorageFailure {
    StorageFailure { message: "disk full".to_string() }
}

fn some(text: &str) -> Option<String> {
    Some(text.to_string())
}

fn given(text: &str) -> Field<String> {
    Field::Given(text.to_string())
}

fn titled(title: &str) -> CreateTaskRequest {
    CreateTaskRequest {
        title: title.to_string(),
        notes: None,
        due_by: None,
        earliest_at: None,
        effort: None,
        priority: None,
        tags: None,
        recurrence_rrule: None,
        recurrence_timezone: None,
    }
}

fn no_change() -> UpdateTaskRequest {
    UpdateTaskRequest {
        title: None,
        notes: Field::Absent,
        status: None,
        due_by: Field::Absent,
        earliest_at: Field::Absent,
        effort: None,
        priority: None,
        tags: Field::Absent,
        recurrence_rrule: None,
        recurrence_timezone: None,
    }
}

fn on(date: &str, notes: Option<String>) -> CompleteTaskRequest {
    CompleteTaskRequest { instance_date: date.to_string(), notes }
}

#[derive(Default)]
struct Store {
    tasks: Vec<Task>,
    logs: Vec<CompletionLog>,
    instances: Vec<TaskInstance>,
}

impl Store {
    fn post(&mut self, req: CreateTaskRequest) -> Result<Reply<TaskResponse>, Rejection> {
        let task = create_task(req, Ok(()), task_words(), now())?;
        self.tasks.push(task.clone());
        created_task(&task, Ok(()))
    }

    fn list(&self, query: ListTasksQuery) -> Result<Reply<Vec<TaskResponse>>, Rejection> {
        let filter = list_tasks_handler(query)?;
        let rows = self.tasks.iter().filter(|t| admits(&filter, t)).cloned().collect();
        listed_tasks(Ok(rows))
    }

    fn find(&self, id: TaskId) -> Option<Task> {
        self.tasks.iter().find(|t| t.id == id).cloned()
    }

    fn get(&self, id: &str) -> Result<Reply<TaskResponse>, Rejection> {
        let id = parse_task_id(id)?;
        get_task(Ok(self.find(id)))
    }

    fn put(&mut self, task: &Task) {
        for row in self.tasks.iter_mut() {
            if row.id == task.id {
                *row = task.clone();
            }
        }
    }

    fn patch(
        &mut self,
        id: &str,
        req: UpdateTaskRequest,
    ) -> Result<(Reply<TaskResponse>, Option<InstanceReplacement>), Rejection> {
        let id = parse_task_id(id)?;
        let old = found_task(Ok(self.find(id)))?;
        let patch = patch_task(old, req, Ok(()), level_words(), now())?;
        self.put(&patch.task);
        patched_task(&patch, Ok(()))
    }

    fn log(&mut self, log: CompletionLog) -> Result<Reply<CompletionLogResponse>, Rejection> {
        completion_target(Ok(self.find(log.task_id)))?;
        for row in self.tasks.iter_mut() {
            if row.id == log.task_id {
                row.status = log.resolved_status();
                row.updated_at = log.completed_at;
            }
        }
        self.logs.push(log.clone());
        logged_completion(&log, Ok(()))
    }

    fn history(&self, id: &str) -> Result<Reply<Vec<CompletionLogResponse>>, Rejection> {
        let id = parse_task_id(id)?;
        let rows = self.logs.iter().rev().filter(|l| l.task_id == id).cloned().collect();
        get_task_history(Ok(rows))
    }

    fn upcoming(&self, limit: i64) -> Reply<Vec<UpcomingInstanceResponse>> {
        let (filter, limit) = list_upcoming(UpcomingQuery { limit });
        let tasks: Vec<Task> =
            self.tasks.iter().filter(|t| admits(&filter, t)).cloned().collect();
        let mut reads = Vec::new();
        for task in &tasks {
            let mut rows = Vec::new();
            if let Some(query) = upcoming_instances_query(task, now(), limit) {
                for row in &self.instances {
                    if row.task_id == query.task_id
                        && !row.scheduled_at.is_before(query.from)
                        && (rows.len() as i64) < query.limit
                    {
                        rows.push(row.clone());
                    }
                }
            }
            reads.push(Ok(rows));
        }
        listed_upcoming(&tasks, &reads, limit)
    }
}

fn admits(filter: &TaskFilter, task: &Task) -> bool {
    let status = match filter.status {
        Some(status) => task.status == status,
        None => true,
    };
    let tag = match &filter.tag {
        Some(tag) => task.tags.contains(tag),
        None => true,
    };
    let due = match (filter.due_before, task.due_by) {
        (Some(limit), Some(due)) => !limit.is_before(due),
        (Some(_), None) => false,
        (None, _) => true,
    };
    status && tag && due
}

fn everything() -> ListTasksQuery {
    ListTasksQuery { status: None, tag: None, due_before: None }
}

#[test]
fn post_tasks_creates_task_and_returns_201() {
    let mut store = Store::default();
    let reply = store.post(titled("vacuum living room")).unwrap();
    assert_eq!(reply.status, StatusCode::Created);
    assert_eq!(reply.status.code(), 201);
    assert_eq!(reply.body.title, "vacuum living room");
    assert_eq!(reply.body.status, "open");
    assert_eq!(reply.body.id.len(), 36);
    assert_eq!(reply.body.created_at, "2026-05-25T10:00:00Z");
    assert_eq!(reply.body.updated_at, "2026-05-25T10:00:00Z");
    assert!(reply.body.tags.is_empty());
    assert_eq!(reply.body.owner_id, PLACEHOLDER);
}

#[test]
fn post_tasks_empty_title_returns_422() {
    let rejection = create_task(titled("   "), Ok(()), task_words(), now()).unwrap_err();
    assert_eq!(rejection.status, StatusCode::UnprocessableEntity);
    assert_eq!(rejection.status.code(), 422);
    assert_eq!(rejection.error, some("a title is needed"));
}

#[test]
fn post_tasks_incomplete_recurrence_pair_returns_422() {
    let mut req = titled("weekly standup");
    req.recurrence_rrule = some("FREQ=WEEKLY;BYDAY=TH");
    let rejection = create_task(req, Ok(()), task_words(), now()).unwrap_err();
    assert_eq!(rejection.status, StatusCode::UnprocessableEntity);

    let mut other_half = titled("weekly standup");
    other_half.recurrence_timezone = some("Europe/Amsterdam");
    let rejection = create_task(other_half, Ok(()), task_words(), now()).unwrap_err();
    assert_eq!(rejection.status, StatusCode::UnprocessableEntity);
}

#[test]
fn get_tasks_returns_empty_array_for_fresh_database() {
    let store = Store::default();
    let reply = store.list(everything()).unwrap();
    assert_eq!(reply.status, StatusCode::Success);
    assert_eq!(reply.body.len(), 0);
}

#[test]
fn get_tasks_returns_created_task() {
    let mut store = Store::default();
    store.post(titled("water the plants")).unwrap();
    let reply = store.list(everything()).unwrap();
    assert_eq!(reply.status, StatusCode::Success);
    assert_eq!(reply.body.len(), 1);
    assert_eq!(reply.body[0].title, "water the plants");
}

#[test]
fn get_task_by_id_returns_200_when_found() {
    let mut store = Store::default();
    let created = store.post(titled("read API docs")).unwrap();
    assert_eq!(created.status, StatusCode::Created);
    let reply = store.get(&created.body.id).unwrap();
    assert_eq!(reply.status, StatusCode::Success);
    assert_eq!(reply.body.id, created.body.id);
    assert_eq!(reply.body.title, "read API docs");
}

#[test]
fn get_task_by_id_returns_404_when_not_found() {
    let store = Store::default();
    let rejection = store.get(UNKNOWN).unwrap_err();
    assert_eq!(rejection.status, StatusCode::NotFound);
}

#[test]
fn patch_task_updates_title() {
    let mut store = Store::default();
    let id = store.post(titled("original title")).unwrap().body.id;
    let mut req = no_change();
    req.title = some("updated title");
    let (reply, replacement) = store.patch(&id, req).unwrap();
    assert_eq!(reply.status, StatusCode::Success);
    assert_eq!(reply.body.title, "updated title");
    assert!(replacement.is_none());
    assert_eq!(store.get(&id).unwrap().body.title, "updated title");
}

#[test]
fn complete_task_returns_200_with_log_entry() {
    let mut store = Store::default();
    let id = store.post(titled("clean kitchen")).unwrap().body.id;
    let log = complete_task(&id, on("2026-05-25", None), now()).unwrap();
    let reply = store.log(log).unwrap();
    assert_eq!(reply.status, StatusCode::Success);
    assert_eq!(reply.body.task_id, id);
    assert!(!reply.body.skipped);
    assert_eq!(reply.body.instance_date, "2026-05-25");
    assert_eq!(store.get(&id).unwrap().body.status, "done");
}

#[test]
fn skip_task_returns_200_with_skip_log_entry() {
    let mut store = Store::default();
    let id = store.post(titled("weekly report")).unwrap().body.id;
    let log = skip_task(&id, on("2026-05-25", some("public holiday")), now()).unwrap();
    let reply = store.log(log).unwrap();
    assert_eq!(reply.status, StatusCode::Success);
    assert!(reply.body.skipped);
    assert_eq!(reply.body.notes, some("public holiday"));
    assert_eq!(store.get(&id).unwrap().body.status, "skipped");
}

#[test]
fn change_assignee_updates_current_assignee_id() {
    let mut store = Store::default();
    let id = store.post(titled("cook dinner")).unwrap().body.id;
    let req = ChangeAssigneeRequest { member_id: some(PLACEHOLDER) };
    let asked = change_assignee(&id, req).unwrap();
    let task = reassign_task(Ok(store.find(asked.task_id)), asked.assignee, now()).unwrap();
    store.put(&task);
    let reply = updated_task(&task, Ok(())).unwrap();
    assert_eq!(reply.status, StatusCode::Success);
    assert_eq!(reply.body.current_assignee_id, some(PLACEHOLDER));
    assert_eq!(store.get(&id).unwrap().body.current_assignee_id, some(PLACEHOLDER));
}

#[test]
fn get_task_history_returns_completion_logs() {
    let mut store = Store::default();
    let id = store.post(titled("exercise")).unwrap().body.id;
    let done = complete_task(&id, on("2026-05-24", None), now()).unwrap();
    store.log(done).unwrap();
    let skipped = skip_task(&id, on("2026-05-25", None), now()).unwrap();
    store.log(skipped).unwrap();
    let reply = store.history(&id).unwrap();
    assert_eq!(reply.status, StatusCode::Success);
    assert_eq!(reply.body.len(), 2);
    assert!(reply.body[0].skipped);
    assert!(!reply.body[1].skipped);
}

#[test]
fn get_upcoming_returns_instances_for_recurring_task() {
    let mut store = Store::default();
    let mut req = titled("weekly meeting");
    req.recurrence_rrule = some("FREQ=WEEKLY;BYDAY=TH");
    req.recurrence_timezone = some("Europe/Amsterdam");
    let created = store.post(req).unwrap();
    assert_eq!(created.status, StatusCode::Created);
    let times = vec![at("2026-05-28T10:00:00Z"), at("2026-06-04T10:00:00Z")];
    let instances = materialise_instances(&store.tasks[0], Ok(times)).unwrap();
    store.instances.extend(instances);

    let reply = store.upcoming(default_upcoming_limit());
    assert_eq!(reply.status, StatusCode::Success);
    assert_eq!(reply.body.len(), 2);
    assert_eq!(reply.body[0].title, "weekly meeting");
    assert_eq!(reply.body[0].task_id, created.body.id);
    assert_eq!(reply.body[0].scheduled_at, "2026-05-28T10:00:00Z");
    assert_eq!(reply.body[0].status, "open");
    assert_eq!(reply.body[0].instance_id.len(), 36);
}

// ─── Creating ─────────────────────────────────────────────────────────────────

#[test]
fn a_full_request_is_shown_back() {
    let mut store = Store::default();
    let reply = store
        .post(CreateTaskRequest {
            title: "paint the fence".to_string(),
            notes: some("two coats"),
            due_by: some("2026-06-01T18:30:00+02:00"),
            earliest_at: some("2026-05-26T00:00:00Z"),
            effort: Some(4),
            priority: Some(2),
            tags: Some(vec![" Garden ".to_string(), "GARDEN".to_string(), "  ".to_string()]),
            recurrence_rrule: some("FREQ=YEARLY"),
            recurrence_timezone: some("Europe/Amsterdam"),
        })
        .unwrap();
    let body = reply.body;
    assert_eq!(body.notes, some("two coats"));
    assert_eq!(body.due_by, some("2026-06-01T18:30:00+02:00"));
    assert_eq!(body.earliest_at, some("2026-05-26T00:00:00Z"));
    assert_eq!(body.effort, Some(4));
    assert_eq!(body.priority, Some(2));
    assert_eq!(body.tags, vec!["garden".to_string(), "garden".to_string(), String::new()]);
    assert_eq!(body.recurrence_rrule, some("FREQ=YEARLY"));
    assert_eq!(body.recurrence_timezone, some("Europe/Amsterdam"));
    assert!(body.assignee_ids.is_empty());
    assert!(body.eligible_member_ids.is_empty());
    assert_eq!(body.current_assignee_id, None);
}

#[test]
fn malformed_times_and_levels_are_422() {
    let mut due = titled("x");
    due.due_by = some("tomorrow");
    assert_eq!(create_task(due, Ok(()), task_words(), now()).unwrap_err().status.code(), 422);

    let mut earliest = titled("x");
    earliest.earliest_at = some("2026-05-25");
    assert_eq!(create_task(earliest, Ok(()), task_words(), now()).unwrap_err().status.code(), 422);

    for level in [0u8, 6, 255] {
        let mut effort = titled("x");
        effort.effort = Some(level);
        let rejection = create_task(effort, Ok(()), task_words(), now()).unwrap_err();
        assert_eq!(rejection.status.code(), 422);
        assert_eq!(rejection.error, some("effort: no such effort"));
        let mut priority = titled("x");
        priority.priority = Some(level);
        let rejection = create_task(priority, Ok(()), task_words(), now()).unwrap_err();
        assert_eq!(rejection.status.code(), 422);
        assert_eq!(rejection.error, some("priority: no such rank"));
    }
    for level in 1u8..6 {
        let mut req = titled("x");
        req.effort = Some(level);
        req.priority = Some(level);
        let task = create_task(req, Ok(()), task_words(), now()).unwrap();
        assert_eq!(task.effort.unwrap().value(), level);
        assert_eq!(task.priority.unwrap().value(), level);
    }
}

#[test]
fn a_rule_that_does_not_hold_is_422() {
    let mut req = titled("x");
    req.recurrence_rrule = some("FREQ=NEVER");
    req.recurrence_timezone = some("Europe/Amsterdam");
    let verdict = Err("unknown frequency".to_string());
    let rejection = create_task(req, verdict, task_words(), now()).unwrap_err();
    assert_eq!(rejection.status, StatusCode::UnprocessableEntity);
    assert!(rejection.error.unwrap().contains("unknown frequency"));
}

#[test]
fn the_verdict_on_a_rule_does_not_matter_without_a_rule() {
    let task = create_task(titled("x"), Err("no rule".to_string()), task_words(), now()).unwrap();
    assert!(task.recurrence.is_none());
}

#[test]
fn a_task_that_cannot_be_kept_is_500_without_a_reason() {
    let task = create_task(titled("x"), Ok(()), task_words(), now()).unwrap();
    let rejection = created_task(&task, Err(failure())).unwrap_err();
    assert_eq!(rejection.status, StatusCode::InternalServerError);
    assert_eq!(rejection.status.code(), 500);
    assert!(rejection.error.is_none());
}

// ─── Reading ──────────────────────────────────────────────────────────────────

#[test]
fn a_malformed_task_id_is_400() {
    let rejection = parse_task_id("not-a-uuid").unwrap_err();
    assert_eq!(rejection.status, StatusCode::BadRequest);
    assert_eq!(parse_task_id(PLACEHOLDER).unwrap().0, placeholder_member().0);
}

#[test]
fn a_read_that_fails_is_500() {
    assert_eq!(get_task(Err(failure())).unwrap_err().status.code(), 500);
    assert_eq!(listed_tasks(Err(failure())).unwrap_err().status.code(), 500);
    assert_eq!(get_task_history(Err(failure())).unwrap_err().status.code(), 500);
    assert_eq!(get_task(Ok(None)).unwrap_err().status.code(), 404);
}

#[test]
fn listings_are_filtered() {
    let mut store = Store::default();
    let mut tagged = titled("tagged");
    tagged.tags = Some(vec!["Home".to_string()]);
    store.post(tagged).unwrap();
    let mut due = titled("due");
    due.due_by = some("2026-05-26T00:00:00Z");
    let due_id = store.post(due).unwrap().body.id;
    let log = complete_task(&due_id, on("2026-05-26", None), now()).unwrap();
    store.log(log).unwrap();

    for tag in ["home", "HOME", " Home "] {
        let by_tag = ListTasksQuery { tag: some(tag), ..everything() };
        let reply = store.list(by_tag).unwrap();
        assert_eq!(reply.body.len(), 1);
        assert_eq!(reply.body[0].title, "tagged");
    }
    let other_tag = ListTasksQuery { tag: some("hom"), ..everything() };
    assert!(store.list(other_tag).unwrap().body.is_empty());

    let by_status = ListTasksQuery { status: some("done"), ..everything() };
    let reply = store.list(by_status).unwrap();
    assert_eq!(reply.body.len(), 1);
    assert_eq!(reply.body[0].title, "due");

    let by_time = ListTasksQuery { due_before: some("2026-05-25T23:00:00-01:00"), ..everything() };
    assert_eq!(store.list(by_time).unwrap().body.len(), 1);
    let too_early = ListTasksQuery { due_before: some("2026-05-25T23:59:59Z"), ..everything() };
    assert_eq!(store.list(too_early).unwrap().body.len(), 0);
}

#[test]
fn a_malformed_filter_is_refused() {
    let status = ListTasksQuery { status: some("finished"), ..everything() };
    let rejection = list_tasks_handler(status).unwrap_err();
    assert_eq!(rejection.status, StatusCode::BadRequest);
    assert_eq!(rejection.error, some("unknown status: finished"));
    let time = ListTasksQuery { due_before: some("soon"), ..everything() };
    let rejection = list_tasks_handler(time).unwrap_err();
    assert_eq!(rejection.status, StatusCode::BadRequest);
    assert_eq!(rejection.error, some("due_before: invalid RFC 3339 datetime"));
}

#[test]
fn statuses_go_to_text_and_back() {
    for status in [TaskStatus::Open, TaskStatus::Doing, TaskStatus::Done, TaskStatus::Skipped] {
        assert_eq!(TaskStatus::parse(status.as_str()), Some(status));
    }
    assert_eq!(TaskStatus::parse("Open"), None);
    assert_eq!(TaskStatus::parse(""), None);
}

#[test]
fn levels_go_from_one_to_five() {
    assert!(EffortLevel::new(0).is_none());
    assert_eq!(EffortLevel::new(1).unwrap().value(), 1);
    assert_eq!(Priority::new(5).unwrap().value(), 5);
    assert!(Priority::new(6).is_none());
}

// ─── Changing ─────────────────────────────────────────────────────────────────

fn old_task() -> Task {
    let mut req = titled("old");
    req.notes = some("keep");
    req.due_by = some("2026-06-01T18:30:00+02:00");
    req.earliest_at = some("2026-05-26T00:00:00Z");
    req.effort = Some(1);
    req.priority = Some(2);
    req.tags = Some(vec!["a".to_string()]);
    req.recurrence_rrule = some("FREQ=DAILY");
    req.recurrence_timezone = some("Europe/Amsterdam");
    create_task(req, Ok(()), task_words(), at("2026-05-01T00:00:00Z")).unwrap()
}

#[test]
fn an_empty_patch_keeps_everything_but_the_time_of_change() {
    let old = old_task();
    let patch = patch_task(old.clone(), no_change(), Ok(()), level_words(), now()).unwrap();
    assert!(!patch.recurrence_changed);
    assert_eq!(patch.task.id, old.id);
    assert_eq!(patch.task.title, old.title);
    assert_eq!(patch.task.notes, old.notes);
    assert_eq!(patch.task.status, old.status);
    assert_eq!(patch.task.due_by, old.due_by);
    assert_eq!(patch.task.earliest_at, old.earliest_at);
    assert_eq!(patch.task.effort, old.effort);
    assert_eq!(patch.task.priority, old.priority);
    assert_eq!(patch.task.tags, old.tags);
    assert!(patch.task.recurrence.unwrap().is_same(&old.recurrence.unwrap()));
    assert_eq!(patch.task.created_at, old.created_at);
    assert_eq!(patch.task.updated_at, now());
}

#[test]
fn a_patch_changes_what_it_names() {
    let mut req = no_change();
    req.notes = given("new");
    req.status = some("doing");
    req.due_by = given("2027-01-01T00:00:00Z");
    req.earliest_at = given("");
    req.effort = Some(5);
    req.priority = Some(4);
    req.tags = Field::Given(vec!["B".to_string()]);
    let patch = patch_task(old_task(), req, Ok(()), level_words(), now()).unwrap();
    assert_eq!(patch.task.title, "old");
    assert_eq!(patch.task.notes, some("new"));
    assert_eq!(patch.task.status, TaskStatus::Doing);
    assert_eq!(patch.task.due_by, Some(at("2027-01-01T00:00:00Z")));
    assert_eq!(patch.task.earliest_at, None);
    assert_eq!(patch.task.effort.unwrap().value(), 5);
    assert_eq!(patch.task.priority.unwrap().value(), 4);
    assert_eq!(patch.task.tags, vec!["b".to_string()]);
}

#[test]
fn empty_texts_take_notes_and_times_away() {
    let mut req = no_change();
    req.notes = given("");
    req.due_by = given("");
    req.earliest_at = given("");
    let patch = patch_task(old_task(), req, Ok(()), level_words(), now()).unwrap();
    assert_eq!(patch.task.notes, None);
    assert_eq!(patch.task.due_by, None);
    assert_eq!(patch.task.earliest_at, None);
}

#[test]
fn a_malformed_patch_is_422() {
    let mut blank = no_change();
    blank.title = some(" \t ");
    let mut status = no_change();
    status.status = some("later");
    let mut due = no_change();
    due.due_by = given("later");
    let mut earliest = no_change();
    earliest.earliest_at = given("later");
    let mut effort = no_change();
    effort.effort = Some(9);
    let mut priority = no_change();
    priority.priority = Some(0);
    let mut half = no_change();
    half.recurrence_rrule = some("FREQ=DAILY");
    let errors = [
        "title must not be empty",
        "unknown status: later",
        "due_by: invalid RFC 3339 datetime",
        "earliest_at: invalid RFC 3339 datetime",
        "effort: no such effort",
        "priority: no such rank",
        "recurrence_rrule and recurrence_timezone must both be provided or both absent",
    ];
    let requests = vec![blank, status, due, earliest, effort, priority, half];
    for (req, error) in requests.into_iter().zip(errors) {
        let rejection = patch_task(old_task(), req, Ok(()), level_words(), now()).unwrap_err();
        assert_eq!(rejection.status, StatusCode::UnprocessableEntity);
        assert_eq!(rejection.error, some(error));
    }
}

#[test]
fn null_takes_notes_times_and_tags_away() {
    let mut req = no_change();
    req.notes = Field::Null;
    req.due_by = Field::Null;
    req.earliest_at = Field::Null;
    req.tags = Field::Null;
    let patch = patch_task(old_task(), req, Ok(()), level_words(), now()).unwrap();
    assert_eq!(patch.task.notes, None);
    assert_eq!(patch.task.due_by, None);
    assert_eq!(patch.task.earliest_at, None);
    assert!(patch.task.tags.is_empty());
    assert_eq!(patch.task.title, "old");
    assert_eq!(patch.task.effort.unwrap().value(), 1);
    assert_eq!(patch.task.priority.unwrap().value(), 2);
}

#[test]
fn an_empty_list_takes_the_tags_away_and_blank_tags_are_left_out() {
    let mut req = no_change();
    req.tags = Field::Given(Vec::new());
    let patch = patch_task(old_task(), req, Ok(()), level_words(), now()).unwrap();
    assert!(patch.task.tags.is_empty());
    let mut req = no_change();
    req.tags = Field::Given(vec![" ".to_string(), " Home ".to_string()]);
    let patch = patch_task(old_task(), req, Ok(()), level_words(), now()).unwrap();
    assert_eq!(patch.task.tags, vec!["home".to_string()]);
}

#[test]
fn any_status_replaces_any_other_and_the_history_stays() {
    let mut store = Store::default();
    let id = store.post(titled("x")).unwrap().body.id;
    store.log(complete_task(&id, on("2026-05-24", None), now()).unwrap()).unwrap();
    let all = ["open", "doing", "done", "skipped"];
    for from in all {
        for to in all {
            for status in [from, to] {
                let mut req = no_change();
                req.status = some(status);
                let (reply, _) = store.patch(&id, req).unwrap();
                assert_eq!(reply.status, StatusCode::Success);
                assert_eq!(reply.body.status, status);
            }
            assert_eq!(store.get(&id).unwrap().body.status, to);
            assert_eq!(store.history(&id).unwrap().body.len(), 1);
        }
    }
}

#[test]
fn a_new_rule_replaces_the_instances_from_now_on() {
    let old = old_task();
    let mut req = no_change();
    req.recurrence_rrule = some("FREQ=WEEKLY");
    req.recurrence_timezone = some("Europe/Amsterdam");
    let patch = patch_task(old.clone(), req, Ok(()), level_words(), now()).unwrap();
    assert!(patch.recurrence_changed);
    let (reply, replacement) = patched_task(&patch, Ok(())).unwrap();
    assert_eq!(reply.body.recurrence_rrule, some("FREQ=WEEKLY"));
    let replacement = replacement.unwrap();
    assert_eq!(replacement.task_id, old.id);
    assert_eq!(replacement.cutoff, now());
}

#[test]
fn the_same_rule_is_no_change() {
    let mut req = no_change();
    req.recurrence_rrule = some("FREQ=DAILY");
    req.recurrence_timezone = some("Europe/Amsterdam");
    let patch = patch_task(old_task(), req, Ok(()), level_words(), now()).unwrap();
    assert!(!patch.recurrence_changed);
    assert!(patched_task(&patch, Ok(())).unwrap().1.is_none());
}

#[test]
fn patching_twice_is_patching_once() {
    let req = || {
        let mut req = no_change();
        req.title = some("new");
        req.tags = Field::Given(vec!["Z ".to_string(), "y".to_string()]);
        req.notes = given("");
        req.due_by = given("2027-01-01T00:00:00Z");
        req
    };
    let once = patch_task(old_task(), req(), Ok(()), level_words(), now()).unwrap().task;
    let twice = patch_task(once.clone(), req(), Ok(()), level_words(), now()).unwrap().task;
    assert_eq!(twice.title, once.title);
    assert_eq!(twice.tags, once.tags);
    assert_eq!(twice.notes, once.notes);
    assert_eq!(twice.due_by, once.due_by);
    assert_eq!(twice.updated_at, once.updated_at);
}

#[test]
fn a_patch_that_cannot_be_kept_is_500_and_replaces_nothing() {
    let patch = patch_task(old_task(), no_change(), Ok(()), level_words(), now()).unwrap();
    let rejection = patched_task(&patch, Err(failure())).unwrap_err();
    assert_eq!(rejection.status, StatusCode::InternalServerError);
}

// ─── Completing and skipping ──────────────────────────────────────────────────

#[test]
fn logging_needs_an_id_and_a_date() {
    let bad_id = complete_task("nope", on("2026-05-25", None), now()).unwrap_err();
    assert_eq!(bad_id.status, StatusCode::BadRequest);
    let bad_date = skip_task(PLACEHOLDER, on("25-05-2026", None), now()).unwrap_err();
    assert_eq!(bad_date.status, StatusCode::UnprocessableEntity);
    assert!(bad_date.error.is_some());
}

#[test]
fn a_missing_task_is_neither_completed_nor_skipped() {
    let mut store = Store::default();
    let done = complete_task(UNKNOWN, on("2026-05-25", None), now()).unwrap();
    let rejection = store.log(done).unwrap_err();
    assert_eq!(rejection.status, StatusCode::NotFound);
    assert_eq!(rejection.error, some("task not found"));
    let skipped = skip_task(UNKNOWN, on("2026-05-25", None), now()).unwrap();
    assert_eq!(store.log(skipped).unwrap_err().status.code(), 404);
    assert!(store.logs.is_empty());
    assert_eq!(completion_target(Err(failure())).unwrap_err().status.code(), 500);
}

#[test]
fn the_history_grows_at_its_head() {
    let mut store = Store::default();
    let id = store.post(titled("x")).unwrap().body.id;
    assert!(store.history(&id).unwrap().body.is_empty());
    let mut before: Vec<String> = Vec::new();
    for day in ["2026-05-23", "2026-05-24", "2026-05-25"] {
        let log = store.log(complete_task(&id, on(day, None), now()).unwrap()).unwrap();
        let after: Vec<String> =
            store.history(&id).unwrap().body.into_iter().map(|entry| entry.id).collect();
        assert_eq!(after[0], log.body.id);
        assert_eq!(after[1..].to_vec(), before);
        before = after;
    }
}

#[test]
fn completing_is_a_change_of_the_task() {
    let mut store = Store::default();
    let id = store.post(titled("x")).unwrap().body.id;
    let later = at("2026-05-26T08:00:00Z");
    store.log(complete_task(&id, on("2026-05-26", None), later).unwrap()).unwrap();
    let task = store.get(&id).unwrap().body;
    assert_eq!(task.status, "done");
    assert_eq!(task.created_at, "2026-05-25T10:00:00Z");
    assert_eq!(task.updated_at, "2026-05-26T08:00:00Z");
}

#[test]
fn a_skip_is_a_completion_with_the_flag_set() {
    let done = complete_task(PLACEHOLDER, on("2026-05-25", some("n")), now()).unwrap();
    let skipped = skip_task(PLACEHOLDER, on("2026-05-25", some("n")), now()).unwrap();
    assert!(!done.skipped);
    assert!(skipped.skipped);
    assert_eq!(done.resolved_status(), TaskStatus::Done);
    assert_eq!(skipped.resolved_status(), TaskStatus::Skipped);
    assert_eq!(done.task_id, skipped.task_id);
    assert_eq!(done.instance_date, skipped.instance_date);
    assert_eq!(done.completed_by, skipped.completed_by);
    assert_eq!(done.completed_at, skipped.completed_at);
    assert_eq!(done.notes, skipped.notes);
    assert_eq!(done.completed_by, placeholder_member());
    assert!(done.id != skipped.id);
}

#[test]
fn a_log_that_cannot_be_kept_is_500() {
    let log = complete_task(PLACEHOLDER, on("2026-05-25", None), now()).unwrap();
    assert_eq!(logged_completion(&log, Err(failure())).unwrap_err().status.code(), 500);
}

#[test]
fn log_dates_are_padded() {
    let log = complete_task(PLACEHOLDER, on("0007-01-02", None), now()).unwrap();
    assert_eq!(logged_completion(&log, Ok(())).unwrap().body.instance_date, "0007-01-02");
}

// ─── Assigning ────────────────────────────────────────────────────────────────

#[test]
fn an_absent_member_takes_the_assignee_away() {
    let asked = change_assignee(PLACEHOLDER, ChangeAssigneeRequest { member_id: None }).unwrap();
    assert_eq!(asked.assignee, None);
    let mut old = old_task();
    old.current_assignee_id = Some(MemberId(7));
    let task = reassign_task(Ok(Some(old)), asked.assignee, now()).unwrap();
    assert_eq!(task.current_assignee_id, None);
    assert_eq!(task.updated_at, now());
}

#[test]
fn assigning_refuses_malformed_ids_and_missing_tasks() {
    let none = || ChangeAssigneeRequest { member_id: None };
    assert_eq!(change_assignee("x", none()).unwrap_err().status.code(), 400);
    let bad = ChangeAssigneeRequest { member_id: some("alice") };
    assert_eq!(change_assignee(PLACEHOLDER, bad).unwrap_err().status.code(), 422);
    assert_eq!(reassign_task(Ok(None), None, now()).unwrap_err().status.code(), 404);
    assert_eq!(reassign_task(Err(failure()), None, now()).unwrap_err().status.code(), 500);
    assert_eq!(updated_task(&old_task(), Err(failure())).unwrap_err().status.code(), 500);
}

// ─── Upcoming ─────────────────────────────────────────────────────────────────

fn recurring(title: &str) -> Task {
    let mut req = titled(title);
    req.recurrence_rrule = some("FREQ=DAILY");
    req.recurrence_timezone = some("UTC");
    create_task(req, Ok(()), task_words(), now()).unwrap()
}

#[test]
fn twenty_upcoming_by_default() {
    assert_eq!(default_upcoming_limit(), 20);
    assert_eq!(UPCOMING_CAP, 100);
    assert_eq!(list_upcoming(UpcomingQuery { limit: 20 }).1, 20);
    assert_eq!(list_upcoming(UpcomingQuery { limit: 100 }).1, 100);
    assert_eq!(list_upcoming(UpcomingQuery { limit: 101 }).1, 100);
    assert_eq!(list_upcoming(UpcomingQuery { limit: 20 }).0.status, Some(TaskStatus::Open));
}

#[test]
fn no_limit_lists_more_than_the_cap() {
    let task = recurring("daily");
    let times = vec![at("2026-05-26T12:00:00Z"); 130];
    let rows = materialise_instances(&task, Ok(times)).unwrap();
    let listed = |limit: i64| {
        let (_, limit) = list_upcoming(UpcomingQuery { limit });
        listed_upcoming(&vec![task.clone()], &vec![Ok(rows.clone())], limit)
    };
    for (limit, count) in [(-1, 0), (i64::MIN, 0), (0, 0), (1, 1), (99, 99), (100, 100), (101, 100)]
    {
        assert_eq!(listed(limit).status, StatusCode::Success);
        assert_eq!(listed(limit).body.len(), count);
    }
    assert_eq!(list_upcoming(UpcomingQuery { limit: -1 }).1, 0);
    assert_eq!(listed(i64::MAX).body.len(), 100);
    let reply = listed_upcoming(&vec![task.clone()], &vec![Ok(rows.clone())], -1);
    assert!(reply.body.is_empty());
    let reply = listed_upcoming(&vec![task.clone()], &vec![Ok(rows.clone())], 1000);
    assert_eq!(reply.body.len(), 100);
}

#[test]
fn only_recurring_tasks_are_read_for_upcoming_instances() {
    let task = recurring("daily");
    let query = upcoming_instances_query(&task, now(), 7).unwrap();
    assert_eq!(query.task_id, task.id);
    assert_eq!(query.from, now());
    assert_eq!(query.limit, 7);
    let one_shot = create_task(titled("once"), Ok(()), task_words(), now()).unwrap();
    assert!(upcoming_instances_query(&one_shot, now(), 7).is_none());
}

#[test]
fn upcoming_is_nearest_first_over_all_tasks() {
    let a = recurring("a");
    let b = recurring("b");
    let of_a = materialise_instances(
        &a,
        Ok(vec![at("2026-05-26T12:00:00Z"), at("2026-05-28T12:00:00Z")]),
    )
    .unwrap();
    let of_b = materialise_instances(
        &b,
        Ok(vec![at("2026-05-26T13:00:00+02:00"), at("2026-05-28T14:00:00+02:00")]),
    )
    .unwrap();
    let reply = listed_upcoming(&vec![a, b], &vec![Ok(of_a), Ok(of_b)], 3);
    let titles: Vec<&str> = reply.body.iter().map(|i| i.title.as_str()).collect();
    // The third and the fourth fall on the same instant: the order of the tasks
    // decides, and the limit leaves the fourth out.
    assert_eq!(titles, vec!["b", "a", "a"]);
    assert_eq!(reply.body[0].scheduled_at, "2026-05-26T13:00:00+02:00");
}

#[test]
fn a_failed_read_leaves_out_its_task_only() {
    let a = recurring("a");
    let b = recurring("b");
    let of_b = materialise_instances(&b, Ok(vec![at("2026-05-26T13:00:00Z")])).unwrap();
    let reply = listed_upcoming(&vec![a, b], &vec![Err(failure()), Ok(of_b)], 20);
    assert_eq!(reply.status, StatusCode::Success);
    assert_eq!(reply.body.len(), 1);
    assert_eq!(reply.body[0].title, "b");
}

#[test]
fn an_instance_shows_its_own_assignee() {
    let mut task = recurring("a");
    task.current_assignee_id = Some(MemberId(2));
    let mut rows = materialise_instances(
        &task,
        Ok(vec![at("2026-05-26T12:00:00Z"), at("2026-05-27T12:00:00Z")]),
    )
    .unwrap();
    assert_eq!(rows[0].current_assignee_id, Some(MemberId(2)));
    rows[1].current_assignee_id = Some(MemberId(3));
    let reply = listed_upcoming(&vec![task], &vec![Ok(rows)], 20);
    assert_eq!(reply.body[0].current_assignee_id, some("00000000-0000-0000-0000-000000000002"));
    assert_eq!(reply.body[1].current_assignee_id, some("00000000-0000-0000-0000-000000000003"));
}

#[test]
fn a_new_task_is_laid_out_only_if_it_recurs() {
    let window = layout_window(&recurring("daily")).unwrap();
    assert_eq!(window.from, now());
    assert_eq!(window.until, at("2026-07-24T10:00:00Z"));
    let once = create_task(titled("once"), Ok(()), task_words(), now()).unwrap();
    assert!(layout_window(&once).is_none());
}

#[test]
fn instances_go_by_the_identifiers_they_are_given() {
    let task = recurring("a");
    let times = vec![now(), at("2026-05-26T12:00:00Z")];
    let rows = instances_with(&task, &times, &vec![7, 8]);
    assert_eq!(rows.len(), 2);
    assert_eq!(rows[0].id, "00000000-0000-0000-0000-000000000007");
    assert_eq!(rows[1].id, "00000000-0000-0000-0000-000000000008");
    assert_eq!(rows[1].task_id, task.id);
    assert_eq!(rows[1].scheduled_at, times[1]);
    assert_eq!(rows[1].current_assignee_id, None);
    let drawn = materialise_instances(&task, Ok(times)).unwrap();
    assert!(drawn[0].id != drawn[1].id);
}

#[test]
fn instances_are_made_only_from_an_expansion() {
    let task = recurring("a");
    let complaint = materialise_instances(&task, Err("bad rule".to_string())).unwrap_err();
    assert!(complaint.contains("bad rule"));
    let rows = materialise_instances(&task, Ok(vec![now()])).unwrap();
    assert_eq!(rows.len(), 1);
    assert_eq!(rows[0].task_id, task.id);
    assert_eq!(rows[0].scheduled_at, now());
}

#[test]
fn rules_are_the_same_when_both_parts_are() {
    let rule = RecurrenceRule { rrule: "FREQ=DAILY".to_string(), timezone: "UTC".to_string() };
    assert!(rule.is_same(&rule.clone()));
    let other = RecurrenceRule { rrule: "FREQ=DAILY".to_string(), timezone: "CET".to_string() };
    assert!(!rule.is_same(&other));
    assert!(parse_date("instance_date", "2026-02-30").is_err());
}
