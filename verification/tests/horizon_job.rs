// The recurrence horizon job, driven phase by phase.

use amity_service::api::fields::{read_time, TimeField};
use amity_service::api::task::{create_task, CreateTaskRequest, LevelComplaints, TaskComplaints};
use amity_service::dates::Timestamp;
use amity_service::horizon::{horizon_window, HORIZON_DAYS};
use amity_service::jobs::recurrence_horizon::{
    horizon_report, instances_kept, materialise_task_to_horizon, run_once, tasks_to_read,
    HorizonReport, RETENTION_DAYS,
};
use amity_service::model::task::{Task, TaskInstance};
use amity_service::reply::StorageFailure;


fn at(text: &str) -> Timestamp {
    match read_time(&Some(text.to_string())) {
        TimeField::At(t) => t,
        _ => panic!("{text} is no time"),
    }
}

fn now() -> Timestamp {
    at("2026-07-24T12:00:00Z")
}

fn task_words() -> TaskComplaints {
    TaskComplaints { title: "a title is needed".to_string(), levels: level_words() }
}

fn level_words() -> LevelComplaints {
    LevelComplaints { effort: "no such effort".to_string(), priority: "no such rank".to_string() }
}

fn failure() -> StorageFailure {
    StorageFailure { message: "disk full".to_string() }
}

fn task(title: &str, due_by: Option<&str>, rule: Option<&str>) -> Task {
    let req = CreateTaskRequest {
        title: title.to_string(),
        notes: None,
        due_by: due_by.map(|t| t.to_string()),
        earliest_at: None,
        effort: None,
        priority: None,
        tags: None,
        recurrence_rrule: rule.map(|r| r.to_string()),
        recurrence_timezone: rule.map(|_| "Europe/Amsterdam".to_string()),
    };
    create_task(req, Ok(()), task_words(), now()).unwrap()
}

// Every day from one time until another.
fn daily(from: Timestamp, until: Timestamp) -> Vec<Timestamp> {
    let mut times = Vec::new();
    let mut time = from;
    while time.is_before(until) {
        times.push(time);
        time = time.plus_days(1);
    }
    times
}

// One pass of the job over the tasks and their instances.
fn pass(tasks: Vec<Task>, instances: &mut Vec<TaskInstance>) -> HorizonReport {
    let pass = run_once(Ok(tasks), now()).unwrap();
    let mut outcomes = Vec::new();
    for task in &pass.tasks {
        let times = Ok(daily(pass.window.from, pass.window.until));
        match materialise_task_to_horizon(task, times).unwrap() {
            Some(rows) => {
                instances.extend(rows.clone());
                outcomes.push(instances_kept(&rows, Ok(())));
            }
            None => outcomes.push(Ok(0)),
        }
    }
    let before = instances.len();
    instances.retain(|i| !i.scheduled_at.is_before(pass.prune_before));
    let removed = (before - instances.len()) as u64;
    horizon_report(&outcomes, Ok(removed)).unwrap()
}

#[test]
fn horizon_job_materialises_instances_for_a_recurring_task() {
    let mut instances = Vec::new();
    let standup = task("daily standup", None, Some("FREQ=DAILY"));
    let id = standup.id;
    let report = pass(vec![standup], &mut instances);
    assert_eq!(report.tasks_seen, 1);
    assert!(report.instances_materialised > 0);
    assert_eq!(report.instances_materialised, 60);
    let upcoming =
        instances.iter().filter(|i| i.task_id == id && !i.scheduled_at.is_before(now())).count();
    assert_eq!(upcoming, 60);
}

#[test]
fn horizon_job_prunes_aged_out_instances() {
    let anchor = task("anchor task", None, None);
    let mut instances = vec![TaskInstance {
        id: "018f0000-0000-7000-8000-000000000abc".to_string(),
        task_id: anchor.id,
        scheduled_at: now().minus_days(40),
        current_assignee_id: None,
    }];
    let report = pass(vec![anchor], &mut instances);
    assert!(report.instances_pruned >= 1);
    assert!(instances.is_empty());
}

#[test]
fn horizon_job_ignores_one_shot_tasks() {
    let mut instances = Vec::new();
    let dentist = task("call the dentist", Some("2026-07-29T12:00:00Z"), None);
    let report = pass(vec![dentist], &mut instances);
    assert_eq!(report.tasks_seen, 1);
    assert_eq!(report.instances_materialised, 0);
}

#[test]
fn the_horizon_is_sixty_days_and_thirty_are_kept() {
    let pass = run_once(Ok(Vec::new()), now()).unwrap();
    assert_eq!(pass.window.from, now());
    assert_eq!(pass.window.until, at("2026-09-22T12:00:00Z"));
    assert_eq!(pass.prune_before, at("2026-06-24T12:00:00Z"));
    let window = horizon_window(now());
    assert_eq!(window.from, pass.window.from);
    assert_eq!(window.until, pass.window.until);
    assert_eq!(HORIZON_DAYS, 60);
    assert_eq!(RETENTION_DAYS, 30);
}

#[test]
fn one_bad_task_does_not_stop_the_pass() {
    let bad = task("bad", None, Some("FREQ=DAILY"));
    let complaint = materialise_task_to_horizon(&bad, Err("bad rule".to_string())).unwrap_err();
    assert!(complaint.contains("bad rule"));
    let report = horizon_report(&vec![Err(complaint), Ok(4)], Ok(2)).unwrap();
    assert_eq!(report.tasks_seen, 2);
    assert_eq!(report.instances_materialised, 4);
    assert_eq!(report.instances_pruned, 2);
}

#[test]
fn storage_trouble_is_said_of_a_horizon_pass() {
    assert!(run_once(Err(failure()), now()).unwrap_err().ends_with("disk full"));
    assert!(instances_kept(&Vec::new(), Err(failure())).unwrap_err().ends_with("disk full"));
    assert!(horizon_report(&Vec::new(), Err(failure())).unwrap_err().ends_with("disk full"));
}

#[test]
fn a_pass_looks_at_all_tasks() {
    let filter = tasks_to_read();
    assert!(filter.status.is_none() && filter.tag.is_none() && filter.due_before.is_none());
}
