// The inbox endpoints, driven phase by phase against a store held in memory.

use amity_service::api::fields::{read_time, TimeField};
use amity_service::api::inbox::{
    capture_inbox_item, captured_item, default_limit, default_source, list_recent, listed_recent,
    CaptureInboxItemRequest, InboxItemResponse, ListRecentQuery, RECENT_CAP,
};
use amity_service::dates::Timestamp;
use amity_service::model::inbox::InboxItem;
use amity_service::reply::{Rejection, Reply, StatusCode, StorageFailure};

fn now() -> Timestamp {
    match read_time(&Some("2026-05-25T10:00:00Z".to_string())) {
        TimeField::At(t) => t,
        _ => panic!("a time"),
    }
}

fn failure() -> StorageFailure {
    StorageFailure { message: "disk full".to_string() }
}

fn note(raw_text: &str, source: Option<&str>) -> CaptureInboxItemRequest {
    CaptureInboxItemRequest {
        raw_text: raw_text.to_string(),
        source: match source {
            Some(source) => source.to_string(),
            None => default_source(),
        },
    }
}

fn post(
    store: &mut Vec<InboxItem>,
    req: CaptureInboxItemRequest,
) -> Result<Reply<InboxItemResponse>, Rejection> {
    let item = capture_inbox_item(req, now())?;
    store.push(item.clone());
    captured_item(&item, Ok(()))
}

fn recent(
    store: &Vec<InboxItem>,
    limit: Option<u32>,
) -> Result<Reply<Vec<InboxItemResponse>>, Rejection> {
    let limit = match limit {
        Some(limit) => limit,
        None => default_limit(),
    };
    let limit = list_recent(ListRecentQuery { limit })?;
    let rows = store.iter().rev().take(limit as usize).cloned().collect();
    listed_recent(Ok(rows))
}

#[test]
fn post_inbox_creates_item_and_returns_201() {
    let mut store = Vec::new();
    let reply = post(&mut store, note("pick up pencils", Some("touch"))).unwrap();
    assert_eq!(reply.status, StatusCode::Created);
    assert_eq!(reply.body.raw_text, "pick up pencils");
    assert_eq!(reply.body.source, "touch");
    assert_eq!(reply.body.triage_state, "untriaged");
    assert_eq!(reply.body.id.len(), 36);
    assert_eq!(reply.body.captured_at, "2026-05-25T10:00:00Z");
    assert_eq!(reply.body.captured_by, "00000000-0000-7000-8000-000000000001");
    assert_eq!(reply.body.triaged_to, None);
}

#[test]
fn post_inbox_empty_text_returns_422() {
    let rejection = capture_inbox_item(note("   ", None), now()).unwrap_err();
    assert_eq!(rejection.status, StatusCode::UnprocessableEntity);
}

#[test]
fn post_inbox_source_defaults_to_touch() {
    let mut store = Vec::new();
    let reply = post(&mut store, note("a note without explicit source", None)).unwrap();
    assert_eq!(reply.status, StatusCode::Created);
    assert_eq!(reply.body.source, "touch");
}

#[test]
fn get_recent_returns_empty_array_for_fresh_database() {
    let reply = recent(&Vec::new(), None).unwrap();
    assert_eq!(reply.status, StatusCode::Success);
    assert_eq!(reply.body.len(), 0);
}

#[test]
fn post_then_get_shows_created_item() {
    let mut store = Vec::new();
    post(&mut store, note("test note for round-trip", Some("touch"))).unwrap();
    let reply = recent(&store, Some(20)).unwrap();
    assert_eq!(reply.status, StatusCode::Success);
    assert_eq!(reply.body.len(), 1);
    assert_eq!(reply.body[0].raw_text, "test note for round-trip");
}

#[test]
fn get_recent_limit_over_100_returns_400() {
    let rejection = recent(&Vec::new(), Some(101)).unwrap_err();
    assert_eq!(rejection.status, StatusCode::BadRequest);
    assert_eq!(RECENT_CAP, 100);
    assert_eq!(list_recent(ListRecentQuery { limit: 100 }).unwrap(), 100);
}

#[test]
fn get_recent_default_limit_is_20() {
    let mut store = Vec::new();
    for i in 0..5u32 {
        post(&mut store, note(&format!("item {i}"), None)).unwrap();
    }
    let reply = recent(&store, None).unwrap();
    assert_eq!(reply.status, StatusCode::Success);
    assert_eq!(reply.body.len(), 5);
    assert_eq!(default_limit(), 20);
}

#[test]
fn storage_trouble_is_500_for_the_inbox() {
    let item = capture_inbox_item(note("x", None), now()).unwrap();
    let rejection = captured_item(&item, Err(failure())).unwrap_err();
    assert_eq!(rejection.status, StatusCode::InternalServerError);
    assert!(rejection.error.is_none());
    assert_eq!(listed_recent(Err(failure())).unwrap_err().status.code(), 500);
}
