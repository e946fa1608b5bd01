// The member endpoints, driven phase by phase against a store held in memory.

use amity_service::api::fields::{read_time, TimeField};
use amity_service::api::member::{
    create_member, created_member, delete_member_handler, get_member, list_members_handler,
    parse_member_id, CreateMemberRequest, MemberResponse, MembersResponse,
};
use amity_service::dates::Timestamp;
use amity_service::ids::placeholder_member;
use amity_service::model::member::Member;
use amity_service::reply::{DeletedResponse, Rejection, Reply, StatusCode, StorageFailure};

const PLACEHOLDER: &str = "00000000-0000-7000-8000-000000000001";

fn now() -> Timestamp {
    match read_time(&Some("2026-05-25T10:00:00Z".to_string())) {
        TimeField::At(t) => t,
        _ => panic!("a time"),
    }
}

fn failure() -> StorageFailure {
    StorageFailure { message: "disk full".to_string() }
}

// A store as it is set up: the placeholder is in it.
fn fresh() -> Vec<Member> {
    vec![Member {
        id: placeholder_member(),
        display_name: "household".to_string(),
        initial: None,
        color: None,
        created_at: now(),
    }]
}

fn request(name: &str, initial: Option<&str>, color: Option<&str>) -> CreateMemberRequest {
    CreateMemberRequest {
        display_name: name.to_string(),
        initial: initial.map(|t| t.to_string()),
        color: color.map(|t| t.to_string()),
    }
}

fn post(
    store: &mut Vec<Member>,
    req: CreateMemberRequest,
) -> Result<Reply<MemberResponse>, Rejection> {
    let color = match &req.color {
        Some(color) => color.clone(),
        None => String::new(),
    };
    let member = create_member(req, Ok(color), "a name is needed".to_string(), now())?;
    store.push(member.clone());
    created_member(&member, Ok(()))
}

fn list(store: &Vec<Member>) -> Reply<MembersResponse> {
    list_members_handler(Ok(store.clone())).unwrap()
}

fn get(store: &Vec<Member>, id: &str) -> Result<Reply<MemberResponse>, Rejection> {
    let id = parse_member_id(id)?;
    get_member(Ok(store.iter().find(|m| m.id == id).cloned()))
}

fn delete(store: &mut Vec<Member>, id: &str) -> Result<Reply<DeletedResponse>, Rejection> {
    let id = parse_member_id(id)?;
    let before = store.len();
    store.retain(|m| m.id != id);
    delete_member_handler(id, Ok(store.len() < before))
}

#[test]
fn member_api_create_list_get_delete_round_trip() {
    let mut store = fresh();
    let created = post(&mut store, request("Alice", Some("A"), Some("sage"))).unwrap();
    assert_eq!(created.status, StatusCode::Created);
    assert_eq!(created.body.display_name, "Alice");
    assert_eq!(created.body.initial, Some("A".to_string()));
    assert_eq!(created.body.color, Some("sage".to_string()));
    let id = created.body.id;

    let listed = list(&store);
    assert_eq!(listed.status, StatusCode::Success);
    assert!(listed.body.members.iter().any(|m| m.id == id));
    assert!(listed.body.members.iter().all(|m| m.id != PLACEHOLDER));

    let fetched = get(&store, &id).unwrap();
    assert_eq!(fetched.status, StatusCode::Success);
    assert_eq!(fetched.body.display_name, "Alice");

    let deleted = delete(&mut store, &id).unwrap();
    assert_eq!(deleted.status, StatusCode::Success);
    assert!(deleted.body.deleted);

    assert_eq!(get(&store, &id).unwrap_err().status, StatusCode::NotFound);
}

#[test]
fn list_members_excludes_placeholder_but_includes_real_members() {
    let mut store = fresh();
    let created = post(&mut store, request("Eve", None, None)).unwrap();
    assert_eq!(created.status, StatusCode::Created);
    let members = list(&store).body.members;
    assert_eq!(members.len(), 1);
    assert!(members.iter().any(|m| m.id == created.body.id));
    assert!(members.iter().all(|m| m.id != PLACEHOLDER));
}

#[test]
fn optional_fields_are_omitted_when_absent() {
    let created = post(&mut fresh(), request("Ben", None, None)).unwrap();
    assert_eq!(created.status, StatusCode::Created);
    assert!(created.body.initial.is_none());
    assert!(created.body.color.is_none());
}

#[test]
fn blank_display_name_is_422() {
    let rejection = post(&mut fresh(), request("   ", None, None)).unwrap_err();
    assert_eq!(rejection.status, StatusCode::UnprocessableEntity);
    assert_eq!(rejection.error, Some("a name is needed".to_string()));
}

#[test]
fn get_member_bad_id_and_missing_id() {
    let store = fresh();
    let bad = get(&store, "not-a-uuid").unwrap_err();
    assert_eq!(bad.status, StatusCode::BadRequest);
    let missing = get(&store, "018f1a2b-0000-7000-8000-000000000099").unwrap_err();
    assert_eq!(missing.status, StatusCode::NotFound);
}

#[test]
fn a_color_that_is_not_one_is_422() {
    let req = request("Ann", None, Some("plaid"));
    let color = Err("unknown color: plaid".to_string());
    let rejection =
        create_member(req, color, "a name is needed".to_string(), now()).unwrap_err();
    assert_eq!(rejection.status, StatusCode::UnprocessableEntity);
    assert!(rejection.error.unwrap().contains("unknown color: plaid"));
}

#[test]
fn storage_trouble_is_500_for_members() {
    let req = request("Ann", None, None);
    let member =
        create_member(req, Ok(String::new()), "a name is needed".to_string(), now()).unwrap();
    assert_eq!(created_member(&member, Err(failure())).unwrap_err().status.code(), 500);
    assert_eq!(list_members_handler(Err(failure())).unwrap_err().status.code(), 500);
    assert_eq!(get_member(Err(failure())).unwrap_err().status.code(), 500);
    assert_eq!(delete_member_handler(member.id, Err(failure())).unwrap_err().status.code(), 500);
}
