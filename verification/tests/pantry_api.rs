// The pantry endpoints, driven phase by phase against a store held in memory.

use amity_service::api::fields::{read_time, TimeField};
use amity_service::api::pantry::{
    create_pantry_item, created_pantry_item, delete_pantry_item_handler,
    list_pantry_items_handler, parse_pantry_item_id, CreatePantryItemRequest, PantryItemResponse,
};
use amity_service::dates::Timestamp;
use amity_service::model::pantry::PantryItem;
use amity_service::reply::{DeletedResponse, Rejection, Reply, StatusCode, StorageFailure};

fn now() -> Timestamp {
    match read_time(&Some("2026-05-25T10:00:00Z".to_string())) {
        TimeField::At(t) => t,
        _ => panic!("a time"),
    }
}

fn failure() -> StorageFailure {
    StorageFailure { message: "disk full".to_string() }
}

fn post(
    store: &mut Vec<PantryItem>,
    name: &str,
    note: Option<&str>,
) -> Result<Reply<PantryItemResponse>, Rejection> {
    let req =
        CreatePantryItemRequest { name: name.to_string(), note: note.map(|n| n.to_string()) };
    let item = create_pantry_item(req, "a name is needed".to_string(), now())?;
    store.push(item.clone());
    created_pantry_item(&item, Ok(()))
}

fn delete(store: &mut Vec<PantryItem>, id: &str) -> Result<Reply<DeletedResponse>, Rejection> {
    let id = parse_pantry_item_id(id)?;
    let before = store.len();
    store.retain(|item| item.id != id);
    delete_pantry_item_handler(id, Ok(store.len() < before))
}

#[test]
fn create_list_delete_round_trip() {
    let mut store = Vec::new();
    let created = post(&mut store, "Flour", Some("keep two bags, we bake a lot")).unwrap();
    assert_eq!(created.status, StatusCode::Created);
    assert_eq!(created.body.name, "Flour");
    assert_eq!(created.body.note, Some("keep two bags, we bake a lot".to_string()));
    let id = created.body.id;

    let listed = list_pantry_items_handler(Ok(store.clone())).unwrap();
    assert_eq!(listed.status, StatusCode::Success);
    assert_eq!(listed.body.len(), 1);
    assert_eq!(listed.body[0].id, id);

    let deleted = delete(&mut store, &id).unwrap();
    assert_eq!(deleted.status, StatusCode::Success);
    assert!(deleted.body.deleted);
    assert_eq!(deleted.body.id, id);
    assert!(list_pantry_items_handler(Ok(store)).unwrap().body.is_empty());
}

#[test]
fn note_is_omitted_when_absent() {
    let created = post(&mut Vec::new(), "Rice", None).unwrap();
    assert_eq!(created.status, StatusCode::Created);
    assert!(created.body.note.is_none());
}

#[test]
fn pantry_api_blank_name_is_422() {
    let rejection = post(&mut Vec::new(), "   ", None).unwrap_err();
    assert_eq!(rejection.status, StatusCode::UnprocessableEntity);
    assert_eq!(rejection.error, Some("a name is needed".to_string()));
}

#[test]
fn delete_pantry_item_bad_id_and_missing_id() {
    let mut store = Vec::new();
    let bad = delete(&mut store, "not-a-uuid").unwrap_err();
    assert_eq!(bad.status, StatusCode::BadRequest);
    let missing = delete(&mut store, "018f1a2b-0000-7000-8000-000000000099").unwrap_err();
    assert_eq!(missing.status, StatusCode::NotFound);
}

#[test]
fn storage_trouble_is_500_for_the_pantry() {
    let req = CreatePantryItemRequest { name: "Rice".to_string(), note: None };
    let item = create_pantry_item(req, "a name is needed".to_string(), now()).unwrap();
    assert_eq!(created_pantry_item(&item, Err(failure())).unwrap_err().status.code(), 500);
    assert_eq!(list_pantry_items_handler(Err(failure())).unwrap_err().status.code(), 500);
    let call = delete_pantry_item_handler(item.id, Err(failure()));
    assert_eq!(call.unwrap_err().status.code(), 500);
}
