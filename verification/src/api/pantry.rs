//! The pantry endpoints.

use vstd::prelude::*;

use crate::dates::{writes_time, Timestamp};
use crate::ids::{
    is_version_7, new_uuid, parse_uuid, parsed_uuid, uuid_text, writes_uuid, PantryItemId,
};
use crate::model::pantry::PantryItem;
use crate::reply::{
    changed_row, deleted, identified, identify, outcome, stored, stored_value, DeletedResponse,
    Refusal, Rejection, Reply, StatusCode, StorageFailure,
};
use crate::text::{blank, copy_text, is_blank, text_of};

verus! {

/// Body of `POST /api/v1/pantry`.
#[derive(Debug)]
pub struct CreatePantryItemRequest {
    /// What the staple is; must not be blank.
    pub name: String,
    /// Free-form note.
    pub note: Option<String>,
}

/// A staple as the endpoints show it.
#[derive(Debug)]
pub struct PantryItemResponse {
    /// Identifies the staple.
    pub id: String,
    /// What it is.
    pub name: String,
    /// Free-form note.
    pub note: Option<String>,
    /// When it was written down.
    pub created_at: String,
}

impl PantryItemResponse {
    /// Whether this is how `item` is shown.
    pub open spec fn shows(self, item: PantryItem) -> bool {
        &&& writes_uuid(self.id@, item.id.0)
        &&& self.name@ == item.name@
        &&& text_of(self.note) == text_of(item.note)
        &&& writes_time(self.created_at@, item.created_at@)
    }
}

/// How a staple is shown.
pub fn pantry_item_to_response(item: &PantryItem) -> (r: PantryItemResponse)
    ensures
        r.shows(*item),
{
    PantryItemResponse {
        id: uuid_text(item.id.0),
        name: item.name.clone(),
        note: copy_text(&item.note),
        created_at: item.created_at.rfc3339_text(),
    }
}

/// `POST /api/v1/pantry`: the staple that the request writes down, or why it is
/// refused. `blank_name` is what is said of a blank name.
pub fn create_pantry_item(
    req: CreatePantryItemRequest,
    blank_name: String,
    now: Timestamp,
) -> (r: Result<PantryItem, Rejection>)
    ensures
        match r {
            Ok(item) => {
                &&& !blank(req.name@)
                &&& is_version_7(item.id.0)
                &&& item.name == req.name
                &&& item.note == req.note
                &&& item.created_at == now
            },
            Err(rejection) => blank(req.name@) && rejection@ == Refusal::unprocessable(
                blank_name@,
            ),
        },
{
    if is_blank(req.name.as_str()) {
        return Err(Rejection::unprocessable(blank_name));
    }
    Ok(
        PantryItem {
            id: PantryItemId(new_uuid()),
            name: req.name,
            note: req.note,
            created_at: now,
        },
    )
}

/// The answer once storage has been asked to keep the staple: 201 with it, or 500.
pub fn created_pantry_item(item: &PantryItem, kept: Result<(), StorageFailure>) -> (r: Result<
    Reply<PantryItemResponse>,
    Rejection,
>)
    ensures
        match r {
            Ok(reply) => kept is Ok && reply.status == StatusCode::Created && reply.body.shows(
                *item,
            ),
            Err(rejection) => kept is Err && rejection@ == Refusal::internal(),
        },
{
    match kept {
        Ok(_) => Ok(Reply { status: StatusCode::Created, body: pantry_item_to_response(item) }),
        Err(_) => Err(Rejection::internal()),
    }
}

/// Whether the responses show the staples one by one.
pub open spec fn show_all(responses: Seq<PantryItemResponse>, items: Seq<PantryItem>) -> bool {
    &&& responses.len() == items.len()
    &&& forall|i: int| 0 <= i < items.len() ==> (#[trigger] responses[i]).shows(items[i])
}

/// `GET /api/v1/pantry`: the answer once the staples have been read.
pub fn list_pantry_items_handler(read: Result<Vec<PantryItem>, StorageFailure>) -> (r: Result<
    Reply<Vec<PantryItemResponse>>,
    Rejection,
>)
    ensures
        match (stored_value(read), outcome(r)) {
            (Ok(items), Ok(reply)) => reply.status == StatusCode::Success && show_all(
                reply.body@,
                items@,
            ),
            (Err(refusal), Err(answer)) => answer == refusal,
            _ => false,
        },
{
    let items = match stored(read) {
        Ok(items) => items,
        Err(rejection) => return Err(rejection),
    };
    let mut body: Vec<PantryItemResponse> = Vec::new();
    for i in 0..items.len()
        invariant
            show_all(body@, items@.take(i as int)),
    {
        body.push(pantry_item_to_response(&items[i]));
    }
    proof {
        assert(items@.take(items@.len() as int) =~= items@);
    }
    Ok(Reply { status: StatusCode::Success, body })
}

/// What the staple identifier in a path comes to.
pub open spec fn pantry_item_id_of(text: Seq<char>) -> Result<PantryItemId, Refusal> {
    match identified(parsed_uuid(text), "invalid pantry item ID"@) {
        Ok(uuid) => Ok(PantryItemId(uuid)),
        Err(refusal) => Err(refusal),
    }
}

/// Reads the staple identifier in a path.
pub fn parse_pantry_item_id(text: &str) -> (r: Result<PantryItemId, Rejection>)
    ensures
        outcome(r) == pantry_item_id_of(text@),
{
    match identify(parse_uuid(text), "invalid pantry item ID") {
        Ok(uuid) => Ok(PantryItemId(uuid)),
        Err(rejection) => Err(rejection),
    }
}

/// `DELETE /api/v1/pantry/{id}`: the answer once storage has been asked to
/// remove the staple.
pub fn delete_pantry_item_handler(id: PantryItemId, call: Result<bool, StorageFailure>) -> (r:
    Result<Reply<DeletedResponse>, Rejection>)
    ensures
        match (changed_row(call, "pantry item not found"@), outcome(r)) {
            (Ok(_), Ok(reply)) => {
                &&& reply.status == StatusCode::Success
                &&& writes_uuid(reply.body.id@, id.0)
                &&& reply.body.deleted
            },
            (Err(refusal), Err(answer)) => answer == refusal,
            _ => false,
        },
{
    deleted(id.0, call, "pantry item not found")
}

/// A pantry item is addressed by the identifier it is shown with: a path that holds
/// it names that very pantry item.
pub proof fn shown_pantry_item_is_addressable(response: PantryItemResponse, item: PantryItem)
    requires
        response.shows(item),
    ensures
        pantry_item_id_of(response.id@) == Ok::<_, Refusal>(item.id),
{
}

} // verus!
