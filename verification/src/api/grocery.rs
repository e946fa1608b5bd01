//! The grocery endpoints: lists, the items on them, and the items that planned
//! meals add.

use vstd::prelude::*;

use crate::api::fields::{range_asked_for, read_range, DateRange};
use crate::api::surfacing::{monday_of, week_start};
use crate::dates::{iso_text, writes_date, writes_time, Timestamp, LAST_DAY};
use crate::ids::{
    hyphenated, is_version_7, new_uuid, parse_uuid, parsed_uuid, uuid_text, writes_uuid,
    GroceryItemId, GroceryListId,
};
use crate::model::grocery::{GroceryItem, GroceryList, GrocerySource};
use crate::model::meal::Meal;
use crate::model::pantry::PantryItem;
use crate::reply::{
    changed, changed_row, deleted, found, found_row, identified, identify, outcome, stored,
    stored_value, DeletedResponse, Refusal, Rejection, Reply, StatusCode, StorageFailure,
};
use crate::text::{blank, copy_text, is_blank, text_of};

verus! {

// ─── Requests and responses ───────────────────────────────────────────────────

/// Body of `POST /api/v1/grocery-lists`.
#[derive(Debug)]
pub struct CreateGroceryListRequest {
    /// Display name; must not be blank.
    pub name: String,
}

/// Body of `POST /api/v1/grocery-lists/{id}/items`.
#[derive(Debug)]
pub struct CreateGroceryItemRequest {
    /// What it is; must not be blank.
    pub name: String,
    /// How much of it, in free text.
    pub qty: Option<String>,
    /// What it is grouped under.
    pub category: Option<String>,
}

/// Body of `PATCH /api/v1/grocery-items/{id}`.
#[derive(Debug)]
pub struct PatchGroceryItemRequest {
    /// Whether the item is checked off.
    pub checked: bool,
}

/// Query of `POST /api/v1/grocery-lists/{id}/generate`: both ends or neither,
/// which means the current week.
#[derive(Debug)]
pub struct GenerateQuery {
    /// The first day, `YYYY-MM-DD`.
    pub from: Option<String>,
    /// The last day, `YYYY-MM-DD`.
    pub to: Option<String>,
}

/// A list as the endpoints show it.
#[derive(Debug)]
pub struct GroceryListResponse {
    /// Identifies the list.
    pub id: String,
    /// Display name.
    pub name: String,
    /// When it was made.
    pub created_at: String,
}

/// An item as the endpoints show it.
#[derive(Debug)]
pub struct GroceryItemResponse {
    /// Identifies the item.
    pub id: String,
    /// The list it is on.
    pub list_id: String,
    /// What it is.
    pub name: String,
    /// How much of it.
    pub qty: Option<String>,
    /// What it is grouped under.
    pub category: Option<String>,
    /// Whether it is checked off.
    pub checked: bool,
    /// `manual` or `from_meal`.
    pub source: String,
    /// The meal that needs it.
    pub source_meal_id: Option<String>,
    /// When it came onto the list.
    pub created_at: String,
}

/// Answer of `POST /api/v1/grocery-lists/{id}/generate`.
#[derive(Debug)]
pub struct GenerateResponse {
    /// The first day, `YYYY-MM-DD`.
    pub from: String,
    /// The last day, `YYYY-MM-DD`.
    pub to: String,
    /// The items that were added, and no others.
    pub added: Vec<GroceryItemResponse>,
}

/// Answer of `PATCH /api/v1/grocery-items/{id}`.
#[derive(Debug)]
pub struct CheckedResponse {
    /// Identifies the item.
    pub id: String,
    /// Whether the item is checked off.
    pub checked: bool,
}

/// Answer of `POST /api/v1/grocery-lists/{id}/clear-checked`.
#[derive(Debug)]
pub struct ClearCheckedResponse {
    /// How many items were removed.
    pub removed: usize,
}

impl GroceryListResponse {
    /// Whether this is how `list` is shown.
    pub open spec fn shows(self, list: GroceryList) -> bool {
        &&& writes_uuid(self.id@, list.id.0)
        &&& self.name@ == list.name@
        &&& writes_time(self.created_at@, list.created_at@)
    }
}

impl GroceryItemResponse {
    /// Whether this is how `item` is shown.
    pub open spec fn shows(self, item: GroceryItem) -> bool {
        &&& writes_uuid(self.id@, item.id.0)
        &&& writes_uuid(self.list_id@, item.list_id.0)
        &&& self.name@ == item.name@
        &&& text_of(self.qty) == text_of(item.qty)
        &&& text_of(self.category) == text_of(item.category)
        &&& self.checked == item.checked
        &&& self.source@ == item.source.text()
        &&& text_of(self.source_meal_id) == (match item.source_meal_id {
            Some(id) => Some(hyphenated(id.0)),
            None => None,
        })
        &&& writes_time(self.created_at@, item.created_at@)
    }
}

/// How a list is shown.
pub fn grocery_list_to_response(list: &GroceryList) -> (r: GroceryListResponse)
    ensures
        r.shows(*list),
{
    GroceryListResponse {
        id: uuid_text(list.id.0),
        name: list.name.clone(),
        created_at: list.created_at.rfc3339_text(),
    }
}

/// How an item is shown.
pub fn grocery_item_to_response(item: &GroceryItem) -> (r: GroceryItemResponse)
    ensures
        r.shows(*item),
{
    let source_meal_id = match item.source_meal_id {
        Some(id) => Some(uuid_text(id.0)),
        None => None,
    };
    GroceryItemResponse {
        id: uuid_text(item.id.0),
        list_id: uuid_text(item.list_id.0),
        name: item.name.clone(),
        qty: copy_text(&item.qty),
        category: copy_text(&item.category),
        checked: item.checked,
        source: item.source.as_str().to_owned(),
        source_meal_id,
        created_at: item.created_at.rfc3339_text(),
    }
}

/// Whether the responses show the items one by one.
pub open spec fn show_items(responses: Seq<GroceryItemResponse>, items: Seq<GroceryItem>) -> bool {
    &&& responses.len() == items.len()
    &&& forall|i: int| 0 <= i < items.len() ==> (#[trigger] responses[i]).shows(items[i])
}

fn items_to_responses(items: &Vec<GroceryItem>) -> (r: Vec<GroceryItemResponse>)
    ensures
        show_items(r@, items@),
{
    let mut out: Vec<GroceryItemResponse> = Vec::new();
    for i in 0..items.len()
        invariant
            show_items(out@, items@.take(i as int)),
    {
        out.push(grocery_item_to_response(&items[i]));
    }
    proof {
        assert(items@.take(items@.len() as int) =~= items@);
    }
    out
}

// ─── Lists ────────────────────────────────────────────────────────────────────

/// `POST /api/v1/grocery-lists`: the list that the request makes, or why it is
/// refused. `blank_name` is what is said of a blank name.
pub fn create_grocery_list(
    req: CreateGroceryListRequest,
    blank_name: String,
    now: Timestamp,
) -> (r: Result<GroceryList, Rejection>)
    ensures
        match r {
            Ok(list) => {
                &&& !blank(req.name@)
                &&& is_version_7(list.id.0)
                &&& list.name == req.name
                &&& list.created_at == now
            },
            Err(rejection) => blank(req.name@) && rejection@ == Refusal::unprocessable(
                blank_name@,
            ),
        },
{
    if is_blank(req.name.as_str()) {
        return Err(Rejection::unprocessable(blank_name));
    }
    Ok(GroceryList { id: GroceryListId(new_uuid()), name: req.name, created_at: now })
}

/// The answer once storage has been asked to keep the list: 201 with it, or 500.
pub fn created_grocery_list(list: &GroceryList, kept: Result<(), StorageFailure>) -> (r: Result<
    Reply<GroceryListResponse>,
    Rejection,
>)
    ensures
        match r {
            Ok(reply) => kept is Ok && reply.status == StatusCode::Created && reply.body.shows(
                *list,
            ),
            Err(rejection) => kept is Err && rejection@ == Refusal::internal(),
        },
{
    match kept {
        Ok(_) => Ok(Reply { status: StatusCode::Created, body: grocery_list_to_response(list) }),
        Err(_) => Err(Rejection::internal()),
    }
}

/// Whether the responses show the lists one by one.
pub open spec fn show_lists(responses: Seq<GroceryListResponse>, lists: Seq<GroceryList>) -> bool {
    &&& responses.len() == lists.len()
    &&& forall|i: int| 0 <= i < lists.len() ==> (#[trigger] responses[i]).shows(lists[i])
}

/// `GET /api/v1/grocery-lists`: the answer once the lists have been read.
pub fn list_grocery_lists_handler(read: Result<Vec<GroceryList>, StorageFailure>) -> (r: Result<
    Reply<Vec<GroceryListResponse>>,
    Rejection,
>)
    ensures
        match (stored_value(read), outcome(r)) {
            (Ok(lists), Ok(reply)) => reply.status == StatusCode::Success && show_lists(
                reply.body@,
                lists@,
            ),
            (Err(refusal), Err(answer)) => answer == refusal,
            _ => false,
        },
{
    let lists = match stored(read) {
        Ok(lists) => lists,
        Err(rejection) => return Err(rejection),
    };
    let mut body: Vec<GroceryListResponse> = Vec::new();
    for i in 0..lists.len()
        invariant
            show_lists(body@, lists@.take(i as int)),
    {
        body.push(grocery_list_to_response(&lists[i]));
    }
    proof {
        assert(lists@.take(lists@.len() as int) =~= lists@);
    }
    Ok(Reply { status: StatusCode::Success, body })
}

/// What the list identifier in a path comes to.
pub open spec fn grocery_list_id_of(text: Seq<char>) -> Result<GroceryListId, Refusal> {
    match identified(parsed_uuid(text), "invalid grocery list ID"@) {
        Ok(uuid) => Ok(GroceryListId(uuid)),
        Err(refusal) => Err(refusal),
    }
}

/// Reads the list identifier in a path.
pub fn parse_grocery_list_id(text: &str) -> (r: Result<GroceryListId, Rejection>)
    ensures
        outcome(r) == grocery_list_id_of(text@),
{
    match identify(parse_uuid(text), "invalid grocery list ID") {
        Ok(uuid) => Ok(GroceryListId(uuid)),
        Err(rejection) => Err(rejection),
    }
}

/// `GET /api/v1/grocery-lists/{id}`: the answer once the list has been read.
pub fn get_grocery_list(read: Result<Option<GroceryList>, StorageFailure>) -> (r: Result<
    Reply<GroceryListResponse>,
    Rejection,
>)
    ensures
        match (found_row(read, "grocery list not found"@), outcome(r)) {
            (Ok(list), Ok(reply)) => reply.status == StatusCode::Success && reply.body.shows(list),
            (Err(refusal), Err(answer)) => answer == refusal,
            _ => false,
        },
{
    match found(read, "grocery list not found") {
        Ok(list) => Ok(
            Reply { status: StatusCode::Success, body: grocery_list_to_response(&list) },
        ),
        Err(rejection) => Err(rejection),
    }
}

// ─── Items ────────────────────────────────────────────────────────────────────

/// `POST /api/v1/grocery-lists/{id}/items`: the item that the request puts onto
/// the list, or why it is refused: the list must exist, and the name must not be
/// blank. `blank_name` is what is said of a blank name.
pub fn create_grocery_item(
    list_id: GroceryListId,
    list: Result<Option<GroceryList>, StorageFailure>,
    req: CreateGroceryItemRequest,
    blank_name: String,
    now: Timestamp,
) -> (r: Result<GroceryItem, Rejection>)
    ensures
        match (found_row(list, "grocery list not found"@), r) {
            (Ok(_), Ok(item)) => {
                &&& !blank(req.name@)
                &&& is_version_7(item.id.0)
                &&& item == (GroceryItem {
                    id: item.id,
                    list_id,
                    name: req.name,
                    qty: req.qty,
                    category: req.category,
                    checked: false,
                    source: GrocerySource::Manual,
                    source_meal_id: None,
                    created_at: now,
                })
            },
            (Ok(_), Err(rejection)) => blank(req.name@) && rejection@ == Refusal::unprocessable(
                blank_name@,
            ),
            (Err(refusal), Err(rejection)) => rejection@ == refusal,
            (Err(_), Ok(_)) => false,
        },
{
    if let Err(rejection) = found(list, "grocery list not found") {
        return Err(rejection);
    }
    if is_blank(req.name.as_str()) {
        return Err(Rejection::unprocessable(blank_name));
    }
    Ok(
        GroceryItem {
            id: GroceryItemId(new_uuid()),
            list_id,
            name: req.name,
            qty: req.qty,
            category: req.category,
            checked: false,
            source: GrocerySource::Manual,
            source_meal_id: None,
            created_at: now,
        },
    )
}

/// The answer once storage has been asked to keep the item: 201 with it, or 500.
pub fn created_grocery_item(item: &GroceryItem, kept: Result<(), StorageFailure>) -> (r: Result<
    Reply<GroceryItemResponse>,
    Rejection,
>)
    ensures
        match r {
            Ok(reply) => kept is Ok && reply.status == StatusCode::Created && reply.body.shows(
                *item,
            ),
            Err(rejection) => kept is Err && rejection@ == Refusal::internal(),
        },
{
    match kept {
        Ok(_) => Ok(Reply { status: StatusCode::Created, body: grocery_item_to_response(item) }),
        Err(_) => Err(Rejection::internal()),
    }
}

/// Whether a list exists: 404 if it does not.
pub fn existing_list(list: Result<Option<GroceryList>, StorageFailure>) -> (r: Result<
    (),
    Rejection,
>)
    ensures
        outcome(r) == (match found_row(list, "grocery list not found"@) {
            Ok(_) => Ok(()),
            Err(refusal) => Err(refusal),
        }),
{
    match found(list, "grocery list not found") {
        Ok(_) => Ok(()),
        Err(rejection) => Err(rejection),
    }
}

/// `GET /api/v1/grocery-lists/{id}/items`: the answer once the items of an
/// existing list have been read.
pub fn list_grocery_items_handler(read: Result<Vec<GroceryItem>, StorageFailure>) -> (r: Result<
    Reply<Vec<GroceryItemResponse>>,
    Rejection,
>)
    ensures
        match (stored_value(read), outcome(r)) {
            (Ok(items), Ok(reply)) => reply.status == StatusCode::Success && show_items(
                reply.body@,
                items@,
            ),
            (Err(refusal), Err(answer)) => answer == refusal,
            _ => false,
        },
{
    match stored(read) {
        Ok(items) => Ok(Reply { status: StatusCode::Success, body: items_to_responses(&items) }),
        Err(rejection) => Err(rejection),
    }
}

/// What the item identifier in a path comes to.
pub open spec fn grocery_item_id_of(text: Seq<char>) -> Result<GroceryItemId, Refusal> {
    match identified(parsed_uuid(text), "invalid grocery item ID"@) {
        Ok(uuid) => Ok(GroceryItemId(uuid)),
        Err(refusal) => Err(refusal),
    }
}

/// Reads the item identifier in a path.
pub fn parse_grocery_item_id(text: &str) -> (r: Result<GroceryItemId, Rejection>)
    ensures
        outcome(r) == grocery_item_id_of(text@),
{
    match identify(parse_uuid(text), "invalid grocery item ID") {
        Ok(uuid) => Ok(GroceryItemId(uuid)),
        Err(rejection) => Err(rejection),
    }
}

/// `PATCH /api/v1/grocery-items/{id}`: the answer once storage has been asked to
/// check the item off, or back on.
pub fn patch_grocery_item(
    id: GroceryItemId,
    req: PatchGroceryItemRequest,
    call: Result<bool, StorageFailure>,
) -> (r: Result<Reply<CheckedResponse>, Rejection>)
    ensures
        match (changed_row(call, "grocery item not found"@), outcome(r)) {
            (Ok(_), Ok(reply)) => {
                &&& reply.status == StatusCode::Success
                &&& writes_uuid(reply.body.id@, id.0)
                &&& reply.body.checked == req.checked
            },
            (Err(refusal), Err(answer)) => answer == refusal,
            _ => false,
        },
{
    match changed(call, "grocery item not found") {
        Ok(_) => Ok(
            Reply {
                status: StatusCode::Success,
                body: CheckedResponse { id: uuid_text(id.0), checked: req.checked },
            },
        ),
        Err(rejection) => Err(rejection),
    }
}

/// `DELETE /api/v1/grocery-items/{id}`: the answer once storage has been asked
/// to remove the item.
pub fn delete_grocery_item_handler(id: GroceryItemId, call: Result<bool, StorageFailure>) -> (r:
    Result<Reply<DeletedResponse>, Rejection>)
    ensures
        match (changed_row(call, "grocery item not found"@), outcome(r)) {
            (Ok(_), Ok(reply)) => {
                &&& reply.status == StatusCode::Success
                &&& writes_uuid(reply.body.id@, id.0)
                &&& reply.body.deleted
            },
            (Err(refusal), Err(answer)) => answer == refusal,
            _ => false,
        },
{
    deleted(id.0, call, "grocery item not found")
}

// ─── Generate ─────────────────────────────────────────────────────────────────

/// The Monday and the Sunday of the week of `now`.
pub fn current_week_bounds(now: Timestamp) -> (r: DateRange)
    requires
        monday_of(now@.julian_day) + 6 <= LAST_DAY,
    ensures
        r.from@ == monday_of(now@.julian_day),
        r.to@ == monday_of(now@.julian_day) + 6,
{
    let from = week_start(now.date());
    DateRange { from, to: from.plus_days(6) }
}

/// The days whose meals a request for additions is about: those it names, or the
/// week of `now`.
pub open spec fn days_to_plan(params: GenerateQuery, now: Timestamp) -> Result<
    (int, int),
    Refusal,
> {
    match range_asked_for(params.from, params.to) {
        Ok(Some(range)) => Ok(range),
        Ok(None) => Ok((monday_of(now@.julian_day), monday_of(now@.julian_day) + 6)),
        Err(refusal) => Err(refusal),
    }
}

/// `POST /api/v1/grocery-lists/{id}/generate`: the days whose meals are to be
/// read, or why the request is refused: the list must exist, and the days must
/// be well-formed.
pub fn generate_grocery_items(
    list: Result<Option<GroceryList>, StorageFailure>,
    params: GenerateQuery,
    now: Timestamp,
) -> (r: Result<DateRange, Rejection>)
    requires
        list matches Ok(Some(_)) && params.from is None && params.to is None ==> monday_of(
            now@.julian_day,
        ) + 6 <= LAST_DAY,
    ensures
        match (found_row(list, "grocery list not found"@), r) {
            (Ok(_), Ok(range)) => days_to_plan(params, now) == Ok::<(int, int), Refusal>(
                (range.from@, range.to@),
            ),
            (Ok(_), Err(rejection)) => days_to_plan(params, now) == Err::<(int, int), Refusal>(
                rejection@,
            ),
            (Err(refusal), Err(rejection)) => rejection@ == refusal,
            (Err(_), Ok(_)) => false,
        },
{
    if let Err(rejection) = found(list, "grocery list not found") {
        return Err(rejection);
    }
    match read_range(&params.from, &params.to) {
        Ok(Some(range)) => Ok(range),
        Ok(None) => Ok(current_week_bounds(now)),
        Err(rejection) => Err(rejection),
    }
}

/// What additions are planned from: the meals of the days, the staples at home,
/// and what is on the list already.
#[derive(Debug)]
pub struct PlanInputs {
    /// The meals of the days.
    pub meals: Vec<Meal>,
    /// The staples at home.
    pub pantry: Vec<PantryItem>,
    /// What is on the list already.
    pub existing: Vec<GroceryItem>,
}

/// What additions are planned from, once it has been read: 500 if any of it
/// could not be.
pub fn plan_inputs(
    meals: Result<Vec<Meal>, StorageFailure>,
    pantry: Result<Vec<PantryItem>, StorageFailure>,
    existing: Result<Vec<GroceryItem>, StorageFailure>,
) -> (r: Result<PlanInputs, Rejection>)
    ensures
        match (meals, pantry, existing) {
            (Ok(meals), Ok(pantry), Ok(existing)) => outcome(r) == Ok::<PlanInputs, Refusal>(
                PlanInputs { meals, pantry, existing },
            ),
            _ => outcome(r) == Err::<PlanInputs, Refusal>(Refusal::internal()),
        },
{
    match (meals, pantry, existing) {
        (Ok(meals), Ok(pantry), Ok(existing)) => Ok(PlanInputs { meals, pantry, existing }),
        _ => Err(Rejection::internal()),
    }
}

/// The answer once storage has been asked to keep the planned additions: 200
/// with the days and just the additions, or 500.
pub fn generated_items(
    range: DateRange,
    additions: &Vec<GroceryItem>,
    kept: Result<(), StorageFailure>,
) -> (r: Result<Reply<GenerateResponse>, Rejection>)
    ensures
        match r {
            Ok(reply) => {
                &&& kept is Ok
                &&& reply.status == StatusCode::Success
                &&& writes_date(reply.body.from@, range.from@)
                &&& writes_date(reply.body.to@, range.to@)
                &&& show_items(reply.body.added@, additions@)
            },
            Err(rejection) => kept is Err && rejection@ == Refusal::internal(),
        },
{
    match kept {
        Ok(_) => Ok(
            Reply {
                status: StatusCode::Success,
                body: GenerateResponse {
                    from: range.from.iso_text(),
                    to: range.to.iso_text(),
                    added: items_to_responses(additions),
                },
            },
        ),
        Err(_) => Err(Rejection::internal()),
    }
}

/// Whether a meal needs something that goes by a name.
pub open spec fn needs(meals: Seq<Meal>, name: Seq<char>) -> bool {
    exists|i: int, k: int|
        0 <= i < meals.len() && 0 <= k < meals[i].ingredient_lines@.len() && (
        #[trigger] meals[i].ingredient_lines@[k]).name@ == name
}

/// Whether something with the key of a name is among the staples.
pub open spec fn is_stocked(
    key: spec_fn(Seq<char>) -> Seq<char>,
    pantry: Seq<PantryItem>,
    name: Seq<char>,
) -> bool {
    exists|i: int| 0 <= i < pantry.len() && key((#[trigger] pantry[i]).name@) == key(name)
}

/// Whether something with the key of a name is among the items.
pub open spec fn is_listed(
    key: spec_fn(Seq<char>) -> Seq<char>,
    items: Seq<GroceryItem>,
    name: Seq<char>,
) -> bool {
    exists|i: int| 0 <= i < items.len() && key((#[trigger] items[i]).name@) == key(name)
}

/// Whether the additions are what the meals need and what is neither stocked nor
/// on the list yet. Two names mean one thing if they have one key.
pub open spec fn adds_what_is_missing(
    key: spec_fn(Seq<char>) -> Seq<char>,
    inputs: PlanInputs,
    additions: Seq<GroceryItem>,
) -> bool {
    &&& forall|i: int|
        0 <= i < additions.len() ==> {
            let name = (#[trigger] additions[i]).name@;
            &&& exists|needed: Seq<char>| #[trigger]
                needs(inputs.meals@, needed) && key(needed) == key(name)
            &&& !is_stocked(key, inputs.pantry@, name)
            &&& !is_listed(key, inputs.existing@, name)
        }
    &&& forall|name: Seq<char>| #[trigger]
        needs(inputs.meals@, name) ==> is_stocked(key, inputs.pantry@, name) || is_listed(
            key,
            inputs.existing@,
            name,
        ) || is_listed(key, additions, name)
}

/// The items of a list once additions are kept: those before, as they were, and
/// the additions after them.
pub open spec fn list_with(
    existing: Seq<GroceryItem>,
    additions: Seq<GroceryItem>,
) -> Seq<GroceryItem> {
    existing + additions
}

/// Whether each of the earlier items is still among the later ones, under its
/// name. It may have been checked off in the meantime.
pub open spec fn are_still_listed(earlier: Seq<GroceryItem>, later: Seq<GroceryItem>) -> bool {
    forall|i: int|
        0 <= i < earlier.len() ==> exists|j: int|
            0 <= j < later.len() && (#[trigger] later[j]).id == (#[trigger] earlier[i]).id
                && later[j].name@ == earlier[i].name@
}

/// Generating touches nothing that is on the list: every item is where it was, as
/// it was, and the additions, which are all that is answered, come after it.
pub proof fn generating_leaves_the_list_as_it_is(
    existing: Seq<GroceryItem>,
    additions: Seq<GroceryItem>,
    added: Seq<GroceryItemResponse>,
)
    requires
        show_items(added, additions),
    ensures
        list_with(existing, additions).len() == existing.len() + added.len(),
        forall|i: int|
            0 <= i < existing.len() ==> #[trigger] list_with(existing, additions)[i] == existing[i],
        forall|i: int|
            0 <= i < added.len() ==> (#[trigger] added[i]).shows(
                list_with(existing, additions)[existing.len() + i],
            ),
{
}

proof fn additions_are_listed(
    key: spec_fn(Seq<char>) -> Seq<char>,
    existing: Seq<GroceryItem>,
    additions: Seq<GroceryItem>,
    name: Seq<char>,
)
    requires
        is_listed(key, existing, name) || is_listed(key, additions, name),
    ensures
        is_listed(key, list_with(existing, additions), name),
{
    let kept = list_with(existing, additions);
    if is_listed(key, existing, name) {
        let i = choose|i: int|
            0 <= i < existing.len() && key((#[trigger] existing[i]).name@) == key(name);
        assert(kept[i] == existing[i]);
    } else {
        let i = choose|i: int|
            0 <= i < additions.len() && key((#[trigger] additions[i]).name@) == key(name);
        assert(kept[existing.len() + i] == additions[i]);
    }
}

proof fn listed_names_stay_listed(
    key: spec_fn(Seq<char>) -> Seq<char>,
    earlier: Seq<GroceryItem>,
    later: Seq<GroceryItem>,
    name: Seq<char>,
)
    requires
        is_listed(key, earlier, name),
        are_still_listed(earlier, later),
    ensures
        is_listed(key, later, name),
{
    let i = choose|i: int|
        0 <= i < earlier.len() && key((#[trigger] earlier[i]).name@) == key(name);
    let j = choose|j: int|
        0 <= j < later.len() && (#[trigger] later[j]).id == earlier[i].id && later[j].name@
            == earlier[i].name@;
    assert(key(later[j].name@) == key(name));
}

/// Where additions are what is missing, generating a second time adds nothing and
/// leaves the list as it is. In the meantime items may have been checked off or
/// written down, but none removed, no meal changed, and no staple run out.
pub proof fn generating_twice_adds_nothing(
    key: spec_fn(Seq<char>) -> Seq<char>,
    first: PlanInputs,
    additions: Seq<GroceryItem>,
    second: PlanInputs,
    again: Seq<GroceryItem>,
    added: Seq<GroceryItemResponse>,
)
    requires
        adds_what_is_missing(key, first, additions),
        adds_what_is_missing(key, second, again),
        second.meals@ == first.meals@,
        forall|i: int|
            0 <= i < first.pantry@.len() ==> is_stocked(
                key,
                second.pantry@,
                (#[trigger] first.pantry@[i]).name@,
            ),
        are_still_listed(list_with(first.existing@, additions), second.existing@),
        show_items(added, again),
    ensures
        again.len() == 0,
        added.len() == 0,
        list_with(second.existing@, again) == second.existing@,
{
    if again.len() > 0 {
        let name = again[0].name@;
        let needed = choose|needed: Seq<char>| #[trigger]
            needs(second.meals@, needed) && key(needed) == key(name);
        assert(needs(first.meals@, needed));
        if is_stocked(key, first.pantry@, needed) {
            let i = choose|i: int|
                0 <= i < first.pantry@.len() && key((#[trigger] first.pantry@[i]).name@) == key(
                    needed,
                );
            assert(is_stocked(key, second.pantry@, first.pantry@[i].name@));
            assert(is_stocked(key, second.pantry@, name));
        } else {
            let kept = list_with(first.existing@, additions);
            additions_are_listed(key, first.existing@, additions, needed);
            listed_names_stay_listed(key, kept, second.existing@, needed);
            assert(is_listed(key, second.existing@, name));
        }
    }
    assert(list_with(second.existing@, again) =~= second.existing@);
}

// ─── Clear ────────────────────────────────────────────────────────────────────

/// The identifiers of the items that are checked off, in their order.
pub open spec fn checked_ids(items: Seq<GroceryItem>) -> Seq<GroceryItemId>
    decreases items.len(),
{
    if items.len() == 0 {
        Seq::empty()
    } else if items.last().checked {
        checked_ids(items.drop_last()).push(items.last().id)
    } else {
        checked_ids(items.drop_last())
    }
}

/// `POST /api/v1/grocery-lists/{id}/clear-checked`: the items to remove from an
/// existing list.
pub fn clear_checked(
    list: Result<Option<GroceryList>, StorageFailure>,
    items: Result<Vec<GroceryItem>, StorageFailure>,
) -> (r: Result<Vec<GroceryItemId>, Rejection>)
    ensures
        match (found_row(list, "grocery list not found"@), stored_value(items), r) {
            (Ok(_), Ok(items), Ok(ids)) => ids@ == checked_ids(items@),
            (Ok(_), Err(refusal), Err(rejection)) => rejection@ == refusal,
            (Err(refusal), _, Err(rejection)) => rejection@ == refusal,
            _ => false,
        },
{
    if let Err(rejection) = found(list, "grocery list not found") {
        return Err(rejection);
    }
    let items = match stored(items) {
        Ok(items) => items,
        Err(rejection) => return Err(rejection),
    };
    let mut ids: Vec<GroceryItemId> = Vec::new();
    for i in 0..items.len()
        invariant
            ids@ == checked_ids(items@.take(i as int)),
    {
        proof {
            assert(items@.take(i + 1).drop_last() =~= items@.take(i as int));
        }
        if items[i].checked {
            ids.push(items[i].id);
        }
    }
    proof {
        assert(items@.take(items@.len() as int) =~= items@);
    }
    Ok(ids)
}

/// The number of removals that found their row.
pub open spec fn removals(calls: Seq<Result<bool, StorageFailure>>) -> nat
    decreases calls.len(),
{
    if calls.len() == 0 {
        0
    } else {
        removals(calls.drop_last()) + (match calls.last() {
            Ok(true) => 1nat,
            _ => 0,
        })
    }
}

/// Whether a removal failed.
pub open spec fn any_failed(calls: Seq<Result<bool, StorageFailure>>) -> bool {
    exists|i: int| 0 <= i < calls.len() && (#[trigger] calls[i]) is Err
}

/// The answer once storage has been asked to remove the items: 200 with how many
/// there were, or 500 if a removal failed.
pub fn cleared_items(calls: &Vec<Result<bool, StorageFailure>>) -> (r: Result<
    Reply<ClearCheckedResponse>,
    Rejection,
>)
    ensures
        match r {
            Ok(reply) => {
                &&& !any_failed(calls@)
                &&& reply.status == StatusCode::Success
                &&& reply.body.removed == removals(calls@)
            },
            Err(rejection) => any_failed(calls@) && rejection@ == Refusal::internal(),
        },
{
    let mut removed: usize = 0;
    for i in 0..calls.len()
        invariant
            removed == removals(calls@.take(i as int)),
            removed <= i,
            forall|k: int| 0 <= k < i ==> (#[trigger] calls@[k]) is Ok,
    {
        proof {
            assert(calls@.take(i + 1).drop_last() =~= calls@.take(i as int));
        }
        match &calls[i] {
            Ok(true) => {
                removed = removed + 1;
            },
            Ok(false) => {},
            Err(_) => return Err(Rejection::internal()),
        }
    }
    proof {
        assert(calls@.take(calls@.len() as int) =~= calls@);
    }
    Ok(Reply { status: StatusCode::Success, body: ClearCheckedResponse { removed } })
}

/// Clearing removes the items that are checked off and spares all others.
pub proof fn clearing_removes_exactly_the_checked(items: Seq<GroceryItem>, id: GroceryItemId)
    ensures
        checked_ids(items).contains(id) <==> exists|i: int|
            0 <= i < items.len() && (#[trigger] items[i]).checked && items[i].id == id,
    decreases items.len(),
{
    if items.len() > 0 {
        let fewer = items.drop_last();
        clearing_removes_exactly_the_checked(fewer, id);
        let rest = checked_ids(fewer);
        let all = checked_ids(items);
        if all.contains(id) {
            let k = choose|k: int| 0 <= k < all.len() && all[k] == id;
            if k < rest.len() {
                assert(rest[k] == id);
                let i = choose|i: int|
                    0 <= i < fewer.len() && (#[trigger] fewer[i]).checked && fewer[i].id == id;
                assert(items[i] == fewer[i]);
            } else {
                assert(items[items.len() - 1].checked);
            }
        }
        if exists|i: int|
            0 <= i < items.len() && (#[trigger] items[i]).checked && items[i].id == id {
            let i = choose|i: int|
                0 <= i < items.len() && (#[trigger] items[i]).checked && items[i].id == id;
            if i < fewer.len() {
                assert(fewer[i] == items[i]);
                let k = choose|k: int| 0 <= k < rest.len() && rest[k] == id;
                assert(all[k] == id);
            } else {
                assert(all[rest.len() as int] == id);
            }
        }
    }
}

/// A grocery list is addressed by the identifier it is shown with: a path that holds
/// it names that very grocery list.
pub proof fn shown_grocery_list_is_addressable(response: GroceryListResponse, list: GroceryList)
    requires
        response.shows(list),
    ensures
        grocery_list_id_of(response.id@) == Ok::<_, Refusal>(list.id),
{
}

/// A grocery item is addressed by the identifier it is shown with: a path that holds
/// it names that very grocery item.
pub proof fn shown_grocery_item_is_addressable(response: GroceryItemResponse, item: GroceryItem)
    requires
        response.shows(item),
    ensures
        grocery_item_id_of(response.id@) == Ok::<_, Refusal>(item.id),
{
}

} // verus!
