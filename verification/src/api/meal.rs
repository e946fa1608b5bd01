//! The meal endpoints.

use vstd::prelude::*;

use crate::api::fields::{
    date_complaint, member_read, parse_date, range_asked_for, range_outcome, read_member,
    read_range, DateRange, MemberField,
};
use crate::api::task::{member_text, member_to_text};
use crate::dates::{iso_text, parsed_date, writes_date, writes_time, Date, Timestamp};
use crate::ids::{is_version_7, new_uuid, parse_uuid, parsed_uuid, uuid_text, writes_uuid, MealId};
use crate::model::meal::{IngredientLine, Meal, MealSlot};
use crate::reply::{
    changed_row, deleted, found, found_row, identified, identify, outcome, stored, stored_value,
    DeletedResponse, Refusal, Rejection, Reply, StatusCode, StorageFailure,
};
use crate::text::{blank, copy_text, is_blank, join, text_of};

verus! {

// ─── Requests and responses ───────────────────────────────────────────────────

/// One line of what a meal needs.
#[derive(Debug)]
pub struct IngredientLineRequest {
    /// The ingredient.
    pub name: String,
    /// How much of it, in free text.
    pub qty: Option<String>,
}

/// Body of `POST /api/v1/meals`.
#[derive(Debug)]
pub struct CreateMealRequest {
    /// What there is; must not be blank.
    pub name: String,
    /// The day, `YYYY-MM-DD`.
    pub date: String,
    /// dinner, breakfast, lunch or other; dinner if nothing is said.
    pub slot: Option<String>,
    /// Who cooks.
    pub cook: Option<String>,
    /// What it needs.
    pub ingredient_lines: Option<Vec<IngredientLineRequest>>,
    /// Free-form notes.
    pub notes: Option<String>,
}

/// Query of `GET /api/v1/meals`: both ends or neither.
#[derive(Debug)]
pub struct ListMealsQuery {
    /// The first day, `YYYY-MM-DD`.
    pub from: Option<String>,
    /// The last day, `YYYY-MM-DD`.
    pub to: Option<String>,
}

/// One line of what a meal needs, as the endpoints show it.
#[derive(Debug)]
pub struct IngredientLineResponse {
    /// The ingredient.
    pub name: String,
    /// How much of it.
    pub qty: Option<String>,
}

/// A meal as the endpoints show it.
#[derive(Debug)]
pub struct MealResponse {
    /// Identifies the meal.
    pub id: String,
    /// The day, `YYYY-MM-DD`.
    pub date: String,
    /// The part of the day.
    pub slot: String,
    /// What there is.
    pub name: String,
    /// Who cooks.
    pub cook: Option<String>,
    /// What it needs, in the order it was written down.
    pub ingredient_lines: Vec<IngredientLineResponse>,
    /// Free-form notes.
    pub notes: Option<String>,
    /// When it was planned.
    pub created_at: String,
}

impl IngredientLineResponse {
    /// Whether this is how `line` is shown.
    pub open spec fn shows(self, line: IngredientLine) -> bool {
        self.name@ == line.name@ && text_of(self.qty) == text_of(line.qty)
    }
}

impl MealResponse {
    /// Whether this is how `meal` is shown.
    pub open spec fn shows(self, meal: Meal) -> bool {
        &&& writes_uuid(self.id@, meal.id.0)
        &&& writes_date(self.date@, meal.date@)
        &&& self.slot@ == meal.slot.text()
        &&& self.name@ == meal.name@
        &&& text_of(self.cook) == member_text(meal.cook)
        &&& self.ingredient_lines@.len() == meal.ingredient_lines@.len()
        &&& forall|i: int|
            0 <= i < meal.ingredient_lines@.len() ==> (
            #[trigger] self.ingredient_lines@[i]).shows(meal.ingredient_lines@[i])
        &&& text_of(self.notes) == text_of(meal.notes)
        &&& writes_time(self.created_at@, meal.created_at@)
    }
}

/// How a line of what a meal needs is shown.
pub fn ingredient_line_to_response(line: &IngredientLine) -> (r: IngredientLineResponse)
    ensures
        r.shows(*line),
{
    IngredientLineResponse { name: line.name.clone(), qty: copy_text(&line.qty) }
}

/// How a meal is shown.
pub fn meal_to_response(meal: &Meal) -> (r: MealResponse)
    ensures
        r.shows(*meal),
{
    let mut ingredient_lines: Vec<IngredientLineResponse> = Vec::new();
    for i in 0..meal.ingredient_lines.len()
        invariant
            ingredient_lines@.len() == i,
            forall|k: int|
                0 <= k < i ==> (#[trigger] ingredient_lines@[k]).shows(meal.ingredient_lines@[k]),
    {
        ingredient_lines.push(ingredient_line_to_response(&meal.ingredient_lines[i]));
    }
    MealResponse {
        id: uuid_text(meal.id.0),
        date: meal.date.iso_text(),
        slot: meal.slot.as_str().to_owned(),
        name: meal.name.clone(),
        cook: member_to_text(meal.cook),
        ingredient_lines,
        notes: copy_text(&meal.notes),
        created_at: meal.created_at.rfc3339_text(),
    }
}

// ─── Create ───────────────────────────────────────────────────────────────────

/// What is said of a new meal that the rules of the household refuse. Each text
/// is looked at only where what it speaks of is refused.
#[derive(Debug)]
pub struct MealComplaints {
    /// Said of an unknown slot.
    pub slot: String,
    /// Said of a blank name.
    pub name: String,
}

/// Why a new meal is refused, if it is. The checks come in this order: the
/// date, the slot, the cook, the name.
pub open spec fn create_refusal(
    req: CreateMealRequest,
    complaints: MealComplaints,
    date_malformed: bool,
    cook: MemberField,
) -> Option<Refusal> {
    if date_malformed {
        Some(Refusal::unprocessable(date_complaint("date"@, req.date@)))
    } else if req.slot is Some && MealSlot::of_text(req.slot->0@) is None {
        Some(Refusal::unprocessable("slot: "@ + complaints.slot@))
    } else if cook == MemberField::Malformed {
        Some(Refusal::unprocessable("cook: invalid member ID"@))
    } else if blank(req.name@) {
        Some(Refusal::unprocessable(complaints.name@))
    } else {
        None
    }
}

/// Whether the lines are those that a request gives, in their order.
pub open spec fn are_lines_of(
    lines: Seq<IngredientLine>,
    given: Option<Vec<IngredientLineRequest>>,
) -> bool {
    match given {
        None => lines.len() == 0,
        Some(given) => {
            &&& lines.len() == given@.len()
            &&& forall|i: int|
                0 <= i < lines.len() ==> (#[trigger] lines[i]).name == given@[i].name
                    && lines[i].qty == given@[i].qty
        },
    }
}

/// Whether `meal` is the meal that a request plans at `now`.
pub open spec fn is_created(
    meal: Meal,
    req: CreateMealRequest,
    date: int,
    cook: MemberField,
    now: Timestamp,
) -> bool {
    &&& is_version_7(meal.id.0)
    &&& meal.date@ == date
    &&& Some(meal.slot) == (match req.slot {
        Some(text) => MealSlot::of_text(text@),
        None => Some(MealSlot::Dinner),
    })
    &&& meal.name == req.name
    &&& meal.cook == (match cook {
        MemberField::Given(member) => Some(member),
        _ => None,
    })
    &&& are_lines_of(meal.ingredient_lines@, req.ingredient_lines)
    &&& meal.notes == req.notes
    &&& meal.created_at == now
}

/// `POST /api/v1/meals`: the meal that the request plans, or why it is refused.
pub fn create_meal(req: CreateMealRequest, complaints: MealComplaints, now: Timestamp) -> (r:
    Result<Meal, Rejection>)
    ensures
        ({
            let date = parsed_date(req.date@);
            let cook = member_read(req.cook);
            let refusal = create_refusal(req, complaints, date is None, cook);
            match r {
                Ok(meal) => refusal is None && is_created(meal, req, date->0, cook, now),
                Err(rejection) => refusal == Some(rejection@),
            }
        }),
{
    let date = match parse_date("date", req.date.as_str()) {
        Ok(date) => date,
        Err(message) => return Err(Rejection::unprocessable(message)),
    };
    let cook = read_member(&req.cook);
    build_meal(req, date, cook, complaints, now)
}

/// The meal that a request plans, its date and its cook already read.
pub fn build_meal(
    req: CreateMealRequest,
    date: Date,
    cook: MemberField,
    complaints: MealComplaints,
    now: Timestamp,
) -> (r: Result<Meal, Rejection>)
    ensures
        ({
            let refusal = create_refusal(req, complaints, false, cook);
            match r {
                Ok(meal) => refusal is None && is_created(meal, req, date@, cook, now),
                Err(rejection) => refusal == Some(rejection@),
            }
        }),
{
    let slot = match &req.slot {
        None => MealSlot::Dinner,
        Some(text) => match MealSlot::parse(text.as_str()) {
            Some(slot) => slot,
            None => return Err(
                Rejection::unprocessable(join("slot: ", complaints.slot.as_str())),
            ),
        },
    };
    let cook = match cook {
        MemberField::Absent => None,
        MemberField::Given(member) => Some(member),
        MemberField::Malformed => return Err(
            Rejection::unprocessable("cook: invalid member ID".to_owned()),
        ),
    };
    if is_blank(req.name.as_str()) {
        return Err(Rejection::unprocessable(complaints.name));
    }
    let mut ingredient_lines: Vec<IngredientLine> = Vec::new();
    if let Some(given) = &req.ingredient_lines {
        for i in 0..given.len()
            invariant
                ingredient_lines@.len() == i,
                forall|k: int|
                    0 <= k < i ==> (#[trigger] ingredient_lines@[k]).name == given@[k].name
                        && ingredient_lines@[k].qty == given@[k].qty,
        {
            ingredient_lines.push(
                IngredientLine { name: given[i].name.clone(), qty: copy_text(&given[i].qty) },
            );
        }
    }
    Ok(
        Meal {
            id: MealId(new_uuid()),
            date,
            slot,
            name: req.name,
            cook,
            ingredient_lines,
            notes: req.notes,
            created_at: now,
        },
    )
}

/// The answer once storage has been asked to keep the meal: 201 with it, or 500.
pub fn created_meal(meal: &Meal, kept: Result<(), StorageFailure>) -> (r: Result<
    Reply<MealResponse>,
    Rejection,
>)
    ensures
        match r {
            Ok(reply) => kept is Ok && reply.status == StatusCode::Created && reply.body.shows(
                *meal,
            ),
            Err(rejection) => kept is Err && rejection@ == Refusal::internal(),
        },
{
    match kept {
        Ok(_) => Ok(Reply { status: StatusCode::Created, body: meal_to_response(meal) }),
        Err(_) => Err(Rejection::internal()),
    }
}

// ─── Read and remove ──────────────────────────────────────────────────────────

/// `GET /api/v1/meals`: the stretch of days to read, or all meals.
pub fn list_meals_handler(params: ListMealsQuery) -> (r: Result<Option<DateRange>, Rejection>)
    ensures
        range_outcome(r) == range_asked_for(params.from, params.to),
{
    read_range(&params.from, &params.to)
}

/// Whether the responses show the meals one by one.
pub open spec fn show_all(responses: Seq<MealResponse>, meals: Seq<Meal>) -> bool {
    &&& responses.len() == meals.len()
    &&& forall|i: int| 0 <= i < meals.len() ==> (#[trigger] responses[i]).shows(meals[i])
}

/// The answer to a listing once the meals have been read.
pub fn listed_meals(read: Result<Vec<Meal>, StorageFailure>) -> (r: Result<
    Reply<Vec<MealResponse>>,
    Rejection,
>)
    ensures
        match (stored_value(read), outcome(r)) {
            (Ok(meals), Ok(reply)) => reply.status == StatusCode::Success && show_all(
                reply.body@,
                meals@,
            ),
            (Err(refusal), Err(answer)) => answer == refusal,
            _ => false,
        },
{
    let meals = match stored(read) {
        Ok(meals) => meals,
        Err(rejection) => return Err(rejection),
    };
    let mut body: Vec<MealResponse> = Vec::new();
    for i in 0..meals.len()
        invariant
            show_all(body@, meals@.take(i as int)),
    {
        body.push(meal_to_response(&meals[i]));
    }
    proof {
        assert(meals@.take(meals@.len() as int) =~= meals@);
    }
    Ok(Reply { status: StatusCode::Success, body })
}

/// What the meal identifier in a path comes to.
pub open spec fn meal_id_of(text: Seq<char>) -> Result<MealId, Refusal> {
    match identified(parsed_uuid(text), "invalid meal ID"@) {
        Ok(uuid) => Ok(MealId(uuid)),
        Err(refusal) => Err(refusal),
    }
}

/// Reads the meal identifier in a path.
pub fn parse_meal_id(text: &str) -> (r: Result<MealId, Rejection>)
    ensures
        outcome(r) == meal_id_of(text@),
{
    match identify(parse_uuid(text), "invalid meal ID") {
        Ok(uuid) => Ok(MealId(uuid)),
        Err(rejection) => Err(rejection),
    }
}

/// `GET /api/v1/meals/{id}`: the answer once the meal has been read.
pub fn get_meal(read: Result<Option<Meal>, StorageFailure>) -> (r: Result<
    Reply<MealResponse>,
    Rejection,
>)
    ensures
        match (found_row(read, "meal not found"@), outcome(r)) {
            (Ok(meal), Ok(reply)) => reply.status == StatusCode::Success && reply.body.shows(meal),
            (Err(refusal), Err(answer)) => answer == refusal,
            _ => false,
        },
{
    match found(read, "meal not found") {
        Ok(meal) => Ok(Reply { status: StatusCode::Success, body: meal_to_response(&meal) }),
        Err(rejection) => Err(rejection),
    }
}

/// `DELETE /api/v1/meals/{id}`: the answer once storage has been asked to remove
/// the meal.
pub fn delete_meal_handler(id: MealId, call: Result<bool, StorageFailure>) -> (r: Result<
    Reply<DeletedResponse>,
    Rejection,
>)
    ensures
        match (changed_row(call, "meal not found"@), outcome(r)) {
            (Ok(_), Ok(reply)) => {
                &&& reply.status == StatusCode::Success
                &&& writes_uuid(reply.body.id@, id.0)
                &&& reply.body.deleted
            },
            (Err(refusal), Err(answer)) => answer == refusal,
            _ => false,
        },
{
    deleted(id.0, call, "meal not found")
}

/// A meal is addressed by the identifier it is shown with: a path that holds
/// it names that very meal.
pub proof fn shown_meal_is_addressable(response: MealResponse, meal: Meal)
    requires
        response.shows(meal),
    ensures
        meal_id_of(response.id@) == Ok::<_, Refusal>(meal.id),
{
}

} // verus!
