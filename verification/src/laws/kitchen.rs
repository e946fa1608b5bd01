//! Meals, grocery lists and the pantry.

use vstd::prelude::*;

use crate::api::fields::{DateRange, MemberField};
use crate::api::grocery::{
    checked_ids, clear_checked, cleared_items, create_grocery_item, create_grocery_list,
    created_grocery_item, created_grocery_list, current_week_bounds, delete_grocery_item_handler,
    existing_list, generate_grocery_items, generated_items, get_grocery_list,
    grocery_item_to_response, grocery_list_to_response, list_grocery_items_handler,
    list_grocery_lists_handler, parse_grocery_item_id, parse_grocery_list_id, patch_grocery_item,
    plan_inputs, removals, show_items, CheckedResponse, ClearCheckedResponse,
    CreateGroceryItemRequest, CreateGroceryListRequest, GenerateQuery, GenerateResponse,
    GroceryItemResponse, GroceryListResponse, PatchGroceryItemRequest, PlanInputs,
};
use crate::api::meal::{
    build_meal, create_meal, created_meal, delete_meal_handler, get_meal,
    ingredient_line_to_response, list_meals_handler, listed_meals, meal_to_response, parse_meal_id,
    CreateMealRequest, IngredientLineResponse, ListMealsQuery, MealComplaints, MealResponse,
};
use crate::api::pantry::{
    create_pantry_item, created_pantry_item, delete_pantry_item_handler,
    list_pantry_items_handler, pantry_item_to_response, parse_pantry_item_id,
    CreatePantryItemRequest, PantryItemResponse,
};
use crate::dates::{parsed_date, Date, Timestamp};
use crate::ids::{
    hyphenated, is_version_7, parsed_uuid, GroceryItemId, GroceryListId, MealId, PantryItemId,
};
use crate::laws::tasks::may_tell_member;
use crate::laws::terms::{
    agree, answers_removal, is_400, is_404, is_422, is_bare_500, is_unfound, says_something,
    tells_day, tells_id, tells_time,
};
use crate::model::grocery::{GroceryItem, GroceryList, GrocerySource};
use crate::model::meal::{IngredientLine, Meal, MealSlot};
use crate::model::pantry::PantryItem;
use crate::reply::{DeletedResponse, Rejection, Reply, StatusCode, StorageFailure};
use crate::text::blank;

verus! {

// ─── Days ─────────────────────────────────────────────────────────────────────

/// What is said of a text that is no date.
pub open spec fn complaint_about(text: Seq<char>) -> Seq<char> {
    "date"@ + " '"@ + text + "': expected YYYY-MM-DD"@
}

/// Whether a rejection says what is wrong with the two ends of a stretch of days.
pub open spec fn refuses_range(
    rejection: Rejection,
    from: Option<String>,
    to: Option<String>,
) -> bool {
    if from is Some && to is Some {
        if parsed_date((from->0)@) is None {
            is_400(rejection, complaint_about((from->0)@))
        } else {
            is_400(rejection, complaint_about((to->0)@))
        }
    } else {
        is_400(rejection, "from and to must both be provided or both absent"@)
    }
}

/// Whether the two ends of a stretch of days can be taken: both are dates, or
/// neither is there.
pub open spec fn range_can_be_taken(from: Option<String>, to: Option<String>) -> bool {
    &&& from is Some <==> to is Some
    &&& from is Some ==> parsed_date((from->0)@) is Some
    &&& to is Some ==> parsed_date((to->0)@) is Some
}

/// Meals are listed between the two days that the query names, or all of them if
/// it names none.
pub proof fn meals_are_listed_between_the_days_named(
    params: ListMealsQuery,
    r: Result<Option<DateRange>, Rejection>,
)
    requires
        call_ensures(list_meals_handler, (params,), r),
    ensures
        r is Ok <==> range_can_be_taken(params.from, params.to),
        r matches Ok(range) ==> {
            &&& range is Some <==> params.from is Some
            &&& range is Some ==> parsed_date((params.from->0)@) == Some(range->0.from@)
            &&& range is Some ==> parsed_date((params.to->0)@) == Some(range->0.to@)
        },
        r matches Err(rejection) ==> refuses_range(rejection, params.from, params.to),
{
}

// ─── Meals ────────────────────────────────────────────────────────────────────

/// The name of a slot.
pub open spec fn is_name_of(text: Seq<char>, slot: MealSlot) -> bool {
    &&& slot is Dinner ==> text == "dinner"@
    &&& slot is Breakfast ==> text == "breakfast"@
    &&& slot is Lunch ==> text == "lunch"@
    &&& slot is Other ==> text == "other"@
}

/// Whether a text names a slot.
pub open spec fn is_a_name(text: Seq<char>) -> bool {
    text == "dinner"@ || text == "breakfast"@ || text == "lunch"@ || text == "other"@
}

/// A text is read as the slot it names, and as none if it names none; every slot is
/// written as its name.
pub proof fn slots_go_by_their_names(
    text: &str,
    r: Option<MealSlot>,
    slot: MealSlot,
    name: &'static str,
)
    requires
        call_ensures(MealSlot::parse, (text,), r),
        call_ensures(MealSlot::as_str, (slot,), name),
    ensures
        r == Some(MealSlot::Dinner) <==> text@ == "dinner"@,
        r == Some(MealSlot::Breakfast) <==> text@ == "breakfast"@,
        r == Some(MealSlot::Lunch) <==> text@ == "lunch"@,
        r == Some(MealSlot::Other) <==> text@ == "other"@,
        is_name_of(name@, slot),
{
    reveal_strlit("dinner");
    reveal_strlit("breakfast");
    reveal_strlit("lunch");
    reveal_strlit("other");
    assert("dinner"@.len() == 6 && "breakfast"@.len() == 9 && "lunch"@.len() == 5 && "other"@.len()
        == 5);
    assert("lunch"@[0] != "other"@[0]);
}

/// Whether a response tells a meal, field by field.
pub open spec fn tells_meal(shown: MealResponse, meal: Meal) -> bool {
    &&& tells_id(shown.id@, meal.id.0)
    &&& tells_day(shown.date@, meal.date@)
    &&& is_name_of(shown.slot@, meal.slot)
    &&& shown.name@ == meal.name@
    &&& may_tell_member(shown.cook, meal.cook)
    &&& shown.ingredient_lines@.len() == meal.ingredient_lines@.len()
    &&& forall|k: int|
        0 <= k < meal.ingredient_lines@.len() ==> {
            &&& (#[trigger] shown.ingredient_lines@[k]).name@ == meal.ingredient_lines@[k].name@
            &&& agree(shown.ingredient_lines@[k].qty, meal.ingredient_lines@[k].qty)
        }
    &&& agree(shown.notes, meal.notes)
    &&& tells_time(shown.created_at@, meal.created_at)
}

proof fn shown_meal_is_told(shown: MealResponse, meal: Meal)
    requires
        shown.shows(meal),
    ensures
        tells_meal(shown, meal),
{
    assert forall|k: int| 0 <= k < meal.ingredient_lines@.len() implies {
        &&& (#[trigger] shown.ingredient_lines@[k]).name@ == meal.ingredient_lines@[k].name@
        &&& agree(shown.ingredient_lines@[k].qty, meal.ingredient_lines@[k].qty)
    } by {
        assert(shown.ingredient_lines@[k].shows(meal.ingredient_lines@[k]));
    }
}

/// A response tells every field of its meal, and every line of what it needs.
pub proof fn response_tells_the_meal(
    meal: Meal,
    shown: MealResponse,
    line: IngredientLine,
    shown_line: IngredientLineResponse,
)
    requires
        call_ensures(meal_to_response, (&meal,), shown),
        call_ensures(ingredient_line_to_response, (&line,), shown_line),
    ensures
        tells_meal(shown, meal),
        shown_line.name@ == line.name@,
        agree(shown_line.qty, line.qty),
{
    shown_meal_is_told(shown, meal);
}

/// Whether a meal is what a request plans, all but its day and its cook.
pub open spec fn is_meal_asked_for(meal: Meal, req: CreateMealRequest, now: Timestamp) -> bool {
    &&& is_version_7(meal.id.0)
    &&& req.slot is None ==> meal.slot is Dinner
    &&& req.slot is Some ==> is_name_of((req.slot->0)@, meal.slot)
    &&& meal.name@ == req.name@
    &&& req.ingredient_lines is None ==> meal.ingredient_lines@.len() == 0
    &&& req.ingredient_lines is Some ==> {
        &&& meal.ingredient_lines@.len() == (req.ingredient_lines->0)@.len()
        &&& forall|k: int|
            0 <= k < meal.ingredient_lines@.len() ==> {
                &&& (#[trigger] meal.ingredient_lines@[k]).name@ == (
                req.ingredient_lines->0)@[k].name@
                &&& agree(meal.ingredient_lines@[k].qty, (req.ingredient_lines->0)@[k].qty)
            }
    }
    &&& agree(meal.notes, req.notes)
    &&& meal.created_at == now
}

/// A meal is planned exactly if the request names a day, no unknown slot, no cook
/// that is none, and what there is; it is then what the request says.
pub proof fn new_meal_is_what_was_asked_for(
    req: CreateMealRequest,
    complaints: MealComplaints,
    now: Timestamp,
    r: Result<Meal, Rejection>,
)
    requires
        call_ensures(create_meal, (req, complaints, now), r),
    ensures
        ({
            let day = parsed_date(req.date@);
            let slot = req.slot is Some ==> is_a_name((req.slot->0)@);
            let cook = req.cook is Some ==> parsed_uuid((req.cook->0)@) is Some;
            let name = says_something(req.name@);
            &&& r is Ok <==> day is Some && slot && cook && name
            &&& r matches Ok(meal) ==> {
                &&& is_meal_asked_for(meal, req, now)
                &&& Some(meal.date@) == day
                &&& meal.cook is Some <==> req.cook is Some
                &&& meal.cook is Some ==> Some((meal.cook->0).0) == parsed_uuid((req.cook->0)@)
            }
            &&& r matches Err(rejection) ==> {
                &&& day is None ==> is_422(rejection, complaint_about(req.date@))
                &&& day is Some && !slot ==> is_422(rejection, "slot: "@ + complaints.slot@)
                &&& day is Some && slot && !cook ==> is_422(rejection, "cook: invalid member ID"@)
                &&& day is Some && slot && cook ==> is_422(rejection, complaints.name@)
            }
        }),
{
    if says_something(req.name@) {
        assert(!blank(req.name@));
    }
}

/// The same of a request whose day and cook are already read.
pub proof fn meal_takes_the_day_and_the_cook_as_read(
    req: CreateMealRequest,
    date: Date,
    cook: MemberField,
    complaints: MealComplaints,
    now: Timestamp,
    r: Result<Meal, Rejection>,
)
    requires
        call_ensures(build_meal, (req, date, cook, complaints, now), r),
    ensures
        r is Ok <==> {
            &&& req.slot is Some ==> is_a_name((req.slot->0)@)
            &&& cook !is Malformed
            &&& says_something(req.name@)
        },
        r matches Ok(meal) ==> {
            &&& is_meal_asked_for(meal, req, now)
            &&& meal.date@ == date@
            &&& cook is Absent ==> meal.cook is None
            &&& cook matches MemberField::Given(member) ==> meal.cook == Some(member)
        },
{
    if says_something(req.name@) {
        assert(!blank(req.name@));
    }
}

/// A meal that was kept is answered with 201 and told; one that was not, with a
/// bare 500.
pub proof fn kept_meal_is_told(
    meal: Meal,
    kept: Result<(), StorageFailure>,
    r: Result<Reply<MealResponse>, Rejection>,
)
    requires
        call_ensures(created_meal, (&meal, kept), r),
    ensures
        r is Ok <==> kept is Ok,
        r matches Ok(reply) ==> reply.status == StatusCode::Created && tells_meal(reply.body, meal),
        r matches Err(rejection) ==> is_bare_500(rejection),
{
    if let Ok(reply) = r {
        shown_meal_is_told(reply.body, meal);
    }
}

/// Every meal that a listing read is told, in order.
pub proof fn listed_meals_are_told(
    read: Result<Vec<Meal>, StorageFailure>,
    r: Result<Reply<Vec<MealResponse>>, Rejection>,
)
    requires
        call_ensures(listed_meals, (read,), r),
    ensures
        r is Ok <==> read is Ok,
        r matches Ok(reply) ==> {
            &&& reply.status == StatusCode::Success
            &&& reply.body@.len() == (read->Ok_0)@.len()
            &&& forall|k: int|
                0 <= k < reply.body@.len() ==> tells_meal(
                    #[trigger] reply.body@[k],
                    (read->Ok_0)@[k],
                )
        },
        r matches Err(rejection) ==> is_bare_500(rejection),
{
    if let Ok(reply) = r {
        assert forall|k: int| 0 <= k < reply.body@.len() implies tells_meal(
            #[trigger] reply.body@[k],
            (read->Ok_0)@[k],
        ) by {
            shown_meal_is_told(reply.body@[k], (read->Ok_0)@[k]);
        }
    }
}

/// A path that names no meal is refused; a meal that was found is told; one that is
/// removed is named.
pub proof fn meals_are_found_and_removed(
    text: &str,
    named: Result<MealId, Rejection>,
    read: Result<Option<Meal>, StorageFailure>,
    told: Result<Reply<MealResponse>, Rejection>,
    id: MealId,
    call: Result<bool, StorageFailure>,
    removed: Result<Reply<DeletedResponse>, Rejection>,
)
    requires
        call_ensures(parse_meal_id, (text,), named),
        call_ensures(get_meal, (read,), told),
        call_ensures(delete_meal_handler, (id, call), removed),
    ensures
        named is Ok <==> parsed_uuid(text@) is Some,
        named is Ok ==> Some((named->Ok_0).0) == parsed_uuid(text@),
        named matches Err(rejection) ==> is_400(rejection, "invalid meal ID"@),
        told is Ok <==> read is Ok && read->Ok_0 is Some,
        told matches Ok(reply) ==> reply.status == StatusCode::Success && tells_meal(
            reply.body,
            (read->Ok_0)->0,
        ),
        told matches Err(rejection) ==> is_unfound(rejection, read, "meal not found"@),
        answers_removal(removed, id.0, call, "meal not found"@),
{
    if let Ok(reply) = told {
        shown_meal_is_told(reply.body, (read->Ok_0)->0);
    }
}

// ─── Grocery lists and items ──────────────────────────────────────────────────

/// Every source is written as its name.
pub proof fn sources_are_written_as_their_names(source: GrocerySource, r: &'static str)
    requires
        call_ensures(GrocerySource::as_str, (source,), r),
    ensures
        source is Manual ==> r@ == "manual"@,
        source is FromMeal ==> r@ == "from_meal"@,
{
}

/// Whether a response tells a list, field by field.
pub open spec fn tells_list(shown: GroceryListResponse, list: GroceryList) -> bool {
    &&& tells_id(shown.id@, list.id.0)
    &&& shown.name@ == list.name@
    &&& tells_time(shown.created_at@, list.created_at)
}

/// Whether a response tells an item, field by field.
pub open spec fn tells_item(shown: GroceryItemResponse, item: GroceryItem) -> bool {
    &&& tells_id(shown.id@, item.id.0)
    &&& tells_id(shown.list_id@, item.list_id.0)
    &&& shown.name@ == item.name@
    &&& agree(shown.qty, item.qty)
    &&& agree(shown.category, item.category)
    &&& shown.checked == item.checked
    &&& item.source is Manual ==> shown.source@ == "manual"@
    &&& item.source is FromMeal ==> shown.source@ == "from_meal"@
    &&& shown.source_meal_id is Some <==> item.source_meal_id is Some
    &&& item.source_meal_id is Some ==> (shown.source_meal_id->0)@ == hyphenated(
        (item.source_meal_id->0).0,
    )
    &&& tells_time(shown.created_at@, item.created_at)
}

/// Whether the responses tell the items one by one.
pub open spec fn tell_items(shown: Seq<GroceryItemResponse>, items: Seq<GroceryItem>) -> bool {
    &&& shown.len() == items.len()
    &&& forall|k: int| 0 <= k < items.len() ==> tells_item(#[trigger] shown[k], items[k])
}

proof fn shown_items_are_told(shown: Seq<GroceryItemResponse>, items: Seq<GroceryItem>)
    requires
        show_items(shown, items),
    ensures
        tell_items(shown, items),
{
    assert forall|k: int| 0 <= k < items.len() implies tells_item(#[trigger] shown[k], items[k]) by {
        assert(shown[k].shows(items[k]));
    }
}

/// A response tells every field of its list, and of its item.
pub proof fn responses_tell_lists_and_items(
    list: GroceryList,
    shown_list: GroceryListResponse,
    item: GroceryItem,
    shown_item: GroceryItemResponse,
)
    requires
        call_ensures(grocery_list_to_response, (&list,), shown_list),
        call_ensures(grocery_item_to_response, (&item,), shown_item),
    ensures
        tells_list(shown_list, list),
        tells_item(shown_item, item),
{
}

/// A list is made exactly if it has a name, and has that name.
pub proof fn new_list_has_its_name(
    req: CreateGroceryListRequest,
    blank_name: String,
    now: Timestamp,
    r: Result<GroceryList, Rejection>,
)
    requires
        call_ensures(create_grocery_list, (req, blank_name, now), r),
    ensures
        r is Ok <==> says_something(req.name@),
        r matches Ok(list) ==> {
            &&& is_version_7(list.id.0)
            &&& list.name@ == req.name@
            &&& list.created_at == now
        },
        r matches Err(rejection) ==> is_422(rejection, blank_name@),
{
    if says_something(req.name@) {
        assert(!blank(req.name@));
    }
}

/// Lists that were kept, read or found are told; a path that names none is refused.
pub proof fn lists_are_told(
    list: GroceryList,
    kept: Result<(), StorageFailure>,
    created: Result<Reply<GroceryListResponse>, Rejection>,
    read: Result<Vec<GroceryList>, StorageFailure>,
    all: Result<Reply<Vec<GroceryListResponse>>, Rejection>,
    text: &str,
    named: Result<GroceryListId, Rejection>,
    one: Result<Option<GroceryList>, StorageFailure>,
    told: Result<Reply<GroceryListResponse>, Rejection>,
    there: Result<(), Rejection>,
)
    requires
        call_ensures(created_grocery_list, (&list, kept), created),
        call_ensures(list_grocery_lists_handler, (read,), all),
        call_ensures(parse_grocery_list_id, (text,), named),
        call_ensures(get_grocery_list, (one,), told),
        call_ensures(existing_list, (one,), there),
    ensures
        created is Ok <==> kept is Ok,
        created matches Ok(reply) ==> reply.status == StatusCode::Created && tells_list(
            reply.body,
            list,
        ),
        created matches Err(rejection) ==> is_bare_500(rejection),
        all is Ok <==> read is Ok,
        all matches Ok(reply) ==> {
            &&& reply.status == StatusCode::Success
            &&& reply.body@.len() == (read->Ok_0)@.len()
            &&& forall|k: int|
                0 <= k < reply.body@.len() ==> tells_list(
                    #[trigger] reply.body@[k],
                    (read->Ok_0)@[k],
                )
        },
        all matches Err(rejection) ==> is_bare_500(rejection),
        named is Ok <==> parsed_uuid(text@) is Some,
        named is Ok ==> Some((named->Ok_0).0) == parsed_uuid(text@),
        named matches Err(rejection) ==> is_400(rejection, "invalid grocery list ID"@),
        told is Ok <==> one is Ok && one->Ok_0 is Some,
        told matches Ok(reply) ==> reply.status == StatusCode::Success && tells_list(
            reply.body,
            (one->Ok_0)->0,
        ),
        told matches Err(rejection) ==> is_unfound(rejection, one, "grocery list not found"@),
        there is Ok <==> one is Ok && one->Ok_0 is Some,
        there matches Err(rejection) ==> is_unfound(rejection, one, "grocery list not found"@),
{
    if let Ok(reply) = all {
        assert forall|k: int| 0 <= k < reply.body@.len() implies tells_list(
            #[trigger] reply.body@[k],
            (read->Ok_0)@[k],
        ) by {
            assert(reply.body@[k].shows((read->Ok_0)@[k]));
        }
    }
}

/// An item comes onto a list exactly if the list is there and the item has a name;
/// it is then what the request says, written down by hand and not checked off.
pub proof fn new_item_is_what_was_asked_for(
    list_id: GroceryListId,
    list: Result<Option<GroceryList>, StorageFailure>,
    req: CreateGroceryItemRequest,
    blank_name: String,
    now: Timestamp,
    r: Result<GroceryItem, Rejection>,
)
    requires
        call_ensures(create_grocery_item, (list_id, list, req, blank_name, now), r),
    ensures
        r is Ok <==> list is Ok && list->Ok_0 is Some && says_something(req.name@),
        r matches Ok(item) ==> {
            &&& is_version_7(item.id.0)
            &&& item.list_id == list_id
            &&& item.name@ == req.name@
            &&& agree(item.qty, req.qty)
            &&& agree(item.category, req.category)
            &&& !item.checked
            &&& item.source is Manual
            &&& item.source_meal_id is None
            &&& item.created_at == now
        },
        r matches Err(rejection) ==> {
            &&& list is Ok && list->Ok_0 is Some ==> is_422(rejection, blank_name@)
            &&& !(list is Ok && list->Ok_0 is Some) ==> is_unfound(
                rejection,
                list,
                "grocery list not found"@,
            )
        },
{
    if says_something(req.name@) {
        assert(!blank(req.name@));
    }
}

/// Items that were kept or read are told; a path that names none is refused; one
/// that is removed is named.
pub proof fn items_are_told(
    item: GroceryItem,
    kept: Result<(), StorageFailure>,
    created: Result<Reply<GroceryItemResponse>, Rejection>,
    read: Result<Vec<GroceryItem>, StorageFailure>,
    all: Result<Reply<Vec<GroceryItemResponse>>, Rejection>,
    text: &str,
    named: Result<GroceryItemId, Rejection>,
    id: GroceryItemId,
    call: Result<bool, StorageFailure>,
    removed: Result<Reply<DeletedResponse>, Rejection>,
)
    requires
        call_ensures(created_grocery_item, (&item, kept), created),
        call_ensures(list_grocery_items_handler, (read,), all),
        call_ensures(parse_grocery_item_id, (text,), named),
        call_ensures(delete_grocery_item_handler, (id, call), removed),
    ensures
        created is Ok <==> kept is Ok,
        created matches Ok(reply) ==> reply.status == StatusCode::Created && tells_item(
            reply.body,
            item,
        ),
        created matches Err(rejection) ==> is_bare_500(rejection),
        all is Ok <==> read is Ok,
        all matches Ok(reply) ==> reply.status == StatusCode::Success && tell_items(
            reply.body@,
            (read->Ok_0)@,
        ),
        all matches Err(rejection) ==> is_bare_500(rejection),
        named is Ok <==> parsed_uuid(text@) is Some,
        named is Ok ==> Some((named->Ok_0).0) == parsed_uuid(text@),
        named matches Err(rejection) ==> is_400(rejection, "invalid grocery item ID"@),
        answers_removal(removed, id.0, call, "grocery item not found"@),
{
    if let Ok(reply) = all {
        shown_items_are_told(reply.body@, (read->Ok_0)@);
    }
}

/// An item is checked off, or back on, as the request says.
pub proof fn item_is_checked_as_asked_for(
    id: GroceryItemId,
    req: PatchGroceryItemRequest,
    call: Result<bool, StorageFailure>,
    r: Result<Reply<CheckedResponse>, Rejection>,
)
    requires
        call_ensures(patch_grocery_item, (id, req, call), r),
    ensures
        r is Ok <==> call is Ok && call->Ok_0,
        r matches Ok(reply) ==> {
            &&& reply.status == StatusCode::Success
            &&& tells_id(reply.body.id@, id.0)
            &&& reply.body.checked == req.checked
        },
        r matches Err(rejection) ==> is_unfound(rejection, call, "grocery item not found"@),
{
}

// ─── Additions and removals ───────────────────────────────────────────────────

/// The current week goes from its Monday to its Sunday and holds the day of the
/// clock.
pub proof fn current_week_holds_today(now: Timestamp, range: DateRange)
    requires
        call_ensures(current_week_bounds, (now,), range),
    ensures
        range.from@ % 7 == 0,
        range.to@ == range.from@ + 6,
        range.from@ <= now@.julian_day <= range.to@,
{
}

/// Additions are planned for the days that the query names, or for the current week
/// if it names none; the list must be there.
pub proof fn additions_are_planned_for_the_days_named(
    list: Result<Option<GroceryList>, StorageFailure>,
    params: GenerateQuery,
    now: Timestamp,
    r: Result<DateRange, Rejection>,
)
    requires
        call_ensures(generate_grocery_items, (list, params, now), r),
    ensures
        r is Ok <==> list is Ok && list->Ok_0 is Some && range_can_be_taken(params.from, params.to),
        r matches Ok(range) ==> {
            &&& params.from is Some ==> parsed_date((params.from->0)@) == Some(range.from@)
            &&& params.from is Some ==> parsed_date((params.to->0)@) == Some(range.to@)
            &&& params.from is None ==> {
                &&& range.from@ % 7 == 0
                &&& range.to@ == range.from@ + 6
                &&& range.from@ <= now@.julian_day <= range.to@
            }
        },
        r matches Err(rejection) ==> {
            &&& list is Ok && list->Ok_0 is Some ==> refuses_range(
                rejection,
                params.from,
                params.to,
            )
            &&& !(list is Ok && list->Ok_0 is Some) ==> is_unfound(
                rejection,
                list,
                "grocery list not found"@,
            )
        },
{
}

/// Additions are planned from all that was read, and not at all if something could
/// not be.
pub proof fn additions_are_planned_from_all_that_was_read(
    meals: Result<Vec<Meal>, StorageFailure>,
    pantry: Result<Vec<PantryItem>, StorageFailure>,
    existing: Result<Vec<GroceryItem>, StorageFailure>,
    r: Result<PlanInputs, Rejection>,
)
    requires
        call_ensures(plan_inputs, (meals, pantry, existing), r),
    ensures
        r is Ok <==> meals is Ok && pantry is Ok && existing is Ok,
        r matches Ok(inputs) ==> {
            &&& inputs.meals@ == (meals->Ok_0)@
            &&& inputs.pantry@ == (pantry->Ok_0)@
            &&& inputs.existing@ == (existing->Ok_0)@
        },
        r matches Err(rejection) ==> is_bare_500(rejection),
{
}

/// The answer tells the days and just the additions.
pub proof fn additions_are_told(
    range: DateRange,
    additions: Vec<GroceryItem>,
    kept: Result<(), StorageFailure>,
    r: Result<Reply<GenerateResponse>, Rejection>,
)
    requires
        call_ensures(generated_items, (range, &additions, kept), r),
    ensures
        r is Ok <==> kept is Ok,
        r matches Ok(reply) ==> {
            &&& reply.status == StatusCode::Success
            &&& tells_day(reply.body.from@, range.from@)
            &&& tells_day(reply.body.to@, range.to@)
            &&& tell_items(reply.body.added@, additions@)
        },
        r matches Err(rejection) ==> is_bare_500(rejection),
{
    if let Ok(reply) = r {
        shown_items_are_told(reply.body.added@, additions@);
    }
}

proof fn checked_are_a_filter(items: Seq<GroceryItem>)
    ensures
        checked_ids(items) == items.filter(|i: GroceryItem| i.checked).map_values(
            |i: GroceryItem| i.id,
        ),
    decreases items.len(),
{
    reveal(Seq::filter);
    let checked = items.filter(|i: GroceryItem| i.checked);
    if items.len() > 0 {
        checked_are_a_filter(items.drop_last());
        let rest = items.drop_last().filter(|i: GroceryItem| i.checked);
        if items.last().checked {
            assert(checked.map_values(|i: GroceryItem| i.id) =~= rest.map_values(
                |i: GroceryItem| i.id,
            ).push(items.last().id));
        }
    } else {
        assert(checked.map_values(|i: GroceryItem| i.id) =~= Seq::empty());
    }
}

/// Clearing a list removes each of its items that is checked off, in their order,
/// and no other.
pub proof fn each_checked_item_is_cleared(
    list: Result<Option<GroceryList>, StorageFailure>,
    items: Result<Vec<GroceryItem>, StorageFailure>,
    r: Result<Vec<GroceryItemId>, Rejection>,
)
    requires
        call_ensures(clear_checked, (list, items), r),
    ensures
        r is Ok <==> list is Ok && list->Ok_0 is Some && items is Ok,
        r matches Ok(ids) ==> ids@ == (items->Ok_0)@.filter(
            |i: GroceryItem| i.checked,
        ).map_values(|i: GroceryItem| i.id),
        r matches Err(rejection) ==> {
            &&& list is Ok && list->Ok_0 is None ==> is_404(rejection, "grocery list not found"@)
            &&& !(list is Ok && list->Ok_0 is None) ==> is_bare_500(rejection)
        },
{
    if r is Ok {
        checked_are_a_filter((items->Ok_0)@);
    }
}

proof fn removals_are_a_filter(calls: Seq<Result<bool, StorageFailure>>)
    ensures
        removals(calls) == calls.filter(
            |c: Result<bool, StorageFailure>| c is Ok && c->Ok_0,
        ).len(),
    decreases calls.len(),
{
    reveal(Seq::filter);
    if calls.len() > 0 {
        removals_are_a_filter(calls.drop_last());
    }
}

/// The items that were removed are counted, each of them and no other; if one
/// removal failed, the answer is a bare 500.
pub proof fn removed_items_are_counted(
    calls: Vec<Result<bool, StorageFailure>>,
    r: Result<Reply<ClearCheckedResponse>, Rejection>,
)
    requires
        call_ensures(cleared_items, (&calls,), r),
    ensures
        r is Ok <==> forall|k: int| 0 <= k < calls@.len() ==> (#[trigger] calls@[k]) is Ok,
        r matches Ok(reply) ==> {
            &&& reply.status == StatusCode::Success
            &&& reply.body.removed == calls@.filter(
                |c: Result<bool, StorageFailure>| c is Ok && c->Ok_0,
            ).len()
        },
        r matches Err(rejection) ==> is_bare_500(rejection),
{
    removals_are_a_filter(calls@);
}

// ─── Pantry ───────────────────────────────────────────────────────────────────

/// Whether a response tells a staple, field by field.
pub open spec fn tells_staple(shown: PantryItemResponse, item: PantryItem) -> bool {
    &&& tells_id(shown.id@, item.id.0)
    &&& shown.name@ == item.name@
    &&& agree(shown.note, item.note)
    &&& tells_time(shown.created_at@, item.created_at)
}

/// A staple is written down exactly if it has a name, as the request says.
pub proof fn new_staple_is_what_was_asked_for(
    req: CreatePantryItemRequest,
    blank_name: String,
    now: Timestamp,
    r: Result<PantryItem, Rejection>,
)
    requires
        call_ensures(create_pantry_item, (req, blank_name, now), r),
    ensures
        r is Ok <==> says_something(req.name@),
        r matches Ok(item) ==> {
            &&& is_version_7(item.id.0)
            &&& item.name@ == req.name@
            &&& agree(item.note, req.note)
            &&& item.created_at == now
        },
        r matches Err(rejection) ==> is_422(rejection, blank_name@),
{
    if says_something(req.name@) {
        assert(!blank(req.name@));
    }
}

/// Staples that were kept or read are told; a path that names none is refused; one
/// that is removed is named.
pub proof fn staples_are_told(
    item: PantryItem,
    shown: PantryItemResponse,
    kept: Result<(), StorageFailure>,
    created: Result<Reply<PantryItemResponse>, Rejection>,
    read: Result<Vec<PantryItem>, StorageFailure>,
    all: Result<Reply<Vec<PantryItemResponse>>, Rejection>,
    text: &str,
    named: Result<PantryItemId, Rejection>,
    id: PantryItemId,
    call: Result<bool, StorageFailure>,
    removed: Result<Reply<DeletedResponse>, Rejection>,
)
    requires
        call_ensures(pantry_item_to_response, (&item,), shown),
        call_ensures(created_pantry_item, (&item, kept), created),
        call_ensures(list_pantry_items_handler, (read,), all),
        call_ensures(parse_pantry_item_id, (text,), named),
        call_ensures(delete_pantry_item_handler, (id, call), removed),
    ensures
        tells_staple(shown, item),
        created is Ok <==> kept is Ok,
        created matches Ok(reply) ==> reply.status == StatusCode::Created && tells_staple(
            reply.body,
            item,
        ),
        created matches Err(rejection) ==> is_bare_500(rejection),
        all is Ok <==> read is Ok,
        all matches Ok(reply) ==> {
            &&& reply.status == StatusCode::Success
            &&& reply.body@.len() == (read->Ok_0)@.len()
            &&& forall|k: int|
                0 <= k < reply.body@.len() ==> tells_staple(
                    #[trigger] reply.body@[k],
                    (read->Ok_0)@[k],
                )
        },
        all matches Err(rejection) ==> is_bare_500(rejection),
        named is Ok <==> parsed_uuid(text@) is Some,
        named is Ok ==> Some((named->Ok_0).0) == parsed_uuid(text@),
        named matches Err(rejection) ==> is_400(rejection, "invalid pantry item ID"@),
        answers_removal(removed, id.0, call, "pantry item not found"@),
{
    if let Ok(reply) = all {
        assert forall|k: int| 0 <= k < reply.body@.len() implies tells_staple(
            #[trigger] reply.body@[k],
            (read->Ok_0)@[k],
        ) by {
            assert(reply.body@[k].shows((read->Ok_0)@[k]));
        }
    }
}

} // verus!
