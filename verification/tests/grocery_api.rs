// The grocery endpoints, driven phase by phase against a kitchen in memory.

use amity_service::api::fields::{read_time, TimeField};
use amity_service::api::grocery::{
    clear_checked, cleared_items, create_grocery_item, create_grocery_list, created_grocery_item,
    created_grocery_list, current_week_bounds, delete_grocery_item_handler, existing_list,
    generate_grocery_items, generated_items, get_grocery_list, list_grocery_items_handler,
    list_grocery_lists_handler, parse_grocery_item_id, parse_grocery_list_id, patch_grocery_item,
    plan_inputs, CheckedResponse, ClearCheckedResponse, CreateGroceryItemRequest,
    CreateGroceryListRequest, GenerateQuery, GenerateResponse, GroceryItemResponse,
    GroceryListResponse, PatchGroceryItemRequest, PlanInputs,
};
use amity_service::api::meal::{
    create_meal, CreateMealRequest, IngredientLineRequest, MealComplaints,
};
use amity_service::api::pantry::{create_pantry_item, CreatePantryItemRequest};
use amity_service::dates::Timestamp;
use amity_service::ids::{GroceryItemId, GroceryListId};
use amity_service::model::grocery::{GroceryItem, GroceryList, GrocerySource};
use amity_service::model::meal::Meal;
use amity_service::model::pantry::PantryItem;
use amity_service::reply::{DeletedResponse, Rejection, Reply, StatusCode, StorageFailure};


fn at(text: &str) -> Timestamp {
    match read_time(&Some(text.to_string())) {
        TimeField::At(t) => t,
        _ => panic!("{text} is no time"),
    }
}

fn now() -> Timestamp {
    at("2026-05-27T10:00:00Z")
}

fn meal_words() -> MealComplaints {
    MealComplaints { slot: "no such slot".to_string(), name: "a name is needed".to_string() }
}

fn some(text: &str) -> Option<String> {
    Some(text.to_string())
}

fn failure() -> StorageFailure {
    StorageFailure { message: "disk full".to_string() }
}

const UNKNOWN: &str = "018f1a2b-0000-7000-8000-000000000099";

#[derive(Default)]
struct Kitchen {
    lists: Vec<GroceryList>,
    items: Vec<GroceryItem>,
    meals: Vec<Meal>,
    pantry: Vec<PantryItem>,
}

impl Kitchen {
    fn list_row(&self, id: GroceryListId) -> Option<GroceryList> {
        self.lists.iter().find(|l| l.id == id).cloned()
    }

    fn items_of(&self, id: GroceryListId) -> Vec<GroceryItem> {
        self.items.iter().filter(|i| i.list_id == id).cloned().collect()
    }

    fn post_list(&mut self, name: &str) -> Result<Reply<GroceryListResponse>, Rejection> {
        let req = CreateGroceryListRequest { name: name.to_string() };
        let list = create_grocery_list(req, "a name is needed".to_string(), now())?;
        self.lists.push(list.clone());
        created_grocery_list(&list, Ok(()))
    }

    fn get_list(&self, id: &str) -> Result<Reply<GroceryListResponse>, Rejection> {
        let id = parse_grocery_list_id(id)?;
        get_grocery_list(Ok(self.list_row(id)))
    }

    fn post_item(
        &mut self,
        list: &str,
        req: CreateGroceryItemRequest,
    ) -> Result<Reply<GroceryItemResponse>, Rejection> {
        let id = parse_grocery_list_id(list)?;
        let list = Ok(self.list_row(id));
        let item = create_grocery_item(id, list, req, "a name is needed".to_string(), now())?;
        self.items.push(item.clone());
        created_grocery_item(&item, Ok(()))
    }

    fn get_items(&self, list: &str) -> Result<Reply<Vec<GroceryItemResponse>>, Rejection> {
        let id = parse_grocery_list_id(list)?;
        existing_list(Ok(self.list_row(id)))?;
        list_grocery_items_handler(Ok(self.items_of(id)))
    }

    fn check(&mut self, item: &str, checked: bool) -> Result<Reply<CheckedResponse>, Rejection> {
        let id = parse_grocery_item_id(item)?;
        let mut matched = false;
        for row in self.items.iter_mut() {
            if row.id == id {
                row.checked = checked;
                matched = true;
            }
        }
        patch_grocery_item(id, PatchGroceryItemRequest { checked }, Ok(matched))
    }

    fn remove(&mut self, id: GroceryItemId) -> bool {
        let before = self.items.len();
        self.items.retain(|i| i.id != id);
        self.items.len() < before
    }

    fn delete_item(&mut self, item: &str) -> Result<Reply<DeletedResponse>, Rejection> {
        let id = parse_grocery_item_id(item)?;
        let removed = self.remove(id);
        delete_grocery_item_handler(id, Ok(removed))
    }

    fn post_meal(&mut self, name: &str, date: &str, lines: &[(&str, Option<&str>)]) {
        let lines = lines
            .iter()
            .map(|(name, qty)| IngredientLineRequest {
                name: name.to_string(),
                qty: qty.map(|q| q.to_string()),
            })
            .collect();
        let req = CreateMealRequest {
            name: name.to_string(),
            date: date.to_string(),
            slot: None,
            cook: None,
            ingredient_lines: Some(lines),
            notes: None,
        };
        self.meals.push(create_meal(req, meal_words(), now()).unwrap());
    }

    fn post_pantry(&mut self, name: &str) {
        let req = CreatePantryItemRequest { name: name.to_string(), note: None };
        self.pantry.push(create_pantry_item(req, "a name is needed".to_string(), now()).unwrap());
    }

    fn generate(
        &mut self,
        list: &str,
        from: Option<&str>,
        to: Option<&str>,
    ) -> Result<Reply<GenerateResponse>, Rejection> {
        let id = parse_grocery_list_id(list)?;
        let params = GenerateQuery {
            from: from.map(|d| d.to_string()),
            to: to.map(|d| d.to_string()),
        };
        let range = generate_grocery_items(Ok(self.list_row(id)), params, now())?;
        let meals = self
            .meals
            .iter()
            .filter(|m| {
                range.from.julian_day() <= m.date.julian_day()
                    && m.date.julian_day() <= range.to.julian_day()
            })
            .cloned()
            .collect();
        let inputs = plan_inputs(Ok(meals), Ok(self.pantry.clone()), Ok(self.items_of(id)))?;
        let additions = plan(id, &inputs);
        self.items.extend(additions.clone());
        generated_items(range, &additions, Ok(()))
    }

    fn clear(&mut self, list: &str) -> Result<Reply<ClearCheckedResponse>, Rejection> {
        let id = parse_grocery_list_id(list)?;
        let ids = clear_checked(Ok(self.list_row(id)), Ok(self.items_of(id)))?;
        let calls = ids.into_iter().map(|id| Ok(self.remove(id))).collect();
        cleared_items(&calls)
    }
}

// A stand-in for the planning rule: one line for each ingredient that is
// neither in the pantry nor on the list.
fn plan(list_id: GroceryListId, inputs: &PlanInputs) -> Vec<GroceryItem> {
    let mut additions: Vec<GroceryItem> = Vec::new();
    for meal in &inputs.meals {
        for line in &meal.ingredient_lines {
            let name = line.name.to_lowercase();
            let stocked = inputs.pantry.iter().any(|p| p.name.to_lowercase() == name);
            let there = inputs.existing.iter().any(|i| i.name.to_lowercase() == name);
            if !stocked && !there {
                additions.push(GroceryItem {
                    id: GroceryItemId(additions.len() as u128 + 1),
                    list_id,
                    name: line.name.clone(),
                    qty: line.qty.clone(),
                    category: None,
                    checked: false,
                    source: GrocerySource::FromMeal,
                    source_meal_id: Some(meal.id),
                    created_at: now(),
                });
            }
        }
    }
    additions
}

fn named(name: &str) -> CreateGroceryItemRequest {
    CreateGroceryItemRequest { name: name.to_string(), qty: None, category: None }
}

#[test]
fn create_list_and_get_and_list_round_trip() {
    let mut kitchen = Kitchen::default();
    let created = kitchen.post_list("Groceries").unwrap();
    assert_eq!(created.status, StatusCode::Created);
    let all = list_grocery_lists_handler(Ok(kitchen.lists.clone())).unwrap();
    assert_eq!(all.status, StatusCode::Success);
    assert_eq!(all.body.len(), 1);
    let found = kitchen.get_list(&created.body.id).unwrap();
    assert_eq!(found.status, StatusCode::Success);
    assert_eq!(found.body.name, "Groceries");
}

#[test]
fn create_list_blank_name_is_422() {
    let rejection = Kitchen::default().post_list("   ").unwrap_err();
    assert_eq!(rejection.status, StatusCode::UnprocessableEntity);
    assert_eq!(rejection.error, Some("a name is needed".to_string()));
}

#[test]
fn get_list_bad_id_and_missing_id() {
    let kitchen = Kitchen::default();
    let bad = kitchen.get_list("not-a-uuid").unwrap_err();
    assert_eq!(bad.status, StatusCode::BadRequest);
    let missing = kitchen.get_list(UNKNOWN).unwrap_err();
    assert_eq!(missing.status, StatusCode::NotFound);
}

#[test]
fn manual_item_add_list_patch_delete_round_trip() {
    let mut kitchen = Kitchen::default();
    let list = kitchen.post_list("Groceries").unwrap().body.id;
    let req = CreateGroceryItemRequest {
        name: "Eggs".to_string(),
        qty: some("1 dozen"),
        category: some("dairy"),
    };
    let added = kitchen.post_item(&list, req).unwrap();
    assert_eq!(added.status, StatusCode::Created);
    assert_eq!(added.body.name, "Eggs");
    assert_eq!(added.body.source, "manual");
    assert!(!added.body.checked);
    assert!(added.body.source_meal_id.is_none());
    assert_eq!(added.body.list_id, list);
    let item = added.body.id;

    let items = kitchen.get_items(&list).unwrap();
    assert_eq!(items.status, StatusCode::Success);
    assert_eq!(items.body.len(), 1);

    let patched = kitchen.check(&item, true).unwrap();
    assert_eq!(patched.status, StatusCode::Success);
    assert!(patched.body.checked);
    assert_eq!(patched.body.id, item);
    assert!(kitchen.get_items(&list).unwrap().body[0].checked);

    let deleted = kitchen.delete_item(&item).unwrap();
    assert_eq!(deleted.status, StatusCode::Success);
    assert!(kitchen.get_items(&list).unwrap().body.is_empty());
}

#[test]
fn add_item_to_missing_list_is_404() {
    let rejection = Kitchen::default().post_item(UNKNOWN, named("Eggs")).unwrap_err();
    assert_eq!(rejection.status, StatusCode::NotFound);
}

#[test]
fn add_item_blank_name_is_422() {
    let mut kitchen = Kitchen::default();
    let list = kitchen.post_list("Groceries").unwrap().body.id;
    let rejection = kitchen.post_item(&list, named("   ")).unwrap_err();
    assert_eq!(rejection.status, StatusCode::UnprocessableEntity);
    assert_eq!(rejection.error, Some("a name is needed".to_string()));
}

#[test]
fn patch_and_delete_item_bad_id_and_missing_id() {
    let mut kitchen = Kitchen::default();
    let bad_patch = kitchen.check("not-a-uuid", true).unwrap_err();
    assert_eq!(bad_patch.status, StatusCode::BadRequest);
    let missing_patch = kitchen.check(UNKNOWN, true).unwrap_err();
    assert_eq!(missing_patch.status, StatusCode::NotFound);
    let bad_delete = kitchen.delete_item("not-a-uuid").unwrap_err();
    assert_eq!(bad_delete.status, StatusCode::BadRequest);
    let missing_delete = kitchen.delete_item(UNKNOWN).unwrap_err();
    assert_eq!(missing_delete.status, StatusCode::NotFound);
}

#[test]
fn generate_excludes_pantry_staples_and_tags_from_meal() {
    let mut kitchen = Kitchen::default();
    let list = kitchen.post_list("Groceries").unwrap().body.id;
    kitchen.post_pantry("Flour");
    kitchen.post_meal("Bread", "2099-06-10", &[("flour", None), ("yeast", Some("1 packet"))]);
    let generated =
        kitchen.generate(&list, Some("2099-06-08"), Some("2099-06-12")).unwrap();
    assert_eq!(generated.status, StatusCode::Success);
    assert_eq!(generated.body.from, "2099-06-08");
    assert_eq!(generated.body.to, "2099-06-12");
    assert_eq!(generated.body.added.len(), 1);
    assert_eq!(generated.body.added[0].name, "yeast");
    assert_eq!(generated.body.added[0].source, "from_meal");
    assert!(generated.body.added[0].source_meal_id.is_some());

    let items = kitchen.get_items(&list).unwrap().body;
    assert_eq!(items.len(), 1);
    assert_eq!(items[0].name, "yeast");
}

#[test]
fn generate_no_clobber_end_to_end() {
    let mut kitchen = Kitchen::default();
    let list = kitchen.post_list("Groceries").unwrap().body.id;
    kitchen.post_meal("Omelette", "2099-07-14", &[("eggs", Some("6")), ("chives", None)]);
    let (from, to) = (Some("2099-07-12"), Some("2099-07-16"));
    let first = kitchen.generate(&list, from, to).unwrap();
    assert_eq!(first.status, StatusCode::Success);
    assert_eq!(first.body.added.len(), 2);

    let items = kitchen.get_items(&list).unwrap().body;
    assert_eq!(items.len(), 2);
    let eggs = items.iter().find(|i| i.name == "eggs").unwrap().id.clone();
    assert_eq!(kitchen.check(&eggs, true).unwrap().status, StatusCode::Success);
    let manual = kitchen.post_item(&list, named("napkins")).unwrap();
    assert_eq!(manual.status, StatusCode::Created);

    let second = kitchen.generate(&list, from, to).unwrap();
    assert_eq!(second.status, StatusCode::Success);
    assert!(second.body.added.is_empty());

    let left = kitchen.get_items(&list).unwrap().body;
    assert_eq!(left.len(), 3);
    assert!(left.iter().find(|i| i.name == "eggs").unwrap().checked);
    assert!(!left.iter().find(|i| i.name == "chives").unwrap().checked);
    assert_eq!(left.iter().find(|i| i.name == "napkins").unwrap().source, "manual");
}

#[test]
fn clear_checked_then_regenerate_readds_item() {
    let mut kitchen = Kitchen::default();
    let list = kitchen.post_list("Groceries").unwrap().body.id;
    kitchen.post_pantry("flour");
    kitchen.post_meal("Pancakes", "2099-08-11", &[("eggs", None), ("chives", None), ("flour", None)]);
    let (from, to) = (Some("2099-08-09"), Some("2099-08-13"));
    let first = kitchen.generate(&list, from, to).unwrap();
    assert_eq!(first.status, StatusCode::Success);
    assert_eq!(first.body.added.len(), 2);

    let items = kitchen.get_items(&list).unwrap().body;
    let eggs = items.iter().find(|i| i.name == "eggs").unwrap().id.clone();
    assert_eq!(kitchen.check(&eggs, true).unwrap().status, StatusCode::Success);

    let cleared = kitchen.clear(&list).unwrap();
    assert_eq!(cleared.status, StatusCode::Success);
    assert_eq!(cleared.body.removed, 1);

    let after = kitchen.get_items(&list).unwrap().body;
    assert_eq!(after.len(), 1);
    assert_eq!(after[0].name, "chives");
    assert!(!after[0].checked);

    let second = kitchen.generate(&list, from, to).unwrap();
    assert_eq!(second.status, StatusCode::Success);
    assert_eq!(second.body.added.len(), 1);
    assert_eq!(second.body.added[0].name, "eggs");

    let left = kitchen.get_items(&list).unwrap().body;
    assert_eq!(left.len(), 2);
    assert!(left.iter().any(|i| i.name == "eggs"));
    assert!(left.iter().any(|i| i.name == "chives"));
    assert!(!left.iter().any(|i| i.name == "flour"));
}

#[test]
fn clear_checked_missing_list_is_404() {
    let rejection = Kitchen::default().clear(UNKNOWN).unwrap_err();
    assert_eq!(rejection.status, StatusCode::NotFound);
}

#[test]
fn clear_checked_bad_list_id_is_400() {
    let rejection = Kitchen::default().clear("not-a-uuid").unwrap_err();
    assert_eq!(rejection.status, StatusCode::BadRequest);
}

#[test]
fn generate_missing_list_is_404() {
    let rejection = Kitchen::default().generate(UNKNOWN, None, None).unwrap_err();
    assert_eq!(rejection.status, StatusCode::NotFound);
}

#[test]
fn generate_half_date_pair_is_400() {
    let mut kitchen = Kitchen::default();
    let list = kitchen.post_list("Groceries").unwrap().body.id;
    let rejection = kitchen.generate(&list, Some("2099-06-08"), None).unwrap_err();
    assert_eq!(rejection.status, StatusCode::BadRequest);
}

#[test]
fn generate_defaults_to_current_week_when_no_range_given() {
    let mut kitchen = Kitchen::default();
    let list = kitchen.post_list("Groceries").unwrap().body.id;
    let generated = kitchen.generate(&list, None, None).unwrap();
    assert_eq!(generated.status, StatusCode::Success);
    assert!(generated.body.added.is_empty());
    assert_eq!(generated.body.from, "2026-05-25");
    assert_eq!(generated.body.to, "2026-05-31");
}

#[test]
fn the_current_week_goes_from_monday_to_sunday() {
    for day in ["2026-05-25T00:00:00Z", "2026-05-27T10:00:00Z", "2026-05-31T23:59:59Z"] {
        let range = current_week_bounds(at(day));
        assert_eq!(range.from.iso_text(), "2026-05-25");
        assert_eq!(range.to.iso_text(), "2026-05-31");
    }
}

#[test]
fn clearing_takes_the_checked_items_and_no_others() {
    let mut kitchen = Kitchen::default();
    let list = kitchen.post_list("Groceries").unwrap().body.id;
    for name in ["a", "b", "c", "d"] {
        kitchen.post_item(&list, named(name)).unwrap();
    }
    let (b, d) = (kitchen.items[1].id, kitchen.items[3].id);
    kitchen.items[1].checked = true;
    kitchen.items[3].checked = true;
    let id = kitchen.lists[0].id;
    let ids = clear_checked(Ok(kitchen.list_row(id)), Ok(kitchen.items_of(id))).unwrap();
    assert_eq!(ids, vec![b, d]);
    let cleared = cleared_items(&vec![Ok(true), Ok(false)]).unwrap();
    assert_eq!(cleared.body.removed, 1);
    assert!(cleared_items(&vec![Ok(true), Err(failure())]).is_err());
}

#[test]
fn storage_trouble_is_500_for_groceries() {
    let mut kitchen = Kitchen::default();
    let list = kitchen.post_list("Groceries").unwrap().body.id;
    kitchen.post_item(&list, named("a")).unwrap();
    let (row, item) = (kitchen.lists[0].clone(), kitchen.items[0].clone());
    let code = |r: Rejection| r.status.code();
    assert_eq!(code(created_grocery_list(&row, Err(failure())).unwrap_err()), 500);
    assert_eq!(code(list_grocery_lists_handler(Err(failure())).unwrap_err()), 500);
    assert_eq!(code(get_grocery_list(Err(failure())).unwrap_err()), 500);
    assert_eq!(code(created_grocery_item(&item, Err(failure())).unwrap_err()), 500);
    assert_eq!(code(existing_list(Err(failure())).unwrap_err()), 500);
    assert_eq!(code(list_grocery_items_handler(Err(failure())).unwrap_err()), 500);
    let check = PatchGroceryItemRequest { checked: true };
    assert_eq!(code(patch_grocery_item(item.id, check, Err(failure())).unwrap_err()), 500);
    assert_eq!(code(delete_grocery_item_handler(item.id, Err(failure())).unwrap_err()), 500);
    assert_eq!(code(clear_checked(Ok(Some(row)), Err(failure())).unwrap_err()), 500);
    let (none, nothing) = (|| Ok(Vec::new()), || Ok(Vec::new()));
    assert_eq!(code(plan_inputs(Err(failure()), none(), nothing()).unwrap_err()), 500);
    assert_eq!(code(plan_inputs(Ok(Vec::new()), Err(failure()), nothing()).unwrap_err()), 500);
    assert_eq!(code(plan_inputs(Ok(Vec::new()), none(), Err(failure())).unwrap_err()), 500);
    let range = current_week_bounds(now());
    assert_eq!(code(generated_items(range, &vec![item], Err(failure())).unwrap_err()), 500);
}
