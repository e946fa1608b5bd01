// The meal endpoints, driven phase by phase against a household in memory.

use amity_service::api::fields::{read_time, TimeField};
use amity_service::api::meal::{
    create_meal, created_meal, delete_meal_handler, get_meal, list_meals_handler, listed_meals,
    parse_meal_id, CreateMealRequest, IngredientLineRequest, ListMealsQuery, MealComplaints,
    MealResponse,
};
use amity_service::api::surfacing::{
    build_meal_candidates, event_instances_query, task_instances_query, today, today_candidates,
    today_response, week, week_candidates, week_days, week_response, DayReads, EventReads, Liveness,
    PlannedDay, SurfaceCandidate, SurfacedItem, Timing, TodayQuery, TodayResponse, WeekQuery,
    WeekResponse,
};
use amity_service::dates::{Date, Timestamp};
use amity_service::model::event::{Event, EventInstance, EventOverride};
use amity_service::model::meal::{Meal, MealSlot};
use amity_service::model::task::{Task, TaskInstance};
use amity_service::reply::{DeletedResponse, Rejection, Reply, StatusCode, StorageFailure};

fn at(text: &str) -> Timestamp {
    match read_time(&Some(text.to_string())) {
        TimeField::At(t) => t,
        _ => panic!("{text} is no time"),
    }
}

fn some(text: &str) -> Option<String> {
    Some(text.to_string())
}

// Everything a household has stored.
#[derive(Default)]
struct Household {
    tasks: Vec<Task>,
    task_instances: Vec<TaskInstance>,
    events: Vec<Event>,
    event_instances: Vec<EventInstance>,
    overrides: Vec<EventOverride>,
    meals: Vec<Meal>,
}

impl Household {
    fn event_reads(&self, day: Date) -> EventReads {
        let overrides: Vec<EventOverride> =
            self.overrides.iter().filter(|o| o.instance_date == day).cloned().collect();
        let mut instances = Vec::new();
        for event in &self.events {
            let mut rows = Vec::new();
            if let Some(query) = event_instances_query(event, &overrides, day) {
                for row in &self.event_instances {
                    if row.event_id == query.event_id && !row.scheduled_at.is_before(query.from) {
                        rows.push(row.clone());
                    }
                }
            }
            instances.push(Ok(rows));
        }
        EventReads { events: Ok(self.events.clone()), overrides: Ok(overrides), instances }
    }

    fn task_reads(&self, day: Date) -> Vec<Result<Vec<TaskInstance>, StorageFailure>> {
        let mut reads = Vec::new();
        for task in &self.tasks {
            let mut rows = Vec::new();
            if let Some(query) = task_instances_query(task, day) {
                for row in &self.task_instances {
                    if row.task_id == query.task_id && !row.scheduled_at.is_before(query.from) {
                        rows.push(row.clone());
                    }
                }
            }
            reads.push(Ok(rows));
        }
        reads
    }

    fn today(&self, date: &str) -> Reply<TodayResponse> {
        let params = TodayQuery { date: some(date) };
        let day = today(params, at("2026-05-25T10:00:00Z")).unwrap();
        let meals: Vec<Meal> = self.meals.iter().filter(|m| m.date == day).cloned().collect();
        let candidates = today_candidates(
            &self.tasks,
            &self.task_reads(day),
            &self.event_reads(day),
            &Ok(meals),
            day,
        );
        today_response(day, &rank(&candidates, day))
    }

    fn week(&self, start: Option<&str>, now: Timestamp) -> Result<Reply<WeekResponse>, Rejection> {
        let params = WeekQuery { start: start.map(|s| s.to_string()) };
        let monday = week(params, now)?;
        let mut reads = Vec::new();
        for day in week_days(monday) {
            reads.push(DayReads {
                task_instances: self.task_reads(day),
                events: self.event_reads(day),
            });
        }
        let candidates = week_candidates(&self.tasks, &reads, monday);
        let mut days = Vec::new();
        for date in week_days(monday) {
            days.push(PlannedDay { date, items: rank(&candidates, date) });
        }
        Ok(week_response(monday, &days))
    }
}

// A stand-in for the ranking rule: what is live and falls on the day, once,
// whole days first, then by time.
fn rank(candidates: &Vec<SurfaceCandidate>, day: Date) -> Vec<SurfacedItem> {
    let mut items: Vec<SurfacedItem> = Vec::new();
    for c in candidates {
        let when = match c.timing {
            Timing::Scheduled(when) => Some(when),
            Timing::Window { due_by, .. } => due_by,
        };
        let when = match when {
            Some(when) if c.liveness == Liveness::Live && when.date() == day => when,
            _ => continue,
        };
        if items.iter().any(|i| i.source_id == c.source_id && i.at == when) {
            continue;
        }
        items.push(SurfacedItem {
            kind: c.kind,
            source_id: c.source_id.clone(),
            title: c.title.clone(),
            at: when,
            overdue: false,
            all_day: c.all_day,
            priority: c.priority,
            current_assignee_id: c.current_assignee_id,
            annotation: c.annotation.clone(),
            rescheduled: c.rescheduled,
        });
    }
    items.sort_by_key(|i| (!i.all_day, i.at.parts().1, i.at.parts().2));
    items
}

fn now() -> Timestamp {
    at("2026-05-25T10:00:00Z")
}

fn meal_words() -> MealComplaints {
    MealComplaints { slot: "no such slot".to_string(), name: "a name is needed".to_string() }
}

fn failure() -> StorageFailure {
    StorageFailure { message: "disk full".to_string() }
}

fn meal(name: &str, date: &str, slot: Option<&str>) -> CreateMealRequest {
    CreateMealRequest {
        name: name.to_string(),
        date: date.to_string(),
        slot: slot.map(|s| s.to_string()),
        cook: None,
        ingredient_lines: None,
        notes: None,
    }
}

fn post(house: &mut Household, req: CreateMealRequest) -> Result<Reply<MealResponse>, Rejection> {
    let meal = create_meal(req, meal_words(), now())?;
    house.meals.push(meal.clone());
    created_meal(&meal, Ok(()))
}

fn list(
    house: &Household,
    from: Option<&str>,
    to: Option<&str>,
) -> Result<Reply<Vec<MealResponse>>, Rejection> {
    let params = ListMealsQuery {
        from: from.map(|d| d.to_string()),
        to: to.map(|d| d.to_string()),
    };
    let range = list_meals_handler(params)?;
    let rows = house
        .meals
        .iter()
        .filter(|m| match range {
            Some(range) => {
                range.from.julian_day() <= m.date.julian_day()
                    && m.date.julian_day() <= range.to.julian_day()
            }
            None => true,
        })
        .cloned()
        .collect();
    listed_meals(Ok(rows))
}

fn get(house: &Household, id: &str) -> Result<Reply<MealResponse>, Rejection> {
    let id = parse_meal_id(id)?;
    get_meal(Ok(house.meals.iter().find(|m| m.id == id).cloned()))
}

fn delete(house: &mut Household, id: &str) -> Result<Reply<DeletedResponse>, Rejection> {
    let id = parse_meal_id(id)?;
    let before = house.meals.len();
    house.meals.retain(|m| m.id != id);
    delete_meal_handler(id, Ok(house.meals.len() < before))
}

#[test]
fn meal_api_create_list_get_delete_round_trip() {
    let mut house = Household::default();
    let mut req = meal("Spaghetti bolognese", "2099-03-10", Some("dinner"));
    req.ingredient_lines = Some(vec![
        IngredientLineRequest { name: "spaghetti".to_string(), qty: some("500g") },
        IngredientLineRequest { name: "tomato sauce".to_string(), qty: None },
    ]);
    req.notes = some("double the sauce for leftovers");
    let created = post(&mut house, req).unwrap();
    assert_eq!(created.status, StatusCode::Created);
    assert_eq!(created.body.name, "Spaghetti bolognese");
    assert_eq!(created.body.date, "2099-03-10");
    assert_eq!(created.body.slot, "dinner");
    assert_eq!(created.body.notes, some("double the sauce for leftovers"));
    let lines = &created.body.ingredient_lines;
    assert_eq!(lines.len(), 2);
    assert_eq!(lines[0].name, "spaghetti");
    assert_eq!(lines[0].qty, some("500g"));
    assert_eq!(lines[1].name, "tomato sauce");
    assert!(lines[1].qty.is_none());
    let id = created.body.id;

    let listed = list(&house, None, None).unwrap();
    assert_eq!(listed.status, StatusCode::Success);
    assert_eq!(listed.body.len(), 1);
    assert_eq!(listed.body[0].id, id);

    let found = get(&house, &id).unwrap();
    assert_eq!(found.status, StatusCode::Success);
    assert_eq!(found.body.id, id);

    let deleted = delete(&mut house, &id).unwrap();
    assert_eq!(deleted.status, StatusCode::Success);
    assert!(deleted.body.deleted);

    assert_eq!(get(&house, &id).unwrap_err().status, StatusCode::NotFound);
}

#[test]
fn slot_defaults_to_dinner_when_absent() {
    let created = post(&mut Household::default(), meal("Cereal", "2099-03-11", None)).unwrap();
    assert_eq!(created.status, StatusCode::Created);
    assert_eq!(created.body.slot, "dinner");
}

#[test]
fn meal_api_blank_name_is_422() {
    let rejection = post(&mut Household::default(), meal("   ", "2099-03-10", None)).unwrap_err();
    assert_eq!(rejection.status, StatusCode::UnprocessableEntity);
    assert_eq!(rejection.error, Some("a name is needed".to_string()));
}

#[test]
fn bad_date_is_422() {
    let rejection = post(&mut Household::default(), meal("Tacos", "not-a-date", None)).unwrap_err();
    assert_eq!(rejection.status, StatusCode::UnprocessableEntity);
}

#[test]
fn unknown_slot_is_422() {
    let req = meal("Tacos", "2099-03-10", Some("brunch"));
    let rejection = post(&mut Household::default(), req).unwrap_err();
    assert_eq!(rejection.status, StatusCode::UnprocessableEntity);
    assert_eq!(rejection.error, Some("slot: no such slot".to_string()));
}

#[test]
fn get_meal_bad_id_and_missing_id() {
    let house = Household::default();
    assert_eq!(get(&house, "not-a-uuid").unwrap_err().status, StatusCode::BadRequest);
    let missing = get(&house, "018f1a2b-0000-7000-8000-000000000099").unwrap_err();
    assert_eq!(missing.status, StatusCode::NotFound);
}

#[test]
fn delete_meal_bad_id_and_missing_id() {
    let mut house = Household::default();
    assert_eq!(delete(&mut house, "not-a-uuid").unwrap_err().status, StatusCode::BadRequest);
    let missing = delete(&mut house, "018f1a2b-0000-7000-8000-000000000099").unwrap_err();
    assert_eq!(missing.status, StatusCode::NotFound);
}

#[test]
fn from_to_filters_the_list_and_a_half_pair_is_400() {
    let mut house = Household::default();
    post(&mut house, meal("In range", "2099-04-10", None)).unwrap();
    post(&mut house, meal("Out of range", "2099-04-20", None)).unwrap();
    let ranged = list(&house, Some("2099-04-08"), Some("2099-04-12")).unwrap();
    assert_eq!(ranged.status, StatusCode::Success);
    assert_eq!(ranged.body.len(), 1);
    assert_eq!(ranged.body[0].name, "In range");
    let half = list(&house, Some("2099-04-08"), None).unwrap_err();
    assert_eq!(half.status, StatusCode::BadRequest);
    let other_half = list(&house, None, Some("2099-04-08")).unwrap_err();
    assert_eq!(other_half.status, StatusCode::BadRequest);
    let bad = list(&house, Some("2099-04-08"), Some("soon")).unwrap_err();
    assert_eq!(bad.status, StatusCode::BadRequest);
}

#[test]
fn dinner_meal_surfaces_on_today_but_not_on_week() {
    let mut house = Household::default();
    let created = post(&mut house, meal("Fajita night", "2099-04-28", Some("dinner"))).unwrap();
    assert_eq!(created.status, StatusCode::Created);
    let today = house.today("2099-04-28");
    assert_eq!(today.status, StatusCode::Success);
    assert!(today.body.has_surfaced);
    assert_eq!(today.body.items.len(), 1);
    assert_eq!(today.body.items[0].kind, "meal");
    assert_eq!(today.body.items[0].title, "Fajita night");
    assert!(today.body.items[0].all_day);

    let week = house.week(Some("2099-04-28"), now()).unwrap();
    assert_eq!(week.status, StatusCode::Success);
    assert_eq!(week.body.days.len(), 7);
    for day in &week.body.days {
        assert!(day.items.iter().all(|i| i.kind != "meal"));
    }
}

#[test]
fn breakfast_meal_does_not_surface_on_today() {
    let mut house = Household::default();
    let created = post(&mut house, meal("Pancakes", "2099-05-05", Some("breakfast"))).unwrap();
    assert_eq!(created.status, StatusCode::Created);
    assert!(!house.today("2099-05-05").body.has_surfaced);
}

#[test]
fn slots_go_to_text_and_back() {
    for slot in [MealSlot::Dinner, MealSlot::Breakfast, MealSlot::Lunch, MealSlot::Other] {
        assert_eq!(MealSlot::parse(slot.as_str()), Some(slot));
    }
    assert_eq!(MealSlot::parse("Dinner"), None);
}

#[test]
fn a_cook_is_a_member() {
    let mut req = meal("Soup", "2099-05-05", None);
    req.cook = some("018F1A2B-0000-7000-8000-000000000099");
    let made = post(&mut Household::default(), req).unwrap();
    assert_eq!(made.body.cook, some("018f1a2b-0000-7000-8000-000000000099"));
    let mut bad = meal("Soup", "2099-05-05", None);
    bad.cook = some("grandma");
    let rejection = post(&mut Household::default(), bad).unwrap_err();
    assert_eq!(rejection.status, StatusCode::UnprocessableEntity);
}

#[test]
fn meals_that_cannot_be_read_leave_the_day_without_meals() {
    let day = today(TodayQuery { date: some("2099-05-05") }, now()).unwrap();
    assert!(build_meal_candidates(&Err(failure()), day).is_empty());
}

#[test]
fn storage_trouble_is_500_for_meals() {
    let made = create_meal(meal("Soup", "2099-05-05", None), meal_words(), now()).unwrap();
    assert_eq!(created_meal(&made, Err(failure())).unwrap_err().status.code(), 500);
    assert_eq!(listed_meals(Err(failure())).unwrap_err().status.code(), 500);
    assert_eq!(get_meal(Err(failure())).unwrap_err().status.code(), 500);
    assert_eq!(delete_meal_handler(made.id, Err(failure())).unwrap_err().status.code(), 500);
}
