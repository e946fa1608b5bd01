//! The routes: which method and which path belongs to what.

use vstd::prelude::*;

use crate::routes::{Endpoint, Method};

verus! {

/// What reads is a GET, what changes a PATCH, what removes a DELETE, and all that
/// makes something or sets something going a POST.
pub proof fn methods_say_what_is_done(endpoint: Endpoint, r: Method)
    requires
        call_ensures(Endpoint::method, (endpoint,), r),
    ensures
        r is Get <==> {
            ||| endpoint is ListRecent
            ||| endpoint is ListTasks
            ||| endpoint is ListUpcoming
            ||| endpoint is GetTask
            ||| endpoint is GetTaskHistory
            ||| endpoint is ListEvents
            ||| endpoint is GetEvent
            ||| endpoint is Today
            ||| endpoint is Week
            ||| endpoint is ListCalendars
            ||| endpoint is GetCalendar
            ||| endpoint is ListMeals
            ||| endpoint is GetMeal
            ||| endpoint is ListGroceryLists
            ||| endpoint is GetGroceryList
            ||| endpoint is ListGroceryItems
            ||| endpoint is ListPantryItems
            ||| endpoint is ListMembers
            ||| endpoint is GetMember
        },
        r is Patch <==> endpoint is PatchTask || endpoint is PatchCalendar || endpoint is PatchGroceryItem,
        r is Delete <==> {
            ||| endpoint is DeleteCalendar
            ||| endpoint is DeleteMeal
            ||| endpoint is DeleteGroceryItem
            ||| endpoint is DeletePantryItem
            ||| endpoint is DeleteMember
        },
{
}

/// The path of what there is of a kind, and of what comes behind it.
pub open spec fn path_to(kind: Seq<char>, behind: Seq<char>) -> Seq<char> {
    "/api/v1/"@ + kind + behind
}

proof fn task_paths()
    ensures
        path_to("tasks"@, ""@) == "/api/v1/tasks"@,
        path_to("tasks"@, "/upcoming"@) == "/api/v1/tasks/upcoming"@,
        path_to("tasks"@, "/{id}"@) == "/api/v1/tasks/{id}"@,
        path_to("tasks"@, "/{id}/complete"@) == "/api/v1/tasks/{id}/complete"@,
        path_to("tasks"@, "/{id}/skip"@) == "/api/v1/tasks/{id}/skip"@,
        path_to("tasks"@, "/{id}/assignee"@) == "/api/v1/tasks/{id}/assignee"@,
        path_to("tasks"@, "/{id}/history"@) == "/api/v1/tasks/{id}/history"@,
{
    reveal_strlit("");
    reveal_strlit("/{id}");
    reveal_strlit("tasks");
    reveal_strlit("/api/v1/");
    reveal_strlit("/upcoming");
    reveal_strlit("/{id}/skip");
    reveal_strlit("/api/v1/tasks");
    reveal_strlit("/{id}/history");
    reveal_strlit("/{id}/assignee");
    reveal_strlit("/{id}/complete");
    reveal_strlit("/api/v1/tasks/{id}");
    reveal_strlit("/api/v1/tasks/upcoming");
    reveal_strlit("/api/v1/tasks/{id}/skip");
    reveal_strlit("/api/v1/tasks/{id}/history");
    reveal_strlit("/api/v1/tasks/{id}/assignee");
    reveal_strlit("/api/v1/tasks/{id}/complete");
    assert(path_to("tasks"@, ""@) =~= "/api/v1/tasks"@);
    assert(path_to("tasks"@, "/upcoming"@) =~= "/api/v1/tasks/upcoming"@);
    assert(path_to("tasks"@, "/{id}"@) =~= "/api/v1/tasks/{id}"@);
    assert(path_to("tasks"@, "/{id}/complete"@) =~= "/api/v1/tasks/{id}/complete"@);
    assert(path_to("tasks"@, "/{id}/skip"@) =~= "/api/v1/tasks/{id}/skip"@);
    assert(path_to("tasks"@, "/{id}/assignee"@) =~= "/api/v1/tasks/{id}/assignee"@);
    assert(path_to("tasks"@, "/{id}/history"@) =~= "/api/v1/tasks/{id}/history"@);
}

proof fn event_paths()
    ensures
        path_to("events"@, ""@) == "/api/v1/events"@,
        path_to("events"@, "/{id}"@) == "/api/v1/events/{id}"@,
        path_to("events"@, "/{id}/override"@) == "/api/v1/events/{id}/override"@,
{
    reveal_strlit("");
    reveal_strlit("/{id}");
    reveal_strlit("events");
    reveal_strlit("/api/v1/");
    reveal_strlit("/api/v1/events");
    reveal_strlit("/{id}/override");
    reveal_strlit("/api/v1/events/{id}");
    reveal_strlit("/api/v1/events/{id}/override");
    assert(path_to("events"@, ""@) =~= "/api/v1/events"@);
    assert(path_to("events"@, "/{id}"@) =~= "/api/v1/events/{id}"@);
    assert(path_to("events"@, "/{id}/override"@) =~= "/api/v1/events/{id}/override"@);
}

proof fn calendar_paths()
    ensures
        path_to("calendars"@, ""@) == "/api/v1/calendars"@,
        path_to("calendars"@, "/{id}"@) == "/api/v1/calendars/{id}"@,
        path_to("calendars"@, "/{id}/refresh"@) == "/api/v1/calendars/{id}/refresh"@,
{
    reveal_strlit("");
    reveal_strlit("/{id}");
    reveal_strlit("/api/v1/");
    reveal_strlit("calendars");
    reveal_strlit("/{id}/refresh");
    reveal_strlit("/api/v1/calendars");
    reveal_strlit("/api/v1/calendars/{id}");
    reveal_strlit("/api/v1/calendars/{id}/refresh");
    assert(path_to("calendars"@, ""@) =~= "/api/v1/calendars"@);
    assert(path_to("calendars"@, "/{id}"@) =~= "/api/v1/calendars/{id}"@);
    assert(path_to("calendars"@, "/{id}/refresh"@) =~= "/api/v1/calendars/{id}/refresh"@);
}

proof fn meal_paths()
    ensures
        path_to("meals"@, ""@) == "/api/v1/meals"@,
        path_to("meals"@, "/{id}"@) == "/api/v1/meals/{id}"@,
{
    reveal_strlit("");
    reveal_strlit("/{id}");
    reveal_strlit("meals");
    reveal_strlit("/api/v1/");
    reveal_strlit("/api/v1/meals");
    reveal_strlit("/api/v1/meals/{id}");
    assert(path_to("meals"@, ""@) =~= "/api/v1/meals"@);
    assert(path_to("meals"@, "/{id}"@) =~= "/api/v1/meals/{id}"@);
}

proof fn grocery_list_paths()
    ensures
        path_to("grocery-lists"@, ""@) == "/api/v1/grocery-lists"@,
        path_to("grocery-lists"@, "/{id}"@) == "/api/v1/grocery-lists/{id}"@,
        path_to("grocery-lists"@, "/{id}/items"@) == "/api/v1/grocery-lists/{id}/items"@,
        path_to("grocery-lists"@, "/{id}/generate"@) == "/api/v1/grocery-lists/{id}/generate"@,
        path_to("grocery-lists"@, "/{id}/clear-checked"@) == "/api/v1/grocery-lists/{id}/clear-checked"@,
{
    reveal_strlit("");
    reveal_strlit("/{id}");
    reveal_strlit("/api/v1/");
    reveal_strlit("/{id}/items");
    reveal_strlit("grocery-lists");
    reveal_strlit("/{id}/generate");
    reveal_strlit("/{id}/clear-checked");
    reveal_strlit("/api/v1/grocery-lists");
    reveal_strlit("/api/v1/grocery-lists/{id}");
    reveal_strlit("/api/v1/grocery-lists/{id}/items");
    reveal_strlit("/api/v1/grocery-lists/{id}/generate");
    reveal_strlit("/api/v1/grocery-lists/{id}/clear-checked");
    assert(path_to("grocery-lists"@, ""@) =~= "/api/v1/grocery-lists"@);
    assert(path_to("grocery-lists"@, "/{id}"@) =~= "/api/v1/grocery-lists/{id}"@);
    assert(path_to("grocery-lists"@, "/{id}/items"@) =~= "/api/v1/grocery-lists/{id}/items"@);
    assert(path_to("grocery-lists"@, "/{id}/generate"@) =~= "/api/v1/grocery-lists/{id}/generate"@);
    assert(path_to("grocery-lists"@, "/{id}/clear-checked"@) =~= "/api/v1/grocery-lists/{id}/clear-checked"@);
}

proof fn grocery_item_paths()
    ensures
        path_to("grocery-items"@, "/{id}"@) == "/api/v1/grocery-items/{id}"@,
{
    reveal_strlit("/{id}");
    reveal_strlit("/api/v1/");
    reveal_strlit("grocery-items");
    reveal_strlit("/api/v1/grocery-items/{id}");
    assert(path_to("grocery-items"@, "/{id}"@) =~= "/api/v1/grocery-items/{id}"@);
}

proof fn pantry_paths()
    ensures
        path_to("pantry"@, ""@) == "/api/v1/pantry"@,
        path_to("pantry"@, "/{id}"@) == "/api/v1/pantry/{id}"@,
{
    reveal_strlit("");
    reveal_strlit("/{id}");
    reveal_strlit("pantry");
    reveal_strlit("/api/v1/");
    reveal_strlit("/api/v1/pantry");
    reveal_strlit("/api/v1/pantry/{id}");
    assert(path_to("pantry"@, ""@) =~= "/api/v1/pantry"@);
    assert(path_to("pantry"@, "/{id}"@) =~= "/api/v1/pantry/{id}"@);
}

proof fn member_paths()
    ensures
        path_to("members"@, ""@) == "/api/v1/members"@,
        path_to("members"@, "/{id}"@) == "/api/v1/members/{id}"@,
{
    reveal_strlit("");
    reveal_strlit("/{id}");
    reveal_strlit("members");
    reveal_strlit("/api/v1/");
    reveal_strlit("/api/v1/members");
    reveal_strlit("/api/v1/members/{id}");
    assert(path_to("members"@, ""@) =~= "/api/v1/members"@);
    assert(path_to("members"@, "/{id}"@) =~= "/api/v1/members/{id}"@);
}

proof fn inbox_paths()
    ensures
        path_to("inbox"@, ""@) == "/api/v1/inbox"@,
        path_to("inbox"@, "/recent"@) == "/api/v1/inbox/recent"@,
{
    reveal_strlit("");
    reveal_strlit("inbox");
    reveal_strlit("/recent");
    reveal_strlit("/api/v1/");
    reveal_strlit("/api/v1/inbox");
    reveal_strlit("/api/v1/inbox/recent");
    assert(path_to("inbox"@, ""@) =~= "/api/v1/inbox"@);
    assert(path_to("inbox"@, "/recent"@) =~= "/api/v1/inbox/recent"@);
}

proof fn today_path()
    ensures
        path_to("surfacing"@, "/today"@) == "/api/v1/surfacing/today"@,
{
    reveal_strlit("/today");
    reveal_strlit("/api/v1/");
    reveal_strlit("surfacing");
    reveal_strlit("/api/v1/surfacing/today");
    assert(path_to("surfacing"@, "/today"@) =~= "/api/v1/surfacing/today"@);
}

proof fn week_path()
    ensures
        path_to("week"@, ""@) == "/api/v1/week"@,
{
    reveal_strlit("");
    reveal_strlit("week");
    reveal_strlit("/api/v1/");
    reveal_strlit("/api/v1/week");
    assert(path_to("week"@, ""@) =~= "/api/v1/week"@);
}

/// Every path starts with the version and the kind of what it is about; behind
/// that comes the identifier of one thing, and behind that what is done to it.
pub proof fn paths_lead_to_their_kinds(endpoint: Endpoint, r: &'static str)
    requires
        call_ensures(Endpoint::path, (endpoint,), r),
    ensures
        endpoint is CreateTask || endpoint is ListTasks ==> r@ == path_to("tasks"@, ""@),
        endpoint is ListUpcoming ==> r@ == path_to("tasks"@, "/upcoming"@),
        endpoint is GetTask || endpoint is PatchTask ==> r@ == path_to("tasks"@, "/{id}"@),
        endpoint is CompleteTask ==> r@ == path_to("tasks"@, "/{id}/complete"@),
        endpoint is SkipTask ==> r@ == path_to("tasks"@, "/{id}/skip"@),
        endpoint is ChangeAssignee ==> r@ == path_to("tasks"@, "/{id}/assignee"@),
        endpoint is GetTaskHistory ==> r@ == path_to("tasks"@, "/{id}/history"@),
        endpoint is CreateEvent || endpoint is ListEvents ==> r@ == path_to("events"@, ""@),
        endpoint is GetEvent ==> r@ == path_to("events"@, "/{id}"@),
        endpoint is CreateOverride ==> r@ == path_to("events"@, "/{id}/override"@),
        endpoint is CreateCalendar || endpoint is ListCalendars ==> r@ == path_to("calendars"@, ""@),
        endpoint is GetCalendar || endpoint is PatchCalendar || endpoint is DeleteCalendar ==> r@ == path_to("calendars"@, "/{id}"@),
        endpoint is RefreshCalendar ==> r@ == path_to("calendars"@, "/{id}/refresh"@),
        endpoint is CreateMeal || endpoint is ListMeals ==> r@ == path_to("meals"@, ""@),
        endpoint is GetMeal || endpoint is DeleteMeal ==> r@ == path_to("meals"@, "/{id}"@),
        endpoint is CreateGroceryList || endpoint is ListGroceryLists ==> r@ == path_to("grocery-lists"@, ""@),
        endpoint is GetGroceryList ==> r@ == path_to("grocery-lists"@, "/{id}"@),
        endpoint is CreateGroceryItem || endpoint is ListGroceryItems ==> r@ == path_to("grocery-lists"@, "/{id}/items"@),
        endpoint is GenerateGroceryItems ==> r@ == path_to("grocery-lists"@, "/{id}/generate"@),
        endpoint is ClearChecked ==> r@ == path_to("grocery-lists"@, "/{id}/clear-checked"@),
        endpoint is PatchGroceryItem || endpoint is DeleteGroceryItem ==> r@ == path_to("grocery-items"@, "/{id}"@),
        endpoint is CreatePantryItem || endpoint is ListPantryItems ==> r@ == path_to("pantry"@, ""@),
        endpoint is DeletePantryItem ==> r@ == path_to("pantry"@, "/{id}"@),
        endpoint is CreateMember || endpoint is ListMembers ==> r@ == path_to("members"@, ""@),
        endpoint is GetMember || endpoint is DeleteMember ==> r@ == path_to("members"@, "/{id}"@),
        endpoint is CaptureInboxItem ==> r@ == path_to("inbox"@, ""@),
        endpoint is ListRecent ==> r@ == path_to("inbox"@, "/recent"@),
        endpoint is Today ==> r@ == path_to("surfacing"@, "/today"@),
        endpoint is Week ==> r@ == path_to("week"@, ""@),
{
    task_paths();
    event_paths();
    calendar_paths();
    meal_paths();
    grocery_list_paths();
    grocery_item_paths();
    pantry_paths();
    member_paths();
    inbox_paths();
    today_path();
    week_path();
}

} // verus!
