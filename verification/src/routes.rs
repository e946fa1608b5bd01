//! The endpoints of the service: the method and the path of each.

use vstd::prelude::*;

verus! {

/// The HTTP methods that the service answers.
#[derive(Clone, Copy, Debug, PartialEq, Eq, Structural)]
pub enum Method {
    /// Reads.
    Get,
    /// Creates or acts.
    Post,
    /// Changes.
    Patch,
    /// Removes.
    Delete,
}

/// An endpoint of the service.
#[derive(Clone, Copy, Debug, PartialEq, Eq, Structural)]
pub enum Endpoint {
    /// Captures an inbox item.
    CaptureInboxItem,
    /// Lists recent inbox items.
    ListRecent,
    /// Creates a task.
    CreateTask,
    /// Lists tasks.
    ListTasks,
    /// Lists upcoming task instances.
    ListUpcoming,
    /// Shows a task.
    GetTask,
    /// Changes a task.
    PatchTask,
    /// Completes a task instance.
    CompleteTask,
    /// Skips a task instance.
    SkipTask,
    /// Changes the default assignee of a task.
    ChangeAssignee,
    /// Lists the completion log of a task.
    GetTaskHistory,
    /// Creates an event.
    CreateEvent,
    /// Lists events.
    ListEvents,
    /// Shows an event.
    GetEvent,
    /// Overlays an occurrence of an event.
    CreateOverride,
    /// Shows what is on today.
    Today,
    /// Shows a week.
    Week,
    /// Subscribes to a feed.
    CreateCalendar,
    /// Lists calendars.
    ListCalendars,
    /// Shows a calendar.
    GetCalendar,
    /// Switches a calendar on or off.
    PatchCalendar,
    /// Removes a calendar.
    DeleteCalendar,
    /// Synchronises a calendar.
    RefreshCalendar,
    /// Plans a meal.
    CreateMeal,
    /// Lists meals.
    ListMeals,
    /// Shows a meal.
    GetMeal,
    /// Removes a meal.
    DeleteMeal,
    /// Creates a grocery list.
    CreateGroceryList,
    /// Lists grocery lists.
    ListGroceryLists,
    /// Shows a grocery list.
    GetGroceryList,
    /// Puts an item onto a grocery list.
    CreateGroceryItem,
    /// Lists the items of a grocery list.
    ListGroceryItems,
    /// Adds what planned meals need.
    GenerateGroceryItems,
    /// Removes the items that are checked off.
    ClearChecked,
    /// Checks a grocery item off.
    PatchGroceryItem,
    /// Removes a grocery item.
    DeleteGroceryItem,
    /// Writes down a staple.
    CreatePantryItem,
    /// Lists staples.
    ListPantryItems,
    /// Removes a staple.
    DeletePantryItem,
    /// Registers a member.
    CreateMember,
    /// Lists members.
    ListMembers,
    /// Shows a member.
    GetMember,
    /// Removes a member.
    DeleteMember,
}

impl Endpoint {
    /// The method that the endpoint answers.
    pub open spec fn method_of(self) -> Method {
        match self {
            Endpoint::CaptureInboxItem => Method::Post,
            Endpoint::ListRecent => Method::Get,
            Endpoint::CreateTask => Method::Post,
            Endpoint::ListTasks => Method::Get,
            Endpoint::ListUpcoming => Method::Get,
            Endpoint::GetTask => Method::Get,
            Endpoint::PatchTask => Method::Patch,
            Endpoint::CompleteTask => Method::Post,
            Endpoint::SkipTask => Method::Post,
            Endpoint::ChangeAssignee => Method::Post,
            Endpoint::GetTaskHistory => Method::Get,
            Endpoint::CreateEvent => Method::Post,
            Endpoint::ListEvents => Method::Get,
            Endpoint::GetEvent => Method::Get,
            Endpoint::CreateOverride => Method::Post,
            Endpoint::Today => Method::Get,
            Endpoint::Week => Method::Get,
            Endpoint::CreateCalendar => Method::Post,
            Endpoint::ListCalendars => Method::Get,
            Endpoint::GetCalendar => Method::Get,
            Endpoint::PatchCalendar => Method::Patch,
            Endpoint::DeleteCalendar => Method::Delete,
            Endpoint::RefreshCalendar => Method::Post,
            Endpoint::CreateMeal => Method::Post,
            Endpoint::ListMeals => Method::Get,
            Endpoint::GetMeal => Method::Get,
            Endpoint::DeleteMeal => Method::Delete,
            Endpoint::CreateGroceryList => Method::Post,
            Endpoint::ListGroceryLists => Method::Get,
            Endpoint::GetGroceryList => Method::Get,
            Endpoint::CreateGroceryItem => Method::Post,
            Endpoint::ListGroceryItems => Method::Get,
            Endpoint::GenerateGroceryItems => Method::Post,
            Endpoint::ClearChecked => Method::Post,
            Endpoint::PatchGroceryItem => Method::Patch,
            Endpoint::DeleteGroceryItem => Method::Delete,
            Endpoint::CreatePantryItem => Method::Post,
            Endpoint::ListPantryItems => Method::Get,
            Endpoint::DeletePantryItem => Method::Delete,
            Endpoint::CreateMember => Method::Post,
            Endpoint::ListMembers => Method::Get,
            Endpoint::GetMember => Method::Get,
            Endpoint::DeleteMember => Method::Delete,
        }
    }

    /// The path that the endpoint answers; `{id}` stands for one segment.
    pub open spec fn path_of(self) -> Seq<char> {
        match self {
            Endpoint::CaptureInboxItem => "/api/v1/inbox"@,
            Endpoint::ListRecent => "/api/v1/inbox/recent"@,
            Endpoint::CreateTask => "/api/v1/tasks"@,
            Endpoint::ListTasks => "/api/v1/tasks"@,
            Endpoint::ListUpcoming => "/api/v1/tasks/upcoming"@,
            Endpoint::GetTask => "/api/v1/tasks/{id}"@,
            Endpoint::PatchTask => "/api/v1/tasks/{id}"@,
            Endpoint::CompleteTask => "/api/v1/tasks/{id}/complete"@,
            Endpoint::SkipTask => "/api/v1/tasks/{id}/skip"@,
            Endpoint::ChangeAssignee => "/api/v1/tasks/{id}/assignee"@,
            Endpoint::GetTaskHistory => "/api/v1/tasks/{id}/history"@,
            Endpoint::CreateEvent => "/api/v1/events"@,
            Endpoint::ListEvents => "/api/v1/events"@,
            Endpoint::GetEvent => "/api/v1/events/{id}"@,
            Endpoint::CreateOverride => "/api/v1/events/{id}/override"@,
            Endpoint::Today => "/api/v1/surfacing/today"@,
            Endpoint::Week => "/api/v1/week"@,
            Endpoint::CreateCalendar => "/api/v1/calendars"@,
            Endpoint::ListCalendars => "/api/v1/calendars"@,
            Endpoint::GetCalendar => "/api/v1/calendars/{id}"@,
            Endpoint::PatchCalendar => "/api/v1/calendars/{id}"@,
            Endpoint::DeleteCalendar => "/api/v1/calendars/{id}"@,
            Endpoint::RefreshCalendar => "/api/v1/calendars/{id}/refresh"@,
            Endpoint::CreateMeal => "/api/v1/meals"@,
            Endpoint::ListMeals => "/api/v1/meals"@,
            Endpoint::GetMeal => "/api/v1/meals/{id}"@,
            Endpoint::DeleteMeal => "/api/v1/meals/{id}"@,
            Endpoint::CreateGroceryList => "/api/v1/grocery-lists"@,
            Endpoint::ListGroceryLists => "/api/v1/grocery-lists"@,
            Endpoint::GetGroceryList => "/api/v1/grocery-lists/{id}"@,
            Endpoint::CreateGroceryItem => "/api/v1/grocery-lists/{id}/items"@,
            Endpoint::ListGroceryItems => "/api/v1/grocery-lists/{id}/items"@,
            Endpoint::GenerateGroceryItems => "/api/v1/grocery-lists/{id}/generate"@,
            Endpoint::ClearChecked => "/api/v1/grocery-lists/{id}/clear-checked"@,
            Endpoint::PatchGroceryItem => "/api/v1/grocery-items/{id}"@,
            Endpoint::DeleteGroceryItem => "/api/v1/grocery-items/{id}"@,
            Endpoint::CreatePantryItem => "/api/v1/pantry"@,
            Endpoint::ListPantryItems => "/api/v1/pantry"@,
            Endpoint::DeletePantryItem => "/api/v1/pantry/{id}"@,
            Endpoint::CreateMember => "/api/v1/members"@,
            Endpoint::ListMembers => "/api/v1/members"@,
            Endpoint::GetMember => "/api/v1/members/{id}"@,
            Endpoint::DeleteMember => "/api/v1/members/{id}"@,
        }
    }

    /// The method that the endpoint answers.
    pub fn method(self) -> (r: Method)
        ensures
            r == self.method_of(),
    {
        match self {
            Endpoint::CaptureInboxItem => Method::Post,
            Endpoint::ListRecent => Method::Get,
            Endpoint::CreateTask => Method::Post,
            Endpoint::ListTasks => Method::Get,
            Endpoint::ListUpcoming => Method::Get,
            Endpoint::GetTask => Method::Get,
            Endpoint::PatchTask => Method::Patch,
            Endpoint::CompleteTask => Method::Post,
            Endpoint::SkipTask => Method::Post,
            Endpoint::ChangeAssignee => Method::Post,
            Endpoint::GetTaskHistory => Method::Get,
            Endpoint::CreateEvent => Method::Post,
            Endpoint::ListEvents => Method::Get,
            Endpoint::GetEvent => Method::Get,
            Endpoint::CreateOverride => Method::Post,
            Endpoint::Today => Method::Get,
            Endpoint::Week => Method::Get,
            Endpoint::CreateCalendar => Method::Post,
            Endpoint::ListCalendars => Method::Get,
            Endpoint::GetCalendar => Method::Get,
            Endpoint::PatchCalendar => Method::Patch,
            Endpoint::DeleteCalendar => Method::Delete,
            Endpoint::RefreshCalendar => Method::Post,
            Endpoint::CreateMeal => Method::Post,
            Endpoint::ListMeals => Method::Get,
            Endpoint::GetMeal => Method::Get,
            Endpoint::DeleteMeal => Method::Delete,
            Endpoint::CreateGroceryList => Method::Post,
            Endpoint::ListGroceryLists => Method::Get,
            Endpoint::GetGroceryList => Method::Get,
            Endpoint::CreateGroceryItem => Method::Post,
            Endpoint::ListGroceryItems => Method::Get,
            Endpoint::GenerateGroceryItems => Method::Post,
            Endpoint::ClearChecked => Method::Post,
            Endpoint::PatchGroceryItem => Method::Patch,
            Endpoint::DeleteGroceryItem => Method::Delete,
            Endpoint::CreatePantryItem => Method::Post,
            Endpoint::ListPantryItems => Method::Get,
            Endpoint::DeletePantryItem => Method::Delete,
            Endpoint::CreateMember => Method::Post,
            Endpoint::ListMembers => Method::Get,
            Endpoint::GetMember => Method::Get,
            Endpoint::DeleteMember => Method::Delete,
        }
    }

    /// The path that the endpoint answers; `{id}` stands for one segment.
    pub fn path(self) -> (r: &'static str)
        ensures
            r@ == self.path_of(),
    {
        match self {
            Endpoint::CaptureInboxItem => "/api/v1/inbox",
            Endpoint::ListRecent => "/api/v1/inbox/recent",
            Endpoint::CreateTask => "/api/v1/tasks",
            Endpoint::ListTasks => "/api/v1/tasks",
            Endpoint::ListUpcoming => "/api/v1/tasks/upcoming",
            Endpoint::GetTask => "/api/v1/tasks/{id}",
            Endpoint::PatchTask => "/api/v1/tasks/{id}",
            Endpoint::CompleteTask => "/api/v1/tasks/{id}/complete",
            Endpoint::SkipTask => "/api/v1/tasks/{id}/skip",
            Endpoint::ChangeAssignee => "/api/v1/tasks/{id}/assignee",
            Endpoint::GetTaskHistory => "/api/v1/tasks/{id}/history",
            Endpoint::CreateEvent => "/api/v1/events",
            Endpoint::ListEvents => "/api/v1/events",
            Endpoint::GetEvent => "/api/v1/events/{id}",
            Endpoint::CreateOverride => "/api/v1/events/{id}/override",
            Endpoint::Today => "/api/v1/surfacing/today",
            Endpoint::Week => "/api/v1/week",
            Endpoint::CreateCalendar => "/api/v1/calendars",
            Endpoint::ListCalendars => "/api/v1/calendars",
            Endpoint::GetCalendar => "/api/v1/calendars/{id}",
            Endpoint::PatchCalendar => "/api/v1/calendars/{id}",
            Endpoint::DeleteCalendar => "/api/v1/calendars/{id}",
            Endpoint::RefreshCalendar => "/api/v1/calendars/{id}/refresh",
            Endpoint::CreateMeal => "/api/v1/meals",
            Endpoint::ListMeals => "/api/v1/meals",
            Endpoint::GetMeal => "/api/v1/meals/{id}",
            Endpoint::DeleteMeal => "/api/v1/meals/{id}",
            Endpoint::CreateGroceryList => "/api/v1/grocery-lists",
            Endpoint::ListGroceryLists => "/api/v1/grocery-lists",
            Endpoint::GetGroceryList => "/api/v1/grocery-lists/{id}",
            Endpoint::CreateGroceryItem => "/api/v1/grocery-lists/{id}/items",
            Endpoint::ListGroceryItems => "/api/v1/grocery-lists/{id}/items",
            Endpoint::GenerateGroceryItems => "/api/v1/grocery-lists/{id}/generate",
            Endpoint::ClearChecked => "/api/v1/grocery-lists/{id}/clear-checked",
            Endpoint::PatchGroceryItem => "/api/v1/grocery-items/{id}",
            Endpoint::DeleteGroceryItem => "/api/v1/grocery-items/{id}",
            Endpoint::CreatePantryItem => "/api/v1/pantry",
            Endpoint::ListPantryItems => "/api/v1/pantry",
            Endpoint::DeletePantryItem => "/api/v1/pantry/{id}",
            Endpoint::CreateMember => "/api/v1/members",
            Endpoint::ListMembers => "/api/v1/members",
            Endpoint::GetMember => "/api/v1/members/{id}",
            Endpoint::DeleteMember => "/api/v1/members/{id}",
        }
    }
}

/// What tells a path from the other paths of its method: its length, its first
/// character behind `/api/v1/`, and its last character but one.
spec fn mark(path: Seq<char>) -> (nat, char, char) {
    (path.len(), path[8], path[path.len() - 2])
}

spec fn mark_of(endpoint: Endpoint) -> (nat, char, char) {
    match endpoint {
        Endpoint::CaptureInboxItem => (13, 'i', 'o'),
        Endpoint::ListRecent => (20, 'i', 'n'),
        Endpoint::CreateTask => (13, 't', 'k'),
        Endpoint::ListTasks => (13, 't', 'k'),
        Endpoint::ListUpcoming => (22, 't', 'n'),
        Endpoint::GetTask => (18, 't', 'd'),
        Endpoint::PatchTask => (18, 't', 'd'),
        Endpoint::CompleteTask => (27, 't', 't'),
        Endpoint::SkipTask => (23, 't', 'i'),
        Endpoint::ChangeAssignee => (27, 't', 'e'),
        Endpoint::GetTaskHistory => (26, 't', 'r'),
        Endpoint::CreateEvent => (14, 'e', 't'),
        Endpoint::ListEvents => (14, 'e', 't'),
        Endpoint::GetEvent => (19, 'e', 'd'),
        Endpoint::CreateOverride => (28, 'e', 'd'),
        Endpoint::Today => (23, 's', 'a'),
        Endpoint::Week => (12, 'w', 'e'),
        Endpoint::CreateCalendar => (17, 'c', 'r'),
        Endpoint::ListCalendars => (17, 'c', 'r'),
        Endpoint::GetCalendar => (22, 'c', 'd'),
        Endpoint::PatchCalendar => (22, 'c', 'd'),
        Endpoint::DeleteCalendar => (22, 'c', 'd'),
        Endpoint::RefreshCalendar => (30, 'c', 's'),
        Endpoint::CreateMeal => (13, 'm', 'l'),
        Endpoint::ListMeals => (13, 'm', 'l'),
        Endpoint::GetMeal => (18, 'm', 'd'),
        Endpoint::DeleteMeal => (18, 'm', 'd'),
        Endpoint::CreateGroceryList => (21, 'g', 't'),
        Endpoint::ListGroceryLists => (21, 'g', 't'),
        Endpoint::GetGroceryList => (26, 'g', 'd'),
        Endpoint::CreateGroceryItem => (32, 'g', 'm'),
        Endpoint::ListGroceryItems => (32, 'g', 'm'),
        Endpoint::GenerateGroceryItems => (35, 'g', 't'),
        Endpoint::ClearChecked => (40, 'g', 'e'),
        Endpoint::PatchGroceryItem => (26, 'g', 'd'),
        Endpoint::DeleteGroceryItem => (26, 'g', 'd'),
        Endpoint::CreatePantryItem => (14, 'p', 'r'),
        Endpoint::ListPantryItems => (14, 'p', 'r'),
        Endpoint::DeletePantryItem => (19, 'p', 'd'),
        Endpoint::CreateMember => (15, 'm', 'r'),
        Endpoint::ListMembers => (15, 'm', 'r'),
        Endpoint::GetMember => (20, 'm', 'd'),
        Endpoint::DeleteMember => (20, 'm', 'd'),
    }
}

proof fn path_has_its_mark(endpoint: Endpoint)
    ensures
        mark(endpoint.path_of()) == mark_of(endpoint),
{
    match endpoint {
        Endpoint::CaptureInboxItem => {
            reveal_strlit("/api/v1/inbox");
        },
        Endpoint::ListRecent => {
            reveal_strlit("/api/v1/inbox/recent");
        },
        Endpoint::CreateTask => {
            reveal_strlit("/api/v1/tasks");
        },
        Endpoint::ListTasks => {
            reveal_strlit("/api/v1/tasks");
        },
        Endpoint::ListUpcoming => {
            reveal_strlit("/api/v1/tasks/upcoming");
        },
        Endpoint::GetTask => {
            reveal_strlit("/api/v1/tasks/{id}");
        },
        Endpoint::PatchTask => {
            reveal_strlit("/api/v1/tasks/{id}");
        },
        Endpoint::CompleteTask => {
            reveal_strlit("/api/v1/tasks/{id}/complete");
        },
        Endpoint::SkipTask => {
            reveal_strlit("/api/v1/tasks/{id}/skip");
        },
        Endpoint::ChangeAssignee => {
            reveal_strlit("/api/v1/tasks/{id}/assignee");
        },
        Endpoint::GetTaskHistory => {
            reveal_strlit("/api/v1/tasks/{id}/history");
        },
        Endpoint::CreateEvent => {
            reveal_strlit("/api/v1/events");
        },
        Endpoint::ListEvents => {
            reveal_strlit("/api/v1/events");
        },
        Endpoint::GetEvent => {
            reveal_strlit("/api/v1/events/{id}");
        },
        Endpoint::CreateOverride => {
            reveal_strlit("/api/v1/events/{id}/override");
        },
        Endpoint::Today => {
            reveal_strlit("/api/v1/surfacing/today");
        },
        Endpoint::Week => {
            reveal_strlit("/api/v1/week");
        },
        Endpoint::CreateCalendar => {
            reveal_strlit("/api/v1/calendars");
        },
        Endpoint::ListCalendars => {
            reveal_strlit("/api/v1/calendars");
        },
        Endpoint::GetCalendar => {
            reveal_strlit("/api/v1/calendars/{id}");
        },
        Endpoint::PatchCalendar => {
            reveal_strlit("/api/v1/calendars/{id}");
        },
        Endpoint::DeleteCalendar => {
            reveal_strlit("/api/v1/calendars/{id}");
        },
        Endpoint::RefreshCalendar => {
            reveal_strlit("/api/v1/calendars/{id}/refresh");
        },
        Endpoint::CreateMeal => {
            reveal_strlit("/api/v1/meals");
        },
        Endpoint::ListMeals => {
            reveal_strlit("/api/v1/meals");
        },
        Endpoint::GetMeal => {
            reveal_strlit("/api/v1/meals/{id}");
        },
        Endpoint::DeleteMeal => {
            reveal_strlit("/api/v1/meals/{id}");
        },
        Endpoint::CreateGroceryList => {
            reveal_strlit("/api/v1/grocery-lists");
        },
        Endpoint::ListGroceryLists => {
            reveal_strlit("/api/v1/grocery-lists");
        },
        Endpoint::GetGroceryList => {
            reveal_strlit("/api/v1/grocery-lists/{id}");
        },
        Endpoint::CreateGroceryItem => {
            reveal_strlit("/api/v1/grocery-lists/{id}/items");
        },
        Endpoint::ListGroceryItems => {
            reveal_strlit("/api/v1/grocery-lists/{id}/items");
        },
        Endpoint::GenerateGroceryItems => {
            reveal_strlit("/api/v1/grocery-lists/{id}/generate");
        },
        Endpoint::ClearChecked => {
            reveal_strlit("/api/v1/grocery-lists/{id}/clear-checked");
        },
        Endpoint::PatchGroceryItem => {
            reveal_strlit("/api/v1/grocery-items/{id}");
        },
        Endpoint::DeleteGroceryItem => {
            reveal_strlit("/api/v1/grocery-items/{id}");
        },
        Endpoint::CreatePantryItem => {
            reveal_strlit("/api/v1/pantry");
        },
        Endpoint::ListPantryItems => {
            reveal_strlit("/api/v1/pantry");
        },
        Endpoint::DeletePantryItem => {
            reveal_strlit("/api/v1/pantry/{id}");
        },
        Endpoint::CreateMember => {
            reveal_strlit("/api/v1/members");
        },
        Endpoint::ListMembers => {
            reveal_strlit("/api/v1/members");
        },
        Endpoint::GetMember => {
            reveal_strlit("/api/v1/members/{id}");
        },
        Endpoint::DeleteMember => {
            reveal_strlit("/api/v1/members/{id}");
        },
    }
}

/// No two endpoints answer the same method on the same path.
pub proof fn endpoints_do_not_collide(one: Endpoint, other: Endpoint)
    requires
        one.method_of() == other.method_of(),
        one.path_of() == other.path_of(),
    ensures
        one == other,
{
    path_has_its_mark(one);
    path_has_its_mark(other);
}

} // verus!
