//! The calendar endpoints: subscriptions to ICS feeds.

use vstd::prelude::*;

use crate::api::event::time_to_text;
use crate::dates::{shows_time_or_empty, writes_time, Timestamp};
use crate::ids::{
    is_version_7, new_uuid, parse_uuid, parsed_uuid, uuid_text, writes_uuid, CalendarId,
};
use crate::model::calendar::{
    normalise_feed_url, normalised_url, Calendar, CalendarSyncState, StoredCalendar,
};
use crate::reply::{
    changed, changed_row, deleted, found, found_row, identified, identify, outcome, stored,
    stored_value, DeletedResponse, Refusal, Rejection, Reply, StatusCode, StorageFailure,
};
use crate::text::{blank, copy_text, is_blank, join, text_of};

verus! {

// ─── Requests and responses ───────────────────────────────────────────────────

/// Body of `POST /api/v1/calendars`.
#[derive(Debug)]
pub struct CreateCalendarRequest {
    /// Display name; must not be blank.
    pub name: String,
    /// Address of the feed: webcal, http or https.
    pub url: String,
    /// What the feed is about; must be a known category. `other` if nothing is
    /// said.
    pub category: Option<String>,
}

/// Body of `PATCH /api/v1/calendars/{id}`.
#[derive(Debug)]
pub struct PatchCalendarRequest {
    /// Whether the feed is synchronised.
    pub enabled: bool,
}

/// A calendar as the endpoints show it.
#[derive(Debug)]
pub struct CalendarResponse {
    /// Identifies the calendar.
    pub id: String,
    /// Display name.
    pub name: String,
    /// Address of the feed.
    pub url: String,
    /// What the feed is about.
    pub category: String,
    /// Whether the feed is synchronised.
    pub enabled: bool,
    /// When it was subscribed to.
    pub created_at: String,
    /// How the last synchronisation went.
    pub last_status: String,
    /// When the last successful one took place.
    pub last_synced_at: Option<String>,
    /// What was said of the last one if it failed.
    pub last_error: Option<String>,
    /// How many events the last successful one brought.
    pub event_count: u32,
}

/// Answer of `GET /api/v1/calendars`.
#[derive(Debug)]
pub struct CalendarsResponse {
    /// The calendars.
    pub calendars: Vec<CalendarResponse>,
}

impl CalendarResponse {
    /// Whether this is how a calendar with the given state is shown.
    pub open spec fn shows(self, calendar: Calendar, sync: CalendarSyncState) -> bool {
        &&& writes_uuid(self.id@, calendar.id.0)
        &&& self.name@ == calendar.name@
        &&& self.url@ == calendar.url@
        &&& self.category@ == calendar.category@
        &&& self.enabled == calendar.enabled
        &&& writes_time(self.created_at@, calendar.created_at@)
        &&& self.last_status@ == sync.last_status.text()
        &&& shows_time_or_empty(self.last_synced_at, sync.last_synced_at)
        &&& text_of(self.last_error) == text_of(sync.last_error)
        &&& self.event_count == sync.event_count
    }
}

/// How a calendar with the given state is shown.
pub fn calendar_to_response(calendar: &Calendar, sync: &CalendarSyncState) -> (r: CalendarResponse)
    ensures
        r.shows(*calendar, *sync),
{
    CalendarResponse {
        id: uuid_text(calendar.id.0),
        name: calendar.name.clone(),
        url: calendar.url.clone(),
        category: calendar.category.clone(),
        enabled: calendar.enabled,
        created_at: calendar.created_at.rfc3339_text(),
        last_status: sync.last_status.as_str().to_owned(),
        last_synced_at: time_to_text(sync.last_synced_at),
        last_error: copy_text(&sync.last_error),
        event_count: sync.event_count,
    }
}

/// How a stored calendar is shown.
pub fn stored_to_response(stored: &StoredCalendar) -> (r: CalendarResponse)
    ensures
        r.shows(stored.calendar, stored.sync),
{
    calendar_to_response(&stored.calendar, &stored.sync)
}

// ─── Create ───────────────────────────────────────────────────────────────────

/// What is said of a subscription that the rules of the household refuse. Each
/// text is looked at only where what it speaks of is refused.
#[derive(Debug)]
pub struct CalendarComplaints {
    /// Said of a blank name.
    pub name: String,
    /// Said of an address with another scheme.
    pub url: String,
}

/// Why a subscription is refused, if it is. The checks come in this order: the
/// category, the name, the address.
pub open spec fn create_refusal(
    req: CreateCalendarRequest,
    category: Result<String, String>,
    complaints: CalendarComplaints,
) -> Option<Refusal> {
    if req.category is Some && category is Err {
        Some(Refusal::unprocessable("category: "@ + category->Err_0@))
    } else if blank(req.name@) {
        Some(Refusal::unprocessable(complaints.name@))
    } else if normalised_url(req.url@) is None {
        Some(Refusal::unprocessable(complaints.url@))
    } else {
        None
    }
}

/// `POST /api/v1/calendars`: the calendar that the request subscribes to, or why
/// it is refused. `category` is the catalogue's answer on the category that the
/// request names: the name it is kept under, or what is wrong with it. It is not
/// looked at when the request names none.
pub fn create_calendar(
    req: CreateCalendarRequest,
    category: Result<String, String>,
    complaints: CalendarComplaints,
    now: Timestamp,
) -> (r: Result<Calendar, Rejection>)
    ensures
        match r {
            Ok(calendar) => {
                &&& create_refusal(req, category, complaints) is None
                &&& is_version_7(calendar.id.0)
                &&& calendar.name == req.name
                &&& Some(calendar.url@) == normalised_url(req.url@)
                &&& calendar.category@ == (if req.category is Some {
                    category->Ok_0@
                } else {
                    "other"@
                })
                &&& calendar.enabled
                &&& calendar.created_at == now
            },
            Err(rejection) => create_refusal(req, category, complaints) == Some(rejection@),
        },
{
    let category = if req.category.is_some() {
        match category {
            Ok(category) => category,
            Err(complaint) => return Err(
                Rejection::unprocessable(join("category: ", complaint.as_str())),
            ),
        }
    } else {
        "other".to_owned()
    };
    if is_blank(req.name.as_str()) {
        return Err(Rejection::unprocessable(complaints.name));
    }
    let url = match normalise_feed_url(req.url) {
        Some(url) => url,
        None => return Err(Rejection::unprocessable(complaints.url)),
    };
    Ok(
        Calendar {
            id: CalendarId(new_uuid()),
            name: req.name,
            url,
            category,
            enabled: true,
            created_at: now,
        },
    )
}

/// The answer once storage has been asked to keep the subscription: 201 with
/// the calendar, never synchronised yet, or 500.
pub fn created_calendar(calendar: &Calendar, kept: Result<(), StorageFailure>) -> (r: Result<
    Reply<CalendarResponse>,
    Rejection,
>)
    ensures
        match r {
            Ok(reply) => {
                &&& kept is Ok
                &&& reply.status == StatusCode::Created
                &&& reply.body.shows(*calendar, CalendarSyncState::never_synced())
            },
            Err(rejection) => kept is Err && rejection@ == Refusal::internal(),
        },
{
    match kept {
        Ok(_) => {
            let body = calendar_to_response(calendar, &CalendarSyncState::fresh());
            Ok(Reply { status: StatusCode::Created, body })
        },
        Err(_) => Err(Rejection::internal()),
    }
}

// ─── Read, switch, remove, refresh ────────────────────────────────────────────

/// Whether the responses show the calendars one by one.
pub open spec fn show_all(
    responses: Seq<CalendarResponse>,
    calendars: Seq<StoredCalendar>,
) -> bool {
    &&& responses.len() == calendars.len()
    &&& forall|i: int|
        0 <= i < calendars.len() ==> (#[trigger] responses[i]).shows(
            calendars[i].calendar,
            calendars[i].sync,
        )
}

/// `GET /api/v1/calendars`: the answer once the calendars have been read.
pub fn list_calendars_handler(read: Result<Vec<StoredCalendar>, StorageFailure>) -> (r: Result<
    Reply<CalendarsResponse>,
    Rejection,
>)
    ensures
        match (stored_value(read), outcome(r)) {
            (Ok(calendars), Ok(reply)) => reply.status == StatusCode::Success && show_all(
                reply.body.calendars@,
                calendars@,
            ),
            (Err(refusal), Err(answer)) => answer == refusal,
            _ => false,
        },
{
    let rows = match stored(read) {
        Ok(rows) => rows,
        Err(rejection) => return Err(rejection),
    };
    let mut calendars: Vec<CalendarResponse> = Vec::new();
    for i in 0..rows.len()
        invariant
            show_all(calendars@, rows@.take(i as int)),
    {
        calendars.push(stored_to_response(&rows[i]));
    }
    proof {
        assert(rows@.take(rows@.len() as int) =~= rows@);
    }
    Ok(Reply { status: StatusCode::Success, body: CalendarsResponse { calendars } })
}

/// What the calendar identifier in a path comes to.
pub open spec fn calendar_id_of(text: Seq<char>) -> Result<CalendarId, Refusal> {
    match identified(parsed_uuid(text), "invalid calendar ID"@) {
        Ok(uuid) => Ok(CalendarId(uuid)),
        Err(refusal) => Err(refusal),
    }
}

/// Reads the calendar identifier in a path.
pub fn parse_calendar_id(text: &str) -> (r: Result<CalendarId, Rejection>)
    ensures
        outcome(r) == calendar_id_of(text@),
{
    match identify(parse_uuid(text), "invalid calendar ID") {
        Ok(uuid) => Ok(CalendarId(uuid)),
        Err(rejection) => Err(rejection),
    }
}

/// `GET /api/v1/calendars/{id}`: the answer once the calendar has been read.
pub fn get_calendar(read: Result<Option<StoredCalendar>, StorageFailure>) -> (r: Result<
    Reply<CalendarResponse>,
    Rejection,
>)
    ensures
        match (found_row(read, "calendar not found"@), outcome(r)) {
            (Ok(row), Ok(reply)) => reply.status == StatusCode::Success && reply.body.shows(
                row.calendar,
                row.sync,
            ),
            (Err(refusal), Err(answer)) => answer == refusal,
            _ => false,
        },
{
    match found(read, "calendar not found") {
        Ok(row) => Ok(Reply { status: StatusCode::Success, body: stored_to_response(&row) }),
        Err(rejection) => Err(rejection),
    }
}

/// `PATCH /api/v1/calendars/{id}`: whether the calendar could be switched on or
/// off. If so, it is read again and answered as by [`get_calendar`].
pub fn patch_calendar(call: Result<bool, StorageFailure>) -> (r: Result<(), Rejection>)
    ensures
        outcome(r) == changed_row(call, "calendar not found"@),
{
    changed(call, "calendar not found")
}

/// `DELETE /api/v1/calendars/{id}`: the answer once storage has been asked to
/// remove the calendar.
pub fn delete_calendar_handler(id: CalendarId, call: Result<bool, StorageFailure>) -> (r: Result<
    Reply<DeletedResponse>,
    Rejection,
>)
    ensures
        match (changed_row(call, "calendar not found"@), outcome(r)) {
            (Ok(_), Ok(reply)) => {
                &&& reply.status == StatusCode::Success
                &&& writes_uuid(reply.body.id@, id.0)
                &&& reply.body.deleted
            },
            (Err(refusal), Err(answer)) => answer == refusal,
            _ => false,
        },
{
    deleted(id.0, call, "calendar not found")
}

/// `POST /api/v1/calendars/{id}/refresh`: the calendar to synchronise, once it
/// has been read.
pub fn refresh_calendar(read: Result<Option<StoredCalendar>, StorageFailure>) -> (r: Result<
    StoredCalendar,
    Rejection,
>)
    ensures
        outcome(r) == found_row(read, "calendar not found"@),
{
    found(read, "calendar not found")
}

/// The answer to a refresh, given what came of the synchronisation and of
/// reading the calendar again. A feed that could not be downloaded or parsed is
/// no failure of the refresh: the calendar is answered, and its state says so.
pub fn refreshed_calendar(
    synced: Result<usize, String>,
    read: Result<Option<StoredCalendar>, StorageFailure>,
) -> (r: Result<Reply<CalendarResponse>, Rejection>)
    ensures
        match (synced, found_row(read, "calendar not found"@), outcome(r)) {
            (Err(_), _, Err(answer)) => answer == Refusal::internal(),
            (Ok(_), Ok(row), Ok(reply)) => reply.status == StatusCode::Success && reply.body.shows(
                row.calendar,
                row.sync,
            ),
            (Ok(_), Err(refusal), Err(answer)) => answer == refusal,
            _ => false,
        },
{
    match synced {
        Ok(_) => get_calendar(read),
        Err(_) => Err(Rejection::internal()),
    }
}

/// A calendar is addressed by the identifier it is shown with: a path that holds
/// it names that very calendar.
pub proof fn shown_calendar_is_addressable(
    response: CalendarResponse,
    calendar: Calendar,
    sync: CalendarSyncState,
)
    requires
        response.shows(calendar, sync),
    ensures
        calendar_id_of(response.id@) == Ok::<_, Refusal>(calendar.id),
{
}

} // verus!
