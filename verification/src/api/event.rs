//! The event endpoints. Events made here are native; those from feeds are
//! changed only by overlays.

use vstd::prelude::*;

use crate::api::fields::{
    date_complaint, date_or_complaint, is_malformed_time, moment_read, read_recurrence, read_time,
    recurrence_refusal, rule_given, TimeField,
};
use crate::dates::{
    day_of, moment_of, parse_iso_date, parse_rfc3339, parsed_date, parsed_rfc3339,
    shows_time_or_empty, writes_time, Date, Moment, Timestamp, LAST_DAY,
};
use crate::horizon::{first_layout, is_first_layout, Window, HORIZON_DAYS};
use crate::ids::{
    different_uuids_have_different_texts, hyphenated, is_version_7, new_uuids, parse_uuid,
    parsed_uuid, placeholder_member, uuid_text, writes_uuid, EventId, MemberId, PLACEHOLDER_MEMBER,
};
use crate::model::event::{
    Event, EventDraft, EventError, EventInstance, EventOverride, EventSource, OverrideAction,
};
use crate::reply::{
    found, found_row, identified, identify, outcome, stored, stored_value, Refusal, Rejection,
    Reply, StatusCode, StorageFailure,
};
use crate::text::{blank, copy_text, join, text_of};

verus! {

// ─── Requests and responses ───────────────────────────────────────────────────

/// Body of `POST /api/v1/events`. Times are RFC 3339 with an offset.
#[derive(Debug)]
pub struct CreateEventRequest {
    /// One-line title; must not be blank.
    pub title: String,
    /// When the event starts.
    pub start_at: String,
    /// When it ends; not before it starts.
    pub end_at: Option<String>,
    /// Whether it takes the whole day; it does not if nothing is said.
    pub all_day: Option<bool>,
    /// The IANA name of its timezone; Amsterdam if nothing is said.
    pub timezone: Option<String>,
    /// Where it takes place.
    pub location: Option<String>,
    /// Recurrence rule; comes together with the timezone or not at all.
    pub recurrence_rrule: Option<String>,
    /// Timezone of the recurrence rule.
    pub recurrence_timezone: Option<String>,
}

/// Body of `POST /api/v1/events/{id}/override`.
#[derive(Debug)]
pub struct CreateOverrideRequest {
    /// The date of the occurrence, `YYYY-MM-DD`.
    pub instance_date: String,
    /// What to do to it: cancel, reschedule or annotate.
    pub action: String,
    /// The new RFC 3339 time or the note.
    pub payload: Option<String>,
}

/// An event as the endpoints show it.
#[derive(Debug)]
pub struct EventResponse {
    /// Identifies the event.
    pub id: String,
    /// One-line title.
    pub title: String,
    /// When it starts.
    pub start_at: String,
    /// When it ends.
    pub end_at: Option<String>,
    /// Whether it takes the whole day.
    pub all_day: bool,
    /// The IANA name of its timezone.
    pub timezone: String,
    /// Where it takes place.
    pub location: Option<String>,
    /// Recurrence rule; absent for a one-shot event.
    pub recurrence_rrule: Option<String>,
    /// Timezone of the recurrence rule; there exactly when the rule is.
    pub recurrence_timezone: Option<String>,
    /// `native` or `ics`.
    pub source_kind: String,
    /// Whether the event itself cannot be edited.
    pub read_only: bool,
    /// When it was made.
    pub created_at: String,
    /// When it was last changed.
    pub updated_at: String,
}

/// What is answered to a new overlay.
#[derive(Debug)]
pub struct OverrideResponse {
    /// Identifies the overlay.
    pub id: String,
    /// What it does.
    pub action: String,
}

/// The text of a time that may be absent, empty where RFC 3339 has none.
pub fn time_to_text(at: Option<Timestamp>) -> (r: Option<String>)
    ensures
        shows_time_or_empty(r, at),
{
    match at {
        Some(t) => Some(t.rfc3339_text()),
        None => None,
    }
}

impl EventResponse {
    /// Whether this is how `event` is shown.
    pub open spec fn shows(self, event: Event) -> bool {
        &&& writes_uuid(self.id@, event.id.0)
        &&& self.title@ == event.title@
        &&& writes_time(self.start_at@, event.start_at@)
        &&& shows_time_or_empty(self.end_at, event.end_at)
        &&& self.all_day == event.all_day
        &&& self.timezone@ == event.timezone@
        &&& text_of(self.location) == text_of(event.location)
        &&& text_of(self.recurrence_rrule) == (match event.recurrence {
            Some(rule) => Some(rule.rrule@),
            None => None,
        })
        &&& text_of(self.recurrence_timezone) == (match event.recurrence {
            Some(rule) => Some(rule.timezone@),
            None => None,
        })
        &&& self.source_kind@ == event.source.kind.text()
        &&& self.read_only == event.source.read_only
        &&& writes_time(self.created_at@, event.created_at@)
        &&& writes_time(self.updated_at@, event.updated_at@)
    }
}

/// How an event is shown.
pub fn event_to_response(event: &Event) -> (r: EventResponse)
    ensures
        r.shows(*event),
{
    let (recurrence_rrule, recurrence_timezone) = match &event.recurrence {
        Some(rule) => (Some(rule.rrule.clone()), Some(rule.timezone.clone())),
        None => (None, None),
    };
    EventResponse {
        id: uuid_text(event.id.0),
        title: event.title.clone(),
        start_at: event.start_at.rfc3339_text(),
        end_at: time_to_text(event.end_at),
        all_day: event.all_day,
        timezone: event.timezone.clone(),
        location: copy_text(&event.location),
        recurrence_rrule,
        recurrence_timezone,
        source_kind: event.source.kind.as_str().to_owned(),
        read_only: event.source.read_only,
        created_at: event.created_at.rfc3339_text(),
        updated_at: event.updated_at.rfc3339_text(),
    }
}

// ─── Create ───────────────────────────────────────────────────────────────────

/// What is said of a new event that the rules of the household refuse. Each
/// text is looked at only where what it speaks of is refused.
#[derive(Debug)]
pub struct EventComplaints {
    /// Said of a blank title.
    pub title: String,
    /// Said of a blank timezone.
    pub timezone: String,
    /// Said of an end before the start.
    pub end: String,
}

impl EventComplaints {
    /// What is said of an error.
    pub open spec fn said_of(self, error: EventError) -> Seq<char> {
        match error {
            EventError::EmptyTitle => self.title@,
            EventError::EmptyTimezone => self.timezone@,
            EventError::EndBeforeStart => self.end@,
        }
    }

    /// What is said of an error.
    pub fn about(self, error: EventError) -> (r: String)
        ensures
            r@ == self.said_of(error),
    {
        match error {
            EventError::EmptyTitle => self.title,
            EventError::EmptyTimezone => self.timezone,
            EventError::EndBeforeStart => self.end,
        }
    }
}

/// Why a new event is refused, if it is. The checks come in this order: the
/// start, the recurrence pair, the end, the title, the timezone, and that it
/// does not end before it starts.
pub open spec fn create_refusal(
    req: CreateEventRequest,
    verdict: Result<(), String>,
    complaints: EventComplaints,
    start_at: Option<Moment>,
    end_at_malformed: bool,
    end_at: Option<Moment>,
) -> Option<Refusal> {
    if start_at is None {
        Some(Refusal::unprocessable("start_at: invalid RFC 3339 datetime"@))
    } else if recurrence_refusal(req.recurrence_rrule, req.recurrence_timezone, verdict) is Some {
        recurrence_refusal(req.recurrence_rrule, req.recurrence_timezone, verdict)
    } else if end_at_malformed {
        Some(Refusal::unprocessable("end_at: invalid RFC 3339 datetime"@))
    } else if blank(req.title@) {
        Some(Refusal::unprocessable(complaints.said_of(EventError::EmptyTitle)))
    } else if req.timezone is Some && blank(req.timezone->0@) {
        Some(Refusal::unprocessable(complaints.said_of(EventError::EmptyTimezone)))
    } else if end_at is Some && end_at->0.instant() < start_at->0.instant() {
        Some(Refusal::unprocessable(complaints.said_of(EventError::EndBeforeStart)))
    } else {
        None
    }
}

/// Whether `event` is the native event that a request makes at `now`.
pub open spec fn is_created(
    event: Event,
    req: CreateEventRequest,
    start_at: Option<Moment>,
    end_at: Option<Moment>,
    now: Timestamp,
) -> bool {
    &&& is_version_7(event.id.0)
    &&& event.title == req.title
    &&& start_at == Some(event.start_at@)
    &&& moment_of(event.end_at) == end_at
    &&& event.all_day == (req.all_day == Some(true))
    &&& event.timezone@ == (match req.timezone {
        Some(zone) => zone@,
        None => "Europe/Amsterdam"@,
    })
    &&& event.location == req.location
    &&& event.recurrence == rule_given(req.recurrence_rrule, req.recurrence_timezone)
    &&& event.source.is_native()
    &&& event.created_at == now
    &&& event.updated_at == now
}

/// `POST /api/v1/events`: the event that the request makes, or why it is refused.
///
/// `verdict` is the validator's answer on the rule that
/// [`rule_to_check`](crate::api::fields::rule_to_check) gives for the request.
pub fn create_event(
    req: CreateEventRequest,
    verdict: Result<(), String>,
    complaints: EventComplaints,
    now: Timestamp,
) -> (r: Result<Event, Rejection>)
    ensures
        ({
            let start_at = parsed_rfc3339(req.start_at@);
            let end_at = moment_read(req.end_at);
            let refusal = create_refusal(
                req,
                verdict,
                complaints,
                start_at,
                is_malformed_time(req.end_at),
                end_at,
            );
            match r {
                Ok(event) => {
                    &&& refusal is None
                    &&& is_created(event, req, start_at, end_at, now)
                    &&& event.start_at@.has_rfc3339_text()
                    &&& event.end_at matches Some(at) ==> at@.has_rfc3339_text()
                },
                Err(rejection) => refusal == Some(rejection@),
            }
        }),
{
    let start_at = parse_rfc3339(req.start_at.as_str());
    let end_at = read_time(&req.end_at);
    build_event(req, start_at, end_at, verdict, complaints, now)
}

/// The event that a request makes, its times already read.
pub fn build_event(
    req: CreateEventRequest,
    start_at: Option<Timestamp>,
    end_at: TimeField,
    verdict: Result<(), String>,
    complaints: EventComplaints,
    now: Timestamp,
) -> (r: Result<Event, Rejection>)
    ensures
        ({
            let refusal = create_refusal(
                req,
                verdict,
                complaints,
                moment_of(start_at),
                end_at is Malformed,
                end_at.moment(),
            );
            match r {
                Ok(event) => refusal is None && is_created(
                    event,
                    req,
                    moment_of(start_at),
                    end_at.moment(),
                    now,
                ),
                Err(rejection) => refusal == Some(rejection@),
            }
        }),
{
    let start_at = match start_at {
        Some(at) => at,
        None => return Err(
            Rejection::unprocessable("start_at: invalid RFC 3339 datetime".to_owned()),
        ),
    };
    let recurrence = match read_recurrence(
        &req.recurrence_rrule,
        &req.recurrence_timezone,
        &verdict,
    ) {
        Ok(rule) => rule,
        Err(rejection) => return Err(rejection),
    };
    let end_at = match end_at {
        TimeField::Absent => None,
        TimeField::At(at) => Some(at),
        TimeField::Malformed => return Err(
            Rejection::unprocessable("end_at: invalid RFC 3339 datetime".to_owned()),
        ),
    };
    let all_day = match req.all_day {
        Some(all_day) => all_day,
        None => false,
    };
    let draft = EventDraft {
        title: req.title,
        start_at,
        end_at,
        all_day,
        timezone: req.timezone,
        location: req.location,
        recurrence,
        source: EventSource::native(),
    };
    match draft.build(now) {
        Ok(event) => Ok(event),
        Err(error) => Err(Rejection::unprocessable(complaints.about(error))),
    }
}

/// The answer to a request for a new event, once storage has been asked to
/// keep it: 201 with the event, 500 if it could not be kept. Whether its
/// occurrences could be laid out does not matter here.
pub fn created_event(event: &Event, kept: Result<(), StorageFailure>) -> (r: Result<
    Reply<EventResponse>,
    Rejection,
>)
    ensures
        match r {
            Ok(reply) => kept is Ok && reply.status == StatusCode::Created && reply.body.shows(
                *event,
            ),
            Err(rejection) => kept is Err && rejection@ == Refusal::internal(),
        },
{
    match kept {
        Ok(_) => Ok(Reply { status: StatusCode::Created, body: event_to_response(event) }),
        Err(_) => Err(Rejection::internal()),
    }
}

/// Whether `instance` is an occurrence of an event at `scheduled_at`.
pub open spec fn is_instance_at(
    instance: EventInstance,
    event_id: EventId,
    scheduled_at: Timestamp,
) -> bool {
    &&& instance.event_id == event_id
    &&& instance.scheduled_at == scheduled_at
    &&& exists|uuid: u128| is_version_7(uuid) && instance.id@ == #[trigger] hyphenated(uuid)
}

/// Whether the instances are the occurrences of an event at the given times.
pub open spec fn are_instances_at(
    instances: Seq<EventInstance>,
    event_id: EventId,
    times: Seq<Timestamp>,
) -> bool {
    &&& instances.len() == times.len()
    &&& forall|i: int|
        0 <= i < times.len() ==> is_instance_at(#[trigger] instances[i], event_id, times[i])
}

/// The rows of the given occurrences, each an event and a time, under the given
/// identifiers. They can be told apart by their identifiers if these differ.
pub fn event_rows_with(occurrences: &Vec<(EventId, Timestamp)>, ids: &Vec<u128>) -> (r: Vec<
    EventInstance,
>)
    requires
        ids@.len() == occurrences@.len(),
    ensures
        r@.len() == occurrences@.len(),
        forall|i: int|
            0 <= i < occurrences@.len() ==> {
                &&& (#[trigger] r@[i]).id@ == hyphenated(ids@[i])
                &&& r@[i].event_id == occurrences@[i].0
                &&& r@[i].scheduled_at == occurrences@[i].1
            },
        forall|i: int|
            0 <= i < occurrences@.len() && is_version_7(ids@[i]) ==> is_instance_at(
                #[trigger] r@[i],
                occurrences@[i].0,
                occurrences@[i].1,
            ),
        ids@.no_duplicates() ==> forall|i: int, j: int|
            0 <= i < j < occurrences@.len() ==> (#[trigger] r@[i]).id@ != (#[trigger] r@[j]).id@,
{
    let mut out: Vec<EventInstance> = Vec::new();
    for i in 0..occurrences.len()
        invariant
            ids@.len() == occurrences@.len(),
            out@.len() == i,
            forall|k: int|
                0 <= k < i ==> {
                    &&& (#[trigger] out@[k]).id@ == hyphenated(ids@[k])
                    &&& out@[k].event_id == occurrences@[k].0
                    &&& out@[k].scheduled_at == occurrences@[k].1
                },
    {
        let (event_id, scheduled_at) = occurrences[i];
        out.push(EventInstance { id: uuid_text(ids[i]), event_id, scheduled_at });
    }
    proof {
        if ids@.no_duplicates() {
            assert forall|i: int, j: int| 0 <= i < j < occurrences@.len() implies (
            #[trigger] out@[i]).id@ != (#[trigger] out@[j]).id@ by {
                different_uuids_have_different_texts(ids@[i], ids@[j]);
            }
        }
    }
    out
}

/// The occurrences of an event at the given times under the given identifiers.
/// They can be told apart by their identifiers if these differ.
pub fn event_instances_with(event_id: EventId, times: &Vec<Timestamp>, ids: &Vec<u128>) -> (r: Vec<
    EventInstance,
>)
    requires
        ids@.len() == times@.len(),
    ensures
        r@.len() == times@.len(),
        forall|i: int|
            0 <= i < times@.len() ==> {
                &&& (#[trigger] r@[i]).id@ == hyphenated(ids@[i])
                &&& r@[i].event_id == event_id
                &&& r@[i].scheduled_at == times@[i]
            },
        (forall|i: int| 0 <= i < ids@.len() ==> is_version_7(#[trigger] ids@[i]))
            ==> are_instances_at(r@, event_id, times@),
        ids@.no_duplicates() ==> forall|i: int, j: int|
            0 <= i < j < times@.len() ==> (#[trigger] r@[i]).id@ != (#[trigger] r@[j]).id@,
{
    let mut occurrences: Vec<(EventId, Timestamp)> = Vec::new();
    for i in 0..times.len()
        invariant
            occurrences@.len() == i,
            forall|k: int| 0 <= k < i ==> #[trigger] occurrences@[k] == (event_id, times@[k]),
    {
        occurrences.push((event_id, times[i]));
    }
    event_rows_with(&occurrences, ids)
}

/// The occurrences of an event at the given times, each under an identifier that
/// is drawn for it.
pub fn event_instances_at(event_id: EventId, times: &Vec<Timestamp>) -> (r: Vec<EventInstance>)
    ensures
        are_instances_at(r@, event_id, times@),
{
    let ids = new_uuids(times.len());
    event_instances_with(event_id, times, &ids)
}

/// Where a new event is laid out: nowhere if it is a one-shot event, and
/// otherwise from when it was made to the horizon.
pub fn layout_window(event: &Event) -> (r: Option<Window>)
    requires
        event.recurrence is Some ==> event.created_at@.julian_day + HORIZON_DAYS <= LAST_DAY,
    ensures
        is_first_layout(r, event.recurrence, event.created_at),
{
    first_layout(&event.recurrence, event.created_at)
}

/// A new event is laid out only if it recurs, from when it was made to the
/// horizon. Its occurrences are the times that its rule was expanded to, one for
/// one; they belong to the event that is shown.
pub proof fn new_events_are_laid_out_from_their_making(
    event: Event,
    response: EventResponse,
    req: CreateEventRequest,
    start_at: Option<Moment>,
    end_at: Option<Moment>,
    now: Timestamp,
    window: Option<Window>,
    times: Seq<Timestamp>,
    instances: Seq<EventInstance>,
)
    requires
        is_created(event, req, start_at, end_at, now),
        response.shows(event),
        is_first_layout(window, event.recurrence, event.created_at),
        are_instances_at(instances, event.id, times),
    ensures
        window is Some <==> req.recurrence_rrule is Some && req.recurrence_timezone is Some,
        window matches Some(w) ==> w.from == now && w.until@ == now@.plus_days(HORIZON_DAYS as int),
        instances.len() == times.len(),
        forall|i: int|
            0 <= i < instances.len() ==> {
                &&& (#[trigger] instances[i]).scheduled_at == times[i]
                &&& writes_uuid(response.id@, instances[i].event_id.0)
            },
{
}

/// The occurrences to keep, given what the expansion of the event's rule over
/// its [`layout_window`] came to, or what to log when it failed.
pub fn materialise_event_instances(event: &Event, times: Result<Vec<Timestamp>, String>) -> (r:
    Result<Vec<EventInstance>, String>)
    ensures
        match (times, r) {
            (Ok(times), Ok(instances)) => are_instances_at(instances@, event.id, times@),
            (Err(reason), Err(message)) => message@ == "materialise_instances: "@ + reason@,
            _ => false,
        },
{
    match times {
        Ok(times) => Ok(event_instances_at(event.id, &times)),
        Err(reason) => Err(join("materialise_instances: ", reason.as_str())),
    }
}

/// What to log of keeping the occurrences, if it failed.
pub fn store_event_instances(kept: Result<(), StorageFailure>) -> (r: Result<(), String>)
    ensures
        match (kept, r) {
            (Ok(_), Ok(_)) => true,
            (Err(failure), Err(message)) => message@ == "upsert_event_instances: "@
                + failure.message@,
            _ => false,
        },
{
    match kept {
        Ok(_) => Ok(()),
        Err(failure) => Err(join("upsert_event_instances: ", failure.message.as_str())),
    }
}

// ─── Read ─────────────────────────────────────────────────────────────────────

/// What the event identifier in a path comes to.
pub open spec fn event_id_of(text: Seq<char>) -> Result<EventId, Refusal> {
    match identified(parsed_uuid(text), "invalid event ID"@) {
        Ok(uuid) => Ok(EventId(uuid)),
        Err(refusal) => Err(refusal),
    }
}

/// Reads the event identifier in a path.
pub fn parse_event_id(text: &str) -> (r: Result<EventId, Rejection>)
    ensures
        outcome(r) == event_id_of(text@),
{
    match identify(parse_uuid(text), "invalid event ID") {
        Ok(uuid) => Ok(EventId(uuid)),
        Err(rejection) => Err(rejection),
    }
}

/// `GET /api/v1/events/{id}`: the answer once the event has been read.
pub fn get_event(read: Result<Option<Event>, StorageFailure>) -> (r: Result<
    Reply<EventResponse>,
    Rejection,
>)
    ensures
        match (found_row(read, "event not found"@), outcome(r)) {
            (Ok(event), Ok(reply)) => reply.status == StatusCode::Success && reply.body.shows(
                event,
            ),
            (Err(refusal), Err(answer)) => answer == refusal,
            _ => false,
        },
{
    match found(read, "event not found") {
        Ok(event) => Ok(Reply { status: StatusCode::Success, body: event_to_response(&event) }),
        Err(rejection) => Err(rejection),
    }
}

/// Whether the responses show the events one by one.
pub open spec fn show_all(responses: Seq<EventResponse>, events: Seq<Event>) -> bool {
    &&& responses.len() == events.len()
    &&& forall|i: int| 0 <= i < events.len() ==> (#[trigger] responses[i]).shows(events[i])
}

/// `GET /api/v1/events`: the answer once the events have been read.
pub fn list_events_handler(read: Result<Vec<Event>, StorageFailure>) -> (r: Result<
    Reply<Vec<EventResponse>>,
    Rejection,
>)
    ensures
        match (stored_value(read), outcome(r)) {
            (Ok(events), Ok(reply)) => reply.status == StatusCode::Success && show_all(
                reply.body@,
                events@,
            ),
            (Err(refusal), Err(answer)) => answer == refusal,
            _ => false,
        },
{
    let events = match stored(read) {
        Ok(events) => events,
        Err(rejection) => return Err(rejection),
    };
    let mut body: Vec<EventResponse> = Vec::new();
    for i in 0..events.len()
        invariant
            show_all(body@, events@.take(i as int)),
    {
        body.push(event_to_response(&events[i]));
    }
    proof {
        assert(events@.take(events@.len() as int) =~= events@);
    }
    Ok(Reply { status: StatusCode::Success, body })
}

// ─── Override ─────────────────────────────────────────────────────────────────

/// Why an overlay is refused before the event is looked up, if it is: the
/// identifier in the path, then the date, then the action. `id` and `day` are
/// what they were read as.
pub open spec fn override_refusal(
    id: Option<u128>,
    day: Option<int>,
    req: CreateOverrideRequest,
    complaint: String,
) -> Option<Refusal> {
    if id is None {
        Some(Refusal::bad_request("invalid event ID"@))
    } else if day is None {
        Some(Refusal::unprocessable(date_complaint("instance_date"@, req.instance_date@)))
    } else if OverrideAction::of_text(req.action@) is None {
        Some(Refusal::unprocessable("action: "@ + complaint@))
    } else {
        None
    }
}

/// Whether `overlay` is what a request asks for at `now`.
pub open spec fn is_overlay_of(
    overlay: EventOverride,
    id: Option<u128>,
    day: Option<int>,
    req: CreateOverrideRequest,
    now: Timestamp,
) -> bool {
    &&& is_version_7(overlay.id.0)
    &&& Some(overlay.source_event_id.0) == id
    &&& Some(overlay.instance_date@) == day
    &&& Some(overlay.action) == OverrideAction::of_text(req.action@)
    &&& overlay.payload == req.payload
    &&& overlay.created_by == MemberId(PLACEHOLDER_MEMBER)
    &&& overlay.created_at == now
}

/// `POST /api/v1/events/{id}/override`: the overlay that the request asks for,
/// to be kept if the event exists. `complaint` is what is said of an unknown
/// action.
pub fn create_override(
    id: &str,
    req: CreateOverrideRequest,
    complaint: String,
    now: Timestamp,
) -> (r: Result<EventOverride, Rejection>)
    ensures
        ({
            let uuid = parsed_uuid(id@);
            let day = parsed_date(req.instance_date@);
            match r {
                Ok(overlay) => {
                    &&& override_refusal(uuid, day, req, complaint) is None
                    &&& is_overlay_of(overlay, uuid, day, req, now)
                },
                Err(rejection) => override_refusal(uuid, day, req, complaint) == Some(rejection@),
            }
        }),
{
    let date = parse_iso_date(req.instance_date.as_str());
    build_override(parse_uuid(id), date, req, complaint, now)
}

/// The overlay that a request asks for, its identifier and its date already read.
pub fn build_override(
    id: Option<u128>,
    date: Option<Date>,
    req: CreateOverrideRequest,
    complaint: String,
    now: Timestamp,
) -> (r: Result<EventOverride, Rejection>)
    ensures
        match r {
            Ok(overlay) => {
                &&& override_refusal(id, day_of(date), req, complaint) is None
                &&& is_overlay_of(overlay, id, day_of(date), req, now)
            },
            Err(rejection) => override_refusal(id, day_of(date), req, complaint) == Some(rejection@),
        },
{
    let event_id = match identify(id, "invalid event ID") {
        Ok(uuid) => EventId(uuid),
        Err(rejection) => return Err(rejection),
    };
    let instance_date = match date_or_complaint(
        date,
        "instance_date",
        req.instance_date.as_str(),
    ) {
        Ok(date) => date,
        Err(message) => return Err(Rejection::unprocessable(message)),
    };
    let action = match OverrideAction::parse(req.action.as_str()) {
        Some(action) => action,
        None => return Err(Rejection::unprocessable(join("action: ", complaint.as_str()))),
    };
    Ok(
        EventOverride::new(
            event_id,
            instance_date,
            action,
            req.payload,
            placeholder_member(),
            now,
        ),
    )
}

/// Whether the overlay may be kept: its event must exist.
pub fn override_target(read: Result<Option<Event>, StorageFailure>) -> (r: Result<(), Rejection>)
    ensures
        outcome(r) == (match found_row(read, "event not found"@) {
            Ok(_) => Ok(()),
            Err(refusal) => Err(refusal),
        }),
{
    match found(read, "event not found") {
        Ok(_) => Ok(()),
        Err(rejection) => Err(rejection),
    }
}

/// The answer once storage has been asked to keep the overlay: 201 with its
/// identifier and action, or 500.
pub fn created_override(overlay: &EventOverride, kept: Result<(), StorageFailure>) -> (r: Result<
    Reply<OverrideResponse>,
    Rejection,
>)
    ensures
        match r {
            Ok(reply) => {
                &&& kept is Ok
                &&& reply.status == StatusCode::Created
                &&& writes_uuid(reply.body.id@, overlay.id.0)
                &&& reply.body.action@ == overlay.action.text()
            },
            Err(rejection) => kept is Err && rejection@ == Refusal::internal(),
        },
{
    match kept {
        Ok(_) => Ok(
            Reply {
                status: StatusCode::Created,
                body: OverrideResponse {
                    id: uuid_text(overlay.id.0),
                    action: overlay.action.as_str().to_owned(),
                },
            },
        ),
        Err(_) => Err(Rejection::internal()),
    }
}

/// An event is addressed by the identifier it is shown with: a path that holds
/// it names that very event.
pub proof fn shown_event_is_addressable(response: EventResponse, event: Event)
    requires
        response.shows(event),
    ensures
        event_id_of(response.id@) == Ok::<_, Refusal>(event.id),
{
}

} // verus!
