//! Events: what a request or a draft makes of them, how they are shown, and the
//! overlays of their occurrences.

use vstd::prelude::*;

use crate::api::event::{
    build_event, build_override, create_event, create_override, created_event, created_override,
    event_instances_at, event_instances_with, event_rows_with, event_to_response, get_event,
    layout_window, list_events_handler, materialise_event_instances, override_target,
    parse_event_id, store_event_instances, time_to_text, CreateEventRequest, CreateOverrideRequest,
    EventComplaints, EventResponse, OverrideResponse,
};
use crate::api::fields::TimeField;
use crate::dates::{parsed_date, parsed_rfc3339, Date, Timestamp};
use crate::horizon::Window;
use crate::ids::{hyphenated, is_version_7, parsed_uuid, EventId, MemberId};
use crate::laws::tasks::{is_rule_of, refuses_rule, rule_can_be_taken};
use crate::laws::terms::{
    agree, is_400, is_404, is_422, is_bare_500, is_no_time_or_one, is_time_read, says_something,
    tells_id, tells_time,
};
use crate::model::event::{
    Event, EventDraft, EventError, EventInstance, EventOverride, EventSource, EventSourceKind,
    OverrideAction,
};
use crate::reply::{Rejection, Reply, StatusCode, StorageFailure};
use crate::text::blank;

verus! {

// ─── Sources, actions and drafts ──────────────────────────────────────────────

/// A native event has no feed and can be edited; one from a feed has its UID, its
/// calendar and the time it was read, and cannot.
pub proof fn sources_say_where_events_come_from(
    native: EventSource,
    uid: String,
    calendar: String,
    now: Timestamp,
    feed: EventSource,
)
    requires
        call_ensures(EventSource::native, (), native),
        call_ensures(EventSource::ics, (uid, calendar, now), feed),
    ensures
        native.kind is Native,
        native.external_id is None,
        native.calendar_id is None,
        native.last_synced_at is None,
        !native.read_only,
        feed.kind is Ics,
        feed.external_id is Some && (feed.external_id->0)@ == uid@,
        feed.calendar_id is Some && (feed.calendar_id->0)@ == calendar@,
        feed.last_synced_at == Some(now),
        feed.read_only,
{
}

/// Every kind of source is written as its name.
pub proof fn source_kinds_are_written_as_their_names(kind: EventSourceKind, r: &'static str)
    requires
        call_ensures(EventSourceKind::as_str, (kind,), r),
    ensures
        kind is Native ==> r@ == "native"@,
        kind is Ics ==> r@ == "ics"@,
{
}

/// A text is read as the action it names, and as none if it names none.
pub proof fn actions_are_read_by_their_names(text: &str, r: Option<OverrideAction>)
    requires
        call_ensures(OverrideAction::parse, (text,), r),
    ensures
        r == Some(OverrideAction::Cancel) <==> text@ == "cancel"@,
        r == Some(OverrideAction::Reschedule) <==> text@ == "reschedule"@,
        r == Some(OverrideAction::Annotate) <==> text@ == "annotate"@,
{
    reveal_strlit("cancel");
    reveal_strlit("reschedule");
    reveal_strlit("annotate");
    assert("cancel"@.len() == 6 && "reschedule"@.len() == 10 && "annotate"@.len() == 8);
}

/// Every action is written as its name.
pub proof fn actions_are_written_as_their_names(action: OverrideAction, r: &'static str)
    requires
        call_ensures(OverrideAction::as_str, (action,), r),
    ensures
        is_name_of(r@, action),
{
}

/// The name of an action.
pub open spec fn is_name_of(text: Seq<char>, action: OverrideAction) -> bool {
    &&& action is Cancel ==> text == "cancel"@
    &&& action is Reschedule ==> text == "reschedule"@
    &&& action is Annotate ==> text == "annotate"@
}

/// Whether an event does not end before it starts.
pub open spec fn ends_in_time(start_at: Timestamp, end_at: Option<Timestamp>) -> bool {
    end_at is Some ==> start_at@.instant() <= (end_at->0)@.instant()
}

/// Whether a timezone is the one that was given, or Amsterdam's.
pub open spec fn is_zone(timezone: Seq<char>, given: Option<String>) -> bool {
    &&& given is Some ==> timezone == (given->0)@
    &&& given is None ==> timezone == "Europe/Amsterdam"@
}

/// A draft makes an event exactly if it has a title, has no blank timezone and
/// does not end before it starts; the event is then what the draft says.
pub proof fn draft_makes_what_it_says(
    draft: EventDraft,
    now: Timestamp,
    r: Result<Event, EventError>,
)
    requires
        call_ensures(EventDraft::build, (draft, now), r),
    ensures
        ({
            let title = says_something(draft.title@);
            let zone = draft.timezone is Some ==> says_something((draft.timezone->0)@);
            let end = ends_in_time(draft.start_at, draft.end_at);
            &&& r is Ok <==> title && zone && end
            &&& r matches Err(error) ==> {
                &&& error is EmptyTitle <==> !title
                &&& error is EmptyTimezone <==> title && !zone
                &&& error is EndBeforeStart <==> title && zone && !end
            }
            &&& r matches Ok(event) ==> {
                &&& is_version_7(event.id.0)
                &&& event.title@ == draft.title@
                &&& event.start_at == draft.start_at
                &&& event.end_at == draft.end_at
                &&& event.all_day == draft.all_day
                &&& is_zone(event.timezone@, draft.timezone)
                &&& agree(event.location, draft.location)
                &&& event.recurrence == draft.recurrence
                &&& event.source == draft.source
                &&& event.created_at == now
                &&& event.updated_at == now
            }
        }),
{
    if says_something(draft.title@) {
        assert(!blank(draft.title@));
    }
    if draft.timezone is Some && says_something((draft.timezone->0)@) {
        assert(!blank((draft.timezone->0)@));
    }
}

// ─── How events are shown ─────────────────────────────────────────────────────

/// Whether a text tells a time, both of which may be absent.
pub open spec fn tells_time_if_any(text: Option<String>, at: Option<Timestamp>) -> bool {
    &&& text is Some <==> at is Some
    &&& text is Some ==> tells_time((text->0)@, at->0)
}

/// Whether a response tells an event, field by field.
pub open spec fn tells_event(shown: EventResponse, event: Event) -> bool {
    &&& tells_id(shown.id@, event.id.0)
    &&& shown.title@ == event.title@
    &&& tells_time(shown.start_at@, event.start_at)
    &&& tells_time_if_any(shown.end_at, event.end_at)
    &&& shown.all_day == event.all_day
    &&& shown.timezone@ == event.timezone@
    &&& agree(shown.location, event.location)
    &&& shown.recurrence_rrule is Some <==> event.recurrence is Some
    &&& shown.recurrence_timezone is Some <==> event.recurrence is Some
    &&& event.recurrence is Some ==> (shown.recurrence_rrule->0)@ == event.recurrence->0.rrule@
    &&& event.recurrence is Some ==> (shown.recurrence_timezone->0)@
        == event.recurrence->0.timezone@
    &&& event.source.kind is Native ==> shown.source_kind@ == "native"@
    &&& event.source.kind is Ics ==> shown.source_kind@ == "ics"@
    &&& shown.read_only == event.source.read_only
    &&& tells_time(shown.created_at@, event.created_at)
    &&& tells_time(shown.updated_at@, event.updated_at)
}

/// A response tells every field of its event.
pub proof fn response_tells_the_event(event: Event, shown: EventResponse)
    requires
        call_ensures(event_to_response, (&event,), shown),
    ensures
        tells_event(shown, event),
{
}

/// The text of a time tells the time.
pub proof fn time_text_tells_the_time(at: Option<Timestamp>, r: Option<String>)
    requires
        call_ensures(time_to_text, (at,), r),
    ensures
        tells_time_if_any(r, at),
{
}

// ─── Creation ─────────────────────────────────────────────────────────────────

/// Whether an event is what a request asks for, all but its times.
pub open spec fn is_event_asked_for(event: Event, req: CreateEventRequest, now: Timestamp) -> bool {
    &&& is_version_7(event.id.0)
    &&& event.title@ == req.title@
    &&& req.all_day is None ==> !event.all_day
    &&& req.all_day is Some ==> event.all_day == req.all_day->0
    &&& is_zone(event.timezone@, req.timezone)
    &&& agree(event.location, req.location)
    &&& is_rule_of(event.recurrence, req.recurrence_rrule, req.recurrence_timezone)
    &&& event.source.kind is Native
    &&& event.source.external_id is None
    &&& event.source.calendar_id is None
    &&& event.source.last_synced_at is None
    &&& !event.source.read_only
    &&& event.created_at == now
    &&& event.updated_at == now
}

/// An event is made exactly if all that the request gives can be taken; it is then
/// what the request says, native and editable.
pub proof fn new_event_is_what_was_asked_for(
    req: CreateEventRequest,
    verdict: Result<(), String>,
    complaints: EventComplaints,
    now: Timestamp,
    r: Result<Event, Rejection>,
)
    requires
        call_ensures(create_event, (req, verdict, complaints, now), r),
    ensures
        ({
            let start = parsed_rfc3339(req.start_at@);
            let rule = rule_can_be_taken(req.recurrence_rrule, req.recurrence_timezone, verdict);
            let end = is_no_time_or_one(req.end_at);
            let title = says_something(req.title@);
            let zone = req.timezone is Some ==> says_something((req.timezone->0)@);
            let in_time = req.end_at is Some ==> start->0.instant() <= parsed_rfc3339(
                (req.end_at->0)@,
            )->0.instant();
            &&& r is Ok <==> start is Some && rule && end && title && zone && in_time
            &&& r matches Ok(event) ==> {
                &&& is_event_asked_for(event, req, now)
                &&& start == Some(event.start_at@)
                &&& is_time_read(event.end_at, req.end_at)
            }
            &&& r matches Err(rejection) ==> {
                &&& start is None ==> is_422(rejection, "start_at: invalid RFC 3339 datetime"@)
                &&& start is Some && !rule ==> refuses_rule(
                    rejection,
                    req.recurrence_rrule,
                    req.recurrence_timezone,
                    verdict,
                )
                &&& start is Some && rule && !end ==> is_422(
                    rejection,
                    "end_at: invalid RFC 3339 datetime"@,
                )
                &&& start is Some && rule && end && !title ==> is_422(rejection, complaints.title@)
                &&& start is Some && rule && end && title && !zone ==> is_422(
                    rejection,
                    complaints.timezone@,
                )
                &&& start is Some && rule && end && title && zone ==> is_422(
                    rejection,
                    complaints.end@,
                )
            }
        }),
{
    if says_something(req.title@) {
        assert(!blank(req.title@));
    }
    if req.timezone is Some && says_something((req.timezone->0)@) {
        assert(!blank((req.timezone->0)@));
    }
}

/// The same of an event whose times are already read.
pub proof fn event_takes_the_times_as_read(
    req: CreateEventRequest,
    start_at: Option<Timestamp>,
    end_at: TimeField,
    verdict: Result<(), String>,
    complaints: EventComplaints,
    now: Timestamp,
    r: Result<Event, Rejection>,
)
    requires
        call_ensures(build_event, (req, start_at, end_at, verdict, complaints, now), r),
    ensures
        r is Ok <==> {
            &&& start_at is Some
            &&& rule_can_be_taken(req.recurrence_rrule, req.recurrence_timezone, verdict)
            &&& end_at !is Malformed
            &&& says_something(req.title@)
            &&& req.timezone is Some ==> says_something((req.timezone->0)@)
            &&& end_at matches TimeField::At(end) ==> (start_at->0)@.instant() <= end@.instant()
        },
        r matches Ok(event) ==> {
            &&& is_event_asked_for(event, req, now)
            &&& event.start_at@ == (start_at->0)@
            &&& end_at is Absent ==> event.end_at is None
            &&& end_at matches TimeField::At(end) ==> event.end_at is Some && (event.end_at->0)@
                == end@
        },
{
    if says_something(req.title@) {
        assert(!blank(req.title@));
    }
    if req.timezone is Some && says_something((req.timezone->0)@) {
        assert(!blank((req.timezone->0)@));
    }
}

/// What is said of an error is what the complaints hold for it.
pub proof fn complaints_are_said_of_their_errors(
    complaints: EventComplaints,
    error: EventError,
    r: String,
)
    requires
        call_ensures(EventComplaints::about, (complaints, error), r),
    ensures
        error is EmptyTitle ==> r@ == complaints.title@,
        error is EmptyTimezone ==> r@ == complaints.timezone@,
        error is EndBeforeStart ==> r@ == complaints.end@,
{
}

/// An event that was kept is answered with 201 and told; one that was not, with a
/// bare 500.
pub proof fn kept_event_is_told(
    event: Event,
    kept: Result<(), StorageFailure>,
    r: Result<Reply<EventResponse>, Rejection>,
)
    requires
        call_ensures(created_event, (&event, kept), r),
    ensures
        r is Ok <==> kept is Ok,
        r matches Ok(reply) ==> reply.status == StatusCode::Created && tells_event(
            reply.body,
            event,
        ),
        r matches Err(rejection) ==> is_bare_500(rejection),
{
}

// ─── Occurrences ──────────────────────────────────────────────────────────────

/// Whether the rows are one for each time, of the event and at that time.
pub open spec fn are_rows_of(
    rows: Seq<EventInstance>,
    event_id: EventId,
    times: Seq<Timestamp>,
) -> bool {
    &&& rows.len() == times.len()
    &&& forall|k: int|
        0 <= k < times.len() ==> {
            &&& (#[trigger] rows[k]).event_id == event_id
            &&& rows[k].scheduled_at == times[k]
            &&& exists|uuid: u128|
                is_version_7(uuid) && rows[k].id@ == #[trigger] hyphenated(uuid)
        }
}

proof fn instances_are_rows(rows: Seq<EventInstance>, event_id: EventId, times: Seq<Timestamp>)
    requires
        crate::api::event::are_instances_at(rows, event_id, times),
    ensures
        are_rows_of(rows, event_id, times),
{
    assert forall|k: int| 0 <= k < times.len() implies {
        &&& (#[trigger] rows[k]).event_id == event_id
        &&& rows[k].scheduled_at == times[k]
        &&& exists|uuid: u128| is_version_7(uuid) && rows[k].id@ == #[trigger] hyphenated(uuid)
    } by {
        assert(crate::api::event::is_instance_at(rows[k], event_id, times[k]));
    }
}

/// Each time gets one row of the event.
pub proof fn each_time_gets_a_row(
    event_id: EventId,
    times: Vec<Timestamp>,
    rows: Vec<EventInstance>,
)
    requires
        call_ensures(event_instances_at, (event_id, &times), rows),
    ensures
        are_rows_of(rows@, event_id, times@),
{
    instances_are_rows(rows@, event_id, times@);
}

/// Rows under given identifiers have these identifiers.
pub proof fn rows_take_their_identifiers(
    event_id: EventId,
    times: Vec<Timestamp>,
    occurrences: Vec<(EventId, Timestamp)>,
    ids: Vec<u128>,
    of_event: Vec<EventInstance>,
    of_many: Vec<EventInstance>,
)
    requires
        ids@.len() == times@.len(),
        ids@.len() == occurrences@.len(),
        call_ensures(event_instances_with, (event_id, &times, &ids), of_event),
        call_ensures(event_rows_with, (&occurrences, &ids), of_many),
    ensures
        of_event@.len() == times@.len(),
        forall|k: int|
            0 <= k < times@.len() ==> {
                &&& (#[trigger] of_event@[k]).id@ == hyphenated(ids@[k])
                &&& of_event@[k].event_id == event_id
                &&& of_event@[k].scheduled_at == times@[k]
            },
        of_many@.len() == occurrences@.len(),
        forall|k: int|
            0 <= k < occurrences@.len() ==> {
                &&& (#[trigger] of_many@[k]).id@ == hyphenated(ids@[k])
                &&& of_many@[k].event_id == occurrences@[k].0
                &&& of_many@[k].scheduled_at == occurrences@[k].1
            },
{
}

/// A one-shot event is laid out nowhere; one that recurs, for sixty days from when
/// it was made, at the same clock time and offset.
pub proof fn recurring_event_is_laid_out_for_sixty_days(event: Event, window: Option<Window>)
    requires
        call_ensures(layout_window, (&event,), window),
    ensures
        window is Some <==> event.recurrence is Some,
        window is Some ==> {
            &&& window->0.from == event.created_at
            &&& window->0.until@.julian_day == event.created_at@.julian_day + 60
            &&& window->0.until@.nanos_of_day == event.created_at@.nanos_of_day
            &&& window->0.until@.offset_seconds == event.created_at@.offset_seconds
        },
{
}

/// What a rule was expanded to is made into rows, one for each time; what it failed
/// with is repeated.
pub proof fn expansion_is_made_into_rows(
    event: Event,
    times: Result<Vec<Timestamp>, String>,
    r: Result<Vec<EventInstance>, String>,
)
    requires
        call_ensures(materialise_event_instances, (&event, times), r),
    ensures
        r is Ok <==> times is Ok,
        r matches Ok(rows) ==> are_rows_of(rows@, event.id, (times->Ok_0)@),
        r matches Err(message) ==> message@ == "materialise_instances: "@ + (times->Err_0)@,
{
    if let Ok(rows) = r {
        instances_are_rows(rows@, event.id, (times->Ok_0)@);
    }
}

/// What storage said when rows could not be kept is repeated.
pub proof fn unkept_rows_are_reported(kept: Result<(), StorageFailure>, r: Result<(), String>)
    requires
        call_ensures(store_event_instances, (kept,), r),
    ensures
        r is Ok <==> kept is Ok,
        r is Err ==> (r->Err_0)@ == "upsert_event_instances: "@ + (kept->Err_0).message@,
{
}

// ─── Reads ────────────────────────────────────────────────────────────────────

/// A path that names no event is refused, and one that does names it.
pub proof fn path_names_an_event(text: &str, r: Result<EventId, Rejection>)
    requires
        call_ensures(parse_event_id, (text,), r),
    ensures
        r is Ok <==> parsed_uuid(text@) is Some,
        r is Ok ==> Some((r->Ok_0).0) == parsed_uuid(text@),
        r matches Err(rejection) ==> is_400(rejection, "invalid event ID"@),
{
}

/// An event that was found is told; one that was not found is a 404, and a read
/// that failed a bare 500.
pub proof fn read_event_is_told(
    read: Result<Option<Event>, StorageFailure>,
    r: Result<Reply<EventResponse>, Rejection>,
)
    requires
        call_ensures(get_event, (read,), r),
    ensures
        r is Ok <==> read is Ok && read->Ok_0 is Some,
        r matches Ok(reply) ==> reply.status == StatusCode::Success && tells_event(
            reply.body,
            (read->Ok_0)->0,
        ),
        r matches Err(rejection) ==> {
            &&& read is Ok ==> is_404(rejection, "event not found"@)
            &&& read is Err ==> is_bare_500(rejection)
        },
{
}

/// Every event that a listing read is told, in order.
pub proof fn listed_events_are_told(
    read: Result<Vec<Event>, StorageFailure>,
    r: Result<Reply<Vec<EventResponse>>, Rejection>,
)
    requires
        call_ensures(list_events_handler, (read,), r),
    ensures
        r is Ok <==> read is Ok,
        r matches Ok(reply) ==> {
            &&& reply.status == StatusCode::Success
            &&& reply.body@.len() == (read->Ok_0)@.len()
            &&& forall|k: int|
                0 <= k < reply.body@.len() ==> tells_event(
                    #[trigger] reply.body@[k],
                    (read->Ok_0)@[k],
                )
        },
        r matches Err(rejection) ==> is_bare_500(rejection),
{
    if let Ok(reply) = r {
        assert forall|k: int| 0 <= k < reply.body@.len() implies tells_event(
            #[trigger] reply.body@[k],
            (read->Ok_0)@[k],
        ) by {
            assert(reply.body@[k].shows((read->Ok_0)@[k]));
        }
    }
}

// ─── Overlays ─────────────────────────────────────────────────────────────────

/// Whether a text names an action.
pub open spec fn is_a_name(text: Seq<char>) -> bool {
    text == "cancel"@ || text == "reschedule"@ || text == "annotate"@
}

/// Whether an overlay is the one that a request asks for.
pub open spec fn is_overlay_asked_for(
    overlay: EventOverride,
    event: u128,
    day: int,
    req: CreateOverrideRequest,
    now: Timestamp,
) -> bool {
    &&& is_version_7(overlay.id.0)
    &&& overlay.source_event_id.0 == event
    &&& overlay.instance_date@ == day
    &&& is_name_of(req.action@, overlay.action)
    &&& agree(overlay.payload, req.payload)
    &&& overlay.created_by.0 == 0x7000_8000_0000_0000_0001u128
    &&& overlay.created_at == now
}

/// Whether a rejection says why an overlay was refused.
pub open spec fn refuses_overlay(
    rejection: Rejection,
    event_is_named: bool,
    day_is_named: bool,
    req: CreateOverrideRequest,
    complaint: String,
) -> bool {
    &&& !event_is_named ==> is_400(rejection, "invalid event ID"@)
    &&& event_is_named && !day_is_named ==> is_422(
        rejection,
        "instance_date"@ + " '"@ + req.instance_date@ + "': expected YYYY-MM-DD"@,
    )
    &&& event_is_named && day_is_named ==> is_422(rejection, "action: "@ + complaint@)
}

/// An overlay is made exactly if the path names an event, the body a day and an
/// action; it is then what they say.
pub proof fn overlay_is_what_was_asked_for(
    id: &str,
    req: CreateOverrideRequest,
    complaint: String,
    now: Timestamp,
    r: Result<EventOverride, Rejection>,
)
    requires
        call_ensures(create_override, (id, req, complaint, now), r),
    ensures
        ({
            let event = parsed_uuid(id@);
            let day = parsed_date(req.instance_date@);
            &&& r is Ok <==> event is Some && day is Some && is_a_name(req.action@)
            &&& r matches Ok(overlay) ==> is_overlay_asked_for(overlay, event->0, day->0, req, now)
            &&& r matches Err(rejection) ==> refuses_overlay(
                rejection,
                event is Some,
                day is Some,
                req,
                complaint,
            )
        }),
{
}

/// The same of a request whose identifier and date are already read.
pub proof fn overlay_takes_the_day_as_read(
    id: Option<u128>,
    date: Option<Date>,
    req: CreateOverrideRequest,
    complaint: String,
    now: Timestamp,
    r: Result<EventOverride, Rejection>,
)
    requires
        call_ensures(build_override, (id, date, req, complaint, now), r),
    ensures
        r is Ok <==> id is Some && date is Some && is_a_name(req.action@),
        r matches Ok(overlay) ==> is_overlay_asked_for(overlay, id->0, (date->0)@, req, now),
        r matches Err(rejection) ==> refuses_overlay(
            rejection,
            id is Some,
            date is Some,
            req,
            complaint,
        ),
{
}

/// An overlay may be kept exactly if its event was found.
pub proof fn overlay_needs_its_event(
    read: Result<Option<Event>, StorageFailure>,
    r: Result<(), Rejection>,
)
    requires
        call_ensures(override_target, (read,), r),
    ensures
        r is Ok <==> read is Ok && read->Ok_0 is Some,
        r matches Err(rejection) ==> {
            &&& read is Ok ==> is_404(rejection, "event not found"@)
            &&& read is Err ==> is_bare_500(rejection)
        },
{
}

/// An overlay that was kept is answered with 201, its identifier and its action.
pub proof fn kept_overlay_is_told(
    overlay: EventOverride,
    kept: Result<(), StorageFailure>,
    r: Result<Reply<OverrideResponse>, Rejection>,
)
    requires
        call_ensures(created_override, (&overlay, kept), r),
    ensures
        r is Ok <==> kept is Ok,
        r matches Ok(reply) ==> {
            &&& reply.status == StatusCode::Created
            &&& tells_id(reply.body.id@, overlay.id.0)
            &&& is_name_of(reply.body.action@, overlay.action)
        },
        r matches Err(rejection) ==> is_bare_500(rejection),
{
}

/// A new overlay is made of what it is given.
pub proof fn overlay_is_made_of_what_it_is_given(
    event: EventId,
    date: Date,
    action: OverrideAction,
    payload: Option<String>,
    member: MemberId,
    now: Timestamp,
    r: EventOverride,
)
    requires
        call_ensures(EventOverride::new, (event, date, action, payload, member, now), r),
    ensures
        is_version_7(r.id.0),
        r.source_event_id == event,
        r.instance_date == date,
        r.action == action,
        r.payload == payload,
        r.created_by == member,
        r.created_at == now,
{
}

} // verus!
