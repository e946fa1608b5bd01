//! Members, the inbox and subscribed calendars.

use vstd::prelude::*;

use crate::api::calendar::{
    calendar_to_response, create_calendar, created_calendar, delete_calendar_handler,
    get_calendar, list_calendars_handler, parse_calendar_id, patch_calendar, refresh_calendar,
    refreshed_calendar, stored_to_response, CalendarComplaints, CalendarResponse,
    CalendarsResponse, CreateCalendarRequest,
};
use crate::api::inbox::{
    capture_inbox_item, captured_item, default_limit, default_source, inbox_item_to_response,
    list_recent, listed_recent, CaptureInboxItemRequest, InboxItemResponse, ListRecentQuery,
};
use crate::api::member::{
    create_member, created_member, delete_member_handler, get_member, list_members_handler,
    member_to_response, parse_member_id, real_members, CreateMemberRequest, MemberResponse,
    MembersResponse,
};
use crate::dates::{displayed_time, formatted_rfc3339, parsed_rfc3339, Timestamp};
use crate::ids::{is_version_7, parsed_uuid, CalendarId, MemberId};
use crate::laws::events::tells_time_if_any;
use crate::laws::terms::{
    agree, answers_removal, can_be_written, is_400, is_422, is_bare_500, is_unfound,
    says_something, tells_id, tells_time,
};
use crate::model::calendar::{
    normalise_feed_url, Calendar, CalendarSyncState, StoredCalendar, SyncStatus,
};
use crate::model::inbox::InboxItem;
use crate::model::member::Member;
use crate::reply::{DeletedResponse, Rejection, Reply, StatusCode, StorageFailure};
use crate::text::blank;

verus! {

// ─── Members ──────────────────────────────────────────────────────────────────

/// Whether a response tells a member, field by field.
pub open spec fn tells_member(shown: MemberResponse, member: Member) -> bool {
    &&& tells_id(shown.id@, member.id.0)
    &&& shown.display_name@ == member.display_name@
    &&& agree(shown.initial, member.initial)
    &&& agree(shown.color, member.color)
    &&& tells_time(shown.created_at@, member.created_at)
}

/// A member is registered exactly if they have a name and no unknown colour, as the
/// request says; the colour is kept under the name that the palette gives it.
pub proof fn new_member_is_who_was_asked_for(
    req: CreateMemberRequest,
    color: Result<String, String>,
    blank_name: String,
    now: Timestamp,
    r: Result<Member, Rejection>,
)
    requires
        call_ensures(create_member, (req, color, blank_name, now), r),
    ensures
        ({
            let known = req.color is Some ==> color is Ok;
            &&& r is Ok <==> known && says_something(req.display_name@)
            &&& r matches Ok(member) ==> {
                &&& is_version_7(member.id.0)
                &&& member.display_name@ == req.display_name@
                &&& agree(member.initial, req.initial)
                &&& member.color is Some <==> req.color is Some
                &&& member.color is Some ==> (member.color->0)@ == (color->Ok_0)@
                &&& member.created_at == now
            }
            &&& r matches Err(rejection) ==> {
                &&& !known ==> is_422(rejection, (color->Err_0)@)
                &&& known ==> is_422(rejection, blank_name@)
            }
        }),
{
    if says_something(req.display_name@) {
        assert(!blank(req.display_name@));
    }
}

proof fn real_members_are_a_filter(members: Seq<Member>)
    ensures
        real_members(members) == members.filter(
            |m: Member| m.id.0 != 0x7000_8000_0000_0000_0001u128,
        ),
    decreases members.len(),
{
    reveal(Seq::filter);
    if members.len() > 0 {
        real_members_are_a_filter(members.drop_last());
    }
}

/// Everyone but the placeholder is listed, in order, and the placeholder is not.
pub proof fn everyone_but_the_placeholder_is_listed(
    read: Result<Vec<Member>, StorageFailure>,
    r: Result<Reply<MembersResponse>, Rejection>,
)
    requires
        call_ensures(list_members_handler, (read,), r),
    ensures
        r is Ok <==> read is Ok,
        r matches Ok(reply) ==> {
            let listed = (read->Ok_0)@.filter(
                |m: Member| m.id.0 != 0x7000_8000_0000_0000_0001u128,
            );
            &&& reply.status == StatusCode::Success
            &&& reply.body.members@.len() == listed.len()
            &&& forall|k: int|
                0 <= k < listed.len() ==> tells_member(#[trigger] reply.body.members@[k], listed[k])
        },
        r matches Err(rejection) ==> is_bare_500(rejection),
{
    if let Ok(reply) = r {
        real_members_are_a_filter((read->Ok_0)@);
        let listed = real_members((read->Ok_0)@);
        assert forall|k: int| 0 <= k < listed.len() implies tells_member(
            #[trigger] reply.body.members@[k],
            listed[k],
        ) by {
            assert(reply.body.members@[k].shows(listed[k]));
        }
    }
}

/// Members that were kept or found are told; a path that names none is refused; one
/// that is removed is named.
pub proof fn members_are_told(
    member: Member,
    shown: MemberResponse,
    kept: Result<(), StorageFailure>,
    created: Result<Reply<MemberResponse>, Rejection>,
    text: &str,
    named: Result<MemberId, Rejection>,
    read: Result<Option<Member>, StorageFailure>,
    told: Result<Reply<MemberResponse>, Rejection>,
    id: MemberId,
    call: Result<bool, StorageFailure>,
    removed: Result<Reply<DeletedResponse>, Rejection>,
)
    requires
        call_ensures(member_to_response, (&member,), shown),
        call_ensures(created_member, (&member, kept), created),
        call_ensures(parse_member_id, (text,), named),
        call_ensures(get_member, (read,), told),
        call_ensures(delete_member_handler, (id, call), removed),
    ensures
        tells_member(shown, member),
        created is Ok <==> kept is Ok,
        created matches Ok(reply) ==> reply.status == StatusCode::Created && tells_member(
            reply.body,
            member,
        ),
        created matches Err(rejection) ==> is_bare_500(rejection),
        named is Ok <==> parsed_uuid(text@) is Some,
        named is Ok ==> Some((named->Ok_0).0) == parsed_uuid(text@),
        named matches Err(rejection) ==> is_400(rejection, "invalid member ID"@),
        told is Ok <==> read is Ok && read->Ok_0 is Some,
        told matches Ok(reply) ==> reply.status == StatusCode::Success && tells_member(
            reply.body,
            (read->Ok_0)->0,
        ),
        told matches Err(rejection) ==> is_unfound(rejection, read, "member not found"@),
        answers_removal(removed, id.0, call, "member not found"@),
{
}

// ─── Inbox ────────────────────────────────────────────────────────────────────

/// A thought is captured exactly if it says something, as it was written down; it
/// waits to be sorted.
pub proof fn thought_is_captured_as_it_is(
    req: CaptureInboxItemRequest,
    now: Timestamp,
    r: Result<InboxItem, Rejection>,
    unsaid: String,
)
    requires
        call_ensures(capture_inbox_item, (req, now), r),
        call_ensures(default_source, (), unsaid),
    ensures
        r is Ok <==> says_something(req.raw_text@),
        r matches Ok(item) ==> {
            &&& is_version_7(item.id.0)
            &&& item.raw_text@ == req.raw_text@
            &&& item.captured_by.0 == 0x7000_8000_0000_0000_0001u128
            &&& item.captured_at == now
            &&& item.source@ == req.source@
            &&& item.triage_state@ == "untriaged"@
            &&& item.triaged_to is None
        },
        r matches Err(rejection) ==> is_422(rejection, "raw_text must not be empty"@),
        unsaid@ == "touch"@,
{
    if says_something(req.raw_text@) {
        assert(!blank(req.raw_text@));
    }
}

/// As many items are listed as asked for, twenty if the request does not say; more
/// than a hundred are refused.
pub proof fn at_most_a_hundred_items_are_listed(
    params: ListRecentQuery,
    r: Result<u32, Rejection>,
    unasked: u32,
)
    requires
        call_ensures(list_recent, (params,), r),
        call_ensures(default_limit, (), unasked),
    ensures
        r is Ok <==> params.limit <= 100,
        r is Ok ==> r->Ok_0 == params.limit,
        r matches Err(rejection) ==> is_400(rejection, "limit must be ≤ 100"@),
        unasked == 20,
{
}

/// Whether a response tells an item, field by field. Its time is written as RFC
/// 3339, or displayed where that has no text for it.
pub open spec fn tells_item(shown: InboxItemResponse, item: InboxItem) -> bool {
    &&& tells_id(shown.id@, item.id.0)
    &&& shown.raw_text@ == item.raw_text@
    &&& tells_id(shown.captured_by@, item.captured_by.0)
    &&& {
        ||| formatted_rfc3339(item.captured_at@) == Some(shown.captured_at@)
        ||| formatted_rfc3339(item.captured_at@) is None && shown.captured_at@
            == displayed_time(item.captured_at@)
    }
    &&& shown.source@ == item.source@
    &&& shown.triage_state@ == item.triage_state@
    &&& agree(shown.triaged_to, item.triaged_to)
}

/// Items that were kept or read are told, in order.
pub proof fn items_are_told(
    item: InboxItem,
    shown: InboxItemResponse,
    kept: Result<(), StorageFailure>,
    created: Result<Reply<InboxItemResponse>, Rejection>,
    read: Result<Vec<InboxItem>, StorageFailure>,
    all: Result<Reply<Vec<InboxItemResponse>>, Rejection>,
)
    requires
        call_ensures(inbox_item_to_response, (&item,), shown),
        call_ensures(captured_item, (&item, kept), created),
        call_ensures(listed_recent, (read,), all),
    ensures
        tells_item(shown, item),
        created is Ok <==> kept is Ok,
        created matches Ok(reply) ==> reply.status == StatusCode::Created
            && tells_item(reply.body, item),
        created matches Err(rejection) ==> is_bare_500(rejection),
        all is Ok <==> read is Ok,
        all matches Ok(reply) ==> {
            &&& reply.status == StatusCode::Success
            &&& reply.body@.len() == (read->Ok_0)@.len()
            &&& forall|k: int|
                0 <= k < reply.body@.len() ==> tells_item(
                    #[trigger] reply.body@[k],
                    (read->Ok_0)@[k],
                )
        },
        all matches Err(rejection) ==> is_bare_500(rejection),
{
    if let Ok(reply) = all {
        assert forall|k: int| 0 <= k < reply.body@.len() implies tells_item(
            #[trigger] reply.body@[k],
            (read->Ok_0)@[k],
        ) by {
            assert(reply.body@[k].shows((read->Ok_0)@[k]));
        }
    }
}

/// The text that an inbox item is shown with tells its time, or displays it where
/// RFC 3339 has no text.
pub proof fn displayed_text_tells_the_time(at: Timestamp, r: String)
    requires
        call_ensures(Timestamp::rfc3339_or_display, (at,), r),
    ensures
        can_be_written(at@) ==> parsed_rfc3339(r@) == Some(at@),
{
}

// ─── Calendars ────────────────────────────────────────────────────────────────

/// The name of a status.
pub open spec fn is_name_of(text: Seq<char>, status: SyncStatus) -> bool {
    &&& status is Never ==> text == "never"@
    &&& status is Synced ==> text == "ok"@
    &&& status is Unreachable ==> text == "unreachable"@
    &&& status is ParseError ==> text == "parse_error"@
}

/// Every status is written as its name, and a new calendar was never synchronised.
pub proof fn new_calendar_was_never_synchronised(
    status: SyncStatus,
    r: &'static str,
    fresh: CalendarSyncState,
)
    requires
        call_ensures(SyncStatus::as_str, (status,), r),
        call_ensures(CalendarSyncState::fresh, (), fresh),
    ensures
        is_name_of(r@, status),
        fresh.last_synced_at is None,
        fresh.last_status is Never,
        fresh.last_error is None,
        fresh.event_count == 0,
{
}

/// Whether a text starts with a scheme.
pub open spec fn has_scheme(url: Seq<char>, scheme: Seq<char>) -> bool {
    scheme.len() <= url.len() && url.take(scheme.len() as int) == scheme
}

proof fn prefixes_are_schemes(url: Seq<char>, scheme: Seq<char>)
    ensures
        has_scheme(url, scheme) <==> scheme.is_prefix_of(url),
{
    if scheme.is_prefix_of(url) {
        assert(url.take(scheme.len() as int) =~= scheme);
    }
    if has_scheme(url, scheme) {
        assert(scheme =~= url.subrange(0, scheme.len() as int));
    }
}

/// An address with the scheme of a web page is kept as it is, `webcal` stands for
/// `https`, and any other scheme is refused; nothing else of an address changes.
pub proof fn addresses_are_kept_but_for_webcal(url: String, r: Option<String>)
    requires
        call_ensures(normalise_feed_url, (url,), r),
    ensures
        r is Some <==> has_scheme(url@, "webcal://"@) || has_scheme(url@, "https://"@)
            || has_scheme(url@, "http://"@),
        has_scheme(url@, "webcal://"@) ==> (r->0)@ == "https://"@ + url@.skip(9),
        has_scheme(url@, "https://"@) || has_scheme(url@, "http://"@) ==> (r->0)@ == url@,
{
    reveal_strlit("webcal://");
    reveal_strlit("https://");
    reveal_strlit("http://");
    prefixes_are_schemes(url@, "webcal://"@);
    prefixes_are_schemes(url@, "https://"@);
    prefixes_are_schemes(url@, "http://"@);
    if has_scheme(url@, "webcal://"@) {
        assert(url@[0] == url@.take(9)[0]);
        assert(url@[0] == 'w');
        if has_scheme(url@, "https://"@) {
            assert(url@[0] == url@.take(8)[0]);
        }
        if has_scheme(url@, "http://"@) {
            assert(url@[0] == url@.take(7)[0]);
        }
    }
}

/// Whether an address is the one that a text is kept under.
pub open spec fn is_kept_address(kept: Seq<char>, url: Seq<char>) -> bool {
    if has_scheme(url, "webcal://"@) {
        kept == "https://"@ + url.skip(9)
    } else {
        kept == url && (has_scheme(url, "https://"@) || has_scheme(url, "http://"@))
    }
}

/// Whether a text can be subscribed to.
pub open spec fn is_address(url: Seq<char>) -> bool {
    has_scheme(url, "webcal://"@) || has_scheme(url, "https://"@) || has_scheme(url, "http://"@)
}

/// A calendar is subscribed to exactly if it has a name, an address that can be
/// fetched and no unknown category, as the request says; it is synchronised from
/// the start.
pub proof fn new_calendar_is_what_was_asked_for(
    req: CreateCalendarRequest,
    category: Result<String, String>,
    complaints: CalendarComplaints,
    now: Timestamp,
    r: Result<Calendar, Rejection>,
)
    requires
        call_ensures(create_calendar, (req, category, complaints, now), r),
    ensures
        ({
            let known = req.category is Some ==> category is Ok;
            let name = says_something(req.name@);
            &&& r is Ok <==> known && name && is_address(req.url@)
            &&& r matches Ok(calendar) ==> {
                &&& is_version_7(calendar.id.0)
                &&& calendar.name@ == req.name@
                &&& is_kept_address(calendar.url@, req.url@)
                &&& req.category is Some ==> calendar.category@ == (category->Ok_0)@
                &&& req.category is None ==> calendar.category@ == "other"@
                &&& calendar.enabled
                &&& calendar.created_at == now
            }
            &&& r matches Err(rejection) ==> {
                &&& !known ==> is_422(rejection, "category: "@ + (category->Err_0)@)
                &&& known && !name ==> is_422(rejection, complaints.name@)
                &&& known && name ==> is_422(rejection, complaints.url@)
            }
        }),
{
    if says_something(req.name@) {
        assert(!blank(req.name@));
    }
    prefixes_are_schemes(req.url@, "webcal://"@);
    prefixes_are_schemes(req.url@, "https://"@);
    prefixes_are_schemes(req.url@, "http://"@);
}

/// Whether a response tells a calendar and how its synchronisation goes, field by
/// field.
pub open spec fn tells_calendar(
    shown: CalendarResponse,
    calendar: Calendar,
    sync: CalendarSyncState,
) -> bool {
    &&& tells_id(shown.id@, calendar.id.0)
    &&& shown.name@ == calendar.name@
    &&& shown.url@ == calendar.url@
    &&& shown.category@ == calendar.category@
    &&& shown.enabled == calendar.enabled
    &&& tells_time(shown.created_at@, calendar.created_at)
    &&& is_name_of(shown.last_status@, sync.last_status)
    &&& tells_time_if_any(shown.last_synced_at, sync.last_synced_at)
    &&& agree(shown.last_error, sync.last_error)
    &&& shown.event_count == sync.event_count
}

/// A response tells every field of its calendar and of its state; a new calendar is
/// told as one that was never synchronised.
pub proof fn calendars_are_told(
    calendar: Calendar,
    sync: CalendarSyncState,
    shown: CalendarResponse,
    stored: StoredCalendar,
    shown_stored: CalendarResponse,
    kept: Result<(), StorageFailure>,
    created: Result<Reply<CalendarResponse>, Rejection>,
)
    requires
        call_ensures(calendar_to_response, (&calendar, &sync), shown),
        call_ensures(stored_to_response, (&stored,), shown_stored),
        call_ensures(created_calendar, (&calendar, kept), created),
    ensures
        tells_calendar(shown, calendar, sync),
        tells_calendar(shown_stored, stored.calendar, stored.sync),
        created is Ok <==> kept is Ok,
        created matches Ok(reply) ==> {
            &&& reply.status == StatusCode::Created
            &&& tells_calendar(
                reply.body,
                calendar,
                (CalendarSyncState {
                    last_synced_at: None,
                    last_status: SyncStatus::Never,
                    last_error: None,
                    event_count: 0,
                }),
            )
        },
        created matches Err(rejection) ==> is_bare_500(rejection),
{
}

/// Every calendar that a listing read is told, in order.
pub proof fn listed_calendars_are_told(
    read: Result<Vec<StoredCalendar>, StorageFailure>,
    r: Result<Reply<CalendarsResponse>, Rejection>,
)
    requires
        call_ensures(list_calendars_handler, (read,), r),
    ensures
        r is Ok <==> read is Ok,
        r matches Ok(reply) ==> {
            &&& reply.status == StatusCode::Success
            &&& reply.body.calendars@.len() == (read->Ok_0)@.len()
            &&& forall|k: int|
                0 <= k < reply.body.calendars@.len() ==> tells_calendar(
                    #[trigger] reply.body.calendars@[k],
                    (read->Ok_0)@[k].calendar,
                    (read->Ok_0)@[k].sync,
                )
        },
        r matches Err(rejection) ==> is_bare_500(rejection),
{
    if let Ok(reply) = r {
        assert forall|k: int| 0 <= k < reply.body.calendars@.len() implies tells_calendar(
            #[trigger] reply.body.calendars@[k],
            (read->Ok_0)@[k].calendar,
            (read->Ok_0)@[k].sync,
        ) by {
            assert(reply.body.calendars@[k].shows(
                (read->Ok_0)@[k].calendar,
                (read->Ok_0)@[k].sync,
            ));
        }
    }
}

/// A calendar that was found is told, and handed to the synchronisation as it is; a
/// path that names none is refused; one that is removed is named.
pub proof fn calendars_are_found_switched_and_removed(
    text: &str,
    named: Result<CalendarId, Rejection>,
    read: Result<Option<StoredCalendar>, StorageFailure>,
    told: Result<Reply<CalendarResponse>, Rejection>,
    refreshed: Result<StoredCalendar, Rejection>,
    id: CalendarId,
    call: Result<bool, StorageFailure>,
    switched: Result<(), Rejection>,
    removed: Result<Reply<DeletedResponse>, Rejection>,
)
    requires
        call_ensures(parse_calendar_id, (text,), named),
        call_ensures(get_calendar, (read,), told),
        call_ensures(refresh_calendar, (read,), refreshed),
        call_ensures(patch_calendar, (call,), switched),
        call_ensures(delete_calendar_handler, (id, call), removed),
    ensures
        named is Ok <==> parsed_uuid(text@) is Some,
        named is Ok ==> Some((named->Ok_0).0) == parsed_uuid(text@),
        named matches Err(rejection) ==> is_400(rejection, "invalid calendar ID"@),
        told is Ok <==> read is Ok && read->Ok_0 is Some,
        told matches Ok(reply) ==> reply.status == StatusCode::Success && tells_calendar(
            reply.body,
            ((read->Ok_0)->0).calendar,
            ((read->Ok_0)->0).sync,
        ),
        told matches Err(rejection) ==> is_unfound(rejection, read, "calendar not found"@),
        refreshed is Ok <==> read is Ok && read->Ok_0 is Some,
        refreshed is Ok ==> Some(refreshed->Ok_0) == read->Ok_0,
        refreshed matches Err(rejection) ==> is_unfound(rejection, read, "calendar not found"@),
        switched is Ok <==> call is Ok && call->Ok_0,
        switched matches Err(rejection) ==> is_unfound(rejection, call, "calendar not found"@),
        answers_removal(removed, id.0, call, "calendar not found"@),
{
}

/// A refresh that came to an end is answered with the calendar as it is now,
/// however its feed was; one that did not is a bare 500.
pub proof fn refreshed_calendar_is_told(
    synced: Result<usize, String>,
    read: Result<Option<StoredCalendar>, StorageFailure>,
    r: Result<Reply<CalendarResponse>, Rejection>,
)
    requires
        call_ensures(refreshed_calendar, (synced, read), r),
    ensures
        r is Ok <==> synced is Ok && read is Ok && read->Ok_0 is Some,
        r matches Ok(reply) ==> reply.status == StatusCode::Success && tells_calendar(
            reply.body,
            ((read->Ok_0)->0).calendar,
            ((read->Ok_0)->0).sync,
        ),
        r matches Err(rejection) ==> {
            &&& synced is Err ==> is_bare_500(rejection)
            &&& synced is Ok ==> is_unfound(rejection, read, "calendar not found"@)
        },
{
}

} // verus!
