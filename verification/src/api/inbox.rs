//! The inbox endpoints.

use vstd::prelude::*;

use crate::dates::{rfc3339_or_displayed, Timestamp};
use crate::ids::{
    is_version_7, new_uuid, placeholder_member, uuid_text, writes_uuid, InboxItemId, MemberId,
    PLACEHOLDER_MEMBER,
};
use crate::model::inbox::InboxItem;
use crate::reply::{
    outcome, stored, stored_value, Refusal, Rejection, Reply, StatusCode, StorageFailure,
};
use crate::text::{blank, copy_text, is_blank, text_of};

verus! {

/// The largest number of items that is listed.
pub const RECENT_CAP: u32 = 100;

/// Body of `POST /api/v1/inbox`.
#[derive(Debug)]
pub struct CaptureInboxItemRequest {
    /// The captured text; must not be blank.
    pub raw_text: String,
    /// Name of the way it was captured; see [`default_source`].
    pub source: String,
}

/// The way an item was captured when the request does not say.
pub fn default_source() -> (r: String)
    ensures
        r@ == "touch"@,
{
    "touch".to_owned()
}

/// Query of `GET /api/v1/inbox/recent`.
#[derive(Debug)]
pub struct ListRecentQuery {
    /// How many items to list; see [`default_limit`] and [`RECENT_CAP`].
    pub limit: u32,
}

/// How many items are listed when the request does not say.
pub fn default_limit() -> (r: u32)
    ensures
        r == 20,
{
    20
}

/// An item as the endpoints show it.
#[derive(Debug)]
pub struct InboxItemResponse {
    /// Identifies the item.
    pub id: String,
    /// The captured text.
    pub raw_text: String,
    /// Who captured it.
    pub captured_by: String,
    /// When, RFC 3339.
    pub captured_at: String,
    /// The way it was captured.
    pub source: String,
    /// How far its sorting got.
    pub triage_state: String,
    /// What it became.
    pub triaged_to: Option<String>,
}

impl InboxItemResponse {
    /// Whether this is how `item` is shown.
    pub open spec fn shows(self, item: InboxItem) -> bool {
        &&& writes_uuid(self.id@, item.id.0)
        &&& self.raw_text@ == item.raw_text@
        &&& writes_uuid(self.captured_by@, item.captured_by.0)
        &&& self.captured_at@ == rfc3339_or_displayed(item.captured_at@)
        &&& self.source@ == item.source@
        &&& self.triage_state@ == item.triage_state@
        &&& text_of(self.triaged_to) == text_of(item.triaged_to)
    }
}

/// How an item is shown.
pub fn inbox_item_to_response(item: &InboxItem) -> (r: InboxItemResponse)
    ensures
        r.shows(*item),
{
    InboxItemResponse {
        id: uuid_text(item.id.0),
        raw_text: item.raw_text.clone(),
        captured_by: uuid_text(item.captured_by.0),
        captured_at: item.captured_at.rfc3339_or_display(),
        source: item.source.clone(),
        triage_state: item.triage_state.clone(),
        triaged_to: copy_text(&item.triaged_to),
    }
}

/// `POST /api/v1/inbox`: the item that the request captures, or why it is
/// refused. A new item is untriaged.
pub fn capture_inbox_item(req: CaptureInboxItemRequest, now: Timestamp) -> (r: Result<
    InboxItem,
    Rejection,
>)
    ensures
        match r {
            Ok(item) => {
                &&& !blank(req.raw_text@)
                &&& is_version_7(item.id.0)
                &&& item.raw_text == req.raw_text
                &&& item.captured_by == MemberId(PLACEHOLDER_MEMBER)
                &&& item.captured_at == now
                &&& item.source == req.source
                &&& item.triage_state@ == "untriaged"@
                &&& item.triaged_to is None
            },
            Err(rejection) => blank(req.raw_text@) && rejection@ == Refusal::unprocessable(
                "raw_text must not be empty"@,
            ),
        },
{
    if is_blank(req.raw_text.as_str()) {
        return Err(Rejection::unprocessable("raw_text must not be empty".to_owned()));
    }
    Ok(
        InboxItem {
            id: InboxItemId(new_uuid()),
            raw_text: req.raw_text,
            captured_by: placeholder_member(),
            captured_at: now,
            source: req.source,
            triage_state: "untriaged".to_owned(),
            triaged_to: None,
        },
    )
}

/// The answer once storage has been asked to keep the item: 201 with it, or 500.
pub fn captured_item(item: &InboxItem, kept: Result<(), StorageFailure>) -> (r: Result<
    Reply<InboxItemResponse>,
    Rejection,
>)
    ensures
        match r {
            Ok(reply) => kept is Ok && reply.status == StatusCode::Created && reply.body.shows(
                *item,
            ),
            Err(rejection) => kept is Err && rejection@ == Refusal::internal(),
        },
{
    match kept {
        Ok(_) => Ok(Reply { status: StatusCode::Created, body: inbox_item_to_response(item) }),
        Err(_) => Err(Rejection::internal()),
    }
}

/// `GET /api/v1/inbox/recent`: how many items to read, or a refusal if the
/// request asks for more than the cap.
pub fn list_recent(params: ListRecentQuery) -> (r: Result<u32, Rejection>)
    ensures
        outcome(r) == (if params.limit <= RECENT_CAP {
            Ok(params.limit)
        } else {
            Err(Refusal::bad_request("limit must be ≤ 100"@))
        }),
{
    if params.limit > RECENT_CAP {
        return Err(Rejection::bad_request("limit must be ≤ 100".to_owned()));
    }
    Ok(params.limit)
}

/// Whether the responses show the items one by one.
pub open spec fn show_all(responses: Seq<InboxItemResponse>, items: Seq<InboxItem>) -> bool {
    &&& responses.len() == items.len()
    &&& forall|i: int| 0 <= i < items.len() ==> (#[trigger] responses[i]).shows(items[i])
}

/// The answer to a listing once the items have been read.
pub fn listed_recent(read: Result<Vec<InboxItem>, StorageFailure>) -> (r: Result<
    Reply<Vec<InboxItemResponse>>,
    Rejection,
>)
    ensures
        match (stored_value(read), outcome(r)) {
            (Ok(items), Ok(reply)) => reply.status == StatusCode::Success && show_all(
                reply.body@,
                items@,
            ),
            (Err(refusal), Err(answer)) => answer == refusal,
            _ => false,
        },
{
    let items = match stored(read) {
        Ok(items) => items,
        Err(rejection) => return Err(rejection),
    };
    let mut body: Vec<InboxItemResponse> = Vec::new();
    for i in 0..items.len()
        invariant
            show_all(body@, items@.take(i as int)),
    {
        body.push(inbox_item_to_response(&items[i]));
    }
    proof {
        assert(items@.take(items@.len() as int) =~= items@);
    }
    Ok(Reply { status: StatusCode::Success, body })
}

} // verus!
