//! The terms that the properties are stated in: when a text tells a value, and
//! when an answer is a refusal.

use vstd::prelude::*;

use crate::dates::{parsed_date, parsed_rfc3339, Moment, Timestamp};
use crate::ids::{hyphenated, parsed_uuid};
use crate::reply::{DeletedResponse, Rejection, Reply, StatusCode, StorageFailure};
use crate::text::is_white_space;

verus! {

/// Whether a text holds a character that is not white space.
pub open spec fn says_something(text: Seq<char>) -> bool {
    exists|i: int| 0 <= i < text.len() && !is_white_space(#[trigger] text[i])
}

/// Whether two texts that may be absent are both absent, or the same text.
pub open spec fn agree(one: Option<String>, other: Option<String>) -> bool {
    &&& one is Some <==> other is Some
    &&& one is Some ==> (one->0)@ == (other->0)@
}

/// Whether RFC 3339 has a text for a moment.
pub open spec fn can_be_written(moment: Moment) -> bool {
    &&& 1721060 <= moment.julian_day
    &&& moment.offset_seconds % 60 == 0
    &&& -86_400 < moment.offset_seconds < 86_400
}

/// Whether a text tells a time: the time is read back from it, if it can be
/// written at all.
pub open spec fn tells_time(text: Seq<char>, at: Timestamp) -> bool {
    if can_be_written(at@) {
        parsed_rfc3339(text) == Some(at@)
    } else {
        text.len() == 0
    }
}

/// Whether a text that may be absent tells a time that may be.
pub open spec fn may_tell_time(text: Option<String>, at: Option<Timestamp>) -> bool {
    &&& text is Some <==> at is Some && can_be_written((at->0)@)
    &&& text is Some ==> parsed_rfc3339((text->0)@) == Some((at->0)@)
}

/// Whether a text tells a day: the day is read back from it.
pub open spec fn tells_day(text: Seq<char>, day: int) -> bool {
    parsed_date(text) == Some(day)
}

/// Whether a text tells an identifier: it is its text, and it is read back.
pub open spec fn tells_id(text: Seq<char>, uuid: u128) -> bool {
    text == hyphenated(uuid) && parsed_uuid(text) == Some(uuid)
}

/// Whether a time is the one that a text is read as, if there is a text.
pub open spec fn is_time_read(at: Option<Timestamp>, text: Option<String>) -> bool {
    &&& at is Some <==> text is Some
    &&& at is Some ==> parsed_rfc3339((text->0)@) == Some((at->0)@)
}

/// Whether a text that may be absent is absent or a time.
pub open spec fn is_no_time_or_one(text: Option<String>) -> bool {
    text is Some ==> parsed_rfc3339((text->0)@) is Some
}

/// Whether a number that may be absent is absent or from 1 to 5.
pub open spec fn is_no_level_or_one(value: Option<u8>) -> bool {
    value is Some ==> 1 <= value->0 <= 5
}

/// Whether a rejection is a 400 with the given text.
pub open spec fn is_400(rejection: Rejection, message: Seq<char>) -> bool {
    &&& rejection.status == StatusCode::BadRequest
    &&& rejection.error is Some
    &&& (rejection.error->0)@ == message
}

/// Whether a rejection is a 404 with the given text.
pub open spec fn is_404(rejection: Rejection, message: Seq<char>) -> bool {
    &&& rejection.status == StatusCode::NotFound
    &&& rejection.error is Some
    &&& (rejection.error->0)@ == message
}

/// Whether a rejection is a 422 with the given text.
pub open spec fn is_422(rejection: Rejection, message: Seq<char>) -> bool {
    &&& rejection.status == StatusCode::UnprocessableEntity
    &&& rejection.error is Some
    &&& (rejection.error->0)@ == message
}

/// Whether a rejection is a 500 that says nothing.
pub open spec fn is_bare_500(rejection: Rejection) -> bool {
    rejection.status == StatusCode::InternalServerError && rejection.error is None
}

/// Whether a rejection is that of a row that was not found, or could not be read.
pub open spec fn is_unfound<T>(
    rejection: Rejection,
    read: Result<T, StorageFailure>,
    missing: Seq<char>,
) -> bool {
    &&& read is Ok ==> is_404(rejection, missing)
    &&& read is Err ==> is_bare_500(rejection)
}

/// Whether an answer is that to a removal: 200 with the identifier if there was
/// such a row, 404 if there was none, and a bare 500 if it failed.
pub open spec fn answers_removal(
    r: Result<Reply<DeletedResponse>, Rejection>,
    id: u128,
    call: Result<bool, StorageFailure>,
    missing: Seq<char>,
) -> bool {
    &&& r is Ok <==> call is Ok && call->Ok_0
    &&& r matches Ok(reply) ==> {
        &&& reply.status == StatusCode::Success
        &&& tells_id(reply.body.id@, id)
        &&& reply.body.deleted
    }
    &&& r matches Err(rejection) ==> is_unfound(rejection, call, missing)
}

} // verus!
