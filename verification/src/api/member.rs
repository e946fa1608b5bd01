//! The member endpoints.

use vstd::prelude::*;

use crate::dates::{writes_time, Timestamp};
use crate::ids::{
    is_version_7, new_uuid, parse_uuid, parsed_uuid, uuid_text, writes_uuid, MemberId,
    PLACEHOLDER_MEMBER,
};
use crate::model::member::Member;
use crate::reply::{
    changed_row, deleted, found, found_row, identified, identify, outcome, stored, stored_value,
    DeletedResponse, Refusal, Rejection, Reply, StatusCode, StorageFailure,
};
use crate::text::{blank, copy_text, is_blank, text_of};

verus! {

/// Body of `POST /api/v1/members`.
#[derive(Debug)]
pub struct CreateMemberRequest {
    /// Display name; must not be blank.
    pub display_name: String,
    /// Short label.
    pub initial: Option<String>,
    /// Name of an accent colour; must be a known one.
    pub color: Option<String>,
}

/// A member as the endpoints show it.
#[derive(Debug)]
pub struct MemberResponse {
    /// Identifies the member.
    pub id: String,
    /// Display name.
    pub display_name: String,
    /// Short label.
    pub initial: Option<String>,
    /// Name of an accent colour.
    pub color: Option<String>,
    /// When the member was registered.
    pub created_at: String,
}

/// Answer of `GET /api/v1/members`.
#[derive(Debug)]
pub struct MembersResponse {
    /// The members.
    pub members: Vec<MemberResponse>,
}

impl MemberResponse {
    /// Whether this is how `member` is shown.
    pub open spec fn shows(self, member: Member) -> bool {
        &&& writes_uuid(self.id@, member.id.0)
        &&& self.display_name@ == member.display_name@
        &&& text_of(self.initial) == text_of(member.initial)
        &&& text_of(self.color) == text_of(member.color)
        &&& writes_time(self.created_at@, member.created_at@)
    }
}

/// How a member is shown.
pub fn member_to_response(member: &Member) -> (r: MemberResponse)
    ensures
        r.shows(*member),
{
    MemberResponse {
        id: uuid_text(member.id.0),
        display_name: member.display_name.clone(),
        initial: copy_text(&member.initial),
        color: copy_text(&member.color),
        created_at: member.created_at.rfc3339_text(),
    }
}

/// Why a new member is refused, if it is: the colour is unknown, then the name
/// is blank.
pub open spec fn create_refusal(
    req: CreateMemberRequest,
    color: Result<String, String>,
    blank_name: String,
) -> Option<Refusal> {
    if req.color is Some && color is Err {
        Some(Refusal::unprocessable(color->Err_0@))
    } else if blank(req.display_name@) {
        Some(Refusal::unprocessable(blank_name@))
    } else {
        None
    }
}

/// `POST /api/v1/members`: the member that the request registers, or why it is
/// refused. `color` is the palette's answer on the colour that the request
/// names: the name it is kept under, or what is wrong with it. It is not looked
/// at when the request names none. `blank_name` is what is said of a blank name.
pub fn create_member(
    req: CreateMemberRequest,
    color: Result<String, String>,
    blank_name: String,
    now: Timestamp,
) -> (r: Result<Member, Rejection>)
    ensures
        match r {
            Ok(member) => {
                &&& create_refusal(req, color, blank_name) is None
                &&& is_version_7(member.id.0)
                &&& member.display_name == req.display_name
                &&& member.initial == req.initial
                &&& member.color == (if req.color is Some {
                    Some(color->Ok_0)
                } else {
                    None
                })
                &&& member.created_at == now
            },
            Err(rejection) => create_refusal(req, color, blank_name) == Some(rejection@),
        },
{
    let color = if req.color.is_some() {
        match color {
            Ok(color) => Some(color),
            Err(complaint) => return Err(Rejection::unprocessable(complaint)),
        }
    } else {
        None
    };
    if is_blank(req.display_name.as_str()) {
        return Err(Rejection::unprocessable(blank_name));
    }
    Ok(
        Member {
            id: MemberId(new_uuid()),
            display_name: req.display_name,
            initial: req.initial,
            color,
            created_at: now,
        },
    )
}

/// The answer once storage has been asked to keep the member: 201 with it, or 500.
pub fn created_member(member: &Member, kept: Result<(), StorageFailure>) -> (r: Result<
    Reply<MemberResponse>,
    Rejection,
>)
    ensures
        match r {
            Ok(reply) => kept is Ok && reply.status == StatusCode::Created && reply.body.shows(
                *member,
            ),
            Err(rejection) => kept is Err && rejection@ == Refusal::internal(),
        },
{
    match kept {
        Ok(_) => Ok(Reply { status: StatusCode::Created, body: member_to_response(member) }),
        Err(_) => Err(Rejection::internal()),
    }
}

/// The members without the placeholder, in their order.
pub open spec fn real_members(members: Seq<Member>) -> Seq<Member>
    decreases members.len(),
{
    if members.len() == 0 {
        members
    } else if members.last().id == MemberId(PLACEHOLDER_MEMBER) {
        real_members(members.drop_last())
    } else {
        real_members(members.drop_last()).push(members.last())
    }
}

/// Whether the responses show the members one by one.
pub open spec fn show_all(responses: Seq<MemberResponse>, members: Seq<Member>) -> bool {
    &&& responses.len() == members.len()
    &&& forall|i: int| 0 <= i < members.len() ==> (#[trigger] responses[i]).shows(members[i])
}

/// `GET /api/v1/members`: the answer once the members have been read. The
/// placeholder is no member of the household and is left out.
pub fn list_members_handler(read: Result<Vec<Member>, StorageFailure>) -> (r: Result<
    Reply<MembersResponse>,
    Rejection,
>)
    ensures
        match (stored_value(read), outcome(r)) {
            (Ok(members), Ok(reply)) => reply.status == StatusCode::Success && show_all(
                reply.body.members@,
                real_members(members@),
            ),
            (Err(refusal), Err(answer)) => answer == refusal,
            _ => false,
        },
{
    let all = match stored(read) {
        Ok(members) => members,
        Err(rejection) => return Err(rejection),
    };
    let mut members: Vec<MemberResponse> = Vec::new();
    for i in 0..all.len()
        invariant
            show_all(members@, real_members(all@.take(i as int))),
    {
        proof {
            assert(all@.take(i + 1).drop_last() =~= all@.take(i as int));
        }
        if all[i].id.0 != PLACEHOLDER_MEMBER {
            members.push(member_to_response(&all[i]));
        }
    }
    proof {
        assert(all@.take(all@.len() as int) =~= all@);
    }
    Ok(Reply { status: StatusCode::Success, body: MembersResponse { members } })
}

/// The placeholder is never listed, and everyone else is.
pub proof fn listing_leaves_out_the_placeholder(members: Seq<Member>)
    ensures
        forall|i: int|
            0 <= i < real_members(members).len() ==> (#[trigger] real_members(members)[i]).id
                != MemberId(PLACEHOLDER_MEMBER),
        forall|k: int|
            0 <= k < members.len() && (#[trigger] members[k]).id != MemberId(PLACEHOLDER_MEMBER)
                ==> real_members(members).contains(members[k]),
    decreases members.len(),
{
    if members.len() > 0 {
        let fewer = members.drop_last();
        listing_leaves_out_the_placeholder(fewer);
        let rest = real_members(fewer);
        let all = real_members(members);
        assert forall|i: int| 0 <= i < all.len() implies (#[trigger] all[i]).id != MemberId(
            PLACEHOLDER_MEMBER,
        ) by {
            if i < rest.len() {
                assert(all[i] == rest[i]);
            }
        }
        assert forall|k: int|
            0 <= k < members.len() && (#[trigger] members[k]).id != MemberId(
                PLACEHOLDER_MEMBER,
            ) implies all.contains(members[k]) by {
            if k < fewer.len() {
                assert(fewer[k] == members[k]);
                let j = choose|j: int| 0 <= j < rest.len() && rest[j] == members[k];
                assert(all[j] == members[k]);
            } else {
                assert(all[rest.len() as int] == members[k]);
            }
        }
    }
}

/// What the member identifier in a path comes to.
pub open spec fn member_id_of(text: Seq<char>) -> Result<MemberId, Refusal> {
    match identified(parsed_uuid(text), "invalid member ID"@) {
        Ok(uuid) => Ok(MemberId(uuid)),
        Err(refusal) => Err(refusal),
    }
}

/// Reads the member identifier in a path.
pub fn parse_member_id(text: &str) -> (r: Result<MemberId, Rejection>)
    ensures
        outcome(r) == member_id_of(text@),
{
    match identify(parse_uuid(text), "invalid member ID") {
        Ok(uuid) => Ok(MemberId(uuid)),
        Err(rejection) => Err(rejection),
    }
}

/// `GET /api/v1/members/{id}`: the answer once the member has been read.
pub fn get_member(read: Result<Option<Member>, StorageFailure>) -> (r: Result<
    Reply<MemberResponse>,
    Rejection,
>)
    ensures
        match (found_row(read, "member not found"@), outcome(r)) {
            (Ok(member), Ok(reply)) => reply.status == StatusCode::Success && reply.body.shows(
                member,
            ),
            (Err(refusal), Err(answer)) => answer == refusal,
            _ => false,
        },
{
    match found(read, "member not found") {
        Ok(member) => Ok(
            Reply { status: StatusCode::Success, body: member_to_response(&member) },
        ),
        Err(rejection) => Err(rejection),
    }
}

/// `DELETE /api/v1/members/{id}`: the answer once storage has been asked to
/// remove the member.
pub fn delete_member_handler(id: MemberId, call: Result<bool, StorageFailure>) -> (r: Result<
    Reply<DeletedResponse>,
    Rejection,
>)
    ensures
        match (changed_row(call, "member not found"@), outcome(r)) {
            (Ok(_), Ok(reply)) => {
                &&& reply.status == StatusCode::Success
                &&& writes_uuid(reply.body.id@, id.0)
                &&& reply.body.deleted
            },
            (Err(refusal), Err(answer)) => answer == refusal,
            _ => false,
        },
{
    deleted(id.0, call, "member not found")
}

/// A member is addressed by the identifier it is shown with: a path that holds
/// it names that very member.
pub proof fn shown_member_is_addressable(response: MemberResponse, member: Member)
    requires
        response.shows(member),
    ensures
        member_id_of(response.id@) == Ok::<_, Refusal>(member.id),
{
}

} // verus!
