//! Typed identifiers. Each is a UUID, held as the 128-bit number it writes out.

use vstd::prelude::*;

verus! {

/// A lower-case hexadecimal digit.
pub open spec fn hex_digit(d: int) -> char {
    if d < 10 {
        (48 + d) as char
    } else {
        (87 + d) as char
    }
}

/// The last `width` hexadecimal digits of `n`, with leading zeros.
pub open spec fn hex(n: nat, width: nat) -> Seq<char>
    decreases width,
{
    if width == 0 {
        Seq::empty()
    } else {
        hex(n / 16, (width - 1) as nat).push(hex_digit((n % 16) as int))
    }
}

/// The hyphenated text of a UUID: its 32 hexadecimal digits in groups of 8, 4,
/// 4, 4 and 12.
pub open spec fn hyphenated(uuid: u128) -> Seq<char> {
    let h = hex(uuid as nat, 32);
    h.subrange(0, 8) + seq!['-'] + h.subrange(8, 12) + seq!['-'] + h.subrange(12, 16) + seq!['-']
        + h.subrange(16, 20) + seq!['-'] + h.subrange(20, 32)
}

/// What `uuid::Uuid::parse_str` reads from a text.
pub uninterp spec fn parsed_uuid(text: Seq<char>) -> Option<u128>;

/// Whether `text` is the hyphenated text of a UUID, from which the UUID is read
/// back.
pub open spec fn writes_uuid(text: Seq<char>, uuid: u128) -> bool {
    text == hyphenated(uuid) && parsed_uuid(text) == Some(uuid)
}

/// Calls `uuid::Uuid::parse_str`: what it reads is a function of the text
/// alone, and from the hyphenated text of a UUID it reads that UUID.
#[verifier::external_body]
pub(crate) fn parse_uuid(text: &str) -> (r: Option<u128>)
    ensures
        r == parsed_uuid(text@),
        forall|uuid: u128| text@ == #[trigger] hyphenated(uuid) ==> r == Some(uuid),
{
    uuid::Uuid::parse_str(text).ok().map(|uuid| uuid.as_u128())
}

/// Calls the `Display` of `uuid::fmt::Hyphenated`: the hyphenated text of the
/// UUID, from which `uuid::Uuid::parse_str` reads the UUID back.
#[verifier::external_body]
pub(crate) fn uuid_text(uuid: u128) -> (r: String)
    ensures
        writes_uuid(r@, uuid),
{
    uuid::Uuid::from_u128(uuid).hyphenated().to_string()
}

/// Calls `uuid::Uuid::now_v7`: a UUID of version 7 and of the RFC 9562 variant.
/// The rest of it comes from the clock and from chance.
#[verifier::external_body]
pub(crate) fn new_uuid() -> (r: u128)
    ensures
        is_version_7(r),
{
    uuid::Uuid::now_v7().as_u128()
}

/// Draws `count` new UUIDs, one after the other.
pub fn new_uuids(count: usize) -> (r: Vec<u128>)
    ensures
        r@.len() == count,
        forall|i: int| 0 <= i < count ==> is_version_7(#[trigger] r@[i]),
{
    let mut out: Vec<u128> = Vec::new();
    for i in 0..count
        invariant
            out@.len() == i,
            forall|k: int| 0 <= k < i ==> is_version_7(#[trigger] out@[k]),
    {
        out.push(new_uuid());
    }
    out
}

/// How many numbers can be written with `width` hexadecimal digits.
spec fn hex_numbers(width: nat) -> nat
    decreases width,
{
    if width == 0 {
        1
    } else {
        16 * hex_numbers((width - 1) as nat)
    }
}

proof fn hex_has_its_width(n: nat, width: nat)
    ensures
        hex(n, width).len() == width,
    decreases width,
{
    if width > 0 {
        hex_has_its_width(n / 16, (width - 1) as nat);
    }
}

proof fn hex_tells_numbers_apart(n: nat, m: nat, width: nat)
    requires
        n < hex_numbers(width),
        m < hex_numbers(width),
        hex(n, width) == hex(m, width),
    ensures
        n == m,
    decreases width,
{
    if width > 0 {
        let fewer = (width - 1) as nat;
        let (a, b) = (hex(n, width), hex(m, width));
        assert(a.drop_last() =~= hex(n / 16, fewer));
        assert(b.drop_last() =~= hex(m / 16, fewer));
        assert(a.last() == hex_digit((n % 16) as int));
        assert(b.last() == hex_digit((m % 16) as int));
        hex_tells_numbers_apart(n / 16, m / 16, fewer);
    }
}

/// Different UUIDs have different texts.
pub proof fn different_uuids_have_different_texts(one: u128, other: u128)
    requires
        one != other,
    ensures
        hyphenated(one) != hyphenated(other),
{
    let (a, b) = (hex(one as nat, 32), hex(other as nat, 32));
    hex_has_its_width(one as nat, 32);
    hex_has_its_width(other as nat, 32);
    if hyphenated(one) == hyphenated(other) {
        let (s, t) = (hyphenated(one), hyphenated(other));
        assert(s.subrange(0, 8) =~= a.subrange(0, 8) && t.subrange(0, 8) =~= b.subrange(0, 8));
        assert(s.subrange(9, 13) =~= a.subrange(8, 12) && t.subrange(9, 13) =~= b.subrange(8, 12));
        assert(s.subrange(14, 18) =~= a.subrange(12, 16) && t.subrange(14, 18) =~= b.subrange(
            12,
            16,
        ));
        assert(s.subrange(19, 23) =~= a.subrange(16, 20) && t.subrange(19, 23) =~= b.subrange(
            16,
            20,
        ));
        assert(s.subrange(24, 36) =~= a.subrange(20, 32) && t.subrange(24, 36) =~= b.subrange(
            20,
            32,
        ));
        assert(a =~= a.subrange(0, 8) + a.subrange(8, 12) + a.subrange(12, 16) + a.subrange(16, 20)
            + a.subrange(20, 32));
        assert(b =~= b.subrange(0, 8) + b.subrange(8, 12) + b.subrange(12, 16) + b.subrange(16, 20)
            + b.subrange(20, 32));
        reveal_with_fuel(hex_numbers, 33);
        assert(hex_numbers(32) == 0x1_0000_0000_0000_0000_0000_0000_0000_0000nat);
        hex_tells_numbers_apart(one as nat, other as nat, 32);
    }
}

/// Whether the version and variant fields of a UUID say version 7 of RFC 9562.
pub open spec fn is_version_7(uuid: u128) -> bool {
    &&& (uuid as nat / 0x1000_0000_0000_0000_0000) % 16 == 7
    &&& (uuid as nat / 0x4000_0000_0000_0000) % 4 == 2
}

/// Identifies a task.
#[derive(Clone, Copy, Debug, PartialEq, Eq, Structural)]
pub struct TaskId(pub u128);

/// Identifies a household member.
#[derive(Clone, Copy, Debug, PartialEq, Eq, Structural)]
pub struct MemberId(pub u128);

/// Identifies a completion log entry.
#[derive(Clone, Copy, Debug, PartialEq, Eq, Structural)]
pub struct CompletionLogId(pub u128);

/// Identifies an event.
#[derive(Clone, Copy, Debug, PartialEq, Eq, Structural)]
pub struct EventId(pub u128);

/// Identifies an override of one event occurrence.
#[derive(Clone, Copy, Debug, PartialEq, Eq, Structural)]
pub struct EventOverrideId(pub u128);

/// Identifies a subscribed calendar.
#[derive(Clone, Copy, Debug, PartialEq, Eq, Structural)]
pub struct CalendarId(pub u128);

/// Identifies a planned meal.
#[derive(Clone, Copy, Debug, PartialEq, Eq, Structural)]
pub struct MealId(pub u128);

/// Identifies a grocery list.
#[derive(Clone, Copy, Debug, PartialEq, Eq, Structural)]
pub struct GroceryListId(pub u128);

/// Identifies a grocery item.
#[derive(Clone, Copy, Debug, PartialEq, Eq, Structural)]
pub struct GroceryItemId(pub u128);

/// Identifies a pantry item.
#[derive(Clone, Copy, Debug, PartialEq, Eq, Structural)]
pub struct PantryItemId(pub u128);

/// Identifies an inbox item.
#[derive(Clone, Copy, Debug, PartialEq, Eq, Structural)]
pub struct InboxItemId(pub u128);

/// The number behind [`placeholder_member`].
pub const PLACEHOLDER_MEMBER: u128 = 0x0000_0000_0000_7000_8000_0000_0000_0001;

/// The member that stands in for everyone until members can sign in, the UUID
/// `00000000-0000-7000-8000-000000000001`.
pub fn placeholder_member() -> (r: MemberId)
    ensures
        r == MemberId(PLACEHOLDER_MEMBER),
{
    MemberId(PLACEHOLDER_MEMBER)
}

} // verus!
