//! Texts, dates, times, identifiers, fields and answers.

use vstd::prelude::*;
use vstd::utf8::{decode_utf8, valid_utf8};

use crate::api::fields::{
    build_range, date_or_complaint, parse_date, read_date, read_member, read_range,
    read_recurrence, read_time, rule_to_check, DateField, DateRange, MemberField, TimeField,
};
use crate::dates::{
    days_before_month, days_in_month, is_calendar_date, julian_day_of, parsed_date, parsed_rfc3339,
    Date, Timestamp,
};
use crate::feeds::{utf8_complaint, FeedDownload, FetchError};
use crate::horizon::{first_layout, horizon_window, Window};
use crate::ids::{
    hex, hex_digit, hyphenated, is_version_7, new_uuids, parsed_uuid, placeholder_member, MemberId,
};
use crate::laws::kitchen::{complaint_about, range_can_be_taken, refuses_range};
use crate::laws::stages::is_said_of;
use crate::laws::tasks::{is_rule_of, refuses_rule, rule_can_be_taken};
use crate::laws::terms::{
    answers_removal, is_400, is_404, is_422, is_bare_500, is_unfound, may_tell_time, says_something,
    tells_day, tells_time,
};
use crate::model::task::RecurrenceRule;
use crate::reply::{
    changed, deleted, found, identify, stored, DeletedResponse, Rejection, Reply, StatusCode,
    StorageFailure,
};
use crate::text::{
    all_digits, blank, copy_text, copy_texts, decimal, decimal_text, digits, digits_read_back,
    digits_text, is_blank, is_white_space, join, join3, lowercase, normalise_each, normalise_tag,
    normalise_tags, number, numbers_within, same_text, texts, trim, trimmed,
    trimmed_ends_are_not_white_space, white_space,
};

verus! {

// ─── Text ─────────────────────────────────────────────────────────────────────

/// The white space of Unicode is its twenty-five characters with that property.
pub proof fn white_space_is_that_of_unicode(c: char, r: bool)
    requires
        call_ensures(white_space, (c,), r),
    ensures
        r <==> seq![
            0x09u32,
            0x0a,
            0x0b,
            0x0c,
            0x0d,
            0x20,
            0x85,
            0xa0,
            0x1680,
            0x2000,
            0x2001,
            0x2002,
            0x2003,
            0x2004,
            0x2005,
            0x2006,
            0x2007,
            0x2008,
            0x2009,
            0x200a,
            0x2028,
            0x2029,
            0x202f,
            0x205f,
            0x3000,
        ].contains(c as u32),
{
    let all = seq![
        0x09u32,
        0x0a,
        0x0b,
        0x0c,
        0x0d,
        0x20,
        0x85,
        0xa0,
        0x1680,
        0x2000,
        0x2001,
        0x2002,
        0x2003,
        0x2004,
        0x2005,
        0x2006,
        0x2007,
        0x2008,
        0x2009,
        0x200a,
        0x2028,
        0x2029,
        0x202f,
        0x205f,
        0x3000,
    ];
    let n = c as u32;
    if 0x09 <= n <= 0x0d {
        assert(all[n - 0x09] == n);
    } else if n == 0x20 {
        assert(all[5] == n);
    } else if n == 0x85 {
        assert(all[6] == n);
    } else if n == 0xa0 {
        assert(all[7] == n);
    } else if n == 0x1680 {
        assert(all[8] == n);
    } else if 0x2000 <= n <= 0x200a {
        assert(all[9 + (n - 0x2000)] == n);
    } else if n == 0x2028 {
        assert(all[20] == n);
    } else if n == 0x2029 {
        assert(all[21] == n);
    } else if n == 0x202f {
        assert(all[22] == n);
    } else if n == 0x205f {
        assert(all[23] == n);
    } else if n == 0x3000 {
        assert(all[24] == n);
    }
}

/// A text is blank exactly if it holds no character but white space.
pub proof fn blank_text_says_nothing(s: &str, r: bool)
    requires
        call_ensures(is_blank, (s,), r),
    ensures
        r <==> !says_something(s@),
{
    if says_something(s@) {
        assert(!blank(s@));
    }
}

/// Whether a text is what is left of another when white space is cut from its two
/// ends, and as little as can be left is.
pub open spec fn is_cut_to(left: Seq<char>, s: Seq<char>) -> bool {
    &&& left.len() > 0 ==> !is_white_space(left[0]) && !is_white_space(left[left.len() - 1])
    &&& exists|from: int|
        0 <= from && from + left.len() <= s.len() && left == #[trigger] s.subrange(
            from,
            from + left.len(),
        ) && (forall|i: int| 0 <= i < from ==> is_white_space(#[trigger] s[i])) && (forall|i: int|
            from + left.len() <= i < s.len() ==> is_white_space(#[trigger] s[i]))
}

proof fn trimmed_is_cut(s: Seq<char>) -> (from: int)
    ensures
        0 <= from,
        from + trimmed(s).len() <= s.len(),
        trimmed(s) == s.subrange(from, from + trimmed(s).len()),
        forall|i: int| 0 <= i < from ==> is_white_space(#[trigger] s[i]),
        forall|i: int| from + trimmed(s).len() <= i < s.len() ==> is_white_space(#[trigger] s[i]),
    decreases s.len(),
{
    if s.len() == 0 {
        assert(s.subrange(0, 0) =~= s);
        0
    } else if is_white_space(s.first()) {
        let rest = s.drop_first();
        let from = trimmed_is_cut(rest);
        let n = trimmed(s).len() as int;
        assert(s.subrange(from + 1, from + 1 + n) =~= rest.subrange(from, from + n));
        assert forall|i: int| 0 <= i < from + 1 implies is_white_space(#[trigger] s[i]) by {
            if i > 0 {
                assert(rest[i - 1] == s[i]);
            }
        }
        assert forall|i: int| from + 1 + n <= i < s.len() implies is_white_space(
            #[trigger] s[i],
        ) by {
            assert(rest[i - 1] == s[i]);
        }
        from + 1
    } else if is_white_space(s.last()) {
        let rest = s.drop_last();
        let from = trimmed_is_cut(rest);
        let n = trimmed(s).len() as int;
        assert(s.subrange(from, from + n) =~= rest.subrange(from, from + n));
        assert forall|i: int| 0 <= i < from implies is_white_space(#[trigger] s[i]) by {
            assert(rest[i] == s[i]);
        }
        assert forall|i: int| from + n <= i < s.len() implies is_white_space(#[trigger] s[i]) by {
            if i < rest.len() {
                assert(rest[i] == s[i]);
            }
        }
        from
    } else {
        assert(s.subrange(0, s.len() as int) =~= s);
        0
    }
}

/// Trimming cuts the white space from the two ends of a text, all of it and nothing
/// else.
pub proof fn trimming_cuts_white_space_from_the_ends(s: &str, r: &str)
    requires
        call_ensures(trim, (s,), r),
    ensures
        is_cut_to(r@, s@),
{
    let from = trimmed_is_cut(s@);
    trimmed_ends_are_not_white_space(s@);
    assert(s@.subrange(from, from + r@.len()) == r@);
}

/// A tag is kept trimmed and in lower case; a tag of a list of tags by itself, in
/// its place.
pub proof fn tags_are_kept_trimmed_and_in_lower_case(
    tag: &str,
    kept: String,
    tags: Vec<String>,
    each: Vec<String>,
    left: Vec<String>,
)
    requires
        call_ensures(normalise_tag, (tag,), kept),
        call_ensures(normalise_each, (&tags,), each),
        call_ensures(normalise_tags, (&tags,), left),
    ensures
        kept@ == lowercase(trimmed(tag@)),
        each@.len() == tags@.len(),
        forall|k: int|
            0 <= k < each@.len() ==> (#[trigger] each@[k])@ == lowercase(trimmed(tags@[k]@)),
        texts(left@) == texts(each@).filter(|t: Seq<char>| t.len() > 0),
{
    assert(texts(each@).len() == each@.len());
    assert(texts(tags@).len() == tags@.len());
    assert forall|k: int| 0 <= k < each@.len() implies (#[trigger] each@[k])@ == lowercase(
        trimmed(tags@[k]@),
    ) by {
        assert(texts(each@)[k] == each@[k]@);
        assert(texts(tags@)[k] == tags@[k]@);
    }
    crate::laws::tasks::each_tag_is_normalised_by_itself(texts(tags@));
    assert(texts(each@) =~= texts(tags@).map_values(|t: Seq<char>| lowercase(trimmed(t))));
}

/// Texts are put together and copied as they are.
pub proof fn texts_are_put_together_as_they_are(
    a: &str,
    b: &str,
    c: &str,
    two: String,
    three: String,
    same: bool,
    text: Option<String>,
    copy: Option<String>,
    list: Vec<String>,
    copies: Vec<String>,
)
    requires
        call_ensures(join, (a, b), two),
        call_ensures(join3, (a, b, c), three),
        call_ensures(same_text, (a, b), same),
        call_ensures(copy_text, (&text,), copy),
        call_ensures(copy_texts, (&list,), copies),
    ensures
        two@ == a@ + b@,
        three@ == a@ + b@ + c@,
        same <==> a@ == b@,
        copy == text,
        copies@ == list@,
{
}

/// A number written with enough digits is read back from them, and has just as many.
pub proof fn written_numbers_read_back(n: u32, width: u32, r: String)
    requires
        call_ensures(digits_text, (n, width), r),
        n < numbers_within(width as nat),
    ensures
        r@.len() == width,
        all_digits(r@),
        number(r@) == n,
{
    digits_read_back(n as nat, width as nat);
}

proof fn decimals_read_back(n: nat)
    ensures
        decimal(n).len() > 0,
        all_digits(decimal(n)),
        number(decimal(n)) == n,
        n > 0 ==> decimal(n)[0] != '0',
        n == 0 ==> decimal(n).len() == 1,
    decreases n,
{
    if n < 10 {
        assert(decimal(n).drop_last() =~= Seq::empty());
        assert(number(decimal(n).drop_last()) == 0);
    } else {
        decimals_read_back(n / 10);
        assert(decimal(n).drop_last() =~= decimal(n / 10));
    }
}

/// A number in decimal is read back from its digits, and has no digit too many.
pub proof fn decimals_are_read_back(n: u32, r: String)
    requires
        call_ensures(decimal_text, (n,), r),
    ensures
        r@.len() > 0,
        all_digits(r@),
        number(r@) == n,
        n > 0 ==> r@[0] != '0',
        n == 0 ==> r@.len() == 1,
{
    decimals_read_back(n as nat);
}

// ─── The calendar ─────────────────────────────────────────────────────────────

/// The months have as many days as everyone learns, February one more in a leap
/// year.
pub proof fn months_have_their_days(year: int)
    ensures
        days_in_month(year, 1) == 31,
        days_in_month(year, 2) == (if (year % 4 == 0 && year % 100 != 0) || year % 400 == 0 {
            29int
        } else {
            28int
        }),
        days_in_month(year, 3) == 31,
        days_in_month(year, 4) == 30,
        days_in_month(year, 5) == 31,
        days_in_month(year, 6) == 30,
        days_in_month(year, 7) == 31,
        days_in_month(year, 8) == 31,
        days_in_month(year, 9) == 30,
        days_in_month(year, 10) == 31,
        days_in_month(year, 11) == 30,
        days_in_month(year, 12) == 31,
{
    assert(year % 400 == 0 ==> year % 4 == 0);
}

/// The numbers of days that follow each other follow each other, over the ends of
/// months and years; and the first day of the year 2000 has the number 2451545.
pub proof fn days_follow_each_other(year: int, month: int, day: int)
    requires
        is_calendar_date(year, month, day),
    ensures
        julian_day_of(year, month, day + 1) == julian_day_of(year, month, day) + 1,
        month < 12 ==> julian_day_of(year, month + 1, 1) == julian_day_of(
            year,
            month,
            days_in_month(year, month),
        ) + 1,
        julian_day_of(year + 1, 1, 1) == julian_day_of(year, 12, 31) + 1,
        julian_day_of(2000, 1, 1) == 2451545,
        1 <= month <= 12,
        1 <= day <= days_in_month(year, month),
{
    reveal_with_fuel(days_before_month, 13);
    let past = year - 1;
    assert((past + 1) / 4 == past / 4 + (if (past + 1) % 4 == 0 {
        1int
    } else {
        0
    }));
    assert((past + 1) / 100 == past / 100 + (if (past + 1) % 100 == 0 {
        1int
    } else {
        0
    }));
    assert((past + 1) / 400 == past / 400 + (if (past + 1) % 400 == 0 {
        1int
    } else {
        0
    }));
    assert(year % 400 == 0 ==> year % 100 == 0);
    assert(year % 100 == 0 ==> year % 4 == 0);
}

/// A text of four digits, a hyphen, two digits, a hyphen and two digits is read as
/// the day with these numbers, if the calendar has it; and as none otherwise.
pub proof fn dates_are_read_by_their_numbers(field: &str, text: &str, r: Result<Date, String>)
    requires
        call_ensures(parse_date, (field, text), r),
        text@.len() == 10,
        text@[4] == '-',
        text@[7] == '-',
        all_digits(text@.take(4)),
        all_digits(text@.subrange(5, 7)),
        all_digits(text@.subrange(8, 10)),
    ensures
        ({
            let year = number(text@.take(4));
            let month = number(text@.subrange(5, 7));
            let day = number(text@.subrange(8, 10));
            &&& r is Ok <==> is_calendar_date(year, month, day)
            &&& r matches Ok(date) ==> date@ == julian_day_of(year, month, day)
        }),
{
}

/// A text that is not read as a day is repeated in the complaint, which names its
/// field.
pub proof fn unread_dates_are_repeated(
    field: &str,
    text: &str,
    r: Result<Date, String>,
    date: Option<Date>,
    passed_on: Result<Date, String>,
)
    requires
        call_ensures(parse_date, (field, text), r),
        call_ensures(date_or_complaint, (date, field, text), passed_on),
    ensures
        r is Ok <==> parsed_date(text@) is Some,
        r matches Ok(day) ==> parsed_date(text@) == Some(day@),
        r matches Err(message) ==> message@ == field@ + " '"@ + text@ + "': expected YYYY-MM-DD"@,
        passed_on is Ok <==> date is Some,
        passed_on is Ok ==> Some(passed_on->Ok_0) == date,
        passed_on matches Err(message) ==> message@ == field@ + " '"@ + text@
            + "': expected YYYY-MM-DD"@,
{
}

/// A date is its day number, and days are counted on and back from it.
pub proof fn dates_are_counted_by_days(
    n: i32,
    made: Option<Date>,
    date: Date,
    number_of: i32,
    days: u32,
    later: Date,
    earlier: Date,
    other: Date,
    same: bool,
    since_monday: i32,
)
    requires
        call_ensures(Date::from_julian_day, (n,), made),
        call_ensures(Date::julian_day, (date,), number_of),
        call_ensures(Date::plus_days, (date, days), later),
        call_ensures(Date::minus_days, (date, days), earlier),
        call_ensures(Date::same_day, (date, other), same),
        call_ensures(Date::days_from_monday, (date,), since_monday),
    ensures
        made is Some <==> -1930999 <= n <= 5373484,
        made is Some ==> (made->0)@ == n,
        number_of == date@,
        later@ == date@ + days,
        earlier@ == date@ - days,
        same <==> date@ == other@,
        0 <= since_monday < 7,
        (date@ - since_monday) % 7 == 0,
{
}

/// A date is written so that it is read back.
pub proof fn written_dates_tell_their_days(
    date: Date,
    text: String,
    parts: (i32, u8, u8),
)
    requires
        call_ensures(Date::iso_text, (date,), text),
        call_ensures(Date::calendar, (date,), parts),
    ensures
        tells_day(text@, date@),
        is_calendar_date(parts.0 as int, parts.1 as int, parts.2 as int),
        julian_day_of(parts.0 as int, parts.1 as int, parts.2 as int) == date@,
{
}

// ─── Times ────────────────────────────────────────────────────────────────────

/// The nanoseconds of a clock time since midnight.
pub open spec fn clock(hour: u8, minute: u8, second: u8, nanosecond: u32) -> int {
    hour * 3_600_000_000_000 + minute * 60_000_000_000 + second * 1_000_000_000 + nanosecond
}

/// A time is made of a day, a clock time and an offset that are ones, and comes
/// apart into them.
pub proof fn times_are_made_of_their_parts(
    date: Date,
    hour: u8,
    minute: u8,
    second: u8,
    nanosecond: u32,
    offset: i32,
    made: Option<Timestamp>,
    at: Timestamp,
    parts: (Date, u8, u8, u8, u32, i32),
    day: Date,
    midnight: Timestamp,
)
    requires
        call_ensures(Timestamp::new, (date, hour, minute, second, nanosecond, offset), made),
        call_ensures(Timestamp::parts, (at,), parts),
        call_ensures(Timestamp::date, (at,), day),
        call_ensures(Timestamp::midnight_utc, (date,), midnight),
    ensures
        made is Some <==> hour <= 23 && minute <= 59 && second <= 59 && nanosecond <= 999_999_999
            && -93_600 < offset < 93_600,
        made is Some ==> {
            &&& (made->0)@.julian_day == date@
            &&& (made->0)@.nanos_of_day == clock(hour, minute, second, nanosecond)
            &&& (made->0)@.offset_seconds == offset
        },
        at@.julian_day == (parts.0)@,
        at@.nanos_of_day == clock(parts.1, parts.2, parts.3, parts.4),
        at@.offset_seconds == parts.5,
        parts.1 <= 23 && parts.2 <= 59 && parts.3 <= 59 && parts.4 <= 999_999_999,
        day@ == at@.julian_day,
        midnight@.julian_day == date@,
        midnight@.nanos_of_day == 0,
        midnight@.offset_seconds == 0,
{
}

/// Days are counted on and back from a time without touching its clock or offset,
/// as far as the calendar goes.
pub proof fn times_are_counted_by_days(
    at: Timestamp,
    days: u32,
    can_add: bool,
    can_subtract: bool,
    later: Timestamp,
    earlier: Timestamp,
)
    requires
        call_ensures(Timestamp::can_add_days, (at, days), can_add),
        call_ensures(Timestamp::can_subtract_days, (at, days), can_subtract),
        call_ensures(Timestamp::plus_days, (at, days), later),
        call_ensures(Timestamp::minus_days, (at, days), earlier),
    ensures
        can_add <==> at@.julian_day + days <= 5373484,
        can_subtract <==> -1930999 <= at@.julian_day - days,
        later@.julian_day == at@.julian_day + days,
        later@.nanos_of_day == at@.nanos_of_day,
        later@.offset_seconds == at@.offset_seconds,
        earlier@.julian_day == at@.julian_day - days,
        earlier@.nanos_of_day == at@.nanos_of_day,
        earlier@.offset_seconds == at@.offset_seconds,
{
}

/// One time lies before another by the clock in Greenwich: a day counts its
/// nanoseconds, and an hour to the east is an hour earlier.
pub proof fn times_are_ordered_in_greenwich(one: Timestamp, other: Timestamp, r: bool)
    requires
        call_ensures(Timestamp::is_before, (one, other), r),
    ensures
        r <==> (one@.julian_day - other@.julian_day) * 86_400_000_000_000 + (one@.nanos_of_day
            - other@.nanos_of_day) < (one@.offset_seconds - other@.offset_seconds) * 1_000_000_000,
        one@.instant() - other@.instant() == (one@.julian_day - other@.julian_day)
            * 86_400_000_000_000 + (one@.nanos_of_day - other@.nanos_of_day) - (one@.offset_seconds
            - other@.offset_seconds) * 1_000_000_000,
{
}

/// A time is written so that it is read back, if it can be written at all.
pub proof fn written_times_tell_their_times(
    at: Timestamp,
    if_any: Option<String>,
    text: String,
)
    requires
        call_ensures(Timestamp::to_rfc3339, (at,), if_any),
        call_ensures(Timestamp::rfc3339_text, (at,), text),
    ensures
        may_tell_time(if_any, Some(at)),
        tells_time(text@, at),
{
}

/// The stretch that is laid out goes from a time for sixty days, and there is one
/// exactly if there is a rule.
pub proof fn horizon_is_sixty_days(
    from: Timestamp,
    window: Window,
    rule: Option<RecurrenceRule>,
    layout: Option<Window>,
)
    requires
        call_ensures(horizon_window, (from,), window),
        call_ensures(first_layout, (&rule, from), layout),
    ensures
        window.from == from,
        window.until@.julian_day == from@.julian_day + 60,
        window.until@.nanos_of_day == from@.nanos_of_day,
        window.until@.offset_seconds == from@.offset_seconds,
        layout is Some <==> rule is Some,
        layout is Some ==> {
            &&& layout->0.from == from
            &&& layout->0.until@.julian_day == from@.julian_day + 60
            &&& layout->0.until@.nanos_of_day == from@.nanos_of_day
            &&& layout->0.until@.offset_seconds == from@.offset_seconds
        },
{
}

// ─── Identifiers ──────────────────────────────────────────────────────────────

/// The value of a hexadecimal digit.
pub open spec fn hex_value(c: char) -> int {
    if '0' <= c <= '9' {
        c as int - '0' as int
    } else {
        c as int - 'a' as int + 10
    }
}

/// Whether a character is a hexadecimal digit in lower case.
pub open spec fn is_hex(c: char) -> bool {
    '0' <= c <= '9' || 'a' <= c <= 'f'
}

/// The number that a text of hexadecimal digits writes out.
pub open spec fn hex_number(s: Seq<char>) -> int
    decreases s.len(),
{
    if s.len() == 0 {
        0
    } else {
        hex_number(s.drop_last()) * 16 + hex_value(s.last())
    }
}

/// The powers of sixteen.
pub open spec fn power(width: nat) -> nat
    decreases width,
{
    if width == 0 {
        1
    } else {
        16 * power((width - 1) as nat)
    }
}

proof fn hex_reads_back(n: nat, width: nat)
    requires
        n < power(width),
    ensures
        hex(n, width).len() == width,
        forall|i: int| 0 <= i < width ==> is_hex(#[trigger] hex(n, width)[i]),
        hex_number(hex(n, width)) == n,
    decreases width,
{
    if width > 0 {
        let fewer = (width - 1) as nat;
        hex_reads_back(n / 16, fewer);
        let text = hex(n, width);
        assert(text.drop_last() =~= hex(n / 16, fewer));
        assert forall|i: int| 0 <= i < width implies is_hex(#[trigger] text[i]) by {
            if i < fewer {
                assert(text[i] == hex(n / 16, fewer)[i]);
            }
        }
    }
}

proof fn hex_digit_has_its_place(n: nat, width: nat, k: nat)
    requires
        k < width,
    ensures
        power(k) > 0,
        hex(n, width).len() == width,
        hex(n, width)[width - 1 - k] == hex_digit(((n / power(k)) % 16) as int),
    decreases width,
{
    let fewer = (width - 1) as nat;
    if k > 0 {
        hex_digit_has_its_place(n / 16, fewer, (k - 1) as nat);
        vstd::arithmetic::div_mod::lemma_div_denominator(n as int, 16, power((k - 1) as nat) as int);
        assert(hex(n, width)[width - 1 - k] == hex(n / 16, fewer)[width - 1 - k]);
    } else {
        if fewer > 0 {
            hex_digit_has_its_place(n / 16, fewer, 0);
        } else {
            assert(hex(n / 16, fewer) =~= Seq::empty());
        }
        assert(n / 1 == n);
    }
}

/// The text of an identifier is its thirty-two hexadecimal digits in lower case, in
/// groups of eight, four, four, four and twelve with hyphens between.
pub proof fn identifiers_are_written_in_five_groups(uuid: u128)
    ensures
        ({
            let text = hyphenated(uuid);
            let all = text.subrange(0, 8) + text.subrange(9, 13) + text.subrange(14, 18)
                + text.subrange(19, 23) + text.subrange(24, 36);
            &&& text.len() == 36
            &&& text[8] == '-' && text[13] == '-' && text[18] == '-' && text[23] == '-'
            &&& forall|i: int| 0 <= i < 32 ==> is_hex(#[trigger] all[i])
            &&& hex_number(all) == uuid
        }),
{
    reveal_with_fuel(power, 33);
    assert(power(32) == 0x1_0000_0000_0000_0000_0000_0000_0000_0000nat);
    hex_reads_back(uuid as nat, 32);
    let text = hyphenated(uuid);
    let all = text.subrange(0, 8) + text.subrange(9, 13) + text.subrange(14, 18) + text.subrange(
        19,
        23,
    ) + text.subrange(24, 36);
    assert(all =~= hex(uuid as nat, 32));
}

/// The third group of an identifier of version 7 starts with that number, and the
/// fourth with 8, 9, a or b.
pub proof fn version_stands_in_the_text(uuid: u128)
    requires
        is_version_7(uuid),
    ensures
        hyphenated(uuid)[14] == '7',
        hyphenated(uuid)[19] == '8' || hyphenated(uuid)[19] == '9' || hyphenated(uuid)[19] == 'a'
            || hyphenated(uuid)[19] == 'b',
{
    reveal_with_fuel(power, 20);
    assert(power(19) == 0x1000_0000_0000_0000_0000nat);
    assert(power(15) == 0x1000_0000_0000_0000nat);
    hex_digit_has_its_place(uuid as nat, 32, 19);
    hex_digit_has_its_place(uuid as nat, 32, 15);
    let q = uuid as nat / 0x1000_0000_0000_0000nat;
    assert(uuid as nat / 0x4000_0000_0000_0000nat == q / 4);
    assert(8 <= q % 16 < 12);
    assert(hyphenated(uuid)[14] == hex(uuid as nat, 32)[12]);
    assert(hyphenated(uuid)[19] == hex(uuid as nat, 32)[16]);
}

/// As many identifiers are drawn as asked for, each of version 7.
pub proof fn identifiers_are_drawn(count: usize, ids: Vec<u128>)
    requires
        call_ensures(new_uuids, (count,), ids),
    ensures
        ids@.len() == count,
        forall|k: int| 0 <= k < count ==> is_version_7(#[trigger] ids@[k]),
{
}

// ─── Fields ───────────────────────────────────────────────────────────────────

/// A time field is absent, a time, or neither, as its text is.
pub proof fn time_fields_are_read(text: Option<String>, r: TimeField)
    requires
        call_ensures(read_time, (&text,), r),
    ensures
        r is Absent <==> text is None,
        r is Malformed <==> text is Some && parsed_rfc3339((text->0)@) is None,
        r matches TimeField::At(at) ==> text is Some && parsed_rfc3339((text->0)@) == Some(at@),
{
}

/// A member field is absent, a member, or neither, as its text is.
pub proof fn member_fields_are_read(text: Option<String>, r: MemberField, nobody: MemberId)
    requires
        call_ensures(read_member, (&text,), r),
        call_ensures(placeholder_member, (), nobody),
    ensures
        r is Absent <==> text is None,
        r is Malformed <==> text is Some && parsed_uuid((text->0)@) is None,
        r matches MemberField::Given(member) ==> text is Some && parsed_uuid((text->0)@) == Some(
            member.0,
        ),
        nobody.0 == 0x7000_8000_0000_0000_0001u128,
{
}

/// A date field keeps its text, with the day that it is read as.
pub proof fn date_fields_are_read(text: Option<String>, r: Option<DateField>)
    requires
        call_ensures(read_date, (&text,), r),
    ensures
        r is Some <==> text is Some,
        r is Some ==> {
            &&& r->0.text@ == (text->0)@
            &&& r->0.date is Some <==> parsed_date((text->0)@) is Some
            &&& r->0.date is Some ==> parsed_date((text->0)@) == Some((r->0.date->0)@)
        },
{
}

/// A stretch of days has both ends or neither.
pub proof fn stretches_have_both_ends(
    from: Option<String>,
    to: Option<String>,
    r: Result<Option<DateRange>, Rejection>,
)
    requires
        call_ensures(read_range, (&from, &to), r),
    ensures
        r is Ok <==> range_can_be_taken(from, to),
        r matches Ok(range) ==> {
            &&& range is Some <==> from is Some
            &&& range is Some ==> parsed_date((from->0)@) == Some(range->0.from@)
            &&& range is Some ==> parsed_date((to->0)@) == Some(range->0.to@)
        },
        r matches Err(rejection) ==> refuses_range(rejection, from, to),
{
}

/// The same of ends that are already read.
pub proof fn stretches_take_their_ends_as_read(
    from: Option<DateField>,
    to: Option<DateField>,
    r: Result<Option<DateRange>, Rejection>,
)
    requires
        call_ensures(build_range, (from, to), r),
    ensures
        r is Ok <==> {
            &&& from is Some <==> to is Some
            &&& from is Some ==> from->0.date is Some
            &&& to is Some ==> to->0.date is Some
        },
        r matches Ok(range) ==> {
            &&& range is Some <==> from is Some
            &&& range is Some ==> range->0.from@ == (from->0.date->0)@
            &&& range is Some ==> range->0.to@ == (to->0.date->0)@
        },
        r matches Err(rejection) ==> {
            &&& from is Some && to is Some && from->0.date is None ==> is_400(
                rejection,
                complaint_about(from->0.text@),
            )
            &&& from is Some && to is Some && from->0.date is Some ==> is_400(
                rejection,
                complaint_about(to->0.text@),
            )
            &&& !(from is Some && to is Some) ==> is_400(
                rejection,
                "from and to must both be provided or both absent"@,
            )
        },
{
}

/// A recurrence rule is taken if its two fields can be, and is the one they give.
pub proof fn rules_are_read(
    rrule: Option<String>,
    timezone: Option<String>,
    verdict: Result<(), String>,
    to_check: Option<RecurrenceRule>,
    r: Result<Option<RecurrenceRule>, Rejection>,
)
    requires
        call_ensures(rule_to_check, (&rrule, &timezone), to_check),
        call_ensures(read_recurrence, (&rrule, &timezone, &verdict), r),
    ensures
        is_rule_of(to_check, rrule, timezone),
        r is Ok <==> rule_can_be_taken(rrule, timezone, verdict),
        r matches Ok(rule) ==> is_rule_of(rule, rrule, timezone),
        r matches Err(rejection) ==> refuses_rule(rejection, rrule, timezone, verdict),
{
}

/// Two rules say the same exactly if both of their texts do.
pub proof fn rules_are_the_same_by_their_texts(
    one: RecurrenceRule,
    other: RecurrenceRule,
    r: bool,
)
    requires
        call_ensures(RecurrenceRule::is_same, (&one, &other), r),
    ensures
        r <==> one.rrule@ == other.rrule@ && one.timezone@ == other.timezone@,
{
}

// ─── Answers ──────────────────────────────────────────────────────────────────

/// The status codes have the numbers of HTTP.
pub proof fn status_codes_have_their_numbers(status: StatusCode, r: u16)
    requires
        call_ensures(StatusCode::code, (status,), r),
    ensures
        r == 200 <==> status is Success,
        r == 201 <==> status is Created,
        r == 400 <==> status is BadRequest,
        r == 404 <==> status is NotFound,
        r == 422 <==> status is UnprocessableEntity,
        r == 500 <==> status is InternalServerError,
{
}

/// A rejection says what it is given, and an internal one says nothing.
pub proof fn rejections_say_what_they_are_given(
    message: String,
    bad_request: Rejection,
    not_found: Rejection,
    unprocessable: Rejection,
    internal: Rejection,
)
    requires
        call_ensures(Rejection::bad_request, (message,), bad_request),
        call_ensures(Rejection::not_found, (message,), not_found),
        call_ensures(Rejection::unprocessable, (message,), unprocessable),
        call_ensures(Rejection::internal, (), internal),
    ensures
        is_400(bad_request, message@),
        is_404(not_found, message@),
        is_422(unprocessable, message@),
        is_bare_500(internal),
{
}

/// A path that names nothing is a 400; a row that is not there is a 404; and
/// storage that failed is a bare 500.
pub proof fn rows_are_found_or_not<T>(
    uuid: Option<u128>,
    text: &str,
    named: Result<u128, Rejection>,
    read: Result<Option<T>, StorageFailure>,
    row: Result<T, Rejection>,
    value: Result<T, StorageFailure>,
    kept: Result<T, Rejection>,
    call: Result<bool, StorageFailure>,
    done: Result<(), Rejection>,
    id: u128,
    removed: Result<Reply<DeletedResponse>, Rejection>,
)
    requires
        call_ensures(identify, (uuid, text), named),
        call_ensures(found::<T>, (read, text), row),
        call_ensures(stored::<T>, (value,), kept),
        call_ensures(changed, (call, text), done),
        call_ensures(deleted, (id, call, text), removed),
    ensures
        named is Ok <==> uuid is Some,
        named is Ok ==> Some(named->Ok_0) == uuid,
        named matches Err(rejection) ==> is_400(rejection, text@),
        row is Ok <==> read is Ok && read->Ok_0 is Some,
        row is Ok ==> Some(row->Ok_0) == read->Ok_0,
        row matches Err(rejection) ==> is_unfound(rejection, read, text@),
        kept is Ok <==> value is Ok,
        kept is Ok ==> kept->Ok_0 == value->Ok_0,
        kept matches Err(rejection) ==> is_bare_500(rejection),
        done is Ok <==> call is Ok && call->Ok_0,
        done matches Err(rejection) ==> is_unfound(rejection, call, text@),
        answers_removal(removed, id, call, text@),
{
}

// ─── Feeds ────────────────────────────────────────────────────────────────────

/// What is said of a failed download tells what failed.
pub proof fn failed_downloads_are_explained(error: FetchError, r: String)
    requires
        call_ensures(FetchError::message, (&error,), r),
    ensures
        is_said_of(r@, error),
{
}

/// A download starts on success alone, takes in what fits in five megabytes and
/// nothing that does not, and ends with its text if it is UTF-8.
pub proof fn downloads_are_taken_in_up_to_the_cap(
    status: u16,
    started: Result<FeedDownload, FetchError>,
    download: FeedDownload,
    chunk: &[u8],
    grown: Result<FeedDownload, FetchError>,
    ended: Result<String, FetchError>,
)
    requires
        call_ensures(FeedDownload::start, (status,), started),
        call_ensures(FeedDownload::receive, (download, chunk), grown),
        call_ensures(FeedDownload::finish, (download,), ended),
    ensures
        started is Ok <==> 200 <= status < 300,
        started is Ok ==> (started->Ok_0)@.len() == 0,
        started is Err ==> started->Err_0 == FetchError::BadStatus(status),
        grown is Ok <==> download@.len() + chunk@.len() <= 5_242_880,
        grown is Ok ==> (grown->Ok_0)@ == download@ + chunk@,
        grown is Err ==> grown->Err_0 is TooLarge,
        ended is Ok <==> valid_utf8(download@),
        ended is Ok ==> (ended->Ok_0)@ == decode_utf8(download@),
        ended is Err ==> ended->Err_0 is Request && (ended->Err_0->Request_0)@ == utf8_complaint(
            download@,
        ),
{
}

} // verus!
