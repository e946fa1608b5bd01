//! Calendar dates and points in time.
//!
//! A [`Date`] is a day of the proleptic Gregorian calendar, a [`Timestamp`] a
//! local date and clock time together with its offset from UTC. Both are
//! modelled by integers: a date by its Julian day number, a timestamp by a
//! [`Moment`].

use vstd::prelude::*;

use crate::text::{
    all_digits, digits, digits_read_back, digits_text, join, number, number_is_written_back,
    numbers_within,
};

verus! {

/// Julian day number of the first day a [`Date`] can hold, 1 January of the year -9999.
pub const FIRST_DAY: i32 = -1930999;

/// Julian day number of the last day a [`Date`] can hold, 31 December of the year 9999.
pub const LAST_DAY: i32 = 5373484;

/// Julian day number of 1 January of the year 0.
pub const YEAR_ZERO: i32 = 1721060;

/// Nanoseconds of a day.
pub const NANOS_PER_DAY: i64 = 86_400_000_000_000;

/// The largest distance from UTC that a [`Timestamp`] can hold, in seconds.
pub const OFFSET_LIMIT: i32 = 93_599;

// ─── The calendar ─────────────────────────────────────────────────────────────

/// Whether `year` has a 29 February.
pub open spec fn is_leap_year(year: int) -> bool {
    year % 4 == 0 && (year % 100 != 0 || year % 400 == 0)
}

/// The number of days of a month.
pub open spec fn days_in_month(year: int, month: int) -> int {
    if month == 2 {
        if is_leap_year(year) {
            29
        } else {
            28
        }
    } else if month == 4 || month == 6 || month == 9 || month == 11 {
        30
    } else {
        31
    }
}

/// The number of days of `year` before its month `month`.
pub open spec fn days_before_month(year: int, month: int) -> int
    decreases month,
{
    if month <= 1 {
        0
    } else {
        days_before_month(year, month - 1) + days_in_month(year, month - 1)
    }
}

/// The Julian day number of 1 January of `year`.
pub open spec fn first_day_of_year(year: int) -> int {
    let past = year - 1;
    365 * past + past / 4 - past / 100 + past / 400 + 1721426
}

/// The Julian day number of a calendar date.
pub open spec fn julian_day_of(year: int, month: int, day: int) -> int {
    first_day_of_year(year) + days_before_month(year, month) + day - 1
}

/// Whether the three numbers are a date of the calendar.
pub open spec fn is_calendar_date(year: int, month: int, day: int) -> bool {
    &&& -9999 <= year <= 9999
    &&& 1 <= month <= 12
    &&& 1 <= day <= days_in_month(year, month)
}

/// A year as `[year]` writes it: a minus sign if it is negative, then four digits.
pub open spec fn year_text(year: int) -> Seq<char> {
    if year < 0 {
        seq!['-'] + digits((-year) as nat, 4)
    } else {
        digits(year as nat, 4)
    }
}

/// A date as `YYYY-MM-DD`.
pub open spec fn iso_date(year: int, month: int, day: int) -> Seq<char> {
    year_text(year) + seq!['-'] + digits(month as nat, 2) + seq!['-'] + digits(day as nat, 2)
}

proof fn months_are_ordered(year: int, earlier: int, later: int)
    requires
        1 <= earlier < later,
    ensures
        days_before_month(year, earlier) + days_in_month(year, earlier) <= days_before_month(
            year,
            later,
        ),
    decreases later - earlier,
{
    if earlier + 1 < later {
        months_are_ordered(year, earlier, later - 1);
    }
}

proof fn days_before_december(year: int)
    ensures
        days_before_month(year, 12) == 306 + days_in_month(year, 2),
{
    let february = days_in_month(year, 2);
    assert(days_before_month(year, 1) == 0);
    assert(days_before_month(year, 2) == 31);
    assert(days_before_month(year, 3) == 31 + february);
    assert(days_before_month(year, 4) == 62 + february);
    assert(days_before_month(year, 5) == 92 + february);
    assert(days_before_month(year, 6) == 123 + february);
    assert(days_before_month(year, 7) == 153 + february);
    assert(days_before_month(year, 8) == 184 + february);
    assert(days_before_month(year, 9) == 215 + february);
    assert(days_before_month(year, 10) == 245 + february);
    assert(days_before_month(year, 11) == 276 + february);
}

proof fn quotients_step(past: int)
    ensures
        (past + 1) / 4 == past / 4 + (if (past + 1) % 4 == 0 {
            1int
        } else {
            0
        }),
        (past + 1) / 100 == past / 100 + (if (past + 1) % 100 == 0 {
            1int
        } else {
            0
        }),
        (past + 1) / 400 == past / 400 + (if (past + 1) % 400 == 0 {
            1int
        } else {
            0
        }),
{
}

proof fn multiples_nest(year: int)
    ensures
        year % 400 == 0 ==> year % 100 == 0,
        year % 100 == 0 ==> year % 4 == 0,
{
}

proof fn days_in_year(year: int)
    ensures
        first_day_of_year(year + 1) - first_day_of_year(year) == 337 + days_in_month(year, 2),
{
    quotients_step(year - 1);
    multiples_nest(year);
}

proof fn months_fit_in_year(year: int, month: int)
    requires
        1 <= month <= 12,
    ensures
        0 <= days_before_month(year, month),
        days_before_month(year, month) + days_in_month(year, month) <= first_day_of_year(year + 1)
            - first_day_of_year(year),
{
    days_before_december(year);
    days_in_year(year);
    if month < 12 {
        months_are_ordered(year, month, 12);
    }
    if month > 1 {
        months_are_ordered(year, 1, month);
    }
}

proof fn years_are_ordered(earlier: int, later: int)
    requires
        earlier <= later,
    ensures
        first_day_of_year(earlier) <= first_day_of_year(later),
    decreases later - earlier,
{
    if earlier < later {
        years_are_ordered(earlier, later - 1);
    }
}

/// Later calendar dates have larger Julian day numbers.
pub proof fn calendar_order_is_day_order(y1: int, m1: int, d1: int, y2: int, m2: int, d2: int)
    requires
        is_calendar_date(y1, m1, d1),
        is_calendar_date(y2, m2, d2),
        y1 < y2 || (y1 == y2 && (m1 < m2 || (m1 == m2 && d1 < d2))),
    ensures
        julian_day_of(y1, m1, d1) < julian_day_of(y2, m2, d2),
{
    months_fit_in_year(y1, m1);
    months_fit_in_year(y2, m2);
    if y1 < y2 {
        years_are_ordered(y1 + 1, y2);
    } else if m1 < m2 {
        months_are_ordered(y1, m1, m2);
    }
}

/// A Julian day number belongs to one calendar date.
pub proof fn calendar_date_is_unique(y1: int, m1: int, d1: int, y2: int, m2: int, d2: int)
    requires
        is_calendar_date(y1, m1, d1),
        is_calendar_date(y2, m2, d2),
        julian_day_of(y1, m1, d1) == julian_day_of(y2, m2, d2),
    ensures
        y1 == y2,
        m1 == m2,
        d1 == d2,
{
    if y1 < y2 || (y1 == y2 && (m1 < m2 || (m1 == m2 && d1 < d2))) {
        calendar_order_is_day_order(y1, m1, d1, y2, m2, d2);
    }
    if y2 < y1 || (y1 == y2 && (m2 < m1 || (m1 == m2 && d2 < d1))) {
        calendar_order_is_day_order(y2, m2, d2, y1, m1, d1);
    }
}

// ─── Dates ────────────────────────────────────────────────────────────────────

/// A day of the calendar. Its view is its Julian day number.
#[derive(Clone, Copy, Debug, PartialEq, Eq, Structural)]
pub struct Date {
    julian_day: i32,
}

impl View for Date {
    type V = int;

    closed spec fn view(&self) -> int {
        self.julian_day as int
    }
}

/// The Julian day number of a date that may be absent.
pub open spec fn day_of(date: Option<Date>) -> Option<int> {
    match date {
        Some(d) => Some(d@),
        None => None,
    }
}

/// The year that a text of four digits names, or one of a sign and four digits.
pub open spec fn year_read(text: Seq<char>) -> Option<int> {
    if text.len() == 4 && all_digits(text) {
        Some(number(text))
    } else if text.len() == 5 && text[0] == '+' && all_digits(text.skip(1)) {
        Some(number(text.skip(1)))
    } else if text.len() == 5 && text[0] == '-' && all_digits(text.skip(1)) {
        Some(-number(text.skip(1)))
    } else {
        None
    }
}

/// The day that a text names as `[year]-[month]-[day]`: a year, a hyphen, two
/// digits, a hyphen, two digits, which together are a date of the calendar.
pub open spec fn parsed_date(text: Seq<char>) -> Option<int> {
    let n = text.len();
    if n < 10 || text[n - 6] != '-' || text[n - 3] != '-' {
        None
    } else {
        let month = text.subrange(n - 5, n - 3);
        let day = text.subrange(n - 2, n as int);
        match year_read(text.take(n - 6)) {
            Some(year) => if all_digits(month) && all_digits(day) && is_calendar_date(
                year,
                number(month),
                number(day),
            ) {
                Some(julian_day_of(year, number(month), number(day)))
            } else {
                None
            },
            None => None,
        }
    }
}

/// The year, month and day of a Julian day number.
pub open spec fn calendar_date_of(julian_day: int) -> (int, int, int) {
    choose|date: (int, int, int)| #[trigger]
        is_calendar_date(date.0, date.1, date.2) && julian_day_of(date.0, date.1, date.2)
            == julian_day
}

/// The text `YYYY-MM-DD` of a day.
pub open spec fn iso_text(julian_day: int) -> Seq<char> {
    let (year, month, day) = calendar_date_of(julian_day);
    iso_date(year, month, day)
}

/// The calendar date of a Julian day number is the one that has this number.
pub proof fn calendar_date_is_found(year: int, month: int, day: int)
    requires
        is_calendar_date(year, month, day),
    ensures
        calendar_date_of(julian_day_of(year, month, day)) == (year, month, day),
{
    let date = (year, month, day);
    assert(is_calendar_date(date.0, date.1, date.2));
    let found = calendar_date_of(julian_day_of(year, month, day));
    assert(is_calendar_date(found.0, found.1, found.2));
    calendar_date_is_unique(found.0, found.1, found.2, year, month, day);
}

/// A date that is written as `YYYY-MM-DD` reads back.
pub proof fn written_dates_read_back(year: int, month: int, day: int)
    requires
        is_calendar_date(year, month, day),
    ensures
        parsed_date(iso_date(year, month, day)) == Some(julian_day_of(year, month, day)),
{
    assert(numbers_within(2) == 100) by {
        reveal_with_fuel(numbers_within, 3);
    }
    assert(numbers_within(4) == 10_000) by {
        reveal_with_fuel(numbers_within, 5);
    }
    let text = iso_date(year, month, day);
    let n = text.len();
    let magnitude = if year < 0 {
        -year
    } else {
        year
    };
    digits_read_back(magnitude as nat, 4);
    digits_read_back(month as nat, 2);
    digits_read_back(day as nat, 2);
    let head = year_text(year);
    assert(n == head.len() + 6);
    assert(text.take(n - 6) =~= head);
    assert(text[n - 6] == '-');
    assert(text[n - 3] == '-');
    assert(text.subrange(n - 5, n - 3) =~= digits(month as nat, 2));
    assert(text.subrange(n - 2, n as int) =~= digits(day as nat, 2));
    if year < 0 {
        assert(head.skip(1) =~= digits(magnitude as nat, 4));
    }
}

/// A text of the shape `YYYY-MM-DD` that names a day is the text of that day.
pub proof fn dates_are_written_as_they_were_read(text: Seq<char>, day: int)
    requires
        text.len() == 10,
        parsed_date(text) == Some(day),
    ensures
        iso_text(day) == text,
{
    let (y, m, d) = (text.take(4), text.subrange(5, 7), text.subrange(8, 10));
    number_is_written_back(y);
    number_is_written_back(m);
    number_is_written_back(d);
    calendar_date_is_found(number(y), number(m), number(d));
    assert(iso_date(number(y), number(m), number(d)) =~= text);
}

/// Calls `time::Date::parse` with the description `[year]-[month]-[day]`: it
/// reads the day that the text names, and nothing from a text that names none.
/// Without the `large-dates` feature of that crate a year has four digits, with
/// or without a sign.
#[verifier::external_body]
pub(crate) fn parse_iso_date(text: &str) -> (r: Option<Date>)
    ensures
        day_of(r) == parsed_date(text@),
{
    let format = time::format_description::parse_borrowed::<1>("[year]-[month]-[day]").ok()?;
    let date = time::Date::parse(text, &format).ok()?;
    Some(Date { julian_day: date.to_julian_day() })
}

/// Calls `time::Date::to_calendar_date`: the calendar date with the Julian day
/// number of `date`.
#[verifier::external_body]
fn calendar_date(date: Date) -> (r: (i32, u8, u8))
    ensures
        is_calendar_date(r.0 as int, r.1 as int, r.2 as int),
        julian_day_of(r.0 as int, r.1 as int, r.2 as int) == date@,
{
    let (year, month, day) = time::Date::from_julian_day(date.julian_day)
        .expect("a Date holds a Julian day in range")
        .to_calendar_date();
    (year, u8::from(month), day)
}

impl Date {
    #[verifier::type_invariant]
    spec fn in_range(self) -> bool {
        FIRST_DAY <= self.julian_day <= LAST_DAY
    }

    /// The day with the given Julian day number, if a date can hold it.
    pub fn from_julian_day(julian_day: i32) -> (r: Option<Date>)
        ensures
            day_of(r) == (if FIRST_DAY <= julian_day <= LAST_DAY {
                Some(julian_day as int)
            } else {
                None
            }),
    {
        if FIRST_DAY <= julian_day && julian_day <= LAST_DAY {
            Some(Date { julian_day })
        } else {
            None
        }
    }

    /// The Julian day number.
    pub fn julian_day(self) -> (r: i32)
        ensures
            r == self@,
            FIRST_DAY <= r <= LAST_DAY,
    {
        proof {
            use_type_invariant(&self);
        }
        self.julian_day
    }

    /// The day `days` days later.
    pub fn plus_days(self, days: u32) -> (r: Date)
        requires
            self@ + days <= LAST_DAY,
        ensures
            r@ == self@ + days,
    {
        proof {
            use_type_invariant(&self);
        }
        Date { julian_day: self.julian_day + days as i32 }
    }

    /// The day `days` days earlier.
    pub fn minus_days(self, days: u32) -> (r: Date)
        requires
            FIRST_DAY <= self@ - days,
        ensures
            r@ == self@ - days,
    {
        proof {
            use_type_invariant(&self);
        }
        Date { julian_day: self.julian_day - days as i32 }
    }

    /// Whether the two are the same day.
    pub fn same_day(self, other: Date) -> (r: bool)
        ensures
            r == (self@ == other@),
            r == (self == other),
    {
        self.julian_day == other.julian_day
    }

    /// The number of days since the Monday of the date's week: 0 for a Monday,
    /// 6 for a Sunday.
    pub fn days_from_monday(self) -> (r: i32)
        ensures
            r == self@ % 7,
            0 <= r < 7,
    {
        let day: i32 = self.julian_day();
        // 1931006 is a multiple of 7 that makes every day number positive.
        (day + 1931006) % 7
    }

    /// The year, month and day of the date.
    pub fn calendar(self) -> (r: (i32, u8, u8))
        ensures
            (r.0 as int, r.1 as int, r.2 as int) == calendar_date_of(self@),
            is_calendar_date(r.0 as int, r.1 as int, r.2 as int),
            julian_day_of(r.0 as int, r.1 as int, r.2 as int) == self@,
            parsed_date(iso_text(self@)) == Some(self@),
    {
        let r = calendar_date(self);
        proof {
            calendar_date_is_found(r.0 as int, r.1 as int, r.2 as int);
            written_dates_read_back(r.0 as int, r.1 as int, r.2 as int);
        }
        r
    }

    /// The date as `YYYY-MM-DD`.
    pub fn iso_text(self) -> (r: String)
        ensures
            writes_date(r@, self@),
    {
        let (year, month, day) = self.calendar();
        let head = if year < 0 {
            join("-", digits_text((-year) as u32, 4).as_str())
        } else {
            digits_text(year as u32, 4)
        };
        let r = head.concat("-").concat(digits_text(month as u32, 2).as_str()).concat("-").concat(
            digits_text(day as u32, 2).as_str(),
        );
        proof {
            reveal_strlit("-");
            assert("-"@ =~= seq!['-']);
        }
        r
    }
}

// ─── Timestamps ───────────────────────────────────────────────────────────────

/// A local date and clock time with its offset from UTC, as numbers.
pub struct Moment {
    /// Julian day number of the local date.
    pub julian_day: int,
    /// Nanoseconds since local midnight.
    pub nanos_of_day: int,
    /// Distance of local time from UTC, positive to the east.
    pub offset_seconds: int,
}

impl Moment {
    /// The point on the time line, in nanoseconds.
    pub open spec fn instant(self) -> int {
        self.julian_day * NANOS_PER_DAY + self.nanos_of_day - self.offset_seconds * 1_000_000_000
    }

    /// Midnight UTC of a day.
    pub open spec fn midnight_utc(julian_day: int) -> Moment {
        Moment { julian_day, nanos_of_day: 0, offset_seconds: 0 }
    }

    /// The same clock time and offset, `days` days later.
    pub open spec fn plus_days(self, days: int) -> Moment {
        Moment { julian_day: self.julian_day + days, ..self }
    }

    /// Whether RFC 3339 has a text for the moment: its year is not negative,
    /// and its offset is whole minutes and less than a day.
    pub open spec fn has_rfc3339_text(self) -> bool {
        &&& YEAR_ZERO <= self.julian_day
        &&& self.offset_seconds % 60 == 0
        &&& -86_400 < self.offset_seconds < 86_400
    }
}

/// A point in time, held as a local date and clock time with an offset from UTC.
#[derive(Clone, Copy, Debug, PartialEq, Eq, Structural)]
pub struct Timestamp {
    julian_day: i32,
    hour: u8,
    minute: u8,
    second: u8,
    nanosecond: u32,
    offset_seconds: i32,
}

impl View for Timestamp {
    type V = Moment;

    closed spec fn view(&self) -> Moment {
        Moment {
            julian_day: self.julian_day as int,
            nanos_of_day: ((self.hour * 60 + self.minute) * 60 + self.second) * 1_000_000_000
                + self.nanosecond,
            offset_seconds: self.offset_seconds as int,
        }
    }
}

/// The moment of a timestamp that may be absent.
pub open spec fn moment_of(at: Option<Timestamp>) -> Option<Moment> {
    match at {
        Some(t) => Some(t@),
        None => None,
    }
}

/// What `time::OffsetDateTime::parse` reads from a text as RFC 3339.
pub uninterp spec fn parsed_rfc3339(text: Seq<char>) -> Option<Moment>;

/// The RFC 3339 text that `time::OffsetDateTime::format` gives a moment.
pub uninterp spec fn formatted_rfc3339(moment: Moment) -> Option<Seq<char>>;

/// The RFC 3339 text of a moment, empty where there is none.
pub open spec fn rfc3339(moment: Moment) -> Seq<char> {
    match formatted_rfc3339(moment) {
        Some(text) => text,
        None => Seq::empty(),
    }
}

/// Whether `text` is the RFC 3339 text of a moment, from which the moment is read
/// back, or empty where there is none.
pub open spec fn writes_time(text: Seq<char>, moment: Moment) -> bool {
    &&& text == rfc3339(moment)
    &&& moment.has_rfc3339_text() ==> parsed_rfc3339(text) == Some(moment)
    &&& !moment.has_rfc3339_text() ==> text.len() == 0
}

/// Whether `text` shows a time that may be absent: there is one exactly if RFC
/// 3339 has a text for it.
pub open spec fn shows_time(text: Option<String>, at: Option<Timestamp>) -> bool {
    match at {
        None => text is None,
        Some(t) => if t@.has_rfc3339_text() {
            text matches Some(s) && writes_time(s@, t@)
        } else {
            text is None
        },
    }
}

/// Whether `text` shows a time that may be absent, by the empty text where RFC
/// 3339 has none for it.
pub open spec fn shows_time_or_empty(text: Option<String>, at: Option<Timestamp>) -> bool {
    match at {
        None => text is None,
        Some(t) => text matches Some(s) && writes_time(s@, t@),
    }
}

/// Whether `text` is the `YYYY-MM-DD` text of a day, from which the day is read
/// back.
pub open spec fn writes_date(text: Seq<char>, julian_day: int) -> bool {
    text == iso_text(julian_day) && parsed_date(text) == Some(julian_day)
}

/// Calls `time::OffsetDateTime::parse` with the `Rfc3339` description: what it
/// reads is a function of the text alone, and is a moment that RFC 3339 has a
/// text for.
#[verifier::external_body]
pub(crate) fn parse_rfc3339(text: &str) -> (r: Option<Timestamp>)
    ensures
        moment_of(r) == parsed_rfc3339(text@),
        r matches Some(t) ==> t@.has_rfc3339_text(),
{
    let at =
        time::OffsetDateTime::parse(text, &time::format_description::well_known::Rfc3339).ok()?;
    let (hour, minute, second, nanosecond) = at.time().as_hms_nano();
    let julian_day = at.date().to_julian_day();
    let offset_seconds = at.offset().whole_seconds();
    Some(Timestamp { julian_day, hour, minute, second, nanosecond, offset_seconds })
}

/// Calls `time::OffsetDateTime::format` with the `Rfc3339` description: there
/// is a text exactly for the moments that RFC 3339 has one for, it is a
/// function of the moment alone, and `time::OffsetDateTime::parse` reads that
/// moment back from it.
#[verifier::external_body]
fn format_rfc3339(at: Timestamp) -> (r: Option<String>)
    ensures
        crate::text::text_of(r) == formatted_rfc3339(at@),
        r is Some <==> at@.has_rfc3339_text(),
        r matches Some(text) ==> parsed_rfc3339(text@) == Some(at@),
{
    let date = time::Date::from_julian_day(at.julian_day).ok()?;
    let time = time::Time::from_hms_nano(at.hour, at.minute, at.second, at.nanosecond).ok()?;
    let offset = time::UtcOffset::from_whole_seconds(at.offset_seconds).ok()?;
    time::OffsetDateTime::new_in_offset(date, time, offset)
        .format(&time::format_description::well_known::Rfc3339)
        .ok()
}

/// The text that the `Display` of `time::OffsetDateTime` gives a moment.
pub uninterp spec fn displayed_time(moment: Moment) -> Seq<char>;

/// The RFC 3339 text of a moment, or the one it is displayed by where there is
/// none.
pub open spec fn rfc3339_or_displayed(moment: Moment) -> Seq<char> {
    match formatted_rfc3339(moment) {
        Some(text) => text,
        None => displayed_time(moment),
    }
}

/// Calls the `Display` of `time::OffsetDateTime`: its text is a function of the
/// moment alone.
#[verifier::external_body]
fn display_time(at: Timestamp) -> (r: String)
    ensures
        r@ == displayed_time(at@),
{
    let date = time::Date::from_julian_day(at.julian_day).expect("day is in range");
    let time = time::Time::from_hms_nano(at.hour, at.minute, at.second, at.nanosecond)
        .expect("clock time is in range");
    let offset =
        time::UtcOffset::from_whole_seconds(at.offset_seconds).expect("offset is in range");
    time::OffsetDateTime::new_in_offset(date, time, offset).to_string()
}

impl Timestamp {
    #[verifier::type_invariant]
    spec fn in_range(self) -> bool {
        &&& FIRST_DAY <= self.julian_day <= LAST_DAY
        &&& self.hour < 24
        &&& self.minute < 60
        &&& self.second < 60
        &&& self.nanosecond < 1_000_000_000
        &&& -OFFSET_LIMIT <= self.offset_seconds <= OFFSET_LIMIT
    }

    /// The timestamp with the given local date, clock time and offset, if the
    /// clock time and the offset are in range.
    pub fn new(
        date: Date,
        hour: u8,
        minute: u8,
        second: u8,
        nanosecond: u32,
        offset_seconds: i32,
    ) -> (r: Option<Timestamp>)
        ensures
            moment_of(r) == (if hour < 24 && minute < 60 && second < 60 && nanosecond
                < 1_000_000_000 && -OFFSET_LIMIT <= offset_seconds <= OFFSET_LIMIT {
                Some(
                    Moment {
                        julian_day: date@,
                        nanos_of_day: ((hour * 60 + minute) * 60 + second) * 1_000_000_000
                            + nanosecond,
                        offset_seconds: offset_seconds as int,
                    },
                )
            } else {
                None
            }),
    {
        if hour < 24 && minute < 60 && second < 60 && nanosecond < 1_000_000_000 && -OFFSET_LIMIT
            <= offset_seconds && offset_seconds <= OFFSET_LIMIT {
            let julian_day: i32 = date.julian_day();
            Some(Timestamp { julian_day, hour, minute, second, nanosecond, offset_seconds })
        } else {
            None
        }
    }

    /// The local date, hour, minute, second and nanosecond, and the offset in seconds.
    pub fn parts(self) -> (r: (Date, u8, u8, u8, u32, i32))
        ensures
            self@ == (Moment {
                julian_day: r.0@,
                nanos_of_day: ((r.1 * 60 + r.2) * 60 + r.3) * 1_000_000_000 + r.4,
                offset_seconds: r.5 as int,
            }),
            r.1 < 24 && r.2 < 60 && r.3 < 60 && r.4 < 1_000_000_000,
            -OFFSET_LIMIT <= r.5 <= OFFSET_LIMIT,
    {
        proof {
            use_type_invariant(&self);
        }
        (
            self.date(),
            self.hour,
            self.minute,
            self.second,
            self.nanosecond,
            self.offset_seconds,
        )
    }

    /// Midnight UTC of a day.
    pub fn midnight_utc(date: Date) -> (r: Timestamp)
        ensures
            r@ == Moment::midnight_utc(date@),
    {
        let julian_day: i32 = date.julian_day();
        Timestamp { julian_day, hour: 0, minute: 0, second: 0, nanosecond: 0, offset_seconds: 0 }
    }

    /// The local date.
    pub fn date(self) -> (r: Date)
        ensures
            r@ == self@.julian_day,
    {
        proof {
            use_type_invariant(&self);
        }
        Date { julian_day: self.julian_day }
    }

    /// Whether a timestamp can hold the moment `days` days later.
    pub fn can_add_days(self, days: u32) -> (r: bool)
        ensures
            r == (self@.julian_day + days <= LAST_DAY),
    {
        self.julian_day as i64 + days as i64 <= LAST_DAY as i64
    }

    /// Whether a timestamp can hold the moment `days` days earlier.
    pub fn can_subtract_days(self, days: u32) -> (r: bool)
        ensures
            r == (FIRST_DAY <= self@.julian_day - days),
    {
        FIRST_DAY as i64 <= self.julian_day as i64 - days as i64
    }

    /// The same clock time and offset, `days` days later.
    pub fn plus_days(self, days: u32) -> (r: Timestamp)
        requires
            self@.julian_day + days <= LAST_DAY,
        ensures
            r@ == self@.plus_days(days as int),
    {
        proof {
            use_type_invariant(&self);
        }
        Timestamp { julian_day: self.julian_day + days as i32, ..self }
    }

    /// The same clock time and offset, `days` days earlier.
    pub fn minus_days(self, days: u32) -> (r: Timestamp)
        requires
            FIRST_DAY <= self@.julian_day - days,
        ensures
            r@ == self@.plus_days(-days),
    {
        proof {
            use_type_invariant(&self);
        }
        Timestamp { julian_day: self.julian_day - days as i32, ..self }
    }

    fn instant(self) -> (r: i128)
        ensures
            r == self@.instant(),
    {
        proof {
            use_type_invariant(&self);
        }
        let minutes: i128 = self.hour as i128 * 60 + self.minute as i128;
        let seconds: i128 = minutes * 60 + self.second as i128 - self.offset_seconds as i128;
        self.julian_day as i128 * 86_400_000_000_000 + seconds * 1_000_000_000
            + self.nanosecond as i128
    }

    /// Whether the timestamp lies before `other` on the time line.
    pub fn is_before(self, other: Timestamp) -> (r: bool)
        ensures
            r == (self@.instant() < other@.instant()),
    {
        self.instant() < other.instant()
    }

    /// The RFC 3339 text, if there is one.
    pub fn to_rfc3339(self) -> (r: Option<String>)
        ensures
            shows_time(r, Some(self)),
    {
        format_rfc3339(self)
    }

    /// The RFC 3339 text, empty if there is none.
    pub fn rfc3339_text(self) -> (r: String)
        ensures
            writes_time(r@, self@),
    {
        match format_rfc3339(self) {
            Some(text) => text,
            None => String::new(),
        }
    }

    /// The RFC 3339 text, or the one it is displayed by if there is none.
    pub fn rfc3339_or_display(self) -> (r: String)
        ensures
            r@ == rfc3339_or_displayed(self@),
            self@.has_rfc3339_text() ==> parsed_rfc3339(r@) == Some(self@),
    {
        match format_rfc3339(self) {
            Some(text) => text,
            None => display_time(self),
        }
    }
}

} // verus!
