//! Fields that several endpoints take: times, dates and recurrence rules.

use vstd::prelude::*;

use crate::dates::{
    day_of, parse_iso_date, parse_rfc3339, parsed_date, parsed_rfc3339, Date, Moment, Timestamp,
};
use crate::ids::{parse_uuid, parsed_uuid, MemberId};
use crate::model::task::RecurrenceRule;
use crate::reply::{Refusal, Rejection};
use crate::text::{join, join3};

verus! {

/// A field of a patch.
#[derive(Clone, Debug)]
pub enum Field<T> {
    /// The body does not hold it: what is stored stays.
    Absent,
    /// The body holds `null`: what is stored is taken away.
    Null,
    /// The body gives it.
    Given(T),
}

/// An optional RFC 3339 field of a request, read.
#[derive(Clone, Copy, Debug)]
pub enum TimeField {
    /// The field was not given.
    Absent,
    /// The field was given and is not RFC 3339.
    Malformed,
    /// The field was given.
    At(Timestamp),
}

impl TimeField {
    /// Whether this is what the text of the field reads as.
    pub open spec fn reads(self, text: Option<String>) -> bool {
        match text {
            None => self is Absent,
            Some(s) => match parsed_rfc3339(s@) {
                None => self is Malformed,
                Some(moment) => self matches TimeField::At(t) && t@ == moment,
            },
        }
    }

    /// The time, if one was given.
    pub open spec fn moment(self) -> Option<Moment> {
        match self {
            TimeField::At(t) => Some(t@),
            _ => None,
        }
    }
}

/// The time that a given RFC 3339 text stands for.
pub open spec fn moment_read(text: Option<String>) -> Option<Moment> {
    match text {
        None => None,
        Some(s) => parsed_rfc3339(s@),
    }
}

/// Whether a text was given that is not RFC 3339.
pub open spec fn is_malformed_time(text: Option<String>) -> bool {
    text matches Some(s) && parsed_rfc3339(s@) is None
}

/// Reads an optional RFC 3339 field.
pub fn read_time(text: &Option<String>) -> (r: TimeField)
    ensures
        r.reads(*text),
        r is Malformed <==> is_malformed_time(*text),
        r.moment() == moment_read(*text),
        r.moment() matches Some(moment) ==> moment.has_rfc3339_text(),
{
    match text {
        None => TimeField::Absent,
        Some(s) => match parse_rfc3339(s.as_str()) {
            None => TimeField::Malformed,
            Some(t) => TimeField::At(t),
        },
    }
}

/// What is said of a text that is no date.
pub open spec fn date_complaint(field: Seq<char>, text: Seq<char>) -> Seq<char> {
    field + " '"@ + text + "': expected YYYY-MM-DD"@
}

/// A date that was read from a field, or what is said of the field if there is
/// none.
pub fn date_or_complaint(date: Option<Date>, field: &str, text: &str) -> (r: Result<Date, String>)
    ensures
        match r {
            Ok(d) => date == Some(d),
            Err(message) => date is None && message@ == date_complaint(field@, text@),
        },
{
    match date {
        Some(date) => Ok(date),
        None => Err(join3(field, " '", text).concat("': expected YYYY-MM-DD")),
    }
}

/// Reads a `YYYY-MM-DD` field, or says what is wrong with it.
pub fn parse_date(field: &str, text: &str) -> (r: Result<Date, String>)
    ensures
        match r {
            Ok(date) => parsed_date(text@) == Some(date@),
            Err(message) => parsed_date(text@) is None && message@ == date_complaint(field@, text@),
        },
{
    date_or_complaint(parse_iso_date(text), field, text)
}

/// An optional member identifier of a request, read.
#[derive(Clone, Copy, Debug, PartialEq, Eq, Structural)]
pub enum MemberField {
    /// The field was not given.
    Absent,
    /// The field was given and is no UUID.
    Malformed,
    /// The field was given.
    Given(MemberId),
}

/// What an optional member identifier reads as.
pub open spec fn member_read(text: Option<String>) -> MemberField {
    match text {
        None => MemberField::Absent,
        Some(s) => match parsed_uuid(s@) {
            None => MemberField::Malformed,
            Some(uuid) => MemberField::Given(MemberId(uuid)),
        },
    }
}

/// Reads an optional member identifier.
pub fn read_member(text: &Option<String>) -> (r: MemberField)
    ensures
        r == member_read(*text),
{
    match text {
        None => MemberField::Absent,
        Some(s) => match parse_uuid(s.as_str()) {
            None => MemberField::Malformed,
            Some(uuid) => MemberField::Given(MemberId(uuid)),
        },
    }
}

/// A stretch of days, both ends among them.
#[derive(Clone, Copy, Debug, PartialEq, Eq, Structural)]
pub struct DateRange {
    /// The first day.
    pub from: Date,
    /// The last day.
    pub to: Date,
}

/// A date field of a request, read: its text and the date it was read as.
#[derive(Debug)]
pub struct DateField {
    /// The text.
    pub text: String,
    /// The date, if it is one.
    pub date: Option<Date>,
}

/// What the two ends of a stretch of days come to: the stretch if both are
/// given, nothing if neither is, and a refusal if one is missing or malformed.
pub open spec fn range_between(
    from: Option<(Seq<char>, Option<int>)>,
    to: Option<(Seq<char>, Option<int>)>,
) -> Result<Option<(int, int)>, Refusal> {
    match (from, to) {
        (None, None) => Ok(None),
        (Some((from, first)), Some((to, last))) => match (first, last) {
            (None, _) => Err(Refusal::bad_request(date_complaint("date"@, from))),
            (Some(_), None) => Err(Refusal::bad_request(date_complaint("date"@, to))),
            (Some(first), Some(last)) => Ok(Some((first, last))),
        },
        _ => Err(Refusal::bad_request("from and to must both be provided or both absent"@)),
    }
}

/// The content of a date field.
pub open spec fn field_of(end: Option<DateField>) -> Option<(Seq<char>, Option<int>)> {
    match end {
        Some(end) => Some((end.text@, day_of(end.date))),
        None => None,
    }
}

/// What the text of a date field reads as.
pub open spec fn date_read(text: Option<String>) -> Option<(Seq<char>, Option<int>)> {
    match text {
        Some(s) => Some((s@, parsed_date(s@))),
        None => None,
    }
}

/// What the texts of the two ends of a stretch of days come to.
pub open spec fn range_asked_for(from: Option<String>, to: Option<String>) -> Result<
    Option<(int, int)>,
    Refusal,
> {
    range_between(date_read(from), date_read(to))
}

/// A result with the Julian day numbers of its stretch of days.
pub open spec fn range_outcome(r: Result<Option<DateRange>, Rejection>) -> Result<
    Option<(int, int)>,
    Refusal,
> {
    match r {
        Ok(Some(range)) => Ok(Some((range.from@, range.to@))),
        Ok(None) => Ok(None),
        Err(rejection) => Err(rejection@),
    }
}

/// Reads an optional `YYYY-MM-DD` field.
pub fn read_date(text: &Option<String>) -> (r: Option<DateField>)
    ensures
        field_of(r) == date_read(*text),
{
    match text {
        Some(s) => Some(DateField { text: s.clone(), date: parse_iso_date(s.as_str()) }),
        None => None,
    }
}

/// Reads the two ends of a stretch of days.
pub fn read_range(from: &Option<String>, to: &Option<String>) -> (r: Result<
    Option<DateRange>,
    Rejection,
>)
    ensures
        range_outcome(r) == range_asked_for(*from, *to),
{
    build_range(read_date(from), read_date(to))
}

/// The stretch of days between two ends that are already read.
pub fn build_range(from: Option<DateField>, to: Option<DateField>) -> (r: Result<
    Option<DateRange>,
    Rejection,
>)
    ensures
        range_outcome(r) == range_between(field_of(from), field_of(to)),
{
    match (from, to) {
        (None, None) => Ok(None),
        (Some(from), Some(to)) => {
            let first = match date_or_complaint(from.date, "date", from.text.as_str()) {
                Ok(date) => date,
                Err(message) => return Err(Rejection::bad_request(message)),
            };
            let last = match date_or_complaint(to.date, "date", to.text.as_str()) {
                Ok(date) => date,
                Err(message) => return Err(Rejection::bad_request(message)),
            };
            Ok(Some(DateRange { from: first, to: last }))
        },
        _ => Err(
            Rejection::bad_request(
                "from and to must both be provided or both absent".to_owned(),
            ),
        ),
    }
}

/// The rule that the two recurrence fields give, if both are there.
pub open spec fn rule_given(rrule: Option<String>, timezone: Option<String>) -> Option<
    RecurrenceRule,
> {
    match (rrule, timezone) {
        (Some(rrule), Some(timezone)) => Some(RecurrenceRule { rrule, timezone }),
        _ => None,
    }
}

/// Why the two recurrence fields are refused: one of them is missing, or the
/// rule they give is not one that is supported.
pub open spec fn recurrence_refusal(
    rrule: Option<String>,
    timezone: Option<String>,
    verdict: Result<(), String>,
) -> Option<Refusal> {
    match (rrule, timezone) {
        (None, None) => None,
        (Some(_), Some(_)) => match verdict {
            Ok(_) => None,
            Err(reason) => Some(Refusal::unprocessable("recurrence: "@ + reason@)),
        },
        _ => Some(
            Refusal::unprocessable(
                "recurrence_rrule and recurrence_timezone must both be provided or both absent"@,
            ),
        ),
    }
}

/// The rule that has to be held against the supported subset before
/// [`read_recurrence`] can be asked, if there is one.
pub fn rule_to_check(rrule: &Option<String>, timezone: &Option<String>) -> (r: Option<
    RecurrenceRule,
>)
    ensures
        r == rule_given(*rrule, *timezone),
{
    match (rrule, timezone) {
        (Some(rrule), Some(timezone)) => Some(
            RecurrenceRule { rrule: rrule.clone(), timezone: timezone.clone() },
        ),
        _ => None,
    }
}

/// Reads the two recurrence fields. `verdict` is the validator's answer on the
/// rule they give; it is not looked at when they give none.
pub fn read_recurrence(
    rrule: &Option<String>,
    timezone: &Option<String>,
    verdict: &Result<(), String>,
) -> (r: Result<Option<RecurrenceRule>, Rejection>)
    ensures
        match r {
            Ok(rule) => recurrence_refusal(*rrule, *timezone, *verdict) is None && rule
                == rule_given(*rrule, *timezone),
            Err(rejection) => recurrence_refusal(*rrule, *timezone, *verdict) == Some(rejection@),
        },
{
    match (rrule, timezone) {
        (None, None) => Ok(None),
        (Some(_), Some(_)) => match verdict {
            Ok(_) => Ok(rule_to_check(rrule, timezone)),
            Err(reason) => Err(Rejection::unprocessable(join("recurrence: ", reason.as_str()))),
        },
        _ => Err(
            Rejection::unprocessable(
                "recurrence_rrule and recurrence_timezone must both be provided or both absent".to_owned(),
            ),
        ),
    }
}

} // verus!
