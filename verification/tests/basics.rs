// Text, dates, times, identifiers, fields, replies and routes.

use amity_service::api::fields::{
    parse_date, read_date, read_member, read_range, read_recurrence, read_time, rule_to_check,
    MemberField, TimeField,
};
use amity_service::api::member::parse_member_id;
use amity_service::dates::{Date, Timestamp, FIRST_DAY, LAST_DAY};
use amity_service::ids::{placeholder_member, CompletionLogId, MemberId, TaskId};
use amity_service::model::task::CompletionLog;
use amity_service::reply::{
    changed, deleted, found, identify, stored, Rejection, StatusCode, StorageFailure,
};
use amity_service::routes::{Endpoint, Method};
use amity_service::text::{
    copy_text, copy_texts, decimal_text, digits_text, is_blank, join, join3, normalise_each,
    normalise_tags, same_text, trim, white_space,
};

fn at(text: &str) -> Timestamp {
    match read_time(&Some(text.to_string())) {
        TimeField::At(t) => t,
        _ => panic!("{text} is no time"),
    }
}

fn day(text: &str) -> Date {
    parse_date("date", text).unwrap()
}

fn some(text: &str) -> Option<String> {
    Some(text.to_string())
}

// ─── Text ─────────────────────────────────────────────────────────────────────

#[test]
fn white_space_is_what_trimming_takes_away() {
    for code in 0u32..0x11_0000 {
        if let Some(c) = char::from_u32(code) {
            assert_eq!(white_space(c), c.is_whitespace());
        }
    }
}

#[test]
fn trimming_takes_both_ends() {
    let samples = ["", " ", "a", " a b ", "\u{3000}\u{85}x\u{2003}", "é\t", "\u{200b} "];
    for s in samples {
        assert_eq!(trim(s), s.trim());
        assert_eq!(trim(trim(s)), trim(s));
        assert_eq!(is_blank(s), s.trim().is_empty());
    }
}

#[test]
fn tags_are_trimmed_lower_cased_and_not_blank() {
    let tags: Vec<String> =
        [" Home ", "ÉTÉ", "\t", "straße", "X y"].iter().map(|t| t.to_string()).collect();
    assert_eq!(normalise_tags(&tags), ["home", "été", "straße", "x y"]);
    assert_eq!(normalise_each(&tags), ["home", "été", "", "straße", "x y"]);
}

#[test]
fn numbers_are_written_in_decimal() {
    assert_eq!(decimal_text(0), "0");
    assert_eq!(decimal_text(503), "503");
    assert_eq!(decimal_text(u32::MAX), "4294967295");
    assert_eq!(digits_text(7, 2), "07");
    assert_eq!(digits_text(2026, 4), "2026");
    assert_eq!(digits_text(12345, 4), "2345");
}

#[test]
fn texts_are_joined_compared_and_copied() {
    assert_eq!(join("a", "é"), "aé");
    assert_eq!(join3("a", "", "c"), "ac");
    assert!(same_text("é", "é"));
    assert!(!same_text("é", "e"));
    assert_eq!(copy_text(&some("x")), some("x"));
    assert_eq!(copy_text(&None), None);
    assert_eq!(copy_texts(&vec!["x".to_string()]), vec!["x".to_string()]);
}

// ─── Dates ────────────────────────────────────────────────────────────────────

#[test]
fn dates_have_day_numbers() {
    assert_eq!(day("2000-01-01").julian_day(), 2_451_545);
    assert_eq!(day("2026-05-25").julian_day(), 2_461_186);
    assert_eq!(day("0000-01-01").julian_day(), 1_721_060);
    assert_eq!(day("9999-12-31").julian_day(), LAST_DAY);
    assert_eq!(Date::from_julian_day(FIRST_DAY).unwrap().iso_text(), "-9999-01-01");
    assert!(Date::from_julian_day(FIRST_DAY - 1).is_none());
    assert!(Date::from_julian_day(LAST_DAY + 1).is_none());
    assert!(Date::from_julian_day(LAST_DAY).is_some());
}

#[test]
fn dates_have_calendar_parts() {
    assert_eq!(day("2024-02-29").calendar(), (2024, 2, 29));
    assert_eq!(day("2024-02-29").plus_days(1).calendar(), (2024, 3, 1));
    assert_eq!(day("2100-02-28").plus_days(1).calendar(), (2100, 3, 1));
    assert_eq!(day("2000-03-01").minus_days(1).calendar(), (2000, 2, 29));
    assert_eq!(day("2025-12-31").plus_days(1).iso_text(), "2026-01-01");
    assert_eq!(day("0000-01-01").minus_days(1).calendar(), (-1, 12, 31));
}

#[test]
fn date_texts_read_back() {
    let mut julian_day = FIRST_DAY;
    while julian_day <= LAST_DAY {
        let date = Date::from_julian_day(julian_day).unwrap();
        let text = date.iso_text();
        assert_eq!(parse_date("date", &text), Ok(date));
        julian_day += 997;
    }
}

#[test]
fn dates_of_ten_characters_are_written_as_they_were_read() {
    for text in ["2024-02-29", "0000-01-01", "9999-12-31", "1970-01-01"] {
        assert_eq!(day(text).iso_text(), text);
    }
    assert_eq!(day("+2026-05-25"), day("2026-05-25"));
    assert_eq!(day("-0001-12-31"), day("0000-01-01").minus_days(1));
    for text in ["2023-02-29", "+002026-05-25", "02026-05-25", "2026-05-25 ", "2026-00-10"] {
        assert!(parse_date("date", text).is_err());
    }
}

#[test]
fn calendar_order_follows_day_order() {
    let mut last = (-10_000, 0u8, 0u8);
    let mut julian_day = FIRST_DAY;
    while julian_day <= LAST_DAY {
        let parts = Date::from_julian_day(julian_day).unwrap().calendar();
        assert!(last < parts);
        last = parts;
        julian_day += 13;
    }
}

#[test]
fn weekdays_count_from_monday() {
    assert_eq!(day("2026-05-25").days_from_monday(), 0);
    assert_eq!(day("2026-05-31").days_from_monday(), 6);
    assert_eq!(day("2000-01-01").days_from_monday(), 5);
    assert!(day("2000-01-01").same_day(day("2000-01-01")));
    assert!(!day("2000-01-01").same_day(day("2000-01-02")));
}

#[test]
fn a_date_that_is_not_one_is_complained_of() {
    for text in ["not-a-date", "2026-02-30", "2026-13-01", "26-01-01", "2026/01/01", "", "2026-1-1"]
    {
        let complaint = parse_date("date", text).unwrap_err();
        assert_eq!(complaint, format!("date '{text}': expected YYYY-MM-DD"));
    }
}

// ─── Times ────────────────────────────────────────────────────────────────────

#[test]
fn times_are_read_and_written_as_rfc_3339() {
    for text in [
        "2026-05-25T10:00:00Z",
        "2026-05-25T10:00:00.123456789+05:30",
        "0000-01-01T00:00:00-23:59",
        "9999-12-31T23:59:59.5+23:59",
    ] {
        assert_eq!(at(text).to_rfc3339(), some(text));
        assert_eq!(at(text).rfc3339_text(), text);
        assert_eq!(at(text).rfc3339_or_display(), text);
    }
    assert_eq!(at("2026-05-25T10:00:00+00:00").rfc3339_text(), "2026-05-25T10:00:00Z");
    for text in ["2026-05-25", "2026-05-25T10:00:00", "10:00", ""] {
        assert!(matches!(read_time(&some(text)), TimeField::Malformed));
    }
    assert!(matches!(read_time(&None), TimeField::Absent));
}

#[test]
fn times_have_parts() {
    let parts = at("2026-05-25T10:11:12.5-01:30").parts();
    assert_eq!(parts, (day("2026-05-25"), 10, 11, 12, 500_000_000, -5_400));
    let made = Timestamp::new(parts.0, parts.1, parts.2, parts.3, parts.4, parts.5);
    assert_eq!(made, Some(at("2026-05-25T10:11:12.5-01:30")));
    let date = day("2026-05-25");
    assert!(Timestamp::new(date, 24, 0, 0, 0, 0).is_none());
    assert!(Timestamp::new(date, 0, 60, 0, 0, 0).is_none());
    assert!(Timestamp::new(date, 0, 0, 60, 0, 0).is_none());
    assert!(Timestamp::new(date, 0, 0, 0, 1_000_000_000, 0).is_none());
    assert!(Timestamp::new(date, 0, 0, 0, 0, 93_599).is_some());
    assert!(Timestamp::new(date, 0, 0, 0, 0, 93_600).is_none());
    assert!(Timestamp::new(date, 0, 0, 0, 0, -93_600).is_none());
}

#[test]
fn some_times_have_no_rfc_3339_text() {
    let long_ago = Timestamp::midnight_utc(day("0000-01-01").minus_days(1));
    assert_eq!(long_ago.to_rfc3339(), None);
    assert_eq!(long_ago.rfc3339_text(), "");
    assert_eq!(long_ago.rfc3339_or_display(), "-0001-12-31 0:00:00.0 +00:00:00");
    let odd_offset = Timestamp::new(day("2026-05-25"), 1, 2, 3, 4, 61).unwrap();
    assert_eq!(odd_offset.to_rfc3339(), None);
    let far_offset = Timestamp::new(day("2026-05-25"), 1, 2, 3, 4, 86_400).unwrap();
    assert_eq!(far_offset.to_rfc3339(), None);
}

#[test]
fn times_are_ordered_on_the_time_line() {
    assert!(at("2026-05-25T10:00:00Z").is_before(at("2026-05-25T10:00:00.000000001Z")));
    assert!(at("2026-05-25T10:00:00+02:00").is_before(at("2026-05-25T09:00:00Z")));
    let same = at("2026-05-25T10:00:00+02:00");
    assert!(!same.is_before(at("2026-05-25T08:00:00Z")));
    assert!(!at("2026-05-25T08:00:00Z").is_before(same));
}

#[test]
fn days_can_be_added_to_times() {
    let time = at("2026-05-25T10:00:00+02:00");
    assert_eq!(time.plus_days(7).rfc3339_text(), "2026-06-01T10:00:00+02:00");
    assert_eq!(time.minus_days(25).rfc3339_text(), "2026-04-30T10:00:00+02:00");
    assert_eq!(time.date(), day("2026-05-25"));
    assert_eq!(Timestamp::midnight_utc(day("2026-05-25")), at("2026-05-25T00:00:00Z"));
    let last = Timestamp::midnight_utc(Date::from_julian_day(LAST_DAY).unwrap());
    assert!(last.can_add_days(0));
    assert!(!last.can_add_days(1));
    let first = Timestamp::midnight_utc(Date::from_julian_day(FIRST_DAY).unwrap());
    assert!(first.can_subtract_days(0));
    assert!(!first.can_subtract_days(1));
}

// ─── Identifiers and fields ───────────────────────────────────────────────────

#[test]
fn identifiers_are_read_in_every_form_of_a_uuid() {
    let expected = MemberId(0x018f_1a2b_0000_7000_8000_0000_0000_0099);
    for text in [
        "018f1a2b-0000-7000-8000-000000000099",
        "018F1A2B-0000-7000-8000-000000000099",
        "018f1a2b000070008000000000000099",
        "{018f1a2b-0000-7000-8000-000000000099}",
        "urn:uuid:018f1a2b-0000-7000-8000-000000000099",
    ] {
        assert_eq!(parse_member_id(text).unwrap(), expected);
        assert_eq!(read_member(&some(text)), MemberField::Given(expected));
    }
    assert_eq!(read_member(&some("alice")), MemberField::Malformed);
    assert_eq!(read_member(&None), MemberField::Absent);
    assert_eq!(placeholder_member().0, 0x7000_8000_0000_0000_0001);
    let rejection = parse_member_id("alice").unwrap_err();
    assert_eq!(rejection.error, some("invalid member ID"));
}

#[test]
fn new_identifiers_are_of_version_seven_and_differ() {
    let make = || {
        CompletionLog::new(
            TaskId(1),
            day("2026-05-25"),
            placeholder_member(),
            at("2026-05-25T10:00:00Z"),
            false,
            None,
        )
    };
    let mut seen: Vec<CompletionLogId> = Vec::new();
    for _ in 0..100 {
        let id = make().id;
        assert_eq!((id.0 >> 76) & 0xf, 7);
        assert_eq!((id.0 >> 62) & 0x3, 2);
        assert!(!seen.contains(&id));
        seen.push(id);
    }
}

#[test]
fn stretches_of_days_need_both_ends() {
    let range = read_range(&some("2026-05-25"), &some("2026-05-31")).unwrap().unwrap();
    assert_eq!(range.from, day("2026-05-25"));
    assert_eq!(range.to, day("2026-05-31"));
    assert!(read_range(&None, &None).unwrap().is_none());
    let half = read_range(&some("2026-05-25"), &None).unwrap_err();
    assert_eq!(half.error, some("from and to must both be provided or both absent"));
    let bad = read_range(&some("x"), &some("y")).unwrap_err();
    assert_eq!(bad.error, some("date 'x': expected YYYY-MM-DD"));
    let bad = read_range(&some("2026-05-25"), &some("y")).unwrap_err();
    assert_eq!(bad.error, some("date 'y': expected YYYY-MM-DD"));
    let field = read_date(&some("2026-05-25")).unwrap();
    assert_eq!(field.text, "2026-05-25");
    assert_eq!(field.date, Some(day("2026-05-25")));
    assert!(read_date(&None).is_none());
}

#[test]
fn rules_need_a_timezone() {
    let rule = rule_to_check(&some("FREQ=DAILY"), &some("UTC")).unwrap();
    assert_eq!((rule.rrule.as_str(), rule.timezone.as_str()), ("FREQ=DAILY", "UTC"));
    assert!(rule_to_check(&some("FREQ=DAILY"), &None).is_none());
    let read = read_recurrence(&some("FREQ=DAILY"), &some("UTC"), &Ok(())).unwrap().unwrap();
    assert!(read.is_same(&rule));
    assert!(read_recurrence(&None, &None, &Ok(())).unwrap().is_none());
    let half = read_recurrence(&None, &some("UTC"), &Ok(())).unwrap_err();
    assert_eq!(
        half.error,
        some("recurrence_rrule and recurrence_timezone must both be provided or both absent"),
    );
    let refused = read_recurrence(&some("X"), &some("UTC"), &Err("no".to_string())).unwrap_err();
    assert_eq!(refused.error, some("recurrence: no"));
}

// ─── Replies ──────────────────────────────────────────────────────────────────

#[test]
fn statuses_have_their_codes() {
    assert_eq!(StatusCode::Success.code(), 200);
    assert_eq!(StatusCode::Created.code(), 201);
    assert_eq!(StatusCode::BadRequest.code(), 400);
    assert_eq!(StatusCode::NotFound.code(), 404);
    assert_eq!(StatusCode::UnprocessableEntity.code(), 422);
    assert_eq!(StatusCode::InternalServerError.code(), 500);
}

#[test]
fn storage_replies_become_answers() {
    let failure = || StorageFailure { message: "disk full".to_string() };
    assert_eq!(found(Ok(Some(3)), "no such thing").unwrap(), 3);
    let missing: Rejection = found::<u8>(Ok(None), "no such thing").unwrap_err();
    assert_eq!(missing.status, StatusCode::NotFound);
    assert_eq!(missing.error, some("no such thing"));
    assert_eq!(found::<u8>(Err(failure()), "no such thing").unwrap_err().status.code(), 500);
    assert_eq!(stored(Ok(3)).unwrap(), 3);
    assert_eq!(stored::<u8>(Err(failure())).unwrap_err().error, None);
    assert!(changed(Ok(true), "no such thing").is_ok());
    assert_eq!(changed(Ok(false), "no such thing").unwrap_err().status.code(), 404);
    assert_eq!(changed(Err(failure()), "no such thing").unwrap_err().status.code(), 500);
    let gone = deleted(placeholder_member().0, Ok(true), "no such thing").unwrap();
    assert_eq!(gone.body.id, "00000000-0000-7000-8000-000000000001");
    assert!(gone.body.deleted);
    assert_eq!(deleted(1, Ok(false), "no such thing").unwrap_err().status.code(), 404);
    assert_eq!(identify(Some(9), "bad").unwrap(), 9);
    assert_eq!(identify(None, "bad").unwrap_err().error, some("bad"));
}

// ─── Routes ───────────────────────────────────────────────────────────────────

#[test]
fn endpoints_have_methods_and_paths() {
    assert_eq!(Endpoint::CreateTask.method(), Method::Post);
    assert_eq!(Endpoint::CreateTask.path(), "/api/v1/tasks");
    assert_eq!(Endpoint::ListTasks.method(), Method::Get);
    assert_eq!(Endpoint::ListTasks.path(), "/api/v1/tasks");
    assert_eq!(Endpoint::PatchCalendar.method(), Method::Patch);
    assert_eq!(Endpoint::DeleteMember.method(), Method::Delete);
    assert_eq!(Endpoint::ClearChecked.path(), "/api/v1/grocery-lists/{id}/clear-checked");
}

#[test]
fn no_two_endpoints_share_a_method_and_a_path() {
    let all = [
        Endpoint::CaptureInboxItem,
        Endpoint::ListRecent,
        Endpoint::CreateTask,
        Endpoint::ListTasks,
        Endpoint::ListUpcoming,
        Endpoint::GetTask,
        Endpoint::PatchTask,
        Endpoint::CompleteTask,
        Endpoint::SkipTask,
        Endpoint::ChangeAssignee,
        Endpoint::GetTaskHistory,
        Endpoint::CreateEvent,
        Endpoint::ListEvents,
        Endpoint::GetEvent,
        Endpoint::CreateOverride,
        Endpoint::Today,
        Endpoint::Week,
        Endpoint::CreateCalendar,
        Endpoint::ListCalendars,
        Endpoint::GetCalendar,
        Endpoint::PatchCalendar,
        Endpoint::DeleteCalendar,
        Endpoint::RefreshCalendar,
        Endpoint::CreateMeal,
        Endpoint::ListMeals,
        Endpoint::GetMeal,
        Endpoint::DeleteMeal,
        Endpoint::CreateGroceryList,
        Endpoint::ListGroceryLists,
        Endpoint::GetGroceryList,
        Endpoint::CreateGroceryItem,
        Endpoint::ListGroceryItems,
        Endpoint::GenerateGroceryItems,
        Endpoint::ClearChecked,
        Endpoint::PatchGroceryItem,
        Endpoint::DeleteGroceryItem,
        Endpoint::CreatePantryItem,
        Endpoint::ListPantryItems,
        Endpoint::DeletePantryItem,
        Endpoint::CreateMember,
        Endpoint::ListMembers,
        Endpoint::GetMember,
        Endpoint::DeleteMember,
    ];
    assert_eq!(all.len(), 43);
    for (i, a) in all.iter().enumerate() {
        for b in &all[i + 1..] {
            assert!(a.method() != b.method() || a.path() != b.path());
        }
        assert!(a.path().starts_with("/api/v1/"));
    }
}
