//! The synchronisation of calendars and the upkeep of recurring tasks.

use vstd::prelude::*;

use crate::api::event::is_instance_at;
use crate::dates::Timestamp;
use crate::ids::is_version_7;
use crate::jobs::calendar_sync::{
    are_kept_as, can_be_kept, enabled_of, is_kept_as, occurrences_at, occurrences_of, stand_for,
    stored_id, sweeps_of, total_pruned, total_synced, total_upserted, uids_of, ParsedEvent, Sweep,
    SyncOutcome,
};
use crate::jobs::recurrence_horizon::total_kept;
use crate::laws::terms::says_something;
use crate::model::calendar::StoredCalendar;
use crate::model::event::{Event, EventInstance, EventSourceKind};
use crate::text::{blank, texts};

verus! {

// ─── Events of a feed ─────────────────────────────────────────────────────────

/// Whether an event of a feed is fit to be kept: it has a title, and it does not
/// end before it starts.
pub open spec fn is_fit(parsed: ParsedEvent) -> bool {
    &&& says_something(parsed.summary@)
    &&& parsed.end is Some ==> parsed.start@.instant() <= (parsed.end->0)@.instant()
}

/// Whether a kept event says what the feed says of it, comes read-only from the
/// calendar, and was made and read just now.
pub open spec fn is_copy_of(
    event: Event,
    parsed: ParsedEvent,
    calendar: Seq<char>,
    now: Timestamp,
) -> bool {
    &&& is_version_7(event.id.0)
    &&& event.title@ == parsed.summary@
    &&& event.start_at@ == parsed.start@
    &&& event.end_at is Some <==> parsed.end is Some
    &&& parsed.end is Some ==> (event.end_at->0)@ == (parsed.end->0)@
    &&& event.all_day == parsed.all_day
    &&& event.timezone@ == "Europe/Amsterdam"@
    &&& event.location is None
    &&& event.recurrence is None
    &&& event.source.kind == EventSourceKind::Ics
    &&& event.source.external_id is Some && (event.source.external_id->0)@ == parsed.uid@
    &&& event.source.calendar_id is Some && (event.source.calendar_id->0)@ == calendar
    &&& event.source.last_synced_at == Some(now)
    &&& event.source.read_only
    &&& event.created_at == now
    &&& event.updated_at == now
}

/// Of the events of a feed all that are fit are kept, each as the feed has it, in
/// the order of the feed, and nothing else is.
pub proof fn fit_events_are_kept(
    parsed: Seq<ParsedEvent>,
    events: Seq<Event>,
    calendar: Seq<char>,
    now: Timestamp,
)
    requires
        are_kept_as(parsed, events, calendar, now),
    ensures
        ({
            let fit = parsed.filter(|p: ParsedEvent| is_fit(p));
            &&& events.len() == fit.len()
            &&& forall|k: int|
                0 <= k < fit.len() ==> is_copy_of(#[trigger] events[k], fit[k], calendar, now)
        }),
    decreases parsed.len(),
{
    reveal(Seq::filter);
    if parsed.len() > 0 {
        let last = parsed.last();
        let fit = parsed.filter(|p: ParsedEvent| is_fit(p));
        if says_something(last.summary@) {
            assert(!blank(last.summary@));
        }
        if is_fit(last) {
            assert(can_be_kept(last));
            fit_events_are_kept(parsed.drop_last(), events.drop_last(), calendar, now);
            assert forall|k: int| 0 <= k < fit.len() implies is_copy_of(
                #[trigger] events[k],
                fit[k],
                calendar,
                now,
            ) by {
                if k < fit.len() - 1 {
                    assert(events[k] == events.drop_last()[k]);
                } else {
                    assert(is_kept_as(last, events.last(), calendar, now));
                }
            }
        } else {
            assert(!can_be_kept(last));
            fit_events_are_kept(parsed.drop_last(), events, calendar, now);
        }
    }
}

/// Every UID of the feed is spared when events that left it are pruned, whether
/// or not its event could be kept, and no other is.
pub proof fn listed_uids_are_spared(parsed: Seq<ParsedEvent>, uids: Seq<String>)
    requires
        texts(uids) == uids_of(parsed),
    ensures
        uids.len() == parsed.len(),
        forall|k: int| 0 <= k < parsed.len() ==> (#[trigger] uids[k])@ == parsed[k].uid@,
{
    assert(texts(uids).len() == uids.len());
    assert(uids_of(parsed).len() == parsed.len());
    assert forall|k: int| 0 <= k < parsed.len() implies (#[trigger] uids[k])@ == parsed[k].uid@ by {
        assert(texts(uids)[k] == uids[k]@);
    }
}

// ─── Sweeps ───────────────────────────────────────────────────────────────────

/// Whether a stored event is that of a parsed one in the feed of a calendar.
pub open spec fn is_its_row(event: Event, parsed: ParsedEvent, calendar: Seq<char>) -> bool {
    &&& event.source.calendar_id is Some
    &&& (event.source.calendar_id->0)@ == calendar
    &&& event.source.external_id is Some
    &&& (event.source.external_id->0)@ == parsed.uid@
}

proof fn row_is_found(events: Seq<Event>, parsed: ParsedEvent, calendar: Seq<char>)
    ensures
        match stored_id(events, calendar, parsed.uid@) {
            None => forall|j: int|
                0 <= j < events.len() ==> !is_its_row(#[trigger] events[j], parsed, calendar),
            Some(id) => exists|j: int|
                0 <= j < events.len() && is_its_row(#[trigger] events[j], parsed, calendar)
                    && events[j].id == id && forall|l: int|
                    j < l < events.len() ==> !is_its_row(#[trigger] events[l], parsed, calendar),
        },
    decreases events.len(),
{
    if events.len() > 0 {
        let fewer = events.drop_last();
        let last = events.len() - 1;
        row_is_found(fewer, parsed, calendar);
        assert forall|j: int| 0 <= j < fewer.len() implies #[trigger] events[j] == fewer[j] by {}
        if is_its_row(events[last], parsed, calendar) {
            assert(events[last].id == events.last().id);
        } else if stored_id(fewer, calendar, parsed.uid@) is Some {
            let id = stored_id(fewer, calendar, parsed.uid@)->0;
            let j = choose|j: int|
                0 <= j < fewer.len() && is_its_row(#[trigger] fewer[j], parsed, calendar)
                    && fewer[j].id == id && forall|l: int|
                    j < l < fewer.len() ==> !is_its_row(#[trigger] fewer[l], parsed, calendar);
            assert(events[j] == fewer[j]);
            assert forall|l: int| j < l < events.len() implies !is_its_row(
                #[trigger] events[l],
                parsed,
                calendar,
            ) by {
                if l < fewer.len() {
                    assert(events[l] == fewer[l]);
                }
            }
        }
    }
}

/// Every event of the feed that is stored is swept exactly once, under an
/// identifier that it is stored under, in the order of the feed; and nothing else
/// is swept. Nothing but its calendar and its UID decides whether it is.
pub proof fn every_stored_event_is_swept(
    parsed: Seq<ParsedEvent>,
    events: Seq<Event>,
    calendar: Seq<char>,
    sweeps: Seq<Sweep>,
)
    requires
        parsed.len() <= usize::MAX,
        sweeps == sweeps_of(parsed, events, calendar),
    ensures
        forall|k: int, j: int|
            0 <= k < parsed.len() && 0 <= j < events.len() && is_its_row(
                #[trigger] events[j],
                #[trigger] parsed[k],
                calendar,
            ) ==> exists|s: int|
                0 <= s < sweeps.len() && (#[trigger] sweeps[s]).parsed_index == k,
        forall|s: int|
            0 <= s < sweeps.len() ==> {
                &&& (#[trigger] sweeps[s]).parsed_index < parsed.len()
                &&& exists|j: int|
                    0 <= j < events.len() && is_its_row(
                        #[trigger] events[j],
                        parsed[sweeps[s].parsed_index as int],
                        calendar,
                    ) && events[j].id == sweeps[s].event_id
            },
        forall|s: int, t: int|
            0 <= s < t < sweeps.len() ==> (#[trigger] sweeps[s]).parsed_index < (
            #[trigger] sweeps[t]).parsed_index,
    decreases parsed.len(),
{
    if parsed.len() > 0 {
        let fewer = parsed.drop_last();
        let rest = sweeps_of(fewer, events, calendar);
        let last = parsed.len() - 1;
        every_stored_event_is_swept(fewer, events, calendar, rest);
        row_is_found(events, parsed[last], calendar);
        assert forall|s: int| 0 <= s < rest.len() implies sweeps[s] == #[trigger] rest[s] by {}
        assert forall|k: int, j: int|
            0 <= k < parsed.len() && 0 <= j < events.len() && is_its_row(
                #[trigger] events[j],
                #[trigger] parsed[k],
                calendar,
            ) implies exists|s: int|
            0 <= s < sweeps.len() && (#[trigger] sweeps[s]).parsed_index == k by {
            if k < last {
                assert(fewer[k] == parsed[k]);
                assert(is_its_row(events[j], fewer[k], calendar));
                let s = choose|s: int|
                    0 <= s < rest.len() && (#[trigger] rest[s]).parsed_index == k;
                assert(sweeps[s].parsed_index == k);
            } else {
                assert(sweeps[rest.len() as int].parsed_index == k);
            }
        }
        assert forall|s: int| 0 <= s < sweeps.len() implies {
            &&& (#[trigger] sweeps[s]).parsed_index < parsed.len()
            &&& exists|j: int|
                0 <= j < events.len() && is_its_row(
                    #[trigger] events[j],
                    parsed[sweeps[s].parsed_index as int],
                    calendar,
                ) && events[j].id == sweeps[s].event_id
        } by {
            if s < rest.len() {
                assert(sweeps[s] == rest[s]);
                assert(fewer[rest[s].parsed_index as int] == parsed[rest[s].parsed_index as int]);
            }
        }
        assert forall|s: int, t: int| 0 <= s < t < sweeps.len() implies (
        #[trigger] sweeps[s]).parsed_index < (#[trigger] sweeps[t]).parsed_index by {
            assert(sweeps[s] == rest[s]);
            if t < rest.len() {
                assert(sweeps[t] == rest[t]);
            }
        }
    }
}

/// Where a UID is stored more than once for a calendar, the last row counts.
pub proof fn last_row_of_a_uid_counts(
    parsed: ParsedEvent,
    events: Seq<Event>,
    calendar: Seq<char>,
    sweeps: Seq<Sweep>,
    j: int,
)
    requires
        sweeps == sweeps_of(seq![parsed], events, calendar),
        0 <= j < events.len(),
        is_its_row(events[j], parsed, calendar),
        forall|l: int|
            j < l < events.len() ==> !is_its_row(#[trigger] events[l], parsed, calendar),
    ensures
        sweeps.len() == 1,
        sweeps[0].parsed_index == 0,
        sweeps[0].event_id == events[j].id,
{
    row_is_found(events, parsed, calendar);
    let all = seq![parsed];
    assert(all.drop_last() =~= Seq::empty());
    assert(sweeps_of(all.drop_last(), events, calendar) =~= Seq::empty());
    assert(all.last() == parsed);
}

// ─── Occurrences ──────────────────────────────────────────────────────────────

/// One sweep gives one row for each time of its expansion, in order, at that time
/// and of the event that is swept.
pub proof fn swept_event_gets_a_row_for_each_time(
    sweep: Sweep,
    times: Vec<Timestamp>,
    rows: Seq<EventInstance>,
)
    requires
        stand_for(rows, occurrences_of(seq![sweep], seq![times])),
    ensures
        rows.len() == times@.len(),
        forall|k: int|
            0 <= k < rows.len() ==> (#[trigger] rows[k]).event_id == sweep.event_id
                && rows[k].scheduled_at == times@[k],
{
    let sweeps = seq![sweep];
    assert(sweeps.drop_last() =~= Seq::empty());
    assert(occurrences_of(sweeps.drop_last(), seq![times]) =~= Seq::empty());
    assert(occurrences_of(sweeps, seq![times]) =~= occurrences_at(sweep.event_id, times@));
    let occurrences = occurrences_at(sweep.event_id, times@);
    assert(occurrences.len() == times@.len());
    assert forall|k: int| 0 <= k < rows.len() implies (#[trigger] rows[k]).event_id
        == sweep.event_id && rows[k].scheduled_at == times@[k] by {
        assert(is_instance_at(rows[k], occurrences[k].0, occurrences[k].1));
        assert(occurrences[k] == (sweep.event_id, times@[k]));
    }
}

proof fn expansions_count_up_to_the_sweeps(
    sweeps: Seq<Sweep>,
    one: Seq<Vec<Timestamp>>,
    other: Seq<Vec<Timestamp>>,
)
    requires
        forall|k: int| 0 <= k < sweeps.len() ==> one[k] == other[k],
    ensures
        occurrences_of(sweeps, one) == occurrences_of(sweeps, other),
    decreases sweeps.len(),
{
    if sweeps.len() > 0 {
        expansions_count_up_to_the_sweeps(sweeps.drop_last(), one, other);
        assert(one[sweeps.len() - 1] == other[sweeps.len() - 1]);
    }
}

/// Sweeps do not get in each other's way: the occurrences of two lists of sweeps,
/// put together, are those of the one followed by those of the other.
pub proof fn sweeps_lay_out_side_by_side(
    sweeps: Seq<Sweep>,
    expansions: Seq<Vec<Timestamp>>,
    more_sweeps: Seq<Sweep>,
    more_expansions: Seq<Vec<Timestamp>>,
)
    requires
        expansions.len() == sweeps.len(),
        more_expansions.len() == more_sweeps.len(),
    ensures
        occurrences_of(sweeps + more_sweeps, expansions + more_expansions) == occurrences_of(
            sweeps,
            expansions,
        ) + occurrences_of(more_sweeps, more_expansions),
    decreases more_sweeps.len(),
{
    let all = sweeps + more_sweeps;
    let all_times = expansions + more_expansions;
    let first = occurrences_of(sweeps, expansions);
    if more_sweeps.len() == 0 {
        assert(all =~= sweeps);
        assert(all_times =~= expansions);
        assert(occurrences_of(more_sweeps, more_expansions) =~= Seq::empty());
        assert(first + occurrences_of(more_sweeps, more_expansions) =~= first);
    } else {
        let fewer = more_sweeps.drop_last();
        let fewer_times = more_expansions.drop_last();
        sweeps_lay_out_side_by_side(sweeps, expansions, fewer, fewer_times);
        assert(all.drop_last() =~= sweeps + fewer);
        assert(all.last() == more_sweeps.last());
        assert(all_times[all.len() - 1] == more_expansions[more_sweeps.len() - 1]);
        expansions_count_up_to_the_sweeps(sweeps + fewer, expansions + fewer_times, all_times);
        expansions_count_up_to_the_sweeps(fewer, fewer_times, more_expansions);
        let middle = occurrences_of(fewer, more_expansions);
        let last = occurrences_at(
            more_sweeps.last().event_id,
            more_expansions[more_sweeps.len() - 1]@,
        );
        assert((first + middle) + last =~= first + (middle + last));
    }
}

/// Every time that a swept event was expanded to gets a row.
pub proof fn every_expanded_time_gets_a_row(
    sweeps: Seq<Sweep>,
    expansions: Seq<Vec<Timestamp>>,
    rows: Seq<EventInstance>,
    s: int,
    k: int,
)
    requires
        expansions.len() == sweeps.len(),
        stand_for(rows, occurrences_of(sweeps, expansions)),
        0 <= s < sweeps.len(),
        0 <= k < expansions[s]@.len(),
    ensures
        exists|r: int|
            0 <= r < rows.len() && (#[trigger] rows[r]).event_id == sweeps[s].event_id
                && rows[r].scheduled_at == expansions[s]@[k],
{
    let own = seq![sweeps[s]];
    let own_times = seq![expansions[s]];
    sweeps_lay_out_side_by_side(sweeps.take(s), expansions.take(s), own, own_times);
    sweeps_lay_out_side_by_side(
        sweeps.take(s) + own,
        expansions.take(s) + own_times,
        sweeps.skip(s + 1),
        expansions.skip(s + 1),
    );
    assert(sweeps.take(s) + own + sweeps.skip(s + 1) =~= sweeps);
    assert(expansions.take(s) + own_times + expansions.skip(s + 1) =~= expansions);
    assert(own.drop_last() =~= Seq::empty());
    assert(occurrences_of(own.drop_last(), own_times) =~= Seq::empty());
    assert(occurrences_of(own, own_times) =~= occurrences_at(sweeps[s].event_id, expansions[s]@));
    let all = occurrences_of(sweeps, expansions);
    let r = occurrences_of(sweeps.take(s), expansions.take(s)).len() + k;
    assert(all[r] == (sweeps[s].event_id, expansions[s]@[k]));
    assert(is_instance_at(rows[r], all[r].0, all[r].1));
}

// ─── Records and reports ──────────────────────────────────────────────────────

/// A pass synchronises just the calendars that are switched on, each once and in
/// their order.
pub proof fn pass_is_the_enabled_in_order(calendars: Seq<StoredCalendar>)
    ensures
        enabled_of(calendars) == calendars.filter(|c: StoredCalendar| c.calendar.enabled),
    decreases calendars.len(),
{
    reveal(Seq::filter);
    if calendars.len() > 0 {
        pass_is_the_enabled_in_order(calendars.drop_last());
    }
}

/// What a pass did is the sum of what it did for each calendar: one that failed
/// adds nothing, and one that did not adds itself, its events and its removals.
pub proof fn report_is_a_sum(
    outcomes: Seq<Result<SyncOutcome, String>>,
    outcome: Result<SyncOutcome, String>,
    i: int,
)
    requires
        0 <= i <= outcomes.len(),
    ensures
        total_synced(Seq::empty()) == 0,
        total_upserted(Seq::empty()) == 0,
        total_pruned(Seq::empty()) == 0,
        outcome is Err ==> {
            &&& total_synced(outcomes.insert(i, outcome)) == total_synced(outcomes)
            &&& total_upserted(outcomes.insert(i, outcome)) == total_upserted(outcomes)
            &&& total_pruned(outcomes.insert(i, outcome)) == total_pruned(outcomes)
        },
        outcome is Ok ==> {
            &&& total_synced(outcomes.insert(i, outcome)) == total_synced(outcomes) + 1
            &&& total_upserted(outcomes.insert(i, outcome)) == total_upserted(outcomes)
                + outcome->Ok_0.events_upserted
            &&& total_pruned(outcomes.insert(i, outcome)) == total_pruned(outcomes)
                + outcome->Ok_0.events_pruned
        },
    decreases outcomes.len(),
{
    let more = outcomes.insert(i, outcome);
    if i == outcomes.len() {
        assert(more.drop_last() =~= outcomes);
        assert(more.last() == outcome);
    } else {
        report_is_a_sum(outcomes.drop_last(), outcome, i);
        assert(more.drop_last() =~= outcomes.drop_last().insert(i, outcome));
        assert(more.last() == outcomes.last());
    }
}

/// What a pass over the recurring tasks kept is the sum over the tasks: one that
/// failed adds nothing, and one that did not adds its instances.
pub proof fn horizon_report_is_a_sum(
    outcomes: Seq<Result<usize, String>>,
    outcome: Result<usize, String>,
    i: int,
)
    requires
        0 <= i <= outcomes.len(),
    ensures
        total_kept(Seq::empty()) == 0,
        outcome is Err ==> total_kept(outcomes.insert(i, outcome)) == total_kept(outcomes),
        outcome is Ok ==> total_kept(outcomes.insert(i, outcome)) == total_kept(outcomes)
            + outcome->Ok_0,
    decreases outcomes.len(),
{
    let more = outcomes.insert(i, outcome);
    if i == outcomes.len() {
        assert(more.drop_last() =~= outcomes);
        assert(more.last() == outcome);
    } else {
        horizon_report_is_a_sum(outcomes.drop_last(), outcome, i);
        assert(more.drop_last() =~= outcomes.drop_last().insert(i, outcome));
        assert(more.last() == outcomes.last());
    }
}

} // verus!
