//! How far ahead recurring tasks and events are laid out.

use vstd::prelude::*;

use crate::dates::{Timestamp, LAST_DAY};
use crate::model::task::RecurrenceRule;

verus! {

/// How far ahead recurring instances are laid out, in days.
pub const HORIZON_DAYS: u32 = 60;

/// The stretch of time that the occurrences of a rule are asked for.
#[derive(Clone, Copy, Debug)]
pub struct Window {
    /// The start.
    pub from: Timestamp,
    /// The end.
    pub until: Timestamp,
}

/// The stretch from `from` to the horizon.
pub fn horizon_window(from: Timestamp) -> (r: Window)
    requires
        from@.julian_day + HORIZON_DAYS <= LAST_DAY,
    ensures
        r.from == from,
        r.until@ == from@.plus_days(HORIZON_DAYS as int),
{
    Window { from, until: from.plus_days(HORIZON_DAYS) }
}

/// Whether `window` is where something new is laid out: nowhere if it does not
/// come back, and otherwise from when it was made to the horizon.
pub open spec fn is_first_layout(
    window: Option<Window>,
    recurrence: Option<RecurrenceRule>,
    created_at: Timestamp,
) -> bool {
    &&& window is Some <==> recurrence is Some
    &&& window matches Some(w) ==> w.from == created_at && w.until@ == created_at@.plus_days(
        HORIZON_DAYS as int,
    )
}

/// Where something new is laid out.
pub fn first_layout(recurrence: &Option<RecurrenceRule>, created_at: Timestamp) -> (r: Option<
    Window,
>)
    requires
        recurrence is Some ==> created_at@.julian_day + HORIZON_DAYS <= LAST_DAY,
    ensures
        is_first_layout(r, *recurrence, created_at),
{
    if recurrence.is_some() {
        Some(horizon_window(created_at))
    } else {
        None
    }
}

} // verus!
