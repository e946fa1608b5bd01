//! Events, their occurrences and the overlays that change single occurrences.

use vstd::prelude::*;

use crate::dates::{Date, Timestamp};
use crate::ids::{is_version_7, new_uuid, EventId, EventOverrideId, MemberId};
use crate::model::task::RecurrenceRule;
use crate::text::{blank, is_blank, same_text};

verus! {

/// Where an event comes from.
#[derive(Clone, Copy, Debug, PartialEq, Eq, Structural)]
pub enum EventSourceKind {
    /// Made in the household.
    Native,
    /// Read from a subscribed ICS feed.
    Ics,
}

impl EventSourceKind {
    /// The text of the kind.
    pub open spec fn text(self) -> Seq<char> {
        match self {
            EventSourceKind::Native => "native"@,
            EventSourceKind::Ics => "ics"@,
        }
    }

    /// The text of the kind.
    pub fn as_str(self) -> (r: &'static str)
        ensures
            r@ == self.text(),
    {
        match self {
            EventSourceKind::Native => "native",
            EventSourceKind::Ics => "ics",
        }
    }
}

/// Where an event comes from, and whether it can be edited.
#[derive(Clone, Debug)]
pub struct EventSource {
    /// Native or from a feed.
    pub kind: EventSourceKind,
    /// The UID of the event in its feed.
    pub external_id: Option<String>,
    /// The calendar whose feed holds it.
    pub calendar_id: Option<String>,
    /// When it was last read from the feed.
    pub last_synced_at: Option<Timestamp>,
    /// Whether the event itself cannot be edited.
    pub read_only: bool,
}

impl EventSource {
    /// The source of an event made in the household.
    pub open spec fn is_native(self) -> bool {
        &&& self.kind == EventSourceKind::Native
        &&& self.external_id is None
        &&& self.calendar_id is None
        &&& self.last_synced_at is None
        &&& !self.read_only
    }

    /// The source of an event read from the feed of a calendar at `now`.
    pub open spec fn is_from_feed(self, uid: Seq<char>, calendar_id: Seq<char>, now: Timestamp) -> bool {
        &&& self.kind == EventSourceKind::Ics
        &&& self.external_id matches Some(id) && id@ == uid
        &&& self.calendar_id matches Some(id) && id@ == calendar_id
        &&& self.last_synced_at == Some(now)
        &&& self.read_only
    }

    /// The source of an event made in the household.
    pub fn native() -> (r: EventSource)
        ensures
            r.is_native(),
    {
        EventSource {
            kind: EventSourceKind::Native,
            external_id: None,
            calendar_id: None,
            last_synced_at: None,
            read_only: false,
        }
    }

    /// The source of an event read from the feed of a calendar at `now`.
    pub fn ics(uid: String, calendar_id: String, now: Timestamp) -> (r: EventSource)
        ensures
            r.is_from_feed(uid@, calendar_id@, now),
    {
        EventSource {
            kind: EventSourceKind::Ics,
            external_id: Some(uid),
            calendar_id: Some(calendar_id),
            last_synced_at: Some(now),
            read_only: true,
        }
    }
}

/// Something that happens at a time.
#[derive(Clone, Debug)]
pub struct Event {
    /// Identifies the event.
    pub id: EventId,
    /// One-line title, never blank.
    pub title: String,
    /// When it starts.
    pub start_at: Timestamp,
    /// When it ends, never before it starts.
    pub end_at: Option<Timestamp>,
    /// Whether it takes the whole day.
    pub all_day: bool,
    /// The IANA name of its timezone, never blank.
    pub timezone: String,
    /// Where it takes place.
    pub location: Option<String>,
    /// When it comes back; absent for a one-shot event and for every event from
    /// a feed.
    pub recurrence: Option<RecurrenceRule>,
    /// Where it comes from.
    pub source: EventSource,
    /// When it was made.
    pub created_at: Timestamp,
    /// When it was last changed.
    pub updated_at: Timestamp,
}

/// An event to be made.
#[derive(Clone, Debug)]
pub struct EventDraft {
    /// One-line title.
    pub title: String,
    /// When it starts.
    pub start_at: Timestamp,
    /// When it ends.
    pub end_at: Option<Timestamp>,
    /// Whether it takes the whole day.
    pub all_day: bool,
    /// The IANA name of its timezone; absent means Amsterdam.
    pub timezone: Option<String>,
    /// Where it takes place.
    pub location: Option<String>,
    /// When it comes back.
    pub recurrence: Option<RecurrenceRule>,
    /// Where it comes from.
    pub source: EventSource,
}

/// Why an event cannot be made.
#[derive(Clone, Copy, Debug, PartialEq, Eq, Structural)]
pub enum EventError {
    /// The title is blank.
    EmptyTitle,
    /// The timezone is blank.
    EmptyTimezone,
    /// The event ends before it starts.
    EndBeforeStart,
}

impl EventDraft {
    /// What keeps the event from being made, if anything does.
    pub open spec fn error(self) -> Option<EventError> {
        if blank(self.title@) {
            Some(EventError::EmptyTitle)
        } else if self.timezone matches Some(zone) && blank(zone@) {
            Some(EventError::EmptyTimezone)
        } else if self.end_at matches Some(end) && end@.instant() < self.start_at@.instant() {
            Some(EventError::EndBeforeStart)
        } else {
            None
        }
    }

    /// Whether `event` is the event that the draft makes at `now`.
    pub open spec fn makes(self, event: Event, now: Timestamp) -> bool {
        &&& is_version_7(event.id.0)
        &&& event.title == self.title
        &&& event.start_at == self.start_at
        &&& event.end_at == self.end_at
        &&& event.all_day == self.all_day
        &&& event.timezone@ == (match self.timezone {
            Some(zone) => zone@,
            None => "Europe/Amsterdam"@,
        })
        &&& event.location == self.location
        &&& event.recurrence == self.recurrence
        &&& event.source == self.source
        &&& event.created_at == now
        &&& event.updated_at == now
    }

    /// Makes the event.
    pub fn build(self, now: Timestamp) -> (r: Result<Event, EventError>)
        ensures
            match r {
                Ok(event) => self.error() is None && self.makes(event, now),
                Err(error) => self.error() == Some(error),
            },
    {
        if is_blank(self.title.as_str()) {
            return Err(EventError::EmptyTitle);
        }
        let timezone = match self.timezone {
            Some(zone) => {
                if is_blank(zone.as_str()) {
                    return Err(EventError::EmptyTimezone);
                }
                zone
            },
            None => "Europe/Amsterdam".to_owned(),
        };
        if let Some(end) = self.end_at {
            if end.is_before(self.start_at) {
                return Err(EventError::EndBeforeStart);
            }
        }
        Ok(
            Event {
                id: EventId(new_uuid()),
                title: self.title,
                start_at: self.start_at,
                end_at: self.end_at,
                all_day: self.all_day,
                timezone,
                location: self.location,
                recurrence: self.recurrence,
                source: self.source,
                created_at: now,
                updated_at: now,
            },
        )
    }
}

/// One scheduled occurrence of an event.
#[derive(Clone, Debug)]
pub struct EventInstance {
    /// Identifies the occurrence.
    pub id: String,
    /// The event.
    pub event_id: EventId,
    /// When the occurrence starts.
    pub scheduled_at: Timestamp,
}

/// What an overlay does to one occurrence of an event.
#[derive(Clone, Copy, Debug, PartialEq, Eq, Structural)]
pub enum OverrideAction {
    /// Hides the occurrence.
    Cancel,
    /// Moves the occurrence.
    Reschedule,
    /// Puts a note to the occurrence.
    Annotate,
}

impl OverrideAction {
    /// The text of the action.
    pub open spec fn text(self) -> Seq<char> {
        match self {
            OverrideAction::Cancel => "cancel"@,
            OverrideAction::Reschedule => "reschedule"@,
            OverrideAction::Annotate => "annotate"@,
        }
    }

    /// The action with the given text.
    pub open spec fn of_text(text: Seq<char>) -> Option<OverrideAction> {
        if text == "cancel"@ {
            Some(OverrideAction::Cancel)
        } else if text == "reschedule"@ {
            Some(OverrideAction::Reschedule)
        } else if text == "annotate"@ {
            Some(OverrideAction::Annotate)
        } else {
            None
        }
    }

    /// The text of the action.
    pub fn as_str(self) -> (r: &'static str)
        ensures
            r@ == self.text(),
    {
        match self {
            OverrideAction::Cancel => "cancel",
            OverrideAction::Reschedule => "reschedule",
            OverrideAction::Annotate => "annotate",
        }
    }

    /// Reads an action from its text.
    pub fn parse(text: &str) -> (r: Option<OverrideAction>)
        ensures
            r == OverrideAction::of_text(text@),
    {
        if same_text(text, "cancel") {
            Some(OverrideAction::Cancel)
        } else if same_text(text, "reschedule") {
            Some(OverrideAction::Reschedule)
        } else if same_text(text, "annotate") {
            Some(OverrideAction::Annotate)
        } else {
            None
        }
    }
}

/// Reading the text of an action gives the action back.
pub proof fn action_text_round_trip(action: OverrideAction)
    ensures
        OverrideAction::of_text(action.text()) == Some(action),
{
    reveal_strlit("cancel");
    reveal_strlit("reschedule");
    reveal_strlit("annotate");
    assert("cancel"@.len() == 6 && "reschedule"@.len() == 10 && "annotate"@.len() == 8);
}

/// A change overlaid on one occurrence of an event. Overlays are only ever added.
#[derive(Clone, Debug)]
pub struct EventOverride {
    /// Identifies the overlay.
    pub id: EventOverrideId,
    /// The event.
    pub source_event_id: EventId,
    /// The date of the occurrence.
    pub instance_date: Date,
    /// What it does.
    pub action: OverrideAction,
    /// The new time or the note.
    pub payload: Option<String>,
    /// Who made it.
    pub created_by: MemberId,
    /// When it was made.
    pub created_at: Timestamp,
}

impl EventOverride {
    /// A new overlay under an identifier that is drawn for it.
    pub fn new(
        source_event_id: EventId,
        instance_date: Date,
        action: OverrideAction,
        payload: Option<String>,
        created_by: MemberId,
        created_at: Timestamp,
    ) -> (r: EventOverride)
        ensures
            is_version_7(r.id.0),
            r == (EventOverride {
                id: r.id,
                source_event_id,
                instance_date,
                action,
                payload,
                created_by,
                created_at,
            }),
    {
        let id = EventOverrideId(new_uuid());
        EventOverride {
            id,
            source_event_id,
            instance_date,
            action,
            payload,
            created_by,
            created_at,
        }
    }
}

} // verus!
