//! Tasks, their recurring instances and the log of what became of them.

use vstd::prelude::*;

use crate::dates::{Date, Timestamp};
use crate::ids::{is_version_7, new_uuid, CompletionLogId, MemberId, TaskId};
use crate::text::same_text;

verus! {

/// The lifecycle state of a task.
#[derive(Clone, Copy, Debug, PartialEq, Eq, Structural)]
pub enum TaskStatus {
    /// Waiting to be done.
    Open,
    /// Someone is on it.
    Doing,
    /// Done.
    Done,
    /// Deliberately not done.
    Skipped,
}

impl TaskStatus {
    /// The text of the state in requests, responses and storage.
    pub open spec fn text(self) -> Seq<char> {
        match self {
            TaskStatus::Open => "open"@,
            TaskStatus::Doing => "doing"@,
            TaskStatus::Done => "done"@,
            TaskStatus::Skipped => "skipped"@,
        }
    }

    /// The state with the given text.
    pub open spec fn of_text(text: Seq<char>) -> Option<TaskStatus> {
        if text == "open"@ {
            Some(TaskStatus::Open)
        } else if text == "doing"@ {
            Some(TaskStatus::Doing)
        } else if text == "done"@ {
            Some(TaskStatus::Done)
        } else if text == "skipped"@ {
            Some(TaskStatus::Skipped)
        } else {
            None
        }
    }

    /// The text of the state.
    pub fn as_str(self) -> (r: &'static str)
        ensures
            r@ == self.text(),
    {
        match self {
            TaskStatus::Open => "open",
            TaskStatus::Doing => "doing",
            TaskStatus::Done => "done",
            TaskStatus::Skipped => "skipped",
        }
    }

    /// Reads a state from its text.
    pub fn parse(text: &str) -> (r: Option<TaskStatus>)
        ensures
            r == TaskStatus::of_text(text@),
    {
        if same_text(text, "open") {
            Some(TaskStatus::Open)
        } else if same_text(text, "doing") {
            Some(TaskStatus::Doing)
        } else if same_text(text, "done") {
            Some(TaskStatus::Done)
        } else if same_text(text, "skipped") {
            Some(TaskStatus::Skipped)
        } else {
            None
        }
    }
}

/// Reading the text of a state gives the state back.
pub proof fn status_text_round_trip(status: TaskStatus)
    ensures
        TaskStatus::of_text(status.text()) == Some(status),
{
    reveal_strlit("open");
    reveal_strlit("doing");
    reveal_strlit("done");
    reveal_strlit("skipped");
    assert("open"@.len() == 4 && "doing"@.len() == 5 && "done"@.len() == 4 && "skipped"@.len()
        == 7);
    assert("open"@[0] != "done"@[0]);
}

/// The smallest effort and priority.
pub const LEVEL_MIN: u8 = 1;

/// The largest effort and priority.
pub const LEVEL_MAX: u8 = 5;

/// Whether a number is an effort or a priority.
pub open spec fn is_level(value: u8) -> bool {
    LEVEL_MIN <= value <= LEVEL_MAX
}

/// An effort estimate from 1, a few minutes, to 5, most of an afternoon.
#[derive(Clone, Copy, Debug, PartialEq, Eq, Structural)]
pub struct EffortLevel {
    value: u8,
}

impl View for EffortLevel {
    type V = u8;

    closed spec fn view(&self) -> u8 {
        self.value
    }
}

/// The number of an effort that may be absent.
pub open spec fn effort_of(effort: Option<EffortLevel>) -> Option<u8> {
    match effort {
        Some(e) => Some(e@),
        None => None,
    }
}

impl EffortLevel {
    #[verifier::type_invariant]
    spec fn in_range(self) -> bool {
        is_level(self.value)
    }

    /// The effort with the given number, if the number is one.
    pub fn new(value: u8) -> (r: Option<EffortLevel>)
        ensures
            match r {
                Some(level) => is_level(value) && level@ == value,
                None => !is_level(value),
            },
    {
        if LEVEL_MIN <= value && value <= LEVEL_MAX {
            Some(EffortLevel { value })
        } else {
            None
        }
    }

    /// The number.
    pub fn value(self) -> (r: u8)
        ensures
            r == self@,
            is_level(r),
    {
        proof {
            use_type_invariant(&self);
        }
        self.value
    }
}

/// An importance rank from 1 to 5.
#[derive(Clone, Copy, Debug, PartialEq, Eq, Structural)]
pub struct Priority {
    value: u8,
}

impl View for Priority {
    type V = u8;

    closed spec fn view(&self) -> u8 {
        self.value
    }
}

/// The number of a priority that may be absent.
pub open spec fn priority_of(priority: Option<Priority>) -> Option<u8> {
    match priority {
        Some(p) => Some(p@),
        None => None,
    }
}

impl Priority {
    #[verifier::type_invariant]
    spec fn in_range(self) -> bool {
        is_level(self.value)
    }

    /// The priority with the given number, if the number is one.
    pub fn new(value: u8) -> (r: Option<Priority>)
        ensures
            match r {
                Some(level) => is_level(value) && level@ == value,
                None => !is_level(value),
            },
    {
        if LEVEL_MIN <= value && value <= LEVEL_MAX {
            Some(Priority { value })
        } else {
            None
        }
    }

    /// The number.
    pub fn value(self) -> (r: u8)
        ensures
            r == self@,
            is_level(r),
    {
        proof {
            use_type_invariant(&self);
        }
        self.value
    }
}

/// When a task or event comes back: an RFC 5545 rule and the timezone its
/// clock times are in.
#[derive(Clone, Debug)]
pub struct RecurrenceRule {
    /// The rule, without the `RRULE:` prefix.
    pub rrule: String,
    /// The IANA name of the timezone.
    pub timezone: String,
}

impl RecurrenceRule {
    /// Whether the two say the same.
    pub open spec fn same(self, other: RecurrenceRule) -> bool {
        self.rrule@ == other.rrule@ && self.timezone@ == other.timezone@
    }

    /// Whether the two rules say the same.
    pub fn is_same(&self, other: &RecurrenceRule) -> (r: bool)
        ensures
            r == self.same(*other),
    {
        self.rrule == other.rrule && self.timezone == other.timezone
    }
}

/// A thing the household means to do.
#[derive(Clone, Debug)]
pub struct Task {
    /// Identifies the task.
    pub id: TaskId,
    /// One-line summary, never blank.
    pub title: String,
    /// Free-form notes.
    pub notes: Option<String>,
    /// Lifecycle state, of the whole series where the task recurs.
    pub status: TaskStatus,
    /// Latest meaningful completion time.
    pub due_by: Option<Timestamp>,
    /// Earliest meaningful start time.
    pub earliest_at: Option<Timestamp>,
    /// Effort estimate.
    pub effort: Option<EffortLevel>,
    /// Importance rank.
    pub priority: Option<Priority>,
    /// Normalised tags.
    pub tags: Vec<String>,
    /// Who the task belongs to.
    pub owner_id: MemberId,
    /// Who is doing it.
    pub assignee_ids: Vec<MemberId>,
    /// Who may take it; empty means anyone.
    pub eligible_member_ids: Vec<MemberId>,
    /// Who is shown as doing it by default.
    pub current_assignee_id: Option<MemberId>,
    /// When it comes back; absent for a one-shot task.
    pub recurrence: Option<RecurrenceRule>,
    /// When the task was made.
    pub created_at: Timestamp,
    /// When the task was last changed.
    pub updated_at: Timestamp,
}

/// One scheduled occurrence of a recurring task.
#[derive(Clone, Debug)]
pub struct TaskInstance {
    /// Identifies the occurrence.
    pub id: String,
    /// The recurring task.
    pub task_id: TaskId,
    /// When the occurrence is due.
    pub scheduled_at: Timestamp,
    /// Who is shown as doing it by default.
    pub current_assignee_id: Option<MemberId>,
}

/// An immutable record of a completed or skipped task instance.
#[derive(Clone, Debug)]
pub struct CompletionLog {
    /// Identifies the entry.
    pub id: CompletionLogId,
    /// The task that was acted on.
    pub task_id: TaskId,
    /// The date of the instance.
    pub instance_date: Date,
    /// Who acted.
    pub completed_by: MemberId,
    /// When.
    pub completed_at: Timestamp,
    /// Whether the instance was skipped rather than completed.
    pub skipped: bool,
    /// Free-form context.
    pub notes: Option<String>,
}

impl CompletionLog {
    /// The state that the entry leaves its task in.
    pub open spec fn resolution(self) -> TaskStatus {
        if self.skipped {
            TaskStatus::Skipped
        } else {
            TaskStatus::Done
        }
    }

    /// The state that the entry leaves its task in.
    pub fn resolved_status(&self) -> (r: TaskStatus)
        ensures
            r == self.resolution(),
    {
        if self.skipped {
            TaskStatus::Skipped
        } else {
            TaskStatus::Done
        }
    }

    /// A new entry under an identifier that is drawn for it.
    pub fn new(
        task_id: TaskId,
        instance_date: Date,
        completed_by: MemberId,
        completed_at: Timestamp,
        skipped: bool,
        notes: Option<String>,
    ) -> (r: CompletionLog)
        ensures
            is_version_7(r.id.0),
            r == (CompletionLog {
                id: r.id,
                task_id,
                instance_date,
                completed_by,
                completed_at,
                skipped,
                notes,
            }),
    {
        let id = CompletionLogId(new_uuid());
        CompletionLog { id, task_id, instance_date, completed_by, completed_at, skipped, notes }
    }
}

/// Which tasks a listing is about; an absent condition admits every task.
#[derive(Clone, Debug)]
pub struct TaskFilter {
    /// Only tasks in this state.
    pub status: Option<TaskStatus>,
    /// Only tasks with this tag.
    pub tag: Option<String>,
    /// Only tasks due at or before this time.
    pub due_before: Option<Timestamp>,
}

impl TaskFilter {
    /// The filter that admits every task.
    pub open spec fn admits_all(self) -> bool {
        self.status is None && self.tag is None && self.due_before is None
    }

    /// The filter that admits every task.
    pub fn all() -> (r: TaskFilter)
        ensures
            r.admits_all(),
    {
        TaskFilter { status: None, tag: None, due_before: None }
    }
}

} // verus!
