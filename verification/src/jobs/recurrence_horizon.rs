//! The upkeep of the instances of recurring tasks: laid out anew to the
//! horizon, and removed some time after they are past.

use vstd::prelude::*;

use crate::api::task::{is_instance_at, materialise_instances, store_instances};
use crate::dates::{Timestamp, FIRST_DAY, LAST_DAY};
use crate::horizon::{horizon_window, Window, HORIZON_DAYS};
use crate::model::task::{Task, TaskFilter, TaskInstance};
use crate::reply::StorageFailure;
use crate::text::join;

verus! {

/// How long past instances are kept, in days.
pub const RETENTION_DAYS: u32 = 30;

/// How often the job runs, in seconds.
pub const RUN_INTERVAL_SECS: u64 = 86_400;

/// What one pass did.
#[derive(Clone, Copy, Debug, PartialEq, Eq, Structural)]
pub struct HorizonReport {
    /// Tasks that were looked at, one-shot ones among them.
    pub tasks_seen: usize,
    /// Instances that were handed to storage.
    pub instances_materialised: usize,
    /// Instances that were removed.
    pub instances_pruned: u64,
}

/// A pass under way.
#[derive(Debug)]
pub struct HorizonPass {
    /// The tasks to look at.
    pub tasks: Vec<Task>,
    /// The stretch of time to lay out.
    pub window: Window,
    /// Instances before this time are removed at the end of the pass.
    pub prune_before: Timestamp,
}

/// The tasks that a pass looks at: all of them, whatever their state.
pub fn tasks_to_read() -> (r: TaskFilter)
    ensures
        r.admits_all(),
{
    TaskFilter::all()
}

/// Starts a pass at `now`. It ends here if the tasks could not be read.
pub fn run_once(read: Result<Vec<Task>, StorageFailure>, now: Timestamp) -> (r: Result<
    HorizonPass,
    String,
>)
    requires
        now@.julian_day + HORIZON_DAYS <= LAST_DAY,
        FIRST_DAY <= now@.julian_day - RETENTION_DAYS,
    ensures
        match (read, r) {
            (Ok(tasks), Ok(pass)) => {
                &&& pass.tasks == tasks
                &&& pass.window.from == now
                &&& pass.window.until@ == now@.plus_days(HORIZON_DAYS as int)
                &&& pass.prune_before@ == now@.plus_days(-RETENTION_DAYS)
            },
            (Err(failure), Err(message)) => message@ == "list_tasks: "@ + failure.message@,
            _ => false,
        },
{
    match read {
        Ok(tasks) => Ok(
            HorizonPass {
                tasks,
                window: horizon_window(now),
                prune_before: now.minus_days(RETENTION_DAYS),
            },
        ),
        Err(failure) => Err(join("list_tasks: ", failure.message.as_str())),
    }
}

/// The instances of a task to keep, given what the expansion of its rule over
/// the window of the pass came to; none for a one-shot task, whose `times` are
/// not looked at.
pub fn materialise_task_to_horizon(task: &Task, times: Result<Vec<Timestamp>, String>) -> (r:
    Result<Option<Vec<TaskInstance>>, String>)
    ensures
        if task.recurrence is None {
            r == Ok::<Option<Vec<TaskInstance>>, String>(None)
        } else {
            match (times, r) {
                (Ok(times), Ok(Some(instances))) => {
                    &&& instances@.len() == times@.len()
                    &&& forall|i: int|
                        0 <= i < times@.len() ==> is_instance_at(
                            #[trigger] instances@[i],
                            *task,
                            times@[i],
                        )
                },
                (Err(reason), Err(message)) => message@ == "materialise_instances: "@ + reason@,
                _ => false,
            }
        },
{
    if task.recurrence.is_none() {
        return Ok(None);
    }
    match materialise_instances(task, times) {
        Ok(instances) => Ok(Some(instances)),
        Err(message) => Err(message),
    }
}

/// How many instances of a task were kept, once storage has been asked to.
pub fn instances_kept(instances: &Vec<TaskInstance>, kept: Result<(), StorageFailure>) -> (r:
    Result<usize, String>)
    ensures
        match (kept, r) {
            (Ok(_), Ok(count)) => count == instances@.len(),
            (Err(failure), Err(message)) => message@ == "upsert_task_instances: "@
                + failure.message@,
            _ => false,
        },
{
    match store_instances(kept) {
        Ok(_) => Ok(instances.len()),
        Err(message) => Err(message),
    }
}

/// The number of instances that were kept.
pub open spec fn total_kept(outcomes: Seq<Result<usize, String>>) -> nat
    decreases outcomes.len(),
{
    if outcomes.len() == 0 {
        0
    } else {
        total_kept(outcomes.drop_last()) + (match outcomes.last() {
            Ok(count) => count as nat,
            Err(_) => 0,
        })
    }
}

proof fn total_grows(outcomes: Seq<Result<usize, String>>, i: int)
    requires
        0 <= i <= outcomes.len(),
    ensures
        total_kept(outcomes.take(i)) <= total_kept(outcomes),
    decreases outcomes.len(),
{
    if i == outcomes.len() {
        assert(outcomes.take(i) =~= outcomes);
    } else {
        total_grows(outcomes.drop_last(), i);
        assert(outcomes.drop_last().take(i) =~= outcomes.take(i));
    }
}

/// Ends a pass: what it did, given what came of each task and of the removal.
/// A task that failed adds nothing and does not keep the others from it; a
/// removal that failed ends the pass with an error.
pub fn horizon_report(
    outcomes: &Vec<Result<usize, String>>,
    pruned: Result<u64, StorageFailure>,
) -> (r: Result<HorizonReport, String>)
    requires
        total_kept(outcomes@) <= usize::MAX,
    ensures
        match (pruned, r) {
            (Ok(count), Ok(report)) => {
                &&& report.tasks_seen == outcomes@.len()
                &&& report.instances_materialised == total_kept(outcomes@)
                &&& report.instances_pruned == count
            },
            (Err(failure), Err(message)) => message@ == "prune_old_instances: "@
                + failure.message@,
            _ => false,
        },
{
    let mut materialised: usize = 0;
    for i in 0..outcomes.len()
        invariant
            total_kept(outcomes@) <= usize::MAX,
            materialised == total_kept(outcomes@.take(i as int)),
    {
        proof {
            assert(outcomes@.take(i + 1).drop_last() =~= outcomes@.take(i as int));
            total_grows(outcomes@, i + 1);
        }
        if let Ok(count) = &outcomes[i] {
            materialised = materialised + *count;
        }
    }
    proof {
        assert(outcomes@.take(outcomes@.len() as int) =~= outcomes@);
    }
    match pruned {
        Ok(count) => Ok(
            HorizonReport {
                tasks_seen: outcomes.len(),
                instances_materialised: materialised,
                instances_pruned: count,
            },
        ),
        Err(failure) => Err(join("prune_old_instances: ", failure.message.as_str())),
    }
}

/// What is laid out in a pass is never removed by it: the removal ends well
/// before the stretch that is laid out begins.
pub proof fn pass_keeps_what_it_lays_out(
    now: crate::dates::Moment,
    at: crate::dates::Moment,
)
    requires
        now.instant() <= at.instant(),
    ensures
        now.plus_days(-RETENTION_DAYS).instant() < at.instant(),
{
}

} // verus!
