//! The time-based task: wraps a cron-style schedule string and runs its
//! commands each time the external scheduling engine fires it.

use vstd::prelude::*;

use crate::error::CommandRunError;
use crate::host::{Host, HostView};
use crate::runner::{aggregate_outcomes, spec_collect_errors, spec_unit_failed, UnitOutcome};
use crate::task_command::{TaskCommand, TaskCommandView};

verus! {

/// A task run on a time-periodic basis, per its cron schedule string.
///
/// The registration id is zero until activation assigns one; keeping the
/// id unique across a shared scheduler is the caller's responsibility.
/// The `dependencies` list is reserved for future service references and
/// is never resolved today. The command list is never mutated after
/// construction.
#[derive(Debug, Clone)]
pub struct CronTask {
    pub name: String,
    pub id: u64,
    pub dependencies: Vec<()>,
    pub schedule: String,
    pub host: Host,
    pub commands: Vec<TaskCommand>,
}

/// The mathematical value of a [`CronTask`].
pub struct CronTaskView {
    pub name: Seq<char>,
    pub id: u64,
    pub dependencies: Seq<()>,
    pub schedule: Seq<char>,
    pub host: HostView,
    pub commands: Seq<TaskCommandView>,
}

impl View for CronTask {
    type V = CronTaskView;

    open spec fn view(&self) -> CronTaskView {
        CronTaskView {
            name: self.name@,
            id: self.id,
            dependencies: self.dependencies@,
            schedule: self.schedule@,
            host: self.host@,
            commands: self.commands@.map_values(|c: TaskCommand| c@),
        }
    }
}

impl CronTask {
    /// Records the registration id given to the scheduling engine at
    /// activation; everything else about the task is untouched.
    pub fn assign_id(&mut self, id: u64)
        ensures
            final(self)@ == (CronTaskView { id, ..old(self)@ }),
    {
        self.id = id;
    }

    /// The result of one firing, aggregated from its units' outcomes.
    pub fn collect_run_result(&self, outcomes: &Vec<UnitOutcome>) -> (r: Result<
        (),
        Vec<CommandRunError>,
    >)
        ensures
            ({
                let errs = spec_collect_errors(
                    self@.name,
                    outcomes@.map_values(|o: UnitOutcome| o@),
                );
                match r {
                    Ok(_) => errs.len() == 0,
                    Err(v) => errs.len() > 0 && v@.map_values(|e: CommandRunError| e@) == errs,
                }
            }),
            (r is Ok) <==> (forall|i: int|
                0 <= i < outcomes@.len() ==> !spec_unit_failed(outcomes@[i]@)),
    {
        aggregate_outcomes(&self.name, outcomes)
    }
}

} // verus!
