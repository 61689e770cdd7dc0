//! The file-event task: watches filesystem paths and runs its commands on
//! surviving (relevant, debounced) events, with a background monitor whose
//! lifetime is scoped to the task's own.

use vstd::prelude::*;

use crate::error::CommandRunError;
use crate::host::{Host, HostView};
use crate::runner::{aggregate_outcomes, spec_collect_errors, spec_unit_failed, UnitOutcome};
use crate::task_command::{TaskCommand, TaskCommandView};

verus! {

/// A task that runs on filesystem activity: any creation, modification or
/// removal under its watched paths, after debouncing.
///
/// The `dependencies` list is reserved for future service references and
/// is never resolved today; a loaded task keeps it empty. The command
/// list is never mutated after construction.
#[derive(Debug, Clone)]
pub struct FileEventTask {
    pub name: String,
    pub dependencies: Vec<()>,
    pub watch_paths: Vec<String>,
    pub host: Host,
    pub commands: Vec<TaskCommand>,
}

/// The mathematical value of a [`FileEventTask`].
pub struct FileEventTaskView {
    pub name: Seq<char>,
    pub dependencies: Seq<()>,
    pub watch_paths: Seq<Seq<char>>,
    pub host: HostView,
    pub commands: Seq<TaskCommandView>,
}

impl View for FileEventTask {
    type V = FileEventTaskView;

    open spec fn view(&self) -> FileEventTaskView {
        FileEventTaskView {
            name: self.name@,
            dependencies: self.dependencies@,
            watch_paths: self.watch_paths@.map_values(|p: String| p@),
            host: self.host@,
            commands: self.commands@.map_values(|c: TaskCommand| c@),
        }
    }
}

impl FileEventTask {
    /// The result of one event-driven firing, aggregated from its
    /// units' outcomes.
    pub fn collect_run_result(&self, outcomes: &Vec<UnitOutcome>) -> (r: Result<
        (),
        Vec<CommandRunError>,
    >)
        ensures
            ({
                let errs = spec_collect_errors(
                    self@.name,
                    outcomes@.map_values(|o: UnitOutcome| o@),
                );
                match r {
                    Ok(_) => errs.len() == 0,
                    Err(v) => errs.len() > 0 && v@.map_values(|e: CommandRunError| e@) == errs,
                }
            }),
            (r is Ok) <==> (forall|i: int|
                0 <= i < outcomes@.len() ==> !spec_unit_failed(outcomes@[i]@)),
    {
        aggregate_outcomes(&self.name, outcomes)
    }
}

/// What the background monitor does on one wake. It holds no owning
/// reference to its task; each wake first observes whether the task is
/// still owned elsewhere.
#[derive(Debug, Clone, Copy, PartialEq, Eq, Structural)]
pub enum MonitorStep {
    /// Run the parent task's commands once.
    RunTask,
    /// Terminate the monitor; the task body is not invoked.
    Exit,
}

/// The monitor's decision on one wake: run the task only when the
/// delivery channel yielded an event and the parent task still has an
/// owner; exit on channel closure or once the parent is gone.
pub open spec fn spec_monitor_step(parent_alive: bool, event_received: bool) -> MonitorStep {
    if event_received && parent_alive {
        MonitorStep::RunTask
    } else {
        MonitorStep::Exit
    }
}

/// Decides one wake of the background monitor. `event_received` says
/// whether the delivery channel yielded an event (false once the sending
/// side has closed); `parent_alive` whether any owner of the parent task
/// remains.
#[verifier::when_used_as_spec(spec_monitor_step)]
pub fn monitor_step(parent_alive: bool, event_received: bool) -> (r: MonitorStep)
    ensures
        r == spec_monitor_step(parent_alive, event_received),
{
    if event_received && parent_alive {
        MonitorStep::RunTask
    } else {
        MonitorStep::Exit
    }
}

/// Monitor self-termination law: once the last owner of the task is gone,
/// or once the delivery channel closes, the monitor's next wake exits
/// without invoking the task body; it runs the task only while both an
/// owner and an event are present.
pub proof fn lemma_monitor_self_termination(parent_alive: bool, event_received: bool)
    ensures
        !parent_alive ==> spec_monitor_step(parent_alive, event_received) == MonitorStep::Exit,
        !event_received ==> spec_monitor_step(parent_alive, event_received) == MonitorStep::Exit,
        spec_monitor_step(parent_alive, event_received) == MonitorStep::RunTask ==> parent_alive
            && event_received,
{
}

} // verus!
