//! Task orchestration core: tasks made of commands, triggered on a time
//! schedule or by filesystem activity, executed locally or on a remote host.
//!
//! This crate holds the decision logic of the orchestrator — command-line
//! parsing, host policy, remote invocation construction, event debouncing,
//! monitor lifecycle decisions, and run-result aggregation — each function
//! carrying a contract. The surrounding process, network and filesystem
//! plumbing lives outside the library and hands it plain values.

mod command;
mod cron;
mod debounce;
mod env_var;
mod error;
mod file_event;
mod host;
mod runner;
mod status;
mod task_command;
mod text;

pub use command::{
    first_token, parse_command, spec_first_token, spec_parse_command, CommandSpec, CommandSpecView,
};
pub use cron::{CronTask, CronTaskView};
pub use debounce::{
    events_equal, lemma_debounce, relevant, spec_debounce_next, spec_forwards, spec_relevant,
    spec_suppressed, DebounceState, DebounceStateView, EventKind, FileEvent, FileEventView,
    DEBOUNCE_MS,
};
pub use env_var::{
    parse_env_var, spec_key_flagged, spec_parse_env_var, spec_render_env_var, EnvVar, EnvVarView,
};
pub use error::{
    CommandRunError, CommandRunErrorType, CommandRunErrorTypeView, CommandRunErrorView, ReadError,
    ReadErrorType,
};
pub use file_event::{
    lemma_monitor_self_termination, monitor_step, spec_monitor_step, FileEventTask,
    FileEventTaskView, MonitorStep,
};
pub use host::{is_local_name, lemma_host_default_matches_local, spec_parse_host, Host, HostView};
pub use runner::{
    aggregate_outcomes, lemma_aggregation_completeness, spec_collect_errors, spec_unit_error,
    spec_unit_failed, UnitOutcome, UnitOutcomeView,
};
pub use status::{
    reconcile, spec_from_health, spec_from_status, spec_reconcile, HealthState, LifecycleState,
    ServiceError, ServiceStatus,
};
pub use task_command::{
    exit_to_result, spec_args_part, spec_env_assignments, spec_is_absolute,
    spec_remote_invocation, TaskCommand, TaskCommandView,
};
pub use text::{
    find_char, first_index_of, is_ascii_lowercase, is_whitespace, lower, lower_char,
    split_whitespace, split_whitespace_str, str_eq, to_lowercase_str, trim_end, trim_end_str,
    trim_start, trim_start_str, word_len,
};
