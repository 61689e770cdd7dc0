//! Errors of loading task definitions and of running commands.

use vstd::prelude::*;

verus! {

/// Why reading a task definition file failed.
#[derive(Debug, Clone)]
pub enum ReadErrorType {
    /// File input failed; the message describes the failure.
    Io { message: String },
    /// The file's contents did not deserialize; the message describes why.
    De { message: String },
}

/// A failure to read or parse a task definition file, fatal to that load.
#[derive(Debug, Clone)]
pub struct ReadError {
    /// The path of the definition file the load was asked for.
    pub path: String,
    pub error: ReadErrorType,
}

/// Why one command execution failed.
#[derive(Debug, Clone)]
pub enum CommandRunErrorType {
    /// The execution unit itself crashed or was aborted before producing
    /// a result; the message describes the crash.
    Async { message: String },
    /// Launching the process, or awaiting its exit, failed.
    Io { message: String },
    /// The process or remote command completed with this non-zero status.
    ExitStatus(i32),
    /// Establishing the remote session, or the remote execution channel,
    /// failed.
    Ssh { message: String },
}

/// The mathematical value of a [`CommandRunErrorType`].
pub enum CommandRunErrorTypeView {
    Async { message: Seq<char> },
    Io { message: Seq<char> },
    ExitStatus(i32),
    Ssh { message: Seq<char> },
}

impl View for CommandRunErrorType {
    type V = CommandRunErrorTypeView;

    open spec fn view(&self) -> CommandRunErrorTypeView {
        match self {
            CommandRunErrorType::Async { message } => CommandRunErrorTypeView::Async {
                message: message@,
            },
            CommandRunErrorType::Io { message } => CommandRunErrorTypeView::Io {
                message: message@,
            },
            CommandRunErrorType::ExitStatus(code) => CommandRunErrorTypeView::ExitStatus(*code),
            CommandRunErrorType::Ssh { message } => CommandRunErrorTypeView::Ssh {
                message: message@,
            },
        }
    }
}

/// A failed command execution: the owning command's name and the reason.
#[derive(Debug, Clone)]
pub struct CommandRunError {
    pub name: String,
    pub error: CommandRunErrorType,
}

/// The mathematical value of a [`CommandRunError`].
pub struct CommandRunErrorView {
    pub name: Seq<char>,
    pub error: CommandRunErrorTypeView,
}

impl View for CommandRunError {
    type V = CommandRunErrorView;

    open spec fn view(&self) -> CommandRunErrorView {
        CommandRunErrorView { name: self.name@, error: self.error@ }
    }
}

} // verus!
