//! An executable unit of a task: name, working directory, environment
//! assignments and a command specification, with the construction of the
//! single shell line a remote run synthesizes from them.

use vstd::prelude::*;
use vstd::string::{StrSliceExecFns, StringExecFns};

use crate::command::{CommandSpec, CommandSpecView};
use crate::env_var::{spec_render_env_var, EnvVar, EnvVarView};
use crate::error::{CommandRunError, CommandRunErrorType, CommandRunErrorTypeView};

verus! {

/// One executable step of a task. Immutable once loaded; an empty working
/// directory means "inherit the caller's current directory".
#[derive(Debug, Clone)]
pub struct TaskCommand {
    pub name: String,
    pub working_dir: String,
    pub env_vars: Vec<EnvVar>,
    pub command: CommandSpec,
}

/// The mathematical value of a [`TaskCommand`].
pub struct TaskCommandView {
    pub name: Seq<char>,
    pub working_dir: Seq<char>,
    pub env_vars: Seq<EnvVarView>,
    pub command: CommandSpecView,
}

impl View for TaskCommand {
    type V = TaskCommandView;

    open spec fn view(&self) -> TaskCommandView {
        TaskCommandView {
            name: self.name@,
            working_dir: self.working_dir@,
            env_vars: self.env_vars@.map_values(|e: EnvVar| e@),
            command: self.command@,
        }
    }
}

/// A path is absolute when it starts at the root.
pub open spec fn spec_is_absolute(p: Seq<char>) -> bool {
    p.len() > 0 && p[0] == '/'
}

/// The space-joined `K1=V1 K2=V2 ...` text of a run of assignments.
pub open spec fn spec_env_assignments(env: Seq<EnvVarView>) -> Seq<char>
    decreases env.len(),
{
    if env.len() == 0 {
        Seq::empty()
    } else if env.len() == 1 {
        spec_render_env_var(env[0])
    } else {
        spec_env_assignments(env.drop_last()) + " "@ + spec_render_env_var(env.last())
    }
}

/// The arguments appended to a program, each preceded by one space.
pub open spec fn spec_args_part(args: Seq<Seq<char>>) -> Seq<char>
    decreases args.len(),
{
    if args.len() == 0 {
        Seq::empty()
    } else {
        spec_args_part(args.drop_last()) + " "@ + args.last()
    }
}

/// The single shell line a remote run executes: an `export` of the
/// assignments if any are present, then a `cd` into the working directory
/// if one is configured, then the command itself.
pub open spec fn spec_remote_invocation(c: TaskCommandView) -> Seq<char> {
    let env_part = if c.env_vars.len() > 0 {
        "export "@ + spec_env_assignments(c.env_vars) + " && "@
    } else {
        Seq::empty()
    };
    let wd_part = if c.working_dir.len() > 0 {
        "cd "@ + c.working_dir + " && "@
    } else {
        Seq::empty()
    };
    let run_part = match c.command {
        CommandSpecView::Program { program, args } => program + spec_args_part(args),
        CommandSpecView::Shell { line } => line,
    };
    env_part + wd_part + run_part
}

impl TaskCommand {
    /// The configured working directory, or nothing when the default
    /// (empty) one is kept.
    pub fn working_dir_opt(&self) -> (r: Option<&String>)
        ensures
            match r {
                Some(d) => self@.working_dir.len() > 0 && d@ == self@.working_dir,
                None => self@.working_dir.len() == 0,
            },
    {
        if self.working_dir.as_str().is_empty() {
            None
        } else {
            Some(&self.working_dir)
        }
    }

    /// Whether a remote run of this command deserves the warning that its
    /// configured working directory is not absolute (a remote shell's
    /// starting directory is unspecified, so a relative `cd` is fragile).
    pub fn remote_wd_flagged(&self) -> (r: bool)
        ensures
            r == (self@.working_dir.len() > 0 && !spec_is_absolute(self@.working_dir)),
    {
        if self.working_dir.as_str().is_empty() {
            false
        } else {
            self.working_dir.as_str().get_char(0) != '/'
        }
    }

    /// The space-joined text of this command's assignments.
    fn env_assignments(&self) -> (r: String)
        ensures
            r@ == spec_env_assignments(self@.env_vars),
    {
        let ghost env: Seq<EnvVarView> = self@.env_vars;
        let mut acc = String::new();
        let mut i: usize = 0;
        proof {
            assert(env.take(0) =~= Seq::<EnvVarView>::empty());
        }
        while i < self.env_vars.len()
            invariant
                i <= self.env_vars.len(),
                env == self@.env_vars,
                env.len() == self.env_vars.len(),
                acc@ == spec_env_assignments(env.take(i as int)),
            decreases self.env_vars.len() - i,
        {
            if i > 0 {
                acc.append(" ");
            }
            let rendered = self.env_vars[i].render();
            acc.append(rendered.as_str());
            proof {
                assert(env.take(i + 1).drop_last() =~= env.take(i as int));
                assert(env.take(i + 1).last() == env[i as int]);
                assert(acc@ =~= spec_env_assignments(env.take(i + 1)));
            }
            i = i + 1;
        }
        proof {
            assert(env.take(env.len() as int) =~= env);
        }
        acc
    }

    /// Builds the single shell line a remote run of this command executes.
    ///
    /// The parts are joined by plain concatenation, with no escaping: the
    /// configured values reach the remote shell exactly as written.
    pub fn remote_invocation(&self) -> (r: String)
        ensures
            r@ == spec_remote_invocation(self@),
    {
        let mut out = String::new();
        if self.env_vars.len() > 0 {
            out.append("export ");
            let assigns = self.env_assignments();
            out.append(assigns.as_str());
            out.append(" && ");
        }
        if !self.working_dir.as_str().is_empty() {
            out.append("cd ");
            out.append(self.working_dir.as_str());
            out.append(" && ");
        }
        let ghost prefix: Seq<char> = out@;
        match &self.command {
            CommandSpec::Program { program, args } => {
                out.append(program.as_str());
                let ghost argsv: Seq<Seq<char>> = args@.map_values(|a: String| a@);
                let mut i: usize = 0;
                proof {
                    assert(argsv.take(0) =~= Seq::<Seq<char>>::empty());
                    assert(out@ =~= prefix + program@ + spec_args_part(argsv.take(0)));
                }
                while i < args.len()
                    invariant
                        i <= args.len(),
                        argsv == args@.map_values(|a: String| a@),
                        argsv.len() == args.len(),
                        out@ == prefix + program@ + spec_args_part(argsv.take(i as int)),
                    decreases args.len() - i,
                {
                    out.append(" ");
                    out.append(args[i].as_str());
                    proof {
                        assert(argsv.take(i + 1).drop_last() =~= argsv.take(i as int));
                        assert(argsv.take(i + 1).last() == argsv[i as int]);
                        assert(out@ =~= prefix + program@ + spec_args_part(argsv.take(i + 1)));
                    }
                    i = i + 1;
                }
                proof {
                    assert(argsv.take(argsv.len() as int) =~= argsv);
                    assert(prefix + program@ + spec_args_part(argsv) =~= spec_remote_invocation(
                        self@,
                    ));
                }
            },
            CommandSpec::Shell { line } => {
                out.append(line.as_str());
                proof {
                    assert(out@ =~= spec_remote_invocation(self@));
                }
            },
        }
        out
    }
}

/// Maps a finished execution's exit code for the command named `name`:
/// a zero code is success, any other code is that exit-status failure.
pub fn exit_to_result(name: &String, code: i32) -> (r: Result<(), CommandRunError>)
    ensures
        match r {
            Ok(()) => code == 0,
            Err(e) => code != 0 && e@.name == name@ && e@.error == CommandRunErrorTypeView::ExitStatus(
                code,
            ),
        },
{
    if code == 0 {
        Ok(())
    } else {
        Err(CommandRunError { name: name.clone(), error: CommandRunErrorType::ExitStatus(code) })
    }
}

} // verus!
