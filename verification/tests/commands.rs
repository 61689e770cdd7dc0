use overseer::{
    exit_to_result, parse_command, parse_env_var, CommandRunErrorType, CommandSpec, EnvVar,
    TaskCommand,
};

fn command(working_dir: &str, env_lines: &[&str], run: &str, executable: bool) -> TaskCommand {
    let env_vars: Vec<EnvVar> = env_lines
        .iter()
        .map(|line| parse_env_var(line).expect("test env line should parse"))
        .collect();
    TaskCommand {
        name: "cmd".to_string(),
        working_dir: working_dir.to_string(),
        env_vars,
        command: parse_command(run, executable),
    }
}

#[test]
fn remote_invocation_exports_env_then_cd_then_command() {
    let cmd = command("/srv/app", &["FOO=bar"], "./start.sh", true);
    assert_eq!(cmd.remote_invocation(), "export FOO=bar && cd /srv/app && ./start.sh");
}

#[test]
fn remote_invocation_joins_multiple_env_vars_with_spaces() {
    let cmd = command("/srv/app", &["FOO=bar", "BAZ=qux"], "./start.sh", true);
    assert_eq!(
        cmd.remote_invocation(),
        "export FOO=bar BAZ=qux && cd /srv/app && ./start.sh"
    );
}

#[test]
fn duplicate_env_keys_pass_through_in_order() {
    let cmd = command("", &["A=1", "A=2"], "./run.sh", true);
    assert_eq!(cmd.remote_invocation(), "export A=1 A=2 && ./run.sh");
}

#[test]
fn remote_invocation_without_env_vars_has_no_export() {
    let cmd = command("/srv/app", &[], "./start.sh", true);
    assert_eq!(cmd.remote_invocation(), "cd /srv/app && ./start.sh");
}

#[test]
fn remote_invocation_without_working_dir_has_no_cd() {
    let cmd = command("", &["FOO=bar"], "./start.sh", true);
    assert_eq!(cmd.remote_invocation(), "export FOO=bar && ./start.sh");
}

#[test]
fn remote_invocation_appends_program_arguments() {
    let cmd = command("", &[], "/bin/echo one two", true);
    assert_eq!(cmd.remote_invocation(), "/bin/echo one two");
}

#[test]
fn remote_invocation_keeps_shell_line_verbatim() {
    let cmd = command("/srv", &[], "echo a && echo b", false);
    assert_eq!(cmd.remote_invocation(), "cd /srv && echo a && echo b");
}

#[test]
fn working_dir_opt_empty_means_inherit() {
    let inherit = command("", &[], "/bin/true", true);
    assert!(inherit.working_dir_opt().is_none());
    let set = command("/srv", &[], "/bin/true", true);
    assert_eq!(set.working_dir_opt().expect("set"), "/srv");
}

#[test]
fn relative_remote_working_dir_is_flagged() {
    assert!(command("relative/dir", &[], "/bin/true", true).remote_wd_flagged());
    assert!(!command("/absolute/dir", &[], "/bin/true", true).remote_wd_flagged());
    assert!(!command("", &[], "/bin/true", true).remote_wd_flagged());
}

#[test]
fn zero_exit_code_is_success() {
    assert!(exit_to_result(&"cmd".to_string(), 0).is_ok());
}

#[test]
fn nonzero_exit_code_is_exit_status_failure() {
    let err = exit_to_result(&"cmd".to_string(), 3).expect_err("should fail");
    assert_eq!(err.name, "cmd");
    assert!(matches!(err.error, CommandRunErrorType::ExitStatus(3)));
}

#[test]
fn command_spec_clone_matches() {
    let cmd = command("", &[], "/bin/echo hi", true);
    match &cmd.command {
        CommandSpec::Program { program, args } => {
            assert_eq!(program, "/bin/echo");
            assert_eq!(args.len(), 1);
        }
        CommandSpec::Shell { .. } => panic!("expected a program spec"),
    }
}
