use overseer::{parse_command, parse_env_var, first_token, CommandSpec, Host};

#[test]
fn command_with_existing_executable_splits_into_program_and_args() {
    let spec = parse_command("/bin/echo hello", true);
    match spec {
        CommandSpec::Program { program, args } => {
            assert_eq!(program, "/bin/echo");
            assert_eq!(args, vec!["hello".to_string()]);
        }
        CommandSpec::Shell { .. } => panic!("expected a program spec"),
    }
}

#[test]
fn command_without_existing_executable_falls_back_to_shell() {
    let spec = parse_command("echo hello && echo world", false);
    match spec {
        CommandSpec::Shell { line } => assert_eq!(line, "echo hello && echo world"),
        CommandSpec::Program { .. } => panic!("expected a shell fallback"),
    }
}

#[test]
fn command_without_space_is_whole_program() {
    let spec = parse_command("/usr/bin/true", true);
    match spec {
        CommandSpec::Program { program, args } => {
            assert_eq!(program, "/usr/bin/true");
            assert!(args.is_empty());
        }
        CommandSpec::Shell { .. } => panic!("expected a program spec"),
    }
}

#[test]
fn command_args_resplit_on_whitespace() {
    let spec = parse_command("/bin/echo  a\tb  c ", true);
    match spec {
        CommandSpec::Program { program, args } => {
            assert_eq!(program, "/bin/echo");
            assert_eq!(args, vec!["a".to_string(), "b".to_string(), "c".to_string()]);
        }
        CommandSpec::Shell { .. } => panic!("expected a program spec"),
    }
}

#[test]
fn first_token_is_text_before_first_space() {
    assert_eq!(first_token("/bin/echo hello world"), "/bin/echo");
    assert_eq!(first_token("lone"), "lone");
    assert_eq!(first_token(" leading"), "");
}

#[test]
fn env_var_line_splits_at_first_equals() {
    let e = parse_env_var("KEY=value").expect("should parse");
    assert_eq!(e.key, "KEY");
    assert_eq!(e.value, "value");
    assert!(!e.key_flagged());
}

#[test]
fn env_var_line_without_equals_fails() {
    assert!(parse_env_var("NOEQUALS").is_none());
}

#[test]
fn env_var_lowercase_key_parses_but_is_flagged() {
    let e = parse_env_var("key=val").expect("should parse");
    assert_eq!(e.key, "key");
    assert_eq!(e.value, "val");
    assert!(e.key_flagged());
}

#[test]
fn env_var_whitespace_trimmed_around_split() {
    let e = parse_env_var("KEY  =  value with spaces  ").expect("should parse");
    assert_eq!(e.key, "KEY");
    assert_eq!(e.value, "value with spaces  ");
}

#[test]
fn env_var_value_keeps_later_equals() {
    let e = parse_env_var("A=b=c").expect("should parse");
    assert_eq!(e.key, "A");
    assert_eq!(e.value, "b=c");
}

#[test]
fn env_var_empty_key_still_parses() {
    let e = parse_env_var("=value").expect("should parse");
    assert_eq!(e.key, "");
    assert_eq!(e.value, "value");
}

#[test]
fn env_var_renders_as_assignment() {
    let e = parse_env_var("FOO=bar").expect("should parse");
    assert_eq!(e.render(), "FOO=bar");
}

#[test]
fn host_local_spellings_map_to_local() {
    assert!(matches!(Host::parse("local"), Host::Local));
    assert!(matches!(Host::parse("localhost"), Host::Local));
    assert!(matches!(Host::parse("LOCALHOST"), Host::Local));
    assert!(matches!(Host::parse("127.0.0.1"), Host::Local));
    assert!(matches!(Host::parse("::1"), Host::Local));
}

#[test]
fn host_other_strings_are_remote_lowered() {
    match Host::parse("build.example.com") {
        Host::Remote(a) => assert_eq!(a, "build.example.com"),
        Host::Local => panic!("expected a remote host"),
    }
    match Host::parse("MyServer") {
        Host::Remote(a) => assert_eq!(a, "myserver"),
        Host::Local => panic!("expected a remote host"),
    }
}

#[test]
fn omitted_host_behaves_like_explicit_local() {
    let defaulted = Host::default();
    let explicit = Host::parse("local");
    assert!(matches!(defaulted, Host::Local));
    assert!(matches!(explicit, Host::Local));
}
