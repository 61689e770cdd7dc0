use overseer::{
    aggregate_outcomes, CommandRunError, CommandRunErrorType, CronTask, FileEventTask, Host,
    UnitOutcome,
};

fn failure(name: &str, code: i32) -> UnitOutcome {
    UnitOutcome::Failure(CommandRunError {
        name: name.to_string(),
        error: CommandRunErrorType::ExitStatus(code),
    })
}

#[test]
fn all_successes_aggregate_to_ok() {
    let outcomes = vec![UnitOutcome::Success, UnitOutcome::Success];
    assert!(aggregate_outcomes(&"task".to_string(), &outcomes).is_ok());
}

#[test]
fn no_commands_aggregate_to_ok() {
    let outcomes: Vec<UnitOutcome> = Vec::new();
    assert!(aggregate_outcomes(&"task".to_string(), &outcomes).is_ok());
}

#[test]
fn failures_are_reported_completely_in_configured_order() {
    let outcomes = vec![
        UnitOutcome::Success,
        failure("second", 1),
        UnitOutcome::Success,
        failure("fourth", 7),
        UnitOutcome::Success,
    ];
    let errors = aggregate_outcomes(&"task".to_string(), &outcomes).expect_err("should fail");
    assert_eq!(errors.len(), 2);
    assert_eq!(errors[0].name, "second");
    assert!(matches!(errors[0].error, CommandRunErrorType::ExitStatus(1)));
    assert_eq!(errors[1].name, "fourth");
    assert!(matches!(errors[1].error, CommandRunErrorType::ExitStatus(7)));
}

#[test]
fn crashed_unit_contributes_synthetic_error_under_task_name() {
    let outcomes = vec![
        UnitOutcome::Panicked { message: "worker aborted".to_string() },
        failure("b", 2),
    ];
    let errors = aggregate_outcomes(&"mytask".to_string(), &outcomes).expect_err("should fail");
    assert_eq!(errors.len(), 2);
    assert_eq!(errors[0].name, "mytask");
    match &errors[0].error {
        CommandRunErrorType::Async { message } => assert_eq!(message, "worker aborted"),
        _ => panic!("expected a crash error"),
    }
    assert_eq!(errors[1].name, "b");
}

#[test]
fn single_failure_among_many_is_the_only_error() {
    let mut outcomes = vec![UnitOutcome::Success; 9];
    outcomes.insert(4, failure("mid", 42));
    let errors = aggregate_outcomes(&"task".to_string(), &outcomes).expect_err("should fail");
    assert_eq!(errors.len(), 1);
    assert_eq!(errors[0].name, "mid");
}

#[test]
fn cron_task_collects_run_result_under_its_name() {
    let task = CronTask {
        name: "nightly".to_string(),
        id: 0,
        dependencies: Vec::new(),
        schedule: "0 0 * * * *".to_string(),
        host: Host::Local,
        commands: Vec::new(),
    };
    let outcomes = vec![UnitOutcome::Panicked { message: "gone".to_string() }];
    let errors = task.collect_run_result(&outcomes).expect_err("should fail");
    assert_eq!(errors[0].name, "nightly");
}

#[test]
fn cron_task_assign_id_keeps_everything_else() {
    let mut task = CronTask {
        name: "nightly".to_string(),
        id: 0,
        dependencies: Vec::new(),
        schedule: "@hourly".to_string(),
        host: Host::Local,
        commands: Vec::new(),
    };
    task.assign_id(17);
    assert_eq!(task.id, 17);
    assert_eq!(task.name, "nightly");
    assert_eq!(task.schedule, "@hourly");
}

#[test]
fn file_event_task_collects_run_result() {
    let task = FileEventTask {
        name: "onchange".to_string(),
        dependencies: Vec::new(),
        watch_paths: vec!["/tmp/watched".to_string()],
        host: Host::Local,
        commands: Vec::new(),
    };
    assert!(task.collect_run_result(&Vec::new()).is_ok());
    let errors = task
        .collect_run_result(&vec![failure("step", 1)])
        .expect_err("should fail");
    assert_eq!(errors[0].name, "step");
}
