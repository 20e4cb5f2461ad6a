use refresh::errors::RefreshError;
use refresh::io::Logger;
use refresh::runner::{combined_output, Action, Event, Runner, RunnerConfig};

fn words(ws: &[&str]) -> Vec<String> {
    ws.iter().map(|w| w.to_string()).collect()
}

fn config(command: Vec<String>, interval: u64, exit_on_error: bool, should_clear: bool) -> RunnerConfig {
    RunnerConfig { command, interval, exit_on_error, logger: None, should_clear }
}

fn executed(out: &str, err: &str, success: bool) -> Event {
    Event::Executed {
        stdout: out.as_bytes().to_vec(),
        stderr: err.as_bytes().to_vec(),
        exit_code: Some(if success { 0 } else { 1 }),
    }
}

fn expect_execute(action: Action, program_expected: &str, args_expected: &[&str]) {
    match action {
        Action::Execute { program, args } => {
            assert_eq!(program, program_expected);
            assert_eq!(args, words(args_expected));
        }
        _ => panic!("expected an execution"),
    }
}

#[test]
fn test_runner_config_new() {
    let command = vec!["echo".to_string(), "test".to_string()];
    let config = RunnerConfig::new(command.clone(), 1, false, None);

    assert_eq!(config.command, command);
    assert_eq!(config.interval, 1);
    assert!(!config.exit_on_error);
    assert!(config.logger.is_none());
}

#[test]
fn runner_config_new_keeps_logger() {
    let config = RunnerConfig::new(words(&["date"]), 5, true, Some(Logger::new("l".to_string(), true)));
    assert!(config.exit_on_error);
    assert_eq!(config.logger.as_ref().unwrap().file_path(), "l");
}

#[test]
fn combined_output_joins_streams() {
    assert_eq!(combined_output(b"out\n", b""), "out\n");
    assert_eq!(combined_output(b"out\n", b"err\n"), "out\nerr\n");
    assert_eq!(combined_output(b"", b"only err"), "only err");
    assert_eq!(combined_output(b"caf\xc3\xa9", b""), "café");
    assert_eq!(combined_output(b"a\xffb", b""), "a\u{fffd}b");
}

#[test]
fn first_run_without_terminal_executes_at_once() {
    let mut runner = Runner::new(config(words(&["echo", "test"]), 1, false, false));
    expect_execute(runner.step(Event::Proceed, false), "echo", &["test"]);
}

#[test]
fn single_word_with_shell_syntax_is_a_command_line() {
    let mut runner = Runner::new(config(words(&["echo hi | tr a-z A-Z"]), 1, false, false));
    expect_execute(runner.step(Event::Proceed, false), "sh", &["-c", "echo hi | tr a-z A-Z"]);
    let mut runner = Runner::new(config(words(&["date;uptime"]), 1, false, false));
    expect_execute(runner.step(Event::Proceed, false), "sh", &["-c", "date;uptime"]);
}

#[test]
fn single_plain_word_is_the_program() {
    let mut runner = Runner::new(config(words(&["uptime"]), 1, false, false));
    expect_execute(runner.step(Event::Proceed, false), "uptime", &[]);
}

#[test]
fn several_words_keep_their_boundaries() {
    let mut runner = Runner::new(config(words(&["echo", "hello world"]), 1, false, false));
    expect_execute(runner.step(Event::Proceed, false), "echo", &["hello world"]);
}

#[test]
fn terminal_clears_before_each_run() {
    let mut runner = Runner::new(config(words(&["date"]), 1, false, true));
    assert!(matches!(runner.step(Event::Proceed, false), Action::ClearScreen));
    expect_execute(runner.step(Event::Proceed, false), "date", &[]);
}

#[test]
fn output_is_emitted_then_the_interval_is_slept() {
    let mut runner = Runner::new(config(words(&["echo", "test"]), 1, false, false));
    runner.step(Event::Proceed, false);
    match runner.step(executed("test\n", "warn\n", true), false) {
        Action::Emit { output, log } => {
            assert_eq!(output, "test\nwarn\n");
            assert!(log.is_none());
        }
        _ => panic!("expected output"),
    }
    let mut total = 0u64;
    let mut sleeps = 0;
    loop {
        match runner.step(Event::Proceed, false) {
            Action::Sleep { millis } => {
                assert!(millis > 0 && millis <= 100);
                total += millis;
                sleeps += 1;
            }
            Action::Execute { program, .. } => {
                assert_eq!(program, "echo");
                break;
            }
            _ => panic!("unexpected action"),
        }
    }
    assert_eq!(total, 1000);
    assert_eq!(sleeps, 10);
}

#[test]
fn zero_interval_runs_again_at_once() {
    let mut runner = Runner::new(config(words(&["true"]), 0, false, false));
    runner.step(Event::Proceed, false);
    runner.step(executed("", "", true), false);
    assert!(matches!(runner.step(Event::Proceed, false), Action::Execute { .. }));
}

#[test]
fn interrupt_before_run_exits_130() {
    let mut runner = Runner::new(config(words(&["date"]), 1, false, true));
    assert!(matches!(runner.step(Event::Proceed, true), Action::Finish(130)));
    assert!(!runner.accepts(&Event::Proceed));
}

#[test]
fn interrupt_during_wait_exits_130() {
    let mut runner = Runner::new(config(words(&["date"]), 2, false, false));
    runner.step(Event::Proceed, false);
    runner.step(executed("x", "", true), false);
    assert!(matches!(runner.step(Event::Proceed, false), Action::Sleep { millis: 100 }));
    assert!(matches!(runner.step(Event::Proceed, false), Action::Sleep { millis: 100 }));
    assert!(matches!(runner.step(Event::Proceed, true), Action::Finish(130)));
}

#[test]
fn exit_on_error_stops_with_1() {
    let mut runner = Runner::new(config(words(&["false"]), 1, true, false));
    runner.step(Event::Proceed, false);
    runner.step(executed("", "", false), false);
    assert!(matches!(runner.step(Event::Proceed, false), Action::Finish(1)));
}

#[test]
fn interrupt_during_failed_run_exits_130_even_with_exit_on_error() {
    let mut runner = Runner::new(config(words(&["false"]), 1, true, false));
    runner.step(Event::Proceed, false);
    runner.step(executed("", "", false), true);
    assert!(matches!(runner.step(Event::Proceed, true), Action::Finish(130)));
}

#[test]
fn interrupt_after_output_exits_130() {
    let mut runner = Runner::new(config(words(&["date"]), 1, false, false));
    runner.step(Event::Proceed, false);
    assert!(matches!(runner.step(executed("now", "", true), false), Action::Emit { .. }));
    assert!(matches!(runner.step(Event::Proceed, true), Action::Finish(130)));
}

#[test]
fn exit_127_is_a_failed_run_not_an_error() {
    let mut runner = Runner::new(config(words(&["./script.sh"]), 1, true, false));
    runner.step(Event::Proceed, false);
    let event = Event::Executed {
        stdout: b"partial\n".to_vec(),
        stderr: b"missing_tool: not found\n".to_vec(),
        exit_code: Some(127),
    };
    match runner.step(event, false) {
        Action::Emit { output, .. } => assert_eq!(output, "partial\nmissing_tool: not found\n"),
        _ => panic!("expected output"),
    }
    assert!(matches!(runner.step(Event::Proceed, false), Action::Finish(1)));
}

#[test]
fn exit_126_is_logged_as_a_failed_run() {
    let mut cfg = config(words(&["./notes.txt"]), 1, false, false);
    cfg.logger = Some(Logger::new("run.log".to_string(), true));
    let mut runner = Runner::new(cfg);
    runner.step(Event::Proceed, false);
    let event = Event::Executed { stdout: vec![], stderr: b"denied".to_vec(), exit_code: Some(126) };
    match runner.step(event, false) {
        Action::Emit { output, log } => {
            assert_eq!(output, "denied");
            assert_eq!(log.unwrap().text, "denied\n");
        }
        _ => panic!("expected output"),
    }
    assert!(matches!(runner.step(Event::Proceed, false), Action::Sleep { millis: 100 }));
}

#[test]
fn killed_run_counts_as_failed() {
    let mut runner = Runner::new(config(words(&["sleep 5"]), 1, true, false));
    runner.step(Event::Proceed, false);
    let event = Event::Executed { stdout: b"partial".to_vec(), stderr: vec![], exit_code: None };
    match runner.step(event, false) {
        Action::Emit { output, .. } => assert_eq!(output, "partial"),
        _ => panic!("expected output"),
    }
    assert!(matches!(runner.step(Event::Proceed, false), Action::Finish(1)));
}

#[test]
fn failure_without_exit_on_error_keeps_going() {
    let mut runner = Runner::new(config(words(&["false"]), 1, false, false));
    runner.step(Event::Proceed, false);
    runner.step(executed("", "", false), false);
    assert!(matches!(runner.step(Event::Proceed, false), Action::Sleep { millis: 100 }));
}

#[test]
fn success_with_exit_on_error_keeps_going() {
    let mut runner = Runner::new(config(words(&["true"]), 1, true, false));
    runner.step(Event::Proceed, false);
    runner.step(executed("", "", true), false);
    assert!(matches!(runner.step(Event::Proceed, false), Action::Sleep { millis: 100 }));
}

#[test]
fn empty_command_fails() {
    let mut runner = Runner::new(config(vec![], 1, false, false));
    match runner.step(Event::Proceed, false) {
        Action::Fail(RefreshError::CommandExecution(msg)) => assert_eq!(msg, "No command provided"),
        _ => panic!("expected a failure"),
    }
}

#[test]
fn spawn_failure_names_the_program() {
    let mut runner = Runner::new(config(words(&["nonexistent_command_xyz123"]), 1, false, false));
    runner.step(Event::Proceed, false);
    assert!(runner.accepts(&Event::SpawnFailed("x".to_string())));
    assert!(!runner.accepts(&Event::Proceed));
    match runner.step(Event::SpawnFailed("No such file or directory (os error 2)".to_string()), false) {
        Action::Fail(RefreshError::CommandExecution(msg)) => assert_eq!(
            msg,
            "Failed to execute 'nonexistent_command_xyz123': No such file or directory (os error 2)"
        ),
        _ => panic!("expected a failure"),
    }
}

#[test]
fn logging_follows_the_logger() {
    let mut cfg = config(words(&["echo", "logged"]), 1, false, false);
    cfg.logger = Some(Logger::new("run.log".to_string(), false));
    let mut runner = Runner::new(cfg);
    runner.step(Event::Proceed, false);
    match runner.step(executed("logged\n", "", true), false) {
        Action::Emit { output, log } => {
            assert_eq!(output, "logged\n");
            let entry = log.expect("expected a log entry");
            assert_eq!(entry.path, "run.log");
            assert_eq!(entry.text, "logged\n\n");
        }
        _ => panic!("expected output"),
    }
}

#[test]
fn errors_only_logging_skips_success() {
    let mut cfg = config(words(&["echo", "success"]), 1, false, false);
    cfg.logger = Some(Logger::new("run.log".to_string(), true));
    let mut runner = Runner::new(cfg);
    runner.step(Event::Proceed, false);
    match runner.step(executed("success\n", "", true), false) {
        Action::Emit { log, .. } => assert!(log.is_none()),
        _ => panic!("expected output"),
    }
    for _ in 0..10 {
        runner.step(Event::Proceed, false);
    }
    assert!(matches!(runner.step(Event::Proceed, false), Action::Execute { .. }));
    match runner.step(executed("", "failure\n", false), false) {
        Action::Emit { log, .. } => assert_eq!(log.unwrap().text, "failure\n\n"),
        _ => panic!("expected output"),
    }
}

#[test]
fn spawn_failure_names_the_first_word() {
    let mut runner = Runner::new(config(words(&["no_such_tool", "--flag"]), 1, false, false));
    expect_execute(runner.step(Event::Proceed, false), "no_such_tool", &["--flag"]);
    match runner.step(Event::SpawnFailed("not found".to_string()), false) {
        Action::Fail(RefreshError::CommandExecution(msg)) => {
            assert_eq!(msg, "Failed to execute 'no_such_tool': not found")
        }
        _ => panic!("expected a failure"),
    }
}
