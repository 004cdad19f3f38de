use netcapture::{
    classify, parse_args, Action, CommandResult, Event, LogConfig, LogLevel, LogRecord, Phase,
    Session, Termination,
};

fn toks(items: &[&str]) -> Vec<String> {
    items.iter().map(|s| s.to_string()).collect()
}

fn ok_result() -> CommandResult {
    CommandResult {
        succeeded: true,
        status: "exit status: 0".to_string(),
        stdout: String::new(),
        stderr: String::new(),
    }
}

fn failed_result() -> CommandResult {
    CommandResult {
        succeeded: false,
        status: "exit status: 1".to_string(),
        stdout: "out text".to_string(),
        stderr: "err text".to_string(),
    }
}

/// A stand-in for the command shell: hands out prepared outcomes and
/// records what it was asked to run and how long it was asked to sleep.
struct FakeInvoker {
    outcomes: Vec<Event>,
    invoked: Vec<String>,
    slept: Vec<u64>,
    logs: Vec<LogRecord>,
}

fn run(args: &[&str], outcomes: Vec<Event>) -> (FakeInvoker, Option<Action>) {
    let mut fake = FakeInvoker { outcomes, invoked: Vec::new(), slept: Vec::new(), logs: Vec::new() };
    fake.outcomes.reverse();
    let req = match parse_args(&toks(args)) {
        Ok(r) => r,
        Err(_) => return (fake, None),
    };
    let (mut session, first) = Session::start(req);
    fake.logs.extend(first.logs);
    let mut action = first.action;
    loop {
        let event = match &action {
            Action::Invoke(cmd) => {
                fake.invoked.push(cmd.clone());
                fake.outcomes.pop().expect("no outcome left")
            }
            Action::Sleep(s) => {
                fake.slept.push(*s);
                Event::WaitElapsed
            }
            _ => return (fake, Some(action)),
        };
        let step = session.handle(event);
        fake.logs.extend(step.logs);
        action = step.action;
    }
}

#[test]
fn scenario_full_capture() {
    let (fake, end) = run(
        &["duration=5", "output=C:\\trace.etl", "maxsize=512"],
        vec![Event::Completed(ok_result()), Event::Completed(ok_result())],
    );
    assert_eq!(end, Some(Action::Finish));
    assert_eq!(
        fake.invoked,
        vec![
            "netsh trace start capture=yes tracefile=C:\\trace.etl maxSize=512".to_string(),
            "netsh trace stop".to_string(),
        ]
    );
    assert_eq!(fake.slept, vec![5]);
    let infos: Vec<&LogRecord> = fake.logs.iter().filter(|r| r.level == LogLevel::Info).collect();
    assert_eq!(infos.len(), 2);
    assert_eq!(
        infos[0].text,
        "PowerShell command executed successfully capture start. Duration : 5. Maxsize : 512"
    );
    assert_eq!(infos[1].text, "PowerShell command executed successfully capture stop");
    assert!(fake.logs.iter().all(|r| r.level != LogLevel::Error));
}

#[test]
fn start_failure_stops_nothing() {
    let (fake, end) = run(
        &["duration=5", "output=o.etl", "maxsize=1"],
        vec![Event::Completed(failed_result()), Event::Completed(ok_result())],
    );
    assert_eq!(end, Some(Action::Abort(Termination::CommandFailed)));
    assert_eq!(fake.invoked.len(), 1);
    assert!(fake.slept.is_empty());
}

#[test]
fn start_not_launched_is_its_own_failure() {
    let (fake, end) = run(
        &["duration=5", "output=o.etl", "maxsize=1"],
        vec![Event::NotLaunched("no shell".to_string())],
    );
    assert_eq!(end, Some(Action::Abort(Termination::LaunchFailed)));
    assert_eq!(fake.invoked.len(), 1);
    let last = fake.logs.last().unwrap();
    assert_eq!(last.level, LogLevel::Error);
    assert_eq!(last.text, "Failed to execute PowerShell command: no shell");
}

#[test]
fn stop_failure_aborts_after_two_invocations() {
    let (fake, end) = run(
        &["duration=0", "output=o.etl", "maxsize=1"],
        vec![Event::Completed(ok_result()), Event::Completed(failed_result())],
    );
    assert_eq!(end, Some(Action::Abort(Termination::CommandFailed)));
    assert_eq!(fake.invoked.len(), 2);
    assert_eq!(fake.slept, vec![0]);
}

#[test]
fn usage_errors_invoke_nothing() {
    for args in [
        vec!["output=o", "maxsize=1"],
        vec!["duration=1", "maxsize=1"],
        vec!["duration=1", "output=o"],
        vec!["duration=-3", "output=o", "maxsize=1"],
        vec!["duration=abc", "output=o", "maxsize=1"],
    ] {
        let (fake, end) = run(&args, vec![Event::Completed(ok_result())]);
        assert_eq!(end, None);
        assert!(fake.invoked.is_empty());
    }
}

#[test]
fn unexpected_events_change_nothing() {
    let req = parse_args(&toks(&["duration=2", "output=o", "maxsize=1"])).unwrap();
    let (mut s, _) = Session::start(req);
    let step = s.handle(Event::WaitElapsed);
    assert_eq!(step.action, Action::Nothing);
    assert!(step.logs.is_empty());
    assert_eq!(s.phase(), Phase::Starting);
    let step = s.handle(Event::Completed(ok_result()));
    assert_eq!(step.action, Action::Sleep(2));
    assert_eq!(s.phase(), Phase::Capturing);
    let step = s.handle(Event::Completed(ok_result()));
    assert_eq!(step.action, Action::Nothing);
    assert_eq!(s.phase(), Phase::Capturing);
    assert_eq!(s.request().duration, 2);
}

#[test]
fn start_logs_the_command_at_debug() {
    let req = parse_args(&toks(&["duration=2", "output=o", "maxsize=1"])).unwrap();
    let (_, step) = Session::start(req);
    assert_eq!(
        step.logs,
        vec![LogRecord {
            level: LogLevel::Debug,
            text: "PowerShell command : netsh trace start capture=yes tracefile=o maxSize=1"
                .to_string(),
        }]
    );
}

#[test]
fn failure_records_status_then_stderr_then_stdout() {
    let recs = classify(&failed_result(), "capture stop");
    let texts: Vec<&str> = recs.iter().map(|r| r.text.as_str()).collect();
    assert_eq!(
        texts,
        vec![
            "PowerShell command failed with exit code exit status: 1",
            "PowerShell stderr: err text",
            "PowerShell stdout: out text",
        ]
    );
    assert!(recs.iter().all(|r| r.level == LogLevel::Error));
    let quiet = CommandResult {
        succeeded: false,
        status: "exit status: 2".to_string(),
        stdout: String::new(),
        stderr: String::new(),
    };
    assert_eq!(classify(&quiet, "x").len(), 1);
}

#[test]
fn log_config_levels() {
    let debug = LogConfig::for_build(true);
    let release = LogConfig::for_build(false);
    assert_eq!(debug.min_level, LogLevel::Debug);
    assert_eq!(release.min_level, LogLevel::Info);
    assert!(debug.enabled(LogLevel::Debug));
    assert!(!release.enabled(LogLevel::Debug));
    assert!(release.enabled(LogLevel::Info));
    assert!(release.enabled(LogLevel::Error));
}
