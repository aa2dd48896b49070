use signal_cli_api::daemon::{
    daemon_addr, describe, kill_process_group, launch_args, located, Diagnosis, FailureKind,
    GroupStep, Input, ManagedDaemon, Output, Phase, Signal, StartError, COLLECT_LIMIT_MS,
    GRACE_PERIOD_MS, PROBE_INTERVAL_MS, READY_DEADLINE_MS,
};

fn waiting(pid: i32) -> ManagedDaemon {
    let mut daemon = ManagedDaemon::new();
    assert_eq!(daemon.step(Input::Start), Output::Locate);
    assert_eq!(daemon.step(Input::Located { found: true }), Output::ChoosePort);
    assert_eq!(daemon.step(Input::PortChosen { chosen: true }), Output::Launch);
    assert_eq!(daemon.step(Input::Launched { pid: Some(pid) }), Output::ReadClock);
    daemon
}

fn running(pid: i32) -> ManagedDaemon {
    let mut daemon = waiting(pid);
    daemon.step(Input::Clock { elapsed_ms: 0 });
    daemon.step(Input::ExitChecked { exited: false });
    assert_eq!(daemon.step(Input::Connected { reached: true }), Output::Proceed);
    assert_eq!(daemon.step(Input::Serving), Output::Nothing);
    daemon
}

#[test]
fn limits_of_the_supervisor() {
    assert_eq!(READY_DEADLINE_MS, 30000);
    assert_eq!(PROBE_INTERVAL_MS, 200);
    assert_eq!(GRACE_PERIOD_MS, 2000);
    assert_eq!(COLLECT_LIMIT_MS, 1000);
}

#[test]
fn start_runs_through_the_lifecycle() {
    let mut daemon = ManagedDaemon::new();
    assert_eq!(daemon.phase, Phase::NotStarted);
    assert_eq!(daemon.pid(), None);
    assert_eq!(daemon.step(Input::Start), Output::Locate);
    assert_eq!(daemon.phase, Phase::Locating);
    assert_eq!(daemon.step(Input::Located { found: true }), Output::ChoosePort);
    assert_eq!(daemon.phase, Phase::ChoosingPort);
    assert_eq!(daemon.step(Input::PortChosen { chosen: true }), Output::Launch);
    assert_eq!(daemon.phase, Phase::Launching);
    assert_eq!(daemon.step(Input::Launched { pid: Some(4711) }), Output::ReadClock);
    assert_eq!(daemon.phase, Phase::CheckingClock { pid: 4711 });
    assert_eq!(daemon.pid(), Some(4711));
    assert_eq!(daemon.step(Input::Clock { elapsed_ms: 10 }), Output::CheckExit);
    assert_eq!(daemon.step(Input::ExitChecked { exited: false }), Output::Connect);
    assert_eq!(
        daemon.step(Input::Connected { reached: false }),
        Output::Sleep { millis: 200 }
    );
    assert_eq!(daemon.phase, Phase::Sleeping { pid: 4711 });
    assert_eq!(daemon.step(Input::Slept), Output::ReadClock);
    assert_eq!(daemon.step(Input::Clock { elapsed_ms: 215 }), Output::CheckExit);
    assert_eq!(daemon.step(Input::ExitChecked { exited: false }), Output::Connect);
    assert_eq!(daemon.step(Input::Connected { reached: true }), Output::Proceed);
    assert_eq!(daemon.phase, Phase::Ready { pid: 4711 });
    assert_eq!(daemon.step(Input::Serving), Output::Nothing);
    assert_eq!(daemon.phase, Phase::Running { pid: 4711 });
}

#[test]
fn missing_binary_fails_the_start() {
    let mut daemon = ManagedDaemon::new();
    daemon.step(Input::Start);
    assert_eq!(
        daemon.step(Input::Located { found: false }),
        Output::Report { kind: FailureKind::BinaryNotFound, group: None }
    );
    assert_eq!(daemon.phase, Phase::Failed { kind: FailureKind::BinaryNotFound });
    assert_eq!(daemon.pid(), None);
}

#[test]
fn failed_port_choice_or_launch_is_a_spawn_failure() {
    let mut daemon = ManagedDaemon::new();
    daemon.step(Input::Start);
    daemon.step(Input::Located { found: true });
    assert_eq!(
        daemon.step(Input::PortChosen { chosen: false }),
        Output::Report { kind: FailureKind::SpawnFailure, group: None }
    );
    assert_eq!(daemon.phase, Phase::Failed { kind: FailureKind::SpawnFailure });

    let mut daemon = ManagedDaemon::new();
    daemon.step(Input::Start);
    daemon.step(Input::Located { found: true });
    daemon.step(Input::PortChosen { chosen: true });
    assert_eq!(
        daemon.step(Input::Launched { pid: None }),
        Output::Report { kind: FailureKind::SpawnFailure, group: None }
    );
    assert_eq!(daemon.phase, Phase::Failed { kind: FailureKind::SpawnFailure });
}

#[test]
fn deadline_is_thirty_seconds_and_itself_still_in_time() {
    let mut daemon = waiting(5);
    assert_eq!(daemon.step(Input::Clock { elapsed_ms: 30000 }), Output::CheckExit);
    let mut daemon = waiting(5);
    assert_eq!(
        daemon.step(Input::Clock { elapsed_ms: 30001 }),
        Output::Collect { after: FailureKind::ReadinessTimeout, limit_ms: 1000 }
    );
    assert_eq!(daemon.phase, Phase::CollectingAfterDeadline { pid: 5 });
    assert_eq!(
        daemon.step(Input::Collected),
        Output::Report { kind: FailureKind::ReadinessTimeout, group: Some(5) }
    );
    assert_eq!(daemon.phase, Phase::Failed { kind: FailureKind::ReadinessTimeout });
}

#[test]
fn early_exit_fails_the_start() {
    let mut daemon = waiting(5);
    daemon.step(Input::Clock { elapsed_ms: 400 });
    assert_eq!(
        daemon.step(Input::ExitChecked { exited: true }),
        Output::Collect { after: FailureKind::UnexpectedExit, limit_ms: 1000 }
    );
    assert_eq!(daemon.phase, Phase::CollectingAfterExit { pid: 5 });
    assert_eq!(
        daemon.step(Input::Collected),
        Output::Report { kind: FailureKind::UnexpectedExit, group: Some(5) }
    );
    assert_eq!(daemon.phase, Phase::Failed { kind: FailureKind::UnexpectedExit });
}

#[test]
fn input_that_is_not_waited_for_changes_nothing() {
    let mut daemon = ManagedDaemon::new();
    assert_eq!(daemon.step(Input::Slept), Output::Nothing);
    assert_eq!(daemon.step(Input::GraceElapsed), Output::Nothing);
    assert_eq!(daemon.step(Input::Launched { pid: Some(1) }), Output::Nothing);
    assert_eq!(daemon.phase, Phase::NotStarted);
    let mut daemon = running(8);
    assert_eq!(daemon.step(Input::Start), Output::Nothing);
    assert_eq!(daemon.step(Input::Connected { reached: false }), Output::Nothing);
    assert_eq!(daemon.phase, Phase::Running { pid: 8 });
}

#[test]
fn stop_asks_the_group_to_end_and_then_kills_it() {
    let mut daemon = running(4711);
    assert_eq!(
        daemon.stop(),
        Output::SignalGroup { pid: 4711, signal: Signal::Terminate }
    );
    assert_eq!(daemon.phase, Phase::Terminating { pid: 4711 });
    assert_eq!(
        daemon.step(Input::GraceElapsed),
        Output::SignalGroup { pid: 4711, signal: Signal::Kill }
    );
    assert_eq!(daemon.phase, Phase::Killed);
    assert_eq!(daemon.pid(), None);
}

#[test]
fn stop_may_be_asked_for_more_than_once() {
    let mut daemon = running(4711);
    daemon.stop();
    assert_eq!(daemon.stop(), Output::Nothing);
    assert_eq!(daemon.step(Input::Stop), Output::Nothing);
    assert_eq!(daemon.phase, Phase::Terminating { pid: 4711 });
    daemon.step(Input::GraceElapsed);
    assert_eq!(daemon.stop(), Output::Nothing);
    assert_eq!(daemon.step(Input::GraceElapsed), Output::Nothing);
    assert_eq!(daemon.phase, Phase::Killed);
}

#[test]
fn stop_works_while_the_daemon_is_waited_for() {
    let mut daemon = waiting(33);
    assert_eq!(
        daemon.step(Input::Stop),
        Output::SignalGroup { pid: 33, signal: Signal::Terminate }
    );
    let mut daemon = waiting(33);
    daemon.step(Input::Clock { elapsed_ms: 1 });
    daemon.step(Input::ExitChecked { exited: false });
    daemon.step(Input::Connected { reached: false });
    assert_eq!(
        daemon.stop(),
        Output::SignalGroup { pid: 33, signal: Signal::Terminate }
    );
    assert_eq!(daemon.phase, Phase::Terminating { pid: 33 });
}

#[test]
fn stop_before_any_process_runs_gives_up_the_start() {
    let mut daemon = ManagedDaemon::new();
    assert_eq!(daemon.stop(), Output::Nothing);
    assert_eq!(daemon.phase, Phase::NotStarted);
    daemon.step(Input::Start);
    assert_eq!(daemon.stop(), Output::Nothing);
    assert_eq!(daemon.phase, Phase::Killed);
    assert_eq!(daemon.step(Input::Located { found: true }), Output::Nothing);
    assert_eq!(daemon.phase, Phase::Killed);
}

fn launching() -> ManagedDaemon {
    let mut daemon = ManagedDaemon::new();
    daemon.step(Input::Start);
    daemon.step(Input::Located { found: true });
    assert_eq!(daemon.step(Input::PortChosen { chosen: true }), Output::Launch);
    daemon
}

#[test]
fn stop_during_the_launch_ends_the_process_that_comes_of_it() {
    let mut daemon = launching();
    assert_eq!(daemon.stop(), Output::Nothing);
    assert_eq!(daemon.phase, Phase::StoppingLaunch);
    assert_eq!(daemon.stop(), Output::Nothing);
    assert_eq!(daemon.phase, Phase::StoppingLaunch);
    assert_eq!(
        daemon.step(Input::Launched { pid: Some(77) }),
        Output::SignalGroup { pid: 77, signal: Signal::Terminate }
    );
    assert_eq!(daemon.phase, Phase::Terminating { pid: 77 });
    assert_eq!(
        daemon.step(Input::GraceElapsed),
        Output::SignalGroup { pid: 77, signal: Signal::Kill }
    );
    assert_eq!(daemon.phase, Phase::Killed);
}

#[test]
fn stop_during_a_launch_that_fails_has_nothing_to_end() {
    let mut daemon = launching();
    daemon.step(Input::Stop);
    assert_eq!(daemon.step(Input::Launched { pid: None }), Output::Nothing);
    assert_eq!(daemon.phase, Phase::Killed);
}

#[test]
fn start_error_is_made_from_the_report_and_what_is_known() {
    let known = || Diagnosis {
        words: "Permission denied (os error 13)".to_string(),
        status: "exit status: 1".to_string(),
        written: Some("boom\n".to_string()),
    };
    assert!(matches!(
        describe(FailureKind::BinaryNotFound, known()),
        StartError::BinaryNotFound
    ));
    assert_eq!(
        describe(FailureKind::SpawnFailure, known()).message(),
        "Permission denied (os error 13)"
    );
    assert_eq!(
        describe(FailureKind::ReadinessTimeout, known()).message(),
        "signal-cli daemon failed to start within 30s. stderr: boom\n"
    );
    assert_eq!(
        describe(FailureKind::UnexpectedExit, known()).message(),
        "signal-cli exited with exit status: 1: boom"
    );
    let nothing = Diagnosis { words: String::new(), status: "signal: 9".to_string(), written: None };
    assert_eq!(
        describe(FailureKind::UnexpectedExit, nothing).message(),
        "signal-cli exited with signal: 9"
    );
    let silent = Diagnosis { words: String::new(), status: String::new(), written: None };
    assert_eq!(
        describe(FailureKind::ReadinessTimeout, silent).message(),
        "signal-cli daemon failed to start within 30 seconds"
    );
    for kind in [
        FailureKind::BinaryNotFound,
        FailureKind::SpawnFailure,
        FailureKind::ReadinessTimeout,
        FailureKind::UnexpectedExit,
    ] {
        assert_eq!(describe(kind, known()).kind(), kind);
    }
}

#[test]
fn stop_after_a_failed_start_does_nothing() {
    let mut daemon = ManagedDaemon::new();
    daemon.step(Input::Start);
    daemon.step(Input::Located { found: false });
    assert_eq!(daemon.stop(), Output::Nothing);
    assert_eq!(daemon.phase, Phase::Failed { kind: FailureKind::BinaryNotFound });
}

#[test]
fn group_is_addressed_by_the_negated_leader() {
    assert_eq!(
        kill_process_group(4711),
        vec![
            GroupStep::Signal { target: -4711, signal: Signal::Terminate },
            GroupStep::Pause { millis: 2000 },
            GroupStep::Signal { target: -4711, signal: Signal::Kill },
        ]
    );
    assert_eq!(
        kill_process_group(i32::MAX)[0],
        GroupStep::Signal { target: -i32::MAX, signal: Signal::Terminate }
    );
    assert_eq!(
        kill_process_group(1)[2],
        GroupStep::Signal { target: -1, signal: Signal::Kill }
    );
}

#[test]
fn search_result_is_trimmed() {
    assert_eq!(
        located(true, "/usr/local/bin/signal-cli\n").unwrap(),
        "/usr/local/bin/signal-cli"
    );
    assert_eq!(located(true, "  /opt/sc \t\r\n").unwrap(), "/opt/sc");
    assert_eq!(located(true, "").unwrap(), "");
    assert!(matches!(
        located(false, "/usr/bin/signal-cli\n"),
        Err(StartError::BinaryNotFound)
    ));
}

#[test]
fn address_and_arguments_of_the_daemon() {
    assert_eq!(daemon_addr(0), "127.0.0.1:0");
    assert_eq!(daemon_addr(8080), "127.0.0.1:8080");
    assert_eq!(daemon_addr(65535), "127.0.0.1:65535");
    assert_eq!(
        launch_args("127.0.0.1:40123"),
        vec!["daemon".to_string(), "--tcp".to_string(), "127.0.0.1:40123".to_string()]
    );
}

#[test]
fn messages_of_the_start_errors() {
    assert_eq!(
        StartError::BinaryNotFound.message(),
        "signal-cli not found on $PATH. Install it or use --signal-cli <addr> to connect to an existing daemon"
    );
    assert_eq!(
        StartError::SpawnFailure("No such file or directory (os error 2)".to_string()).message(),
        "No such file or directory (os error 2)"
    );
    assert_eq!(
        StartError::ReadinessTimeout(Some("Exception in thread main\n".to_string())).message(),
        "signal-cli daemon failed to start within 30s. stderr: Exception in thread main\n"
    );
    assert_eq!(
        StartError::ReadinessTimeout(Some(String::new())).message(),
        "signal-cli daemon failed to start within 30s. stderr: "
    );
    assert_eq!(
        StartError::ReadinessTimeout(None).message(),
        "signal-cli daemon failed to start within 30 seconds"
    );
    assert_eq!(
        StartError::UnexpectedExit {
            status: "exit status: 1".to_string(),
            diagnostics: "  No account configured\n".to_string(),
        }
        .message(),
        "signal-cli exited with exit status: 1: No account configured"
    );
    assert_eq!(
        StartError::UnexpectedExit {
            status: "exit status: 2".to_string(),
            diagnostics: String::new(),
        }
        .message(),
        "signal-cli exited with exit status: 2"
    );
    assert_eq!(
        StartError::UnexpectedExit {
            status: "signal: 9".to_string(),
            diagnostics: " \n".to_string(),
        }
        .message(),
        "signal-cli exited with signal: 9: "
    );
}

#[test]
fn kinds_of_the_start_errors() {
    assert_eq!(StartError::BinaryNotFound.kind(), FailureKind::BinaryNotFound);
    assert_eq!(StartError::SpawnFailure(String::new()).kind(), FailureKind::SpawnFailure);
    assert_eq!(StartError::ReadinessTimeout(None).kind(), FailureKind::ReadinessTimeout);
    assert_eq!(
        StartError::UnexpectedExit { status: String::new(), diagnostics: String::new() }.kind(),
        FailureKind::UnexpectedExit
    );
}
