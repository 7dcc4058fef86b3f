use backup_tools::common::error::{step_result, BackupError};
use backup_tools::common::process::{
    create_command, handle_exit_status, ExitOutcome, ExitStatusInfo, Supervisor, SupervisorAction,
    SupervisorError, SupervisorEvent, SupervisorPhase, DEFAULT_TIMEOUT_SECS, WAIT_DURATION_SECS,
};
use backup_tools::common::command::StdioMode;

const SECOND: u128 = 1_000_000_000;

fn exited(code: Option<i32>, signal: Option<i32>) -> SupervisorEvent {
    SupervisorEvent::ChildExited(ExitStatusInfo { code, signal })
}

fn run(supervisor: &mut Supervisor, events: &[SupervisorEvent]) {
    for event in events {
        supervisor.step(*event);
    }
}

#[test]
fn create_command_closes_input_and_captures_output() {
    let command = create_command("tar");
    assert_eq!(command.program, "tar");
    assert!(command.args.is_empty());
    assert!(command.envs.is_empty());
    assert_eq!(command.current_dir, None);
    assert_eq!(command.stdin, StdioMode::Null);
    assert_eq!(command.stdout, StdioMode::Piped);
    assert_eq!(command.stderr, StdioMode::Piped);
}

#[test]
fn command_builder_appends_in_order() {
    let mut command = create_command("tool");
    command.arg("-a");
    command.arg("b");
    command.env("KEY", "value");
    command.current_dir("/work");
    command.stdout(StdioMode::Null);
    command.stderr(StdioMode::Null);
    assert_eq!(command.args, vec!["-a".to_string(), "b".to_string()]);
    assert_eq!(command.envs, vec![("KEY".to_string(), "value".to_string())]);
    assert_eq!(command.current_dir, Some("/work".to_string()));
    assert_eq!(command.stdout, StdioMode::Null);
    assert_eq!(command.stderr, StdioMode::Null);
    assert_eq!(command.stdin, StdioMode::Null);
}

#[test]
fn exit_status_is_classified() {
    assert_eq!(handle_exit_status(None), None);
    assert_eq!(
        handle_exit_status(Some(ExitStatusInfo { code: Some(0), signal: None })),
        Some(ExitOutcome::Success)
    );
    assert_eq!(
        handle_exit_status(Some(ExitStatusInfo { code: Some(3), signal: None })),
        Some(ExitOutcome::NonZeroExit(3))
    );
    assert_eq!(
        handle_exit_status(Some(ExitStatusInfo { code: Some(-1), signal: Some(9) })),
        Some(ExitOutcome::NonZeroExit(-1))
    );
    assert_eq!(
        handle_exit_status(Some(ExitStatusInfo { code: None, signal: Some(15) })),
        Some(ExitOutcome::Signaled(15))
    );
    assert_eq!(
        handle_exit_status(Some(ExitStatusInfo { code: None, signal: None })),
        Some(ExitOutcome::UnknownTermination)
    );
}

#[test]
fn new_supervisor_uses_default_timeout() {
    let supervisor = Supervisor::new(None, true);
    assert_eq!(DEFAULT_TIMEOUT_SECS, 150);
    assert_eq!(supervisor.timeout_secs, 150);
    assert!(supervisor.stderr_as_stdout);
    assert!(!supervisor.shutdown_requested);
    assert_eq!(supervisor.phase, SupervisorPhase::Launching);
    assert_eq!(supervisor.next_action(), SupervisorAction::Spawn);
    let configured = Supervisor::new(Some(3600), false);
    assert_eq!(configured.timeout_secs, 3600);
    assert!(!configured.stderr_as_stdout);
}

#[test]
fn successful_child_is_returned_only_after_readers_are_joined() {
    let mut supervisor = Supervisor::new(Some(10), false);
    supervisor.step(SupervisorEvent::Spawned);
    assert_eq!(supervisor.next_action(), SupervisorAction::PollChild);
    supervisor.step(SupervisorEvent::ChildRunning);
    assert_eq!(
        supervisor.next_action(),
        SupervisorAction::Wait { secs: WAIT_DURATION_SECS, watch_shutdown: true }
    );
    supervisor.step(SupervisorEvent::TickElapsed { elapsed_nanos: 5 * SECOND });
    assert_eq!(supervisor.next_action(), SupervisorAction::PollChild);
    supervisor.step(exited(Some(0), None));
    assert_eq!(supervisor.next_action(), SupervisorAction::JoinReaders);
    assert_eq!(supervisor.phase, SupervisorPhase::Draining(Ok(ExitOutcome::Success)));
    supervisor.step(SupervisorEvent::ReadersJoined);
    assert_eq!(supervisor.next_action(), SupervisorAction::Return(Ok(ExitOutcome::Success)));
}

#[test]
fn abnormal_exits_are_values_not_failures() {
    let mut nonzero = Supervisor::new(None, false);
    run(
        &mut nonzero,
        &[SupervisorEvent::Spawned, exited(Some(2), None), SupervisorEvent::ReadersJoined],
    );
    assert_eq!(nonzero.next_action(), SupervisorAction::Return(Ok(ExitOutcome::NonZeroExit(2))));

    let mut signaled = Supervisor::new(None, false);
    run(
        &mut signaled,
        &[SupervisorEvent::Spawned, exited(None, Some(11)), SupervisorEvent::ReadersJoined],
    );
    assert_eq!(signaled.next_action(), SupervisorAction::Return(Ok(ExitOutcome::Signaled(11))));

    let mut unknown = Supervisor::new(None, false);
    run(
        &mut unknown,
        &[SupervisorEvent::Spawned, exited(None, None), SupervisorEvent::ReadersJoined],
    );
    assert_eq!(
        unknown.next_action(),
        SupervisorAction::Return(Ok(ExitOutcome::UnknownTermination))
    );
}

#[test]
fn spawn_failure_ends_supervision() {
    let mut supervisor = Supervisor::new(None, false);
    supervisor.step(SupervisorEvent::SpawnFailed);
    assert_eq!(
        supervisor.next_action(),
        SupervisorAction::Return(Err(SupervisorError::SpawnFailure))
    );
}

#[test]
fn tick_at_the_timeout_polls_again_and_beyond_it_kills() {
    let mut at_limit = Supervisor::new(Some(10), false);
    run(&mut at_limit, &[SupervisorEvent::Spawned, SupervisorEvent::ChildRunning]);
    assert!(!at_limit.is_timeout_exhausted(10 * SECOND));
    at_limit.step(SupervisorEvent::TickElapsed { elapsed_nanos: 10 * SECOND });
    assert_eq!(at_limit.next_action(), SupervisorAction::PollChild);

    let mut beyond = Supervisor::new(Some(10), false);
    run(&mut beyond, &[SupervisorEvent::Spawned, SupervisorEvent::ChildRunning]);
    assert!(beyond.is_timeout_exhausted(10 * SECOND + 1));
    beyond.step(SupervisorEvent::TickElapsed { elapsed_nanos: 10 * SECOND + 1 });
    assert_eq!(beyond.next_action(), SupervisorAction::Kill);
}

#[test]
fn timeout_check_does_not_overflow_on_the_largest_timeout() {
    let supervisor = Supervisor::new(Some(u64::MAX), false);
    assert!(!supervisor.is_timeout_exhausted(u64::MAX as u128 * SECOND));
    assert!(supervisor.is_timeout_exhausted(u64::MAX as u128 * SECOND + 1));
}

#[test]
fn timed_out_child_never_yields_a_stale_exit_classification() {
    let mut supervisor = Supervisor::new(Some(10), false);
    run(
        &mut supervisor,
        &[
            SupervisorEvent::Spawned,
            SupervisorEvent::ChildRunning,
            SupervisorEvent::TickElapsed { elapsed_nanos: 11 * SECOND },
        ],
    );
    assert_eq!(supervisor.next_action(), SupervisorAction::Kill);
    supervisor.step(SupervisorEvent::KillDelivered);
    assert_eq!(supervisor.next_action(), SupervisorAction::Reap);
    // The child reports a clean exit; the timeout still wins.
    supervisor.step(exited(Some(0), None));
    assert_eq!(supervisor.next_action(), SupervisorAction::JoinReaders);
    supervisor.step(SupervisorEvent::ReadersJoined);
    assert_eq!(
        supervisor.next_action(),
        SupervisorAction::Return(Err(SupervisorError::TimedOut))
    );
}

#[test]
fn failed_forced_kill_is_fatal() {
    let mut supervisor = Supervisor::new(Some(1), false);
    run(
        &mut supervisor,
        &[
            SupervisorEvent::Spawned,
            SupervisorEvent::ChildRunning,
            SupervisorEvent::TickElapsed { elapsed_nanos: 5 * SECOND },
            SupervisorEvent::KillFailed,
        ],
    );
    assert_eq!(
        supervisor.next_action(),
        SupervisorAction::Return(Err(SupervisorError::KillFailure))
    );
}

#[test]
fn failed_wait_after_kill_is_a_wait_failure() {
    let mut supervisor = Supervisor::new(Some(1), false);
    run(
        &mut supervisor,
        &[
            SupervisorEvent::Spawned,
            SupervisorEvent::ChildRunning,
            SupervisorEvent::TickElapsed { elapsed_nanos: 5 * SECOND },
            SupervisorEvent::KillDelivered,
            SupervisorEvent::PollFailed,
        ],
    );
    assert_eq!(
        supervisor.next_action(),
        SupervisorAction::Return(Err(SupervisorError::WaitFailure))
    );
}

#[test]
fn failed_poll_kills_best_effort_and_reports_the_wait_failure() {
    for kill_result in [SupervisorEvent::KillDelivered, SupervisorEvent::KillFailed] {
        let mut supervisor = Supervisor::new(None, false);
        run(&mut supervisor, &[SupervisorEvent::Spawned, SupervisorEvent::PollFailed]);
        assert_eq!(supervisor.phase, SupervisorPhase::Aborting);
        assert_eq!(supervisor.next_action(), SupervisorAction::Kill);
        supervisor.step(kill_result);
        assert_eq!(
            supervisor.next_action(),
            SupervisorAction::Return(Err(SupervisorError::WaitFailure))
        );
    }
}

#[test]
fn shutdown_requests_graceful_termination_at_once() {
    let mut supervisor = Supervisor::new(Some(100), false);
    run(&mut supervisor, &[SupervisorEvent::Spawned, SupervisorEvent::ChildRunning]);
    assert_eq!(
        supervisor.next_action(),
        SupervisorAction::Wait { secs: 5, watch_shutdown: true }
    );
    supervisor.step(SupervisorEvent::ShutdownFired);
    assert!(supervisor.shutdown_requested);
    assert_eq!(supervisor.next_action(), SupervisorAction::Terminate);
    supervisor.step(SupervisorEvent::TerminateDelivered);
    assert_eq!(supervisor.next_action(), SupervisorAction::PollChild);
    supervisor.step(exited(None, Some(15)));
    supervisor.step(SupervisorEvent::ReadersJoined);
    assert_eq!(supervisor.next_action(), SupervisorAction::Return(Ok(ExitOutcome::Signaled(15))));
}

#[test]
fn undelivered_termination_request_is_tolerated() {
    let mut supervisor = Supervisor::new(Some(100), false);
    run(
        &mut supervisor,
        &[
            SupervisorEvent::Spawned,
            SupervisorEvent::ChildRunning,
            SupervisorEvent::ShutdownFired,
            SupervisorEvent::TerminateFailed,
        ],
    );
    assert_eq!(supervisor.next_action(), SupervisorAction::PollChild);
    supervisor.step(exited(Some(0), None));
    supervisor.step(SupervisorEvent::ReadersJoined);
    assert_eq!(supervisor.next_action(), SupervisorAction::Return(Ok(ExitOutcome::Success)));
}

#[test]
fn after_shutdown_the_wait_no_longer_watches_the_signal_and_the_timeout_still_applies() {
    let mut supervisor = Supervisor::new(Some(10), false);
    run(
        &mut supervisor,
        &[
            SupervisorEvent::Spawned,
            SupervisorEvent::ChildRunning,
            SupervisorEvent::ShutdownFired,
            SupervisorEvent::TerminateDelivered,
            SupervisorEvent::ChildRunning,
        ],
    );
    assert_eq!(
        supervisor.next_action(),
        SupervisorAction::Wait { secs: 5, watch_shutdown: false }
    );
    supervisor.step(SupervisorEvent::TickElapsed { elapsed_nanos: 15 * SECOND });
    assert_eq!(supervisor.next_action(), SupervisorAction::Kill);
}

#[test]
fn second_shutdown_is_unexpected() {
    let mut supervisor = Supervisor::new(Some(10), false);
    run(
        &mut supervisor,
        &[
            SupervisorEvent::Spawned,
            SupervisorEvent::ChildRunning,
            SupervisorEvent::ShutdownFired,
            SupervisorEvent::TerminateDelivered,
            SupervisorEvent::ChildRunning,
            SupervisorEvent::ShutdownFired,
        ],
    );
    assert_eq!(
        supervisor.next_action(),
        SupervisorAction::Return(Err(SupervisorError::UnexpectedEvent))
    );
}

#[test]
fn event_out_of_turn_is_unexpected_and_finished_is_final() {
    let mut supervisor = Supervisor::new(None, false);
    supervisor.step(SupervisorEvent::ReadersJoined);
    assert_eq!(
        supervisor.next_action(),
        SupervisorAction::Return(Err(SupervisorError::UnexpectedEvent))
    );
    supervisor.step(SupervisorEvent::Spawned);
    supervisor.step(exited(Some(0), None));
    assert_eq!(
        supervisor.next_action(),
        SupervisorAction::Return(Err(SupervisorError::UnexpectedEvent))
    );
}

/// A child that never exits and ignores graceful termination: drives the
/// supervisor on a simulated clock and returns the result together with
/// the simulated time at which the kill was issued.
fn supervise_stubborn_child(timeout_secs: u64, shutdown_at_tick: Option<u64>) -> (
    Result<ExitOutcome, SupervisorError>,
    u128,
    u32,
) {
    let mut supervisor = Supervisor::new(Some(timeout_secs), false);
    let mut clock: u128 = 0;
    let mut ticks: u64 = 0;
    let mut killed_at: u128 = 0;
    let mut terminate_requests: u32 = 0;
    let mut killed = false;
    for _ in 0..100_000 {
        let event = match supervisor.next_action() {
            SupervisorAction::Return(result) => return (result, killed_at, terminate_requests),
            SupervisorAction::Spawn => SupervisorEvent::Spawned,
            SupervisorAction::PollChild => SupervisorEvent::ChildRunning,
            SupervisorAction::Wait { secs, watch_shutdown } => {
                if watch_shutdown && shutdown_at_tick == Some(ticks) {
                    SupervisorEvent::ShutdownFired
                } else {
                    ticks += 1;
                    clock += secs as u128 * SECOND;
                    SupervisorEvent::TickElapsed { elapsed_nanos: clock }
                }
            }
            SupervisorAction::Terminate => {
                terminate_requests += 1;
                SupervisorEvent::TerminateDelivered
            }
            SupervisorAction::Kill => {
                killed = true;
                killed_at = clock;
                SupervisorEvent::KillDelivered
            }
            SupervisorAction::Reap => {
                assert!(killed);
                SupervisorEvent::ChildExited(ExitStatusInfo { code: None, signal: Some(9) })
            }
            SupervisorAction::JoinReaders => SupervisorEvent::ReadersJoined,
        };
        supervisor.step(event);
    }
    panic!("supervision did not end");
}

#[test]
fn stubborn_child_times_out_after_the_timeout_and_within_one_cadence() {
    let (result, killed_at, terminate_requests) = supervise_stubborn_child(12, None);
    assert_eq!(result, Err(SupervisorError::TimedOut));
    assert_eq!(terminate_requests, 0);
    // Ticks fall at 5, 10 and 15 seconds; the first beyond 12 is 15.
    assert_eq!(killed_at, 15 * SECOND);
}

#[test]
fn stubborn_child_with_timeout_on_a_tick_is_killed_on_the_next() {
    let (result, killed_at, _) = supervise_stubborn_child(10, None);
    assert_eq!(result, Err(SupervisorError::TimedOut));
    assert_eq!(killed_at, 15 * SECOND);
}

#[test]
fn stubborn_child_gets_one_termination_request_then_the_forced_kill() {
    let (result, killed_at, terminate_requests) = supervise_stubborn_child(20, Some(1));
    assert_eq!(result, Err(SupervisorError::TimedOut));
    assert_eq!(terminate_requests, 1);
    assert_eq!(killed_at, 25 * SECOND);
}

#[test]
fn only_a_clean_exit_lets_the_next_step_go_ahead() {
    assert_eq!(step_result(Ok(ExitOutcome::Success)), Ok(()));
    assert_eq!(
        step_result(Ok(ExitOutcome::NonZeroExit(1))),
        Err(BackupError::AbnormalExit(ExitOutcome::NonZeroExit(1)))
    );
    assert_eq!(
        step_result(Ok(ExitOutcome::Signaled(9))),
        Err(BackupError::AbnormalExit(ExitOutcome::Signaled(9)))
    );
    assert_eq!(
        step_result(Ok(ExitOutcome::UnknownTermination)),
        Err(BackupError::AbnormalExit(ExitOutcome::UnknownTermination))
    );
    assert_eq!(
        step_result(Err(SupervisorError::TimedOut)),
        Err(BackupError::Supervisor(SupervisorError::TimedOut))
    );
    assert_eq!(
        step_result(Err(SupervisorError::SpawnFailure)),
        Err(BackupError::Supervisor(SupervisorError::SpawnFailure))
    );
}
