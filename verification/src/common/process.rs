//! Supervision of one external program: how its exit is classified and how
//! the supervising loop reacts to each observation.

use crate::common::command::{CommandSpec, CommandView, StdioMode};
use vstd::prelude::*;

verus! {

/// A command for `program` whose input is closed and whose output and error
/// streams are captured through pipes, never inherited.
pub fn create_command(program: &str) -> (command: CommandSpec)
    ensures
        command@ == CommandView::captured(program@),
{
    let command = CommandSpec {
        program: program.to_owned(),
        args: Vec::new(),
        envs: Vec::new(),
        current_dir: None,
        stdin: StdioMode::Null,
        stdout: StdioMode::Piped,
        stderr: StdioMode::Piped,
    };
    assert(command@.args =~= Seq::empty());
    assert(command@.envs =~= Seq::empty());
    command
}

/// What the operating system reports about a terminated child: its exit
/// code, if it exited on its own, and the signal that ended it, if one did.
#[derive(Clone, Copy, Debug, PartialEq, Eq, Structural)]
pub struct ExitStatusInfo {
    pub code: Option<i32>,
    pub signal: Option<i32>,
}

/// Classification of a completed process.
#[derive(Clone, Copy, Debug, PartialEq, Eq, Structural)]
pub enum ExitOutcome {
    Success,
    NonZeroExit(i32),
    Signaled(i32),
    UnknownTermination,
}

/// The classification of a termination report: an exit code decides first,
/// then the signal; with neither known the termination is unknown.
pub open spec fn classify_exit(status: ExitStatusInfo) -> ExitOutcome {
    match status.code {
        Some(code) => if code == 0 {
            ExitOutcome::Success
        } else {
            ExitOutcome::NonZeroExit(code)
        },
        None => match status.signal {
            Some(signal) => ExitOutcome::Signaled(signal),
            None => ExitOutcome::UnknownTermination,
        },
    }
}

/// Classifies the result of a liveness poll. `None` means the child is still
/// running and nothing can be said yet.
pub fn handle_exit_status(status: Option<ExitStatusInfo>) -> (outcome: Option<ExitOutcome>)
    ensures
        outcome == match status {
            Some(s) => Some(classify_exit(s)),
            None => None,
        },
{
    match status {
        None => None,
        Some(s) => match s.code {
            Some(code) => if code == 0 {
                Some(ExitOutcome::Success)
            } else {
                Some(ExitOutcome::NonZeroExit(code))
            },
            None => match s.signal {
                Some(signal) => Some(ExitOutcome::Signaled(signal)),
                None => Some(ExitOutcome::UnknownTermination),
            },
        },
    }
}

/// Seconds between two liveness polls of the child.
pub const WAIT_DURATION_SECS: u64 = 5;

/// Timeout applied when the caller names none: two minutes and thirty seconds.
pub const DEFAULT_TIMEOUT_SECS: u64 = 150;

/// Nanoseconds in one second.
pub const NANOS_PER_SEC: u128 = 1_000_000_000;

/// Ways in which supervision itself fails, as opposed to the child exiting
/// abnormally (which is reported as an `ExitOutcome`).
#[derive(Clone, Copy, Debug, PartialEq, Eq, Structural)]
pub enum SupervisorError {
    /// The operating system could not start the program.
    SpawnFailure,
    /// The operating system could not report on the child.
    WaitFailure,
    /// The forced kill could not be delivered, so cleanup cannot be promised.
    KillFailure,
    /// The timeout was exceeded and the child was forcibly killed.
    TimedOut,
    /// An observation arrived that the current phase never asks for.
    UnexpectedEvent,
}

/// Where the supervising loop stands.
#[derive(Clone, Copy, Debug, PartialEq, Eq)]
pub enum SupervisorPhase {
    /// The program has not been started yet.
    Launching,
    /// The child is about to be polled for completion.
    Polling,
    /// The child was still running; the loop sleeps until the cadence tick
    /// or the shutdown signal, whichever comes first.
    Waiting,
    /// Shutdown fired; a graceful termination request is being sent.
    Terminating,
    /// The timeout is exhausted; a forced kill is being sent.
    Killing,
    /// Polling failed; a best-effort forced kill is being sent.
    Aborting,
    /// The forced kill was delivered; the child's termination is awaited.
    Reaping,
    /// The child has exited; the stream readers are being joined. Carries
    /// what will be returned once they are.
    Draining(Result<ExitOutcome, SupervisorError>),
    /// Supervision is over.
    Finished(Result<ExitOutcome, SupervisorError>),
}

/// What the caller must do next on behalf of the supervisor.
#[derive(Clone, Copy, Debug, PartialEq, Eq)]
pub enum SupervisorAction {
    /// Start the program with closed input and both output streams piped,
    /// and start one reader per stream.
    Spawn,
    /// Ask, without blocking, whether the child has exited.
    PollChild,
    /// Block for at most `secs` seconds; wake early on the shutdown signal
    /// if `watch_shutdown` is set.
    Wait { secs: u64, watch_shutdown: bool },
    /// Ask the child to terminate gracefully.
    Terminate,
    /// Kill the child forcibly.
    Kill,
    /// Block until the child has terminated.
    Reap,
    /// Block until every stream reader has reached end of stream.
    JoinReaders,
    /// Hand this result back; nothing is left to do.
    Return(Result<ExitOutcome, SupervisorError>),
}

/// What the caller observed while carrying out an action.
#[derive(Clone, Copy, Debug, PartialEq, Eq)]
pub enum SupervisorEvent {
    Spawned,
    SpawnFailed,
    ChildRunning,
    ChildExited(ExitStatusInfo),
    /// The operating system refused to report on the child.
    PollFailed,
    /// The cadence tick elapsed; `elapsed_nanos` is the time since the
    /// supervisor was created.
    TickElapsed { elapsed_nanos: u128 },
    ShutdownFired,
    TerminateDelivered,
    TerminateFailed,
    KillDelivered,
    KillFailed,
    ReadersJoined,
}

/// The supervising loop for one external program, as a state machine: the
/// caller performs `next_action`, reports what happened through `step`, and
/// repeats until the action is `Return`.
#[derive(Clone, Copy, Debug, PartialEq, Eq)]
pub struct Supervisor {
    pub phase: SupervisorPhase,
    /// Seconds the child may run before it is forcibly killed.
    pub timeout_secs: u64,
    /// Whether the child's error stream is logged like its output stream.
    pub stderr_as_stdout: bool,
    /// Whether a shutdown has been observed and passed on to the child.
    pub shutdown_requested: bool,
}

impl Supervisor {
    /// The state before anything has happened.
    pub open spec fn initial(timeout: Option<u64>, stderr_as_stdout: bool) -> Supervisor {
        Supervisor {
            phase: SupervisorPhase::Launching,
            timeout_secs: match timeout {
                Some(secs) => secs,
                None => DEFAULT_TIMEOUT_SECS,
            },
            stderr_as_stdout,
            shutdown_requested: false,
        }
    }

    /// Whether `elapsed_nanos` lies strictly beyond the timeout.
    pub open spec fn timeout_exhausted(self, elapsed_nanos: u128) -> bool {
        elapsed_nanos > self.timeout_secs * NANOS_PER_SEC
    }

    /// The action that the current phase asks for.
    pub open spec fn spec_action(self) -> SupervisorAction {
        match self.phase {
            SupervisorPhase::Launching => SupervisorAction::Spawn,
            SupervisorPhase::Polling => SupervisorAction::PollChild,
            SupervisorPhase::Waiting => SupervisorAction::Wait {
                secs: WAIT_DURATION_SECS,
                watch_shutdown: !self.shutdown_requested,
            },
            SupervisorPhase::Terminating => SupervisorAction::Terminate,
            SupervisorPhase::Killing => SupervisorAction::Kill,
            SupervisorPhase::Aborting => SupervisorAction::Kill,
            SupervisorPhase::Reaping => SupervisorAction::Reap,
            SupervisorPhase::Draining(_) => SupervisorAction::JoinReaders,
            SupervisorPhase::Finished(result) => SupervisorAction::Return(result),
        }
    }

    /// The phase that follows `self.phase` on `event`.
    pub open spec fn next_phase(self, event: SupervisorEvent) -> SupervisorPhase {
        match (self.phase, event) {
            (SupervisorPhase::Finished(result), _) => SupervisorPhase::Finished(result),
            (SupervisorPhase::Launching, SupervisorEvent::Spawned) => SupervisorPhase::Polling,
            (SupervisorPhase::Launching, SupervisorEvent::SpawnFailed) => SupervisorPhase::Finished(
                Err(SupervisorError::SpawnFailure),
            ),
            (SupervisorPhase::Polling, SupervisorEvent::ChildRunning) => SupervisorPhase::Waiting,
            (SupervisorPhase::Polling, SupervisorEvent::ChildExited(status)) => {
                SupervisorPhase::Draining(Ok(classify_exit(status)))
            },
            (SupervisorPhase::Polling, SupervisorEvent::PollFailed) => SupervisorPhase::Aborting,
            (SupervisorPhase::Waiting, SupervisorEvent::ShutdownFired) => {
                if self.shutdown_requested {
                    SupervisorPhase::Finished(Err(SupervisorError::UnexpectedEvent))
                } else {
                    SupervisorPhase::Terminating
                }
            },
            (SupervisorPhase::Waiting, SupervisorEvent::TickElapsed { elapsed_nanos }) => {
                if self.timeout_exhausted(elapsed_nanos) {
                    SupervisorPhase::Killing
                } else {
                    SupervisorPhase::Polling
                }
            },
            (SupervisorPhase::Terminating, SupervisorEvent::TerminateDelivered) => {
                SupervisorPhase::Polling
            },
            (SupervisorPhase::Terminating, SupervisorEvent::TerminateFailed) => {
                SupervisorPhase::Polling
            },
            (SupervisorPhase::Killing, SupervisorEvent::KillDelivered) => SupervisorPhase::Reaping,
            (SupervisorPhase::Killing, SupervisorEvent::KillFailed) => SupervisorPhase::Finished(
                Err(SupervisorError::KillFailure),
            ),
            (SupervisorPhase::Aborting, SupervisorEvent::KillDelivered) => SupervisorPhase::Finished(
                Err(SupervisorError::WaitFailure),
            ),
            (SupervisorPhase::Aborting, SupervisorEvent::KillFailed) => SupervisorPhase::Finished(
                Err(SupervisorError::WaitFailure),
            ),
            (SupervisorPhase::Reaping, SupervisorEvent::ChildExited(_)) => SupervisorPhase::Draining(
                Err(SupervisorError::TimedOut),
            ),
            (SupervisorPhase::Reaping, SupervisorEvent::PollFailed) => SupervisorPhase::Finished(
                Err(SupervisorError::WaitFailure),
            ),
            (SupervisorPhase::Draining(result), SupervisorEvent::ReadersJoined) => {
                SupervisorPhase::Finished(result)
            },
            _ => SupervisorPhase::Finished(Err(SupervisorError::UnexpectedEvent)),
        }
    }

    /// The state that follows `self` on `event`.
    pub open spec fn spec_step(self, event: SupervisorEvent) -> Supervisor {
        Supervisor {
            phase: self.next_phase(event),
            timeout_secs: self.timeout_secs,
            stderr_as_stdout: self.stderr_as_stdout,
            shutdown_requested: self.shutdown_requested || (self.phase is Waiting
                && event is ShutdownFired),
        }
    }

    /// The state reached from `self` after every event of `events`, in order.
    pub open spec fn run(self, events: Seq<SupervisorEvent>) -> Supervisor
        decreases events.len(),
    {
        if events.len() == 0 {
            self
        } else {
            self.run(events.drop_last()).spec_step(events.last())
        }
    }

    /// A supervisor for a program that is yet to be started. Without a
    /// timeout the default of two and a half minutes applies.
    pub fn new(timeout: Option<u64>, stderr_as_stdout: bool) -> (supervisor: Supervisor)
        ensures
            supervisor == Supervisor::initial(timeout, stderr_as_stdout),
    {
        let timeout_secs: u64 = match timeout {
            Some(secs) => secs,
            None => DEFAULT_TIMEOUT_SECS,
        };
        Supervisor {
            phase: SupervisorPhase::Launching,
            timeout_secs,
            stderr_as_stdout,
            shutdown_requested: false,
        }
    }

    /// What the caller has to do next.
    pub fn next_action(&self) -> (action: SupervisorAction)
        ensures
            action == self.spec_action(),
    {
        match self.phase {
            SupervisorPhase::Launching => SupervisorAction::Spawn,
            SupervisorPhase::Polling => SupervisorAction::PollChild,
            SupervisorPhase::Waiting => SupervisorAction::Wait {
                secs: WAIT_DURATION_SECS,
                watch_shutdown: !self.shutdown_requested,
            },
            SupervisorPhase::Terminating => SupervisorAction::Terminate,
            SupervisorPhase::Killing => SupervisorAction::Kill,
            SupervisorPhase::Aborting => SupervisorAction::Kill,
            SupervisorPhase::Reaping => SupervisorAction::Reap,
            SupervisorPhase::Draining(_) => SupervisorAction::JoinReaders,
            SupervisorPhase::Finished(result) => SupervisorAction::Return(result),
        }
    }

    /// Whether the child has been running for longer than the timeout.
    pub fn is_timeout_exhausted(&self, elapsed_nanos: u128) -> (exhausted: bool)
        ensures
            exhausted == self.timeout_exhausted(elapsed_nanos),
    {
        let secs: u128 = self.timeout_secs as u128;
        assert(secs * NANOS_PER_SEC <= 0xffff_ffff_ffff_ffff * 1_000_000_000) by (nonlinear_arith)
            requires
                0 <= secs <= 0xffff_ffff_ffff_ffff,
                NANOS_PER_SEC == 1_000_000_000,
        ;
        elapsed_nanos > secs * NANOS_PER_SEC
    }

    /// Takes in what the caller observed while carrying out `next_action`.
    pub fn step(&mut self, event: SupervisorEvent)
        ensures
            *final(self) == old(self).spec_step(event),
    {
        let unexpected = SupervisorPhase::Finished(Err(SupervisorError::UnexpectedEvent));
        let phase = match self.phase {
            SupervisorPhase::Finished(result) => SupervisorPhase::Finished(result),
            SupervisorPhase::Launching => match event {
                SupervisorEvent::Spawned => SupervisorPhase::Polling,
                SupervisorEvent::SpawnFailed => SupervisorPhase::Finished(
                    Err(SupervisorError::SpawnFailure),
                ),
                _ => unexpected,
            },
            SupervisorPhase::Polling => match event {
                SupervisorEvent::ChildRunning => SupervisorPhase::Waiting,
                SupervisorEvent::ChildExited(status) => match handle_exit_status(Some(status)) {
                    Some(outcome) => SupervisorPhase::Draining(Ok(outcome)),
                    None => unexpected,
                },
                SupervisorEvent::PollFailed => SupervisorPhase::Aborting,
                _ => unexpected,
            },
            SupervisorPhase::Waiting => match event {
                SupervisorEvent::ShutdownFired => if self.shutdown_requested {
                    unexpected
                } else {
                    self.shutdown_requested = true;
                    SupervisorPhase::Terminating
                },
                SupervisorEvent::TickElapsed { elapsed_nanos } => if self.is_timeout_exhausted(
                    elapsed_nanos,
                ) {
                    SupervisorPhase::Killing
                } else {
                    SupervisorPhase::Polling
                },
                _ => unexpected,
            },
            SupervisorPhase::Terminating => match event {
                SupervisorEvent::TerminateDelivered => SupervisorPhase::Polling,
                SupervisorEvent::TerminateFailed => SupervisorPhase::Polling,
                _ => unexpected,
            },
            SupervisorPhase::Killing => match event {
                SupervisorEvent::KillDelivered => SupervisorPhase::Reaping,
                SupervisorEvent::KillFailed => SupervisorPhase::Finished(
                    Err(SupervisorError::KillFailure),
                ),
                _ => unexpected,
            },
            SupervisorPhase::Aborting => match event {
                SupervisorEvent::KillDelivered => SupervisorPhase::Finished(
                    Err(SupervisorError::WaitFailure),
                ),
                SupervisorEvent::KillFailed => SupervisorPhase::Finished(
                    Err(SupervisorError::WaitFailure),
                ),
                _ => unexpected,
            },
            SupervisorPhase::Reaping => match event {
                SupervisorEvent::ChildExited(_) => SupervisorPhase::Draining(
                    Err(SupervisorError::TimedOut),
                ),
                SupervisorEvent::PollFailed => SupervisorPhase::Finished(
                    Err(SupervisorError::WaitFailure),
                ),
                _ => unexpected,
            },
            SupervisorPhase::Draining(result) => match event {
                SupervisorEvent::ReadersJoined => SupervisorPhase::Finished(result),
                _ => unexpected,
            },
        };
        self.phase = phase;
    }
}

/// Whether some event of `events` reports the child's exit and a later one
/// reports that the stream readers were joined.
pub open spec fn exited_then_drained(events: Seq<SupervisorEvent>) -> bool {
    exists|i: int, j: int|
        #![trigger events[i], events[j]]
        0 <= i < j < events.len() && events[i] is ChildExited && events[j] is ReadersJoined
}

/// Whether some event of `events` reports the child's exit.
pub open spec fn exit_observed(events: Seq<SupervisorEvent>) -> bool {
    exists|i: int| 0 <= i < events.len() && (#[trigger] events[i]) is ChildExited
}

/// Whether some cadence tick of `events` lies beyond the timeout of `s`.
pub open spec fn exhausted_tick_observed(s: Supervisor, events: Seq<SupervisorEvent>) -> bool {
    exists|i: int|
        0 <= i < events.len() && (#[trigger] events[i] matches SupervisorEvent::TickElapsed {
            elapsed_nanos,
        } && s.timeout_exhausted(elapsed_nanos))
}

/// The configuration of a supervisor never changes while it runs.
pub proof fn lemma_run_keeps_configuration(s: Supervisor, events: Seq<SupervisorEvent>)
    ensures
        s.run(events).timeout_secs == s.timeout_secs,
        s.run(events).stderr_as_stdout == s.stderr_as_stdout,
    decreases events.len(),
{
    if events.len() > 0 {
        lemma_run_keeps_configuration(s, events.drop_last());
    }
}

/// An exit classification is handed back only after the child's exit was
/// observed and, later, the stream readers were joined: no output is lost
/// to a race between exit and draining.
pub proof fn lemma_success_only_after_drain(
    timeout: Option<u64>,
    stderr_as_stdout: bool,
    events: Seq<SupervisorEvent>,
)
    ensures
        Supervisor::initial(timeout, stderr_as_stdout).run(events).phase
            matches SupervisorPhase::Finished(Ok(_)) ==> exited_then_drained(events),
        Supervisor::initial(timeout, stderr_as_stdout).run(events).phase
            matches SupervisorPhase::Draining(_) ==> exit_observed(events),
    decreases events.len(),
{
    let start = Supervisor::initial(timeout, stderr_as_stdout);
    if events.len() > 0 {
        let earlier = events.drop_last();
        let before = start.run(earlier);
        let last = events.len() - 1;
        lemma_success_only_after_drain(timeout, stderr_as_stdout, earlier);
        if before.spec_step(events.last()).phase is Draining {
            assert(events[last] is ChildExited);
        }
        if before.spec_step(events.last()).phase matches SupervisorPhase::Finished(Ok(_)) {
            if before.phase is Draining {
                let i = choose|i: int| 0 <= i < earlier.len() && (#[trigger] earlier[i]) is ChildExited;
                assert(events[i] == earlier[i]);
                assert(events[last] is ReadersJoined);
            } else {
                let (i, j) = choose|i: int, j: int|
                    #![trigger earlier[i], earlier[j]]
                    0 <= i < j < earlier.len() && earlier[i] is ChildExited
                        && earlier[j] is ReadersJoined;
                assert(events[i] == earlier[i] && events[j] == earlier[j]);
            }
        }
    }
}

/// Once the timeout is exhausted no exit classification is ever handed
/// back, whatever the child reports afterwards.
pub proof fn lemma_timeout_supersedes_exit(s: Supervisor, events: Seq<SupervisorEvent>)
    requires
        s.phase is Killing,
    ensures
        match s.run(events).phase {
            SupervisorPhase::Killing | SupervisorPhase::Reaping => true,
            SupervisorPhase::Draining(result) => result == Err::<ExitOutcome, _>(
                SupervisorError::TimedOut,
            ),
            SupervisorPhase::Finished(result) => result is Err,
            _ => false,
        },
    decreases events.len(),
{
    if events.len() > 0 {
        lemma_timeout_supersedes_exit(s, events.drop_last());
    }
}

/// A child that outlives its timeout ends in `TimedOut` as soon as the kill
/// is delivered and its termination observed, superseding its exit status.
pub proof fn lemma_killed_child_times_out(
    s: Supervisor,
    elapsed_nanos: u128,
    status: ExitStatusInfo,
)
    requires
        s.phase is Waiting,
        s.timeout_exhausted(elapsed_nanos),
    ensures
        s.spec_step(SupervisorEvent::TickElapsed { elapsed_nanos }).spec_action()
            == SupervisorAction::Kill,
        s.spec_step(SupervisorEvent::TickElapsed { elapsed_nanos }).spec_step(
            SupervisorEvent::KillDelivered,
        ).spec_step(SupervisorEvent::ChildExited(status)).spec_step(
            SupervisorEvent::ReadersJoined,
        ).spec_action() == SupervisorAction::Return(Err(SupervisorError::TimedOut)),
{
}

/// While the timeout is not exhausted a cadence tick only leads to another
/// poll: the child is never killed early.
pub proof fn lemma_tick_within_timeout_polls_again(s: Supervisor, elapsed_nanos: u128)
    requires
        s.phase is Waiting,
        !s.timeout_exhausted(elapsed_nanos),
    ensures
        s.spec_step(SupervisorEvent::TickElapsed { elapsed_nanos }).spec_action()
            == SupervisorAction::PollChild,
{
}

/// `TimedOut` is reported only if some cadence tick found the timeout
/// exhausted.
pub proof fn lemma_timed_out_only_after_exhausted_tick(
    timeout: Option<u64>,
    stderr_as_stdout: bool,
    events: Seq<SupervisorEvent>,
)
    ensures
        ({
            let start = Supervisor::initial(timeout, stderr_as_stdout);
            match start.run(events).phase {
                SupervisorPhase::Killing | SupervisorPhase::Reaping => exhausted_tick_observed(
                    start,
                    events,
                ),
                SupervisorPhase::Draining(result) | SupervisorPhase::Finished(result) => {
                    (result == Err::<ExitOutcome, _>(SupervisorError::TimedOut) || result == Err::<
                        ExitOutcome,
                        _,
                    >(SupervisorError::KillFailure)) ==> exhausted_tick_observed(start, events)
                },
                _ => true,
            }
        }),
    decreases events.len(),
{
    let start = Supervisor::initial(timeout, stderr_as_stdout);
    if events.len() > 0 {
        let earlier = events.drop_last();
        let before = start.run(earlier);
        let last = events.len() - 1;
        lemma_timed_out_only_after_exhausted_tick(timeout, stderr_as_stdout, earlier);
        lemma_run_keeps_configuration(start, earlier);
        if exhausted_tick_observed(start, earlier) {
            let i = choose|i: int|
                0 <= i < earlier.len() && (#[trigger] earlier[i] matches SupervisorEvent::TickElapsed {
                    elapsed_nanos,
                } && start.timeout_exhausted(elapsed_nanos));
            assert(events[i] == earlier[i]);
        } else if before.spec_step(events.last()).phase is Killing {
            assert(events[last] is TickElapsed);
        }
    }
}

/// When the tick of the given cadence interval falls, in nanoseconds since
/// the supervisor was created.
pub open spec fn tick_time(interval: nat) -> int {
    interval * WAIT_DURATION_SECS * NANOS_PER_SEC
}

/// What a child that never exits lets the supervisor observe over
/// `intervals` cadence intervals: every poll finds it running and every
/// wait ends with the tick.
pub open spec fn stubborn_child_events(intervals: nat) -> Seq<SupervisorEvent>
    decreases intervals,
{
    if intervals == 0 {
        Seq::empty()
    } else {
        stubborn_child_events((intervals - 1) as nat).push(SupervisorEvent::ChildRunning).push(
            SupervisorEvent::TickElapsed { elapsed_nanos: tick_time(intervals) as u128 },
        )
    }
}

/// A child that never exits is polled for as long as the ticks stay within
/// the timeout, and the forced kill is issued on the first tick beyond it:
/// not earlier, and no more than one cadence interval later.
pub proof fn lemma_stubborn_child_is_killed_on_first_tick_beyond_timeout(
    s: Supervisor,
    intervals: nat,
)
    requires
        s.phase is Polling,
        tick_time(intervals) <= u128::MAX,
    ensures
        intervals * WAIT_DURATION_SECS <= s.timeout_secs ==> s.run(
            stubborn_child_events(intervals),
        ).phase is Polling,
        intervals > 0 && (intervals - 1) * WAIT_DURATION_SECS <= s.timeout_secs < intervals
            * WAIT_DURATION_SECS ==> s.run(stubborn_child_events(intervals)).spec_action()
            == SupervisorAction::Kill,
    decreases intervals,
{
    if intervals > 0 {
        let earlier = stubborn_child_events((intervals - 1) as nat);
        let tick = SupervisorEvent::TickElapsed { elapsed_nanos: tick_time(intervals) as u128 };
        let polled = earlier.push(SupervisorEvent::ChildRunning);
        lemma_stubborn_child_is_killed_on_first_tick_beyond_timeout(s, (intervals - 1) as nat);
        lemma_run_keeps_configuration(s, earlier);
        assert(polled.drop_last() =~= earlier);
        assert(polled.push(tick).drop_last() =~= polled);
        assert(s.run(polled) == s.run(earlier).spec_step(SupervisorEvent::ChildRunning));
        assert(s.run(stubborn_child_events(intervals)) == s.run(polled).spec_step(tick));
    }
}

/// A shutdown that fires while the loop waits is answered at once with a
/// graceful termination request, and no wait lasts longer than one cadence
/// interval; afterwards the loop goes back to polling, so the timeout still
/// applies.
pub proof fn lemma_shutdown_requests_termination(s: Supervisor)
    requires
        s.phase is Waiting,
        !s.shutdown_requested,
    ensures
        s.spec_action() == (SupervisorAction::Wait {
            secs: WAIT_DURATION_SECS,
            watch_shutdown: true,
        }),
        s.spec_step(SupervisorEvent::ShutdownFired).spec_action() == SupervisorAction::Terminate,
        s.spec_step(SupervisorEvent::ShutdownFired).shutdown_requested,
        s.spec_step(SupervisorEvent::ShutdownFired).spec_step(
            SupervisorEvent::TerminateDelivered,
        ).spec_action() == SupervisorAction::PollChild,
        s.spec_step(SupervisorEvent::ShutdownFired).spec_step(
            SupervisorEvent::TerminateFailed,
        ).spec_action() == SupervisorAction::PollChild,
{
}

} // verus!
