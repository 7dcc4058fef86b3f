//! The scale controller: bring the workload to a replica count and wait,
//! within bounds, until it has got there; and do so around a backup, down
//! to zero before it and back up after it, whatever the backup's fate.

use crate::common::command::optional_text;
use crate::common::error::{BackupError, ConfigurationError};
use crate::k8s::client::{K8sClient, K8sError};
use crate::k8s::config::K8sConfig;
use vstd::prelude::*;

verus! {

/// Prefix of the environment variables that configure the controller.
pub const K8S_PREFIX: &'static str = "KUBERNETES_";

/// How often the replica count is polled after a scale request before the
/// controller gives up.
pub const SCALE_POLL_ATTEMPTS: u32 = 120;

/// Seconds between two polls of the replica count.
pub const SCALE_POLL_INTERVAL_SECS: u64 = 1;

/// Why a scale operation failed.
#[derive(Clone, Copy, Debug, PartialEq, Eq, Structural)]
pub enum ScaleError {
    /// Talking to the workload API failed.
    Client(K8sError),
    /// The workload did not reach the target within the polling bound;
    /// `replica_count` is what the last poll saw.
    ScaleTimeout { replica_count: i32 },
    /// An observation arrived that the current phase never asks for.
    UnexpectedEvent,
}

/// Where one scale operation stands.
#[derive(Clone, Copy, Debug, PartialEq, Eq)]
pub enum ScalePhase {
    /// The replica count before the operation is being read.
    ReadingCurrent,
    /// The scale request is being sent.
    Requesting,
    /// The replica count is being polled for the `attempt`-th time,
    /// counting from zero.
    Polling { attempt: u32 },
    /// Poll number `attempt` saw `replica_count`, not the target; the
    /// controller pauses before the next poll.
    Pausing { attempt: u32, replica_count: i32 },
    /// The operation is over.
    Finished(Result<i32, ScaleError>),
}

/// What the caller must do next on behalf of a scale operation.
#[derive(Clone, Copy, Debug, PartialEq, Eq)]
pub enum ScaleAction {
    /// Read the available replica count.
    GetReplicas,
    /// Ask for this many replicas.
    SetReplicas(i32),
    /// Wait this many seconds.
    Pause(u64),
    /// Hand this result back; nothing is left to do.
    Return(Result<i32, ScaleError>),
}

/// What the caller observed while carrying out an action.
#[derive(Clone, Copy, Debug, PartialEq, Eq)]
pub enum ScaleEvent {
    Replicas(i32),
    ReplicasFailed(K8sError),
    ScaleAccepted,
    ScaleRejected(K8sError),
    Paused,
}

/// One scale operation as a state machine: the caller performs
/// `next_action`, reports what happened through `step`, and repeats until
/// the action is `Return`.
#[derive(Clone, Copy, Debug, PartialEq, Eq)]
pub struct ScaleOperation {
    pub target_replicas: i32,
    pub phase: ScalePhase,
}

impl ScaleOperation {
    /// The state before anything has happened.
    pub open spec fn start(target_replicas: i32) -> ScaleOperation {
        ScaleOperation { target_replicas, phase: ScalePhase::ReadingCurrent }
    }

    /// Whether the poll counter is within the polling bound and a pause
    /// follows a poll that missed the target.
    pub open spec fn well_formed(self) -> bool {
        match self.phase {
            ScalePhase::Polling { attempt } => attempt < SCALE_POLL_ATTEMPTS,
            ScalePhase::Pausing { attempt, replica_count } => attempt < SCALE_POLL_ATTEMPTS
                && replica_count != self.target_replicas,
            _ => true,
        }
    }

    /// The action that the current phase asks for.
    pub open spec fn spec_action(self) -> ScaleAction {
        match self.phase {
            ScalePhase::ReadingCurrent => ScaleAction::GetReplicas,
            ScalePhase::Requesting => ScaleAction::SetReplicas(self.target_replicas),
            ScalePhase::Polling { .. } => ScaleAction::GetReplicas,
            ScalePhase::Pausing { .. } => ScaleAction::Pause(SCALE_POLL_INTERVAL_SECS),
            ScalePhase::Finished(result) => ScaleAction::Return(result),
        }
    }

    /// The phase that follows `self.phase` on `event`.
    pub open spec fn next_phase(self, event: ScaleEvent) -> ScalePhase {
        match (self.phase, event) {
            (ScalePhase::Finished(result), _) => ScalePhase::Finished(result),
            (ScalePhase::ReadingCurrent, ScaleEvent::Replicas(count)) => {
                if count == self.target_replicas {
                    ScalePhase::Finished(Ok(count))
                } else {
                    ScalePhase::Requesting
                }
            },
            (ScalePhase::ReadingCurrent, ScaleEvent::ReplicasFailed(error)) => ScalePhase::Finished(
                Err(ScaleError::Client(error)),
            ),
            (ScalePhase::Requesting, ScaleEvent::ScaleAccepted) => ScalePhase::Polling {
                attempt: 0,
            },
            (ScalePhase::Requesting, ScaleEvent::ScaleRejected(error)) => ScalePhase::Finished(
                Err(ScaleError::Client(error)),
            ),
            (ScalePhase::Polling { attempt }, ScaleEvent::Replicas(count)) => {
                if count == self.target_replicas {
                    ScalePhase::Finished(Ok(count))
                } else {
                    ScalePhase::Pausing { attempt, replica_count: count }
                }
            },
            (ScalePhase::Polling { .. }, ScaleEvent::ReplicasFailed(error)) => ScalePhase::Finished(
                Err(ScaleError::Client(error)),
            ),
            (ScalePhase::Pausing { attempt, replica_count }, ScaleEvent::Paused) => {
                if attempt + 1 < SCALE_POLL_ATTEMPTS {
                    ScalePhase::Polling { attempt: (attempt + 1) as u32 }
                } else {
                    ScalePhase::Finished(Err(ScaleError::ScaleTimeout { replica_count }))
                }
            },
            _ => ScalePhase::Finished(Err(ScaleError::UnexpectedEvent)),
        }
    }

    /// The state that follows `self` on `event`.
    pub open spec fn spec_step(self, event: ScaleEvent) -> ScaleOperation {
        ScaleOperation { target_replicas: self.target_replicas, phase: self.next_phase(event) }
    }

    /// The state reached from `self` after every event of `events`, in order.
    pub open spec fn run(self, events: Seq<ScaleEvent>) -> ScaleOperation
        decreases events.len(),
    {
        if events.len() == 0 {
            self
        } else {
            self.run(events.drop_last()).spec_step(events.last())
        }
    }

    /// An upper bound on the actions still to be carried out.
    pub open spec fn remaining_actions(self) -> nat {
        match self.phase {
            ScalePhase::ReadingCurrent => 2 * SCALE_POLL_ATTEMPTS as nat + 2,
            ScalePhase::Requesting => 2 * SCALE_POLL_ATTEMPTS as nat + 1,
            ScalePhase::Polling { attempt } => (2 * (SCALE_POLL_ATTEMPTS - attempt)) as nat,
            ScalePhase::Pausing { attempt, .. } => (2 * (SCALE_POLL_ATTEMPTS - attempt) - 1) as nat,
            ScalePhase::Finished(_) => 0,
        }
    }

    /// A scale operation towards `target_replicas`.
    pub fn new(target_replicas: i32) -> (operation: ScaleOperation)
        ensures
            operation == ScaleOperation::start(target_replicas),
    {
        ScaleOperation { target_replicas, phase: ScalePhase::ReadingCurrent }
    }

    /// What the caller has to do next.
    pub fn next_action(&self) -> (action: ScaleAction)
        ensures
            action == self.spec_action(),
    {
        match self.phase {
            ScalePhase::ReadingCurrent => ScaleAction::GetReplicas,
            ScalePhase::Requesting => ScaleAction::SetReplicas(self.target_replicas),
            ScalePhase::Polling { .. } => ScaleAction::GetReplicas,
            ScalePhase::Pausing { .. } => ScaleAction::Pause(SCALE_POLL_INTERVAL_SECS),
            ScalePhase::Finished(result) => ScaleAction::Return(result),
        }
    }

    /// Takes in what the caller observed while carrying out `next_action`.
    pub fn step(&mut self, event: ScaleEvent)
        ensures
            *final(self) == old(self).spec_step(event),
            old(self).well_formed() ==> final(self).well_formed(),
            old(self).well_formed() && !(old(self).phase is Finished)
                ==> final(self).remaining_actions() < old(self).remaining_actions(),
    {
        let unexpected = ScalePhase::Finished(Err(ScaleError::UnexpectedEvent));
        let target = self.target_replicas;
        let phase = match self.phase {
            ScalePhase::Finished(result) => ScalePhase::Finished(result),
            ScalePhase::ReadingCurrent => match event {
                ScaleEvent::Replicas(count) => if count == target {
                    ScalePhase::Finished(Ok(count))
                } else {
                    ScalePhase::Requesting
                },
                ScaleEvent::ReplicasFailed(error) => ScalePhase::Finished(
                    Err(ScaleError::Client(error)),
                ),
                _ => unexpected,
            },
            ScalePhase::Requesting => match event {
                ScaleEvent::ScaleAccepted => ScalePhase::Polling { attempt: 0 },
                ScaleEvent::ScaleRejected(error) => ScalePhase::Finished(
                    Err(ScaleError::Client(error)),
                ),
                _ => unexpected,
            },
            ScalePhase::Polling { attempt } => match event {
                ScaleEvent::Replicas(count) => if count == target {
                    ScalePhase::Finished(Ok(count))
                } else {
                    ScalePhase::Pausing { attempt, replica_count: count }
                },
                ScaleEvent::ReplicasFailed(error) => ScalePhase::Finished(
                    Err(ScaleError::Client(error)),
                ),
                _ => unexpected,
            },
            ScalePhase::Pausing { attempt, replica_count } => match event {
                ScaleEvent::Paused => if attempt < SCALE_POLL_ATTEMPTS - 1 {
                    ScalePhase::Polling { attempt: attempt + 1 }
                } else {
                    ScalePhase::Finished(Err(ScaleError::ScaleTimeout { replica_count }))
                },
                _ => unexpected,
            },
        };
        self.phase = phase;
    }
}

/// A workload that is already at the target is left alone: the operation
/// ends on the first reading, before any scale request or poll.
pub proof fn lemma_scale_is_noop_at_target(target_replicas: i32)
    ensures
        ScaleOperation::start(target_replicas).spec_action() == ScaleAction::GetReplicas,
        ScaleOperation::start(target_replicas).spec_step(
            ScaleEvent::Replicas(target_replicas),
        ).spec_action() == ScaleAction::Return(Ok(target_replicas)),
{
}

/// Whether the machine was asked to send a scale request at some point of
/// `events`.
pub open spec fn scale_requested(start: ScaleOperation, events: Seq<ScaleEvent>) -> bool {
    exists|k: int| 0 <= k <= events.len() && (#[trigger] start.run(events.take(k))).phase is Requesting
}

/// If the first reading already shows the target, then however the run
/// goes on, no scale request is ever asked for, no pause is taken, and the
/// result is the target.
pub proof fn lemma_no_request_at_target(target_replicas: i32, events: Seq<ScaleEvent>)
    requires
        events.len() > 0,
        events[0] == ScaleEvent::Replicas(target_replicas),
    ensures
        ScaleOperation::start(target_replicas).run(events).phase == ScalePhase::Finished(
            Ok(target_replicas),
        ),
        !scale_requested(ScaleOperation::start(target_replicas), events),
    decreases events.len(),
{
    let start = ScaleOperation::start(target_replicas);
    if events.len() == 1 {
        assert(events.drop_last() =~= Seq::empty());
        assert(start.run(events.drop_last()) == start);
    } else {
        lemma_no_request_at_target(target_replicas, events.drop_last());
    }
    assert forall|k: int| 0 <= k <= events.len() implies !((#[trigger] start.run(
        events.take(k),
    )).phase is Requesting) by {
        if k == events.len() {
            assert(events.take(k) =~= events);
        } else if k == 0 {
            assert(events.take(0) =~= Seq::empty());
        } else {
            assert(events.take(k) =~= events.drop_last().take(k));
            assert(!scale_requested(start, events.drop_last()));
        }
    }
}

/// A scale operation keeps its target and its poll counter within bounds,
/// succeeds only with the target as its result, and gives up only with a
/// count that is not the target.
pub proof fn lemma_scale_result(start: ScaleOperation, events: Seq<ScaleEvent>)
    requires
        start.well_formed(),
        !(start.phase is Finished),
    ensures
        start.run(events).well_formed(),
        start.run(events).target_replicas == start.target_replicas,
        start.run(events).phase matches ScalePhase::Finished(Ok(count)) ==> count
            == start.target_replicas,
        start.run(events).phase matches ScalePhase::Finished(
            Err(ScaleError::ScaleTimeout { replica_count }),
        ) ==> replica_count != start.target_replicas,
    decreases events.len(),
{
    if events.len() > 0 {
        lemma_scale_result(start, events.drop_last());
    }
}

/// The fewest events after which a run can stand in `phase`.
pub open spec fn least_events(phase: ScalePhase) -> nat {
    match phase {
        ScalePhase::ReadingCurrent => 0,
        ScalePhase::Requesting => 1,
        ScalePhase::Polling { attempt } => 2 + 2 * attempt as nat,
        ScalePhase::Pausing { attempt, .. } => 3 + 2 * attempt as nat,
        ScalePhase::Finished(Err(ScaleError::ScaleTimeout { .. })) => 2 + 2
            * SCALE_POLL_ATTEMPTS as nat,
        ScalePhase::Finished(_) => 1,
    }
}

/// The controller gives up with `ScaleTimeout` only after one request and
/// the full number of polls, each followed by its pause.
pub proof fn lemma_scale_timeout_only_after_all_polls(
    target_replicas: i32,
    events: Seq<ScaleEvent>,
)
    ensures
        ScaleOperation::start(target_replicas).run(events).well_formed(),
        events.len() >= least_events(ScaleOperation::start(target_replicas).run(events).phase),
    decreases events.len(),
{
    if events.len() > 0 {
        lemma_scale_timeout_only_after_all_polls(target_replicas, events.drop_last());
    }
}

/// Whether `result` is what a scale operation towards `target_replicas`
/// hands back on some sequence of answers from the workload API.
pub open spec fn is_scale_result(target_replicas: i32, result: Result<i32, ScaleError>) -> bool {
    exists|events: Seq<ScaleEvent>|
        (#[trigger] ScaleOperation::start(target_replicas).run(events)).phase
            == ScalePhase::Finished(result)
}

/// Brings the deployment to `target_replicas`: reads the current count,
/// and unless it is the target already, sends one scale request and polls
/// once per pause until the target is seen or the attempts are used up.
/// The result is that of `ScaleOperation` on what the client answered.
pub fn scale<C: K8sClient>(
    namespace: &str,
    config: &K8sConfig,
    client: &C,
    target_replicas: i32,
) -> (result: Result<i32, ScaleError>)
    ensures
        is_scale_result(target_replicas, result),
        result matches Ok(count) ==> count == target_replicas,
        result matches Err(ScaleError::ScaleTimeout { replica_count }) ==> replica_count
            != target_replicas,
        result != Err::<i32, _>(ScaleError::UnexpectedEvent),
{
    let name = config.service_deployment_name.as_str();
    let mut operation = ScaleOperation::new(target_replicas);
    let ghost start = operation;
    let ghost mut events: Seq<ScaleEvent> = Seq::empty();
    loop
        invariant
            start == ScaleOperation::start(target_replicas),
            operation == start.run(events),
            operation.well_formed(),
            operation.phase != ScalePhase::Finished(Err(ScaleError::UnexpectedEvent)),
        decreases operation.remaining_actions(),
    {
        let event = match operation.next_action() {
            ScaleAction::Return(result) => {
                proof {
                    lemma_scale_result(start, events);
                }
                return result;
            },
            ScaleAction::GetReplicas => match client.get_available_replicas(namespace, name) {
                Ok(count) => ScaleEvent::Replicas(count),
                Err(error) => ScaleEvent::ReplicasFailed(error),
            },
            ScaleAction::SetReplicas(count) => match client.scale(namespace, name, count) {
                Ok(()) => ScaleEvent::ScaleAccepted,
                Err(error) => ScaleEvent::ScaleRejected(error),
            },
            ScaleAction::Pause(seconds) => {
                client.pause(seconds);
                ScaleEvent::Paused
            },
        };
        operation.step(event);
        proof {
            assert(events.push(event).drop_last() =~= events);
            events = events.push(event);
        }
    }
}

/// Scales the deployment down to zero replicas.
pub fn scale_down<C: K8sClient>(namespace: &str, config: &K8sConfig, client: &C) -> (result: Result<
    i32,
    ScaleError,
>)
    ensures
        is_scale_result(0, result),
        result matches Ok(count) ==> count == 0,
        result matches Err(ScaleError::ScaleTimeout { replica_count }) ==> replica_count != 0,
        result != Err::<i32, _>(ScaleError::UnexpectedEvent),
{
    scale(namespace, config, client, 0)
}

/// Scales the deployment back up to `target_replicas`.
pub fn scale_up<C: K8sClient>(
    namespace: &str,
    config: &K8sConfig,
    client: &C,
    target_replicas: i32,
) -> (result: Result<i32, ScaleError>)
    ensures
        is_scale_result(target_replicas, result),
        result matches Ok(count) ==> count == target_replicas,
        result matches Err(ScaleError::ScaleTimeout { replica_count }) ==> replica_count
            != target_replicas,
        result != Err::<i32, _>(ScaleError::UnexpectedEvent),
{
    scale(namespace, config, client, target_replicas)
}

/// The mounted file to read for the namespace: the configured one, but
/// only if no namespace is configured outright.
pub fn namespace_file_to_read(config: &K8sConfig) -> (path: Option<&str>)
    ensures
        match path {
            Some(p) => {
                &&& config.service_namespace is None
                &&& config.namespace_file_path matches Some(configured)
                &&& p@ == configured@
            },
            None => config.service_namespace is Some || config.namespace_file_path is None,
        },
{
    if config.service_namespace.is_some() {
        return None;
    }
    match &config.namespace_file_path {
        Some(path) => Some(path.as_str()),
        None => None,
    }
}

/// The namespace that the mounted file gives: what was read from it, if a
/// file is configured and could be read.
pub fn get_namespace(config: &K8sConfig, namespace_file: Option<String>) -> (namespace: Option<
    String,
>)
    ensures
        namespace == if config.namespace_file_path is Some {
            namespace_file
        } else {
            None
        },
{
    if config.namespace_file_path.is_some() {
        namespace_file
    } else {
        None
    }
}

/// The namespace of the deployment: the configured one first, else what
/// the mounted file gives; with neither there is none.
pub open spec fn spec_resolve_namespace(
    config: &K8sConfig,
    namespace_file: Option<Seq<char>>,
) -> Result<Seq<char>, ConfigurationError> {
    match config.service_namespace {
        Some(namespace) => Ok(namespace@),
        None => match namespace_file {
            Some(content) if config.namespace_file_path is Some => Ok(content),
            _ => Err(ConfigurationError::NamespaceUnresolved),
        },
    }
}

/// Resolves the namespace of the deployment. `namespace_file` is the
/// content of the mounted namespace file, where it was read.
pub fn resolve_namespace(config: &K8sConfig, namespace_file: Option<String>) -> (namespace: Result<
    String,
    ConfigurationError,
>)
    ensures
        match spec_resolve_namespace(config, optional_text(namespace_file)) {
            Ok(text) => namespace matches Ok(found) && found@ == text,
            Err(error) => namespace == Err::<String, _>(error),
        },
{
    match &config.service_namespace {
        Some(namespace) => Ok(namespace.clone()),
        None => match get_namespace(config, namespace_file) {
            Some(content) => Ok(content),
            None => Err(ConfigurationError::NamespaceUnresolved),
        },
    }
}

/// What happened while a backup ran inside a scaled-down window.
#[derive(Clone, Copy, Debug, PartialEq, Eq)]
pub struct ScaledBackup {
    /// The replicas available before anything was changed; `None` if that
    /// could not be found out.
    pub original_replicas: Option<i32>,
    /// How scaling down to zero went, if it was attempted.
    pub scale_down: Option<Result<i32, ScaleError>>,
    /// How the backup went, if it was run.
    pub backup: Option<Result<(), BackupError>>,
    /// How scaling back up went, if it was attempted.
    pub scale_up: Option<Result<i32, ScaleError>>,
    /// What is surfaced to the caller.
    pub result: Result<(), BackupError>,
}

/// What is surfaced once the workload had to be scaled: a failed
/// scale-down first, then a failed backup, and a failed scale-up only if
/// the backup itself succeeded.
pub open spec fn spec_surfaced_result(
    scale_down: Result<i32, ScaleError>,
    backup: Option<Result<(), BackupError>>,
    scale_up: Result<i32, ScaleError>,
) -> Result<(), BackupError> {
    match scale_down {
        Err(error) => Err(BackupError::Scale(error)),
        Ok(_) => match backup {
            Some(Err(error)) => Err(error),
            _ => match scale_up {
                Err(error) => Err(BackupError::Scale(error)),
                Ok(_) => Ok(()),
            },
        },
    }
}

/// Decides what is surfaced to the caller once the workload had to be
/// scaled. A scale-up failure never masks a backup failure, and is raised
/// if the backup succeeded.
pub fn surfaced_result(
    scale_down: Result<i32, ScaleError>,
    backup: Option<Result<(), BackupError>>,
    scale_up: Result<i32, ScaleError>,
) -> (result: Result<(), BackupError>)
    ensures
        result == spec_surfaced_result(scale_down, backup, scale_up),
{
    match scale_down {
        Err(error) => Err(BackupError::Scale(error)),
        Ok(_) => match backup {
            Some(Err(error)) => Err(error),
            _ => match scale_up {
                Err(error) => Err(BackupError::Scale(error)),
                Ok(_) => Ok(()),
            },
        },
    }
}

impl ScaledBackup {
    /// Whether the record hangs together: nothing is touched before the
    /// original count is known; a workload already at zero is neither
    /// scaled down nor up; any other is scaled down, the backup runs if
    /// that worked, and scaling back up to the original count is attempted
    /// whatever came before.
    pub open spec fn coherent(self) -> bool {
        match self.original_replicas {
            None => self.scale_down is None && self.backup is None && self.scale_up is None
                && self.result is Err,
            Some(original) => if original == 0 {
                &&& self.scale_down is None
                &&& self.scale_up is None
                &&& self.backup matches Some(backup)
                &&& self.result == backup
            } else {
                &&& self.scale_down matches Some(down)
                &&& self.scale_up matches Some(up)
                &&& is_scale_result(0, down)
                &&& is_scale_result(original, up)
                &&& down is Ok <==> self.backup is Some
                &&& self.result == spec_surfaced_result(down, self.backup, up)
            },
        }
    }
}

/// A failed backup does not keep the workload down: scaling back up to the
/// original count is still attempted, once, and the backup's own error is
/// what is surfaced, whether scaling up then worked or not.
pub proof fn lemma_backup_failure_still_scales_up(report: ScaledBackup, error: BackupError)
    requires
        report.coherent(),
        report.backup == Some(Err::<(), _>(error)),
    ensures
        report.result == Err::<(), _>(error),
        report.original_replicas matches Some(original) ==> (original != 0 ==> (report.scale_up
            matches Some(up) && is_scale_result(original, up))),
{
}

/// A workload that has no replicas to begin with is neither scaled down
/// nor up: the backup runs at once and its result is the run's.
pub proof fn lemma_idle_workload_is_left_alone(report: ScaledBackup)
    requires
        report.coherent(),
        report.original_replicas == Some(0i32),
    ensures
        report.scale_down is None,
        report.scale_up is None,
        report.backup is Some,
        report.backup == Some(report.result),
{
}

/// A scale-up that fails after a successful backup is raised, not lost.
pub proof fn lemma_scale_up_failure_is_raised(report: ScaledBackup, error: ScaleError)
    requires
        report.coherent(),
        report.backup == Some(Ok::<(), BackupError>(())),
        report.scale_up == Some(Err::<i32, _>(error)),
    ensures
        report.result == Err::<(), _>(BackupError::Scale(error)),
{
}

/// Runs `inner`, the backup, while the deployment is scaled down to zero,
/// and scales it back to its original replica count afterwards, whether
/// the backup succeeded or not. A deployment that is at zero already is
/// left alone. Without a namespace nothing is attempted at all.
pub fn scale_deployment<C: K8sClient, F: FnOnce() -> Result<(), BackupError>>(
    config: &K8sConfig,
    client: &C,
    namespace_file: Option<String>,
    inner: F,
) -> (report: ScaledBackup)
    requires
        call_requires(inner, ()),
    ensures
        report.coherent(),
        report.backup matches Some(backup) ==> call_ensures(inner, (), backup),
        spec_resolve_namespace(config, optional_text(namespace_file)) matches Err(error)
            ==> report.original_replicas is None && report.result == Err::<(), _>(
            BackupError::Configuration(error),
        ),
        spec_resolve_namespace(config, optional_text(namespace_file)) is Ok
            && report.original_replicas is None ==> report.result matches Err(
            BackupError::Scale(ScaleError::Client(_)),
        ),
{
    let failed_early = ScaledBackup {
        original_replicas: None,
        scale_down: None,
        backup: None,
        scale_up: None,
        result: Ok(()),
    };
    let service_namespace = match resolve_namespace(config, namespace_file) {
        Ok(namespace) => namespace,
        Err(error) => {
            return ScaledBackup { result: Err(BackupError::Configuration(error)), ..failed_early };
        },
    };
    let namespace = service_namespace.as_str();
    let name = config.service_deployment_name.as_str();
    let replica_count = match client.get_available_replicas(namespace, name) {
        Ok(count) => count,
        Err(error) => {
            return ScaledBackup {
                result: Err(BackupError::Scale(ScaleError::Client(error))),
                ..failed_early
            };
        },
    };
    if replica_count == 0 {
        let backup = inner();
        return ScaledBackup {
            original_replicas: Some(0),
            scale_down: None,
            backup: Some(backup),
            scale_up: None,
            result: backup,
        };
    }
    let down = scale_down(namespace, config, client);
    let backup = match down {
        Ok(_) => Some(inner()),
        Err(_) => None,
    };
    let up = scale_up(namespace, config, client, replica_count);
    ScaledBackup {
        original_replicas: Some(replica_count),
        scale_down: Some(down),
        backup,
        scale_up: Some(up),
        result: surfaced_result(down, backup, up),
    }
}

} // verus!
