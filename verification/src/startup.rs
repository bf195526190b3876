//! The startup sequence: resolve how to launch the backend, launch it, and
//! wait until it is reachable.
//!
//! The sequence is a machine that the host drives. In each state it asks for
//! one thing (the working directory, a look at the disk, a spawn, a
//! connection attempt, a pause); the host does it and reports what happened.
//! No failure stops the sequence short of an outcome: each one ends it with
//! an outcome that carries a warning.

use crate::error::SupervisorError;
use crate::path::DirPath;
use crate::prober::{
    ProbeAction, ProbeActionView, ProbeEvent, ProbePhase, Prober, ProberState, ReadinessTarget,
    ReadinessTargetView,
};
use crate::resolver::{
    artifact_path, artifact_path_of, plan_for, project_root, project_root_of, select_plan,
    LaunchPlan, LaunchPlanView,
};
use vstd::prelude::*;

verus! {

/// How the startup sequence ended.
#[derive(Clone, Copy, Debug, PartialEq, Eq, Structural)]
pub enum StartupOutcome {
    /// The backend was launched and its handle is the host's to store;
    /// `ready` says whether it answered before the attempts ran out.
    Managed { ready: bool },
    /// No backend was launched: one is assumed to be running already.
    External { cause: SupervisorError },
}

impl StartupOutcome {
    /// The failure to warn of, if the sequence met one.
    pub open spec fn warning_of(self) -> Option<SupervisorError> {
        match self {
            StartupOutcome::Managed { ready } => if ready {
                None
            } else {
                Some(SupervisorError::ReadinessTimeout)
            },
            StartupOutcome::External { cause } => Some(cause),
        }
    }

    /// Whether the backend was launched by the supervisor, so that there is
    /// a process handle to put into the lifecycle store.
    pub open spec fn is_managed(self) -> bool {
        self is Managed
    }

    /// The failure to warn of, if the sequence met one.
    pub fn warning(&self) -> (warning: Option<SupervisorError>)
        ensures
            warning == self.warning_of(),
    {
        match self {
            StartupOutcome::Managed { ready } => if *ready {
                None
            } else {
                Some(SupervisorError::ReadinessTimeout)
            },
            StartupOutcome::External { cause } => Some(*cause),
        }
    }

    /// Whether there is a process handle to put into the lifecycle store.
    pub fn has_handle(&self) -> (found: bool)
        ensures
            found == self.is_managed(),
    {
        match self {
            StartupOutcome::Managed { .. } => true,
            StartupOutcome::External { .. } => false,
        }
    }
}

/// What the host reports back to the startup sequence.
#[derive(Debug)]
pub enum StartupEvent {
    /// The working directory was read.
    DirectoryFound(DirPath),
    /// The working directory could not be read.
    DirectoryUnavailable,
    /// The disk was asked for the pre-built server.
    ArtifactProbed { exists: bool },
    /// The backend process was spawned.
    Spawned,
    /// The backend process could not be spawned.
    SpawnFailed,
    /// An answer to a request of the readiness prober.
    Probe(ProbeEvent),
}

/// A startup event, as plain values.
pub ghost enum StartupEventView {
    DirectoryFound(Seq<Seq<char>>),
    DirectoryUnavailable,
    ArtifactProbed { exists: bool },
    Spawned,
    SpawnFailed,
    Probe(ProbeEvent),
}

impl View for StartupEvent {
    type V = StartupEventView;

    open spec fn view(&self) -> StartupEventView {
        match self {
            StartupEvent::DirectoryFound(cwd) => StartupEventView::DirectoryFound(cwd@),
            StartupEvent::DirectoryUnavailable => StartupEventView::DirectoryUnavailable,
            StartupEvent::ArtifactProbed { exists } => StartupEventView::ArtifactProbed {
                exists: *exists,
            },
            StartupEvent::Spawned => StartupEventView::Spawned,
            StartupEvent::SpawnFailed => StartupEventView::SpawnFailed,
            StartupEvent::Probe(event) => StartupEventView::Probe(*event),
        }
    }
}

/// What the startup sequence asks of the host.
#[derive(Debug, PartialEq, Eq)]
pub enum StartupAction {
    /// Read the working directory of the process.
    ReadWorkingDirectory,
    /// Look whether this path exists on disk.
    ProbeArtifact(DirPath),
    /// Spawn the backend as this plan says.
    Spawn(LaunchPlan),
    /// Do what the readiness prober asks: connect once, or pause.
    Probe(ProbeAction),
    /// Nothing more: the sequence has ended.
    Finish(StartupOutcome),
}

/// A startup action, as plain values.
pub ghost enum StartupActionView {
    ReadWorkingDirectory,
    ProbeArtifact(Seq<Seq<char>>),
    Spawn(LaunchPlanView),
    Probe(ProbeActionView),
    Finish(StartupOutcome),
}

impl View for StartupAction {
    type V = StartupActionView;

    open spec fn view(&self) -> StartupActionView {
        match self {
            StartupAction::ReadWorkingDirectory => StartupActionView::ReadWorkingDirectory,
            StartupAction::ProbeArtifact(path) => StartupActionView::ProbeArtifact(path@),
            StartupAction::Spawn(plan) => StartupActionView::Spawn(plan@),
            StartupAction::Probe(action) => StartupActionView::Probe(action@),
            StartupAction::Finish(outcome) => StartupActionView::Finish(*outcome),
        }
    }
}

/// How far the startup sequence has come.
pub ghost enum StageView {
    /// The working directory is asked for.
    AwaitingDirectory,
    /// The project root is known; the disk is asked for the pre-built server.
    AwaitingArtifact { root: Seq<Seq<char>> },
    /// The launch plan is made; the spawn is asked for.
    AwaitingSpawn { plan: LaunchPlanView },
    /// The backend runs; the prober looks for it.
    Probing,
    /// The sequence has ended.
    Finished { outcome: StartupOutcome },
}

/// The state of the startup sequence: how far it has come, and its prober.
pub ghost struct StartupState {
    pub stage: StageView,
    pub prober: ProberState,
}

/// The stage that follows a spawn or a prober step: the outcome once the
/// prober has ended, probing until then.
pub open spec fn stage_of_probe(prober: ProberState) -> StageView {
    match prober.phase {
        ProbePhase::Ready => StageView::Finished { outcome: StartupOutcome::Managed { ready: true } },
        ProbePhase::TimedOut => StageView::Finished {
            outcome: StartupOutcome::Managed { ready: false },
        },
        _ => StageView::Probing,
    }
}

impl StartupState {
    /// The state in which the sequence begins.
    pub open spec fn initial(target: ReadinessTargetView) -> StartupState {
        StartupState { stage: StageView::AwaitingDirectory, prober: ProberState::initial(target) }
    }

    /// The state after the host reported `event`.
    ///
    /// An unknown working directory and a failed spawn end the sequence
    /// without a backend of its own. An event that does not answer the
    /// pending action changes nothing.
    pub open spec fn next(self, event: StartupEventView) -> StartupState {
        match (self.stage, event) {
            (StageView::AwaitingDirectory, StartupEventView::DirectoryFound(cwd)) => StartupState {
                stage: StageView::AwaitingArtifact { root: project_root_of(cwd) },
                ..self
            },
            (StageView::AwaitingDirectory, StartupEventView::DirectoryUnavailable) => StartupState {
                stage: StageView::Finished {
                    outcome: StartupOutcome::External { cause: SupervisorError::Environment },
                },
                ..self
            },
            (
                StageView::AwaitingArtifact { root },
                StartupEventView::ArtifactProbed { exists },
            ) => StartupState {
                stage: StageView::AwaitingSpawn { plan: plan_for(root, exists) },
                ..self
            },
            (StageView::AwaitingSpawn { plan }, StartupEventView::Spawned) => StartupState {
                stage: stage_of_probe(self.prober),
                ..self
            },
            (StageView::AwaitingSpawn { plan }, StartupEventView::SpawnFailed) => StartupState {
                stage: StageView::Finished {
                    outcome: StartupOutcome::External { cause: SupervisorError::Spawn },
                },
                ..self
            },
            (StageView::Probing, StartupEventView::Probe(probe_event)) => StartupState {
                stage: stage_of_probe(self.prober.next(probe_event)),
                prober: self.prober.next(probe_event),
            },
            _ => self,
        }
    }

    /// What the host is to do in this state.
    pub open spec fn pending(self) -> StartupActionView {
        match self.stage {
            StageView::AwaitingDirectory => StartupActionView::ReadWorkingDirectory,
            StageView::AwaitingArtifact { root } => StartupActionView::ProbeArtifact(
                artifact_path_of(root),
            ),
            StageView::AwaitingSpawn { plan } => StartupActionView::Spawn(plan),
            StageView::Probing => StartupActionView::Probe(self.prober.pending()),
            StageView::Finished { outcome } => StartupActionView::Finish(outcome),
        }
    }

    /// How the sequence ended, once it has.
    pub open spec fn outcome(self) -> Option<StartupOutcome> {
        match self.stage {
            StageView::Finished { outcome } => Some(outcome),
            _ => None,
        }
    }

    /// Whether `event` reports on the action that is pending.
    pub open spec fn answered_by(self, event: StartupEventView) -> bool {
        match (self.stage, event) {
            (StageView::AwaitingDirectory, StartupEventView::DirectoryFound(_)) => true,
            (StageView::AwaitingDirectory, StartupEventView::DirectoryUnavailable) => true,
            (StageView::AwaitingArtifact { .. }, StartupEventView::ArtifactProbed { .. }) => true,
            (StageView::AwaitingSpawn { .. }, StartupEventView::Spawned) => true,
            (StageView::AwaitingSpawn { .. }, StartupEventView::SpawnFailed) => true,
            (StageView::Probing, StartupEventView::Probe(probe_event)) => self.prober.answered_by(
                probe_event,
            ),
            _ => false,
        }
    }

    /// The greatest number of answers that the sequence can still take in
    /// before it ends.
    pub open spec fn remaining(self) -> nat {
        match self.stage {
            StageView::AwaitingDirectory => 3 + self.prober.remaining(),
            StageView::AwaitingArtifact { .. } => 2 + self.prober.remaining(),
            StageView::AwaitingSpawn { .. } => 1 + self.prober.remaining(),
            StageView::Probing => self.prober.remaining(),
            StageView::Finished { .. } => 0,
        }
    }

    /// What holds of every state that the sequence can be in: the prober is
    /// untouched until the backend was spawned, works while the sequence
    /// probes, and has ended as the outcome says.
    pub open spec fn valid(self) -> bool {
        &&& self.prober.valid()
        &&& match self.stage {
            StageView::Probing => !self.prober.finished(),
            StageView::Finished { outcome: StartupOutcome::Managed { ready } } => {
                &&& self.prober.finished()
                &&& ready == (self.prober.phase == ProbePhase::Ready)
            },
            _ => self.prober == ProberState::initial(self.prober.target),
        }
    }

    /// The state after the host reported `events`, one after the other.
    pub open spec fn run(self, events: Seq<StartupEventView>) -> StartupState
        decreases events.len(),
    {
        if events.len() == 0 {
            self
        } else {
            self.run(events.drop_last()).next(events.last())
        }
    }
}

/// The sequence begins in a valid state.
pub proof fn lemma_initial_valid_startup(target: ReadinessTargetView)
    ensures
        StartupState::initial(target).valid(),
{
}

/// No event leads from a valid state to one that is not, and none changes
/// the target of the prober.
pub proof fn lemma_next_valid_startup(state: StartupState, event: StartupEventView)
    requires
        state.valid(),
    ensures
        state.next(event).valid(),
        state.next(event).prober.target == state.prober.target,
{
}

/// Whatever the host reports, and in whatever order: the prober never
/// counts more attempts than its target allows nor more pauses than lie
/// between them, and a sequence that ended without a backend of its own
/// has attempted no connection and made no pause.
pub proof fn lemma_startup_bounded(target: ReadinessTargetView, events: Seq<StartupEventView>)
    ensures
        StartupState::initial(target).run(events).valid(),
        StartupState::initial(target).run(events).prober.target == target,
        StartupState::initial(target).run(events).prober.attempts <= target.max_attempts,
        target.max_attempts >= 1 ==> StartupState::initial(target).run(events).prober.sleeps
            <= target.max_attempts - 1,
        target.max_attempts == 0 ==> StartupState::initial(target).run(events).prober.sleeps == 0,
        StartupState::initial(target).run(events).stage matches StageView::Finished {
            outcome: StartupOutcome::External { cause },
        } ==> {
            &&& StartupState::initial(target).run(events).prober.attempts == 0
            &&& StartupState::initial(target).run(events).prober.sleeps == 0
            &&& (cause == SupervisorError::Environment || cause == SupervisorError::Spawn)
        },
    decreases events.len(),
{
    if events.len() > 0 {
        lemma_startup_bounded(target, events.drop_last());
    }
}

/// The launch resolver in one piece. From a working directory that was
/// found, the sequence asks for a look at the place of the pre-built server
/// below the project root, and then for the spawn of the plan that fits
/// what was seen there. Without a working directory it ends at once,
/// launching nothing.
pub proof fn lemma_resolution(
    target: ReadinessTargetView,
    cwd: Seq<Seq<char>>,
    artifact_exists: bool,
)
    ensures
        StartupState::initial(target).pending() == StartupActionView::ReadWorkingDirectory,
        StartupState::initial(target).next(StartupEventView::DirectoryFound(cwd)).pending()
            == StartupActionView::ProbeArtifact(artifact_path_of(project_root_of(cwd))),
        StartupState::initial(target).next(StartupEventView::DirectoryFound(cwd)).next(
            StartupEventView::ArtifactProbed { exists: artifact_exists },
        ).pending() == StartupActionView::Spawn(plan_for(project_root_of(cwd), artifact_exists)),
        StartupState::initial(target).next(StartupEventView::DirectoryUnavailable).pending()
            == StartupActionView::Finish(
            StartupOutcome::External { cause: SupervisorError::Environment },
        ),
{
}

/// What follows the spawn. A failed spawn ends the sequence without a
/// backend of its own and leaves the prober untouched. A successful one
/// hands over to the prober, or ends the sequence as not ready where the
/// target allows no attempt.
pub proof fn lemma_after_spawn(state: StartupState)
    requires
        state.valid(),
        state.stage is AwaitingSpawn,
    ensures
        state.next(StartupEventView::SpawnFailed) == (StartupState {
            stage: StageView::Finished {
                outcome: StartupOutcome::External { cause: SupervisorError::Spawn },
            },
            prober: ProberState::initial(state.prober.target),
        }),
        state.prober.target.max_attempts >= 1 ==> state.next(StartupEventView::Spawned).pending()
            == StartupActionView::Probe(
            ProbeActionView::Connect {
                host: state.prober.target.host,
                port: state.prober.target.port,
            },
        ),
        state.prober.target.max_attempts == 0 ==> state.next(StartupEventView::Spawned).pending()
            == StartupActionView::Finish(StartupOutcome::Managed { ready: false }),
{
}

/// Each answer to the pending action brings the end of the sequence
/// nearer, so that startup ends, whatever fails, after at most three
/// answers before the probe and those of the probe itself.
pub proof fn lemma_startup_progress(state: StartupState, event: StartupEventView)
    requires
        state.valid(),
        state.answered_by(event),
    ensures
        state.next(event).remaining() < state.remaining(),
        state.remaining() <= StartupState::initial(state.prober.target).remaining(),
        StartupState::initial(state.prober.target).remaining() == 3 + ProberState::initial(
            state.prober.target,
        ).remaining(),
{
}

/// Only a sequence that has ended has nothing left to take in, and only it
/// asks the host to finish. While the sequence probes it asks the host for
/// the work of the prober, never for its end.
pub proof fn lemma_ended_iff_nothing_remains(state: StartupState)
    requires
        state.valid(),
    ensures
        state.stage is Finished <==> state.remaining() == 0,
        state.stage is Finished <==> state.pending() is Finish,
        state.pending() matches StartupActionView::Probe(request) ==> !(request is Finish),
{
}

/// Once the sequence has ended, no event changes its state.
pub proof fn lemma_finished_startup_is_final(state: StartupState, event: StartupEventView)
    requires
        state.stage is Finished,
    ensures
        state.next(event) == state,
{
}

/// How far the program has come, as it holds it.
#[derive(Debug)]
enum Stage {
    AwaitingDirectory,
    AwaitingArtifact { root: DirPath },
    AwaitingSpawn { plan: LaunchPlan },
    Probing,
    Finished { outcome: StartupOutcome },
}

impl View for Stage {
    type V = StageView;

    closed spec fn view(&self) -> StageView {
        match self {
            Stage::AwaitingDirectory => StageView::AwaitingDirectory,
            Stage::AwaitingArtifact { root } => StageView::AwaitingArtifact { root: root@ },
            Stage::AwaitingSpawn { plan } => StageView::AwaitingSpawn { plan: plan@ },
            Stage::Probing => StageView::Probing,
            Stage::Finished { outcome } => StageView::Finished { outcome: *outcome },
        }
    }
}

/// The startup sequence.
#[derive(Debug)]
pub struct Startup {
    stage: Stage,
    prober: Prober,
}

impl View for Startup {
    type V = StartupState;

    closed spec fn view(&self) -> StartupState {
        StartupState { stage: self.stage@, prober: self.prober@ }
    }
}

/// The stage that follows a spawn or a prober step.
fn stage_after(prober: &Prober) -> (stage: Stage)
    ensures
        stage@ == stage_of_probe(prober@),
{
    match prober.phase() {
        ProbePhase::Ready => Stage::Finished { outcome: StartupOutcome::Managed { ready: true } },
        ProbePhase::TimedOut => Stage::Finished {
            outcome: StartupOutcome::Managed { ready: false },
        },
        _ => Stage::Probing,
    }
}

impl Startup {
    #[verifier::type_invariant]
    spec fn consistent(self) -> bool {
        self@.valid()
    }

    /// A startup sequence that will look for the backend at `target`.
    pub fn new(target: ReadinessTarget) -> (startup: Startup)
        ensures
            startup@ == StartupState::initial(target@),
    {
        Startup { stage: Stage::AwaitingDirectory, prober: Prober::new(target) }
    }

    /// The prober of the sequence, with its counts.
    pub fn prober(&self) -> (prober: &Prober)
        ensures
            prober@ == self@.prober,
    {
        &self.prober
    }

    /// How the sequence ended, or `None` while it has not.
    pub fn outcome(&self) -> (outcome: Option<StartupOutcome>)
        ensures
            outcome == self@.outcome(),
    {
        match &self.stage {
            Stage::Finished { outcome } => Some(*outcome),
            _ => None,
        }
    }

    /// What the host is to do now. The prober is asked only for work: a
    /// probe that has ended ends the sequence.
    pub fn action(&self) -> (action: StartupAction)
        ensures
            action@ == self@.pending(),
            self@.valid(),
            action@ matches StartupActionView::Probe(request) ==> !(request is Finish),
    {
        proof {
            use_type_invariant(self);
        }
        match &self.stage {
            Stage::AwaitingDirectory => StartupAction::ReadWorkingDirectory,
            Stage::AwaitingArtifact { root } => StartupAction::ProbeArtifact(artifact_path(root)),
            Stage::AwaitingSpawn { plan } => StartupAction::Spawn(plan.clone()),
            Stage::Probing => StartupAction::Probe(self.prober.action()),
            Stage::Finished { outcome } => StartupAction::Finish(*outcome),
        }
    }

    /// Takes in what the host reports and says what it is to do next.
    pub fn step(self, event: StartupEvent) -> (next: (Startup, StartupAction))
        ensures
            next.0@ == self@.next(event@),
            next.0@.valid(),
            next.1@ == next.0@.pending(),
    {
        proof {
            use_type_invariant(&self);
        }
        let Startup { stage, prober } = self;
        let startup = match (stage, event) {
            (Stage::AwaitingDirectory, StartupEvent::DirectoryFound(cwd)) => Startup {
                stage: Stage::AwaitingArtifact { root: project_root(&cwd) },
                prober,
            },
            (Stage::AwaitingDirectory, StartupEvent::DirectoryUnavailable) => Startup {
                stage: Stage::Finished {
                    outcome: StartupOutcome::External { cause: SupervisorError::Environment },
                },
                prober,
            },
            (Stage::AwaitingArtifact { root }, StartupEvent::ArtifactProbed { exists }) => Startup {
                stage: Stage::AwaitingSpawn { plan: select_plan(root, exists) },
                prober,
            },
            (Stage::AwaitingSpawn { plan }, StartupEvent::Spawned) => Startup {
                stage: stage_after(&prober),
                prober,
            },
            (Stage::AwaitingSpawn { plan }, StartupEvent::SpawnFailed) => Startup {
                stage: Stage::Finished {
                    outcome: StartupOutcome::External { cause: SupervisorError::Spawn },
                },
                prober,
            },
            (Stage::Probing, StartupEvent::Probe(probe_event)) => {
                let (prober, _) = prober.step(probe_event);
                Startup { stage: stage_after(&prober), prober }
            },
            (stage, _) => Startup { stage, prober },
        };
        let action = startup.action();
        (startup, action)
    }
}

} // verus!
