//! The readiness prober: a bounded series of connection attempts with a
//! pause between them, as a machine that the host drives.
//!
//! The machine says what to do next (connect, sleep, or stop); the host does
//! it and reports what happened.

use vstd::prelude::*;

verus! {

/// Host that the backend listens on unless configured otherwise.
pub const DEFAULT_HOST: &'static str = "127.0.0.1";

/// Port that the backend listens on unless configured otherwise.
pub const DEFAULT_PORT: u16 = 3011;

/// Number of connection attempts unless configured otherwise.
pub const DEFAULT_MAX_ATTEMPTS: u32 = 60;

/// Pause between two attempts, in milliseconds, unless configured otherwise.
pub const DEFAULT_RETRY_DELAY_MILLIS: u64 = 500;

/// What a readiness target says, as plain values.
pub ghost struct ReadinessTargetView {
    pub host: Seq<char>,
    pub port: u16,
    pub max_attempts: nat,
    pub retry_delay_millis: nat,
}

/// Where and how patiently to look for the backend.
#[derive(Debug, PartialEq, Eq)]
pub struct ReadinessTarget {
    host: String,
    port: u16,
    max_attempts: u32,
    retry_delay_millis: u64,
}

impl View for ReadinessTarget {
    type V = ReadinessTargetView;

    closed spec fn view(&self) -> ReadinessTargetView {
        ReadinessTargetView {
            host: self.host@,
            port: self.port,
            max_attempts: self.max_attempts as nat,
            retry_delay_millis: self.retry_delay_millis as nat,
        }
    }
}

/// The target used where nothing else is configured.
pub open spec fn default_target() -> ReadinessTargetView {
    ReadinessTargetView {
        host: DEFAULT_HOST@,
        port: DEFAULT_PORT,
        max_attempts: DEFAULT_MAX_ATTEMPTS as nat,
        retry_delay_millis: DEFAULT_RETRY_DELAY_MILLIS as nat,
    }
}

impl ReadinessTarget {
    /// A target with every setting given.
    pub fn new(host: String, port: u16, max_attempts: u32, retry_delay_millis: u64) -> (target:
        ReadinessTarget)
        ensures
            target@ == (ReadinessTargetView {
                host: host@,
                port,
                max_attempts: max_attempts as nat,
                retry_delay_millis: retry_delay_millis as nat,
            }),
    {
        ReadinessTarget { host, port, max_attempts, retry_delay_millis }
    }

    /// The host to connect to.
    pub fn host(&self) -> (host: &String)
        ensures
            host@ == self@.host,
    {
        &self.host
    }

    /// The port to connect to.
    pub fn port(&self) -> (port: u16)
        ensures
            port == self@.port,
    {
        self.port
    }

    /// The number of connection attempts allowed.
    pub fn max_attempts(&self) -> (max_attempts: u32)
        ensures
            max_attempts == self@.max_attempts,
    {
        self.max_attempts
    }

    /// The pause between two attempts, in milliseconds.
    pub fn retry_delay_millis(&self) -> (millis: u64)
        ensures
            millis == self@.retry_delay_millis,
    {
        self.retry_delay_millis
    }

    /// An upper bound, in milliseconds, on the time that a probe of this
    /// target spends pausing: the delay once for each allowed attempt.
    pub fn worst_case_wait_millis(&self) -> (millis: u128)
        ensures
            millis == self@.worst_case_wait_millis(),
    {
        let attempts: u128 = self.max_attempts as u128;
        let delay: u128 = self.retry_delay_millis as u128;
        assert(attempts * delay <= 0xffff_ffff * 0xffff_ffff_ffff_ffff) by (nonlinear_arith)
            requires
                attempts <= 0xffff_ffff,
                delay <= 0xffff_ffff_ffff_ffff,
        ;
        attempts * delay
    }
}

impl ReadinessTargetView {
    /// The bound on the time spent pausing: the delay once for each allowed
    /// attempt.
    pub open spec fn worst_case_wait_millis(self) -> nat {
        self.max_attempts * self.retry_delay_millis
    }
}

impl Default for ReadinessTarget {
    fn default() -> (target: ReadinessTarget)
        ensures
            target@ == default_target(),
    {
        ReadinessTarget {
            host: DEFAULT_HOST.to_owned(),
            port: DEFAULT_PORT,
            max_attempts: DEFAULT_MAX_ATTEMPTS,
            retry_delay_millis: DEFAULT_RETRY_DELAY_MILLIS,
        }
    }
}

/// What the prober is waiting for, or how it ended.
#[derive(Clone, Copy, Debug, PartialEq, Eq, Structural)]
pub enum ProbePhase {
    /// A connection attempt is due.
    Connecting,
    /// A pause is due.
    Sleeping,
    /// An attempt connected.
    Ready,
    /// Every attempt was refused.
    TimedOut,
}

/// What the host reports back to the prober.
#[derive(Clone, Copy, Debug, PartialEq, Eq, Structural)]
pub enum ProbeEvent {
    /// The connection attempt succeeded.
    Connected,
    /// The connection attempt failed.
    Refused,
    /// The pause is over.
    Slept,
}

/// What the prober asks of the host.
#[derive(Debug, PartialEq, Eq)]
pub enum ProbeAction {
    /// Try once to open a TCP connection.
    Connect { host: String, port: u16 },
    /// Pause for so many milliseconds.
    Sleep { millis: u64 },
    /// Stop: the backend is reachable, or it is given up on.
    Finish { ready: bool },
}

/// A prober action, as plain values.
pub ghost enum ProbeActionView {
    Connect { host: Seq<char>, port: u16 },
    Sleep { millis: nat },
    Finish { ready: bool },
}

impl View for ProbeAction {
    type V = ProbeActionView;

    open spec fn view(&self) -> ProbeActionView {
        match self {
            ProbeAction::Connect { host, port } => ProbeActionView::Connect {
                host: host@,
                port: *port,
            },
            ProbeAction::Sleep { millis } => ProbeActionView::Sleep { millis: *millis as nat },
            ProbeAction::Finish { ready } => ProbeActionView::Finish { ready: *ready },
        }
    }
}

/// The state of a prober: its target, what it has seen so far, and what it
/// is waiting for.
pub ghost struct ProberState {
    pub target: ReadinessTargetView,
    /// Connection attempts that the host has reported.
    pub attempts: nat,
    /// Pauses that the host has reported.
    pub sleeps: nat,
    pub phase: ProbePhase,
}

impl ProberState {
    /// The state before anything was attempted. A target that allows no
    /// attempt is given up on at once.
    pub open spec fn initial(target: ReadinessTargetView) -> ProberState {
        ProberState {
            target,
            attempts: 0,
            sleeps: 0,
            phase: if target.max_attempts == 0 {
                ProbePhase::TimedOut
            } else {
                ProbePhase::Connecting
            },
        }
    }

    /// The state after the host reported `event`.
    ///
    /// A connection ends the probe. A refusal leads to a pause while
    /// attempts are left and ends the probe when none is. A finished pause
    /// leads to the next attempt. An event that does not answer the pending
    /// action changes nothing.
    pub open spec fn next(self, event: ProbeEvent) -> ProberState {
        match (self.phase, event) {
            (ProbePhase::Connecting, ProbeEvent::Connected) => ProberState {
                attempts: self.attempts + 1,
                phase: ProbePhase::Ready,
                ..self
            },
            (ProbePhase::Connecting, ProbeEvent::Refused) => ProberState {
                attempts: self.attempts + 1,
                phase: if self.attempts + 1 < self.target.max_attempts {
                    ProbePhase::Sleeping
                } else {
                    ProbePhase::TimedOut
                },
                ..self
            },
            (ProbePhase::Sleeping, ProbeEvent::Slept) => ProberState {
                sleeps: self.sleeps + 1,
                phase: ProbePhase::Connecting,
                ..self
            },
            _ => self,
        }
    }

    /// What the host is to do in this state.
    pub open spec fn pending(self) -> ProbeActionView {
        match self.phase {
            ProbePhase::Connecting => ProbeActionView::Connect {
                host: self.target.host,
                port: self.target.port,
            },
            ProbePhase::Sleeping => ProbeActionView::Sleep {
                millis: self.target.retry_delay_millis,
            },
            ProbePhase::Ready => ProbeActionView::Finish { ready: true },
            ProbePhase::TimedOut => ProbeActionView::Finish { ready: false },
        }
    }

    /// Whether the probe has ended.
    pub open spec fn finished(self) -> bool {
        self.phase == ProbePhase::Ready || self.phase == ProbePhase::TimedOut
    }

    /// What holds of every state that a prober can be in: the counts fit
    /// the phase, and no attempt is made beyond the allowed number.
    pub open spec fn valid(self) -> bool {
        match self.phase {
            ProbePhase::Connecting => {
                &&& self.attempts < self.target.max_attempts
                &&& self.sleeps == self.attempts
            },
            ProbePhase::Sleeping => {
                &&& 1 <= self.attempts < self.target.max_attempts
                &&& self.sleeps + 1 == self.attempts
            },
            ProbePhase::Ready => {
                &&& 1 <= self.attempts <= self.target.max_attempts
                &&& self.sleeps + 1 == self.attempts
            },
            ProbePhase::TimedOut => {
                &&& self.attempts == self.target.max_attempts
                &&& if self.attempts == 0 {
                    self.sleeps == 0
                } else {
                    self.sleeps + 1 == self.attempts
                }
            },
        }
    }

    /// Whether `event` reports on the action that is pending.
    pub open spec fn answered_by(self, event: ProbeEvent) -> bool {
        match (self.phase, event) {
            (ProbePhase::Connecting, ProbeEvent::Connected) => true,
            (ProbePhase::Connecting, ProbeEvent::Refused) => true,
            (ProbePhase::Sleeping, ProbeEvent::Slept) => true,
            _ => false,
        }
    }

    /// The greatest number of answers that the probe can still take in
    /// before it ends.
    pub open spec fn remaining(self) -> nat {
        match self.phase {
            ProbePhase::Connecting => (2 * (self.target.max_attempts - self.attempts) - 1) as nat,
            ProbePhase::Sleeping => (2 * (self.target.max_attempts - self.attempts)) as nat,
            _ => 0,
        }
    }

    /// The time spent pausing so far, in milliseconds.
    pub open spec fn waited_millis(self) -> nat {
        self.sleeps * self.target.retry_delay_millis
    }

    /// The state after the host reported `events`, one after the other.
    pub open spec fn run(self, events: Seq<ProbeEvent>) -> ProberState
        decreases events.len(),
    {
        if events.len() == 0 {
            self
        } else {
            self.run(events.drop_last()).next(events.last())
        }
    }
}

/// The events of `failures` refused attempts, each followed by its pause.
pub open spec fn refusals(failures: nat) -> Seq<ProbeEvent>
    decreases failures,
{
    if failures == 0 {
        Seq::empty()
    } else {
        refusals((failures - 1) as nat).push(ProbeEvent::Refused).push(ProbeEvent::Slept)
    }
}

/// A fresh prober is in a valid state.
pub proof fn lemma_initial_valid(target: ReadinessTargetView)
    ensures
        ProberState::initial(target).valid(),
{
}

/// No event leads from a valid state to one that is not.
pub proof fn lemma_next_valid(state: ProberState, event: ProbeEvent)
    requires
        state.valid(),
    ensures
        state.next(event).valid(),
        state.next(event).target == state.target,
{
}

/// Reporting one more event is one more step.
pub proof fn lemma_run_push(state: ProberState, events: Seq<ProbeEvent>, event: ProbeEvent)
    ensures
        state.run(events.push(event)) == state.run(events).next(event),
{
    assert(events.push(event).drop_last() =~= events);
}

/// Whatever the host reports, and in whatever order, the prober never counts
/// more attempts than the target allows, and never more pauses than lie
/// between that many attempts.
pub proof fn lemma_attempts_and_sleeps_bounded(
    target: ReadinessTargetView,
    events: Seq<ProbeEvent>,
)
    ensures
        ProberState::initial(target).run(events).valid(),
        ProberState::initial(target).run(events).target == target,
        ProberState::initial(target).run(events).attempts <= target.max_attempts,
        target.max_attempts >= 1 ==> ProberState::initial(target).run(events).sleeps
            <= target.max_attempts - 1,
        target.max_attempts == 0 ==> ProberState::initial(target).run(events).sleeps == 0,
    decreases events.len(),
{
    if events.len() > 0 {
        lemma_attempts_and_sleeps_bounded(target, events.drop_last());
    }
}

/// After `failures` refused attempts, each followed by its pause, a prober
/// with attempts left is about to connect again.
pub proof fn lemma_after_refusals(target: ReadinessTargetView, failures: nat)
    requires
        failures < target.max_attempts,
    ensures
        ProberState::initial(target).run(refusals(failures)) == (ProberState {
            target,
            attempts: failures,
            sleeps: failures,
            phase: ProbePhase::Connecting,
        }),
    decreases failures,
{
    if failures > 0 {
        let before = (failures - 1) as nat;
        lemma_after_refusals(target, before);
        let start = ProberState::initial(target);
        lemma_run_push(start, refusals(before), ProbeEvent::Refused);
        lemma_run_push(start, refusals(before).push(ProbeEvent::Refused), ProbeEvent::Slept);
    }
}

/// Where the first connection comes on attempt `failures + 1`, within the
/// allowed number, the probe ends ready after exactly that many attempts
/// and `failures` pauses.
pub proof fn lemma_ready_on_first_connection(target: ReadinessTargetView, failures: nat)
    requires
        failures < target.max_attempts,
    ensures
        ProberState::initial(target).run(refusals(failures).push(ProbeEvent::Connected)) == (
        ProberState { target, attempts: failures + 1, sleeps: failures, phase: ProbePhase::Ready }),
{
    lemma_after_refusals(target, failures);
    lemma_run_push(ProberState::initial(target), refusals(failures), ProbeEvent::Connected);
}

/// Where every allowed attempt is refused, the probe ends not ready after
/// exactly `max_attempts` attempts and one pause fewer.
pub proof fn lemma_timed_out_when_never_connected(target: ReadinessTargetView)
    requires
        target.max_attempts >= 1,
    ensures
        ProberState::initial(target).run(
            refusals((target.max_attempts - 1) as nat).push(ProbeEvent::Refused),
        ) == (ProberState {
            target,
            attempts: target.max_attempts,
            sleeps: (target.max_attempts - 1) as nat,
            phase: ProbePhase::TimedOut,
        }),
{
    let failures = (target.max_attempts - 1) as nat;
    lemma_after_refusals(target, failures);
    lemma_run_push(ProberState::initial(target), refusals(failures), ProbeEvent::Refused);
}

/// Each answer to the pending action brings the end of the probe nearer,
/// so that a probe ends after at most `2 * max_attempts - 1` answers.
pub proof fn lemma_probe_progress(state: ProberState, event: ProbeEvent)
    requires
        state.valid(),
        state.answered_by(event),
    ensures
        state.next(event).remaining() < state.remaining(),
        state.remaining() <= ProberState::initial(state.target).remaining(),
        ProberState::initial(state.target).remaining() == if state.target.max_attempts == 0 {
            0
        } else {
            2 * state.target.max_attempts - 1
        },
{
}

/// A probe never pauses for longer, all pauses together, than the worst
/// case of its target.
pub proof fn lemma_wait_bounded(state: ProberState)
    requires
        state.valid(),
    ensures
        state.waited_millis() <= state.target.worst_case_wait_millis(),
{
    assert(state.sleeps * state.target.retry_delay_millis <= state.target.max_attempts
        * state.target.retry_delay_millis) by (nonlinear_arith)
        requires
            state.sleeps <= state.target.max_attempts,
    ;
}

/// Once the probe has ended, no event changes its state.
pub proof fn lemma_finished_is_final(state: ProberState, event: ProbeEvent)
    requires
        state.finished(),
    ensures
        state.next(event) == state,
{
}

/// The readiness prober.
#[derive(Debug)]
pub struct Prober {
    target: ReadinessTarget,
    attempts: u32,
    sleeps: u32,
    phase: ProbePhase,
}

impl View for Prober {
    type V = ProberState;

    closed spec fn view(&self) -> ProberState {
        ProberState {
            target: self.target@,
            attempts: self.attempts as nat,
            sleeps: self.sleeps as nat,
            phase: self.phase,
        }
    }
}

impl Prober {
    #[verifier::type_invariant]
    spec fn consistent(self) -> bool {
        self@.valid()
    }

    /// A prober for `target` that has attempted nothing yet.
    pub fn new(target: ReadinessTarget) -> (prober: Prober)
        ensures
            prober@ == ProberState::initial(target@),
            prober@.valid(),
    {
        let phase = if target.max_attempts == 0 {
            ProbePhase::TimedOut
        } else {
            ProbePhase::Connecting
        };
        Prober { target, attempts: 0, sleeps: 0, phase }
    }

    /// The target that is probed.
    pub fn target(&self) -> (target: &ReadinessTarget)
        ensures
            target@ == self@.target,
    {
        &self.target
    }

    /// The number of connection attempts reported so far.
    pub fn attempts(&self) -> (attempts: u32)
        ensures
            attempts == self@.attempts,
            attempts <= self@.target.max_attempts,
    {
        proof {
            use_type_invariant(self);
        }
        self.attempts
    }

    /// The number of pauses reported so far.
    pub fn sleeps(&self) -> (sleeps: u32)
        ensures
            sleeps == self@.sleeps,
            sleeps <= self@.attempts,
            sleeps == 0 || sleeps + 1 <= self@.target.max_attempts,
    {
        proof {
            use_type_invariant(self);
        }
        self.sleeps
    }

    /// What the prober is waiting for, or how it ended.
    pub fn phase(&self) -> (phase: ProbePhase)
        ensures
            phase == self@.phase,
            self@.valid(),
    {
        proof {
            use_type_invariant(self);
        }
        self.phase
    }

    /// What the host is to do now.
    pub fn action(&self) -> (action: ProbeAction)
        ensures
            action@ == self@.pending(),
    {
        match self.phase {
            ProbePhase::Connecting => ProbeAction::Connect {
                host: self.target.host.clone(),
                port: self.target.port,
            },
            ProbePhase::Sleeping => ProbeAction::Sleep { millis: self.target.retry_delay_millis },
            ProbePhase::Ready => ProbeAction::Finish { ready: true },
            ProbePhase::TimedOut => ProbeAction::Finish { ready: false },
        }
    }

    /// Takes in what the host reports and says what it is to do next.
    pub fn step(self, event: ProbeEvent) -> (next: (Prober, ProbeAction))
        ensures
            next.0@ == self@.next(event),
            next.0@.valid(),
            next.1@ == next.0@.pending(),
    {
        proof {
            use_type_invariant(&self);
        }
        let Prober { target, attempts, sleeps, phase } = self;
        let prober = match (phase, event) {
            (ProbePhase::Connecting, ProbeEvent::Connected) => Prober {
                target,
                attempts: attempts + 1,
                sleeps,
                phase: ProbePhase::Ready,
            },
            (ProbePhase::Connecting, ProbeEvent::Refused) => {
                let phase = if attempts + 1 < target.max_attempts {
                    ProbePhase::Sleeping
                } else {
                    ProbePhase::TimedOut
                };
                Prober { target, attempts: attempts + 1, sleeps, phase }
            },
            (ProbePhase::Sleeping, ProbeEvent::Slept) => Prober {
                target,
                attempts,
                sleeps: sleeps + 1,
                phase: ProbePhase::Connecting,
            },
            _ => Prober { target, attempts, sleeps, phase },
        };
        let action = prober.action();
        (prober, action)
    }
}

} // verus!
