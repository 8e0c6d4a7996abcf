//! The supervisor: the top-level reconnect state machine. It owns the
//! session lifecycle `Disconnected -> Connecting -> Active ->
//! Connecting`, retries failed connects forever after a fixed delay,
//! reconnects immediately after a session ends, and on every successful
//! connect starts a fresh session whose very first message is the
//! client's own current state. The unverified shell performs each
//! returned action and feeds the outcome back in as the next event.

use vstd::prelude::*;

verus! {

/// Milliseconds to wait before retrying after a failed connect.
pub const RETRY_DELAY_MS: u64 = 2000;

/// Milliseconds of one outbound poll cycle.
pub const POLL_PERIOD_MS: u64 = 50;

/// Where the client stands in the session lifecycle. At most one
/// session is ever active: only `Active` has one, and only one step
/// enters it.
#[derive(Clone, Copy, PartialEq, Eq, Structural, Debug)]
pub enum SessionPhase {
    /// No connection and no attempt under way.
    Disconnected,
    /// A connect attempt is pending or under way.
    Connecting,
    /// A session is running: one inbound and one outbound activity.
    Active,
}

/// What the shell reports to the supervisor.
#[derive(Clone, Copy, PartialEq, Eq, Structural, Debug)]
pub enum SupervisorEvent {
    /// The process started; nothing has been attempted yet.
    Started,
    /// The pending connect attempt failed.
    ConnectFailed,
    /// The pending connect attempt yielded an open session transport.
    ConnectSucceeded,
    /// An activity of the running session terminated (transport closed,
    /// a send or receive failed): the session is over.
    ActivityTerminated,
}

/// What the shell must do next.
#[derive(Clone, Copy, PartialEq, Eq, Structural, Debug)]
pub enum SupervisorAction {
    /// Wait `delay_ms` milliseconds, then make exactly one connect
    /// attempt and report its outcome.
    Connect {
        /// Milliseconds to wait before the attempt.
        delay_ms: u64,
    },
    /// Tear down whatever is left of the previous session, read the
    /// indicator once, send that reading as the session's first
    /// message, and run the two session activities until either
    /// terminates.
    StartSession,
}

/// The supervisor's transition table. Events that cannot arise in the
/// given phase change nothing and ask for nothing.
pub open spec fn spec_step(phase: SessionPhase, event: SupervisorEvent) -> (
    SessionPhase,
    Option<SupervisorAction>,
) {
    match (phase, event) {
        (SessionPhase::Disconnected, SupervisorEvent::Started) => (
            SessionPhase::Connecting,
            Some(SupervisorAction::Connect { delay_ms: 0 }),
        ),
        (SessionPhase::Connecting, SupervisorEvent::ConnectFailed) => (
            SessionPhase::Connecting,
            Some(SupervisorAction::Connect { delay_ms: RETRY_DELAY_MS }),
        ),
        (SessionPhase::Connecting, SupervisorEvent::ConnectSucceeded) => (
            SessionPhase::Active,
            Some(SupervisorAction::StartSession),
        ),
        (SessionPhase::Active, SupervisorEvent::ActivityTerminated) => (
            SessionPhase::Connecting,
            Some(SupervisorAction::Connect { delay_ms: 0 }),
        ),
        _ => (phase, None),
    }
}

/// The top-level driver's state: nothing but the lifecycle phase.
pub struct Supervisor {
    /// The current lifecycle phase.
    pub phase: SessionPhase,
}

impl Supervisor {
    /// A fresh supervisor: disconnected, nothing attempted.
    pub fn new() -> (r: Self)
        ensures
            r.phase == SessionPhase::Disconnected,
    {
        Supervisor { phase: SessionPhase::Disconnected }
    }

    /// Advances the lifecycle by one event and returns what the shell
    /// must do next, exactly as `spec_step` lays the table out.
    pub fn step(&mut self, event: SupervisorEvent) -> (action: Option<SupervisorAction>)
        ensures
            (final(self).phase, action) == spec_step(old(self).phase, event),
    {
        match (self.phase, event) {
            (SessionPhase::Disconnected, SupervisorEvent::Started) => {
                self.phase = SessionPhase::Connecting;
                Some(SupervisorAction::Connect { delay_ms: 0 })
            },
            (SessionPhase::Connecting, SupervisorEvent::ConnectFailed) => {
                Some(SupervisorAction::Connect { delay_ms: RETRY_DELAY_MS })
            },
            (SessionPhase::Connecting, SupervisorEvent::ConnectSucceeded) => {
                self.phase = SessionPhase::Active;
                Some(SupervisorAction::StartSession)
            },
            (SessionPhase::Active, SupervisorEvent::ActivityTerminated) => {
                self.phase = SessionPhase::Connecting;
                Some(SupervisorAction::Connect { delay_ms: 0 })
            },
            _ => None,
        }
    }
}

/// Law: a terminated session tears down atomically — the one step that
/// reports it leaves `Active`, asks for exactly one fresh connect
/// attempt, and asks for it with no delay.
pub proof fn lemma_teardown_single_connect(phase: SessionPhase, event: SupervisorEvent)
    ensures
        spec_step(SessionPhase::Active, SupervisorEvent::ActivityTerminated) == (
            SessionPhase::Connecting,
            Some(SupervisorAction::Connect { delay_ms: 0 }),
        ),
        spec_step(phase, event).1 == Some(SupervisorAction::StartSession) ==> phase
            == SessionPhase::Connecting && spec_step(phase, event).0 == SessionPhase::Active,
        phase != SessionPhase::Active && spec_step(phase, event).0 == SessionPhase::Active
            ==> spec_step(phase, event).1 == Some(SupervisorAction::StartSession),
{
}

/// Law: every failed connect attempt is retried — after the fixed
/// delay, with exactly one new attempt, staying in the connecting
/// phase — so the supervisor never gives up.
pub proof fn lemma_connect_retried()
    ensures
        spec_step(SessionPhase::Connecting, SupervisorEvent::ConnectFailed) == (
            SessionPhase::Connecting,
            Some(SupervisorAction::Connect { delay_ms: RETRY_DELAY_MS }),
        ),
{
}

} // verus!
