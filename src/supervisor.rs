use vstd::prelude::*;

verus! {

/// How many health probes are made after the agent was spawned before giving up.
pub const POLL_ATTEMPTS: u32 = 30;

/// Milliseconds to wait before each probe after the spawn.
pub const POLL_INTERVAL_MS: u64 = 500;

/// Why a start attempt failed.
#[derive(Debug, Clone, Copy, PartialEq, Eq, Structural)]
pub enum StartError {
    SpawnFailed,
    Timeout,
}

/// The life cycle of the local agent as the supervisor knows it.
#[derive(Debug, Clone, Copy, PartialEq, Eq, Structural)]
pub enum AgentState {
    NotRunning,
    Starting,
    Running,
    Failed(StartError),
}

/// What the caller reports back to the supervisor.
#[derive(Debug, Clone, Copy, PartialEq, Eq, Structural)]
pub enum SupervisorEvent {
    /// A caller wants the agent to be ready.
    Requested,
    ProbeSucceeded,
    ProbeFailed,
    Spawned,
    SpawnFailed,
}

/// What the supervisor asks the caller to do next.
#[derive(Debug, Clone, Copy, PartialEq, Eq, Structural)]
pub enum SupervisorAction {
    /// Probe the health endpoint once, now.
    Probe,
    /// Spawn the agent process.
    Spawn,
    /// Sleep one poll interval, then probe.
    WaitThenProbe,
    /// Another caller is starting the agent: wait for its outcome.
    AwaitInFlight,
    /// The agent is ready.
    Ready,
    /// The start attempt failed.
    Fail(StartError),
    /// The event did not fit the current phase and was ignored.
    Nothing,
}

/// The single-flight start protocol. `checking` marks the liveness probe that
/// opens an attempt; `spawned` and `attempts` describe the polling that follows
/// a spawn while the state is `Starting`.
#[derive(Debug, Clone, Copy, PartialEq, Eq, Structural)]
pub struct Supervisor {
    pub state: AgentState,
    pub checking: bool,
    pub spawned: bool,
    pub attempts: u32,
}

/// A start attempt is under way.
pub open spec fn in_flight(s: Supervisor) -> bool {
    s.checking || s.state is Starting
}

/// The agent was spawned and its health endpoint is being polled.
pub open spec fn polling(s: Supervisor) -> bool {
    s.state is Starting && s.spawned
}

/// The poll budget is not spent, and the phase markers agree with the state.
pub open spec fn wf(s: Supervisor) -> bool {
    &&& s.attempts < POLL_ATTEMPTS
    &&& s.checking ==> !(s.state is Starting)
    &&& !(s.state is Starting) ==> !s.spawned && s.attempts == 0
    &&& s.state is Starting && !s.spawned ==> s.attempts == 0
}

/// A supervisor at rest in `state`, with no attempt under way.
pub open spec fn settled(state: AgentState) -> Supervisor {
    Supervisor { state, checking: false, spawned: false, attempts: 0 }
}

/// One transition of the protocol.
pub open spec fn next(s: Supervisor, e: SupervisorEvent) -> (Supervisor, SupervisorAction) {
    match e {
        SupervisorEvent::Requested => {
            if in_flight(s) {
                (s, SupervisorAction::AwaitInFlight)
            } else {
                (Supervisor { checking: true, ..s }, SupervisorAction::Probe)
            }
        },
        SupervisorEvent::ProbeSucceeded => {
            if s.checking || polling(s) {
                (settled(AgentState::Running), SupervisorAction::Ready)
            } else {
                (s, SupervisorAction::Nothing)
            }
        },
        SupervisorEvent::ProbeFailed => {
            if s.checking {
                (settled(AgentState::Starting), SupervisorAction::Spawn)
            } else if polling(s) {
                if s.attempts + 1 >= POLL_ATTEMPTS {
                    (
                        settled(AgentState::Failed(StartError::Timeout)),
                        SupervisorAction::Fail(StartError::Timeout),
                    )
                } else {
                    (
                        Supervisor { attempts: (s.attempts + 1) as u32, ..s },
                        SupervisorAction::WaitThenProbe,
                    )
                }
            } else {
                (s, SupervisorAction::Nothing)
            }
        },
        SupervisorEvent::Spawned => {
            if s.state is Starting && !s.spawned {
                (Supervisor { spawned: true, ..s }, SupervisorAction::WaitThenProbe)
            } else {
                (s, SupervisorAction::Nothing)
            }
        },
        SupervisorEvent::SpawnFailed => {
            if s.state is Starting && !s.spawned {
                (
                    settled(AgentState::Failed(StartError::SpawnFailed)),
                    SupervisorAction::Fail(StartError::SpawnFailed),
                )
            } else {
                (s, SupervisorAction::Nothing)
            }
        },
    }
}

/// What a caller that waited on an attempt learns once it is over.
pub open spec fn outcome_of(s: Supervisor) -> Option<Result<(), StartError>> {
    if in_flight(s) {
        None
    } else {
        match s.state {
            AgentState::Running => Some(Ok(())),
            AgentState::Failed(e) => Some(Err(e)),
            _ => None,
        }
    }
}

/// The number of spawns asked for while processing `events`, up to the end of
/// the attempt under way.
pub open spec fn spawns_during_flight(s: Supervisor, events: Seq<SupervisorEvent>) -> nat
    decreases events.len(),
{
    if events.len() == 0 || !in_flight(s) {
        0
    } else {
        let (t, a) = next(s, events[0]);
        (if a == SupervisorAction::Spawn {
            1nat
        } else {
            0nat
        }) + spawns_during_flight(t, events.drop_first())
    }
}

/// The state after `k` failed probes in a row.
pub open spec fn after_failed_probes(s: Supervisor, k: nat) -> Supervisor
    decreases k,
{
    if k == 0 {
        s
    } else {
        next(after_failed_probes(s, (k - 1) as nat), SupervisorEvent::ProbeFailed).0
    }
}

/// Every transition keeps the protocol well formed.
pub proof fn law_next_preserves_wf(s: Supervisor, e: SupervisorEvent)
    requires
        wf(s),
    ensures
        wf(next(s, e).0),
{
}

proof fn lemma_spawns_bounded(s: Supervisor, events: Seq<SupervisorEvent>)
    requires
        wf(s),
    ensures
        spawns_during_flight(s, events) <= (if s.checking {
            1nat
        } else {
            0nat
        }),
    decreases events.len(),
{
    if events.len() > 0 && in_flight(s) {
        let (t, a) = next(s, events[0]);
        lemma_spawns_bounded(t, events.drop_first());
        if a == SupervisorAction::Spawn {
            assert(!t.checking);
        } else if t.checking {
            assert(s.checking);
            assert(a != SupervisorAction::Spawn);
        }
    }
}

/// Single flight: once one caller has opened an attempt, a second caller is told
/// to wait; a failed first probe spawns the agent, and the whole attempt spawns
/// it at most once, whatever events arrive in between.
pub proof fn law_single_flight(s: Supervisor, events: Seq<SupervisorEvent>)
    requires
        wf(s),
        !in_flight(s),
    ensures
        next(s, SupervisorEvent::Requested).1 == SupervisorAction::Probe,
        next(next(s, SupervisorEvent::Requested).0, SupervisorEvent::Requested).1
            == SupervisorAction::AwaitInFlight,
        next(next(s, SupervisorEvent::Requested).0, SupervisorEvent::Requested).0 == next(
            s,
            SupervisorEvent::Requested,
        ).0,
        next(next(s, SupervisorEvent::Requested).0, SupervisorEvent::ProbeFailed).1
            == SupervisorAction::Spawn,
        spawns_during_flight(next(s, SupervisorEvent::Requested).0, events) <= 1,
{
    lemma_spawns_bounded(next(s, SupervisorEvent::Requested).0, events);
}

/// While an attempt is under way, a new request never spawns and never changes
/// the state.
pub proof fn law_request_in_flight_waits(s: Supervisor)
    requires
        wf(s),
        in_flight(s),
    ensures
        next(s, SupervisorEvent::Requested) == (s, SupervisorAction::AwaitInFlight),
{
}

/// A probe that succeeds while polling ends the attempt: the agent is running.
pub proof fn law_probe_success_runs(s: Supervisor)
    requires
        wf(s),
        s.checking || polling(s),
    ensures
        next(s, SupervisorEvent::ProbeSucceeded).0.state == AgentState::Running,
        next(s, SupervisorEvent::ProbeSucceeded).1 == SupervisorAction::Ready,
        outcome_of(next(s, SupervisorEvent::ProbeSucceeded).0) == Some(
            Ok::<(), StartError>(()),
        ),
{
}

proof fn lemma_failed_probes(s: Supervisor, k: nat)
    requires
        wf(s),
        polling(s),
        s.attempts == 0,
        k < POLL_ATTEMPTS,
    ensures
        polling(after_failed_probes(s, k)),
        after_failed_probes(s, k).attempts == k,
        wf(after_failed_probes(s, k)),
    decreases k,
{
    if k > 0 {
        lemma_failed_probes(s, (k - 1) as nat);
    }
}

/// The poll is bounded: after a spawn, each failed probe asks for another wait
/// until the budget is spent, and the failure of the last probe of the budget
/// ends the attempt with a timeout.
pub proof fn law_poll_is_bounded(s: Supervisor, k: nat)
    requires
        wf(s),
        polling(s),
        s.attempts == 0,
        k < POLL_ATTEMPTS,
    ensures
        k + 1 < POLL_ATTEMPTS ==> next(after_failed_probes(s, k), SupervisorEvent::ProbeFailed).1
            == SupervisorAction::WaitThenProbe,
        after_failed_probes(s, POLL_ATTEMPTS as nat).state == AgentState::Failed(
            StartError::Timeout,
        ),
        next(
            after_failed_probes(s, (POLL_ATTEMPTS - 1) as nat),
            SupervisorEvent::ProbeFailed,
        ).1 == SupervisorAction::Fail(StartError::Timeout),
        outcome_of(after_failed_probes(s, POLL_ATTEMPTS as nat)) == Some(
            Err::<(), StartError>(StartError::Timeout),
        ),
{
    lemma_failed_probes(s, k);
    lemma_failed_probes(s, (POLL_ATTEMPTS - 1) as nat);
}

/// Asking again while the agent runs costs one probe: a successful probe ends
/// the call with the agent still running, and nothing is spawned.
pub proof fn law_running_is_idempotent(s: Supervisor)
    requires
        wf(s),
        s.state == AgentState::Running,
        !s.checking,
    ensures
        next(s, SupervisorEvent::Requested).1 == SupervisorAction::Probe,
        next(next(s, SupervisorEvent::Requested).0, SupervisorEvent::ProbeSucceeded) == (
            s,
            SupervisorAction::Ready,
        ),
{
}

impl Supervisor {
    /// A supervisor that has not started the agent.
    pub fn new() -> (r: Supervisor)
        ensures
            r == settled(AgentState::NotRunning),
            wf(r),
    {
        Supervisor { state: AgentState::NotRunning, checking: false, spawned: false, attempts: 0 }
    }

    pub fn state(&self) -> (r: AgentState)
        ensures
            r == self.state,
    {
        self.state
    }

    /// Feeds one event to the protocol and returns the action to perform.
    pub fn step(&mut self, event: SupervisorEvent) -> (a: SupervisorAction)
        requires
            wf(*old(self)),
        ensures
            (*final(self), a) == next(*old(self), event),
            wf(*final(self)),
    {
        let in_flight = self.checking || matches!(self.state, AgentState::Starting);
        let starting = matches!(self.state, AgentState::Starting);
        match event {
            SupervisorEvent::Requested => {
                if in_flight {
                    SupervisorAction::AwaitInFlight
                } else {
                    self.checking = true;
                    SupervisorAction::Probe
                }
            },
            SupervisorEvent::ProbeSucceeded => {
                if self.checking || (starting && self.spawned) {
                    *self = Supervisor {
                        state: AgentState::Running,
                        checking: false,
                        spawned: false,
                        attempts: 0,
                    };
                    SupervisorAction::Ready
                } else {
                    SupervisorAction::Nothing
                }
            },
            SupervisorEvent::ProbeFailed => {
                if self.checking {
                    *self = Supervisor {
                        state: AgentState::Starting,
                        checking: false,
                        spawned: false,
                        attempts: 0,
                    };
                    SupervisorAction::Spawn
                } else if starting && self.spawned {
                    if self.attempts + 1 >= POLL_ATTEMPTS {
                        *self = Supervisor {
                            state: AgentState::Failed(StartError::Timeout),
                            checking: false,
                            spawned: false,
                            attempts: 0,
                        };
                        SupervisorAction::Fail(StartError::Timeout)
                    } else {
                        self.attempts = self.attempts + 1;
                        SupervisorAction::WaitThenProbe
                    }
                } else {
                    SupervisorAction::Nothing
                }
            },
            SupervisorEvent::Spawned => {
                if starting && !self.spawned {
                    self.spawned = true;
                    SupervisorAction::WaitThenProbe
                } else {
                    SupervisorAction::Nothing
                }
            },
            SupervisorEvent::SpawnFailed => {
                if starting && !self.spawned {
                    *self = Supervisor {
                        state: AgentState::Failed(StartError::SpawnFailed),
                        checking: false,
                        spawned: false,
                        attempts: 0,
                    };
                    SupervisorAction::Fail(StartError::SpawnFailed)
                } else {
                    SupervisorAction::Nothing
                }
            },
        }
    }

    /// The result of the last attempt, once no attempt is under way.
    pub fn outcome(&self) -> (r: Option<Result<(), StartError>>)
        ensures
            r == outcome_of(*self),
    {
        if self.checking {
            return None;
        }
        match self.state {
            AgentState::Running => Some(Ok(())),
            AgentState::Failed(e) => Some(Err(e)),
            _ => None,
        }
    }
}

} // verus!
