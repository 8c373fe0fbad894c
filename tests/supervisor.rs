use filebuddy::supervisor::AgentState;
use filebuddy::supervisor::StartError;
use filebuddy::supervisor::Supervisor;
use filebuddy::supervisor::SupervisorAction;
use filebuddy::supervisor::SupervisorEvent;
use filebuddy::supervisor::POLL_ATTEMPTS;
use filebuddy::supervisor::POLL_INTERVAL_MS;

#[test]
fn two_requests_while_down_spawn_once() {
    let mut s = Supervisor::new();
    assert_eq!(s.step(SupervisorEvent::Requested), SupervisorAction::Probe);
    assert_eq!(s.step(SupervisorEvent::Requested), SupervisorAction::AwaitInFlight);
    assert_eq!(s.step(SupervisorEvent::ProbeFailed), SupervisorAction::Spawn);
    assert_eq!(s.state(), AgentState::Starting);
    assert_eq!(s.step(SupervisorEvent::Requested), SupervisorAction::AwaitInFlight);
    assert_eq!(s.outcome(), None);
    assert_eq!(s.step(SupervisorEvent::Spawned), SupervisorAction::WaitThenProbe);
    assert_eq!(s.step(SupervisorEvent::ProbeFailed), SupervisorAction::WaitThenProbe);
    assert_eq!(s.step(SupervisorEvent::ProbeSucceeded), SupervisorAction::Ready);
    assert_eq!(s.state(), AgentState::Running);
    assert_eq!(s.outcome(), Some(Ok(())));
}

#[test]
fn poll_gives_up_after_budget() {
    let mut s = Supervisor::new();
    s.step(SupervisorEvent::Requested);
    s.step(SupervisorEvent::ProbeFailed);
    s.step(SupervisorEvent::Spawned);
    let mut probes = 0u32;
    loop {
        probes += 1;
        let a = s.step(SupervisorEvent::ProbeFailed);
        if a != SupervisorAction::WaitThenProbe {
            assert_eq!(a, SupervisorAction::Fail(StartError::Timeout));
            break;
        }
        assert!(probes < 1000);
    }
    assert_eq!(probes, POLL_ATTEMPTS);
    assert_eq!(probes, 30);
    assert_eq!(s.state(), AgentState::Failed(StartError::Timeout));
    assert_eq!(s.outcome(), Some(Err(StartError::Timeout)));
}

#[test]
fn spawn_failure_is_reported() {
    let mut s = Supervisor::new();
    s.step(SupervisorEvent::Requested);
    s.step(SupervisorEvent::ProbeFailed);
    assert_eq!(
        s.step(SupervisorEvent::SpawnFailed),
        SupervisorAction::Fail(StartError::SpawnFailed)
    );
    assert_eq!(s.state(), AgentState::Failed(StartError::SpawnFailed));
    assert_eq!(s.step(SupervisorEvent::Requested), SupervisorAction::Probe);
}

#[test]
fn running_agent_costs_one_probe() {
    let mut s = Supervisor::new();
    s.step(SupervisorEvent::Requested);
    assert_eq!(s.step(SupervisorEvent::ProbeSucceeded), SupervisorAction::Ready);
    assert_eq!(s.state(), AgentState::Running);
    assert_eq!(s.step(SupervisorEvent::Requested), SupervisorAction::Probe);
    assert_eq!(s.step(SupervisorEvent::ProbeSucceeded), SupervisorAction::Ready);
    assert_eq!(s.state(), AgentState::Running);
}

#[test]
fn stray_events_are_ignored() {
    let mut s = Supervisor::new();
    assert_eq!(s.step(SupervisorEvent::Spawned), SupervisorAction::Nothing);
    assert_eq!(s.step(SupervisorEvent::ProbeSucceeded), SupervisorAction::Nothing);
    assert_eq!(s.state(), AgentState::NotRunning);
}

#[test]
fn poll_window_is_fifteen_seconds() {
    assert_eq!(POLL_ATTEMPTS as u64 * POLL_INTERVAL_MS, 15_000);
}
