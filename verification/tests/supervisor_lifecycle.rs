use rmate_tray::supervisor::{ProcState, SpawnOutcome, StartError, Supervisor};

#[test]
fn new_supervisor_is_absent() {
    let s = Supervisor::new();
    assert!(!s.is_running());
    assert_eq!(s.state, ProcState::Absent);
}

#[test]
fn successful_spawn_transitions_to_running() {
    let mut s = Supervisor::new();
    let r = s.start(SpawnOutcome::Spawned { pid: 41 });
    assert_eq!(r, Ok(()));
    assert!(s.is_running());
    assert_eq!(s.state, ProcState::Running { pid: 41 });
}

#[test]
fn start_is_idempotent_while_running() {
    let mut s = Supervisor::new();
    s.start(SpawnOutcome::Spawned { pid: 41 }).unwrap();
    // A second start never creates a second child handle and leaves the
    // state unchanged, whatever the reported outcome.
    let r = s.start(SpawnOutcome::Spawned { pid: 99 });
    assert_eq!(r, Ok(()));
    assert_eq!(s.state, ProcState::Running { pid: 41 });
    let r = s.start(SpawnOutcome::BinaryMissing);
    assert_eq!(r, Ok(()));
    assert_eq!(s.state, ProcState::Running { pid: 41 });
}

#[test]
fn stop_returns_the_pid_to_signal() {
    let mut s = Supervisor::new();
    s.start(SpawnOutcome::Spawned { pid: 7 }).unwrap();
    assert_eq!(s.stop(), Some(7));
    assert_eq!(s.state, ProcState::Absent);
}

#[test]
fn stop_is_idempotent_while_absent() {
    let mut s = Supervisor::new();
    assert_eq!(s.stop(), None);
    assert_eq!(s.state, ProcState::Absent);
    s.start(SpawnOutcome::Spawned { pid: 7 }).unwrap();
    s.stop();
    assert_eq!(s.stop(), None);
    assert_eq!(s.state, ProcState::Absent);
}

#[test]
fn missing_binary_aborts_start() {
    let mut s = Supervisor::new();
    let r = s.start(SpawnOutcome::BinaryMissing);
    assert_eq!(r, Err(StartError::BinaryNotFound));
    assert_eq!(s.state, ProcState::Absent);
}

#[test]
fn permission_failure_aborts_start() {
    let mut s = Supervisor::new();
    let r = s.start(SpawnOutcome::PermissionDenied);
    assert_eq!(r, Err(StartError::PermissionFailure));
    assert_eq!(s.state, ProcState::Absent);
}

#[test]
fn refused_spawn_aborts_start_with_reason() {
    let mut s = Supervisor::new();
    let r = s.start(SpawnOutcome::SpawnRefused { reason: String::from("no such device") });
    assert_eq!(r, Err(StartError::SpawnFailure(String::from("no such device"))));
    assert_eq!(s.state, ProcState::Absent);
}

#[test]
fn restart_stops_then_starts() {
    let mut s = Supervisor::new();
    s.start(SpawnOutcome::Spawned { pid: 3 }).unwrap();
    let (killed, r) = s.restart(SpawnOutcome::Spawned { pid: 4 });
    assert_eq!(killed, Some(3));
    assert_eq!(r, Ok(()));
    assert_eq!(s.state, ProcState::Running { pid: 4 });
}

#[test]
fn restart_while_absent_kills_nothing() {
    let mut s = Supervisor::new();
    let (killed, r) = s.restart(SpawnOutcome::BinaryMissing);
    assert_eq!(killed, None);
    assert_eq!(r, Err(StartError::BinaryNotFound));
    assert_eq!(s.state, ProcState::Absent);
}
