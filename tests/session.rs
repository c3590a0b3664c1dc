use nulldm::auth::Account;
use nulldm::session::{ChildState, ForkOutcome, PrivilegeStep, SessionHandler, SpawnError};

#[test]
fn new_session_not_started() {
    let s = SessionHandler::new("alice", "/bin/sh");
    assert_eq!(s.username, "alice");
    assert_eq!(s.shell, "/bin/sh");
    assert_eq!(s.state, ChildState::NotStarted);
    assert_eq!(s.pid(), None);
}

#[test]
fn spawn_then_wait() {
    let mut s = SessionHandler::new("alice", "/bin/sh");
    assert_eq!(s.spawn(ForkOutcome::Parent { child: 321 }), Ok(()));
    assert_eq!(s.pid(), Some(321));
    assert_eq!(s.wait(None), None);
    assert_eq!(s.state, ChildState::Running { pid: 321 });
    assert_eq!(s.wait(Some(0)), Some(0));
    assert_eq!(s.state, ChildState::Exited { status: 0 });
    assert_eq!(s.wait(Some(1)), None);
}

#[test]
fn failed_fork_is_reported() {
    let mut s = SessionHandler::new("alice", "/bin/sh");
    assert_eq!(s.spawn(ForkOutcome::Failed), Err(SpawnError::Fork));
    assert_eq!(s.state, ChildState::NotStarted);
    assert_eq!(s.spawn(ForkOutcome::Child), Ok(()));
    assert_eq!(s.state, ChildState::NotStarted);
}

#[test]
fn demotion_order() {
    let s = SessionHandler::new("alice", "/bin/zsh");
    let acc = Account { name: "alice".to_string(), uid: 1000, gid: 100 };
    let plan = s.demotion_plan(&acc, vec![100, 27, 44]);
    assert_eq!(plan.len(), 5);
    assert!(matches!(plan[0], PrivilegeStep::NewSession));
    assert!(matches!(&plan[1], PrivilegeStep::SetGroups { groups } if groups == &vec![100, 27, 44]));
    assert!(matches!(plan[2], PrivilegeStep::SetGid { gid: 100 }));
    assert!(matches!(plan[3], PrivilegeStep::SetUid { uid: 1000 }));
    assert!(matches!(&plan[4], PrivilegeStep::Exec { shell } if shell == "/bin/zsh"));
}
