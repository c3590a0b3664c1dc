//! The user's session process: the order in which the child gives up its
//! privileges before it becomes the shell, and the parent's view of the child.
use vstd::prelude::*;
use crate::auth::Account;

verus! {

/// One step of the child between the fork and the shell. A failed step ends
/// the child.
pub enum PrivilegeStep {
    /// Become the leader of a new session.
    NewSession,
    /// Set the supplementary group list.
    SetGroups { groups: Vec<u32> },
    /// Set the primary group id.
    SetGid { gid: u32 },
    /// Set the user id.
    SetUid { uid: u32 },
    /// Replace the program image with the shell.
    Exec { shell: String },
}

/// The parent's view of the child.
#[derive(Clone, Copy, Debug, PartialEq, Eq, Structural)]
pub enum ChildState {
    NotStarted,
    Running { pid: i32 },
    Exited { status: i32 },
}

/// What the fork gave.
#[derive(Clone, Copy, Debug, PartialEq, Eq, Structural)]
pub enum ForkOutcome {
    /// In the parent, with the child's process id.
    Parent { child: i32 },
    /// In the child.
    Child,
    /// No child was created.
    Failed,
}

#[derive(Clone, Copy, Debug, PartialEq, Eq, Structural)]
pub enum SpawnError {
    /// The account is not in the account database.
    UnknownUser,
    /// The fork failed.
    Fork,
}

/// The steps of the child, in order: new session, supplementary groups,
/// primary group, user id, then the shell. Every group change comes while
/// the user id is still the privileged one, and the user id change is the
/// last privilege change before the shell.
pub open spec fn is_demotion_plan(plan: Seq<PrivilegeStep>, account: Account, groups: Seq<u32>, shell: Seq<char>) -> bool {
    &&& plan.len() == 5
    &&& plan[0] is NewSession
    &&& match plan[1] {
        PrivilegeStep::SetGroups { groups: g } => g@ == groups,
        _ => false,
    }
    &&& plan[2] == PrivilegeStep::SetGid { gid: account.gid }
    &&& plan[3] == PrivilegeStep::SetUid { uid: account.uid }
    &&& match plan[4] {
        PrivilegeStep::Exec { shell: s } => s@ == shell,
        _ => false,
    }
}

/// The login session of one user: the shell to start and the child that
/// runs it.
pub struct SessionHandler {
    pub username: String,
    pub shell: String,
    pub state: ChildState,
}

impl SessionHandler {
    pub fn new(username: &str, shell: &str) -> (r: SessionHandler)
        ensures
            r.username@ == username@,
            r.shell@ == shell@,
            r.state == ChildState::NotStarted,
    {
        SessionHandler { username: username.to_owned(), shell: shell.to_owned(), state: ChildState::NotStarted }
    }

    /// Takes note of the fork: in the parent the child is running; a failed
    /// fork is reported and changes nothing.
    pub fn spawn(&mut self, fork: ForkOutcome) -> (r: Result<(), SpawnError>)
        ensures
            final(self).username == old(self).username,
            final(self).shell == old(self).shell,
            match fork {
                ForkOutcome::Parent { child } => r is Ok && final(self).state == (ChildState::Running { pid: child }),
                ForkOutcome::Child => r is Ok && final(self).state == old(self).state,
                ForkOutcome::Failed => r == Err::<(), SpawnError>(SpawnError::Fork) && final(self).state == old(self).state,
            },
    {
        match fork {
            ForkOutcome::Parent { child } => {
                self.state = ChildState::Running { pid: child };
                Ok(())
            },
            ForkOutcome::Child => Ok(()),
            ForkOutcome::Failed => Err(SpawnError::Fork),
        }
    }

    /// The process id of the running child.
    pub fn pid(&self) -> (r: Option<i32>)
        ensures
            match self.state {
                ChildState::Running { pid } => r == Some(pid),
                _ => r is None,
            },
    {
        match self.state {
            ChildState::Running { pid } => Some(pid),
            _ => None,
        }
    }

    /// Takes note of the outcome of waiting for the child: its exit status,
    /// or `None` when it could not be waited for.
    pub fn wait(&mut self, outcome: Option<i32>) -> (r: Option<i32>)
        ensures
            final(self).username == old(self).username,
            final(self).shell == old(self).shell,
            match (old(self).state, outcome) {
                (ChildState::Running { .. }, Some(status)) => r == Some(status) && final(self).state == (ChildState::Exited { status }),
                _ => r is None && final(self).state == old(self).state,
            },
    {
        match (self.state, outcome) {
            (ChildState::Running { .. }, Some(status)) => {
                self.state = ChildState::Exited { status };
                Some(status)
            },
            _ => None,
        }
    }

    /// What the child does after the fork, for `account` with its
    /// supplementary `groups`.
    pub fn demotion_plan(&self, account: &Account, groups: Vec<u32>) -> (r: Vec<PrivilegeStep>)
        ensures
            is_demotion_plan(r@, *account, groups@, self.shell@),
    {
        let mut plan: Vec<PrivilegeStep> = Vec::new();
        plan.push(PrivilegeStep::NewSession);
        plan.push(PrivilegeStep::SetGroups { groups });
        plan.push(PrivilegeStep::SetGid { gid: account.gid });
        plan.push(PrivilegeStep::SetUid { uid: account.uid });
        plan.push(PrivilegeStep::Exec { shell: self.shell.clone() });
        plan
    }
}

} // verus!
