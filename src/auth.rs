//! The login attempt controller: a state machine from the outcome of each
//! outside step (prompt, account lookup, authentication service) to the
//! next step to perform.
use vstd::prelude::*;

verus! {

/// What `str::trim` gives: the text without leading and trailing whitespace.
pub uninterp spec fn trimmed(s: Seq<char>) -> Seq<char>;

/// Relies on `str::trim`: removes leading and trailing whitespace; an empty
/// text stays empty.
#[verifier::external_body]
fn trim_text(s: &str) -> (r: String)
    ensures
        r@ == trimmed(s@),
        s@.len() == 0 ==> r@.len() == 0,
{
    s.trim().to_string()
}

/// An account as the account database resolves it.
#[derive(Clone, Debug, PartialEq, Eq)]
pub struct Account {
    pub name: String,
    pub uid: u32,
    pub gid: u32,
}

/// Where the current attempt stands.
pub enum LoginPhase {
    /// Waiting for the username prompt.
    AwaitUsername,
    /// Waiting for the password prompt.
    AwaitPassword { username: String },
    /// Waiting for the account lookup of `username`.
    AwaitAccount { username: String, password: String },
    /// Waiting for the authentication service.
    AwaitAuth { account: Account },
    /// An attempt succeeded.
    Accepted,
    /// Every attempt failed.
    Exhausted,
}

/// The outcome of the step last requested.
pub enum LoginEvent {
    /// The username line, or `None` when it could not be read.
    Username(Option<String>),
    /// The password line, or `None` when it could not be read.
    Password(Option<String>),
    /// The account found for the username, or `None` when there is none.
    Account(Option<Account>),
    /// Whether the authentication service accepted the credentials.
    Authenticated(bool),
}

/// The next step to perform.
pub enum LoginAction {
    PromptUsername,
    PromptPassword,
    LookUp { username: String },
    Authenticate { username: String, password: String },
    /// Login succeeded for this account.
    Accept { account: Account },
    /// Too many failed attempts.
    GiveUp,
    /// The sequence has already ended in success.
    Finished,
}

/// The attempt loop of the login sequence.
pub struct LoginController {
    pub min_uid: u32,
    pub max_attempts: u8,
    /// Number of the current attempt, from 1.
    pub attempt: u8,
    pub phase: LoginPhase,
}

/// Attempt number and whether the attempts are used up.
pub open spec fn progress(c: LoginController) -> (u8, bool) {
    (c.attempt, c.phase is Exhausted)
}

/// Progress after one more failed attempt.
pub open spec fn fail_once(p: (u8, bool), max_attempts: u8) -> (u8, bool) {
    if p.1 {
        p
    } else if p.0 >= max_attempts {
        (p.0, true)
    } else {
        ((p.0 + 1) as u8, false)
    }
}

/// Progress at the start of the sequence.
pub open spec fn initial_progress(max_attempts: u8) -> (u8, bool) {
    (1, max_attempts == 0)
}

/// Progress after `k` consecutive failed attempts from the start.
pub open spec fn progress_after(max_attempts: u8, k: nat) -> (u8, bool)
    decreases k,
{
    if k == 0 {
        initial_progress(max_attempts)
    } else {
        fail_once(progress_after(max_attempts, (k - 1) as nat), max_attempts)
    }
}

/// Whether `e` ends the attempt in phase `phase` without success: an
/// unreadable or blank input, an unknown account, an account below the
/// minimum user id, or a rejection by the authentication service.
pub open spec fn is_failure(phase: LoginPhase, min_uid: u32, e: LoginEvent) -> bool {
    match phase {
        LoginPhase::AwaitUsername => match e {
            LoginEvent::Username(Some(line)) => trimmed(line@).len() == 0,
            _ => true,
        },
        LoginPhase::AwaitPassword { .. } => match e {
            LoginEvent::Password(Some(line)) => trimmed(line@).len() == 0,
            _ => true,
        },
        LoginPhase::AwaitAccount { .. } => match e {
            LoginEvent::Account(Some(a)) => a.uid < min_uid,
            _ => true,
        },
        LoginPhase::AwaitAuth { .. } => match e {
            LoginEvent::Authenticated(ok) => !ok,
            _ => true,
        },
        _ => false,
    }
}

/// The step after a failed attempt: the next attempt, or giving up.
pub open spec fn failed_step(old: LoginController, new: LoginController, act: LoginAction) -> bool {
    &&& progress(new) == fail_once(progress(old), old.max_attempts)
    &&& if progress(new).1 {
        new.phase is Exhausted && act is GiveUp
    } else {
        new.phase is AwaitUsername && act is PromptUsername
    }
}

/// The step after an event that moves the attempt forward.
pub open spec fn advanced_step(old: LoginController, e: LoginEvent, new: LoginController, act: LoginAction) -> bool {
    match (old.phase, e) {
        (LoginPhase::AwaitUsername, LoginEvent::Username(Some(line))) => match (new.phase, act) {
            (LoginPhase::AwaitPassword { username }, LoginAction::PromptPassword) => username@ == trimmed(line@),
            _ => false,
        },
        (LoginPhase::AwaitPassword { username }, LoginEvent::Password(Some(line))) => match (new.phase, act) {
            (LoginPhase::AwaitAccount { username: u, password: p }, LoginAction::LookUp { username: l }) => {
                &&& u@ == username@
                &&& p@ == line@
                &&& l@ == username@
            },
            _ => false,
        },
        (LoginPhase::AwaitAccount { username, password }, LoginEvent::Account(Some(a))) => match (new.phase, act) {
            (LoginPhase::AwaitAuth { account }, LoginAction::Authenticate { username: u, password: p }) => {
                &&& account == a
                &&& u@ == username@
                &&& p@ == password@
            },
            _ => false,
        },
        (LoginPhase::AwaitAuth { account }, LoginEvent::Authenticated(true)) => {
            new.phase is Accepted && act == (LoginAction::Accept { account })
        },
        _ => false,
    }
}

/// Whether the event, in the current phase, lets authentication be requested:
/// only an account that exists and whose user id is at least the minimum.
pub open spec fn may_authenticate(old: LoginController, e: LoginEvent) -> bool {
    match e {
        LoginEvent::Account(Some(a)) => old.phase is AwaitAccount && a.uid >= old.min_uid,
        _ => false,
    }
}

/// An unknown account, and an account below the minimum user id whatever
/// the password, end the attempt as a failure: authentication is never
/// requested for them.
pub proof fn lemma_rejected_accounts_fail(c: LoginController, e: LoginEvent)
    requires
        c.phase is AwaitAccount,
        match e {
            LoginEvent::Account(None) => true,
            LoginEvent::Account(Some(a)) => a.uid < c.min_uid,
            _ => false,
        },
    ensures
        is_failure(c.phase, c.min_uid, e),
        !may_authenticate(c, e),
{
}

/// Consecutive failures use the attempts up one by one: after `k` of them
/// the sequence is at attempt `k + 1` while `k` is below `max_attempts`, and
/// it has given up exactly when `k` reaches `max_attempts`.
pub proof fn lemma_failures_exhaust(max_attempts: u8, k: nat)
    ensures
        progress_after(max_attempts, k).1 <==> k >= max_attempts,
        k < max_attempts ==> progress_after(max_attempts, k).0 == k + 1,
        k >= max_attempts && max_attempts > 0 ==> progress_after(max_attempts, k).0 == max_attempts,
    decreases k,
{
    if k > 0 {
        lemma_failures_exhaust(max_attempts, (k - 1) as nat);
    }
}

impl LoginController {
    /// The attempt number runs from 1 and never passes `max_attempts`.
    pub open spec fn wf(&self) -> bool {
        &&& self.attempt >= 1
        &&& self.max_attempts > 0 ==> self.attempt <= self.max_attempts
    }

    /// Starts the sequence: the first prompt, or giving up at once when no
    /// attempt is allowed.
    pub fn start(min_uid: u32, max_attempts: u8) -> (r: (LoginController, LoginAction))
        ensures
            r.0.min_uid == min_uid,
            r.0.max_attempts == max_attempts,
            progress(r.0) == initial_progress(max_attempts),
            r.0.wf(),
            max_attempts == 0 ==> r.0.phase is Exhausted && r.1 is GiveUp,
            max_attempts > 0 ==> r.0.phase is AwaitUsername && r.1 is PromptUsername,
    {
        if max_attempts == 0 {
            (LoginController { min_uid, max_attempts, attempt: 1, phase: LoginPhase::Exhausted }, LoginAction::GiveUp)
        } else {
            (
                LoginController { min_uid, max_attempts, attempt: 1, phase: LoginPhase::AwaitUsername },
                LoginAction::PromptUsername,
            )
        }
    }

    /// Feeds the outcome of the step last requested and gives the next one.
    pub fn handle_login(self, event: LoginEvent) -> (r: (LoginController, LoginAction))
        ensures
            self.wf() ==> r.0.wf(),
            r.0.min_uid == self.min_uid,
            r.0.max_attempts == self.max_attempts,
            is_failure(self.phase, self.min_uid, event) ==> failed_step(self, r.0, r.1),
            !is_failure(self.phase, self.min_uid, event) && !(self.phase is Accepted)
                && !(self.phase is Exhausted) ==> r.0.attempt == self.attempt && advanced_step(
                self,
                event,
                r.0,
                r.1,
            ),
            self.phase is Exhausted ==> r.0.phase is Exhausted && r.0.attempt == self.attempt
                && r.1 is GiveUp,
            self.phase is Accepted ==> r.0.phase is Accepted && r.0.attempt == self.attempt
                && r.1 is Finished,
            r.1 is Authenticate ==> may_authenticate(self, event),
            r.1 is Accept ==> self.phase is AwaitAuth && event == LoginEvent::Authenticated(true),
    {
        let min_uid = self.min_uid;
        let max_attempts = self.max_attempts;
        let attempt = self.attempt;
        match (self.phase, event) {
            (LoginPhase::AwaitUsername, LoginEvent::Username(Some(line))) => {
                let username = trim_text(line.as_str());
                LoginController { min_uid, max_attempts, attempt, phase: LoginPhase::AwaitUsername }.take_username(
                    username,
                )
            },
            (LoginPhase::AwaitPassword { username }, LoginEvent::Password(Some(password))) => {
                let trimmed = trim_text(password.as_str());
                LoginController { min_uid, max_attempts, attempt, phase: LoginPhase::AwaitUsername }.take_password(
                    username,
                    password,
                    trimmed.as_str(),
                )
            },
            (LoginPhase::AwaitAccount { username, password }, LoginEvent::Account(Some(account))) => {
                if account.uid < min_uid {
                    return LoginController { min_uid, max_attempts, attempt, phase: LoginPhase::AwaitUsername }.fail();
                }
                (
                    LoginController { min_uid, max_attempts, attempt, phase: LoginPhase::AwaitAuth { account } },
                    LoginAction::Authenticate { username, password },
                )
            },
            (LoginPhase::AwaitAuth { account }, LoginEvent::Authenticated(ok)) => {
                if !ok {
                    return LoginController { min_uid, max_attempts, attempt, phase: LoginPhase::AwaitUsername }.fail();
                }
                (
                    LoginController { min_uid, max_attempts, attempt, phase: LoginPhase::Accepted },
                    LoginAction::Accept { account },
                )
            },
            (LoginPhase::Accepted, _) => (
                LoginController { min_uid, max_attempts, attempt, phase: LoginPhase::Accepted },
                LoginAction::Finished,
            ),
            (LoginPhase::Exhausted, _) => (
                LoginController { min_uid, max_attempts, attempt, phase: LoginPhase::Exhausted },
                LoginAction::GiveUp,
            ),
            (_, _) => LoginController { min_uid, max_attempts, attempt, phase: LoginPhase::AwaitUsername }.fail(),
        }
    }

    /// The step on a username already stripped of surrounding whitespace: a
    /// blank one fails the attempt; any other is kept and the password is
    /// asked for.
    pub fn take_username(self, username: String) -> (r: (LoginController, LoginAction))
        ensures
            self.wf() ==> r.0.wf(),
            r.0.min_uid == self.min_uid,
            r.0.max_attempts == self.max_attempts,
            username@.len() == 0 ==> failed_step(self, r.0, r.1),
            username@.len() > 0 ==> r.0.attempt == self.attempt && r.1 is PromptPassword && match r.0.phase {
                LoginPhase::AwaitPassword { username: u } => u@ == username@,
                _ => false,
            },
    {
        if username.as_str().is_empty() {
            return self.fail();
        }
        let LoginController { min_uid, max_attempts, attempt, .. } = self;
        (
            LoginController { min_uid, max_attempts, attempt, phase: LoginPhase::AwaitPassword { username } },
            LoginAction::PromptPassword,
        )
    }

    /// The step on `password` for `username`, where `trimmed` is the password
    /// without surrounding whitespace: a blank password fails the attempt;
    /// otherwise both are kept, unchanged, and the account is looked up.
    pub fn take_password(self, username: String, password: String, trimmed: &str) -> (r: (
        LoginController,
        LoginAction,
    ))
        ensures
            self.wf() ==> r.0.wf(),
            r.0.min_uid == self.min_uid,
            r.0.max_attempts == self.max_attempts,
            trimmed@.len() == 0 ==> failed_step(self, r.0, r.1),
            trimmed@.len() > 0 ==> r.0.attempt == self.attempt && match (r.0.phase, r.1) {
                (LoginPhase::AwaitAccount { username: u, password: p }, LoginAction::LookUp { username: l }) => {
                    &&& u@ == username@
                    &&& p@ == password@
                    &&& l@ == username@
                },
                _ => false,
            },
    {
        if trimmed.is_empty() {
            return self.fail();
        }
        let LoginController { min_uid, max_attempts, attempt, .. } = self;
        let lookup = username.clone();
        (
            LoginController { min_uid, max_attempts, attempt, phase: LoginPhase::AwaitAccount { username, password } },
            LoginAction::LookUp { username: lookup },
        )
    }

    fn fail(self) -> (r: (LoginController, LoginAction))
        ensures
            self.wf() ==> r.0.wf(),
            r.0.min_uid == self.min_uid,
            r.0.max_attempts == self.max_attempts,
            failed_step(self, r.0, r.1),
    {
        let LoginController { min_uid, max_attempts, attempt, phase } = self;
        if matches!(phase, LoginPhase::Exhausted) || attempt >= max_attempts {
            (LoginController { min_uid, max_attempts, attempt, phase: LoginPhase::Exhausted }, LoginAction::GiveUp)
        } else {
            (
                LoginController { min_uid, max_attempts, attempt: attempt + 1, phase: LoginPhase::AwaitUsername },
                LoginAction::PromptUsername,
            )
        }
    }
}

} // verus!
