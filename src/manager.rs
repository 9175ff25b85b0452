use crate::credential::{
    asks_afresh, can_ask_afresh, falls_through, may_fall_through, Credential, CredentialError,
    SourceKind,
};
use crate::session::Session;
use vstd::prelude::*;

verus! {

/// What the bootstrap decides by: the configured server, the credential
/// sources in the order they are tried, and an optional bound on the number
/// of rejected logins (none: the operator retries until they abort).
#[derive(Debug)]
pub struct Policy {
    pub server: String,
    pub sources: Vec<SourceKind>,
    pub max_failures: Option<u64>,
}

impl Policy {
    /// The production policy for `server`: the secure store first, then the
    /// operator's prompt, with no bound on rejected logins.
    pub fn standard(server: String) -> (r: Policy)
        ensures
            r.server == server,
            r.sources@ == seq![SourceKind::SecureStore, SourceKind::Prompt],
            r.max_failures is None,
    {
        let mut sources: Vec<SourceKind> = Vec::new();
        sources.push(SourceKind::SecureStore);
        sources.push(SourceKind::Prompt);
        assert(sources@ =~= seq![SourceKind::SecureStore, SourceKind::Prompt]);
        Policy { server, sources, max_failures: None }
    }
}

/// A condition that ends the bootstrap; the process reports it and exits.
#[derive(Debug, PartialEq, Eq)]
pub enum Fatal {
    /// The session file exists but could not be read as a session.
    CorruptSession(String),
    /// The stored session is incomplete or belongs to another server.
    ForeignSession,
    /// The protocol client refused the stored session.
    RestoreFailed(String),
    /// No source could give a credential; the last source's error.
    NoCredential(CredentialError),
    /// A login was rejected and no source is left that could give another
    /// credential.
    CredentialsRejected(String),
    /// The bound on rejected logins was reached.
    TooManyFailures(u64),
    /// A login produced a session that is incomplete or for another server.
    ForeignLogin,
    /// The new session could not be written.
    SaveFailed(String),
    /// The synchronisation loop ended.
    SyncStopped(String),
}

/// The phases of the bootstrap.
#[derive(Debug, PartialEq, Eq)]
pub enum State {
    Uninitialized,
    /// Waiting for the session file to be read.
    Restoring,
    /// Waiting for the protocol client to take the stored session.
    Resuming,
    /// Waiting for a credential from source number `source` of the policy.
    Authenticating { source: usize, failures: u64 },
    /// Waiting for the outcome of a login with that source's credential.
    LoggingIn { source: usize, failures: u64 },
    /// Waiting for the new session to be written.
    Saving,
    /// A session is in place and synchronisation runs.
    Authenticated,
    Failed(Fatal),
}

/// What the outside world reports back.
#[derive(Debug, PartialEq, Eq)]
pub enum Event {
    Start,
    SessionLoaded(Session),
    SessionMissing,
    SessionCorrupt(String),
    Restored,
    RestoreFailed(String),
    CredentialReady(Credential),
    CredentialFailed(CredentialError),
    LoginSucceeded(Session),
    LoginFailed(String),
    SessionSaved,
    SaveFailed(String),
    SyncStopped(String),
}

/// What the outside world is asked to do next.
#[derive(Debug, PartialEq, Eq)]
pub enum Action {
    /// Read the session file.
    LoadSession,
    /// Hand the stored session to the protocol client.
    RestoreSession(Session),
    /// Ask a source for a credential, first printing why, if a login was
    /// just rejected.
    FetchCredential { source: SourceKind, notice: Option<String> },
    /// Log in with this credential, then drop it.
    Login(Credential),
    /// Write this session to the session file, replacing what was there.
    SaveSession(Session),
    /// Register the message handler and start synchronising.
    Sync,
    /// Report the condition and exit.
    Stop(Fatal),
    /// The event has no meaning in the current phase.
    Ignore,
}

pub open spec fn fail(f: Fatal) -> (State, Action) {
    (State::Failed(f), Action::Stop(f))
}

/// Ask source `i` of the policy, or fail with `none_left` when there is none.
pub open spec fn ask(p: Policy, i: int, failures: u64, notice: Option<String>, none_left: Fatal) -> (
    State,
    Action,
) {
    if 0 <= i < p.sources@.len() {
        (
            State::Authenticating { source: i as usize, failures },
            Action::FetchCredential { source: p.sources@[i], notice },
        )
    } else {
        fail(none_left)
    }
}

/// One more rejected login, counted up to the largest `u64`.
pub open spec fn bump(f: u64) -> u64 {
    if f < u64::MAX {
        (f + 1) as u64
    } else {
        f
    }
}

/// The source to ask after a login with source `i`'s credential was
/// rejected: the same one if it can give other values, else the next.
pub open spec fn retry_source(p: Policy, i: int) -> int {
    if 0 <= i < p.sources@.len() && asks_afresh(p.sources@[i]) {
        i
    } else {
        i + 1
    }
}

/// The transition of the bootstrap on one event.
pub open spec fn next(p: Policy, s: State, e: Event) -> (State, Action) {
    match (s, e) {
        (State::Uninitialized, Event::Start) => (State::Restoring, Action::LoadSession),
        (State::Restoring, Event::SessionLoaded(sess)) => if sess.valid_for(p.server@) {
            (State::Resuming, Action::RestoreSession(sess))
        } else {
            fail(Fatal::ForeignSession)
        },
        (State::Restoring, Event::SessionMissing) => ask(
            p,
            0,
            0,
            None,
            Fatal::NoCredential(CredentialError::NotFound),
        ),
        (State::Restoring, Event::SessionCorrupt(m)) => fail(Fatal::CorruptSession(m)),
        (State::Resuming, Event::Restored) => (State::Authenticated, Action::Sync),
        (State::Resuming, Event::RestoreFailed(m)) => fail(Fatal::RestoreFailed(m)),
        (State::Authenticating { source, failures }, Event::CredentialReady(c)) => (
            State::LoggingIn { source, failures },
            Action::Login(c),
        ),
        (State::Authenticating { source, failures }, Event::CredentialFailed(err)) => if falls_through(
            err,
        ) {
            ask(p, source + 1, failures, None, Fatal::NoCredential(err))
        } else {
            fail(Fatal::NoCredential(err))
        },
        (State::LoggingIn { source, failures }, Event::LoginSucceeded(sess)) => if sess.valid_for(
            p.server@,
        ) {
            (State::Saving, Action::SaveSession(sess))
        } else {
            fail(Fatal::ForeignLogin)
        },
        (State::LoggingIn { source, failures }, Event::LoginFailed(m)) => if p.max_failures is Some
            && bump(failures) >= p.max_failures->0 {
            fail(Fatal::TooManyFailures(bump(failures)))
        } else {
            ask(
                p,
                retry_source(p, source as int),
                bump(failures),
                Some(m),
                Fatal::CredentialsRejected(m),
            )
        },
        (State::Saving, Event::SessionSaved) => (State::Authenticated, Action::Sync),
        (State::Saving, Event::SaveFailed(m)) => fail(Fatal::SaveFailed(m)),
        (State::Authenticated, Event::SyncStopped(m)) => fail(Fatal::SyncStopped(m)),
        (s, _) => (s, Action::Ignore),
    }
}

impl Fatal {
    /// A copy of the condition, for the state and for the report.
    pub fn duplicate(&self) -> (r: Fatal)
        ensures
            r == *self,
    {
        match self {
            Fatal::CorruptSession(m) => Fatal::CorruptSession(m.clone()),
            Fatal::ForeignSession => Fatal::ForeignSession,
            Fatal::RestoreFailed(m) => Fatal::RestoreFailed(m.clone()),
            Fatal::NoCredential(e) => Fatal::NoCredential(*e),
            Fatal::CredentialsRejected(m) => Fatal::CredentialsRejected(m.clone()),
            Fatal::TooManyFailures(n) => Fatal::TooManyFailures(*n),
            Fatal::ForeignLogin => Fatal::ForeignLogin,
            Fatal::SaveFailed(m) => Fatal::SaveFailed(m.clone()),
            Fatal::SyncStopped(m) => Fatal::SyncStopped(m.clone()),
        }
    }
}

/// Drives the bootstrap one event at a time: each call takes what the
/// outside world reports and says what it must do next.
#[derive(Debug)]
pub struct SessionManager {
    pub policy: Policy,
    pub state: State,
}

impl SessionManager {
    pub fn new(policy: Policy) -> (r: SessionManager)
        ensures
            r.policy == policy,
            r.state == State::Uninitialized,
    {
        SessionManager { policy, state: State::Uninitialized }
    }

    fn stop(&mut self, f: Fatal) -> (r: Action)
        ensures
            final(self).policy == old(self).policy,
            (final(self).state, r) == fail(f),
    {
        let g = f.duplicate();
        self.state = State::Failed(f);
        Action::Stop(g)
    }

    fn ask_source(&mut self, i: usize, failures: u64, notice: Option<String>, none_left: Fatal) -> (r:
        Action)
        ensures
            final(self).policy == old(self).policy,
            (final(self).state, r) == ask(old(self).policy, i as int, failures, notice, none_left),
    {
        if i < self.policy.sources.len() {
            self.state = State::Authenticating { source: i, failures };
            Action::FetchCredential { source: self.policy.sources[i], notice }
        } else {
            self.stop(none_left)
        }
    }

    /// Takes one event and returns the action it calls for.
    pub fn handle(&mut self, event: Event) -> (r: Action)
        ensures
            final(self).policy == old(self).policy,
            (final(self).state, r) == next(old(self).policy, old(self).state, event),
    {
        match event {
            Event::Start => {
                if let State::Uninitialized = self.state {
                    self.state = State::Restoring;
                    Action::LoadSession
                } else {
                    Action::Ignore
                }
            },
            Event::SessionLoaded(sess) => {
                if let State::Restoring = self.state {
                    if sess.is_valid_for(self.policy.server.as_str()) {
                        self.state = State::Resuming;
                        Action::RestoreSession(sess)
                    } else {
                        self.stop(Fatal::ForeignSession)
                    }
                } else {
                    Action::Ignore
                }
            },
            Event::SessionMissing => {
                if let State::Restoring = self.state {
                    self.ask_source(0, 0, None, Fatal::NoCredential(CredentialError::NotFound))
                } else {
                    Action::Ignore
                }
            },
            Event::SessionCorrupt(m) => {
                if let State::Restoring = self.state {
                    self.stop(Fatal::CorruptSession(m))
                } else {
                    Action::Ignore
                }
            },
            Event::Restored => {
                if let State::Resuming = self.state {
                    self.state = State::Authenticated;
                    Action::Sync
                } else {
                    Action::Ignore
                }
            },
            Event::RestoreFailed(m) => {
                if let State::Resuming = self.state {
                    self.stop(Fatal::RestoreFailed(m))
                } else {
                    Action::Ignore
                }
            },
            Event::CredentialReady(c) => {
                if let State::Authenticating { source, failures } = self.state {
                    self.state = State::LoggingIn { source, failures };
                    Action::Login(c)
                } else {
                    Action::Ignore
                }
            },
            Event::CredentialFailed(err) => {
                if let State::Authenticating { source, failures } = self.state {
                    if may_fall_through(err) && source < self.policy.sources.len() {
                        self.ask_source(source + 1, failures, None, Fatal::NoCredential(err))
                    } else {
                        self.stop(Fatal::NoCredential(err))
                    }
                } else {
                    Action::Ignore
                }
            },
            Event::LoginSucceeded(sess) => {
                if let State::LoggingIn { .. } = self.state {
                    if sess.is_valid_for(self.policy.server.as_str()) {
                        self.state = State::Saving;
                        Action::SaveSession(sess)
                    } else {
                        self.stop(Fatal::ForeignLogin)
                    }
                } else {
                    Action::Ignore
                }
            },
            Event::LoginFailed(m) => {
                if let State::LoggingIn { source, failures } = self.state {
                    let n = if failures < u64::MAX {
                        failures + 1
                    } else {
                        failures
                    };
                    let over = match self.policy.max_failures {
                        Some(k) => n >= k,
                        None => false,
                    };
                    if over {
                        self.stop(Fatal::TooManyFailures(n))
                    } else {
                        let again = source < self.policy.sources.len() && can_ask_afresh(
                            self.policy.sources[source],
                        );
                        if again {
                            let notice = m.clone();
                            self.ask_source(source, n, Some(notice), Fatal::CredentialsRejected(m))
                        } else if source < self.policy.sources.len() {
                            let notice = m.clone();
                            self.ask_source(
                                source + 1,
                                n,
                                Some(notice),
                                Fatal::CredentialsRejected(m),
                            )
                        } else {
                            self.stop(Fatal::CredentialsRejected(m))
                        }
                    }
                } else {
                    Action::Ignore
                }
            },
            Event::SessionSaved => {
                if let State::Saving = self.state {
                    self.state = State::Authenticated;
                    Action::Sync
                } else {
                    Action::Ignore
                }
            },
            Event::SaveFailed(m) => {
                if let State::Saving = self.state {
                    self.stop(Fatal::SaveFailed(m))
                } else {
                    Action::Ignore
                }
            },
            Event::SyncStopped(m) => {
                if let State::Authenticated = self.state {
                    self.stop(Fatal::SyncStopped(m))
                } else {
                    Action::Ignore
                }
            },
        }
    }
}

} // verus!
