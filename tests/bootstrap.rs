use chat_session::credential::{Credential, CredentialError, SourceKind};
use chat_session::manager::{Action, Event, Fatal, Policy, SessionManager, State};
use chat_session::session::{user_id_names_server, Session, SESSION_FILE};
use chat_session::terminal::{enable_ansi_support, AnsiSupport};

fn alice_session() -> Session {
    Session {
        user_id: "@alice:example.org".to_string(),
        device_id: "DEVICEA".to_string(),
        access_token: "token-1".to_string(),
        refresh_token: None,
    }
}

fn credential(user: &str, pass: &str) -> Credential {
    Credential { username: user.to_string(), password: pass.to_string() }
}

fn prompt_only(server: &str, max_failures: Option<u64>) -> Policy {
    Policy { server: server.to_string(), sources: vec![SourceKind::Prompt], max_failures }
}

fn fetch(source: SourceKind, notice: Option<&str>) -> Action {
    Action::FetchCredential { source, notice: notice.map(|n| n.to_string()) }
}

#[test]
fn first_run_logs_in_and_saves_then_second_run_restores() {
    // First run: empty storage directory, secure store without an entry.
    let mut m = SessionManager::new(Policy::standard("example.org".to_string()));
    assert_eq!(m.handle(Event::Start), Action::LoadSession);
    assert_eq!(m.handle(Event::SessionMissing), fetch(SourceKind::SecureStore, None));
    assert_eq!(
        m.handle(Event::CredentialFailed(CredentialError::NotFound)),
        fetch(SourceKind::Prompt, None)
    );
    let typed = Credential::from_input("alice\n", "secret123\n");
    assert_eq!(typed, credential("alice", "secret123"));
    assert_eq!(m.handle(Event::CredentialReady(typed)), Action::Login(credential("alice", "secret123")));
    let saved = match m.handle(Event::LoginSucceeded(alice_session())) {
        Action::SaveSession(s) => s,
        other => panic!("expected a save, got {:?}", other),
    };
    assert_eq!(saved.user_id, "@alice:example.org");
    assert_eq!(m.handle(Event::SessionSaved), Action::Sync);
    assert_eq!(m.state, State::Authenticated);

    // Second run: the saved session is found; no prompt, no write.
    let mut m2 = SessionManager::new(Policy::standard("example.org".to_string()));
    assert_eq!(m2.handle(Event::Start), Action::LoadSession);
    assert_eq!(m2.handle(Event::SessionLoaded(saved)), Action::RestoreSession(alice_session()));
    assert_eq!(m2.handle(Event::Restored), Action::Sync);
    assert_eq!(m2.state, State::Authenticated);
}

#[test]
fn restore_ignores_later_login_events() {
    let mut m = SessionManager::new(Policy::standard("example.org".to_string()));
    m.handle(Event::Start);
    m.handle(Event::SessionLoaded(alice_session()));
    m.handle(Event::Restored);
    assert_eq!(m.handle(Event::LoginSucceeded(alice_session())), Action::Ignore);
    assert_eq!(m.handle(Event::SessionMissing), Action::Ignore);
    assert_eq!(m.handle(Event::CredentialReady(credential("a", "b"))), Action::Ignore);
    assert_eq!(m.state, State::Authenticated);
}

#[test]
fn rejected_logins_retry_until_success() {
    let mut m = SessionManager::new(prompt_only("example.org", None));
    m.handle(Event::Start);
    assert_eq!(m.handle(Event::SessionMissing), fetch(SourceKind::Prompt, None));
    let mut writes = 0;
    for i in 0..3u64 {
        assert_eq!(m.handle(Event::CredentialReady(credential("alice", "wrong"))), Action::Login(credential("alice", "wrong")));
        assert_eq!(
            m.handle(Event::LoginFailed("M_FORBIDDEN".to_string())),
            fetch(SourceKind::Prompt, Some("M_FORBIDDEN"))
        );
        assert_eq!(m.state, State::Authenticating { source: 0, failures: i + 1 });
    }
    m.handle(Event::CredentialReady(credential("alice", "secret123")));
    if let Action::SaveSession(_) = m.handle(Event::LoginSucceeded(alice_session())) {
        writes += 1;
    }
    assert_eq!(m.handle(Event::SessionSaved), Action::Sync);
    assert_eq!(writes, 1);
}

#[test]
fn bound_on_rejected_logins_stops() {
    let mut m = SessionManager::new(prompt_only("example.org", Some(2)));
    m.handle(Event::Start);
    m.handle(Event::SessionMissing);
    m.handle(Event::CredentialReady(credential("alice", "x")));
    assert_eq!(
        m.handle(Event::LoginFailed("bad".to_string())),
        fetch(SourceKind::Prompt, Some("bad"))
    );
    m.handle(Event::CredentialReady(credential("alice", "y")));
    assert_eq!(
        m.handle(Event::LoginFailed("bad".to_string())),
        Action::Stop(Fatal::TooManyFailures(2))
    );
    assert_eq!(m.state, State::Failed(Fatal::TooManyFailures(2)));
}

#[test]
fn corrupt_session_file_is_fatal() {
    let mut m = SessionManager::new(Policy::standard("example.org".to_string()));
    m.handle(Event::Start);
    let r = m.handle(Event::SessionCorrupt("expected value at line 1".to_string()));
    assert_eq!(r, Action::Stop(Fatal::CorruptSession("expected value at line 1".to_string())));
    assert_eq!(m.handle(Event::SessionMissing), Action::Ignore);
}

#[test]
fn session_for_another_server_is_fatal() {
    let mut m = SessionManager::new(Policy::standard("matrix.org".to_string()));
    m.handle(Event::Start);
    assert_eq!(m.handle(Event::SessionLoaded(alice_session())), Action::Stop(Fatal::ForeignSession));
}

#[test]
fn login_session_for_another_server_is_fatal() {
    let mut m = SessionManager::new(prompt_only("matrix.org", None));
    m.handle(Event::Start);
    m.handle(Event::SessionMissing);
    m.handle(Event::CredentialReady(credential("alice", "x")));
    assert_eq!(m.handle(Event::LoginSucceeded(alice_session())), Action::Stop(Fatal::ForeignLogin));
}

#[test]
fn secure_store_denied_falls_to_prompt() {
    let mut m = SessionManager::new(Policy::standard("example.org".to_string()));
    m.handle(Event::Start);
    m.handle(Event::SessionMissing);
    assert_eq!(
        m.handle(Event::CredentialFailed(CredentialError::AccessDenied)),
        fetch(SourceKind::Prompt, None)
    );
}

#[test]
fn closed_input_is_fatal() {
    let mut m = SessionManager::new(Policy::standard("example.org".to_string()));
    m.handle(Event::Start);
    m.handle(Event::SessionMissing);
    m.handle(Event::CredentialFailed(CredentialError::NotFound));
    assert_eq!(
        m.handle(Event::CredentialFailed(CredentialError::InputClosed)),
        Action::Stop(Fatal::NoCredential(CredentialError::InputClosed))
    );
}

#[test]
fn no_source_left_is_fatal() {
    let policy = Policy {
        server: "example.org".to_string(),
        sources: vec![SourceKind::SecureStore],
        max_failures: None,
    };
    let mut m = SessionManager::new(policy);
    m.handle(Event::Start);
    m.handle(Event::SessionMissing);
    assert_eq!(
        m.handle(Event::CredentialFailed(CredentialError::NotFound)),
        Action::Stop(Fatal::NoCredential(CredentialError::NotFound))
    );
}

#[test]
fn empty_policy_is_fatal() {
    let policy = Policy { server: "example.org".to_string(), sources: vec![], max_failures: None };
    let mut m = SessionManager::new(policy);
    m.handle(Event::Start);
    assert_eq!(
        m.handle(Event::SessionMissing),
        Action::Stop(Fatal::NoCredential(CredentialError::NotFound))
    );
}

#[test]
fn rejected_stored_credential_moves_on() {
    let mut m = SessionManager::new(Policy::standard("example.org".to_string()));
    m.handle(Event::Start);
    m.handle(Event::SessionMissing);
    m.handle(Event::CredentialReady(credential("alice", "old")));
    assert_eq!(
        m.handle(Event::LoginFailed("M_FORBIDDEN".to_string())),
        fetch(SourceKind::Prompt, Some("M_FORBIDDEN"))
    );
    assert_eq!(m.state, State::Authenticating { source: 1, failures: 1 });
}

#[test]
fn rejected_fixed_credential_without_next_source_stops() {
    let policy = Policy {
        server: "example.org".to_string(),
        sources: vec![SourceKind::Fixed],
        max_failures: None,
    };
    let mut m = SessionManager::new(policy);
    m.handle(Event::Start);
    m.handle(Event::SessionMissing);
    m.handle(Event::CredentialReady(credential("dev", "dev")));
    assert_eq!(
        m.handle(Event::LoginFailed("nope".to_string())),
        Action::Stop(Fatal::CredentialsRejected("nope".to_string()))
    );
}

#[test]
fn failed_write_and_failed_restore_are_fatal() {
    let mut m = SessionManager::new(prompt_only("example.org", None));
    m.handle(Event::Start);
    m.handle(Event::SessionMissing);
    m.handle(Event::CredentialReady(credential("alice", "secret123")));
    m.handle(Event::LoginSucceeded(alice_session()));
    assert_eq!(
        m.handle(Event::SaveFailed("read-only".to_string())),
        Action::Stop(Fatal::SaveFailed("read-only".to_string()))
    );

    let mut r = SessionManager::new(prompt_only("example.org", None));
    r.handle(Event::Start);
    r.handle(Event::SessionLoaded(alice_session()));
    assert_eq!(
        r.handle(Event::RestoreFailed("unknown token".to_string())),
        Action::Stop(Fatal::RestoreFailed("unknown token".to_string()))
    );
}

#[test]
fn sync_end_is_fatal() {
    let mut m = SessionManager::new(Policy::standard("example.org".to_string()));
    m.handle(Event::Start);
    m.handle(Event::SessionLoaded(alice_session()));
    m.handle(Event::Restored);
    assert_eq!(
        m.handle(Event::SyncStopped("token revoked".to_string())),
        Action::Stop(Fatal::SyncStopped("token revoked".to_string()))
    );
    assert_eq!(m.handle(Event::Start), Action::Ignore);
}

#[test]
fn credential_input_is_trimmed() {
    let c = Credential::from_input("  alice \t", "\tsecret123  \n");
    assert_eq!(c.username, "alice");
    assert_eq!(c.password, "secret123");
    let e = Credential::from_input("   ", "");
    assert_eq!(e.username, "");
    assert_eq!(e.password, "");
}

#[test]
fn user_ids_and_servers() {
    assert!(user_id_names_server("@alice:example.org", "example.org"));
    assert!(user_id_names_server("@bob:localhost:8448", "localhost:8448"));
    assert!(!user_id_names_server("@alice:example.org", "example.com"));
    assert!(!user_id_names_server("alice:example.org", "example.org"));
    assert!(!user_id_names_server("@:example.org", "example.org"));
    assert!(!user_id_names_server("@a:b:example.org", "example.org"));
    assert!(!user_id_names_server("@alice:", ""));
    assert!(!user_id_names_server("", "example.org"));
}

#[test]
fn session_validity() {
    assert!(alice_session().is_valid_for("example.org"));
    let mut s = alice_session();
    s.access_token = String::new();
    assert!(!s.is_valid_for("example.org"));
    let mut d = alice_session();
    d.device_id = String::new();
    assert!(!d.is_valid_for("example.org"));
    assert_eq!(SESSION_FILE, "session.json");
}

#[test]
fn terminal_setup_by_platform() {
    assert_eq!(enable_ansi_support(true), AnsiSupport::VirtualTerminal);
    assert_eq!(enable_ansi_support(false), AnsiSupport::Native);
    assert_eq!(AnsiSupport::Native.notice(), "Detected UNIX BASED OS....");
}
