//! What holds of whole runs of the bootstrap, over any sequence of events.

use crate::credential::{Credential, CredentialError, SourceKind};
use crate::manager::{next, Action, Event, Fatal, Policy, State};
use crate::session::Session;
use vstd::prelude::*;

verus! {

/// The state reached from `s`, and the actions asked for on the way, when
/// the events come in the given order.
pub open spec fn run(p: Policy, s: State, events: Seq<Event>) -> (State, Seq<Action>)
    decreases events.len(),
{
    if events.len() == 0 {
        (s, Seq::empty())
    } else {
        let (s1, a) = next(p, s, events[0]);
        let (s2, rest) = run(p, s1, events.drop_first());
        (s2, seq![a] + rest)
    }
}

/// How many of the actions write the session file.
pub open spec fn saves(acts: Seq<Action>) -> nat
    decreases acts.len(),
{
    if acts.len() == 0 {
        0
    } else {
        (if acts[0] is SaveSession {
            1nat
        } else {
            0nat
        }) + saves(acts.drop_first())
    }
}

/// No action asks for a credential or writes the session file.
pub open spec fn quiet(acts: Seq<Action>) -> bool {
    forall|i: int|
        0 <= i < acts.len() ==> !(#[trigger] acts[i] is FetchCredential) && !(acts[i] is SaveSession)
}

/// Phases after which no credential is asked for and nothing is written.
pub open spec fn settled(s: State) -> bool {
    s is Resuming || s is Saving || s is Authenticated || s is Failed
}

/// Rejected logins: each credential is handed over, then its login fails for
/// the reason beside it.
pub open spec fn rejections(creds: Seq<Credential>, reasons: Seq<String>) -> Seq<Event>
    decreases creds.len(),
{
    if creds.len() == 0 || reasons.len() == 0 {
        Seq::empty()
    } else {
        seq![Event::CredentialReady(creds[0]), Event::LoginFailed(reasons[0])] + rejections(
            creds.drop_first(),
            reasons.drop_first(),
        )
    }
}

proof fn lemma_run_cons(p: Policy, s: State, e: Event, rest: Seq<Event>)
    ensures
        run(p, s, seq![e] + rest) == (
            run(p, next(p, s, e).0, rest).0,
            seq![next(p, s, e).1] + run(p, next(p, s, e).0, rest).1,
        ),
{
    let events = seq![e] + rest;
    assert(events[0] == e);
    assert(events.drop_first() =~= rest);
}

proof fn lemma_run_append(p: Policy, s: State, a: Seq<Event>, b: Seq<Event>)
    ensures
        run(p, s, a + b) == (
            run(p, run(p, s, a).0, b).0,
            run(p, s, a).1 + run(p, run(p, s, a).0, b).1,
        ),
    decreases a.len(),
{
    if a.len() == 0 {
        assert(a + b =~= b);
        assert(run(p, s, a).1 + run(p, s, b).1 =~= run(p, s, b).1);
    } else {
        let e = a[0];
        let t = a.drop_first();
        assert(a =~= seq![e] + t);
        assert(a + b =~= seq![e] + (t + b));
        lemma_run_cons(p, s, e, t + b);
        lemma_run_cons(p, s, e, t);
        let s1 = next(p, s, e).0;
        lemma_run_append(p, s1, t, b);
        assert(seq![next(p, s, e).1] + (run(p, s1, t).1 + run(p, run(p, s1, t).0, b).1) =~= (
        seq![next(p, s, e).1] + run(p, s1, t).1) + run(p, run(p, s1, t).0, b).1);
    }
}

proof fn lemma_saves_append(a: Seq<Action>, b: Seq<Action>)
    ensures
        saves(a + b) == saves(a) + saves(b),
    decreases a.len(),
{
    if a.len() == 0 {
        assert(a + b =~= b);
    } else {
        assert((a + b).drop_first() =~= a.drop_first() + b);
        lemma_saves_append(a.drop_first(), b);
    }
}

proof fn lemma_saves_single(a: Action)
    ensures
        saves(seq![a]) == (if a is SaveSession {
            1nat
        } else {
            0nat
        }),
{
    assert(seq![a][0] == a);
    assert(seq![a].drop_first() =~= Seq::<Action>::empty());
    assert(saves(Seq::<Action>::empty()) == 0);
}

proof fn lemma_quiet_no_saves(acts: Seq<Action>)
    requires
        quiet(acts),
    ensures
        saves(acts) == 0,
    decreases acts.len(),
{
    if acts.len() > 0 {
        assert(!(acts[0] is SaveSession));
        assert forall|i: int| 0 <= i < acts.drop_first().len() implies !(
        #[trigger] acts.drop_first()[i] is FetchCredential) && !(
        acts.drop_first()[i] is SaveSession) by {
            assert(acts.drop_first()[i] == acts[i + 1]);
        }
        lemma_quiet_no_saves(acts.drop_first());
    }
}

/// Once a session is being restored, written or used, or the bootstrap has
/// failed, no event leads to a credential request or a session-file write.
pub proof fn lemma_settled_stays_quiet(p: Policy, s: State, events: Seq<Event>)
    requires
        settled(s),
    ensures
        settled(run(p, s, events).0),
        quiet(run(p, s, events).1),
        saves(run(p, s, events).1) == 0,
    decreases events.len(),
{
    if events.len() > 0 {
        let (s1, a) = next(p, s, events[0]);
        assert(settled(s1) && !(a is FetchCredential) && !(a is SaveSession));
        lemma_settled_stays_quiet(p, s1, events.drop_first());
        let acts = run(p, s, events).1;
        let rest = run(p, s1, events.drop_first()).1;
        assert(acts == seq![a] + rest);
        assert forall|i: int| 0 <= i < acts.len() implies !(#[trigger] acts[i] is FetchCredential)
            && !(acts[i] is SaveSession) by {
            if i > 0 {
                assert(acts[i] == rest[i - 1]);
            }
        }
    }
    lemma_quiet_no_saves(run(p, s, events).1);
}

/// A failed bootstrap stays failed with the same condition, whatever comes.
pub proof fn lemma_failure_is_final(p: Policy, f: Fatal, events: Seq<Event>)
    ensures
        run(p, State::Failed(f), events).0 == State::Failed(f),
    decreases events.len(),
{
    if events.len() > 0 {
        lemma_failure_is_final(p, f, events.drop_first());
    }
}

/// Restoring a valid stored session never asks for credentials and never
/// writes the session file, whatever happens afterwards.
pub proof fn lemma_restore_never_prompts(p: Policy, sess: Session, rest: Seq<Event>)
    requires
        sess.valid_for(p.server@),
    ensures
        run(p, State::Uninitialized, seq![Event::Start, Event::SessionLoaded(sess)] + rest).1[0]
            == Action::LoadSession,
        run(p, State::Uninitialized, seq![Event::Start, Event::SessionLoaded(sess)] + rest).1[1]
            == Action::RestoreSession(sess),
        quiet(run(p, State::Uninitialized, seq![Event::Start, Event::SessionLoaded(sess)] + rest).1),
{
    let events = seq![Event::Start, Event::SessionLoaded(sess)] + rest;
    assert(events =~= seq![Event::Start] + (seq![Event::SessionLoaded(sess)] + rest));
    lemma_run_cons(p, State::Uninitialized, Event::Start, seq![Event::SessionLoaded(sess)] + rest);
    lemma_run_cons(p, State::Restoring, Event::SessionLoaded(sess), rest);
    lemma_settled_stays_quiet(p, State::Resuming, rest);
    let acts = run(p, State::Uninitialized, events).1;
    let tail = run(p, State::Resuming, rest).1;
    assert(acts =~= seq![Action::LoadSession, Action::RestoreSession(sess)] + tail);
    assert forall|i: int| 0 <= i < acts.len() implies !(#[trigger] acts[i] is FetchCredential)
        && !(acts[i] is SaveSession) by {
        if i > 1 {
            assert(acts[i] == tail[i - 2]);
        }
    }
}

/// Over any sequence of events from any phase, the session file is written
/// at most once; from a settled phase, never.
pub proof fn lemma_at_most_one_save(p: Policy, s: State, events: Seq<Event>)
    ensures
        saves(run(p, s, events).1) <= 1,
        settled(s) ==> saves(run(p, s, events).1) == 0,
    decreases events.len(),
{
    if settled(s) {
        lemma_settled_stays_quiet(p, s, events);
    } else if events.len() > 0 {
        let e = events[0];
        let (s1, a) = next(p, s, e);
        assert(events =~= seq![e] + events.drop_first());
        lemma_run_cons(p, s, e, events.drop_first());
        lemma_at_most_one_save(p, s1, events.drop_first());
        let rest = run(p, s1, events.drop_first()).1;
        lemma_saves_append(seq![a], rest);
        lemma_saves_single(a);
        if a is SaveSession {
            assert(s1 is Saving);
        }
    }
}

/// A successful login with a valid session is written to the session file
/// right away, and that is the one write: whatever follows writes nothing.
pub proof fn lemma_login_writes_once(
    p: Policy,
    source: usize,
    failures: u64,
    sess: Session,
    rest: Seq<Event>,
)
    requires
        sess.valid_for(p.server@),
    ensures
        run(p, (State::LoggingIn { source, failures }), seq![Event::LoginSucceeded(sess)] + rest).1[0]
            == Action::SaveSession(sess),
        saves(
            run(p, (State::LoggingIn { source, failures }), seq![Event::LoginSucceeded(sess)] + rest).1,
        ) == 1,
{
    let s = State::LoggingIn { source, failures };
    lemma_run_cons(p, s, Event::LoginSucceeded(sess), rest);
    lemma_settled_stays_quiet(p, State::Saving, rest);
    let tail = run(p, State::Saving, rest).1;
    lemma_saves_append(seq![Action::SaveSession(sess)], tail);
    lemma_saves_single(Action::SaveSession(sess));
}

proof fn lemma_rejections_loop(
    p: Policy,
    failures: u64,
    creds: Seq<Credential>,
    reasons: Seq<String>,
)
    requires
        p.sources@.len() > 0,
        p.sources@[0] == SourceKind::Prompt,
        creds.len() == reasons.len(),
        failures + creds.len() < u64::MAX,
        p.max_failures is Some ==> failures + creds.len() < p.max_failures->0,
    ensures
        run(p, (State::Authenticating { source: 0, failures }), rejections(creds, reasons)).0
            == (State::Authenticating { source: 0, failures: (failures + creds.len()) as u64 }),
        saves(run(p, (State::Authenticating { source: 0, failures }), rejections(creds, reasons)).1)
            == 0,
    decreases creds.len(),
{
    let s = State::Authenticating { source: 0, failures };
    if creds.len() > 0 {
        let more = rejections(creds.drop_first(), reasons.drop_first());
        let e1 = Event::CredentialReady(creds[0]);
        let e2 = Event::LoginFailed(reasons[0]);
        assert(rejections(creds, reasons) =~= seq![e1] + (seq![e2] + more));
        lemma_run_cons(p, s, e1, seq![e2] + more);
        let s1 = State::LoggingIn { source: 0, failures };
        lemma_run_cons(p, s1, e2, more);
        let s2 = State::Authenticating { source: 0, failures: (failures + 1) as u64 };
        assert(next(p, s1, e2).0 == s2);
        lemma_rejections_loop(p, (failures + 1) as u64, creds.drop_first(), reasons.drop_first());
        let tail = run(p, s2, more).1;
        let a1 = next(p, s, e1).1;
        let a2 = next(p, s1, e2).1;
        lemma_saves_append(seq![a2], tail);
        lemma_saves_append(seq![a1], seq![a2] + tail);
        lemma_saves_single(a1);
        lemma_saves_single(a2);
    }
}

/// A start without a session file, rejected logins, then a login that
/// succeeds and whose session is written.
pub open spec fn retried_login(
    creds: Seq<Credential>,
    reasons: Seq<String>,
    last: Credential,
    sess: Session,
) -> Seq<Event> {
    seq![Event::Start, Event::SessionMissing] + rejections(creds, reasons) + seq![
        Event::CredentialReady(last),
        Event::LoginSucceeded(sess),
        Event::SessionSaved,
    ]
}

/// With the operator's prompt as first source, any number of rejected logins
/// followed by one that succeeds ends the loop with the session written
/// exactly once and synchronisation started.
pub proof fn lemma_retries_end_on_success(
    p: Policy,
    creds: Seq<Credential>,
    reasons: Seq<String>,
    last: Credential,
    sess: Session,
)
    requires
        p.sources@.len() > 0,
        p.sources@[0] == SourceKind::Prompt,
        creds.len() == reasons.len(),
        creds.len() < u64::MAX,
        p.max_failures is Some ==> creds.len() < p.max_failures->0,
        sess.valid_for(p.server@),
    ensures
        run(p, State::Uninitialized, retried_login(creds, reasons, last, sess)).0
            == State::Authenticated,
        saves(run(p, State::Uninitialized, retried_login(creds, reasons, last, sess)).1) == 1,
        run(p, State::Uninitialized, retried_login(creds, reasons, last, sess)).1.last()
            == Action::Sync,
        run(p, State::Uninitialized, retried_login(creds, reasons, last, sess)).1.drop_last().last()
            == Action::SaveSession(sess),
{
    let head = seq![Event::Start, Event::SessionMissing];
    let mid = rejections(creds, reasons);
    let tail = seq![Event::CredentialReady(last), Event::LoginSucceeded(sess), Event::SessionSaved];
    let s0 = State::Uninitialized;
    let sa = State::Authenticating { source: 0, failures: 0 };
    let sb = State::Authenticating { source: 0, failures: creds.len() as u64 };
    lemma_run_append(p, s0, head + mid, tail);
    lemma_run_append(p, s0, head, mid);
    assert(head =~= seq![Event::Start] + seq![Event::SessionMissing]);
    lemma_run_cons(p, s0, Event::Start, seq![Event::SessionMissing]);
    lemma_run_cons(p, State::Restoring, Event::SessionMissing, Seq::empty());
    assert(seq![Event::SessionMissing] + Seq::<Event>::empty() =~= seq![Event::SessionMissing]);
    assert(run(p, s0, head).0 == sa);
    lemma_rejections_loop(p, 0, creds, reasons);
    assert(run(p, s0, head + mid).0 == sb);
    let t1 = seq![Event::LoginSucceeded(sess), Event::SessionSaved];
    let t2 = seq![Event::SessionSaved];
    assert(tail =~= seq![Event::CredentialReady(last)] + t1);
    assert(t1 =~= seq![Event::LoginSucceeded(sess)] + t2);
    assert(t2 =~= seq![Event::SessionSaved] + Seq::<Event>::empty());
    lemma_run_cons(p, sb, Event::CredentialReady(last), t1);
    let sc = State::LoggingIn { source: 0, failures: creds.len() as u64 };
    lemma_run_cons(p, sc, Event::LoginSucceeded(sess), t2);
    lemma_run_cons(p, State::Saving, Event::SessionSaved, Seq::empty());
    let tail_acts = run(p, sb, tail).1;
    assert(tail_acts =~= seq![Action::Login(last), Action::SaveSession(sess), Action::Sync]);
    let head_acts = run(p, s0, head).1;
    assert(head_acts =~= seq![
        Action::LoadSession,
        Action::FetchCredential { source: SourceKind::Prompt, notice: None },
    ]);
    let mid_acts = run(p, sa, mid).1;
    lemma_saves_append(head_acts, mid_acts);
    lemma_saves_append(head_acts + mid_acts, tail_acts);
    let fetch = Action::FetchCredential { source: SourceKind::Prompt, notice: None };
    assert(head_acts =~= seq![Action::LoadSession] + seq![fetch]);
    lemma_saves_append(seq![Action::LoadSession], seq![fetch]);
    lemma_saves_single(Action::LoadSession);
    lemma_saves_single(fetch);
    assert(tail_acts =~= seq![Action::Login(last)] + (seq![Action::SaveSession(sess)] + seq![
        Action::Sync,
    ]));
    lemma_saves_append(seq![Action::Login(last)], seq![Action::SaveSession(sess)] + seq![Action::Sync]);
    lemma_saves_append(seq![Action::SaveSession(sess)], seq![Action::Sync]);
    lemma_saves_single(Action::Login(last));
    lemma_saves_single(Action::SaveSession(sess));
    lemma_saves_single(Action::Sync);
}

/// A session file that cannot be read as a session stops the bootstrap with
/// that condition: no credential is asked for and nothing is written, then
/// or later.
pub proof fn lemma_corrupt_file_is_fatal(p: Policy, reason: String, rest: Seq<Event>)
    ensures
        run(p, State::Uninitialized, seq![Event::Start, Event::SessionCorrupt(reason)] + rest).0
            == State::Failed(Fatal::CorruptSession(reason)),
        run(p, State::Uninitialized, seq![Event::Start, Event::SessionCorrupt(reason)] + rest).1[1]
            == Action::Stop(Fatal::CorruptSession(reason)),
        quiet(run(p, State::Uninitialized, seq![Event::Start, Event::SessionCorrupt(reason)] + rest).1),
{
    let f = Fatal::CorruptSession(reason);
    let events = seq![Event::Start, Event::SessionCorrupt(reason)] + rest;
    assert(events =~= seq![Event::Start] + (seq![Event::SessionCorrupt(reason)] + rest));
    lemma_run_cons(p, State::Uninitialized, Event::Start, seq![Event::SessionCorrupt(reason)] + rest);
    lemma_run_cons(p, State::Restoring, Event::SessionCorrupt(reason), rest);
    lemma_failure_is_final(p, f, rest);
    lemma_settled_stays_quiet(p, State::Failed(f), rest);
    let acts = run(p, State::Uninitialized, events).1;
    let tail = run(p, State::Failed(f), rest).1;
    assert(acts =~= seq![Action::LoadSession, Action::Stop(f)] + tail);
    assert forall|i: int| 0 <= i < acts.len() implies !(#[trigger] acts[i] is FetchCredential)
        && !(acts[i] is SaveSession) by {
        if i > 1 {
            assert(acts[i] == tail[i - 2]);
        }
    }
}

/// A secure store without an entry hands over to the next source of the
/// policy (the operator's prompt, where it comes next) instead of failing.
pub proof fn lemma_missing_entry_falls_back(p: Policy, source: usize, failures: u64)
    requires
        source + 1 < p.sources@.len(),
        p.sources@[source as int] == SourceKind::SecureStore,
    ensures
        next(
            p,
            (State::Authenticating { source, failures }),
            Event::CredentialFailed(CredentialError::NotFound),
        ) == (
            (State::Authenticating { source: (source + 1) as usize, failures }),
            (Action::FetchCredential { source: p.sources@[source + 1], notice: None }),
        ),
{
}

/// Every write of the session file answers a successful login, at the same
/// position in the run, and writes the session that login produced.
pub proof fn lemma_save_answers_login(p: Policy, s: State, events: Seq<Event>)
    ensures
        run(p, s, events).1.len() == events.len(),
        forall|i: int|
            0 <= i < events.len() && (#[trigger] run(p, s, events).1[i]) is SaveSession ==> (
            events[i] is LoginSucceeded && run(p, s, events).1[i]->SaveSession_0
                == events[i]->LoginSucceeded_0),
    decreases events.len(),
{
    if events.len() > 0 {
        let (s1, a) = next(p, s, events[0]);
        let tail = events.drop_first();
        lemma_save_answers_login(p, s1, tail);
        let acts = run(p, s, events).1;
        let rest = run(p, s1, tail).1;
        assert(acts == seq![a] + rest);
        assert forall|i: int|
            0 <= i < events.len() && (#[trigger] run(p, s, events).1[i]) is SaveSession implies (
            events[i] is LoginSucceeded && run(p, s, events).1[i]->SaveSession_0
                == events[i]->LoginSucceeded_0) by {
            if i > 0 {
                assert(acts[i] == rest[i - 1]);
                assert(events[i] == tail[i - 1]);
            }
        }
    }
}

} // verus!
