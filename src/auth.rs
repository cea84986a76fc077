//! The authentication worker and its bridge to the UI, as a state machine.
//!
//! One attempt at a time: a backend session is opened, its prompts are shown
//! to the user and answered with the submitted credential, and the
//! verification either succeeds (the worker stops), fails (the session is
//! closed and a fresh one opened after a cooldown) or is cancelled (the worker
//! stops without reporting a failure). `AuthWorker` holds the decisions; the
//! worker thread performs the returned actions and reports what happened.

use crate::pam::{ErrorKind, PamError, PamRequest};
use vstd::prelude::*;

verus! {

/// Where the worker stands.
#[derive(Clone, Copy, Debug, PartialEq, Eq, Structural)]
pub enum AuthPhase {
    /// A backend session is being opened.
    Opening,
    /// The verification call is in flight and no prompt is outstanding.
    Verifying,
    /// A prompt was shown and the backend waits for its answer.
    AwaitingInput,
    /// The last attempt failed; a fresh one starts after the cooldown.
    Cooldown,
    /// The credential was accepted.
    Succeeded,
    /// The user cancelled.
    Cancelled,
    /// No session could be opened.
    Broken,
}

/// How an attempt ended.
#[derive(Clone, Debug, PartialEq, Eq)]
pub enum AuthOutcome {
    Success,
    Failed(PamError),
    Cancelled,
}

/// What the worker thread and the UI report to the state machine.
#[derive(Clone, Debug, PartialEq, Eq)]
pub enum AuthEvent {
    /// The backend session is open and the verification call has started.
    SessionOpened,
    /// No backend session could be opened.
    SessionFailed(PamError),
    /// The backend's conversation sent a message.
    Request(PamRequest),
    /// The user submitted a credential.
    Submitted(String),
    /// The user asked to cancel.
    CancelRequested,
    /// The verification call accepted the credential.
    Verified,
    /// The verification call failed.
    Refused(PamError),
    /// The cooldown after a failure is over.
    CooldownElapsed,
}

/// What must be done in answer to an event, in order.
#[derive(Clone, Debug, PartialEq, Eq)]
pub enum AuthAction {
    /// Show a conversation message to the user.
    Show(PamRequest),
    /// Tell the UI whether a verification is running.
    Loading(bool),
    /// Tell the UI how the attempt ended.
    Outcome(AuthOutcome),
    /// Tell the caller that authentication cannot start at all.
    Fatal(PamError),
    /// Answer the outstanding prompt.
    Answer(String),
    /// Make the outstanding prompt fail, which aborts the conversation.
    AbortConversation,
    /// Close the backend session.
    EndSession,
    /// Wait for the cooldown.
    StartCooldown,
    /// Open a fresh backend session and start verifying.
    OpenSession,
    /// Close any open session and stop the worker.
    Stop,
}

/// Phases that no event leaves.
pub open spec fn is_terminal(p: AuthPhase) -> bool {
    p == AuthPhase::Succeeded || p == AuthPhase::Cancelled || p == AuthPhase::Broken
}

/// Phases in which a verification call is in flight.
pub open spec fn in_attempt(p: AuthPhase) -> bool {
    p == AuthPhase::Verifying || p == AuthPhase::AwaitingInput
}

/// The next phase and the actions for one event.
pub open spec fn auth_step(p: AuthPhase, e: AuthEvent) -> (AuthPhase, Seq<AuthAction>) {
    let unchanged = (p, Seq::<AuthAction>::empty());
    if is_terminal(p) {
        unchanged
    } else {
        match e {
            AuthEvent::CancelRequested => (
                AuthPhase::Cancelled,
                if p == AuthPhase::AwaitingInput {
                    seq![
                        AuthAction::Outcome(AuthOutcome::Cancelled),
                        AuthAction::AbortConversation,
                        AuthAction::Stop,
                    ]
                } else {
                    seq![AuthAction::Outcome(AuthOutcome::Cancelled), AuthAction::Stop]
                },
            ),
            AuthEvent::SessionOpened => if p == AuthPhase::Opening {
                (AuthPhase::Verifying, Seq::empty())
            } else {
                unchanged
            },
            AuthEvent::SessionFailed(err) => if p == AuthPhase::Opening {
                (AuthPhase::Broken, seq![AuthAction::Fatal(err), AuthAction::Stop])
            } else {
                unchanged
            },
            AuthEvent::Request(req) => if p == AuthPhase::Verifying {
                (
                    if req.needs_answer() {
                        AuthPhase::AwaitingInput
                    } else {
                        AuthPhase::Verifying
                    },
                    seq![AuthAction::Show(req)],
                )
            } else {
                unchanged
            },
            AuthEvent::Submitted(cred) => if p == AuthPhase::AwaitingInput {
                (AuthPhase::Verifying, seq![AuthAction::Answer(cred), AuthAction::Loading(true)])
            } else {
                unchanged
            },
            AuthEvent::Verified => if in_attempt(p) {
                (
                    AuthPhase::Succeeded,
                    seq![
                        AuthAction::Loading(false),
                        AuthAction::Outcome(AuthOutcome::Success),
                        AuthAction::Stop,
                    ],
                )
            } else {
                unchanged
            },
            AuthEvent::Refused(err) => if !in_attempt(p) {
                unchanged
            } else if err.kind() == ErrorKind::Abort {
                (
                    AuthPhase::Cancelled,
                    seq![
                        AuthAction::Loading(false),
                        AuthAction::Outcome(AuthOutcome::Cancelled),
                        AuthAction::Stop,
                    ],
                )
            } else {
                (
                    AuthPhase::Cooldown,
                    seq![
                        AuthAction::Loading(false),
                        AuthAction::Outcome(AuthOutcome::Failed(err)),
                        AuthAction::EndSession,
                        AuthAction::StartCooldown,
                    ],
                )
            },
            AuthEvent::CooldownElapsed => if p == AuthPhase::Cooldown {
                (AuthPhase::Opening, seq![AuthAction::OpenSession])
            } else {
                unchanged
            },
        }
    }
}

/// The phase after a sequence of events, and all actions, in order.
pub open spec fn auth_run(p: AuthPhase, es: Seq<AuthEvent>) -> (AuthPhase, Seq<AuthAction>)
    decreases es.len(),
{
    if es.len() == 0 {
        (p, Seq::empty())
    } else {
        let (p1, a1) = auth_step(p, es[0]);
        let (p2, a2) = auth_run(p1, es.drop_first());
        (p2, a1 + a2)
    }
}

/// Once the worker has stopped, no event changes anything or asks for any action.
pub proof fn lemma_terminal_is_silent(p: AuthPhase, es: Seq<AuthEvent>)
    requires
        is_terminal(p),
    ensures
        auth_run(p, es) == (p, Seq::<AuthAction>::empty()),
    decreases es.len(),
{
    if es.len() > 0 {
        lemma_terminal_is_silent(p, es.drop_first());
        assert(Seq::<AuthAction>::empty() + Seq::<AuthAction>::empty() =~= Seq::<AuthAction>::empty());
    }
}

/// A cancellation while a prompt is outstanding reports exactly one
/// `Cancelled` outcome and aborts the conversation; whatever happens after
/// it, nothing more is shown or reported.
pub proof fn lemma_cancel_while_prompted(es: Seq<AuthEvent>)
    ensures
        auth_run(AuthPhase::AwaitingInput, seq![AuthEvent::CancelRequested] + es) == (
            AuthPhase::Cancelled,
            seq![
                AuthAction::Outcome(AuthOutcome::Cancelled),
                AuthAction::AbortConversation,
                AuthAction::Stop,
            ],
        ),
{
    let all = seq![AuthEvent::CancelRequested] + es;
    assert(all[0] == AuthEvent::CancelRequested);
    assert(all.drop_first() =~= es);
    lemma_terminal_is_silent(AuthPhase::Cancelled, es);
    let (p1, a1) = auth_step(AuthPhase::AwaitingInput, AuthEvent::CancelRequested);
    assert(a1 + Seq::<AuthAction>::empty() =~= a1);
}

/// After a failed attempt the worker waits: until the cooldown is over, no
/// event but a cancellation has any effect, so nothing is shown.
pub proof fn lemma_cooldown_is_quiet(es: Seq<AuthEvent>)
    requires
        forall|i: int|
            0 <= i < es.len() ==> es[i] != AuthEvent::CooldownElapsed && es[i]
                != AuthEvent::CancelRequested,
    ensures
        auth_run(AuthPhase::Cooldown, es) == (AuthPhase::Cooldown, Seq::<AuthAction>::empty()),
    decreases es.len(),
{
    if es.len() > 0 {
        assert(es[0] != AuthEvent::CooldownElapsed && es[0] != AuthEvent::CancelRequested);
        assert(auth_step(AuthPhase::Cooldown, es[0]) == (AuthPhase::Cooldown, Seq::<AuthAction>::empty()));
        lemma_cooldown_is_quiet(es.drop_first());
        assert(Seq::<AuthAction>::empty() + Seq::<AuthAction>::empty() =~= Seq::<AuthAction>::empty());
    }
}

/// A refused credential is reported once as `Failed`, the session is closed
/// and the cooldown starts; when it is over a fresh session is opened, and its
/// first prompt is shown exactly once, after which the worker waits for the
/// answer.
pub proof fn lemma_failure_restarts(p: AuthPhase, err: PamError, req: PamRequest)
    requires
        in_attempt(p),
        err.kind() != ErrorKind::Abort,
        req.needs_answer(),
    ensures
        auth_run(
            p,
            seq![
                AuthEvent::Refused(err),
                AuthEvent::CooldownElapsed,
                AuthEvent::SessionOpened,
                AuthEvent::Request(req),
            ],
        ) == (
            AuthPhase::AwaitingInput,
            seq![
                AuthAction::Loading(false),
                AuthAction::Outcome(AuthOutcome::Failed(err)),
                AuthAction::EndSession,
                AuthAction::StartCooldown,
                AuthAction::OpenSession,
                AuthAction::Show(req),
            ],
        ),
{
    let es = seq![
        AuthEvent::Refused(err),
        AuthEvent::CooldownElapsed,
        AuthEvent::SessionOpened,
        AuthEvent::Request(req),
    ];
    let e1 = es.drop_first();
    let e2 = e1.drop_first();
    let e3 = e2.drop_first();
    let e4 = e3.drop_first();
    assert(e4 =~= Seq::<AuthEvent>::empty());
    assert(es[0] == AuthEvent::Refused(err));
    assert(e1[0] == AuthEvent::CooldownElapsed);
    assert(e2[0] == AuthEvent::SessionOpened);
    assert(e3[0] == AuthEvent::Request(req));
    let r4 = auth_run(AuthPhase::AwaitingInput, e4);
    assert(r4.0 == AuthPhase::AwaitingInput);
    assert(r4.1 =~= Seq::<AuthAction>::empty());
    let r3 = auth_run(AuthPhase::Verifying, e3);
    assert(r3.0 == AuthPhase::AwaitingInput);
    assert(r3.1 =~= seq![AuthAction::Show(req)]);
    let r2 = auth_run(AuthPhase::Opening, e2);
    assert(r2.1 =~= seq![AuthAction::Show(req)]);
    let r1 = auth_run(AuthPhase::Cooldown, e1);
    assert(r1.1 =~= seq![AuthAction::OpenSession, AuthAction::Show(req)]);
    let r0 = auth_run(p, es);
    assert(r0.0 == AuthPhase::AwaitingInput);
    assert(r0.1 =~= seq![
        AuthAction::Loading(false),
        AuthAction::Outcome(AuthOutcome::Failed(err)),
        AuthAction::EndSession,
        AuthAction::StartCooldown,
        AuthAction::OpenSession,
        AuthAction::Show(req),
    ]);
}

/// No two actions of `acts` report a success.
pub open spec fn at_most_one_success(acts: Seq<AuthAction>) -> bool {
    forall|i: int, j: int|
        0 <= i < j < acts.len() && acts[i] == AuthAction::Outcome(AuthOutcome::Success) ==> acts[j]
            != AuthAction::Outcome(AuthOutcome::Success)
}

/// One step reports at most one success, and only when it ends in `Succeeded`.
proof fn lemma_step_success(p: AuthPhase, e: AuthEvent)
    ensures
        at_most_one_success(auth_step(p, e).1),
        auth_step(p, e).1.contains(AuthAction::Outcome(AuthOutcome::Success)) ==> auth_step(p, e).0
            == AuthPhase::Succeeded,
{
}

/// Over any sequence of events, success is reported at most once.
pub proof fn lemma_success_at_most_once(p: AuthPhase, es: Seq<AuthEvent>)
    ensures
        at_most_one_success(auth_run(p, es).1),
    decreases es.len(),
{
    if es.len() > 0 {
        let (p1, a1) = auth_step(p, es[0]);
        let (p2, a2) = auth_run(p1, es.drop_first());
        lemma_step_success(p, es[0]);
        lemma_success_at_most_once(p1, es.drop_first());
        let all = a1 + a2;
        let s = AuthAction::Outcome(AuthOutcome::Success);
        if a1.contains(s) {
            lemma_terminal_is_silent(p1, es.drop_first());
            assert(all =~= a1);
        } else {
            assert forall|i: int, j: int| 0 <= i < j < all.len() && all[i] == s implies all[j] != s by {
                if i < a1.len() {
                    assert(a1[i] == s);
                }
                assert(all[i] == a2[i - a1.len()]);
                assert(all[j] == a2[j - a1.len()]);
            }
        }
    }
}

/// Decision core of the authentication worker.
pub struct AuthWorker {
    phase: AuthPhase,
}

impl View for AuthWorker {
    type V = AuthPhase;

    closed spec fn view(&self) -> AuthPhase {
        self.phase
    }
}

impl AuthWorker {
    /// A worker about to open its first session.
    pub fn new() -> (w: AuthWorker)
        ensures
            w@ == AuthPhase::Opening,
    {
        AuthWorker { phase: AuthPhase::Opening }
    }

    /// Where the worker stands.
    pub fn phase(&self) -> (r: AuthPhase)
        ensures
            r == self@,
    {
        self.phase
    }

    /// Whether the worker has stopped for good.
    pub fn is_done(&self) -> (r: bool)
        ensures
            r == is_terminal(self@),
    {
        match self.phase {
            AuthPhase::Succeeded | AuthPhase::Cancelled | AuthPhase::Broken => true,
            _ => false,
        }
    }

    /// Applies one event and returns the actions to perform, in order.
    pub fn step(&mut self, e: AuthEvent) -> (acts: Vec<AuthAction>)
        ensures
            (final(self)@, acts@) == auth_step(old(self)@, e),
    {
        let ghost p0 = self@;
        let ghost e0 = e;
        let mut acts: Vec<AuthAction> = Vec::new();
        if self.is_done() {
            return acts;
        }
        let p = self.phase;
        match e {
            AuthEvent::CancelRequested => {
                self.phase = AuthPhase::Cancelled;
                acts.push(AuthAction::Outcome(AuthOutcome::Cancelled));
                if p == AuthPhase::AwaitingInput {
                    acts.push(AuthAction::AbortConversation);
                }
                acts.push(AuthAction::Stop);
            },
            AuthEvent::SessionOpened => {
                if p == AuthPhase::Opening {
                    self.phase = AuthPhase::Verifying;
                }
            },
            AuthEvent::SessionFailed(err) => {
                if p == AuthPhase::Opening {
                    self.phase = AuthPhase::Broken;
                    acts.push(AuthAction::Fatal(err));
                    acts.push(AuthAction::Stop);
                }
            },
            AuthEvent::Request(req) => {
                if p == AuthPhase::Verifying {
                    if req.expects_answer() {
                        self.phase = AuthPhase::AwaitingInput;
                    }
                    acts.push(AuthAction::Show(req));
                }
            },
            AuthEvent::Submitted(cred) => {
                if p == AuthPhase::AwaitingInput {
                    self.phase = AuthPhase::Verifying;
                    acts.push(AuthAction::Answer(cred));
                    acts.push(AuthAction::Loading(true));
                }
            },
            AuthEvent::Verified => {
                if p == AuthPhase::Verifying || p == AuthPhase::AwaitingInput {
                    self.phase = AuthPhase::Succeeded;
                    acts.push(AuthAction::Loading(false));
                    acts.push(AuthAction::Outcome(AuthOutcome::Success));
                    acts.push(AuthAction::Stop);
                }
            },
            AuthEvent::Refused(err) => {
                if p == AuthPhase::Verifying || p == AuthPhase::AwaitingInput {
                    acts.push(AuthAction::Loading(false));
                    match err.error_kind() {
                        ErrorKind::Abort => {
                            self.phase = AuthPhase::Cancelled;
                            acts.push(AuthAction::Outcome(AuthOutcome::Cancelled));
                            acts.push(AuthAction::Stop);
                        },
                        _ => {
                            self.phase = AuthPhase::Cooldown;
                            acts.push(AuthAction::Outcome(AuthOutcome::Failed(err)));
                            acts.push(AuthAction::EndSession);
                            acts.push(AuthAction::StartCooldown);
                        },
                    }
                }
            },
            AuthEvent::CooldownElapsed => {
                if p == AuthPhase::Cooldown {
                    self.phase = AuthPhase::Opening;
                    acts.push(AuthAction::OpenSession);
                }
            },
        }
        proof {
            assert(acts@ =~= auth_step(p0, e0).1);
        }
        acts
    }
}

} // verus!
