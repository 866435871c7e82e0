//! The exchange with the identity provider that opens a session.
//!
//! A login is one provider call. A sign-up is one call, and when the provider
//! answers that the account awaits confirmation, a login with the same
//! credentials follows. The caller performs each call that an action names and
//! hands the provider's answer back as the next event.
use vstd::prelude::*;
use crate::records::{LoginInfo, ProviderFailure, Session, SignUpOutcome, SignupOrLoginResponse, uuid_text};

verus! {

/// A call to the identity provider.
#[derive(Debug)]
pub enum ProviderCall {
    Login { email: String, password: String },
    SignUp { email: String, password: String },
    GetUser { access_token: String },
    Logout { access_token: String },
}

/// The provider's answer to the call last asked for.
#[derive(Debug)]
pub enum FlowEvent {
    LoginDone(Result<Session, ProviderFailure>),
    SignUpDone(Result<SignUpOutcome, ProviderFailure>),
}

/// What to do next: call the provider, or stop with the result.
#[derive(Debug)]
pub enum FlowAction {
    Call(ProviderCall),
    Finish(Result<SignupOrLoginResponse, ProviderFailure>),
}

/// Where a session exchange stands.
#[derive(Debug)]
pub enum SessionFlow {
    /// A login call is out.
    AwaitLogin,
    /// A sign-up call is out; the credentials are kept for the login that may
    /// follow it.
    AwaitSignUp { email: String, password: String },
    /// The exchange is over.
    Finished,
}

/// `a` is the call to log in with `email` and `password`.
pub open spec fn is_login_call(a: FlowAction, email: Seq<char>, password: Seq<char>) -> bool {
    match a {
        FlowAction::Call(ProviderCall::Login { email: e, password: p }) => e@ == email && p@
            == password,
        _ => false,
    }
}

/// `a` ends the exchange with the answer for `s`.
pub open spec fn finishes_with_session(a: FlowAction, s: Session) -> bool {
    match a {
        FlowAction::Finish(Ok(r)) => r.x_user_uid@ == uuid_text(s.user_id) && r.access_token@
            == s.access_token@ && r.refresh_token@ == s.refresh_token@,
        _ => false,
    }
}

/// `a` ends the exchange with the provider's failure `e`.
pub open spec fn finishes_with_failure(a: FlowAction, e: ProviderFailure) -> bool {
    match a {
        FlowAction::Finish(Err(f)) => f.kind == e.kind && f.message@ == e.message@,
        _ => false,
    }
}

impl SessionFlow {
    /// Whether `event` answers the call this state waits for.
    pub open spec fn accepts(&self, event: FlowEvent) -> bool {
        match self {
            SessionFlow::AwaitLogin => event is LoginDone,
            SessionFlow::AwaitSignUp { .. } => event is SignUpDone,
            SessionFlow::Finished => false,
        }
    }

    /// The step that `advance` takes: from this state, on `event`, to the
    /// state `next` with the action `action`.
    pub open spec fn advance_spec(self, event: FlowEvent, next: SessionFlow, action: FlowAction) -> bool {
            match (self, event) {
                (SessionFlow::AwaitLogin, FlowEvent::LoginDone(Ok(s))) => next is Finished
                    && finishes_with_session(action, s),
                (SessionFlow::AwaitLogin, FlowEvent::LoginDone(Err(e))) => next is Finished
                    && finishes_with_failure(action, e),
                (SessionFlow::AwaitSignUp { .. }, FlowEvent::SignUpDone(Ok(SignUpOutcome::Active(s)))) => next is Finished
                    && finishes_with_session(action, s),
                (
                    SessionFlow::AwaitSignUp { email, password },
                    FlowEvent::SignUpDone(Ok(SignUpOutcome::ConfirmationPending)),
                ) => next is AwaitLogin && is_login_call(action, email@, password@),
                (SessionFlow::AwaitSignUp { .. }, FlowEvent::SignUpDone(Err(e))) => next is Finished
                    && finishes_with_failure(action, e),
                _ => false,
            }
    }

    /// Starts a login: the first action is the login call.
    pub fn begin_login(info: &LoginInfo) -> (r: (SessionFlow, FlowAction))
        ensures
            r.0 is AwaitLogin,
            is_login_call(r.1, info.email@, info.password@),
    {
        (
            SessionFlow::AwaitLogin,
            FlowAction::Call(
                ProviderCall::Login { email: info.email.clone(), password: info.password.clone() },
            ),
        )
    }

    /// Starts a sign-up: the first action is the sign-up call.
    pub fn begin_sign_up(email: &String, password: &String) -> (r: (SessionFlow, FlowAction))
        ensures
            r.0 matches SessionFlow::AwaitSignUp { email: e, password: p } && e@ == email@ && p@
                == password@,
            r.1 matches FlowAction::Call(ProviderCall::SignUp { email: e, password: p }) && e@
                == email@ && p@ == password@,
    {
        (
            SessionFlow::AwaitSignUp { email: email.clone(), password: password.clone() },
            FlowAction::Call(ProviderCall::SignUp { email: email.clone(), password: password.clone() }),
        )
    }

    /// Takes the provider's answer. A session ends the exchange with its
    /// answer, a failure ends it with the failure, and a sign-up that awaits
    /// confirmation goes on with a login on the same credentials.
    pub fn advance(self, event: FlowEvent) -> (r: (SessionFlow, FlowAction))
        requires
            self.accepts(event),
        ensures
            self.advance_spec(event, r.0, r.1),
    {
        match self {
            SessionFlow::AwaitLogin => match event {
                FlowEvent::LoginDone(Ok(s)) => (
                    SessionFlow::Finished,
                    FlowAction::Finish(Ok(SignupOrLoginResponse::from_session(s))),
                ),
                FlowEvent::LoginDone(Err(e)) => (SessionFlow::Finished, FlowAction::Finish(Err(e))),
                FlowEvent::SignUpDone(_) => unreached(),
            },
            SessionFlow::AwaitSignUp { email, password } => match event {
                FlowEvent::SignUpDone(Ok(SignUpOutcome::Active(s))) => (
                    SessionFlow::Finished,
                    FlowAction::Finish(Ok(SignupOrLoginResponse::from_session(s))),
                ),
                FlowEvent::SignUpDone(Ok(SignUpOutcome::ConfirmationPending)) => (
                    SessionFlow::AwaitLogin,
                    FlowAction::Call(ProviderCall::Login { email, password }),
                ),
                FlowEvent::SignUpDone(Err(e)) => (SessionFlow::Finished, FlowAction::Finish(Err(e))),
                FlowEvent::LoginDone(_) => unreached(),
            },
            SessionFlow::Finished => unreached(),
        }
    }
}

} // verus!
