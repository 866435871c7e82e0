//! The Auth process's handling of one connection: a frame comes in, the
//! identity provider is consulted, and exactly one reply goes back.
//!
//! A frame whose command is unknown never gets here: `decode_frame` refuses
//! it and the connection is closed without a reply.
use vstd::prelude::*;
use crate::flow::{FlowAction, FlowEvent, ProviderCall, SessionFlow};
use crate::frame::AuthQueryType;
use crate::records::{
    AuthInfo, LoginInfo, ProviderFailure, SignupInfo, SignupOrLoginResponse, uuid_text,
    uuid_text_of,
};

verus! {

/// A request whose payload was read against the schema of its command.
#[derive(Debug)]
pub enum Incoming {
    SignUp(SignupInfo),
    Login(LoginInfo),
    Logout,
    Validate(AuthInfo),
    /// The payload did not match the schema of this command.
    Malformed(AuthQueryType),
}

/// The one reply sent back on a connection.
#[derive(Debug)]
pub enum Reply {
    /// The answer to a login or sign-up; `no_session()` when none was opened.
    Session(SignupOrLoginResponse),
    /// The answer to a validation.
    Verdict(Result<bool, String>),
    /// The empty answer to a logout.
    Done,
}

/// What the dispatcher asks of its caller.
#[derive(Debug)]
pub enum DispatchAction {
    Call(ProviderCall),
    Reply(Reply),
}

/// The provider's answer to the call last asked for.
#[derive(Debug)]
pub enum DispatchEvent {
    Flow(FlowEvent),
    /// The id of the user that owns the access token, or the lookup's failure.
    UserLookup(Result<u128, ProviderFailure>),
}

/// Where a connection stands.
#[derive(Debug)]
pub enum Dispatch {
    Session(SessionFlow),
    Validating { claimed_uid: String },
    Replied,
}

/// The verdict of a validation: the token's owner is the claimed user.
pub open spec fn verdict_spec(claimed: Seq<char>, lookup: Result<u128, ProviderFailure>) -> bool {
    match lookup {
        Ok(id) => uuid_text(id) == claimed,
        Err(_) => false,
    }
}

/// The text of the verdict sent when a validation's payload is malformed.
pub open spec fn malformed_auth_info_text() -> Seq<char> {
    "Failed to deserialise AuthInfo"@
}

/// `a` replies with a session answer that names no session.
pub open spec fn replies_no_session(a: DispatchAction) -> bool {
    match a {
        DispatchAction::Reply(Reply::Session(r)) => r.x_user_uid@.len() == 0
            && r.access_token@.len() == 0 && r.refresh_token@.len() == 0,
        _ => false,
    }
}

/// Whether `a` replies with the verdict `v`.
pub open spec fn replies_verdict(a: DispatchAction, v: Result<bool, Seq<char>>) -> bool {
    match (a, v) {
        (DispatchAction::Reply(Reply::Verdict(Ok(b))), Ok(c)) => b == c,
        (DispatchAction::Reply(Reply::Verdict(Err(m))), Err(n)) => m@ == n,
        _ => false,
    }
}

/// The dispatcher's action for what the session flow asked.
pub open spec fn from_flow(f: FlowAction, a: DispatchAction) -> bool {
    match f {
        FlowAction::Call(c) => a == DispatchAction::Call(c),
        FlowAction::Finish(Ok(r)) => a == DispatchAction::Reply(Reply::Session(r)),
        FlowAction::Finish(Err(_)) => replies_no_session(a),
    }
}

/// Decides a validation from the user the provider found for the access
/// token: `Ok(true)` exactly when that user's canonical id is the claimed one.
/// A failed lookup is `Ok(false)`, not an error.
pub fn validate_verdict(claimed_uid: &String, lookup: Result<u128, ProviderFailure>) -> (r: Result<
    bool,
    String,
>)
    ensures
        r == Ok::<bool, String>(verdict_spec(claimed_uid@, lookup)),
{
    match lookup {
        Ok(id) => {
            let text = uuid_text_of(id);
            Ok(text == *claimed_uid)
        },
        Err(_) => Ok(false),
    }
}

/// The reply for what a session flow asked: its answer, or the answer with
/// no session when the provider failed.
fn flow_action(f: FlowAction) -> (r: DispatchAction)
    ensures
        from_flow(f, r),
{
    match f {
        FlowAction::Call(c) => DispatchAction::Call(c),
        FlowAction::Finish(Ok(resp)) => DispatchAction::Reply(Reply::Session(resp)),
        FlowAction::Finish(Err(_)) => DispatchAction::Reply(
            Reply::Session(SignupOrLoginResponse::no_session()),
        ),
    }
}

impl Incoming {
    /// A malformed request still names one of the four commands.
    pub open spec fn wf(&self) -> bool {
        match self {
            Incoming::Malformed(q) => *q != AuthQueryType::Unknown,
            _ => true,
        }
    }
}

impl Dispatch {
    /// Whether `event` answers the call this state waits for.
    pub open spec fn accepts(&self, event: DispatchEvent) -> bool {
        match (self, event) {
            (Dispatch::Session(f), DispatchEvent::Flow(e)) => f.accepts(e),
            (Dispatch::Validating { .. }, DispatchEvent::UserLookup(_)) => true,
            _ => false,
        }
    }

    /// The first step for a request. A login or sign-up starts a session
    /// exchange (the sign-up's second password is not checked here), a
    /// validation asks for the owner of the access token, a logout is
    /// answered at once, and a malformed request is answered without any
    /// provider call.
    pub fn start(incoming: Incoming) -> (r: (Dispatch, DispatchAction))
        requires
            incoming.wf(),
        ensures
            match incoming {
                Incoming::Login(info) => (r.0 matches Dispatch::Session(SessionFlow::AwaitLogin))
                    && (r.1 matches DispatchAction::Call(ProviderCall::Login { email, password })
                    && email@ == info.email@ && password@ == info.password@),
                Incoming::SignUp(info) => (r.0 matches Dispatch::Session(
                    SessionFlow::AwaitSignUp { email: e, password: p },
                ) && e@ == info.email@ && p@ == info.password@)
                    && (r.1 matches DispatchAction::Call(ProviderCall::SignUp { email, password })
                    && email@ == info.email@ && password@ == info.password@),
                Incoming::Validate(info) => (r.0 matches Dispatch::Validating { claimed_uid }
                    && claimed_uid@ == info.x_user_uid@)
                    && (r.1 matches DispatchAction::Call(ProviderCall::GetUser { access_token })
                    && access_token@ == info.access_token@),
                Incoming::Logout => r.0 is Replied && r.1 == DispatchAction::Reply(Reply::Done),
                Incoming::Malformed(AuthQueryType::Validate) => r.0 is Replied && replies_verdict(
                    r.1,
                    Err(malformed_auth_info_text()),
                ),
                Incoming::Malformed(AuthQueryType::Logout) => r.0 is Replied && r.1
                    == DispatchAction::Reply(Reply::Done),
                Incoming::Malformed(_) => r.0 is Replied && replies_no_session(r.1),
            },
    {
        match incoming {
            Incoming::Login(info) => {
                let (f, a) = SessionFlow::begin_login(&info);
                (Dispatch::Session(f), flow_action(a))
            },
            Incoming::SignUp(info) => {
                let (f, a) = SessionFlow::begin_sign_up(&info.email, &info.password);
                (Dispatch::Session(f), flow_action(a))
            },
            Incoming::Validate(info) => (
                Dispatch::Validating { claimed_uid: info.x_user_uid },
                DispatchAction::Call(ProviderCall::GetUser { access_token: info.access_token }),
            ),
            Incoming::Logout => (Dispatch::Replied, DispatchAction::Reply(Reply::Done)),
            Incoming::Malformed(q) => {
                let a = match q {
                    AuthQueryType::Validate => DispatchAction::Reply(
                        Reply::Verdict(Err(String::from_str("Failed to deserialise AuthInfo"))),
                    ),
                    AuthQueryType::Logout => DispatchAction::Reply(Reply::Done),
                    _ => DispatchAction::Reply(Reply::Session(SignupOrLoginResponse::no_session())),
                };
                (Dispatch::Replied, a)
            },
        }
    }

    /// Takes the provider's answer. A session exchange goes on as
    /// `SessionFlow::advance` says and its failure is answered with no
    /// session; a validation is answered with `validate_verdict`.
    pub fn step(self, event: DispatchEvent) -> (r: (Dispatch, DispatchAction))
        requires
            self.accepts(event),
        ensures
            match (self, event) {
                (Dispatch::Session(f), DispatchEvent::Flow(e)) => exists|g: SessionFlow, a: FlowAction|
                    #![trigger f.advance_spec(e, g, a)]
                    f.advance_spec(e, g, a) && from_flow(a, r.1) && (r.0 == if g is Finished {
                        Dispatch::Replied
                    } else {
                        Dispatch::Session(g)
                    }),
                (Dispatch::Validating { claimed_uid }, DispatchEvent::UserLookup(l)) => r.0 is Replied
                    && replies_verdict(r.1, Ok(verdict_spec(claimed_uid@, l))),
                _ => false,
            },
    {
        match self {
            Dispatch::Session(f) => match event {
                DispatchEvent::Flow(e) => {
                    let (g, a) = f.advance(e);
                    let next = match g {
                        SessionFlow::Finished => Dispatch::Replied,
                        _ => Dispatch::Session(g),
                    };
                    (next, flow_action(a))
                },
                DispatchEvent::UserLookup(_) => unreached(),
            },
            Dispatch::Validating { claimed_uid } => match event {
                DispatchEvent::UserLookup(l) => {
                    let v = validate_verdict(&claimed_uid, l);
                    (Dispatch::Replied, DispatchAction::Reply(Reply::Verdict(v)))
                },
                DispatchEvent::Flow(_) => unreached(),
            },
            Dispatch::Replied => unreached(),
        }
    }
}

} // verus!
