//! The gateway's decisions on a request: which replies it sends itself, which
//! requests it admits to a backend after validation, and how failures of the
//! Auth process and the identity provider become HTTP statuses.
use vstd::prelude::*;
use crate::flow::{FlowAction, ProviderCall, SessionFlow};
use crate::dispatch::verdict_spec;
use crate::records::{ProviderErrorKind, ProviderFailure, SignupOrLoginResponse, UserTokens, uuid_text};
use crate::routing::{Route, Target, first_segment, route, route_spec, target_of};

verus! {

pub const OK: u16 = 200;
pub const BAD_REQUEST: u16 = 400;
pub const UNAUTHORIZED: u16 = 401;
pub const NOT_ACCEPTABLE: u16 = 406;
pub const CONFLICT: u16 = 409;
pub const UNPROCESSABLE_ENTITY: u16 = 422;
pub const INTERNAL_SERVER_ERROR: u16 = 500;
pub const SERVICE_UNAVAILABLE: u16 = 503;

/// The body of a reply the gateway writes itself.
#[derive(Debug)]
pub enum ReplyBody {
    Empty,
    Text(String),
    /// A session, written out as a JSON object.
    Session(SignupOrLoginResponse),
}

/// A reply the gateway writes itself.
#[derive(Debug)]
pub struct HttpReply {
    pub status: u16,
    pub body: ReplyBody,
}

/// The headers a forwarded request must carry.
#[derive(PartialEq, Eq, Structural, Clone, Copy, Debug)]
pub enum Header {
    XUserUid,
    AccessToken,
    RefreshToken,
}

/// Why a request was not authorised.
#[derive(PartialEq, Eq, Structural, Clone, Copy, Debug)]
pub enum Reason {
    InvalidCredentials,
    InvalidUserId,
    InvalidAccessToken,
}

/// What the gateway does with a request it has read.
#[derive(Debug)]
pub enum Admission {
    Login,
    SignUp,
    Logout,
    /// Refused with this reply; neither the Auth process nor a backend is
    /// contacted.
    Reject(HttpReply),
    /// Validate these tokens with the Auth process, then forward to `target`.
    Validate { target: Target, tokens: UserTokens },
}

/// What came back from the Auth process for a validation.
#[derive(Debug)]
pub enum ValidationOutcome {
    /// No connection could be made.
    Unreachable,
    /// The bytes read until the Auth process closed the connection.
    Received(Vec<u8>),
}

/// Whether a validated request goes on to its backend.
#[derive(Debug)]
pub enum Gate {
    Forward(Target),
    Reject(HttpReply),
}

/// Sign-up credentials as a client sends them: the password twice.
#[derive(Debug)]
pub struct SignupCredentials {
    pub email: String,
    pub password_1: String,
    pub password_2: String,
}

/// `r` has status `status` and the text `text` as body.
pub open spec fn is_text_reply(r: HttpReply, status: u16, text: Seq<char>) -> bool {
    r.status == status && (r.body matches ReplyBody::Text(t) && t@ == text)
}

/// `r` has status `status` and an empty body.
pub open spec fn is_empty_reply(r: HttpReply, status: u16) -> bool {
    r.status == status && r.body is Empty
}

pub open spec fn header_name(h: Header) -> Seq<char> {
    match h {
        Header::XUserUid => "X-User-Uid"@,
        Header::AccessToken => "Access-Token"@,
        Header::RefreshToken => "Refresh-Token"@,
    }
}

pub open spec fn missing_header_text(h: Header) -> Seq<char> {
    "Failed find header '"@ + header_name(h) + "'"@
}

pub open spec fn bad_request_text(method: Seq<char>, path: Seq<char>) -> Seq<char> {
    "Cannot use "@ + method + " method with path: "@ + path
}

pub open spec fn reason_text(r: Reason) -> Seq<char> {
    match r {
        Reason::InvalidCredentials => "Invalid Credentials"@,
        Reason::InvalidUserId | Reason::InvalidAccessToken => "Invalid Headers"@,
    }
}

pub open spec fn unreachable_text() -> Seq<char> {
    "Router failed to connect to Auth service"@
}

pub open spec fn undecodable_text() -> Seq<char> {
    "Failed to deserialise auth response."@
}

pub open spec fn undecodable_session_text() -> Seq<char> {
    "Failed to deserialise session response."@
}

pub open spec fn mismatch_text() -> Seq<char> {
    "Passwords do not match"@
}

/// Provider failures that come from transport or the provider's internals,
/// as opposed to a refusal of the credentials.
pub open spec fn is_internal_failure(k: ProviderErrorKind) -> bool {
    k == ProviderErrorKind::InternalError || k == ProviderErrorKind::NetworkError || k
        == ProviderErrorKind::ParseUrlError || k == ProviderErrorKind::Supabase
}

/// The gateway's reply to a provider failure: `500` with no body for an
/// internal failure, else `401` with the failure's message.
pub open spec fn is_failure_reply(r: HttpReply, e: ProviderFailure) -> bool {
    if is_internal_failure(e.kind) {
        is_empty_reply(r, INTERNAL_SERVER_ERROR)
    } else {
        is_text_reply(r, UNAUTHORIZED, e.message@)
    }
}

/// The tokens taken from the three headers, in the order they are checked.
pub open spec fn admission_of_target(
    t: Target,
    uid: Option<String>,
    access: Option<String>,
    refresh: Option<String>,
    a: Admission,
) -> bool {
    if uid is None {
        a matches Admission::Reject(r) && is_text_reply(r, BAD_REQUEST, missing_header_text(Header::XUserUid))
    } else if access is None {
        a matches Admission::Reject(r) && is_text_reply(r, BAD_REQUEST, missing_header_text(Header::AccessToken))
    } else if refresh is None {
        a matches Admission::Reject(r) && is_text_reply(r, BAD_REQUEST, missing_header_text(Header::RefreshToken))
    } else {
        a matches Admission::Validate { target, tokens } && target == t && tokens.x_user_uid@
            == uid->Some_0@ && tokens.access_token@ == access->Some_0@ && tokens.refresh_token@
            == refresh->Some_0@
    }
}

/// What the gateway does with a request, given its method, path and the
/// three headers (`None` where a header is missing).
pub open spec fn admission_spec(
    method: Seq<char>,
    path: Seq<char>,
    uid: Option<String>,
    access: Option<String>,
    refresh: Option<String>,
    a: Admission,
) -> bool {
    match route_spec(method, path) {
        Route::Login => a is Login,
        Route::SignUp => a is SignUp,
        Route::Logout => a is Logout,
        Route::BadRequest => a matches Admission::Reject(r) && is_text_reply(
            r,
            BAD_REQUEST,
            bad_request_text(method, path),
        ),
        Route::Forward(t) => admission_of_target(t, uid, access, refresh, a),
    }
}

/// How a decoded verdict of the Auth process decides a request for `t`:
/// `Ok(true)` forwards; `Ok(false)` and an error refuse with `401`; bytes
/// that hold no verdict refuse with `422`.
pub open spec fn gate_spec(t: Target, verdict: Option<Result<bool, Seq<char>>>, g: Gate) -> bool {
    match verdict {
        Some(Ok(true)) => g == Gate::Forward(t),
        Some(Ok(false)) => g matches Gate::Reject(r) && is_text_reply(
            r,
            UNAUTHORIZED,
            reason_text(Reason::InvalidCredentials),
        ),
        Some(Err(m)) => g matches Gate::Reject(r) && is_text_reply(r, UNAUTHORIZED, m),
        None => g matches Gate::Reject(r) && is_text_reply(
            r,
            UNPROCESSABLE_ENTITY,
            undecodable_text(),
        ),
    }
}

pub open spec fn verdict_view(v: Option<Result<bool, String>>) -> Option<Result<bool, Seq<char>>> {
    match v {
        Some(Ok(b)) => Some(Ok(b)),
        Some(Err(m)) => Some(Err(m@)),
        None => None,
    }
}

/// The verdict that serde_cbor reads from these bytes, if they hold one.
pub uninterp spec fn verdict_of_cbor(b: Seq<u8>) -> Option<Result<bool, Seq<char>>>;

/// Relies on serde_cbor::from_slice reading a `Result<bool, String>`; what it
/// reads depends on the bytes alone.
#[verifier::external_body]
fn verdict_from_cbor(b: &[u8]) -> (r: Option<Result<bool, String>>)
    ensures
        verdict_view(r) == verdict_of_cbor(b@),
{
    serde_cbor::from_slice::<Result<bool, String>>(b).ok()
}

/// A body of text.
pub fn full(text: String) -> (r: ReplyBody)
    ensures
        r matches ReplyBody::Text(t) && t@ == text@,
{
    ReplyBody::Text(text)
}

/// An empty body.
pub fn empty() -> (r: ReplyBody)
    ensures
        r is Empty,
{
    ReplyBody::Empty
}

/// A reply with `code` as status and `message`, if any, as body.
pub fn response(message: Option<String>, code: u16) -> (r: HttpReply)
    ensures
        r.status == code,
        match message {
            Some(m) => r.body matches ReplyBody::Text(t) && t@ == m@,
            None => r.body is Empty,
        },
{
    match message {
        Some(m) => HttpReply { status: code, body: full(m) },
        None => HttpReply { status: code, body: empty() },
    }
}

/// The `400` reply to a request that no route takes, naming its method and
/// path.
pub fn bad_request(method: &str, path: &str) -> (r: HttpReply)
    ensures
        is_text_reply(r, BAD_REQUEST, bad_request_text(method@, path@)),
{
    let mut text = String::from_str("Cannot use ");
    text.append(method);
    text.append(" method with path: ");
    text.append(path);
    response(Some(text), BAD_REQUEST)
}

impl Header {
    /// The header's name on the wire.
    pub fn name(&self) -> (r: &'static str)
        ensures
            r@ == header_name(*self),
    {
        match self {
            Header::XUserUid => "X-User-Uid",
            Header::AccessToken => "Access-Token",
            Header::RefreshToken => "Refresh-Token",
        }
    }

    /// The `400` reply to a request that lacks this header.
    pub fn missing(&self) -> (r: HttpReply)
        ensures
            is_text_reply(r, BAD_REQUEST, missing_header_text(*self)),
    {
        let mut text = String::from_str("Failed find header '");
        text.append(self.name());
        text.append("'");
        response(Some(text), BAD_REQUEST)
    }
}

impl Reason {
    /// The reason as it is shown to a client.
    pub fn message(&self) -> (r: String)
        ensures
            r@ == reason_text(*self),
    {
        match self {
            Reason::InvalidCredentials => String::from_str("Invalid Credentials"),
            Reason::InvalidUserId | Reason::InvalidAccessToken => String::from_str("Invalid Headers"),
        }
    }
}

/// Decides what to do with a request from its method, path and the three
/// headers. A request that routes nowhere, or that lacks one of the headers,
/// is refused with `400` before anything else is contacted.
pub fn admit_request(
    method: &str,
    path: &str,
    uid: Option<String>,
    access: Option<String>,
    refresh: Option<String>,
) -> (r: Admission)
    ensures
        admission_spec(method@, path@, uid, access, refresh, r),
{
    match route(method, path) {
        Route::Login => Admission::Login,
        Route::SignUp => Admission::SignUp,
        Route::Logout => Admission::Logout,
        Route::BadRequest => Admission::Reject(bad_request(method, path)),
        Route::Forward(target) => {
            let x_user_uid = match uid {
                Some(v) => v,
                None => return Admission::Reject(Header::XUserUid.missing()),
            };
            let access_token = match access {
                Some(v) => v,
                None => return Admission::Reject(Header::AccessToken.missing()),
            };
            let refresh_token = match refresh {
                Some(v) => v,
                None => return Admission::Reject(Header::RefreshToken.missing()),
            };
            Admission::Validate {
                target,
                tokens: UserTokens { x_user_uid, access_token, refresh_token },
            }
        },
    }
}

/// Decides a request for `target` from the Auth process's verdict, as read
/// from its reply (`None` when the reply held no verdict).
pub fn judge_verdict(target: Target, verdict: Option<Result<bool, String>>) -> (r: Gate)
    ensures
        gate_spec(target, verdict_view(verdict), r),
{
    match verdict {
        Some(Ok(true)) => Gate::Forward(target),
        Some(Ok(false)) => Gate::Reject(
            response(Some(Reason::InvalidCredentials.message()), UNAUTHORIZED),
        ),
        Some(Err(m)) => Gate::Reject(response(Some(m), UNAUTHORIZED)),
        None => Gate::Reject(
            response(Some(String::from_str("Failed to deserialise auth response.")), UNPROCESSABLE_ENTITY),
        ),
    }
}

/// Decides a request for `target` from what the Auth process answered: `503`
/// when it could not be reached, else as `judge_verdict` says of the verdict
/// that serde_cbor reads from the reply.
pub fn conclude_validation(target: Target, outcome: ValidationOutcome) -> (r: Gate)
    ensures
        match outcome {
            ValidationOutcome::Unreachable => r matches Gate::Reject(rep) && is_text_reply(
                rep,
                SERVICE_UNAVAILABLE,
                unreachable_text(),
            ),
            ValidationOutcome::Received(b) => gate_spec(target, verdict_of_cbor(b@), r),
        },
{
    match outcome {
        ValidationOutcome::Unreachable => Gate::Reject(
            response(
                Some(String::from_str("Router failed to connect to Auth service")),
                SERVICE_UNAVAILABLE,
            ),
        ),
        ValidationOutcome::Received(b) => judge_verdict(target, verdict_from_cbor(b.as_slice())),
    }
}

/// The reply to a failure of the identity provider.
pub fn provider_error_reply(e: ProviderFailure) -> (r: HttpReply)
    ensures
        is_failure_reply(r, e),
{
    match e.kind {
        ProviderErrorKind::InternalError
        | ProviderErrorKind::NetworkError
        | ProviderErrorKind::ParseUrlError
        | ProviderErrorKind::Supabase => response(None, INTERNAL_SERVER_ERROR),
        _ => response(Some(e.message), UNAUTHORIZED),
    }
}

/// The reply that ends a login or sign-up: `200` with the session, or the
/// reply to the provider's failure.
pub fn session_reply(result: Result<SignupOrLoginResponse, ProviderFailure>) -> (r: HttpReply)
    ensures
        match result {
            Ok(s) => r.status == OK && r.body == ReplyBody::Session(s),
            Err(e) => is_failure_reply(r, e),
        },
{
    match result {
        Ok(s) => HttpReply { status: OK, body: ReplyBody::Session(s) },
        Err(e) => provider_error_reply(e),
    }
}

/// The reply for a session answer relayed from the Auth process (`None` when
/// its reply held no answer): `422` when there is none, `406` when it names
/// no session, else `200` with the session.
pub fn relay_session_reply(answer: Option<SignupOrLoginResponse>) -> (r: HttpReply)
    ensures
        match answer {
            None => is_text_reply(r, UNPROCESSABLE_ENTITY, undecodable_session_text()),
            Some(s) => if s.x_user_uid@.len() == 0 {
                is_empty_reply(r, NOT_ACCEPTABLE)
            } else {
                r.status == OK && r.body == ReplyBody::Session(s)
            },
        },
{
    match answer {
        None => response(
            Some(String::from_str("Failed to deserialise session response.")),
            UNPROCESSABLE_ENTITY,
        ),
        Some(s) => if s.has_session() {
            HttpReply { status: OK, body: ReplyBody::Session(s) }
        } else {
            response(None, NOT_ACCEPTABLE)
        },
    }
}

/// Starts a sign-up at the gateway. Two different passwords are refused with
/// `409` and no provider call; else the sign-up call goes out with the first.
pub fn begin_sign_up(creds: &SignupCredentials) -> (r: Result<(SessionFlow, FlowAction), HttpReply>)
    ensures
        creds.password_1@ != creds.password_2@ ==> (r matches Err(rep) && is_text_reply(
            rep,
            CONFLICT,
            mismatch_text(),
        )),
        creds.password_1@ == creds.password_2@ ==> (r matches Ok((f, a)) && (f matches SessionFlow::AwaitSignUp {
            email,
            password,
        } && email@ == creds.email@ && password@ == creds.password_1@) && (a matches FlowAction::Call(
            ProviderCall::SignUp { email, password },
        ) && email@ == creds.email@ && password@ == creds.password_1@)),
{
    if creds.password_1 != creds.password_2 {
        return Err(response(Some(String::from_str("Passwords do not match")), CONFLICT));
    }
    Ok(SessionFlow::begin_sign_up(&creds.email, &creds.password_1))
}

/// Starts a logout at the gateway: the provider call needs the access token,
/// and a request without it is refused with `400`.
pub fn begin_logout(access: Option<String>) -> (r: Result<ProviderCall, HttpReply>)
    ensures
        match access {
            Some(t) => r matches Ok(ProviderCall::Logout { access_token }) && access_token@ == t@,
            None => r matches Err(rep) && is_text_reply(
                rep,
                BAD_REQUEST,
                reason_text(Reason::InvalidAccessToken),
            ),
        },
{
    match access {
        Some(t) => Ok(ProviderCall::Logout { access_token: t }),
        None => Err(response(Some(Reason::InvalidAccessToken.message()), BAD_REQUEST)),
    }
}

/// The reply that ends a logout.
pub fn logout_reply(result: Result<(), ProviderFailure>) -> (r: HttpReply)
    ensures
        match result {
            Ok(()) => is_empty_reply(r, OK),
            Err(e) => is_failure_reply(r, e),
        },
{
    match result {
        Ok(()) => response(None, OK),
        Err(e) => provider_error_reply(e),
    }
}

/// The reply when a request could not be forwarded: `500`, with no detail of
/// the failure.
pub fn forward_failure() -> (r: HttpReply)
    ensures
        is_empty_reply(r, INTERNAL_SERVER_ERROR),
{
    response(None, INTERNAL_SERVER_ERROR)
}

/// The three paths the gateway answers itself.
pub open spec fn is_auth_path(path: Seq<char>) -> bool {
    path == "/auth/login"@ || path == "/auth/signup"@ || path == "/auth/logout"@
}

/// A request for a backend that carries the user id but no access token is
/// refused with `400` naming `Access-Token`, and so is never validated nor
/// forwarded.
pub proof fn lemma_missing_access_token_refused(
    method: Seq<char>,
    path: Seq<char>,
    t: Target,
    uid: Option<String>,
    refresh: Option<String>,
    a: Admission,
)
    requires
        route_spec(method, path) == Route::Forward(t),
        uid is Some,
        admission_spec(method, path, uid, None, refresh, a),
    ensures
        a matches Admission::Reject(r) && r.status == BAD_REQUEST && (r.body matches ReplyBody::Text(
            b,
        ) && b@ == "Failed find header '"@ + "Access-Token"@ + "'"@),
{
}

/// A request whose first path segment names no backend, other than the
/// gateway's own auth paths, is refused with `400` naming its method and
/// path, and so is never validated nor forwarded.
pub proof fn lemma_unknown_segment_refused(
    method: Seq<char>,
    path: Seq<char>,
    uid: Option<String>,
    access: Option<String>,
    refresh: Option<String>,
    a: Admission,
)
    requires
        !is_auth_path(path),
        first_segment(path) matches Some(seg) && target_of(seg) is None,
        admission_spec(method, path, uid, access, refresh, a),
    ensures
        a matches Admission::Reject(r) && is_text_reply(r, BAD_REQUEST, bad_request_text(method, path)),
{
}

/// A request goes on to its backend exactly when the provider found the
/// owner of the access token and that owner's canonical id is the claimed
/// one: the verdict of the Auth process, read back by the gateway, forwards
/// in that case alone.
pub proof fn lemma_forward_iff_owner(
    t: Target,
    claimed: Seq<char>,
    lookup: Result<u128, ProviderFailure>,
    g: Gate,
)
    requires
        gate_spec(t, Some(Ok(verdict_spec(claimed, lookup))), g),
    ensures
        (g is Forward) <==> (lookup matches Ok(id) && uuid_text(id) == claimed),
        !(g is Forward) ==> (g matches Gate::Reject(r) && r.status == UNAUTHORIZED),
{
}

} // verus!
