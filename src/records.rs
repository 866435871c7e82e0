//! The records carried in frames and HTTP bodies, and the identity
//! provider's results as the library sees them.
use vstd::prelude::*;

verus! {

/// A sign-up request as carried to the Auth process.
#[derive(Debug)]
pub struct SignupInfo {
    pub email: String,
    pub password: String,
    pub password2: String,
}

/// A login request.
#[derive(Debug)]
pub struct LoginInfo {
    pub email: String,
    pub password: String,
}

/// A validation request: the claimed user id and the tokens sent with it.
#[derive(Debug)]
pub struct AuthInfo {
    pub x_user_uid: String,
    pub access_token: String,
    pub refresh_token: String,
}

/// The tokens a gateway takes from a request's headers and sends to be
/// validated; same fields as `AuthInfo`.
#[derive(Debug)]
pub struct UserTokens {
    pub x_user_uid: String,
    pub access_token: String,
    pub refresh_token: String,
}

/// The answer to a login or sign-up. An empty `x_user_uid` means that the
/// request was carried but produced no active session.
#[derive(Debug)]
pub struct SignupOrLoginResponse {
    pub access_token: String,
    pub refresh_token: String,
    pub x_user_uid: String,
}

/// The empty answer to a request that carries no data back.
#[derive(Debug)]
pub struct AuthResponse {}

/// A session handed out by the identity provider.
#[derive(Debug)]
pub struct Session {
    pub user_id: u128,
    pub access_token: String,
    pub refresh_token: String,
}

/// What the identity provider answers to a sign-up.
#[derive(Debug)]
pub enum SignUpOutcome {
    /// The account is active and a session was opened.
    Active(Session),
    /// The account waits for confirmation; no session was opened.
    ConfirmationPending,
}

/// The kinds of failure the identity provider reports.
#[derive(PartialEq, Eq, Structural, Clone, Copy, Debug)]
pub enum ProviderErrorKind {
    AlreadySignedUp,
    WrongCredentials,
    UserNotFound,
    NotAuthenticated,
    MissingRefreshToken,
    WrongToken,
    InternalError,
    NetworkError,
    ParseError,
    InvalidHeaderValue,
    InvalidEnvironmentVariable,
    ParseUrlError,
    Supabase,
    AuthError,
}

/// A failure of the identity provider, with its human-readable message.
#[derive(Debug)]
pub struct ProviderFailure {
    pub kind: ProviderErrorKind,
    pub message: String,
}

/// The lower-case hex digit of `n`, for `0 <= n < 16`.
pub open spec fn hex_digit(n: int) -> char {
    seq!['0', '1', '2', '3', '4', '5', '6', '7', '8', '9', 'a', 'b', 'c', 'd', 'e', 'f'][n]
}

/// The `k`-th hex digit of `id`, counted from the most significant one.
pub open spec fn nibble(id: u128, k: int) -> int {
    ((id >> ((124 - 4 * k) as u128)) & 0xf) as int
}

/// Which hex digit stands at position `i` of the hyphenated form.
pub open spec fn digit_index(i: int) -> int {
    if i < 8 {
        i
    } else if i < 13 {
        i - 1
    } else if i < 18 {
        i - 2
    } else if i < 23 {
        i - 3
    } else {
        i - 4
    }
}

/// The canonical text of a user id: its 32 hex digits, most significant
/// first, in lower case, in groups of 8-4-4-4-12 joined by hyphens.
pub open spec fn uuid_text(id: u128) -> Seq<char> {
    Seq::new(
        36,
        |i: int|
            if i == 8 || i == 13 || i == 18 || i == 23 {
                '-'
            } else {
                hex_digit(nibble(id, digit_index(i)))
            },
    )
}

/// Relies on uuid's `Uuid::from_u128`, which reads the value big-endian, and
/// `Hyphenated::encode_lower`, which writes the 8-4-4-4-12 lower-case form.
#[verifier::external_body]
pub(crate) fn uuid_text_of(id: u128) -> (r: String)
    ensures
        r@ == uuid_text(id),
{
    uuid::Uuid::from_u128(id).hyphenated().encode_lower(&mut uuid::Uuid::encode_buffer()).to_string()
}

impl SignupOrLoginResponse {
    /// The answer for an opened session, naming its user in canonical form.
    pub fn from_session(session: Session) -> (r: SignupOrLoginResponse)
        ensures
            r.x_user_uid@ == uuid_text(session.user_id),
            r.access_token@ == session.access_token@,
            r.refresh_token@ == session.refresh_token@,
    {
        SignupOrLoginResponse {
            x_user_uid: uuid_text_of(session.user_id),
            access_token: session.access_token,
            refresh_token: session.refresh_token,
        }
    }

    /// The answer that carries no session: every field empty.
    pub fn no_session() -> (r: SignupOrLoginResponse)
        ensures
            r.x_user_uid@.len() == 0,
            r.access_token@.len() == 0,
            r.refresh_token@.len() == 0,
    {
        SignupOrLoginResponse {
            access_token: String::new(),
            refresh_token: String::new(),
            x_user_uid: String::new(),
        }
    }

    /// Whether the answer carries an active session.
    pub fn has_session(&self) -> (r: bool)
        ensures
            r == (self.x_user_uid@.len() > 0),
    {
        !self.x_user_uid.as_str().is_empty()
    }
}

} // verus!
