use gatekeeper::flow::{FlowAction, FlowEvent, ProviderCall, SessionFlow};
use gatekeeper::gateway::{
    admit_request, bad_request, begin_logout, begin_sign_up, conclude_validation, empty,
    forward_failure, full, judge_verdict, logout_reply, provider_error_reply, relay_session_reply,
    response,
    session_reply, Admission, Gate, Header, HttpReply, Reason, ReplyBody, SignupCredentials,
    ValidationOutcome,
};
use gatekeeper::records::{LoginInfo, ProviderErrorKind, ProviderFailure, Session, SignupOrLoginResponse};
use gatekeeper::routing::{path_segment, route, target_of_segment, Route, Target};

fn s(x: &str) -> String {
    x.to_string()
}

fn text_of(r: &HttpReply) -> String {
    match &r.body {
        ReplyBody::Text(t) => t.clone(),
        other => panic!("not a text body: {other:?}"),
    }
}

fn headers() -> (Option<String>, Option<String>, Option<String>) {
    (Some(s("67e55044-10b1-426f-9247-bb680e5fe0c8")), Some(s("tok")), Some(s("ref")))
}

fn cbor(v: Result<bool, String>) -> Vec<u8> {
    serde_cbor::to_vec(&v).unwrap()
}

#[test]
fn routes_auth_paths() {
    assert_eq!(route("POST", "/auth/login"), Route::Login);
    assert_eq!(route("POST", "/auth/signup"), Route::SignUp);
    assert_eq!(route("POST", "/auth/logout"), Route::Logout);
    assert_eq!(route("GET", "/auth/login"), Route::BadRequest);
}

#[test]
fn routes_targets() {
    assert_eq!(route("GET", "/profile/me"), Route::Forward(Target::Profile));
    assert_eq!(route("POST", "/recipe"), Route::Forward(Target::Recipe));
    assert_eq!(route("GET", "/menu/1/2"), Route::Forward(Target::Menu));
    assert_eq!(route("DELETE", "/restaurant/9"), Route::Forward(Target::Menu));
    assert_eq!(route("PUT", "/eat-together/x"), Route::Forward(Target::EatTogether));
    assert_eq!(route("GET", "/widgets/42"), Route::BadRequest);
    assert_eq!(route("GET", "/"), Route::BadRequest);
    assert_eq!(route("GET", ""), Route::BadRequest);
    assert_eq!(route("GET", "//profile"), Route::BadRequest);
    assert_eq!(route("GET", "/Profile"), Route::BadRequest);
}

#[test]
fn path_segments() {
    assert_eq!(path_segment("/profile/me"), Some("profile"));
    assert_eq!(path_segment("/profile"), Some("profile"));
    assert_eq!(path_segment("/"), None);
    assert_eq!(path_segment("profile"), None);
    assert_eq!(target_of_segment("restaurant"), Some(Target::Menu));
    assert_eq!(target_of_segment("widgets"), None);
}

#[test]
fn backends() {
    assert_eq!(Target::Profile.backend_host(), "profile-service");
    assert_eq!(Target::Recipe.backend_host(), "recipe-service");
    assert_eq!(Target::Menu.backend_host(), "menu-service");
    assert_eq!(Target::EatTogether.backend_host(), "ets-service");
    assert_eq!(Target::Menu.backend_port(), 8000);
}

#[test]
fn unknown_segment_is_bad_request() {
    let (u, a, r) = headers();
    match admit_request("GET", "/widgets/42", u, a, r) {
        Admission::Reject(rep) => {
            assert_eq!(rep.status, 400);
            assert_eq!(text_of(&rep), "Cannot use GET method with path: /widgets/42");
        }
        other => panic!("unexpected {other:?}"),
    }
}

#[test]
fn missing_access_token_is_bad_request() {
    let (u, _, r) = headers();
    match admit_request("GET", "/profile/me", u, None, r) {
        Admission::Reject(rep) => {
            assert_eq!(rep.status, 400);
            assert_eq!(text_of(&rep), "Failed find header 'Access-Token'");
        }
        other => panic!("unexpected {other:?}"),
    }
}

#[test]
fn missing_headers_checked_in_order() {
    match admit_request("GET", "/recipe/1", None, None, None) {
        Admission::Reject(rep) => assert_eq!(text_of(&rep), "Failed find header 'X-User-Uid'"),
        other => panic!("unexpected {other:?}"),
    }
    let (u, a, _) = headers();
    match admit_request("GET", "/recipe/1", u, a, None) {
        Admission::Reject(rep) => assert_eq!(text_of(&rep), "Failed find header 'Refresh-Token'"),
        other => panic!("unexpected {other:?}"),
    }
}

#[test]
fn complete_request_goes_to_validation() {
    let (u, a, r) = headers();
    match admit_request("GET", "/profile/me", u, a, r) {
        Admission::Validate { target, tokens } => {
            assert_eq!(target, Target::Profile);
            assert_eq!(tokens.x_user_uid, "67e55044-10b1-426f-9247-bb680e5fe0c8");
            assert_eq!(tokens.access_token, "tok");
            assert_eq!(tokens.refresh_token, "ref");
        }
        other => panic!("unexpected {other:?}"),
    }
    assert!(matches!(admit_request("POST", "/auth/login", None, None, None), Admission::Login));
    assert!(matches!(admit_request("POST", "/auth/signup", None, None, None), Admission::SignUp));
    assert!(matches!(admit_request("POST", "/auth/logout", None, None, None), Admission::Logout));
}

#[test]
fn valid_verdict_forwards_to_profile() {
    let g = conclude_validation(Target::Profile, ValidationOutcome::Received(cbor(Ok(true))));
    assert!(matches!(g, Gate::Forward(Target::Profile)));
}

#[test]
fn forged_user_is_unauthorized() {
    let verdict = gatekeeper::dispatch::validate_verdict(
        &s("00000000-0000-0000-0000-000000000bad"),
        Ok(0x67e5_5044_10b1_426f_9247_bb68_0e5f_e0c8),
    );
    let g = conclude_validation(Target::Profile, ValidationOutcome::Received(cbor(verdict)));
    match g {
        Gate::Reject(rep) => {
            assert_eq!(rep.status, 401);
            assert_eq!(text_of(&rep), "Invalid Credentials");
        }
        other => panic!("unexpected {other:?}"),
    }
}

#[test]
fn verdict_error_is_unauthorized() {
    let g = conclude_validation(Target::Menu, ValidationOutcome::Received(cbor(Err(s("boom")))));
    match g {
        Gate::Reject(rep) => {
            assert_eq!(rep.status, 401);
            assert_eq!(text_of(&rep), "boom");
        }
        other => panic!("unexpected {other:?}"),
    }
}

#[test]
fn undecodable_verdict_is_unprocessable() {
    let g = conclude_validation(Target::Menu, ValidationOutcome::Received(vec![0xff, 0x00]));
    match g {
        Gate::Reject(rep) => assert_eq!(rep.status, 422),
        other => panic!("unexpected {other:?}"),
    }
    match judge_verdict(Target::Menu, None) {
        Gate::Reject(rep) => assert_eq!(text_of(&rep), "Failed to deserialise auth response."),
        other => panic!("unexpected {other:?}"),
    }
}

#[test]
fn unreachable_auth_is_unavailable() {
    match conclude_validation(Target::Recipe, ValidationOutcome::Unreachable) {
        Gate::Reject(rep) => {
            assert_eq!(rep.status, 503);
            assert_eq!(text_of(&rep), "Router failed to connect to Auth service");
        }
        other => panic!("unexpected {other:?}"),
    }
}

#[test]
fn login_end_to_end() {
    assert!(matches!(route("POST", "/auth/login"), Route::Login));
    let info = LoginInfo { email: s("a@b.com"), password: s("pw") };
    let (flow, action) = SessionFlow::begin_login(&info);
    match action {
        FlowAction::Call(ProviderCall::Login { email, password }) => {
            assert_eq!(email, "a@b.com");
            assert_eq!(password, "pw");
        }
        other => panic!("unexpected {other:?}"),
    }
    let session = Session { user_id: 42, access_token: s("acc"), refresh_token: s("ref") };
    let (_, action) = flow.advance(FlowEvent::LoginDone(Ok(session)));
    let result = match action {
        FlowAction::Finish(r) => r,
        other => panic!("unexpected {other:?}"),
    };
    let rep = session_reply(result);
    assert_eq!(rep.status, 200);
    match rep.body {
        ReplyBody::Session(r) => {
            assert_eq!(r.x_user_uid, "00000000-0000-0000-0000-00000000002a");
            assert!(!r.access_token.is_empty());
            assert!(!r.refresh_token.is_empty());
        }
        other => panic!("unexpected {other:?}"),
    }
}

#[test]
fn sign_up_password_mismatch_is_conflict() {
    let creds = SignupCredentials { email: s("a@b.com"), password_1: s("x"), password_2: s("y") };
    match begin_sign_up(&creds) {
        Err(rep) => {
            assert_eq!(rep.status, 409);
            assert_eq!(text_of(&rep), "Passwords do not match");
        }
        Ok(other) => panic!("unexpected {other:?}"),
    }
}

#[test]
fn sign_up_matching_passwords_calls_provider() {
    let creds = SignupCredentials { email: s("a@b.com"), password_1: s("x"), password_2: s("x") };
    match begin_sign_up(&creds) {
        Ok((SessionFlow::AwaitSignUp { .. }, FlowAction::Call(ProviderCall::SignUp { email, password }))) => {
            assert_eq!(email, "a@b.com");
            assert_eq!(password, "x");
        }
        other => panic!("unexpected {other:?}"),
    }
}

#[test]
fn provider_errors_map_to_statuses() {
    for kind in [
        ProviderErrorKind::InternalError,
        ProviderErrorKind::NetworkError,
        ProviderErrorKind::ParseUrlError,
        ProviderErrorKind::Supabase,
    ] {
        let rep = provider_error_reply(ProviderFailure { kind, message: s("detail") });
        assert_eq!(rep.status, 500);
        assert!(matches!(rep.body, ReplyBody::Empty));
    }
    let rep = provider_error_reply(ProviderFailure {
        kind: ProviderErrorKind::WrongCredentials,
        message: s("Invalid Credentials"),
    });
    assert_eq!(rep.status, 401);
    assert_eq!(text_of(&rep), "Invalid Credentials");
}

#[test]
fn logout_flow() {
    match begin_logout(Some(s("tok"))) {
        Ok(ProviderCall::Logout { access_token }) => assert_eq!(access_token, "tok"),
        other => panic!("unexpected {other:?}"),
    }
    match begin_logout(None) {
        Err(rep) => {
            assert_eq!(rep.status, 400);
            assert_eq!(text_of(&rep), "Invalid Headers");
        }
        other => panic!("unexpected {other:?}"),
    }
    let rep = logout_reply(Ok(()));
    assert_eq!(rep.status, 200);
    assert!(matches!(rep.body, ReplyBody::Empty));
    let rep = logout_reply(Err(ProviderFailure { kind: ProviderErrorKind::WrongToken, message: s("JWT Is Invalid") }));
    assert_eq!(rep.status, 401);
}

#[test]
fn reply_helpers() {
    let rep = bad_request("PATCH", "/x");
    assert_eq!(rep.status, 400);
    assert_eq!(text_of(&rep), "Cannot use PATCH method with path: /x");
    let rep = response(Some(s("hi")), 418);
    assert_eq!(rep.status, 418);
    assert_eq!(text_of(&rep), "hi");
    assert!(matches!(response(None, 204).body, ReplyBody::Empty));
    assert!(matches!(empty(), ReplyBody::Empty));
    assert!(matches!(full(s("a")), ReplyBody::Text(t) if t == "a"));
    let rep = forward_failure();
    assert_eq!(rep.status, 500);
    assert!(matches!(rep.body, ReplyBody::Empty));
    assert_eq!(Header::AccessToken.name(), "Access-Token");
    assert_eq!(Header::XUserUid.missing().status, 400);
    assert_eq!(Reason::InvalidCredentials.message(), "Invalid Credentials");
    assert_eq!(Reason::InvalidUserId.message(), "Invalid Headers");
}

#[test]
fn relayed_session_answers() {
    let rep = relay_session_reply(None);
    assert_eq!(rep.status, 422);
    assert_eq!(text_of(&rep), "Failed to deserialise session response.");
    let rep = relay_session_reply(Some(SignupOrLoginResponse::no_session()));
    assert_eq!(rep.status, 406);
    assert!(matches!(rep.body, ReplyBody::Empty));
    let live = SignupOrLoginResponse { access_token: s("a"), refresh_token: s("r"), x_user_uid: s("u") };
    let rep = relay_session_reply(Some(live));
    assert_eq!(rep.status, 200);
    assert!(matches!(rep.body, ReplyBody::Session(r) if r.x_user_uid == "u"));
}
