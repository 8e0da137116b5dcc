//! What a failing store makes of a request.
use auth_service::confirm::{
    confirm_begin, confirm_response, confirm_resume, ConfirmAction, ConfirmEvent,
};
use auth_service::dpop::{validate_dpop_proof_at, DpopError, PublicBaseUrl};
use auth_service::error::{ApiResponse, ResponseBody};
use auth_service::login::{
    login_begin, login_response, login_resume, LoginAction, LoginEvent, LoginRequest, LoginState,
    LoginTask,
};
use auth_service::logout::{logout_begin, logout_step, LogoutAction, LogoutEvent, LogoutRequest};
use auth_service::password::hash_password;
use auth_service::refresh::{
    refresh_begin, refresh_response, refresh_resume, RefreshAction, RefreshEvent, RefreshRequest,
};
use auth_service::refresh_token::{RefreshTokenRecord, RefreshTokenStatus};
use auth_service::register::{
    register_begin, register_response, register_resume, ConfirmRequest, RegisterAction,
    RegisterEvent, RegisterRequest,
};
use auth_service::request::{AuthService, RequestContext};
use auth_service::store::{LoginAttemptState, StoreError};
use auth_service::time::{utc_now, Timestamp};
use auth_service::token::JwtKeys;
use auth_service::totp::generate_enrollment_secret;
use auth_service::user::User;

use argon2::password_hash::rand_core::OsRng;
use p256::pkcs8::EncodePrivateKey;

fn down() -> StoreError {
    StoreError::Backend("down".to_string())
}

fn service() -> AuthService {
    AuthService {
        jwt: JwtKeys::new(b"a test signing secret at least 32 bytes long!!", 600),
        base_url: PublicBaseUrl::parse("https://auth.test.example").unwrap(),
        dummy_hash: "not a hash".to_string(),
    }
}

fn context() -> RequestContext {
    RequestContext {
        method: "POST".to_string(),
        path: "/login".to_string(),
        authorization: None,
        dpop: None,
    }
}

fn message_of(response: &ApiResponse) -> (u16, &str, &str) {
    assert_eq!(response.retry_after, None);
    match &response.body {
        ResponseBody::Error { error, message } => (response.status, error, message),
        other => panic!("expected an error, not {other:?}"),
    }
}

fn begun_login() -> (LoginState, LoginAction) {
    login_begin(LoginRequest {
        email: " Someone@Example.com".to_string(),
        password: "correct horse battery staple".to_string(),
        mfa_code: "000000".to_string(),
    })
}

fn login_failed(action: LoginAction) {
    match action {
        LoginAction::Respond(outcome) => assert_eq!(
            message_of(&login_response(outcome, 600)),
            (500, "internal_error", "failed to process login")
        ),
        _ => panic!("the login has not ended"),
    }
}

fn user(password_hash: String) -> User {
    User {
        user_id: "user-123".to_string(),
        email: "someone@example.com".to_string(),
        password_hash,
        created_at: Timestamp { nanos: 0 },
        mfa_secret: generate_enrollment_secret("someone@example.com").secret_bytes(),
        mfa_enrolled: true,
    }
}

#[test]
fn login_fails_with_its_store() {
    let (state, action) = begun_login();
    assert!(matches!(action, LoginAction::CheckLockout { email } if email == "someone@example.com"));
    let (_, action) =
        login_resume(&service(), &context(), state, LoginEvent::LockoutChecked(Err(down())));
    login_failed(action);

    let (state, _) = begun_login();
    let allowed = LoginEvent::LockoutChecked(Ok(LoginAttemptState::Allowed));
    let (state, action) = login_resume(&service(), &context(), state, allowed);
    assert!(matches!(action, LoginAction::FindUser { email } if email == "someone@example.com"));
    let (_, action) =
        login_resume(&service(), &context(), state, LoginEvent::UserFound(Err(down())));
    login_failed(action);
}

#[test]
fn login_fails_on_a_kept_text_that_is_no_hash() {
    let (state, _) = begun_login();
    let allowed = LoginEvent::LockoutChecked(Ok(LoginAttemptState::Allowed));
    let (state, _) = login_resume(&service(), &context(), state, allowed);
    let found = LoginEvent::UserFound(Ok(Some(user("not a hash".to_string()))));
    let (_, action) = login_resume(&service(), &context(), state, found);
    login_failed(action);

    // So it does, for an unknown address, where the stand-in is none.
    let (state, _) = begun_login();
    let allowed = LoginEvent::LockoutChecked(Ok(LoginAttemptState::Allowed));
    let (state, _) = login_resume(&service(), &context(), state, allowed);
    let (_, action) =
        login_resume(&service(), &context(), state, LoginEvent::UserFound(Ok(None)));
    login_failed(action);
}

#[test]
fn failed_bookkeeping_does_not_stop_a_login() {
    let (state, _) = begun_login();
    let allowed = LoginEvent::LockoutChecked(Ok(LoginAttemptState::Allowed));
    let (state, _) = login_resume(&service(), &context(), state, allowed);
    let hash = hash_password("correct horse battery staple").unwrap();
    let found = LoginEvent::UserFound(Ok(Some(user(hash))));
    // The code is tried as one of the authenticator, then as a recovery code.
    let (state, action) = login_resume(&service(), &context(), state, found);
    assert!(matches!(
        action,
        LoginAction::RedeemCode { user_email, .. } if user_email == "someone@example.com"
    ));
    let (state, action) =
        login_resume(&service(), &context(), state, LoginEvent::CodeRedeemed(Ok(false)));
    assert!(matches!(action, LoginAction::RecordFailure { email } if email == "someone@example.com"));
    // The failure could not be counted. The answer stands.
    let recorded = LoginEvent::FailureRecorded(Err(down()));
    let (_, action) = login_resume(&service(), &context(), state, recorded);
    match action {
        LoginAction::Respond(outcome) => assert_eq!(
            message_of(&login_response(outcome, 600)),
            (401, "mfa_code_invalid", "invalid MFA code")
        ),
        _ => panic!("the login has not ended"),
    }

    // Nor does it matter whether the failures could be cleared in the end.
    for reset in [Ok(()), Err(down())] {
        let state = LoginState::StoringToken {
            email: "someone@example.com".to_string(),
            access_token: "access".to_string(),
            refresh_token: "refresh".to_string(),
        };
        let now = utc_now();
        let stored = LoginEvent::TokenStored(Ok(RefreshTokenRecord {
            token_hash: "hash".to_string(),
            user_email: "someone@example.com".to_string(),
            jkt: "key".to_string(),
            family_id: "family".to_string(),
            status: RefreshTokenStatus::Active,
            replaced_by: None,
            created_at: now,
            expires_at: now,
            family_created_at: now,
        }));
        let (state, action) = login_resume(&service(), &context(), state, stored);
        assert!(matches!(
            action,
            LoginAction::ResetAttempts { email } if email == "someone@example.com"
        ));
        let event = LoginEvent::AttemptsReset(reset);
        let (_, action) = login_resume(&service(), &context(), state, event);
        match action {
            LoginAction::Respond(outcome) => {
                let response = login_response(outcome, 600);
                assert_eq!(response.status, 200);
                assert!(matches!(
                    response.body,
                    ResponseBody::Tokens(tokens) if tokens.access_token == "access"
                        && tokens.refresh_token == "refresh"
                ));
            }
            _ => panic!("the login has not ended"),
        }
    }
}

#[test]
fn login_stops_at_a_secret_of_no_use() {
    for password in ["correct horse battery staple", "wrong"] {
        let (state, _) = login_begin(LoginRequest {
            email: "someone@example.com".to_string(),
            password: password.to_string(),
            mfa_code: "000000".to_string(),
        });
        let allowed = LoginEvent::LockoutChecked(Ok(LoginAttemptState::Allowed));
        let (state, _) = login_resume(&service(), &context(), state, allowed);
        let mut broken = user(hash_password("correct horse battery staple").unwrap());
        broken.mfa_secret.truncate(15);
        let found = LoginEvent::UserFound(Ok(Some(broken)));
        let (_, action) = login_resume(&service(), &context(), state, found);
        if password == "wrong" {
            assert!(matches!(action, LoginAction::RecordFailure { .. }));
        } else {
            assert!(matches!(action, LoginAction::Compute(LoginTask::CheckCode { .. })));
        }
    }
}

#[test]
fn event_out_of_turn_is_an_internal_error() {
    let (state, _) = begun_login();
    let stray = LoginEvent::CodeRedeemed(Ok(true));
    let (_, action) = login_resume(&service(), &context(), state, stray);
    login_failed(action);
}

fn refresh_answer(action: RefreshAction) -> ApiResponse {
    match action {
        RefreshAction::Respond(outcome) => refresh_response(outcome, 600),
        _ => panic!("the refresh has not ended"),
    }
}

#[test]
fn refresh_fails_with_its_store() {
    let (state, _) = refresh_begin(RefreshRequest { refresh_token: "token".to_string() });
    let found = RefreshEvent::TokenFound(Err(down()));
    let (_, action) = refresh_resume(&service(), &context(), state, found);
    assert_eq!(
        message_of(&refresh_answer(action)),
        (500, "internal_error", "failed to process refresh")
    );
}

#[test]
fn reuse_is_answered_alike_whether_or_not_the_family_could_be_revoked() {
    for revoked in [Ok(()), Err(down())] {
        let (state, _) = refresh_begin(RefreshRequest { refresh_token: "token".to_string() });
        let now = utc_now();
        let found = RefreshEvent::TokenFound(Ok(Some(RefreshTokenRecord {
            token_hash: "hash".to_string(),
            user_email: "someone@example.com".to_string(),
            jkt: "key".to_string(),
            family_id: "family".to_string(),
            status: RefreshTokenStatus::Rotated,
            replaced_by: Some("next".to_string()),
            created_at: now,
            expires_at: now,
            family_created_at: now,
        })));
        let (state, action) = refresh_resume(&service(), &context(), state, found);
        assert!(matches!(action, RefreshAction::RevokeFamily { family_id } if family_id == "family"));
        let event = RefreshEvent::FamilyRevoked(revoked);
        let (_, action) = refresh_resume(&service(), &context(), state, event);
        let response = refresh_answer(action);
        let (status, error, message) = message_of(&response);
        assert_eq!((status, error), (401, "refresh_token_reused"));
        assert_eq!(
            message,
            "this refresh token has already been used; your session has been revoked for \
             security reasons, please log in again"
        );
    }
}

#[test]
fn refresh_without_proof_is_refused() {
    let (state, _) = refresh_begin(RefreshRequest { refresh_token: "token".to_string() });
    let now = utc_now();
    let found = RefreshEvent::TokenFound(Ok(Some(RefreshTokenRecord {
        token_hash: "hash".to_string(),
        user_email: "someone@example.com".to_string(),
        jkt: "key".to_string(),
        family_id: "family".to_string(),
        status: RefreshTokenStatus::Active,
        replaced_by: None,
        created_at: now,
        expires_at: now.plus_seconds(60),
        family_created_at: now,
    })));
    let (_, action) = refresh_resume(&service(), &context(), state, found);
    assert_eq!(
        message_of(&refresh_answer(action)),
        (400, "invalid_dpop_proof", "a DPoP proof is required")
    );
}

#[test]
fn registration_fails_with_its_store() {
    for error in [down(), StoreError::NotFound] {
        let (state, action) = register_begin(RegisterRequest {
            email: "someone@example.com".to_string(),
            password: "correct horse battery staple".to_string(),
        });
        assert!(matches!(action, RegisterAction::CheckBreached { .. }));
        let (state, action) = register_resume(state, RegisterEvent::BreachChecked(Ok(false)));
        assert!(matches!(action, RegisterAction::CreateUser(_)));
        let (_, action) = register_resume(state, RegisterEvent::UserCreated(Err(error)));
        match action {
            RegisterAction::Respond(outcome) => assert_eq!(
                message_of(&register_response(outcome)),
                (500, "internal_error", "failed to process registration")
            ),
            _ => panic!("the registration has not ended"),
        }
    }
}

#[test]
fn confirmation_fails_with_its_store() {
    let (state, _) = confirm_begin(ConfirmRequest {
        email: "someone@example.com".to_string(),
        mfa_code: "000000".to_string(),
    });
    let (_, action) = confirm_resume(state, ConfirmEvent::UserFound(Err(down())));
    match action {
        ConfirmAction::Respond(outcome) => assert_eq!(
            message_of(&confirm_response(outcome)),
            (500, "internal_error", "failed to process confirmation")
        ),
        _ => panic!("the confirmation has not ended"),
    }
}

#[test]
fn logout_succeeds_whatever_its_store_says() {
    let (state, action) = logout_begin(LogoutRequest { refresh_token: "token".to_string() });
    assert!(matches!(action, LogoutAction::FindToken { .. }));
    let (_, action) = logout_step(state, LogoutEvent::TokenFound(Err(down())));
    assert!(matches!(action, LogoutAction::Respond));

    let (state, _) = logout_begin(LogoutRequest { refresh_token: "token".to_string() });
    let now = utc_now();
    let found = LogoutEvent::TokenFound(Ok(Some(RefreshTokenRecord {
        token_hash: "hash".to_string(),
        user_email: "someone@example.com".to_string(),
        jkt: "key".to_string(),
        family_id: "family".to_string(),
        status: RefreshTokenStatus::Active,
        replaced_by: None,
        created_at: now,
        expires_at: now,
        family_created_at: now,
    })));
    let (state, action) = logout_step(state, found);
    assert!(matches!(action, LogoutAction::RevokeFamily { family_id } if family_id == "family"));
    let (_, action) = logout_step(state, LogoutEvent::FamilyRevoked(Err(down())));
    assert!(matches!(action, LogoutAction::Respond));
}

#[test]
fn jti_is_kept_for_window_and_skew() {
    let signing_key = p256::ecdsa::SigningKey::random(&mut OsRng);
    let der = signing_key.to_pkcs8_der().unwrap();
    let key = jsonwebtoken::EncodingKey::from_ec_der(der.as_bytes());
    let jwk = jsonwebtoken::jwk::Jwk::from_encoding_key(&key, jsonwebtoken::Algorithm::ES256).unwrap();
    let mut header = jsonwebtoken::Header::new(jsonwebtoken::Algorithm::ES256);
    header.typ = Some("dpop+jwt".to_string());
    header.jwk = Some(jwk);
    let mut claims = serde_json::Map::new();
    claims.insert("htm".to_string(), "POST".into());
    claims.insert("htu".to_string(), "https://auth.test.example/login".into());
    claims.insert("iat".to_string(), 1000.into());
    claims.insert("jti".to_string(), "some-jti".into());
    let proof = jsonwebtoken::encode(&header, &claims, &key).unwrap();
    let base = PublicBaseUrl::parse("https://auth.test.example").unwrap();

    let validate = |now: u64| {
        validate_dpop_proof_at(
            &proof,
            "POST",
            &base,
            "/login",
            None,
            now,
            Timestamp { nanos: 1_000_500_000_000 },
        )
    };
    let pending = validate(1300).unwrap();
    assert_eq!(pending.proof.jti, "some-jti");
    assert_eq!(pending.expires_at, Timestamp { nanos: 1_360_500_000_000 });
    assert!(matches!(validate(1301), Err(DpopError::Stale)));
    assert!(validate(940).is_ok());
    assert!(matches!(validate(939), Err(DpopError::FutureIat)));
}
