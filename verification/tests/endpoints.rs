//! The endpoints as a client meets them, with everything kept in memory.
use std::collections::{HashMap, HashSet};

use argon2::password_hash::rand_core::OsRng;
use base64::Engine;
use jsonwebtoken::jwk::{Jwk, ThumbprintHash};
use p256::pkcs8::EncodePrivateKey;
use sha2::Digest;

use auth_service::auth::{
    authenticate_bearer, begin_dpop_auth, finish_dpop_auth, me_response, rejection_response,
};
use auth_service::confirm::{
    confirm_begin, confirm_response, confirm_resume, ConfirmAction, ConfirmEvent,
};
use auth_service::dpop::PublicBaseUrl;
use auth_service::error::{ApiResponse, ResponseBody};
use auth_service::login::{
    login_begin, login_response, login_resume, LoginAction, LoginEvent, LoginRequest,
    TokenResponse, DUMMY_PASSWORD,
};
use auth_service::logout::{
    logout_begin, logout_response, logout_step, LogoutAction, LogoutEvent, LogoutRequest,
};
use auth_service::password::{breach_query, hash_password, range_lists_suffix, verify_password};
use auth_service::random::{generate_opaque_token, hash_token};
use auth_service::refresh::{
    refresh_begin, refresh_response, refresh_resume, RefreshAction, RefreshEvent, RefreshRequest,
};
use auth_service::refresh_token::{
    NewRefreshToken, RefreshTokenRecord, RefreshTokenStatus, REFRESH_TOKEN_TTL_DAYS,
};
use auth_service::register::{
    register_begin, register_response, register_resume, ConfirmRequest, ConfirmResponse,
    RegisterAction, RegisterEvent, RegisterRequest, RegisterResponse,
};
use auth_service::request::{AuthService, RequestContext};
use auth_service::store::login_attempts::{
    check, login_attempt_state, record_failure, LoginAttemptRecord,
};
use auth_service::store::recovery_codes::{redeem, RecoveryCodeRecord};
use auth_service::store::refresh_tokens::{
    create, revoke_family, rotate_in_transaction, rotate_step, RotateAction, RotateAttempt,
    RotateEvent, RotateState, RotationWrites,
};
use auth_service::store::users::{
    confirm_mfa_enrollment, confirm_mfa_result, create_user, user_insert_error, ConfirmMfaOutcome,
};
use auth_service::store::{jti_insert_error, InsertFailure, LoginAttemptState, StoreError};
use auth_service::time::{utc_now, Timestamp};
use auth_service::token::JwtKeys;
use auth_service::totp::{
    generate_current_for_base32, generate_enrollment_secret, EnrollmentSecret,
};
use auth_service::user::{NewUser, User};

const TEST_JWT_SIGNING_SECRET: &[u8] = b"test-only signing secret, at least 32 bytes long!!";
const TEST_PUBLIC_BASE_URL: &str = "https://auth.test.example";
const NANOS_PER_DAY: i128 = 86_400_000_000_000;

struct World {
    service: AuthService,
    users: HashMap<String, User>,
    tokens: HashMap<String, RefreshTokenRecord>,
    jtis: HashSet<String>,
    attempts: HashMap<String, LoginAttemptRecord>,
    codes: HashMap<String, RecoveryCodeRecord>,
    /// The answer of the service that lists breached passwords, if it has one.
    breach_list: Option<String>,
}

fn copy_user(user: &User) -> User {
    User {
        user_id: user.user_id.clone(),
        email: user.email.clone(),
        password_hash: user.password_hash.clone(),
        created_at: user.created_at,
        mfa_secret: user.mfa_secret.clone(),
        mfa_enrolled: user.mfa_enrolled,
    }
}

fn copy_record(record: &RefreshTokenRecord) -> RefreshTokenRecord {
    RefreshTokenRecord {
        token_hash: record.token_hash.clone(),
        user_email: record.user_email.clone(),
        jkt: record.jkt.clone(),
        family_id: record.family_id.clone(),
        status: record.status,
        replaced_by: record.replaced_by.clone(),
        created_at: record.created_at,
        expires_at: record.expires_at,
        family_created_at: record.family_created_at,
    }
}

fn copy_code(record: &RecoveryCodeRecord) -> RecoveryCodeRecord {
    RecoveryCodeRecord { user_email: record.user_email.clone(), consumed: record.consumed }
}

fn post(path: &str, dpop: Option<&str>) -> RequestContext {
    RequestContext {
        method: "POST".to_string(),
        path: path.to_string(),
        authorization: None,
        dpop: dpop.map(String::from),
    }
}

impl World {
    fn new() -> World {
        World {
            service: AuthService::new(
                JwtKeys::new(TEST_JWT_SIGNING_SECRET, 600),
                PublicBaseUrl::parse(TEST_PUBLIC_BASE_URL).expect("valid test base url"),
            ),
            users: HashMap::new(),
            tokens: HashMap::new(),
            jtis: HashSet::new(),
            attempts: HashMap::new(),
            codes: HashMap::new(),
            breach_list: Some(String::new()),
        }
    }

    fn insert_user(&mut self, new_user: NewUser) -> Result<User, StoreError> {
        let user = create_user(new_user);
        if self.users.contains_key(&user.email) {
            return Err(user_insert_error(InsertFailure::Conflict));
        }
        let copy = copy_user(&user);
        self.users.insert(user.email.clone(), user);
        Ok(copy)
    }

    fn confirm_user(&mut self, email: &str, hashes: &Vec<String>) -> Result<User, StoreError> {
        let outcome = confirm_mfa_enrollment(self.users.get(email).map(copy_user), email, hashes);
        if let ConfirmMfaOutcome::Confirmed { user, recovery_codes } = &outcome {
            self.users.insert(email.to_string(), copy_user(user));
            for entry in recovery_codes {
                self.codes.insert(entry.code_hash.clone(), copy_code(&entry.record));
            }
        }
        confirm_mfa_result(outcome)
    }

    fn insert_jti(&mut self, jti: &str) -> Result<(), StoreError> {
        if self.jtis.insert(jti.to_string()) {
            Ok(())
        } else {
            Err(jti_insert_error(InsertFailure::Conflict))
        }
    }

    fn count_failure(&mut self, email: &str) -> LoginAttemptState {
        let record = record_failure(self.attempts.get(email).copied());
        self.attempts.insert(email.to_string(), record);
        login_attempt_state(&record, utc_now())
    }

    fn redeem_code(&mut self, email: &String, hash: &str) -> bool {
        match redeem(self.codes.get(hash).map(copy_code), email) {
            Some(record) => {
                self.codes.insert(hash.to_string(), record);
                true
            }
            None => false,
        }
    }

    fn revoke(&mut self, family_id: &str) {
        let members: Vec<RefreshTokenRecord> = self
            .tokens
            .values()
            .filter(|record| record.family_id == family_id)
            .map(copy_record)
            .collect();
        for record in revoke_family(members) {
            self.tokens.insert(record.token_hash.clone(), record);
        }
    }

    fn rotate(
        &mut self,
        old_hash: &str,
        new_hash: &str,
        jkt: &str,
    ) -> Result<RefreshTokenRecord, StoreError> {
        let found = self.tokens.get(old_hash).map(copy_record);
        let (mut state, mut action) =
            rotate_step(RotateState::Finding, RotateEvent::Found(Ok(found)));
        loop {
            let event = match action {
                RotateAction::RunTransaction(plan) => {
                    let current = self.tokens.get(old_hash).map(copy_record);
                    let attempt = match rotate_in_transaction(&plan, current, new_hash, jkt) {
                        RotationWrites::Nothing => RotateAttempt::NotActive,
                        RotationWrites::Exchange { old, new } => {
                            let copy = copy_record(&new);
                            self.tokens.insert(old.token_hash.clone(), old);
                            self.tokens.insert(new.token_hash.clone(), new);
                            RotateAttempt::Rotated(copy)
                        }
                    };
                    RotateEvent::TransactionEnded(Ok(attempt))
                }
                RotateAction::RevokeFamily { family_id } => {
                    self.revoke(&family_id);
                    RotateEvent::FamilyRevoked(Ok(()))
                }
                RotateAction::Return(result) => return result,
                RotateAction::Refuse => panic!("an event out of turn"),
            };
            let next = rotate_step(state, event);
            state = next.0;
            action = next.1;
        }
    }

    fn login(&mut self, email: &str, password: &str, code: &str, dpop: Option<&str>) -> ApiResponse {
        let request = post("/login", dpop);
        let (mut state, mut action) = login_begin(LoginRequest {
            email: email.to_string(),
            password: password.to_string(),
            mfa_code: code.to_string(),
        });
        loop {
            let event = match action {
                LoginAction::CheckLockout { email } => {
                    LoginEvent::LockoutChecked(Ok(check(self.attempts.get(&email).copied())))
                }
                LoginAction::FindUser { email } => {
                    LoginEvent::UserFound(Ok(self.users.get(&email).map(copy_user)))
                }
                LoginAction::RecordFailure { email } => {
                    LoginEvent::FailureRecorded(Ok(self.count_failure(&email)))
                }
                LoginAction::ResetAttempts { email } => {
                    self.attempts.remove(&email);
                    LoginEvent::AttemptsReset(Ok(()))
                }
                LoginAction::RedeemCode { user_email, code_hash } => {
                    LoginEvent::CodeRedeemed(Ok(self.redeem_code(&user_email, &code_hash)))
                }
                LoginAction::RecordProof { jti, .. } => {
                    LoginEvent::ProofRecorded(self.insert_jti(&jti))
                }
                LoginAction::StoreToken { new_token, token_hash } => {
                    let record = create(new_token, &token_hash);
                    self.tokens.insert(token_hash, copy_record(&record));
                    LoginEvent::TokenStored(Ok(record))
                }
                LoginAction::Compute(_) => panic!("a task is never left over"),
                LoginAction::Respond(outcome) => {
                    return login_response(outcome, self.service.jwt.ttl());
                }
            };
            let next = login_resume(&self.service, &request, state, event);
            state = next.0;
            action = next.1;
        }
    }

    fn refresh(&mut self, token: &str, dpop: Option<&str>) -> ApiResponse {
        let request = post("/refresh", dpop);
        let (mut state, mut action) =
            refresh_begin(RefreshRequest { refresh_token: token.to_string() });
        loop {
            let event = match action {
                RefreshAction::FindToken { token_hash } => {
                    RefreshEvent::TokenFound(Ok(self.tokens.get(&token_hash).map(copy_record)))
                }
                RefreshAction::RevokeFamily { family_id } => {
                    self.revoke(&family_id);
                    RefreshEvent::FamilyRevoked(Ok(()))
                }
                RefreshAction::RecordProof { jti, .. } => {
                    RefreshEvent::ProofRecorded(self.insert_jti(&jti))
                }
                RefreshAction::FindUser { email } => {
                    RefreshEvent::UserFound(Ok(self.users.get(&email).map(copy_user)))
                }
                RefreshAction::Rotate { old_token_hash, new_token_hash, jkt } => {
                    RefreshEvent::Rotated(self.rotate(&old_token_hash, &new_token_hash, &jkt))
                }
                RefreshAction::Compute(_) => panic!("a task is never left over"),
                RefreshAction::Respond(outcome) => {
                    return refresh_response(outcome, self.service.jwt.ttl());
                }
            };
            let next = refresh_resume(&self.service, &request, state, event);
            state = next.0;
            action = next.1;
        }
    }

    fn register(&mut self, email: &str, password: &str) -> ApiResponse {
        let (mut state, mut action) = register_begin(RegisterRequest {
            email: email.to_string(),
            password: password.to_string(),
        });
        loop {
            let event = match action {
                RegisterAction::CheckBreached { password } => {
                    let query = breach_query(&password);
                    RegisterEvent::BreachChecked(match &self.breach_list {
                        Some(body) => Ok(range_lists_suffix(body, &query.suffix)),
                        None => Err(auth_service::register::BreachCheckFailed),
                    })
                }
                RegisterAction::CreateUser(new_user) => {
                    RegisterEvent::UserCreated(self.insert_user(new_user))
                }
                RegisterAction::Compute(_) => panic!("a task is never left over"),
                RegisterAction::Respond(outcome) => return register_response(outcome),
            };
            let next = register_resume(state, event);
            state = next.0;
            action = next.1;
        }
    }

    fn confirm(&mut self, email: &str, code: &str) -> ApiResponse {
        let (mut state, mut action) = confirm_begin(ConfirmRequest {
            email: email.to_string(),
            mfa_code: code.to_string(),
        });
        loop {
            let event = match action {
                ConfirmAction::FindUser { email } => {
                    ConfirmEvent::UserFound(Ok(self.users.get(&email).map(copy_user)))
                }
                ConfirmAction::ConfirmEnrollment { email, recovery_code_hashes } => {
                    ConfirmEvent::EnrollmentConfirmed(
                        self.confirm_user(&email, &recovery_code_hashes),
                    )
                }
                ConfirmAction::Compute(_) => panic!("a task is never left over"),
                ConfirmAction::Respond(outcome) => return confirm_response(outcome),
            };
            let next = confirm_resume(state, event);
            state = next.0;
            action = next.1;
        }
    }

    fn logout(&mut self, token: &str) -> ApiResponse {
        let (mut state, mut action) =
            logout_begin(LogoutRequest { refresh_token: token.to_string() });
        loop {
            let event = match action {
                LogoutAction::FindToken { token_hash } => {
                    LogoutEvent::TokenFound(Ok(self.tokens.get(&token_hash).map(copy_record)))
                }
                LogoutAction::RevokeFamily { family_id } => {
                    self.revoke(&family_id);
                    LogoutEvent::FamilyRevoked(Ok(()))
                }
                LogoutAction::Respond => return logout_response(),
            };
            let next = logout_step(state, event);
            state = next.0;
            action = next.1;
        }
    }

    fn me(&mut self, authorization: Option<&str>, dpop: Option<&str>) -> ApiResponse {
        let request = RequestContext {
            method: "GET".to_string(),
            path: "/me".to_string(),
            authorization: authorization.map(String::from),
            dpop: dpop.map(String::from),
        };
        let begun = match begin_dpop_auth(&self.service, &request) {
            Ok(begun) => begun,
            Err(rejection) => return rejection_response(&rejection),
        };
        let insertion = self.insert_jti(&begun.pending.proof.jti);
        match finish_dpop_auth(begun, insertion) {
            Ok(user) => me_response(user),
            Err(rejection) => rejection_response(&rejection),
        }
    }

    /// An account that has not been confirmed.
    fn create_test_user(&mut self, email: &str, password: &str) {
        let enrollment = generate_enrollment_secret(email);
        self.insert_user(NewUser {
            user_id: generate_opaque_token(16),
            email: email.to_string(),
            password_hash: hash_password(password).unwrap(),
            mfa_secret: enrollment.secret_bytes(),
        })
        .unwrap();
    }

    /// An account that is ready for login.
    fn create_test_user_with_mfa(&mut self, email: &str, password: &str) -> (User, EnrollmentSecret) {
        let enrollment = generate_enrollment_secret(email);
        self.insert_user(NewUser {
            user_id: generate_opaque_token(16),
            email: email.to_string(),
            password_hash: hash_password(password).unwrap(),
            mfa_secret: enrollment.secret_bytes(),
        })
        .unwrap();
        let user = self.confirm_user(email, &Vec::new()).unwrap();
        (user, enrollment)
    }

    fn session(&mut self, email: &str, password: &str) -> Session {
        let (user, enrollment) = self.create_test_user_with_mfa(email, password);
        let keypair = DpopKeypair::generate();
        let proof = DpopProofBuilder::new("POST", &login_url()).sign(&keypair);
        let code = enrollment.generate_current();
        let tokens = tokens(self.login(email, password, &code, Some(&proof)));
        Session {
            user,
            keypair,
            access_token: tokens.access_token,
            refresh_token: tokens.refresh_token,
        }
    }

    fn call_refresh(&mut self, token: &str, keypair: &DpopKeypair) -> ApiResponse {
        let proof = DpopProofBuilder::new("POST", &refresh_url()).sign(keypair);
        self.refresh(token, Some(&proof))
    }

    fn call_me(&mut self, session: &Session, proof: Option<&str>) -> ApiResponse {
        self.me(Some(&format!("Bearer {}", session.access_token)), proof)
    }

    fn record(&self, token: &str) -> &RefreshTokenRecord {
        self.tokens.get(&hash_token(token)).expect("refresh token record should exist")
    }
}

struct Session {
    user: User,
    keypair: DpopKeypair,
    access_token: String,
    refresh_token: String,
}

fn tokens(response: ApiResponse) -> TokenResponse {
    assert_eq!(response.status, 200);
    match response.body {
        ResponseBody::Tokens(tokens) => tokens,
        other => panic!("expected tokens, not {other:?}"),
    }
}

fn registered(response: ApiResponse) -> RegisterResponse {
    assert_eq!(response.status, 201);
    match response.body {
        ResponseBody::Registered(registered) => registered,
        other => panic!("expected an account, not {other:?}"),
    }
}

fn confirmed(response: ApiResponse) -> ConfirmResponse {
    assert_eq!(response.status, 200);
    match response.body {
        ResponseBody::Confirmed(confirmed) => confirmed,
        other => panic!("expected recovery codes, not {other:?}"),
    }
}

fn error_of(response: &ApiResponse) -> (&str, &str) {
    match &response.body {
        ResponseBody::Error { error, message } => (error, message),
        other => panic!("expected an error, not {other:?}"),
    }
}

fn login_url() -> String {
    format!("{TEST_PUBLIC_BASE_URL}/login")
}

fn refresh_url() -> String {
    format!("{TEST_PUBLIC_BASE_URL}/refresh")
}

fn me_url() -> String {
    format!("{TEST_PUBLIC_BASE_URL}/me")
}

struct DpopKeypair {
    encoding_key: jsonwebtoken::EncodingKey,
    jwk: Jwk,
}

impl DpopKeypair {
    fn generate() -> Self {
        let signing_key = p256::ecdsa::SigningKey::random(&mut OsRng);
        let der = signing_key.to_pkcs8_der().expect("pkcs8-encode test signing key");
        let encoding_key = jsonwebtoken::EncodingKey::from_ec_der(der.as_bytes());
        let jwk = Jwk::from_encoding_key(&encoding_key, jsonwebtoken::Algorithm::ES256)
            .expect("derive jwk from test encoding key");
        Self { encoding_key, jwk }
    }

    fn thumbprint(&self) -> String {
        self.jwk.thumbprint(ThumbprintHash::SHA256).expect("compute test jwk thumbprint")
    }
}

/// Builds a valid proof, each field of which can be overridden.
struct DpopProofBuilder {
    htm: String,
    htu: String,
    iat_offset: i64,
    jti: String,
    ath: Option<String>,
    typ: String,
    with_jwk: bool,
}

impl DpopProofBuilder {
    fn new(htm: &str, htu: &str) -> Self {
        Self {
            htm: htm.to_string(),
            htu: htu.to_string(),
            iat_offset: 0,
            jti: generate_opaque_token(16),
            ath: None,
            typ: "dpop+jwt".to_string(),
            with_jwk: true,
        }
    }

    fn iat_offset(mut self, offset_secs: i64) -> Self {
        self.iat_offset = offset_secs;
        self
    }

    fn ath_for_token(mut self, token: &str) -> Self {
        let digest = sha2::Sha256::digest(token.as_bytes());
        self.ath = Some(base64::engine::general_purpose::URL_SAFE_NO_PAD.encode(digest));
        self
    }

    fn ath_raw(mut self, ath: &str) -> Self {
        self.ath = Some(ath.to_string());
        self
    }

    fn typ(mut self, typ: &str) -> Self {
        self.typ = typ.to_string();
        self
    }

    fn without_jwk(mut self) -> Self {
        self.with_jwk = false;
        self
    }

    fn claims(&self) -> serde_json::Map<String, serde_json::Value> {
        let now = jsonwebtoken::get_current_timestamp() as i64;
        let mut claims = serde_json::Map::new();
        claims.insert("htm".to_string(), self.htm.as_str().into());
        claims.insert("htu".to_string(), self.htu.as_str().into());
        claims.insert("iat".to_string(), (now + self.iat_offset).into());
        claims.insert("jti".to_string(), self.jti.as_str().into());
        if let Some(ath) = &self.ath {
            claims.insert("ath".to_string(), ath.as_str().into());
        }
        claims
    }

    fn sign_claims(
        &self,
        keypair: &DpopKeypair,
        claims: &serde_json::Map<String, serde_json::Value>,
    ) -> String {
        let mut header = jsonwebtoken::Header::new(jsonwebtoken::Algorithm::ES256);
        header.typ = Some(self.typ.clone());
        if self.with_jwk {
            header.jwk = Some(keypair.jwk.clone());
        }
        jsonwebtoken::encode(&header, claims, &keypair.encoding_key).expect("sign test dpop proof")
    }

    fn sign(self, keypair: &DpopKeypair) -> String {
        self.sign_claims(keypair, &self.claims())
    }
}

#[test]
fn login_succeeds_and_returns_valid_tokens() {
    let mut world = World::new();
    let email = "login-success@example.com";
    let password = "a genuinely long passphrase 3";
    let (user, enrollment) = world.create_test_user_with_mfa(email, password);

    let keypair = DpopKeypair::generate();
    let proof = DpopProofBuilder::new("POST", &login_url()).sign(&keypair);
    let code = enrollment.generate_current();
    let body = tokens(world.login(email, password, &code, Some(&proof)));

    assert_eq!(body.token_type, "Bearer");
    assert_eq!(body.expires_in, 600);

    let claims = world.service.jwt.verify_access_token(&body.access_token).unwrap();
    assert_eq!(claims.sub, user.user_id);
    assert_eq!(claims.exp - claims.iat, 600);
    assert!(!claims.jti.is_empty());
    assert_eq!(claims.cnf.jkt, keypair.thumbprint());

    let record = world.record(&body.refresh_token);
    assert_eq!(record.user_email, email);
    assert_eq!(record.jkt, keypair.thumbprint());
    assert_eq!(
        (record.expires_at.nanos - record.created_at.nanos) / NANOS_PER_DAY,
        REFRESH_TOKEN_TTL_DAYS as i128
    );
}

#[test]
fn login_without_dpop_header_rejected() {
    let mut world = World::new();
    let email = "login-no-dpop@example.com";
    let password = "a genuinely long passphrase 3a";
    let (_, enrollment) = world.create_test_user_with_mfa(email, password);

    let code = enrollment.generate_current();
    let response = world.login(email, password, &code, None);

    assert_eq!(response.status, 400);
    assert_eq!(error_of(&response).0, "invalid_dpop_proof");
    assert_eq!(error_of(&response).1, "a DPoP proof is required");
}

#[test]
fn wrong_password_and_unknown_email_return_identical_generic_error() {
    let mut world = World::new();
    let email = "login-wrong-password@example.com";
    let password = "a genuinely long passphrase 4";
    world.create_test_user(email, password);

    let wrong = world.login(email, "not the right password", "000000", None);
    let unknown =
        world.login("login-unknown-email@example.com", "whatever password", "000000", None);

    assert_eq!(wrong.status, 401);
    assert_eq!(wrong.status, unknown.status);
    assert_eq!(error_of(&wrong), error_of(&unknown));
    assert_eq!(wrong.retry_after, unknown.retry_after);
    assert_eq!(error_of(&wrong).0, "invalid_credentials");
}

#[test]
fn the_dummy_password_opens_nothing() {
    let mut world = World::new();
    let response = world.login("nobody@example.com", DUMMY_PASSWORD, "000000", None);
    assert_eq!(response.status, 401);
    assert_eq!(error_of(&response).0, "invalid_credentials");
    assert_eq!(world.attempts.get("nobody@example.com").unwrap().failure_count, 1);
}

#[test]
fn logins_for_same_user_have_unique_jti() {
    let mut world = World::new();
    let email = "login-jti-unique@example.com";
    let password = "a genuinely long passphrase 5";
    let (_, enrollment) = world.create_test_user_with_mfa(email, password);
    let keypair = DpopKeypair::generate();

    let proof_a = DpopProofBuilder::new("POST", &login_url()).sign(&keypair);
    let code_a = enrollment.generate_current();
    let body_a = tokens(world.login(email, password, &code_a, Some(&proof_a)));
    let proof_b = DpopProofBuilder::new("POST", &login_url()).sign(&keypair);
    let code_b = enrollment.generate_current();
    let body_b = tokens(world.login(email, password, &code_b, Some(&proof_b)));

    let claims_a = world.service.jwt.verify_access_token(&body_a.access_token).unwrap();
    let claims_b = world.service.jwt.verify_access_token(&body_b.access_token).unwrap();
    assert_ne!(claims_a.jti, claims_b.jti);
}

#[test]
fn access_token_authenticates_protected_route() {
    let mut world = World::new();
    let session = world.session("login-me-route@example.com", "a genuinely long passphrase 6");

    let proof = DpopProofBuilder::new("GET", &me_url())
        .ath_for_token(&session.access_token)
        .sign(&session.keypair);
    let response = world.call_me(&session, Some(&proof));
    assert_eq!(response.status, 200);
    match response.body {
        ResponseBody::Identity { user_id } => assert_eq!(user_id, session.user.user_id),
        other => panic!("expected an identity, not {other:?}"),
    }

    assert_eq!(world.me(None, None).status, 401);

    let another_proof = DpopProofBuilder::new("GET", &me_url())
        .ath_for_token(&session.access_token)
        .sign(&session.keypair);
    let garbage = world.me(Some("Bearer garbage.token.value"), Some(&another_proof));
    assert_eq!(garbage.status, 401);
    assert_eq!(error_of(&garbage), ("unauthorized", "missing or invalid access token"));
}

#[test]
fn login_locks_out_after_threshold_failures() {
    let mut world = World::new();
    let email = "lockout-threshold@example.com";
    let password = "a genuinely long passphrase 7";
    world.create_test_user(email, password);

    for _ in 0..10 {
        let response = world.login(email, "wrong password", "000000", None);
        assert_eq!(response.status, 401);
        assert_eq!(error_of(&response).0, "invalid_credentials");
    }

    let response = world.login(email, "wrong password", "000000", None);
    assert_eq!(response.status, 429);
    let retry_after: u64 = response.retry_after.as_ref().unwrap().parse().unwrap();
    assert!(retry_after <= 900 && retry_after > 890);
    assert_eq!(error_of(&response).0, "account_locked");

    // The correct password is turned away as well.
    let response = world.login(email, password, "000000", None);
    assert_eq!(response.status, 429);
    assert_eq!(error_of(&response).0, "account_locked");
}

#[test]
fn lockout_does_not_depend_on_an_account() {
    let mut world = World::new();
    for _ in 0..10 {
        let response = world.login("nobody@example.com", "wrong password", "000000", None);
        assert_eq!(response.status, 401);
    }
    // The address is counted as normalized.
    let response = world.login("  Nobody@Example.COM ", "wrong password", "000000", None);
    assert_eq!(response.status, 429);
    assert_eq!(error_of(&response).0, "account_locked");
}

#[test]
fn successful_login_resets_attempt_counter() {
    let mut world = World::new();
    let email = "lockout-reset@example.com";
    let password = "a genuinely long passphrase 8";
    let (_, enrollment) = world.create_test_user_with_mfa(email, password);

    for _ in 0..5 {
        assert_eq!(world.login(email, "wrong password", "000000", None).status, 401);
    }

    let keypair = DpopKeypair::generate();
    let proof = DpopProofBuilder::new("POST", &login_url()).sign(&keypair);
    let code = enrollment.generate_current();
    assert_eq!(world.login(email, password, &code, Some(&proof)).status, 200);

    for _ in 0..9 {
        let response = world.login(email, "wrong password", "000000", None);
        assert_eq!(response.status, 401);
        assert_eq!(error_of(&response).0, "invalid_credentials");
    }
}

#[test]
fn wrong_codes_and_wrong_passwords_share_one_budget() {
    let mut world = World::new();
    let email = "shared-budget@example.com";
    let password = "a genuinely long passphrase 9";
    world.create_test_user_with_mfa(email, password);

    for count in 1..=5 {
        let response = world.login(email, password, "not a code", None);
        assert_eq!(response.status, 401);
        assert_eq!(error_of(&response), ("mfa_code_invalid", "invalid MFA code"));
        assert_eq!(world.attempts.get(email).unwrap().failure_count, 2 * count - 1);
        world.login(email, "wrong password", "000000", None);
        assert_eq!(world.attempts.get(email).unwrap().failure_count, 2 * count);
    }
    let response = world.login(email, password, "not a code", None);
    assert_eq!(response.status, 429);
    assert_eq!(error_of(&response).0, "account_locked");
}

#[test]
fn wrong_codes_alone_lock_out() {
    let mut world = World::new();
    let email = "wrong-codes@example.com";
    let password = "a genuinely long passphrase 11";
    let (_, enrollment) = world.create_test_user_with_mfa(email, password);

    for _ in 0..10 {
        let response = world.login(email, password, "not a code", None);
        assert_eq!(response.status, 401);
        assert_eq!(error_of(&response).0, "mfa_code_invalid");
    }
    // Even both factors are turned away now.
    let keypair = DpopKeypair::generate();
    let proof = DpopProofBuilder::new("POST", &login_url()).sign(&keypair);
    let code = enrollment.generate_current();
    let response = world.login(email, password, &code, Some(&proof));
    assert_eq!(response.status, 429);
    assert_eq!(error_of(&response).0, "account_locked");
}

#[test]
fn only_a_granted_login_clears_the_failures() {
    let mut world = World::new();
    let email = "clears-failures@example.com";
    let password = "a genuinely long passphrase 12";
    let (_, enrollment) = world.create_test_user_with_mfa(email, password);
    world.login(email, "wrong password", "000000", None);
    assert_eq!(world.attempts.get(email).unwrap().failure_count, 1);

    // Both factors without a proof are not enough.
    let code = enrollment.generate_current();
    assert_eq!(world.login(email, password, &code, None).status, 400);
    assert_eq!(world.attempts.get(email).unwrap().failure_count, 1);

    let keypair = DpopKeypair::generate();
    let proof = DpopProofBuilder::new("POST", &login_url()).sign(&keypair);
    let code = enrollment.generate_current();
    assert_eq!(world.login(email, password, &code, Some(&proof)).status, 200);
    assert!(world.attempts.get(email).is_none());
}

#[test]
fn unfinished_enrollment_clears_no_failures() {
    let mut world = World::new();
    let email = "not-enrolled@example.com";
    let password = "a genuinely long passphrase 13";
    world.create_test_user(email, password);
    world.login(email, "wrong password", "000000", None);
    assert_eq!(world.login(email, password, "000000", None).status, 403);
    assert_eq!(world.attempts.get(email).unwrap().failure_count, 1);
}

#[test]
fn wrong_htm_rejected() {
    let mut world = World::new();
    let session = world.session("dpop-wrong-htm@example.com", "a genuinely long dpop test passphrase");
    let proof = DpopProofBuilder::new("POST", &me_url())
        .ath_for_token(&session.access_token)
        .sign(&session.keypair);
    let response = world.call_me(&session, Some(&proof));
    assert_eq!(response.status, 401);
    assert_eq!(error_of(&response).0, "invalid_dpop_proof");
    assert_eq!(error_of(&response).1, "DPoP proof htm does not match the request");
}

#[test]
fn wrong_htu_rejected() {
    let mut world = World::new();
    let session = world.session("dpop-wrong-htu@example.com", "a genuinely long dpop test passphrase");
    let proof = DpopProofBuilder::new("GET", &format!("{TEST_PUBLIC_BASE_URL}/somewhere-else"))
        .ath_for_token(&session.access_token)
        .sign(&session.keypair);
    let response = world.call_me(&session, Some(&proof));
    assert_eq!(response.status, 401);
    assert_eq!(error_of(&response).1, "DPoP proof htu does not match the request");
}

#[test]
fn stale_iat_rejected() {
    let mut world = World::new();
    let session = world.session("dpop-stale-iat@example.com", "a genuinely long dpop test passphrase");
    let proof = DpopProofBuilder::new("GET", &me_url())
        .ath_for_token(&session.access_token)
        .iat_offset(-400)
        .sign(&session.keypair);
    let response = world.call_me(&session, Some(&proof));
    assert_eq!(response.status, 401);
    assert_eq!(error_of(&response).1, "DPoP proof is too old");
}

#[test]
fn future_iat_beyond_skew_rejected() {
    let mut world = World::new();
    let session = world.session("dpop-future-iat@example.com", "a genuinely long dpop test passphrase");
    let proof = DpopProofBuilder::new("GET", &me_url())
        .ath_for_token(&session.access_token)
        .iat_offset(120)
        .sign(&session.keypair);
    let response = world.call_me(&session, Some(&proof));
    assert_eq!(response.status, 401);
    assert_eq!(error_of(&response).1, "DPoP proof iat is too far in the future");
}

#[test]
fn replayed_jti_rejected() {
    let mut world = World::new();
    let session = world.session("dpop-replay@example.com", "a genuinely long dpop test passphrase");
    let proof = DpopProofBuilder::new("GET", &me_url())
        .ath_for_token(&session.access_token)
        .sign(&session.keypair);
    assert_eq!(world.call_me(&session, Some(&proof)).status, 200);
    let again = world.call_me(&session, Some(&proof));
    assert_eq!(again.status, 401);
    assert_eq!(error_of(&again).1, "DPoP proof has already been used");
}

#[test]
fn jti_of_another_proof_rejected() {
    let mut world = World::new();
    let one = world.session("dpop-jti-one@example.com", "a genuinely long dpop test passphrase");
    let two = world.session("dpop-jti-two@example.com", "a genuinely long dpop test passphrase");
    let first = DpopProofBuilder::new("GET", &me_url()).ath_for_token(&one.access_token);
    let mut second = DpopProofBuilder::new("GET", &me_url()).ath_for_token(&two.access_token);
    second.jti = first.jti.clone();
    let first = first.sign(&one.keypair);
    let second = second.sign(&two.keypair);
    assert_eq!(world.call_me(&one, Some(&first)).status, 200);
    let response = world.call_me(&two, Some(&second));
    assert_eq!(response.status, 401);
    assert_eq!(error_of(&response).1, "DPoP proof has already been used");
}

#[test]
fn wrong_key_rejected() {
    let mut world = World::new();
    let session = world.session("dpop-wrong-key@example.com", "a genuinely long dpop test passphrase");
    let other_keypair = DpopKeypair::generate();
    let proof = DpopProofBuilder::new("GET", &me_url())
        .ath_for_token(&session.access_token)
        .sign(&other_keypair);
    let response = world.call_me(&session, Some(&proof));
    assert_eq!(response.status, 401);
    assert_eq!(error_of(&response).1, "DPoP proof key does not match the token binding");
}

#[test]
fn wrong_ath_rejected() {
    let mut world = World::new();
    let session = world.session("dpop-wrong-ath@example.com", "a genuinely long dpop test passphrase");
    let proof = DpopProofBuilder::new("GET", &me_url())
        .ath_raw("not-the-real-token-hash")
        .sign(&session.keypair);
    let response = world.call_me(&session, Some(&proof));
    assert_eq!(response.status, 401);
    assert_eq!(error_of(&response).1, "DPoP proof does not match the presented access token");
}

#[test]
fn missing_dpop_header_on_me_rejected() {
    let mut world = World::new();
    let session = world.session("dpop-missing-header@example.com", "a genuinely long dpop test passphrase");
    let response = world.call_me(&session, None);
    assert_eq!(response.status, 401);
    assert_eq!(error_of(&response).0, "invalid_dpop_proof");
}

#[test]
fn disallowed_algorithm_rejected() {
    let mut world = World::new();
    let session = world.session("dpop-wrong-alg@example.com", "a genuinely long dpop test passphrase");
    let claims = DpopProofBuilder::new("GET", &me_url()).ath_raw("irrelevant").claims();
    let mut header = jsonwebtoken::Header::new(jsonwebtoken::Algorithm::HS256);
    header.typ = Some("dpop+jwt".to_string());
    let proof = jsonwebtoken::encode(
        &header,
        &claims,
        &jsonwebtoken::EncodingKey::from_secret(b"irrelevant-hs256-secret"),
    )
    .unwrap();
    let response = world.call_me(&session, Some(&proof));
    assert_eq!(response.status, 401);
    assert_eq!(error_of(&response).0, "invalid_dpop_proof");
    assert_eq!(error_of(&response).1, "unsupported DPoP proof algorithm");
}

#[test]
fn proof_without_key_or_with_wrong_type_rejected() {
    let mut world = World::new();
    let session = world.session("dpop-header@example.com", "a genuinely long dpop test passphrase");
    let no_key = DpopProofBuilder::new("GET", &me_url())
        .ath_for_token(&session.access_token)
        .without_jwk()
        .sign(&session.keypair);
    let response = world.call_me(&session, Some(&no_key));
    assert_eq!(error_of(&response).1, "the DPoP proof is malformed");

    let wrong_type = DpopProofBuilder::new("GET", &me_url())
        .ath_for_token(&session.access_token)
        .typ("JWT")
        .sign(&session.keypair);
    let response = world.call_me(&session, Some(&wrong_type));
    assert_eq!(error_of(&response).1, "DPoP proof has the wrong typ");

    let response = world.call_me(&session, Some("not a token at all"));
    assert_eq!(error_of(&response).1, "the DPoP proof is malformed");
}

#[test]
fn proof_with_broken_claims_rejected() {
    let mut world = World::new();
    let session = world.session("dpop-claims@example.com", "a genuinely long dpop test passphrase");
    let builder = DpopProofBuilder::new("GET", &me_url()).ath_for_token(&session.access_token);

    let mut missing = builder.claims();
    missing.remove("jti");
    let proof = builder.sign_claims(&session.keypair, &missing);
    assert_eq!(
        error_of(&world.call_me(&session, Some(&proof))).1,
        "the DPoP proof is malformed"
    );

    let mut mistyped = builder.claims();
    mistyped.insert("iat".to_string(), "now".into());
    let proof = builder.sign_claims(&session.keypair, &mistyped);
    assert_eq!(
        error_of(&world.call_me(&session, Some(&proof))).1,
        "the DPoP proof is malformed"
    );

    let mut mistyped_ath = builder.claims();
    mistyped_ath.insert("ath".to_string(), 7.into());
    let proof = builder.sign_claims(&session.keypair, &mistyped_ath);
    assert_eq!(
        error_of(&world.call_me(&session, Some(&proof))).1,
        "the DPoP proof is malformed"
    );

    let mut null_ath = builder.claims();
    null_ath.insert("ath".to_string(), serde_json::Value::Null);
    let proof = builder.sign_claims(&session.keypair, &null_ath);
    assert_eq!(
        error_of(&world.call_me(&session, Some(&proof))).1,
        "DPoP proof does not match the presented access token"
    );
}

#[test]
fn forged_proof_rejected() {
    let mut world = World::new();
    let session = world.session("dpop-forged@example.com", "a genuinely long dpop test passphrase");
    // The header names the session's key, but another key has signed.
    let other = DpopKeypair::generate();
    let forger = DpopKeypair {
        encoding_key: other.encoding_key,
        jwk: session.keypair.jwk.clone(),
    };
    let proof = DpopProofBuilder::new("GET", &me_url())
        .ath_for_token(&session.access_token)
        .sign(&forger);
    let response = world.call_me(&session, Some(&proof));
    assert_eq!(response.status, 401);
    assert_eq!(error_of(&response).1, "the DPoP proof is malformed");
}

#[test]
fn key_that_names_a_member_twice_rejected() {
    let mut world = World::new();
    let session = world.session("dpop-twice@example.com", "a genuinely long dpop test passphrase");
    let builder = DpopProofBuilder::new("GET", &me_url()).ath_for_token(&session.access_token);
    let plain = builder.sign_claims(&session.keypair, &builder.claims());
    let engine = base64::engine::general_purpose::URL_SAFE_NO_PAD;
    let parts: Vec<&str> = plain.split('.').collect();
    let header = String::from_utf8(engine.decode(parts[0]).unwrap()).unwrap();
    assert!(header.contains("\"kty\":\"EC\""));
    let doubled = header.replace("\"kty\":\"EC\"", "\"kty\":\"EC\",\"kty\":\"EC\"");
    let message = format!("{}.{}", engine.encode(doubled), parts[1]);
    let signature = jsonwebtoken::crypto::sign(
        message.as_bytes(),
        &session.keypair.encoding_key,
        jsonwebtoken::Algorithm::ES256,
    )
    .unwrap();
    let proof = format!("{message}.{signature}");
    let response = world.call_me(&session, Some(&proof));
    assert_eq!(response.status, 401);
    assert_eq!(error_of(&response).1, "the DPoP proof is malformed");
    // With the member named once the proof is good.
    assert_eq!(world.call_me(&session, Some(&plain)).status, 200);
}

#[test]
fn htu_is_compared_by_its_parts() {
    let mut world = World::new();
    let session = world.session("dpop-htu@example.com", "a genuinely long dpop test passphrase");
    for (htu, accepted) in [
        ("HTTPS://AUTH.test.example:443/me", true),
        ("https://auth.test.example/me?query=ignored", true),
        ("https://auth.test.example/me/", false),
        ("https://auth.test.example:8443/me", false),
        ("http://auth.test.example/me", false),
        ("https://other.test.example/me", false),
        ("not a url", false),
    ] {
        let proof = DpopProofBuilder::new("GET", htu)
            .ath_for_token(&session.access_token)
            .sign(&session.keypair);
        let response = world.call_me(&session, Some(&proof));
        assert_eq!(response.status == 200, accepted, "{htu}");
    }
}

#[test]
fn bearer_alone_names_the_user() {
    let mut world = World::new();
    let session = world.session("bearer@example.com", "a genuinely long bearer test passphrase");
    let header = Some(format!("Bearer {}", session.access_token));
    let user = authenticate_bearer(&world.service.jwt, &header).unwrap();
    assert_eq!(user.user_id, session.user.user_id);
    assert!(authenticate_bearer(&world.service.jwt, &None).is_err());
    assert!(authenticate_bearer(&world.service.jwt, &Some(session.access_token.clone())).is_err());
    let lower = Some(format!("bearer {}", session.access_token));
    assert!(authenticate_bearer(&world.service.jwt, &lower).is_err());
}

#[test]
fn logout_revokes_refresh_token() {
    let mut world = World::new();
    let session = world.session("logout-success@example.com", "a genuinely long logout test passphrase");

    let response = world.logout(&session.refresh_token);
    assert_eq!(response.status, 200);
    match response.body {
        ResponseBody::LoggedOut(body) => assert!(body.logged_out),
        other => panic!("expected a logout, not {other:?}"),
    }

    assert_eq!(world.call_refresh(&session.refresh_token, &session.keypair).status, 401);
}

#[test]
fn logout_with_unknown_token_still_reports_success() {
    let mut world = World::new();
    let response = world.logout(&generate_opaque_token(32));
    assert_eq!(response.status, 200);
    match response.body {
        ResponseBody::LoggedOut(body) => assert!(body.logged_out),
        other => panic!("expected a logout, not {other:?}"),
    }
}

#[test]
fn refresh_succeeds_and_rotates() {
    let mut world = World::new();
    let session = world.session("refresh-success@example.com", "a genuinely long refresh test passphrase");

    let body = tokens(world.call_refresh(&session.refresh_token, &session.keypair));
    assert_ne!(body.refresh_token, session.refresh_token);

    let old_record = world.record(&session.refresh_token);
    let new_record = world.record(&body.refresh_token);
    assert_ne!(old_record.status, RefreshTokenStatus::Active);
    assert_eq!(new_record.status, RefreshTokenStatus::Active);
    assert_eq!(new_record.family_id, old_record.family_id);
    assert_eq!(new_record.user_email, old_record.user_email);
    assert_eq!(new_record.jkt, old_record.jkt);
    assert_eq!(old_record.replaced_by, Some(hash_token(&body.refresh_token)));
    let claims = world.service.jwt.verify_access_token(&body.access_token).unwrap();
    assert_eq!(claims.sub, session.user.user_id);

    // Presenting the first token again is rejected.
    assert_eq!(world.call_refresh(&session.refresh_token, &session.keypair).status, 401);
}

#[test]
fn reuse_after_rotation_revokes_family() {
    let mut world = World::new();
    let session = world.session("refresh-reuse@example.com", "a genuinely long refresh test passphrase");

    let token_b = tokens(world.call_refresh(&session.refresh_token, &session.keypair)).refresh_token;

    let reuse = world.call_refresh(&session.refresh_token, &session.keypair);
    assert_eq!(reuse.status, 401);
    assert_eq!(error_of(&reuse).0, "refresh_token_reused");

    // The token that it was exchanged for is rejected as well.
    assert_eq!(world.call_refresh(&token_b, &session.keypair).status, 401);
    assert_eq!(world.record(&token_b).status, RefreshTokenStatus::Revoked);
}

#[test]
fn refresh_with_wrong_key_rejected_without_side_effects() {
    let mut world = World::new();
    let session = world.session("refresh-wrong-key@example.com", "a genuinely long refresh test passphrase");
    let other_keypair = DpopKeypair::generate();

    let response = world.call_refresh(&session.refresh_token, &other_keypair);
    assert_eq!(response.status, 400);
    assert_eq!(error_of(&response).0, "invalid_dpop_proof");

    assert_eq!(world.call_refresh(&session.refresh_token, &session.keypair).status, 200);
}

#[test]
fn expired_refresh_token_rejected() {
    let mut world = World::new();
    let email = "refresh-expired@example.com";
    world.create_test_user(email, "a genuinely long refresh test passphrase 2");

    let keypair = DpopKeypair::generate();
    let token = generate_opaque_token(32);
    let created_at = Timestamp { nanos: utc_now().nanos - 31 * NANOS_PER_DAY };
    world.tokens.insert(
        hash_token(&token),
        RefreshTokenRecord {
            token_hash: hash_token(&token),
            user_email: email.to_string(),
            jkt: keypair.thumbprint(),
            family_id: generate_opaque_token(16),
            status: RefreshTokenStatus::Active,
            replaced_by: None,
            created_at,
            expires_at: Timestamp { nanos: created_at.nanos + 30 * NANOS_PER_DAY },
            family_created_at: created_at,
        },
    );

    let response = world.call_refresh(&token, &keypair);
    assert_eq!(response.status, 401);
    assert_eq!(error_of(&response).0, "invalid_refresh_token");
    assert_eq!(world.record(&token).status, RefreshTokenStatus::Active);
}

#[test]
fn unknown_refresh_token_rejected() {
    let mut world = World::new();
    let keypair = DpopKeypair::generate();
    let response = world.call_refresh(&generate_opaque_token(32), &keypair);
    assert_eq!(response.status, 401);
    assert_eq!(error_of(&response).0, "invalid_refresh_token");
}

#[test]
fn refresh_for_a_vanished_user_is_an_internal_error() {
    let mut world = World::new();
    let session = world.session("refresh-gone@example.com", "a genuinely long refresh test passphrase");
    world.users.clear();
    let response = world.call_refresh(&session.refresh_token, &session.keypair);
    assert_eq!(response.status, 500);
    assert_eq!(error_of(&response), ("internal_error", "failed to process refresh"));
    assert_eq!(world.record(&session.refresh_token).status, RefreshTokenStatus::Active);
}

#[test]
fn register_succeeds_and_password_is_hashed_not_plaintext() {
    let mut world = World::new();
    let email = "register-success@example.com";
    let password_plain = "a genuinely long passphrase 1";

    let body = registered(world.register(email, password_plain));
    assert_eq!(body.email, email);
    assert!(body.mfa_enrollment_url.starts_with("otpauth://totp/"));
    assert!(!body.mfa_secret_base32.is_empty());

    let stored = world.users.get(email).expect("user should exist after registration");
    assert_ne!(stored.password_hash, password_plain);
    assert!(stored.password_hash.starts_with("$argon2id$"));
    assert!(verify_password(password_plain, &stored.password_hash).unwrap());
    assert!(!stored.mfa_enrolled);
    assert_eq!(stored.created_at, body.created_at);
    assert_eq!(stored.user_id.len(), 32);
}

#[test]
fn full_registration_ceremony_issues_recovery_codes_and_allows_recovery_code_login() {
    let mut world = World::new();
    let email = "register-ceremony@example.com";
    let password_plain = "a genuinely long ceremony passphrase";

    let body = registered(world.register(email, password_plain));
    let code = generate_current_for_base32(&body.mfa_secret_base32, email).unwrap();

    let recovery_codes = confirmed(world.confirm(email, &code)).recovery_codes;
    assert_eq!(recovery_codes.len(), 10);
    for code in &recovery_codes {
        assert_eq!(code.len(), 11);
        assert_eq!(code.as_bytes()[5], b'-');
    }

    let recovery_code = &recovery_codes[0];
    let keypair = DpopKeypair::generate();
    let proof = DpopProofBuilder::new("POST", &login_url()).sign(&keypair);
    let login = tokens(world.login(email, password_plain, recovery_code, Some(&proof)));
    assert!(!login.access_token.is_empty());

    // The same recovery code cannot be used again.
    let proof_2 = DpopProofBuilder::new("POST", &login_url()).sign(&keypair);
    let second = world.login(email, password_plain, recovery_code, Some(&proof_2));
    assert_eq!(second.status, 401);
    assert_eq!(error_of(&second).0, "mfa_code_invalid");

    // The others can.
    let proof_3 = DpopProofBuilder::new("POST", &login_url()).sign(&keypair);
    assert_eq!(
        world.login(email, password_plain, &recovery_codes[9], Some(&proof_3)).status,
        200
    );
}

#[test]
fn confirmation_is_refused_alike_whatever_is_wrong() {
    let mut world = World::new();
    let email = "confirm-refused@example.com";
    let body = registered(world.register(email, "a genuinely long confirm passphrase"));

    let wrong_code = world.confirm(email, "not a code");
    let unknown = world.confirm("confirm-unknown@example.com", "000000");
    let code = generate_current_for_base32(&body.mfa_secret_base32, email).unwrap();
    confirmed(world.confirm(email, &code));
    let again = world.confirm(email, &code);

    for response in [&wrong_code, &unknown, &again] {
        assert_eq!(response.status, 400);
        assert_eq!(error_of(response), ("invalid_confirmation", "invalid email or MFA code"));
    }
    assert_eq!(world.codes.len(), 10);
}

#[test]
fn login_before_confirming_mfa_is_rejected() {
    let mut world = World::new();
    let email = "register-not-confirmed@example.com";
    let password_plain = "a genuinely long unconfirmed passphrase";
    registered(world.register(email, password_plain));

    let keypair = DpopKeypair::generate();
    let proof = DpopProofBuilder::new("POST", &login_url()).sign(&keypair);
    let response = world.login(email, password_plain, "000000", Some(&proof));
    assert_eq!(response.status, 403);
    assert_eq!(error_of(&response).0, "mfa_not_enrolled");
}

#[test]
fn login_with_wrong_mfa_code_after_confirming_is_rejected() {
    let mut world = World::new();
    let email = "register-wrong-code@example.com";
    let password_plain = "a genuinely long wrong code passphrase";
    let body = registered(world.register(email, password_plain));
    let code = generate_current_for_base32(&body.mfa_secret_base32, email).unwrap();
    confirmed(world.confirm(email, &code));

    let keypair = DpopKeypair::generate();
    let proof = DpopProofBuilder::new("POST", &login_url()).sign(&keypair);
    let response = world.login(email, password_plain, "000000", Some(&proof));
    assert_eq!(response.status, 401);
    assert_eq!(error_of(&response).0, "mfa_code_invalid");
}

#[test]
fn duplicate_email_returns_409() {
    let mut world = World::new();
    let email = "register-duplicate@example.com";
    registered(world.register(email, "a genuinely long passphrase 2"));

    let second = world.register(email, "a genuinely long passphrase 2");
    assert_eq!(second.status, 409);
    assert_eq!(error_of(&second).0, "email_already_registered");

    // The address is taken however it is spelled.
    let third = world.register(" Register-Duplicate@EXAMPLE.com", "a genuinely long passphrase 2");
    assert_eq!(third.status, 409);
    assert_eq!(error_of(&third).0, "email_already_registered");
}

#[test]
fn password_below_minimum_length_returns_400() {
    let mut world = World::new();
    let response = world.register("register-short-password@example.com", "short1");
    assert_eq!(response.status, 400);
    assert_eq!(
        error_of(&response),
        ("invalid_request", "password must be at least 12 characters")
    );
}

#[test]
fn known_breached_password_returns_400() {
    let mut world = World::new();
    let suffix = breach_query("password12345678").suffix;
    world.breach_list = Some(format!("0000000000000000000000000000000000A:1\r\n{suffix}:2\r\n"));
    let response = world.register("register-breached-password@example.com", "password12345678");
    assert_eq!(response.status, 400);
    assert_eq!(
        error_of(&response),
        (
            "invalid_request",
            "this password has appeared in a data breach; choose a different one"
        )
    );
    assert!(world.users.is_empty());
}

#[test]
fn breach_list_that_cannot_be_had_stops_no_registration() {
    let mut world = World::new();
    world.breach_list = None;
    registered(world.register("register-fail-open@example.com", "a genuinely long passphrase 10"));
}

#[test]
fn created_token_opens_a_family_of_its_own() {
    let record = create(
        NewRefreshToken { user_email: "a@example.com".to_string(), jkt: "key".to_string() },
        "some-hash",
    );
    assert_eq!(record.token_hash, "some-hash");
    assert_eq!(record.family_id.len(), 32);
    assert_eq!(record.status, RefreshTokenStatus::Active);
    assert_eq!(record.replaced_by, None);
    assert_eq!(record.family_created_at, record.created_at);
}
