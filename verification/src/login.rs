//! Login: password, second factor and DPoP proof, for a pair of tokens.
use vstd::prelude::*;

use crate::dpop::{dpop_error_message, finish_dpop_proof, recorded, DpopError, DpopProof, PendingDpopProof};
use crate::error::{
    dpop_error_response, error_response, internal_error, is_error, is_plain_error,
    success_response, ApiResponse, ResponseBody, BAD_REQUEST, FORBIDDEN, INTERNAL_SERVER_ERROR, OK, TOO_MANY_REQUESTS,
    UNAUTHORIZED,
};
use crate::password::{password_fits, verify_password, PasswordError};
use crate::random::{
    generate_opaque_token, hash_token, is_opaque_token, is_random_token, token_hash,
};
use crate::refresh_token::{NewRefreshToken, RefreshTokenRecord};
use crate::request::{check_proof, proof_checked, AuthService, RequestContext};
use crate::store::{LoginAttemptState, StoreError};
use crate::text::{decimal, lowercase, normalize_email, normalized_email, to_decimal, trimmed};
use crate::time::{
    clock_read, seconds_read, seconds_until, utc_now, utc_read, whole_seconds_until, Timestamp,
};
use crate::token::{issued_text, JwtKeys, TokenError};
use crate::totp::{accepts_code, check_code, is_totp_usable, totp_usable};
use crate::user::User;

verus! {

/// The number of random bytes in a refresh token.
pub const REFRESH_TOKEN_BYTE_LEN: usize = 32;

/// The password whose hash serves as the dummy hash.
pub const DUMMY_PASSWORD: &'static str = "dummy-value-paid-for-timing-parity-only";

#[derive(Debug)]
pub struct LoginRequest {
    pub email: String,
    pub password: String,
    /// A TOTP code or a recovery code. It is tried as the first, then as the
    /// second; a text that is neither just fails.
    pub mfa_code: String,
}

/// A fresh pair of tokens, as login and refresh both hand it out.
#[derive(Debug)]
pub struct TokenResponse {
    pub access_token: String,
    pub token_type: &'static str,
    pub expires_in: u64,
    pub refresh_token: String,
}

/// What is left of an account once its password hash is put to use.
pub struct Account {
    pub user_id: String,
    pub email: String,
    pub mfa_secret: Vec<u8>,
    pub mfa_enrolled: bool,
}

/// An account whose second factor is at stake, or has been shown.
pub struct Identity {
    pub user_id: String,
    pub email: String,
}

/// A pair of tokens that has been made but not handed out.
pub struct IssuedTokens {
    pub access_token: String,
    pub refresh_token: String,
    pub refresh_token_hash: String,
}

/// Where a login stands. In every state `email` is the address as submitted,
/// normalized; failures are counted under it.
pub enum LoginState {
    CheckingLockout { email: String, password: String, mfa_code: String },
    FindingUser { email: String, password: String, mfa_code: String },
    VerifyingPassword { email: String, mfa_code: String, found: Option<Account> },
    /// A failure is being counted; the outcome is decided.
    RecordingFailure { outcome: LoginOutcome },
    CheckingCode { email: String, mfa_code: String, identity: Identity },
    HashingCode { email: String, identity: Identity },
    RedeemingCode { email: String, identity: Identity },
    ValidatingProof { email: String, identity: Identity },
    RecordingProof { email: String, identity: Identity, proof: DpopProof },
    FinishingProof { email: String, identity: Identity },
    IssuingTokens { email: String, user_email: String, jkt: String },
    StoringToken { email: String, access_token: String, refresh_token: String },
    /// The login is granted; its tokens are about to be handed out.
    ResettingAttempts { access_token: String, refresh_token: String },
    Finished,
}

/// What has happened since the last step.
pub enum LoginEvent {
    LockoutChecked(Result<LoginAttemptState, StoreError>),
    UserFound(Result<Option<User>, StoreError>),
    PasswordVerified(Result<bool, PasswordError>),
    FailureRecorded(Result<LoginAttemptState, StoreError>),
    AttemptsReset(Result<(), StoreError>),
    CodeChecked(bool),
    CodeHashed(String),
    CodeRedeemed(Result<bool, StoreError>),
    ProofValidated(Result<PendingDpopProof, DpopError>),
    ProofRecorded(Result<(), StoreError>),
    ProofFinished(Result<DpopProof, DpopError>),
    TokensIssued(Result<IssuedTokens, TokenError>),
    TokenStored(Result<RefreshTokenRecord, StoreError>),
}

/// Work that needs no store.
pub enum LoginTask {
    /// Verify against the hash, or against the dummy where there is none.
    VerifyPassword { password: String, password_hash: Option<String> },
    CheckCode { secret: Vec<u8>, account_email: String, code: String },
    HashCode { code: String },
    ValidateProof,
    FinishProof { proof: DpopProof, insertion: Result<(), StoreError> },
    IssueTokens { user_id: String, jkt: String },
}

/// What is to happen next.
pub enum LoginAction {
    CheckLockout { email: String },
    FindUser { email: String },
    RecordFailure { email: String },
    ResetAttempts { email: String },
    RedeemCode { user_email: String, code_hash: String },
    RecordProof { jti: String, expires_at: Timestamp },
    StoreToken { new_token: NewRefreshToken, token_hash: String },
    Compute(LoginTask),
    Respond(LoginOutcome),
}

/// How a login ends.
pub enum LoginOutcome {
    Locked { retry_after: Timestamp },
    InvalidCredentials,
    MfaNotEnrolled,
    MfaCodeInvalid,
    ProofRejected(DpopError),
    InternalError,
    Tokens { access_token: String, refresh_token: String },
}

/// The end of a login.
pub open spec fn ended(outcome: LoginOutcome) -> (LoginState, LoginAction) {
    (LoginState::Finished, LoginAction::Respond(outcome))
}

/// The step after the second factor has been shown: only then is the proof
/// looked at, so that a bad proof tells nothing about a password.
pub open spec fn factors_shown(email: String, identity: Identity) -> (LoginState, LoginAction) {
    (
        LoginState::ValidatingProof { email, identity },
        LoginAction::Compute(LoginTask::ValidateProof),
    )
}

/// The step after a credential has failed: count it, whether or not the
/// account exists, then reject.
pub open spec fn failed(email: String, outcome: LoginOutcome) -> (LoginState, LoginAction) {
    (LoginState::RecordingFailure { outcome }, LoginAction::RecordFailure { email })
}

/// The next step of a login.
pub open spec fn login_next(state: LoginState, event: LoginEvent) -> (LoginState, LoginAction) {
    match (state, event) {
        // The lockout is looked at first, before any credential.
        (
            LoginState::CheckingLockout { email, password, mfa_code },
            LoginEvent::LockoutChecked(checked),
        ) => match checked {
            Ok(LoginAttemptState::Locked { retry_after }) => ended(
                LoginOutcome::Locked { retry_after },
            ),
            Ok(LoginAttemptState::Allowed) => (
                LoginState::FindingUser { email, password, mfa_code },
                LoginAction::FindUser { email },
            ),
            Err(_) => ended(LoginOutcome::InternalError),
        },
        // A password is verified whether or not there is an account.
        (LoginState::FindingUser { email, password, mfa_code }, LoginEvent::UserFound(found)) => match found {
            Ok(Some(user)) => (
                LoginState::VerifyingPassword {
                    email,
                    mfa_code,
                    found: Some(
                        Account {
                            user_id: user.user_id,
                            email: user.email,
                            mfa_secret: user.mfa_secret,
                            mfa_enrolled: user.mfa_enrolled,
                        },
                    ),
                },
                LoginAction::Compute(
                    LoginTask::VerifyPassword {
                        password,
                        password_hash: Some(user.password_hash),
                    },
                ),
            ),
            Ok(None) => (
                LoginState::VerifyingPassword { email, mfa_code, found: None },
                LoginAction::Compute(LoginTask::VerifyPassword { password, password_hash: None }),
            ),
            Err(_) => ended(LoginOutcome::InternalError),
        },
        (
            LoginState::VerifyingPassword { email, mfa_code, found },
            LoginEvent::PasswordVerified(verified),
        ) => match (verified, found) {
            (Err(_), _) => ended(LoginOutcome::InternalError),
            (Ok(true), Some(account)) => if !account.mfa_enrolled {
                ended(LoginOutcome::MfaNotEnrolled)
            } else {
                (
                    LoginState::CheckingCode {
                        email,
                        mfa_code,
                        identity: Identity { user_id: account.user_id, email: account.email },
                    },
                    LoginAction::Compute(
                        LoginTask::CheckCode {
                            secret: account.mfa_secret,
                            account_email: account.email,
                            code: mfa_code,
                        },
                    ),
                )
            },
            _ => failed(email, LoginOutcome::InvalidCredentials),
        },
        // The outcome is decided; whether it could be counted changes nothing.
        (LoginState::RecordingFailure { outcome }, LoginEvent::FailureRecorded(_)) => ended(outcome),
        (
            LoginState::CheckingCode { email, mfa_code, identity },
            LoginEvent::CodeChecked(accepted),
        ) => if accepted {
            factors_shown(email, identity)
        } else {
            (
                LoginState::HashingCode { email, identity },
                LoginAction::Compute(LoginTask::HashCode { code: mfa_code }),
            )
        },
        (LoginState::HashingCode { email, identity }, LoginEvent::CodeHashed(code_hash)) => (
            LoginState::RedeemingCode { email, identity },
            LoginAction::RedeemCode { user_email: identity.email, code_hash },
        ),
        (LoginState::RedeemingCode { email, identity }, LoginEvent::CodeRedeemed(redeemed)) => match redeemed {
            Ok(true) => factors_shown(email, identity),
            Ok(false) => failed(email, LoginOutcome::MfaCodeInvalid),
            Err(_) => ended(LoginOutcome::InternalError),
        },
        (
            LoginState::ValidatingProof { email, identity },
            LoginEvent::ProofValidated(validated),
        ) => match validated {
            Ok(pending) => (
                LoginState::RecordingProof { email, identity, proof: pending.proof },
                LoginAction::RecordProof {
                    jti: pending.proof.jti,
                    expires_at: pending.expires_at,
                },
            ),
            Err(error) => ended(LoginOutcome::ProofRejected(error)),
        },
        (
            LoginState::RecordingProof { email, identity, proof },
            LoginEvent::ProofRecorded(insertion),
        ) => (
            LoginState::FinishingProof { email, identity },
            LoginAction::Compute(LoginTask::FinishProof { proof, insertion }),
        ),
        (
            LoginState::FinishingProof { email, identity },
            LoginEvent::ProofFinished(finished),
        ) => match finished {
            Ok(proof) => (
                LoginState::IssuingTokens { email, user_email: identity.email, jkt: proof.jkt },
                LoginAction::Compute(
                    LoginTask::IssueTokens { user_id: identity.user_id, jkt: proof.jkt },
                ),
            ),
            Err(error) => ended(LoginOutcome::ProofRejected(error)),
        },
        (
            LoginState::IssuingTokens { email, user_email, jkt },
            LoginEvent::TokensIssued(issued),
        ) => match issued {
            Ok(tokens) => (
                LoginState::StoringToken {
                    email,
                    access_token: tokens.access_token,
                    refresh_token: tokens.refresh_token,
                },
                LoginAction::StoreToken {
                    new_token: NewRefreshToken { user_email, jkt },
                    token_hash: tokens.refresh_token_hash,
                },
            ),
            Err(_) => ended(LoginOutcome::InternalError),
        },
        (
            LoginState::StoringToken { email, access_token, refresh_token },
            LoginEvent::TokenStored(stored),
        ) => match stored {
            Ok(_) => (
                LoginState::ResettingAttempts { access_token, refresh_token },
                LoginAction::ResetAttempts { email },
            ),
            Err(_) => ended(LoginOutcome::InternalError),
        },
        // Only a login that is granted clears the failures. Whether they could
        // be cleared changes nothing.
        (
            LoginState::ResettingAttempts { access_token, refresh_token },
            LoginEvent::AttemptsReset(_),
        ) => ended(LoginOutcome::Tokens { access_token, refresh_token }),
        // An event that the state does not wait for.
        _ => ended(LoginOutcome::InternalError),
    }
}

/// The first step of a login: ask whether the address is locked out.
pub open spec fn login_begun(
    email: String,
    password: String,
    mfa_code: String,
) -> (LoginState, LoginAction) {
    (
        LoginState::CheckingLockout { email, password, mfa_code },
        LoginAction::CheckLockout { email },
    )
}

/// Begins a login.
pub fn login_begin(request: LoginRequest) -> (r: (LoginState, LoginAction))
    ensures
        exists|email: String|
            email@ == normalized_email(request.email@) && r == #[trigger] login_begun(
                email,
                request.password,
                request.mfa_code,
            ),
        r.1 matches LoginAction::CheckLockout { email } && email@ == lowercase(
            trimmed(request.email@),
        ),
{
    let email = normalize_email(request.email.as_str());
    let r = (
        LoginState::CheckingLockout {
            email: email.clone(),
            password: request.password,
            mfa_code: request.mfa_code,
        },
        LoginAction::CheckLockout { email: email.clone() },
    );
    assert(r == login_begun(email, request.password, request.mfa_code));
    r
}

/// Takes the next step of a login.
pub fn login_step(state: LoginState, event: LoginEvent) -> (r: (LoginState, LoginAction))
    ensures
        r == login_next(state, event),
{
    match (state, event) {
        (
            LoginState::CheckingLockout { email, password, mfa_code },
            LoginEvent::LockoutChecked(checked),
        ) => match checked {
            Ok(LoginAttemptState::Locked { retry_after }) => end(
                LoginOutcome::Locked { retry_after },
            ),
            Ok(LoginAttemptState::Allowed) => {
                let action = LoginAction::FindUser { email: email.clone() };
                (LoginState::FindingUser { email, password, mfa_code }, action)
            },
            Err(_) => end(LoginOutcome::InternalError),
        },
        (LoginState::FindingUser { email, password, mfa_code }, LoginEvent::UserFound(found)) => match found {
            Ok(Some(user)) => {
                let account = Account {
                    user_id: user.user_id,
                    email: user.email,
                    mfa_secret: user.mfa_secret,
                    mfa_enrolled: user.mfa_enrolled,
                };
                let task = LoginTask::VerifyPassword {
                    password,
                    password_hash: Some(user.password_hash),
                };
                (
                    LoginState::VerifyingPassword { email, mfa_code, found: Some(account) },
                    LoginAction::Compute(task),
                )
            },
            Ok(None) => (
                LoginState::VerifyingPassword { email, mfa_code, found: None },
                LoginAction::Compute(LoginTask::VerifyPassword { password, password_hash: None }),
            ),
            Err(_) => end(LoginOutcome::InternalError),
        },
        (
            LoginState::VerifyingPassword { email, mfa_code, found },
            LoginEvent::PasswordVerified(verified),
        ) => match (verified, found) {
            (Err(_), _) => end(LoginOutcome::InternalError),
            (Ok(true), Some(account)) => {
                if !account.mfa_enrolled {
                    return end(LoginOutcome::MfaNotEnrolled);
                }
                let task = LoginTask::CheckCode {
                    secret: account.mfa_secret,
                    account_email: account.email.clone(),
                    code: mfa_code.clone(),
                };
                let identity = Identity { user_id: account.user_id, email: account.email };
                (LoginState::CheckingCode { email, mfa_code, identity }, LoginAction::Compute(task))
            },
            _ => (
                LoginState::RecordingFailure { outcome: LoginOutcome::InvalidCredentials },
                LoginAction::RecordFailure { email },
            ),
        },
        (LoginState::RecordingFailure { outcome }, LoginEvent::FailureRecorded(_)) => end(outcome),
        (
            LoginState::CheckingCode { email, mfa_code, identity },
            LoginEvent::CodeChecked(accepted),
        ) => {
            if accepted {
                (
                    LoginState::ValidatingProof { email, identity },
                    LoginAction::Compute(LoginTask::ValidateProof),
                )
            } else {
                (
                    LoginState::HashingCode { email, identity },
                    LoginAction::Compute(LoginTask::HashCode { code: mfa_code }),
                )
            }
        },
        (LoginState::HashingCode { email, identity }, LoginEvent::CodeHashed(code_hash)) => {
            let action = LoginAction::RedeemCode {
                user_email: identity.email.clone(),
                code_hash,
            };
            (LoginState::RedeemingCode { email, identity }, action)
        },
        (LoginState::RedeemingCode { email, identity }, LoginEvent::CodeRedeemed(redeemed)) => match redeemed {
            Ok(true) => (
                LoginState::ValidatingProof { email, identity },
                LoginAction::Compute(LoginTask::ValidateProof),
            ),
            Ok(false) => (
                LoginState::RecordingFailure { outcome: LoginOutcome::MfaCodeInvalid },
                LoginAction::RecordFailure { email },
            ),
            Err(_) => end(LoginOutcome::InternalError),
        },
        (
            LoginState::ValidatingProof { email, identity },
            LoginEvent::ProofValidated(validated),
        ) => match validated {
            Ok(pending) => {
                let action = LoginAction::RecordProof {
                    jti: pending.proof.jti.clone(),
                    expires_at: pending.expires_at,
                };
                (LoginState::RecordingProof { email, identity, proof: pending.proof }, action)
            },
            Err(error) => end(LoginOutcome::ProofRejected(error)),
        },
        (
            LoginState::RecordingProof { email, identity, proof },
            LoginEvent::ProofRecorded(insertion),
        ) => (
            LoginState::FinishingProof { email, identity },
            LoginAction::Compute(LoginTask::FinishProof { proof, insertion }),
        ),
        (
            LoginState::FinishingProof { email, identity },
            LoginEvent::ProofFinished(finished),
        ) => match finished {
            Ok(proof) => {
                let task = LoginTask::IssueTokens {
                    user_id: identity.user_id,
                    jkt: proof.jkt.clone(),
                };
                (
                    LoginState::IssuingTokens { email, user_email: identity.email, jkt: proof.jkt },
                    LoginAction::Compute(task),
                )
            },
            Err(error) => end(LoginOutcome::ProofRejected(error)),
        },
        (
            LoginState::IssuingTokens { email, user_email, jkt },
            LoginEvent::TokensIssued(issued),
        ) => match issued {
            Ok(tokens) => (
                LoginState::StoringToken {
                    email,
                    access_token: tokens.access_token,
                    refresh_token: tokens.refresh_token,
                },
                LoginAction::StoreToken {
                    new_token: NewRefreshToken { user_email, jkt },
                    token_hash: tokens.refresh_token_hash,
                },
            ),
            Err(_) => end(LoginOutcome::InternalError),
        },
        (
            LoginState::StoringToken { email, access_token, refresh_token },
            LoginEvent::TokenStored(stored),
        ) => match stored {
            Ok(_) => (
                LoginState::ResettingAttempts { access_token, refresh_token },
                LoginAction::ResetAttempts { email },
            ),
            Err(_) => end(LoginOutcome::InternalError),
        },
        (
            LoginState::ResettingAttempts { access_token, refresh_token },
            LoginEvent::AttemptsReset(_),
        ) => end(LoginOutcome::Tokens { access_token, refresh_token }),
        _ => end(LoginOutcome::InternalError),
    }
}

fn end(outcome: LoginOutcome) -> (r: (LoginState, LoginAction))
    ensures
        r == ended(outcome),
{
    (LoginState::Finished, LoginAction::Respond(outcome))
}

/// The access token of a pair, as plain text.
pub open spec fn access_text(result: Result<IssuedTokens, TokenError>) -> Result<
    Seq<char>,
    TokenError,
> {
    match result {
        Ok(tokens) => Ok(tokens.access_token@),
        Err(error) => Err(error),
    }
}

/// Holds of what may come of making a pair of tokens for a user and a key.
pub open spec fn tokens_made(
    jwt: JwtKeys,
    user_id: Seq<char>,
    jkt: Seq<char>,
    result: Result<IssuedTokens, TokenError>,
) -> bool {
    &&& exists|now: u64|
        seconds_read(now) && #[trigger] jwt.issues_at(now, user_id, jkt, access_text(result))
    &&& result matches Ok(tokens) ==> {
        &&& is_opaque_token(tokens.refresh_token@, REFRESH_TOKEN_BYTE_LEN as nat)
        &&& is_random_token(tokens.refresh_token@, REFRESH_TOKEN_BYTE_LEN)
        &&& tokens.refresh_token_hash@ == token_hash(tokens.refresh_token@)
    }
}

fn make_tokens(jwt: &JwtKeys, user_id: &str, jkt: &str) -> (r: Result<IssuedTokens, TokenError>)
    ensures
        tokens_made(*jwt, user_id@, jkt@, r),
{
    let issued = jwt.issue_access_token(user_id, jkt);
    let ghost text = issued_text(issued);
    let r: Result<IssuedTokens, TokenError> = match issued {
        Ok((access_token, _)) => {
            let refresh_token = generate_opaque_token(REFRESH_TOKEN_BYTE_LEN);
            let refresh_token_hash = hash_token(refresh_token.as_str());
            assert(is_random_token(refresh_token@, REFRESH_TOKEN_BYTE_LEN));
            Ok(IssuedTokens { access_token, refresh_token, refresh_token_hash })
        },
        Err(error) => Err(error),
    };
    assert(access_text(r) == text);
    r
}

/// Holds of the events that performing a task may give.
pub open spec fn task_yields(
    service: AuthService,
    request: RequestContext,
    task: LoginTask,
    event: LoginEvent,
) -> bool {
    match task {
        LoginTask::VerifyPassword { password, password_hash } => {
            let hash = match password_hash {
                Some(hash) => hash@,
                None => service.dummy_hash@,
            };
            event == LoginEvent::PasswordVerified(
                match password_fits(password@, hash) {
                    Some(fits) => Ok(fits),
                    None => Err(PasswordError),
                },
            )
        },
        LoginTask::CheckCode { secret, code, .. } => exists|clock: Option<u64>|
            clock_read(clock) && event == LoginEvent::CodeChecked(
                #[trigger] accepts_code(secret@, code@, clock),
            ),
        LoginTask::HashCode { code } => event matches LoginEvent::CodeHashed(hash) && hash@
            == token_hash(code@),
        LoginTask::ValidateProof => event matches LoginEvent::ProofValidated(result)
            && proof_checked(service.base_url.raw@, request, None, result),
        LoginTask::FinishProof { proof, insertion } => event matches LoginEvent::ProofFinished(
            result,
        ) && recorded(proof, insertion, result),
        LoginTask::IssueTokens { user_id, jkt } => event matches LoginEvent::TokensIssued(result)
            && tokens_made(service.jwt, user_id@, jkt@, result),
    }
}

/// Holds of a task that can be performed: the secret of an account whose code
/// is checked has to be one that codes can be made from.
pub open spec fn task_ready(task: LoginTask) -> bool {
    task matches LoginTask::CheckCode { secret, account_email, .. } ==> totp_usable(
        secret@,
        account_email@,
    )
}

/// Performs a task.
pub fn perform_login_task(
    service: &AuthService,
    request: &RequestContext,
    task: LoginTask,
) -> (r: LoginEvent)
    requires
        task_ready(task),
    ensures
        task_yields(*service, *request, task, r),
{
    match task {
        LoginTask::VerifyPassword { password, password_hash } => {
            let verified = match password_hash {
                Some(hash) => verify_password(password.as_str(), hash.as_str()),
                None => verify_password(password.as_str(), service.dummy_hash.as_str()),
            };
            LoginEvent::PasswordVerified(verified)
        },
        LoginTask::CheckCode { secret, account_email, code } => LoginEvent::CodeChecked(
            check_code(&secret, account_email.as_str(), code.as_str()),
        ),
        LoginTask::HashCode { code } => LoginEvent::CodeHashed(hash_token(code.as_str())),
        LoginTask::ValidateProof => LoginEvent::ProofValidated(
            check_proof(&service.base_url, request, None),
        ),
        LoginTask::FinishProof { proof, insertion } => LoginEvent::ProofFinished(
            finish_dpop_proof(proof, insertion),
        ),
        LoginTask::IssueTokens { user_id, jkt } => LoginEvent::TokensIssued(
            make_tokens(&service.jwt, user_id.as_str(), jkt.as_str()),
        ),
    }
}

/// Where a login stands after events that follow on a step.
pub open spec fn login_run(
    from: (LoginState, LoginAction),
    events: Seq<LoginEvent>,
) -> (LoginState, LoginAction)
    decreases events.len(),
{
    if events.len() == 0 {
        from
    } else {
        login_next(login_run(from, events.drop_last()).0, events.last())
    }
}

/// Holds of an event that comes of a task which was due.
pub open spec fn computed(
    service: AuthService,
    request: RequestContext,
    due: LoginAction,
    event: LoginEvent,
) -> bool {
    match due {
        LoginAction::Compute(task) => task_yields(service, request, task, event),
        _ => false,
    }
}

/// Holds of events that all come of tasks, each of the one that was due.
pub open spec fn computed_run(
    service: AuthService,
    request: RequestContext,
    from: (LoginState, LoginAction),
    events: Seq<LoginEvent>,
) -> bool {
    forall|i: int|
        0 <= i < events.len() ==> computed(
            service,
            request,
            login_run(from, events.take(i)).1,
            #[trigger] events[i],
        )
}

/// How many steps a login has before it at most.
pub open spec fn steps_left(state: LoginState) -> nat {
    match state {
        LoginState::CheckingLockout { .. } => 13,
        LoginState::FindingUser { .. } => 12,
        LoginState::VerifyingPassword { .. } => 11,
        LoginState::CheckingCode { .. } => 10,
        LoginState::HashingCode { .. } => 9,
        LoginState::RedeemingCode { .. } => 8,
        LoginState::ValidatingProof { .. } => 7,
        LoginState::RecordingProof { .. } => 6,
        LoginState::FinishingProof { .. } => 5,
        LoginState::IssuingTokens { .. } => 4,
        LoginState::StoringToken { .. } => 3,
        LoginState::ResettingAttempts { .. } => 2,
        LoginState::RecordingFailure { .. } => 1,
        LoginState::Finished => 0,
    }
}

/// Every step that is not the last brings a login closer to its end.
proof fn login_makes_progress(state: LoginState, event: LoginEvent)
    ensures
        ({
            let next = login_next(state, event);
            &&& next.1 is Compute ==> next.0 !is Finished
            &&& state !is Finished ==> steps_left(next.0) < steps_left(state)
        }),
{
}

fn is_task_ready(task: &LoginTask) -> (r: bool)
    ensures
        r == task_ready(*task),
{
    match task {
        LoginTask::CheckCode { secret, account_email, .. } => is_totp_usable(
            secret,
            account_email.as_str(),
        ),
        _ => true,
    }
}

/// One more task adds one more event.
proof fn computed_run_extends(
    service: AuthService,
    request: RequestContext,
    from: (LoginState, LoginAction),
    events: Seq<LoginEvent>,
    event: LoginEvent,
)
    requires
        computed_run(service, request, from, events),
        computed(service, request, login_run(from, events).1, event),
    ensures
        computed_run(service, request, from, events.push(event)),
        login_run(from, events.push(event)) == login_next(login_run(from, events).0, event),
{
    let longer = events.push(event);
    assert(longer.drop_last() =~= events);
    assert forall|i: int| 0 <= i < longer.len() implies computed(
        service,
        request,
        login_run(from, longer.take(i)).1,
        #[trigger] longer[i],
    ) by {
        assert(longer.take(i) =~= events.take(i));
        if i == events.len() {
            assert(events.take(i) =~= events);
        } else {
            assert(longer[i] == events[i]);
        }
    }
}

/// Goes on with a login after an event, up to the next store call or the
/// response. It also stops at a code that is to be checked against a secret of
/// no use: that task cannot be performed.
pub fn login_resume(
    service: &AuthService,
    request: &RequestContext,
    state: LoginState,
    event: LoginEvent,
) -> (r: (LoginState, LoginAction))
    ensures
        r.1 matches LoginAction::Compute(task) ==> !task_ready(task),
        exists|events: Seq<LoginEvent>|
            computed_run(*service, *request, login_next(state, event), events) && r
                == #[trigger] login_run(login_next(state, event), events),
{
    let ghost from = login_next(state, event);
    let ghost mut events: Seq<LoginEvent> = Seq::empty();
    proof {
        login_makes_progress(state, event);
    }
    let (mut current, mut action) = login_step(state, event);
    loop
        invariant
            from == login_next(state, event),
            (current, action) == login_run(from, events),
            computed_run(*service, *request, from, events),
            action is Compute ==> current !is Finished,
        decreases steps_left(current),
    {
        match action {
            LoginAction::Compute(task) => {
                if !is_task_ready(&task) {
                    return (current, LoginAction::Compute(task));
                }
                let outcome = perform_login_task(service, request, task);
                proof {
                    computed_run_extends(*service, *request, from, events, outcome);
                    login_makes_progress(current, outcome);
                    events = events.push(outcome);
                }
                let next = login_step(current, outcome);
                current = next.0;
                action = next.1;
            },
            other => {
                return (current, other);
            },
        }
    }
}

/// Holds of the response to a locked address: how long to wait stands in the
/// `retry-after` header, in whole seconds.
pub open spec fn is_locked_response(
    response: ApiResponse,
    retry_after: Timestamp,
    now: Timestamp,
) -> bool {
    &&& is_error(
        response,
        TOO_MANY_REQUESTS,
        "account_locked"@,
        "too many failed login attempts; try again later"@,
    )
    &&& response.retry_after is Some
    &&& response.retry_after->0@ == decimal(seconds_until(retry_after, now) as nat)
}

pub fn account_locked_response(retry_after: Timestamp, now: Timestamp) -> (r: ApiResponse)
    requires
        retry_after.valid(),
        now.valid(),
    ensures
        is_locked_response(r, retry_after, now),
{
    let seconds: u64 = whole_seconds_until(retry_after, now);
    let mut response = error_response(
        TOO_MANY_REQUESTS,
        "account_locked",
        "too many failed login attempts; try again later",
    );
    response.retry_after = Some(to_decimal(seconds));
    response
}

/// Holds of the response that hands out a pair of tokens.
pub open spec fn is_token_response(
    response: ApiResponse,
    access_token: String,
    refresh_token: String,
    ttl_secs: u64,
) -> bool {
    &&& response.status == OK
    &&& response.retry_after is None
    &&& response.body matches ResponseBody::Tokens(tokens) && {
        &&& tokens.access_token == access_token
        &&& tokens.refresh_token == refresh_token
        &&& tokens.token_type@ == "Bearer"@
        &&& tokens.expires_in == ttl_secs
    }
}

pub fn token_response(access_token: String, refresh_token: String, ttl_secs: u64) -> (r: ApiResponse)
    ensures
        is_token_response(r, access_token, refresh_token, ttl_secs),
{
    success_response(
        OK,
        ResponseBody::Tokens(
            TokenResponse {
                access_token,
                token_type: "Bearer",
                expires_in: ttl_secs,
                refresh_token,
            },
        ),
    )
}

/// Holds of the response to a login that ended so.
pub open spec fn answers_login(
    outcome: LoginOutcome,
    ttl_secs: u64,
    now: Timestamp,
    response: ApiResponse,
) -> bool {
    match outcome {
        LoginOutcome::Locked { retry_after } => is_locked_response(response, retry_after, now),
        LoginOutcome::InvalidCredentials => is_plain_error(
            response,
            UNAUTHORIZED,
            "invalid_credentials"@,
            "invalid email or password"@,
        ),
        LoginOutcome::MfaNotEnrolled => is_plain_error(
            response,
            FORBIDDEN,
            "mfa_not_enrolled"@,
            "finish MFA enrollment via /register/confirm before logging in"@,
        ),
        LoginOutcome::MfaCodeInvalid => is_plain_error(
            response,
            UNAUTHORIZED,
            "mfa_code_invalid"@,
            "invalid MFA code"@,
        ),
        LoginOutcome::ProofRejected(error) => is_plain_error(
            response,
            BAD_REQUEST,
            "invalid_dpop_proof"@,
            dpop_error_message(error),
        ),
        LoginOutcome::InternalError => is_plain_error(
            response,
            INTERNAL_SERVER_ERROR,
            "internal_error"@,
            "failed to process login"@,
        ),
        LoginOutcome::Tokens { access_token, refresh_token } => is_token_response(
            response,
            access_token,
            refresh_token,
            ttl_secs,
        ),
    }
}

/// The response to a login, where the time of day is `now`.
pub fn login_response_at(outcome: LoginOutcome, ttl_secs: u64, now: Timestamp) -> (r: ApiResponse)
    requires
        now.valid(),
        outcome matches LoginOutcome::Locked { retry_after } ==> retry_after.valid(),
    ensures
        answers_login(outcome, ttl_secs, now, r),
{
    match outcome {
        LoginOutcome::Locked { retry_after } => account_locked_response(retry_after, now),
        LoginOutcome::InvalidCredentials => error_response(
            UNAUTHORIZED,
            "invalid_credentials",
            "invalid email or password",
        ),
        LoginOutcome::MfaNotEnrolled => error_response(
            FORBIDDEN,
            "mfa_not_enrolled",
            "finish MFA enrollment via /register/confirm before logging in",
        ),
        LoginOutcome::MfaCodeInvalid => error_response(
            UNAUTHORIZED,
            "mfa_code_invalid",
            "invalid MFA code",
        ),
        LoginOutcome::ProofRejected(error) => dpop_error_response(BAD_REQUEST, &error),
        LoginOutcome::InternalError => internal_error("failed to process login"),
        LoginOutcome::Tokens { access_token, refresh_token } => token_response(
            access_token,
            refresh_token,
            ttl_secs,
        ),
    }
}

/// The response to a login.
pub fn login_response(outcome: LoginOutcome, ttl_secs: u64) -> (r: ApiResponse)
    requires
        outcome matches LoginOutcome::Locked { retry_after } ==> retry_after.valid(),
    ensures
        exists|now: Timestamp|
            now.valid() && utc_read(now) && #[trigger] answers_login(outcome, ttl_secs, now, r),
{
    let now = utc_now();
    login_response_at(outcome, ttl_secs, now)
}

} // verus!
