//! What holds of every response.
use vstd::prelude::*;

use crate::confirm::{answers_confirm, ConfirmOutcome};
use crate::dpop::{dpop_error_message, DpopError};
use crate::error::{is_error, is_plain_error, ApiResponse};
use crate::login::{answers_login, LoginOutcome};
use crate::refresh::{answers_refresh, RefreshOutcome};
use crate::register::{answers_register, fault_message, RegisterOutcome, RequestFault};
use crate::store::{store_error_message, StoreError};
use crate::text::{decimal, decimal_value, decimals_read_as_their_number};
use crate::time::{seconds_until, whole_seconds_fit_before_the_time, Timestamp};
use crate::totp::{base32_text, otpauth_text};

verus! {

/// Holds of a response that is an error exactly where its body has the shape
/// of one.
pub open spec fn has_error_shape(response: ApiResponse) -> bool {
    response.status >= 400 <==> response.body is Error
}

/// Whatever an endpoint answers, an error has the one shape of errors, and
/// nothing else has.
pub proof fn errors_have_one_shape(
    login: LoginOutcome,
    refresh: RefreshOutcome,
    register: RegisterOutcome,
    confirm: ConfirmOutcome,
    ttl_secs: u64,
    now: Timestamp,
    response: ApiResponse,
)
    ensures
        answers_login(login, ttl_secs, now, response) ==> has_error_shape(response),
        answers_refresh(refresh, ttl_secs, response) ==> has_error_shape(response),
        answers_register(register, response) ==> has_error_shape(response),
        answers_confirm(confirm, response) ==> has_error_shape(response),
{
}

/// Only a locked address is asked to wait before it tries again.
pub proof fn only_lockouts_ask_to_wait(
    outcome: LoginOutcome,
    ttl_secs: u64,
    now: Timestamp,
    response: ApiResponse,
)
    requires
        answers_login(outcome, ttl_secs, now, response),
    ensures
        response.retry_after is Some <==> outcome is Locked,
{
}

/// Holds of an error response with that status, code and message.
pub open spec fn carries(
    response: ApiResponse,
    status: int,
    error: Seq<char>,
    message: Seq<char>,
) -> bool {
    &&& response.status == status
    &&& response.body is Error
    &&& response.body->error@ == error
    &&& response.body->message@ == message
}

/// An error response carries the status, the code and the message that it was
/// made from, and a plain one asks for no wait.
pub proof fn errors_carry_what_they_are_given(
    response: ApiResponse,
    status: u16,
    error: Seq<char>,
    message: Seq<char>,
)
    ensures
        is_error(response, status, error, message) <==> carries(
            response,
            status as int,
            error,
            message,
        ),
        is_plain_error(response, status, error, message) <==> carries(
            response,
            status as int,
            error,
            message,
        ) && response.retry_after is None,
{
}

/// Each way in which a login may end has its own answer.
pub proof fn logins_are_answered(
    outcome: LoginOutcome,
    ttl_secs: u64,
    now: Timestamp,
    response: ApiResponse,
)
    requires
        answers_login(outcome, ttl_secs, now, response),
    ensures
        outcome is InvalidCredentials ==> carries(
            response,
            401,
            "invalid_credentials"@,
            "invalid email or password"@,
        ),
        outcome is MfaNotEnrolled ==> carries(
            response,
            403,
            "mfa_not_enrolled"@,
            "finish MFA enrollment via /register/confirm before logging in"@,
        ),
        outcome is MfaCodeInvalid ==> carries(
            response,
            401,
            "mfa_code_invalid"@,
            "invalid MFA code"@,
        ),
        outcome matches LoginOutcome::ProofRejected(error) ==> carries(
            response,
            400,
            "invalid_dpop_proof"@,
            dpop_error_message(error),
        ),
        outcome is InternalError ==> carries(
            response,
            500,
            "internal_error"@,
            "failed to process login"@,
        ),
        outcome is Locked ==> carries(
            response,
            429,
            "account_locked"@,
            "too many failed login attempts; try again later"@,
        ),
        outcome matches LoginOutcome::Tokens { access_token, refresh_token } ==> hands_out(
            response,
            access_token,
            refresh_token,
            ttl_secs,
        ),
        outcome !is Locked ==> response.retry_after is None,
{
}

/// A locked address is asked to wait for the whole seconds that are left of its
/// lockout, in decimal digits.
pub proof fn lockouts_are_waited_for_in_whole_seconds(
    until: Timestamp,
    ttl_secs: u64,
    now: Timestamp,
    response: ApiResponse,
)
    requires
        answers_login(LoginOutcome::Locked { retry_after: until }, ttl_secs, now, response),
    ensures
        response.retry_after is Some,
        ({
            let seconds = decimal_value(response.retry_after->0@);
            &&& until.nanos <= now.nanos ==> seconds == 0
            &&& until.nanos > now.nanos ==> {
                &&& now.nanos + 1_000_000_000 * seconds <= until.nanos
                &&& until.nanos < now.nanos + 1_000_000_000 * (seconds + 1)
            }
        }),
        forall|i: int|
            0 <= i < response.retry_after->0@.len() ==> '0' <= #[trigger] response.retry_after->0@[i]
                <= '9',
{
    let seconds = seconds_until(until, now);
    whole_seconds_fit_before_the_time(until, now);
    decimals_read_as_their_number(seconds as nat);
}

/// Holds of the response that hands out these tokens.
pub open spec fn hands_out(
    response: ApiResponse,
    access_token: String,
    refresh_token: String,
    ttl_secs: u64,
) -> bool {
    &&& response.status == 200
    &&& response.retry_after is None
    &&& response.body is Tokens
    &&& response.body->Tokens_0.access_token == access_token
    &&& response.body->Tokens_0.refresh_token == refresh_token
    &&& response.body->Tokens_0.token_type@ == "Bearer"@
    &&& response.body->Tokens_0.expires_in == ttl_secs
}

/// Each way in which a refresh may end has its own answer.
pub proof fn refreshes_are_answered(
    outcome: RefreshOutcome,
    ttl_secs: u64,
    response: ApiResponse,
)
    requires
        answers_refresh(outcome, ttl_secs, response),
    ensures
        outcome is InvalidToken ==> carries(
            response,
            401,
            "invalid_refresh_token"@,
            "invalid or expired refresh token"@,
        ),
        outcome is Reused ==> carries(
            response,
            401,
            "refresh_token_reused"@,
            "this refresh token has already been used; your session has been revoked for security reasons, please log in again"@,
        ),
        outcome matches RefreshOutcome::ProofRejected(error) ==> carries(
            response,
            400,
            "invalid_dpop_proof"@,
            dpop_error_message(error),
        ),
        outcome is InternalError ==> carries(
            response,
            500,
            "internal_error"@,
            "failed to process refresh"@,
        ),
        outcome matches RefreshOutcome::Tokens { access_token, refresh_token } ==> hands_out(
            response,
            access_token,
            refresh_token,
            ttl_secs,
        ),
        response.retry_after is None,
{
}

/// Each way in which a registration may end has its own answer. An account is
/// answered with its address, the time of its creation, and its secret as an
/// address for authenticator apps and in base32.
pub proof fn registrations_are_answered(outcome: RegisterOutcome, response: ApiResponse)
    requires
        answers_register(outcome, response),
    ensures
        outcome matches RegisterOutcome::InvalidRequest(fault) ==> carries(
            response,
            400,
            "invalid_request"@,
            fault_message(fault),
        ),
        outcome is EmailTaken ==> carries(
            response,
            409,
            "email_already_registered"@,
            "an account with this email already exists"@,
        ),
        outcome is InternalError ==> carries(
            response,
            500,
            "internal_error"@,
            "failed to process registration"@,
        ),
        outcome matches RegisterOutcome::Registered { email, created_at, enrollment } ==> {
            &&& response.status == 201
            &&& response.body is Registered
            &&& response.body->Registered_0.email == email
            &&& response.body->Registered_0.created_at == created_at
            &&& response.body->Registered_0.mfa_enrollment_url@ == otpauth_text(
                enrollment.secret(),
                6,
                30,
                "auth-service"@,
                enrollment.account(),
            )
            &&& response.body->Registered_0.mfa_secret_base32@ == base32_text(enrollment.secret())
        },
        response.retry_after is None,
{
}

/// Each way in which a confirmation may end has its own answer. One that
/// succeeds is answered with its address and its recovery codes.
pub proof fn confirmations_are_answered(outcome: ConfirmOutcome, response: ApiResponse)
    requires
        answers_confirm(outcome, response),
    ensures
        outcome is Invalid ==> carries(
            response,
            400,
            "invalid_confirmation"@,
            "invalid email or MFA code"@,
        ),
        outcome is InternalError ==> carries(
            response,
            500,
            "internal_error"@,
            "failed to process confirmation"@,
        ),
        outcome matches ConfirmOutcome::Confirmed { email, recovery_codes } ==> {
            &&& response.status == 200
            &&& response.body is Confirmed
            &&& response.body->Confirmed_0.email == email
            &&& response.body->Confirmed_0.recovery_codes == recovery_codes
        },
        response.retry_after is None,
{
}

/// Each fault of a proof is told in its own words. Of a store that failed
/// nothing is told.
pub proof fn proof_faults_are_told(message: String)
    ensures
        dpop_error_message(DpopError::Missing) == "a DPoP proof is required"@,
        dpop_error_message(DpopError::Malformed) == "the DPoP proof is malformed"@,
        dpop_error_message(DpopError::WrongAlgorithm) == "unsupported DPoP proof algorithm"@,
        dpop_error_message(DpopError::WrongType) == "DPoP proof has the wrong typ"@,
        dpop_error_message(DpopError::MethodMismatch)
            == "DPoP proof htm does not match the request"@,
        dpop_error_message(DpopError::UriMismatch) == "DPoP proof htu does not match the request"@,
        dpop_error_message(DpopError::Stale) == "DPoP proof is too old"@,
        dpop_error_message(DpopError::FutureIat) == "DPoP proof iat is too far in the future"@,
        dpop_error_message(DpopError::AthMismatch)
            == "DPoP proof does not match the presented access token"@,
        dpop_error_message(DpopError::KeyMismatch)
            == "DPoP proof key does not match the token binding"@,
        dpop_error_message(DpopError::Replayed) == "DPoP proof has already been used"@,
        dpop_error_message(DpopError::Backend(message)) == "failed to process DPoP proof"@,
{
}

/// Each fault of a registration is told in its own words, and a password that
/// is too short or too long with the limit.
pub proof fn registration_faults_are_told()
    ensures
        fault_message(RequestFault::EmailWithoutAt) == "email must contain '@'"@,
        fault_message(RequestFault::EmailInvalid) == "email is not a valid address"@,
        fault_message(RequestFault::PasswordEmpty) == "password must not be empty"@,
        fault_message(RequestFault::PasswordTooShort) == "password must be at least 12 characters"@,
        fault_message(RequestFault::PasswordTooLong) == "password must be at most 256 characters"@,
        fault_message(RequestFault::PasswordBreached)
            == "this password has appeared in a data breach; choose a different one"@,
{
    reveal_strlit("password must be at least ");
    reveal_strlit("password must be at most ");
    reveal_strlit(" characters");
    reveal_strlit("password must be at least 12 characters");
    reveal_strlit("password must be at most 256 characters");
    assert(decimal(1) =~= seq!['1']);
    assert(decimal(12) =~= seq!['1', '2']);
    assert(decimal(2) =~= seq!['2']);
    assert(decimal(25) =~= seq!['2', '5']);
    assert(decimal(256) =~= seq!['2', '5', '6']);
    assert(fault_message(RequestFault::PasswordTooShort)
        =~= "password must be at least 12 characters"@);
    assert(fault_message(RequestFault::PasswordTooLong)
        =~= "password must be at most 256 characters"@);
}

/// What is logged of a store that failed ends with the store's own words.
pub proof fn store_failures_are_logged(message: String)
    ensures
        store_error_message(StoreError::Backend(message)) == "backend error: "@ + message@,
        store_error_message(StoreError::DuplicateEmail) == "email already registered"@,
        store_error_message(StoreError::Replayed) == "DPoP proof jti already used"@,
        store_error_message(StoreError::NotFound) == "record not found"@,
        store_error_message(StoreError::Expired) == "record expired"@,
        store_error_message(StoreError::Reused) == "refresh token reused; family revoked"@,
        store_error_message(StoreError::MfaAlreadyEnrolled)
            == "MFA already enrolled for this account"@,
{
}

} // verus!
