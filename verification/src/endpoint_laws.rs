//! What each endpoint does at every point, for every answer that it may get.
use vstd::prelude::*;

use crate::confirm::{
    confirm_begun, confirm_next, ConfirmAction, ConfirmEvent, ConfirmOutcome, ConfirmState,
    ConfirmTask,
};
use crate::dpop::{DpopError, DpopProof, PendingDpopProof};
use crate::login::{
    login_begun, login_next, IssuedTokens, LoginAction, LoginEvent, LoginOutcome, LoginState,
    LoginTask,
};
use crate::password::PasswordError;
use crate::refresh::{
    refresh_begun, refresh_next, RefreshAction, RefreshEvent, RefreshOutcome, RefreshState,
    RefreshTask,
};
use crate::refresh_token::{RefreshTokenRecord, RefreshTokenStatus};
use crate::register::{
    email_fault, password_fault, register_begun, register_next, BreachCheckFailed, RegisterAction,
    RegisterEvent, RegisterOutcome, RegisterState, RegisterTask, RequestFault,
};
use crate::store::{LoginAttemptState, StoreError};
use crate::text::{lowercase, normalized_email, spellings_share_an_account, trimmed};
use crate::time::Timestamp;
use crate::token::TokenError;
use crate::totp::EnrollmentSecret;
use crate::user::{NewUser, User};

verus! {

/// A login first asks whether its address is locked out, then looks for the
/// account under that very address. A store that fails ends it.
pub proof fn logins_ask_for_the_lockout_first(
    email: String,
    password: String,
    mfa_code: String,
    checked: Result<LoginAttemptState, StoreError>,
)
    ensures
        ({
            let begun = login_begun(email, password, mfa_code);
            let next = login_next(begun.0, LoginEvent::LockoutChecked(checked)).1;
            &&& begun.1 == (LoginAction::CheckLockout { email })
            &&& match checked {
                Ok(LoginAttemptState::Allowed) => next == (LoginAction::FindUser { email }),
                Ok(LoginAttemptState::Locked { retry_after }) => next == LoginAction::Respond(
                    LoginOutcome::Locked { retry_after },
                ),
                Err(_) => next == LoginAction::Respond(LoginOutcome::InternalError),
            }
        }),
{
}

/// Where a login stands that was not locked out and whose account was looked
/// for with that result.
pub open spec fn account_looked_for(
    email: String,
    password: String,
    mfa_code: String,
    found: Result<Option<User>, StoreError>,
) -> (LoginState, LoginAction) {
    login_next(
        login_next(
            login_begun(email, password, mfa_code).0,
            LoginEvent::LockoutChecked(Ok(LoginAttemptState::Allowed)),
        ).0,
        LoginEvent::UserFound(found),
    )
}

/// The password is verified against the account's own hash, and against the
/// stand-in where there is no account. A wrong one, and any for an unknown
/// address, is counted against the address and then rejected, whether or not it
/// could be counted; the right one for an account that is not enrolled is told
/// so; a store or a hash that fails ends the login.
pub proof fn logins_verify_the_password_next(
    email: String,
    password: String,
    mfa_code: String,
    found: Result<Option<User>, StoreError>,
    verified: Result<bool, PasswordError>,
    counted: Result<LoginAttemptState, StoreError>,
)
    ensures
        ({
            let looked = account_looked_for(email, password, mfa_code, found);
            let next = login_next(looked.0, LoginEvent::PasswordVerified(verified));
            let last = login_next(next.0, LoginEvent::FailureRecorded(counted));
            match found {
                Err(_) => looked.1 == LoginAction::Respond(LoginOutcome::InternalError),
                Ok(account) => {
                    &&& looked.1 == LoginAction::Compute(
                        LoginTask::VerifyPassword {
                            password,
                            password_hash: match account {
                                Some(user) => Some(user.password_hash),
                                None => None,
                            },
                        },
                    )
                    &&& verified is Err ==> next.1 == LoginAction::Respond(
                        LoginOutcome::InternalError,
                    )
                    &&& verified is Ok && !(verified->Ok_0 && account is Some) ==> {
                        &&& next.1 == (LoginAction::RecordFailure { email })
                        &&& last.1 == LoginAction::Respond(LoginOutcome::InvalidCredentials)
                    }
                    &&& verified == Ok::<bool, PasswordError>(true) && account is Some
                        && !account->0.mfa_enrolled ==> next.1 == LoginAction::Respond(
                        LoginOutcome::MfaNotEnrolled,
                    )
                    &&& verified == Ok::<bool, PasswordError>(true) && account is Some
                        && account->0.mfa_enrolled ==> next.1 == LoginAction::Compute(
                        LoginTask::CheckCode {
                            secret: account->0.mfa_secret,
                            account_email: account->0.email,
                            code: mfa_code,
                        },
                    )
                },
            }
        }),
{
}

/// Where a login stands that has shown the password of an account.
pub open spec fn password_accepted(
    email: String,
    password: String,
    mfa_code: String,
    user: User,
) -> (LoginState, LoginAction) {
    login_next(
        account_looked_for(email, password, mfa_code, Ok(Some(user))).0,
        LoginEvent::PasswordVerified(Ok(true)),
    )
}

/// What is submitted as a code is tried as a code of the account's secret, and
/// then, hashed, as a recovery code of the account. Where neither is accepted
/// the failure is counted against the address and the login rejected, whether
/// or not it could be counted; a store that fails ends the login.
pub proof fn logins_try_the_code_twice(
    email: String,
    password: String,
    mfa_code: String,
    user: User,
    code_hash: String,
    redeemed: Result<bool, StoreError>,
    counted: Result<LoginAttemptState, StoreError>,
)
    requires
        user.mfa_enrolled,
    ensures
        ({
            let asked = password_accepted(email, password, mfa_code, user);
            let hashing = login_next(asked.0, LoginEvent::CodeChecked(false));
            let redeeming = login_next(hashing.0, LoginEvent::CodeHashed(code_hash));
            let next = login_next(redeeming.0, LoginEvent::CodeRedeemed(redeemed));
            let last = login_next(next.0, LoginEvent::FailureRecorded(counted));
            &&& login_next(asked.0, LoginEvent::CodeChecked(true)).1 == LoginAction::Compute(
                LoginTask::ValidateProof,
            )
            &&& hashing.1 == LoginAction::Compute(LoginTask::HashCode { code: mfa_code })
            &&& redeeming.1 == (LoginAction::RedeemCode { user_email: user.email, code_hash })
            &&& match redeemed {
                Ok(true) => next.1 == LoginAction::Compute(LoginTask::ValidateProof),
                Ok(false) => {
                    &&& next.1 == (LoginAction::RecordFailure { email })
                    &&& last.1 == LoginAction::Respond(LoginOutcome::MfaCodeInvalid)
                },
                Err(_) => next.1 == LoginAction::Respond(LoginOutcome::InternalError),
            }
        }),
{
}

/// Where a login stands that has shown both factors: with a recovery code of
/// that hash, or with a code of the account's secret.
pub open spec fn factors_accepted(
    email: String,
    password: String,
    mfa_code: String,
    user: User,
    recovery_code: Option<String>,
) -> (LoginState, LoginAction) {
    let asked = password_accepted(email, password, mfa_code, user);
    match recovery_code {
        None => login_next(asked.0, LoginEvent::CodeChecked(true)),
        Some(code_hash) => login_next(
            login_next(
                login_next(asked.0, LoginEvent::CodeChecked(false)).0,
                LoginEvent::CodeHashed(code_hash),
            ).0,
            LoginEvent::CodeRedeemed(Ok(true)),
        ),
    }
}

/// With both factors shown, by either kind of code, the proof is validated and
/// its `jti` recorded; then tokens are made for the account and the proof's
/// key, the refresh token is kept for them, the failures of the address are
/// cleared, and the tokens handed out, whether or not the failures could be
/// cleared. A proof that is rejected ends the login with its own fault, and
/// anything else that fails with an internal error.
pub proof fn logins_end_with_the_proof(
    email: String,
    password: String,
    mfa_code: String,
    user: User,
    recovery_code: Option<String>,
    validated: Result<PendingDpopProof, DpopError>,
    insertion: Result<(), StoreError>,
    finished: Result<DpopProof, DpopError>,
    issued: Result<IssuedTokens, TokenError>,
    stored: Result<RefreshTokenRecord, StoreError>,
    reset: Result<(), StoreError>,
)
    requires
        user.mfa_enrolled,
    ensures
        ({
            let shown = factors_accepted(email, password, mfa_code, user, recovery_code);
            let recording = login_next(shown.0, LoginEvent::ProofValidated(validated));
            let finishing = login_next(recording.0, LoginEvent::ProofRecorded(insertion));
            let issuing = login_next(finishing.0, LoginEvent::ProofFinished(finished));
            let storing = login_next(issuing.0, LoginEvent::TokensIssued(issued));
            let clearing = login_next(storing.0, LoginEvent::TokenStored(stored));
            let last = login_next(clearing.0, LoginEvent::AttemptsReset(reset));
            &&& shown.1 == LoginAction::Compute(LoginTask::ValidateProof)
            &&& validated is Err ==> recording.1 == LoginAction::Respond(
                LoginOutcome::ProofRejected(validated->Err_0),
            )
            &&& validated is Ok ==> {
                &&& recording.1 == (LoginAction::RecordProof {
                    jti: validated->Ok_0.proof.jti,
                    expires_at: validated->Ok_0.expires_at,
                })
                &&& finishing.1 == LoginAction::Compute(
                    LoginTask::FinishProof { proof: validated->Ok_0.proof, insertion },
                )
                &&& finished is Err ==> issuing.1 == LoginAction::Respond(
                    LoginOutcome::ProofRejected(finished->Err_0),
                )
            }
            &&& validated is Ok && finished is Ok ==> {
                &&& issuing.1 == LoginAction::Compute(
                    LoginTask::IssueTokens { user_id: user.user_id, jkt: finished->Ok_0.jkt },
                )
                &&& issued is Err ==> storing.1 == LoginAction::Respond(LoginOutcome::InternalError)
            }
            &&& validated is Ok && finished is Ok && issued is Ok ==> {
                &&& storing.1 is StoreToken
                &&& storing.1->new_token.user_email == user.email
                &&& storing.1->new_token.jkt == finished->Ok_0.jkt
                &&& storing.1->token_hash == issued->Ok_0.refresh_token_hash
                &&& stored is Err ==> clearing.1 == LoginAction::Respond(
                    LoginOutcome::InternalError,
                )
            }
            &&& validated is Ok && finished is Ok && issued is Ok && stored is Ok ==> {
                &&& clearing.1 == (LoginAction::ResetAttempts { email })
                &&& last.1 == LoginAction::Respond(
                    LoginOutcome::Tokens {
                        access_token: issued->Ok_0.access_token,
                        refresh_token: issued->Ok_0.refresh_token,
                    },
                )
            }
        }),
{
}

/// A refresh looks its token up by the hash. An unknown token is invalid; one
/// that is not active has its family revoked and is answered as reused, whether
/// or not that could be done; an active one is invalid from the moment after
/// its last on; and a store that fails ends the refresh.
pub proof fn refreshes_look_at_the_token_first(
    presented: String,
    found: Result<Option<RefreshTokenRecord>, StoreError>,
    revoked: Result<(), StoreError>,
    now: Timestamp,
)
    ensures
        ({
            let begun = refresh_begun(presented);
            let next = refresh_next(begun.0, RefreshEvent::TokenFound(found));
            &&& begun.1 == (RefreshAction::FindToken { token_hash: presented })
            &&& match found {
                Err(_) => next.1 == RefreshAction::Respond(RefreshOutcome::InternalError),
                Ok(None) => next.1 == RefreshAction::Respond(RefreshOutcome::InvalidToken),
                Ok(Some(record)) => {
                    &&& record.status != RefreshTokenStatus::Active ==> {
                        &&& next.1 == (RefreshAction::RevokeFamily { family_id: record.family_id })
                        &&& refresh_next(next.0, RefreshEvent::FamilyRevoked(revoked)).1
                            == RefreshAction::Respond(RefreshOutcome::Reused)
                    }
                    &&& record.status == RefreshTokenStatus::Active ==> {
                        let timed = refresh_next(next.0, RefreshEvent::ClockRead(now)).1;
                        &&& next.1 == RefreshAction::Compute(RefreshTask::ReadClock)
                        &&& now.nanos > record.expires_at.nanos ==> timed == RefreshAction::Respond(
                            RefreshOutcome::InvalidToken,
                        )
                        &&& now.nanos <= record.expires_at.nanos ==> timed == RefreshAction::Compute(
                            RefreshTask::ValidateProof,
                        )
                    }
                },
            }
        }),
{
}

/// Where a refresh stands whose token is active and, at that time, has not
/// expired.
pub open spec fn token_accepted(
    presented: String,
    record: RefreshTokenRecord,
    now: Timestamp,
) -> (RefreshState, RefreshAction) {
    refresh_next(
        refresh_next(
            refresh_begun(presented).0,
            RefreshEvent::TokenFound(Ok(Some(record))),
        ).0,
        RefreshEvent::ClockRead(now),
    )
}

/// The proof is validated and its `jti` recorded. One that is rejected ends the
/// refresh with its own fault, and one for another key than the token's with
/// that. With the token's key the user is looked for, whom the token names.
pub proof fn refreshes_hold_the_proof_to_the_token(
    presented: String,
    record: RefreshTokenRecord,
    now: Timestamp,
    validated: Result<PendingDpopProof, DpopError>,
    insertion: Result<(), StoreError>,
    finished: Result<DpopProof, DpopError>,
)
    requires
        record.status == RefreshTokenStatus::Active,
        now.nanos <= record.expires_at.nanos,
    ensures
        ({
            let usable = token_accepted(presented, record, now);
            let recording = refresh_next(usable.0, RefreshEvent::ProofValidated(validated));
            let finishing = refresh_next(recording.0, RefreshEvent::ProofRecorded(insertion));
            let next = refresh_next(finishing.0, RefreshEvent::ProofFinished(finished));
            &&& validated is Err ==> recording.1 == RefreshAction::Respond(
                RefreshOutcome::ProofRejected(validated->Err_0),
            )
            &&& validated is Ok ==> {
                &&& recording.1 == (RefreshAction::RecordProof {
                    jti: validated->Ok_0.proof.jti,
                    expires_at: validated->Ok_0.expires_at,
                })
                &&& finishing.1 == RefreshAction::Compute(
                    RefreshTask::FinishProof { proof: validated->Ok_0.proof, insertion },
                )
                &&& finished is Err ==> next.1 == RefreshAction::Respond(
                    RefreshOutcome::ProofRejected(finished->Err_0),
                )
                &&& finished is Ok && finished->Ok_0.jkt@ != record.jkt@ ==> next.1
                    == RefreshAction::Respond(RefreshOutcome::ProofRejected(DpopError::KeyMismatch))
                &&& finished is Ok && finished->Ok_0.jkt@ == record.jkt@ ==> next.1
                    == (RefreshAction::FindUser { email: record.user_email })
            }
        }),
{
}

/// Where a refresh stands whose proof was for the token's key.
pub open spec fn key_accepted(
    presented: String,
    record: RefreshTokenRecord,
    now: Timestamp,
    pending: PendingDpopProof,
    insertion: Result<(), StoreError>,
    proof: DpopProof,
) -> (RefreshState, RefreshAction) {
    refresh_next(
        refresh_next(
            refresh_next(
                token_accepted(presented, record, now).0,
                RefreshEvent::ProofValidated(Ok(pending)),
            ).0,
            RefreshEvent::ProofRecorded(insertion),
        ).0,
        RefreshEvent::ProofFinished(Ok(proof)),
    )
}

/// The token presented is exchanged for a new one, for the key of the proof,
/// and an access token is issued for that key to the user that was found. A
/// token that was used, is gone or has expired by then is answered as such, and
/// anything else that fails with an internal error.
pub proof fn refreshes_end_with_the_exchange(
    presented: String,
    record: RefreshTokenRecord,
    now: Timestamp,
    pending: PendingDpopProof,
    insertion: Result<(), StoreError>,
    proof: DpopProof,
    found: Result<Option<User>, StoreError>,
    refresh_token: String,
    token_hash: String,
    rotated: Result<RefreshTokenRecord, StoreError>,
    issued: Result<String, TokenError>,
)
    requires
        record.status == RefreshTokenStatus::Active,
        now.nanos <= record.expires_at.nanos,
        proof.jkt@ == record.jkt@,
    ensures
        ({
            let shown = key_accepted(presented, record, now, pending, insertion, proof);
            let making = refresh_next(shown.0, RefreshEvent::UserFound(found));
            let rotating = refresh_next(
                making.0,
                RefreshEvent::TokenMade { refresh_token, token_hash },
            );
            let issuing = refresh_next(rotating.0, RefreshEvent::Rotated(rotated));
            let last = refresh_next(issuing.0, RefreshEvent::TokenIssued(issued));
            &&& !(found matches Ok(Some(_))) ==> making.1 == RefreshAction::Respond(
                RefreshOutcome::InternalError,
            )
            &&& found matches Ok(Some(user)) ==> {
                &&& making.1 == RefreshAction::Compute(RefreshTask::MakeToken)
                &&& rotating.1 == (RefreshAction::Rotate {
                    old_token_hash: presented,
                    new_token_hash: token_hash,
                    jkt: proof.jkt,
                })
                &&& match rotated {
                    Ok(_) => issuing.1 == RefreshAction::Compute(
                        RefreshTask::IssueToken { user_id: user.user_id, jkt: proof.jkt },
                    ),
                    Err(StoreError::Reused) => issuing.1 == RefreshAction::Respond(
                        RefreshOutcome::Reused,
                    ),
                    Err(StoreError::NotFound) => issuing.1 == RefreshAction::Respond(
                        RefreshOutcome::InvalidToken,
                    ),
                    Err(StoreError::Expired) => issuing.1 == RefreshAction::Respond(
                        RefreshOutcome::InvalidToken,
                    ),
                    Err(_) => issuing.1 == RefreshAction::Respond(RefreshOutcome::InternalError),
                }
                &&& rotated is Ok && issued is Ok ==> last.1 == RefreshAction::Respond(
                    RefreshOutcome::Tokens { access_token: issued->Ok_0, refresh_token },
                )
                &&& rotated is Ok && issued is Err ==> last.1 == RefreshAction::Respond(
                    RefreshOutcome::InternalError,
                )
            }
        }),
{
}

/// A registration is refused for its address first, then for its password. Only
/// a password that will do is held against the breaches, as it was submitted.
pub proof fn registrations_look_at_the_request_first(email: String, password: String)
    ensures
        email_fault(email@) matches Some(fault) ==> register_begun(email, password).1
            == RegisterAction::Respond(RegisterOutcome::InvalidRequest(fault)),
        email_fault(email@) is None ==> (password_fault(password@) matches Some(fault)
            ==> register_begun(email, password).1 == RegisterAction::Respond(
            RegisterOutcome::InvalidRequest(fault),
        )),
        email_fault(email@) is None && password_fault(password@) is None ==> register_begun(
            email,
            password,
        ).1 == (RegisterAction::CheckBreached { password }),
{
}

/// A password that is known to be breached is refused; whether one is cannot
/// always be told, and then it is taken. It is hashed, a user id and a secret
/// are made for the address, and the account is created with them and the hash.
/// An address that is taken is told so; anything else that fails ends in an
/// internal error. What is answered is what the store kept, and the secret that
/// was made.
pub proof fn registrations_end_with_an_account(
    email: String,
    password: String,
    checked: Result<bool, BreachCheckFailed>,
    result: Result<String, PasswordError>,
    user_id: String,
    secret: Vec<u8>,
    enrollment: EnrollmentSecret,
    created: Result<User, StoreError>,
)
    requires
        email_fault(email@) is None,
        password_fault(password@) is None,
    ensures
        ({
            let begun = register_begun(email, password);
            let hashing = register_next(begun.0, RegisterEvent::BreachChecked(checked));
            let enrolling = register_next(hashing.0, RegisterEvent::PasswordHashed(result));
            let creating = register_next(
                enrolling.0,
                RegisterEvent::Enrolled { user_id, secret, enrollment },
            );
            let last = register_next(creating.0, RegisterEvent::UserCreated(created));
            let breached = checked == Ok::<bool, BreachCheckFailed>(true);
            &&& breached ==> hashing.1 == RegisterAction::Respond(
                RegisterOutcome::InvalidRequest(RequestFault::PasswordBreached),
            )
            &&& !breached ==> {
                &&& hashing.1 == RegisterAction::Compute(RegisterTask::HashPassword { password })
                &&& result is Err ==> enrolling.1 == RegisterAction::Respond(
                    RegisterOutcome::InternalError,
                )
            }
            &&& !breached && result is Ok ==> {
                &&& enrolling.1 == RegisterAction::Compute(RegisterTask::Enroll { email })
                &&& creating.1 == RegisterAction::CreateUser(
                    NewUser { user_id, email, password_hash: result->Ok_0, mfa_secret: secret },
                )
                &&& match created {
                    Ok(user) => last.1 == RegisterAction::Respond(
                        RegisterOutcome::Registered {
                            email: user.email,
                            created_at: user.created_at,
                            enrollment,
                        },
                    ),
                    Err(StoreError::DuplicateEmail) => last.1 == RegisterAction::Respond(
                        RegisterOutcome::EmailTaken,
                    ),
                    Err(_) => last.1 == RegisterAction::Respond(RegisterOutcome::InternalError),
                }
            }
        }),
{
}

/// A confirmation looks its account up by the address, checks the code against
/// the account's secret, makes recovery codes, and has the enrollment confirmed
/// with their hashes; it hands out the codes themselves. An unknown address, an
/// account that is enrolled, now or by then, and a wrong code are refused
/// alike; a store that fails otherwise ends it in an internal error.
pub proof fn confirmations_end_with_codes(
    email: String,
    mfa_code: String,
    found: Result<Option<User>, StoreError>,
    accepted: bool,
    codes: Vec<String>,
    hashes: Vec<String>,
    confirmed: Result<User, StoreError>,
)
    ensures
        ({
            let begun = confirm_begun(email, mfa_code);
            let checking = confirm_next(begun.0, ConfirmEvent::UserFound(found));
            let making = confirm_next(checking.0, ConfirmEvent::CodeChecked(accepted));
            let confirming = confirm_next(making.0, ConfirmEvent::CodesMade { codes, hashes });
            let last = confirm_next(confirming.0, ConfirmEvent::EnrollmentConfirmed(confirmed));
            &&& begun.1 == (ConfirmAction::FindUser { email })
            &&& match found {
                Err(_) => checking.1 == ConfirmAction::Respond(ConfirmOutcome::InternalError),
                Ok(None) => checking.1 == ConfirmAction::Respond(ConfirmOutcome::Invalid),
                Ok(Some(user)) => {
                    &&& user.mfa_enrolled ==> checking.1 == ConfirmAction::Respond(
                        ConfirmOutcome::Invalid,
                    )
                    &&& !user.mfa_enrolled ==> {
                        &&& checking.1 == ConfirmAction::Compute(
                            ConfirmTask::CheckCode {
                                secret: user.mfa_secret,
                                account_email: email,
                                code: mfa_code,
                            },
                        )
                        &&& !accepted ==> making.1 == ConfirmAction::Respond(
                            ConfirmOutcome::Invalid,
                        )
                        &&& accepted ==> {
                            &&& making.1 == ConfirmAction::Compute(ConfirmTask::MakeCodes)
                            &&& confirming.1 == (ConfirmAction::ConfirmEnrollment {
                                email,
                                recovery_code_hashes: hashes,
                            })
                            &&& match confirmed {
                                Ok(_) => last.1 == ConfirmAction::Respond(
                                    ConfirmOutcome::Confirmed { email, recovery_codes: codes },
                                ),
                                Err(StoreError::MfaAlreadyEnrolled) => last.1
                                    == ConfirmAction::Respond(ConfirmOutcome::Invalid),
                                Err(StoreError::NotFound) => last.1 == ConfirmAction::Respond(
                                    ConfirmOutcome::Invalid,
                                ),
                                Err(_) => last.1 == ConfirmAction::Respond(
                                    ConfirmOutcome::InternalError,
                                ),
                            }
                        }
                    }
                },
            }
        }),
{
}

/// Holds of an event that a login waits for where it stands.
pub open spec fn login_awaits(state: LoginState, event: LoginEvent) -> bool {
    ||| state is CheckingLockout && event is LockoutChecked
    ||| state is FindingUser && event is UserFound
    ||| state is VerifyingPassword && event is PasswordVerified
    ||| state is RecordingFailure && event is FailureRecorded
    ||| state is CheckingCode && event is CodeChecked
    ||| state is HashingCode && event is CodeHashed
    ||| state is RedeemingCode && event is CodeRedeemed
    ||| state is ValidatingProof && event is ProofValidated
    ||| state is RecordingProof && event is ProofRecorded
    ||| state is FinishingProof && event is ProofFinished
    ||| state is IssuingTokens && event is TokensIssued
    ||| state is StoringToken && event is TokenStored
    ||| state is ResettingAttempts && event is AttemptsReset
}

/// Holds of an event that a refresh waits for where it stands.
pub open spec fn refresh_awaits(state: RefreshState, event: RefreshEvent) -> bool {
    ||| state is FindingToken && event is TokenFound
    ||| state is RevokingFamily && event is FamilyRevoked
    ||| state is CheckingExpiry && event is ClockRead
    ||| state is ValidatingProof && event is ProofValidated
    ||| state is RecordingProof && event is ProofRecorded
    ||| state is FinishingProof && event is ProofFinished
    ||| state is FindingUser && event is UserFound
    ||| state is MakingToken && event is TokenMade
    ||| state is Rotating && event is Rotated
    ||| state is IssuingToken && event is TokenIssued
}

/// Holds of an event that a registration waits for where it stands.
pub open spec fn register_awaits(state: RegisterState, event: RegisterEvent) -> bool {
    ||| state is CheckingBreach && event is BreachChecked
    ||| state is HashingPassword && event is PasswordHashed
    ||| state is Enrolling && event is Enrolled
    ||| state is CreatingUser && event is UserCreated
}

/// Holds of an event that a confirmation waits for where it stands.
pub open spec fn confirm_awaits(state: ConfirmState, event: ConfirmEvent) -> bool {
    ||| state is FindingUser && event is UserFound
    ||| state is CheckingCode && event is CodeChecked
    ||| state is MakingCodes && event is CodesMade
    ||| state is Confirming && event is EnrollmentConfirmed
}

/// An event that an endpoint does not wait for ends it in an internal error,
/// and one that comes after the end hands out nothing.
pub proof fn unawaited_events_end_in_an_error(
    login: LoginState,
    login_event: LoginEvent,
    refresh: RefreshState,
    refresh_event: RefreshEvent,
    register: RegisterState,
    register_event: RegisterEvent,
    confirm: ConfirmState,
    confirm_event: ConfirmEvent,
)
    ensures
        !login_awaits(login, login_event) ==> login_next(login, login_event).1
            == LoginAction::Respond(LoginOutcome::InternalError),
        !refresh_awaits(refresh, refresh_event) ==> refresh_next(refresh, refresh_event).1
            == RefreshAction::Respond(RefreshOutcome::InternalError),
        !register_awaits(register, register_event) ==> register_next(register, register_event).1
            == RegisterAction::Respond(RegisterOutcome::InternalError),
        !confirm_awaits(confirm, confirm_event) ==> confirm_next(confirm, confirm_event).1
            == ConfirmAction::Respond(ConfirmOutcome::InternalError),
{
}

/// Login, registration and confirmation all look for an account under the lower
/// case of the submitted address without the white space around it. Two
/// spellings that agree in that lead to the same lookup, and to the same
/// account.
pub proof fn spellings_lead_to_one_lookup(
    one: Seq<char>,
    other: Seq<char>,
    email: String,
    other_email: String,
    password: String,
    mfa_code: String,
    password_hash: String,
    user_id: String,
    secret: Vec<u8>,
    enrollment: EnrollmentSecret,
)
    requires
        email@ == normalized_email(one),
        other_email@ == normalized_email(other),
        lowercase(trimmed(one)) == lowercase(trimmed(other)),
    ensures
        email@ == lowercase(trimmed(one)),
        other_email@ == email@,
        login_begun(email, password, mfa_code).1->CheckLockout_email@ == lowercase(trimmed(one)),
        login_next(
            login_begun(other_email, password, mfa_code).0,
            LoginEvent::LockoutChecked(Ok(LoginAttemptState::Allowed)),
        ).1->FindUser_email@ == lowercase(trimmed(one)),
        confirm_begun(other_email, mfa_code).1->FindUser_email@ == lowercase(trimmed(one)),
        register_next(
            RegisterState::Enrolling { email: other_email, password_hash },
            RegisterEvent::Enrolled { user_id, secret, enrollment },
        ).1->CreateUser_0.email@ == lowercase(trimmed(one)),
        email_fault(other_email@) == email_fault(email@),
{
    spellings_share_an_account(one, other);
    spellings_share_an_account(other, one);
}

} // verus!
