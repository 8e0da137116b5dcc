//! What holds of a login from its beginning to its end, whatever the store
//! answers and whatever the tasks yield.
use vstd::prelude::*;

use crate::login::{
    ended, factors_shown, failed, login_begun, login_next, login_run, task_yields, Identity,
    LoginAction, LoginEvent, LoginOutcome, LoginState, LoginTask, REFRESH_TOKEN_BYTE_LEN,
};
use crate::password::{is_hash_text, password_fits};
use crate::random::{is_opaque_token, token_hash};
use crate::refresh_token::NewRefreshToken;
use crate::request::{AuthService, RequestContext};
use crate::store::login_attempts::{
    after_failure, after_failures, checked_state, threshold_failures_lock_out, within_one_window,
    LoginAttemptRecord, LOGIN_FAILURE_THRESHOLD, LOGIN_LOCKOUT_MINUTES,
};
use crate::store::LoginAttemptState;
use crate::time::{Timestamp, SECONDS_PER_MINUTE};
use crate::token::JwtClaimsView;
use crate::totp::{accepts_code, can_check_at, code_at, made_codes_are_accepted, STEP_SECONDS};
use crate::user::User;

verus! {

/// Holds of events that begin with a login which was not locked out, for an
/// account that exists, with its password.
pub open spec fn password_shown(events: Seq<LoginEvent>) -> bool {
    &&& events.len() >= 3
    &&& events[0] == LoginEvent::LockoutChecked(Ok(LoginAttemptState::Allowed))
    &&& events[1] matches LoginEvent::UserFound(Ok(Some(_)))
    &&& events[2] == LoginEvent::PasswordVerified(Ok(true))
}

/// The account that a login is for, once it has been found.
pub open spec fn user_of(events: Seq<LoginEvent>) -> User {
    events[1]->UserFound_0->Ok_0->0
}

/// Holds of events whose first `k` show both factors of an enrolled account:
/// after the password either a current code, or a recovery code that was good.
pub open spec fn both_factors_shown(events: Seq<LoginEvent>, k: int) -> bool {
    &&& 4 <= k <= events.len()
    &&& password_shown(events)
    &&& user_of(events).mfa_enrolled
    &&& {
        ||| k == 4 && events[3] == LoginEvent::CodeChecked(true)
        ||| k == 6 && events[3] == LoginEvent::CodeChecked(false) && events[4] is CodeHashed
            && events[5] == LoginEvent::CodeRedeemed(Ok(true))
    }
}

/// Holds of events that go on, behind the first `k`, with a proof that is
/// valid and new, and with tokens that could be made and stored.
pub open spec fn proof_shown(events: Seq<LoginEvent>, k: int) -> bool {
    &&& events.len() >= k + 5
    &&& events[k] matches LoginEvent::ProofValidated(Ok(_))
    &&& events[k + 1] is ProofRecorded
    &&& events[k + 2] matches LoginEvent::ProofFinished(Ok(_))
    &&& events[k + 3] matches LoginEvent::TokensIssued(Ok(_))
    &&& events[k + 4] matches LoginEvent::TokenStored(Ok(_))
}

/// Holds of the events of a login that is granted.
pub open spec fn login_granted(events: Seq<LoginEvent>) -> bool {
    let k = events.len() - 6;
    &&& both_factors_shown(events, k)
    &&& proof_shown(events, k)
    &&& events[k + 5] is AttemptsReset
}

/// Holds of the events of a login with the right password and a wrong code,
/// whose failure was counted.
pub open spec fn wrong_code_shown(events: Seq<LoginEvent>) -> bool {
    &&& events.len() == 7
    &&& password_shown(events)
    &&& user_of(events).mfa_enrolled
    &&& events[3] == LoginEvent::CodeChecked(false)
    &&& events[4] is CodeHashed
    &&& events[5] == LoginEvent::CodeRedeemed(Ok(false))
    &&& events[6] matches LoginEvent::FailureRecorded(Ok(_))
}

/// What the events so far must have been, given where a login stands.
spec fn trace(
    email: String,
    state: LoginState,
    action: LoginAction,
    events: Seq<LoginEvent>,
) -> bool {
    let n = events.len() as int;
    match state {
        LoginState::CheckingLockout { email: submitted, .. } => n == 0 && submitted == email,
        LoginState::FindingUser { email: submitted, .. } => n == 1 && submitted == email
            && events[0] == LoginEvent::LockoutChecked(Ok(LoginAttemptState::Allowed)),
        LoginState::VerifyingPassword { email: submitted, found, .. } => {
            &&& n == 2
            &&& submitted == email
            &&& events[0] == LoginEvent::LockoutChecked(Ok(LoginAttemptState::Allowed))
            &&& found matches Some(account) ==> {
                &&& events[1] matches LoginEvent::UserFound(Ok(Some(_)))
                &&& account.mfa_enrolled == user_of(events).mfa_enrolled
            }
        },
        LoginState::RecordingFailure { outcome } => action == (LoginAction::RecordFailure { email })
            && outcome !is Tokens,
        LoginState::CheckingCode { email: submitted, .. } => {
            &&& n == 3
            &&& submitted == email
            &&& password_shown(events)
            &&& user_of(events).mfa_enrolled
        },
        LoginState::HashingCode { email: submitted, .. } => {
            &&& n == 4
            &&& submitted == email
            &&& password_shown(events)
            &&& user_of(events).mfa_enrolled
            &&& events[3] == LoginEvent::CodeChecked(false)
        },
        LoginState::RedeemingCode { email: submitted, .. } => {
            &&& n == 5
            &&& submitted == email
            &&& password_shown(events)
            &&& user_of(events).mfa_enrolled
            &&& events[3] == LoginEvent::CodeChecked(false)
            &&& events[4] is CodeHashed
        },
        LoginState::ValidatingProof { email: submitted, .. } => submitted == email
            && both_factors_shown(events, n),
        LoginState::RecordingProof { email: submitted, .. } => {
            &&& submitted == email
            &&& both_factors_shown(events, n - 1)
            &&& events[n - 1] matches LoginEvent::ProofValidated(Ok(_))
        },
        LoginState::FinishingProof { email: submitted, .. } => {
            &&& submitted == email
            &&& both_factors_shown(events, n - 2)
            &&& events[n - 2] matches LoginEvent::ProofValidated(Ok(_))
            &&& events[n - 1] is ProofRecorded
        },
        LoginState::IssuingTokens { email: submitted, .. } => {
            &&& submitted == email
            &&& both_factors_shown(events, n - 3)
            &&& events[n - 3] matches LoginEvent::ProofValidated(Ok(_))
            &&& events[n - 2] is ProofRecorded
            &&& events[n - 1] matches LoginEvent::ProofFinished(Ok(_))
        },
        LoginState::StoringToken { email: submitted, .. } => {
            &&& submitted == email
            &&& both_factors_shown(events, n - 4)
            &&& events[n - 4] matches LoginEvent::ProofValidated(Ok(_))
            &&& events[n - 3] is ProofRecorded
            &&& events[n - 2] matches LoginEvent::ProofFinished(Ok(_))
            &&& events[n - 1] matches LoginEvent::TokensIssued(Ok(_))
        },
        LoginState::ResettingAttempts { .. } => {
            &&& action == (LoginAction::ResetAttempts { email })
            &&& both_factors_shown(events, n - 5)
            &&& proof_shown(events, n - 5)
        },
        LoginState::Finished => action matches LoginAction::Respond(outcome) && (outcome is Tokens
            ==> login_granted(events)),
    }
}

/// Adding an event keeps what the earlier ones show.
proof fn prefix_shows(events: Seq<LoginEvent>)
    requires
        events.len() > 0,
    ensures
        password_shown(events.drop_last()) ==> password_shown(events) && user_of(events) == user_of(
            events.drop_last(),
        ),
        forall|k: int| #[trigger]
            both_factors_shown(events.drop_last(), k) ==> both_factors_shown(events, k),
{
    let before = events.drop_last();
    assert(forall|i: int| 0 <= i < before.len() ==> #[trigger] before[i] == events[i]);
}

/// Every run has the events that its state tells.
proof fn runs_are_traced(
    email: String,
    password: String,
    mfa_code: String,
    events: Seq<LoginEvent>,
)
    ensures
        ({
            let run = login_run(login_begun(email, password, mfa_code), events);
            trace(email, run.0, run.1, events)
        }),
    decreases events.len(),
{
    if events.len() > 0 {
        let before = events.drop_last();
        runs_are_traced(email, password, mfa_code, before);
        prefix_shows(events);
        let run = login_run(login_begun(email, password, mfa_code), before);
        let event = events.last();
        let next = login_next(run.0, event);
        let n = before.len() as int;
        assert(events[n] == event);
        assert(forall|i: int| 0 <= i < n ==> #[trigger] before[i] == events[i]);
        match run.0 {
            LoginState::StoringToken { .. } => {
                assert(both_factors_shown(events, n - 4));
            },
            LoginState::ResettingAttempts { .. } => {
                assert(both_factors_shown(events, n - 5));
                assert(proof_shown(events, n - 5));
            },
            _ => {},
        }
    }
}

/// What is to happen after the first `i` events of a login.
pub open spec fn action_after(
    email: String,
    password: String,
    mfa_code: String,
    events: Seq<LoginEvent>,
    i: int,
) -> LoginAction {
    login_run(login_begun(email, password, mfa_code), events.take(i)).1
}

/// A run is made of steps.
proof fn run_steps(from: (LoginState, LoginAction), events: Seq<LoginEvent>, i: int)
    requires
        0 <= i < events.len(),
    ensures
        login_run(from, events.take(i + 1)) == login_next(
            login_run(from, events.take(i)).0,
            events[i],
        ),
{
    assert(events.take(i + 1).drop_last() =~= events.take(i));
    assert(events.take(i + 1).last() == events[i]);
}

/// A login that is granted has checked the account it serves at every point:
/// the password against that account's hash, the code against its secret or
/// its recovery codes, the proof against the request. Its tokens are made for
/// that account's user id and the key of the proof, and the refresh token is
/// kept, by its hash, for that account and that key. Last of all the failures
/// of the submitted address are cleared.
pub proof fn granted_login_serves_its_account(
    email: String,
    password: String,
    mfa_code: String,
    events: Seq<LoginEvent>,
)
    requires
        login_granted(events),
    ensures
        ({
            let user = user_of(events);
            let k = events.len() - 6;
            let pending = events[k]->ProofValidated_0->Ok_0;
            let proof = events[k + 2]->ProofFinished_0->Ok_0;
            let tokens = events[k + 3]->TokensIssued_0->Ok_0;
            &&& action_after(email, password, mfa_code, events, 0) == (LoginAction::CheckLockout {
                email,
            })
            &&& action_after(email, password, mfa_code, events, 1) == (LoginAction::FindUser {
                email,
            })
            &&& action_after(email, password, mfa_code, events, 2) == LoginAction::Compute(
                LoginTask::VerifyPassword { password, password_hash: Some(user.password_hash) },
            )
            &&& action_after(email, password, mfa_code, events, 3) == LoginAction::Compute(
                LoginTask::CheckCode {
                    secret: user.mfa_secret,
                    account_email: user.email,
                    code: mfa_code,
                },
            )
            &&& k == 6 ==> action_after(email, password, mfa_code, events, 4)
                == LoginAction::Compute(LoginTask::HashCode { code: mfa_code })
            &&& k == 6 ==> action_after(email, password, mfa_code, events, 5)
                == (LoginAction::RedeemCode {
                user_email: user.email,
                code_hash: events[4]->CodeHashed_0,
            })
            &&& action_after(email, password, mfa_code, events, k) == LoginAction::Compute(
                LoginTask::ValidateProof,
            )
            &&& action_after(email, password, mfa_code, events, k + 1) == (LoginAction::RecordProof {
                jti: pending.proof.jti,
                expires_at: pending.expires_at,
            })
            &&& action_after(email, password, mfa_code, events, k + 2) == LoginAction::Compute(
                LoginTask::FinishProof {
                    proof: pending.proof,
                    insertion: events[k + 1]->ProofRecorded_0,
                },
            )
            &&& action_after(email, password, mfa_code, events, k + 3) == LoginAction::Compute(
                LoginTask::IssueTokens { user_id: user.user_id, jkt: proof.jkt },
            )
            &&& action_after(email, password, mfa_code, events, k + 4) == (LoginAction::StoreToken {
                new_token: NewRefreshToken { user_email: user.email, jkt: proof.jkt },
                token_hash: tokens.refresh_token_hash,
            })
            &&& action_after(email, password, mfa_code, events, k + 5)
                == (LoginAction::ResetAttempts { email })
            &&& action_after(email, password, mfa_code, events, k + 6) == LoginAction::Respond(
                LoginOutcome::Tokens {
                    access_token: tokens.access_token,
                    refresh_token: tokens.refresh_token,
                },
            )
        }),
{
    let from = login_begun(email, password, mfa_code);
    let k = events.len() - 6;
    assert(events.take(0) =~= Seq::empty());
    run_steps(from, events, 0);
    run_steps(from, events, 1);
    run_steps(from, events, 2);
    run_steps(from, events, 3);
    if k == 6 {
        run_steps(from, events, 4);
        run_steps(from, events, 5);
    }
    run_steps(from, events, k);
    run_steps(from, events, k + 1);
    run_steps(from, events, k + 2);
    run_steps(from, events, k + 3);
    run_steps(from, events, k + 4);
    run_steps(from, events, k + 5);
}

/// Tokens are handed out exactly to a login that was not locked out, for an
/// enrolled account, with its password, a good code and a valid, new proof,
/// where they could be made and stored.
pub proof fn tokens_need_every_factor(
    email: String,
    password: String,
    mfa_code: String,
    events: Seq<LoginEvent>,
)
    ensures
        (login_run(login_begun(email, password, mfa_code), events).1 matches LoginAction::Respond(
            outcome,
        ) && outcome is Tokens) <==> login_granted(events),
{
    runs_are_traced(email, password, mfa_code, events);
    let run = login_run(login_begun(email, password, mfa_code), events);
    if run.1 is Respond {
        assert(run.0 is Finished) by {
            only_finished_responds(email, password, mfa_code, events);
        }
    }
    if login_granted(events) {
        granted_login_serves_its_account(email, password, mfa_code, events);
        assert(events.take(events.len() as int) =~= events);
    }
}

/// A response is the end.
proof fn only_finished_responds(
    email: String,
    password: String,
    mfa_code: String,
    events: Seq<LoginEvent>,
)
    ensures
        ({
            let run = login_run(login_begun(email, password, mfa_code), events);
            run.1 is Respond ==> run.0 is Finished
        }),
{
}

/// A locked address is turned away before its credentials are looked at.
pub proof fn lockout_comes_first(
    email: String,
    password: String,
    mfa_code: String,
    retry_after: Timestamp,
)
    ensures
        login_begun(email, password, mfa_code).1 == (LoginAction::CheckLockout { email }),
        login_next(
            login_begun(email, password, mfa_code).0,
            LoginEvent::LockoutChecked(Ok(LoginAttemptState::Locked { retry_after })),
        ) == ended(LoginOutcome::Locked { retry_after }),
{
}

/// A wrong password for an account and any password for an unknown address
/// cannot be told apart: in both cases a password is verified, which takes a
/// hash to do, and then the login stands at the same point, with the same
/// failure to count and the same response to give. What is kept of the
/// account's password has to be a hash at all.
pub proof fn rejection_hides_whether_an_account_exists(
    service: AuthService,
    request: RequestContext,
    email: String,
    password: String,
    mfa_code: String,
    user: User,
    known_event: LoginEvent,
    unknown_event: LoginEvent,
)
    requires
        service.valid(),
        is_hash_text(user.password_hash@),
        password_fits(password@, user.password_hash@) != Some(true),
        task_yields(
            service,
            request,
            LoginTask::VerifyPassword { password, password_hash: Some(user.password_hash) },
            known_event,
        ),
        task_yields(
            service,
            request,
            LoginTask::VerifyPassword { password, password_hash: None },
            unknown_event,
        ),
    ensures
        ({
            let found = LoginState::FindingUser { email, password, mfa_code };
            let unknown = login_next(found, LoginEvent::UserFound(Ok(None)));
            let known = login_next(found, LoginEvent::UserFound(Ok(Some(user))));
            &&& unknown.1 == LoginAction::Compute(
                LoginTask::VerifyPassword { password, password_hash: None },
            )
            &&& known.1 == LoginAction::Compute(
                LoginTask::VerifyPassword { password, password_hash: Some(user.password_hash) },
            )
            &&& login_next(known.0, known_event) == failed(email, LoginOutcome::InvalidCredentials)
            &&& login_next(unknown.0, unknown_event) == failed(
                email,
                LoginOutcome::InvalidCredentials,
            )
        }),
{
}

/// A rejected credential, be it the password or the code, has been counted
/// against the one budget of the submitted address.
pub proof fn rejections_are_counted(
    email: String,
    password: String,
    mfa_code: String,
    events: Seq<LoginEvent>,
)
    requires
        login_run(login_begun(email, password, mfa_code), events).1 matches LoginAction::Respond(
            outcome,
        ) && (outcome is InvalidCredentials || outcome is MfaCodeInvalid),
    ensures
        events.len() > 0,
        login_run(login_begun(email, password, mfa_code), events.drop_last()).1
            == (LoginAction::RecordFailure { email }),
{
    runs_are_traced(email, password, mfa_code, events.drop_last());
}

/// The proof is not looked at before both factors have been shown.
pub proof fn proof_comes_after_both_factors(
    email: String,
    password: String,
    mfa_code: String,
    events: Seq<LoginEvent>,
)
    requires
        login_run(login_begun(email, password, mfa_code), events).1 == LoginAction::Compute(
            LoginTask::ValidateProof,
        ),
    ensures
        both_factors_shown(events, events.len() as int),
{
    runs_are_traced(email, password, mfa_code, events);
    if events.len() > 0 {
        runs_are_traced(email, password, mfa_code, events.drop_last());
    }
}

/// A live code of the account's secret is accepted: one that was made in the
/// step that the clock shows, or in one next to it, shows the second factor.
pub proof fn live_codes_show_the_second_factor(
    email: String,
    mfa_code: String,
    identity: Identity,
    secret: Seq<u8>,
    made: u64,
    checked: u64,
)
    requires
        can_check_at(checked),
        made as int / STEP_SECONDS as int - 1 <= checked as int / STEP_SECONDS as int <= made as int
            / STEP_SECONDS as int + 1,
        mfa_code@ == code_at(secret, made),
    ensures
        login_next(
            LoginState::CheckingCode { email, mfa_code, identity },
            LoginEvent::CodeChecked(accepts_code(secret, mfa_code@, Some(checked))),
        ) == factors_shown(email, identity),
{
    made_codes_are_accepted(secret, made, checked);
}

/// An account that has not completed its enrollment cannot log in.
pub proof fn enrollment_is_mandatory(
    email: String,
    password: String,
    mfa_code: String,
    events: Seq<LoginEvent>,
)
    requires
        password_shown(events),
        !user_of(events).mfa_enrolled,
    ensures
        !(login_run(login_begun(email, password, mfa_code), events).1 matches LoginAction::Respond(
            outcome,
        ) && outcome is Tokens),
        events.len() == 3 ==> login_run(login_begun(email, password, mfa_code), events) == ended(
            LoginOutcome::MfaNotEnrolled,
        ),
{
    tokens_need_every_factor(email, password, mfa_code, events);
    if events.len() == 3 {
        let from = login_begun(email, password, mfa_code);
        assert(events.take(0) =~= Seq::empty());
        run_steps(from, events, 0);
        run_steps(from, events, 1);
        run_steps(from, events, 2);
        assert(events.take(3) =~= events);
    }
}

/// The tokens of a granted login are sound: the access token names the
/// account's user id and the key of the proof, and is accepted until it
/// expires; of the refresh token only the hash is stored.
pub proof fn granted_tokens_are_sound(
    service: AuthService,
    request: RequestContext,
    events: Seq<LoginEvent>,
)
    requires
        login_granted(events),
        task_yields(
            service,
            request,
            LoginTask::IssueTokens {
                user_id: user_of(events).user_id,
                jkt: events[events.len() - 4]->ProofFinished_0->Ok_0.jkt,
            },
            events[events.len() - 3],
        ),
    ensures
        ({
            let tokens = events[events.len() - 3]->TokensIssued_0->Ok_0;
            let jkt = events[events.len() - 4]->ProofFinished_0->Ok_0.jkt;
            &&& exists|claims: JwtClaimsView| #[trigger]
                service.jwt.issued_to(
                    tokens.access_token@,
                    claims,
                    user_of(events).user_id@,
                    jkt@,
                )
            &&& tokens.refresh_token_hash@ == token_hash(tokens.refresh_token@)
            &&& is_opaque_token(tokens.refresh_token@, REFRESH_TOKEN_BYTE_LEN as nat)
        }),
{
}

/// The failures of an address are cleared by a login that is granted and by no
/// other: both factors and the proof have been shown, and the tokens are
/// stored.
pub proof fn only_granted_logins_clear_failures(
    email: String,
    password: String,
    mfa_code: String,
    events: Seq<LoginEvent>,
)
    requires
        login_run(login_begun(email, password, mfa_code), events).1 is ResetAttempts,
    ensures
        login_run(login_begun(email, password, mfa_code), events).1 == (LoginAction::ResetAttempts {
            email,
        }),
        both_factors_shown(events, events.len() - 5),
        proof_shown(events, events.len() - 5),
{
    runs_are_traced(email, password, mfa_code, events);
    actions_fit_states(email, password, mfa_code, events);
}

/// What an event makes of the failures that are kept for an address, given the
/// action that it answers.
pub open spec fn attempts_next(
    record: Option<LoginAttemptRecord>,
    email: String,
    action: LoginAction,
    event: LoginEvent,
    now: Timestamp,
) -> Option<LoginAttemptRecord> {
    match (action, event) {
        (LoginAction::RecordFailure { email: counted }, LoginEvent::FailureRecorded(Ok(_))) if counted
            == email => Some(after_failure(record, now)),
        (LoginAction::ResetAttempts { email: cleared }, LoginEvent::AttemptsReset(Ok(_))) if cleared
            == email => None,
        _ => record,
    }
}

/// What is kept of the failures for an address after a login for it at that
/// time.
pub open spec fn attempts_after_login(
    record: Option<LoginAttemptRecord>,
    email: String,
    password: String,
    mfa_code: String,
    events: Seq<LoginEvent>,
    now: Timestamp,
) -> Option<LoginAttemptRecord>
    decreases events.len(),
{
    if events.len() == 0 {
        record
    } else {
        attempts_next(
            attempts_after_login(record, email, password, mfa_code, events.drop_last(), now),
            email,
            login_run(login_begun(email, password, mfa_code), events.drop_last()).1,
            events.last(),
            now,
        )
    }
}

/// A failure is only counted, and failures are only cleared, in the state that
/// waits for it.
proof fn actions_fit_states(
    email: String,
    password: String,
    mfa_code: String,
    events: Seq<LoginEvent>,
)
    ensures
        ({
            let run = login_run(login_begun(email, password, mfa_code), events);
            &&& run.1 is RecordFailure ==> run.0 is RecordingFailure
            &&& run.1 is ResetAttempts ==> run.0 is ResettingAttempts
        }),
{
}

/// Before its last step a login leaves the failures alone.
proof fn unfinished_logins_change_nothing(
    record: Option<LoginAttemptRecord>,
    email: String,
    password: String,
    mfa_code: String,
    events: Seq<LoginEvent>,
    now: Timestamp,
)
    requires
        login_run(login_begun(email, password, mfa_code), events).0 !is Finished,
    ensures
        attempts_after_login(record, email, password, mfa_code, events, now) == record,
    decreases events.len(),
{
    if events.len() > 0 {
        let before = events.drop_last();
        unfinished_logins_change_nothing(record, email, password, mfa_code, before, now);
        actions_fit_states(email, password, mfa_code, before);
    }
}

/// Holds of the events of a login whose credentials, be it the password or the
/// code, were rejected, and whose failure was counted.
pub open spec fn rejected(
    email: String,
    password: String,
    mfa_code: String,
    events: Seq<LoginEvent>,
) -> bool {
    &&& login_run(login_begun(email, password, mfa_code), events).1 matches LoginAction::Respond(
        outcome,
    ) && (outcome is InvalidCredentials || outcome is MfaCodeInvalid)
    &&& events.last() matches LoginEvent::FailureRecorded(Ok(_))
}

/// A rejected login adds exactly one failure to what is kept for the address,
/// and clears nothing.
pub proof fn rejections_count_once(
    record: Option<LoginAttemptRecord>,
    email: String,
    password: String,
    mfa_code: String,
    events: Seq<LoginEvent>,
    now: Timestamp,
)
    requires
        rejected(email, password, mfa_code, events),
    ensures
        attempts_after_login(record, email, password, mfa_code, events, now) == Some(
            after_failure(record, now),
        ),
{
    rejections_are_counted(email, password, mfa_code, events);
    actions_fit_states(email, password, mfa_code, events.drop_last());
    unfinished_logins_change_nothing(record, email, password, mfa_code, events.drop_last(), now);
}

/// The right password with a wrong code is rejected and counted.
pub proof fn wrong_codes_are_rejected(
    email: String,
    password: String,
    mfa_code: String,
    events: Seq<LoginEvent>,
)
    requires
        wrong_code_shown(events),
    ensures
        login_run(login_begun(email, password, mfa_code), events) == ended(
            LoginOutcome::MfaCodeInvalid,
        ),
        rejected(email, password, mfa_code, events),
        forall|i: int|
            0 <= i <= 7 ==> (#[trigger] action_after(
                email,
                password,
                mfa_code,
                events,
                i,
            )) !is ResetAttempts,
{
    let from = login_begun(email, password, mfa_code);
    assert(events.take(0) =~= Seq::empty());
    run_steps(from, events, 0);
    run_steps(from, events, 1);
    run_steps(from, events, 2);
    run_steps(from, events, 3);
    run_steps(from, events, 4);
    run_steps(from, events, 5);
    run_steps(from, events, 6);
    assert(events.take(7) =~= events);
    assert forall|i: int| 0 <= i <= 7 implies (#[trigger] action_after(
        email,
        password,
        mfa_code,
        events,
        i,
    )) !is ResetAttempts by {
        assert(i == 0 || i == 1 || i == 2 || i == 3 || i == 4 || i == 5 || i == 6 || i == 7);
    }
}

/// A login as it went.
pub struct LoginHistory {
    pub password: String,
    pub mfa_code: String,
    pub events: Seq<LoginEvent>,
}

/// What is kept of the failures for an address after logins for it, one at
/// each time.
pub open spec fn attempts_after_logins(
    record: Option<LoginAttemptRecord>,
    email: String,
    logins: Seq<LoginHistory>,
    times: Seq<Timestamp>,
) -> Option<LoginAttemptRecord>
    decreases logins.len(),
{
    if logins.len() == 0 {
        record
    } else {
        let login = logins.last();
        attempts_after_login(
            attempts_after_logins(record, email, logins.drop_last(), times.drop_last()),
            email,
            login.password,
            login.mfa_code,
            login.events,
            times.last(),
        )
    }
}

/// Rejected logins are counted one by one, whether the password or the code
/// was wrong.
proof fn rejected_logins_add_up(email: String, logins: Seq<LoginHistory>, times: Seq<Timestamp>)
    requires
        logins.len() == times.len(),
        forall|i: int|
            0 <= i < logins.len() ==> rejected(
                email,
                (#[trigger] logins[i]).password,
                logins[i].mfa_code,
                logins[i].events,
            ),
    ensures
        attempts_after_logins(None, email, logins, times) == after_failures(times),
    decreases logins.len(),
{
    if logins.len() > 0 {
        let earlier = logins.drop_last();
        assert(forall|i: int| 0 <= i < earlier.len() ==> #[trigger] earlier[i] == logins[i]);
        rejected_logins_add_up(email, earlier, times.drop_last());
        let login = logins[logins.len() - 1];
        rejections_count_once(
            attempts_after_logins(None, email, earlier, times.drop_last()),
            email,
            login.password,
            login.mfa_code,
            login.events,
            times.last(),
        );
    }
}

/// Wrong passwords and wrong codes share one budget: as many rejected logins
/// as the threshold names, within one window, lock the address out, and the
/// next login is turned away for as long as the lockout lasts.
pub proof fn rejected_logins_lock_out(
    email: String,
    logins: Seq<LoginHistory>,
    times: Seq<Timestamp>,
    password: String,
    mfa_code: String,
    now: Timestamp,
)
    requires
        logins.len() == times.len(),
        times.len() == LOGIN_FAILURE_THRESHOLD,
        within_one_window(times),
        forall|i: int| 0 <= i < times.len() ==> (#[trigger] times[i]).valid(),
        forall|i: int|
            0 <= i < logins.len() ==> rejected(
                email,
                (#[trigger] logins[i]).password,
                logins[i].mfa_code,
                logins[i].events,
            ),
        now.nanos < times.last().after(LOGIN_LOCKOUT_MINUTES * SECONDS_PER_MINUTE),
    ensures
        ({
            let state = checked_state(attempts_after_logins(None, email, logins, times), now);
            &&& state matches LoginAttemptState::Locked { retry_after }
            &&& retry_after.nanos == times.last().after(LOGIN_LOCKOUT_MINUTES * SECONDS_PER_MINUTE)
            &&& login_next(
                login_begun(email, password, mfa_code).0,
                LoginEvent::LockoutChecked(Ok(state)),
            ) == ended(LoginOutcome::Locked { retry_after })
        }),
{
    rejected_logins_add_up(email, logins, times);
    threshold_failures_lock_out(times);
}

/// The right password does not help with guessing codes: as many logins with a
/// wrong code as the threshold names, within one window, lock the address out.
pub proof fn wrong_codes_lock_out(
    email: String,
    logins: Seq<LoginHistory>,
    times: Seq<Timestamp>,
    now: Timestamp,
)
    requires
        logins.len() == times.len(),
        times.len() == LOGIN_FAILURE_THRESHOLD,
        within_one_window(times),
        forall|i: int| 0 <= i < times.len() ==> (#[trigger] times[i]).valid(),
        forall|i: int| 0 <= i < logins.len() ==> wrong_code_shown((#[trigger] logins[i]).events),
        now.nanos < times.last().after(LOGIN_LOCKOUT_MINUTES * SECONDS_PER_MINUTE),
    ensures
        checked_state(attempts_after_logins(None, email, logins, times), now) is Locked,
{
    assert forall|i: int| 0 <= i < logins.len() implies rejected(
        email,
        (#[trigger] logins[i]).password,
        logins[i].mfa_code,
        logins[i].events,
    ) by {
        wrong_codes_are_rejected(
            email,
            logins[i].password,
            logins[i].mfa_code,
            logins[i].events,
        );
    }
    rejected_logins_lock_out(email, logins, times, email, email, now);
}

/// A run that is taken up again where it stood goes on as one run.
pub proof fn resumed_logins_are_runs(
    from: (LoginState, LoginAction),
    past: Seq<LoginEvent>,
    event: LoginEvent,
    events: Seq<LoginEvent>,
)
    ensures
        login_run(login_next(login_run(from, past).0, event), events) == login_run(
            from,
            past.push(event) + events,
        ),
    decreases events.len(),
{
    let whole = past.push(event) + events;
    if events.len() == 0 {
        assert(whole =~= past.push(event));
        assert(past.push(event).drop_last() =~= past);
    } else {
        resumed_logins_are_runs(from, past, event, events.drop_last());
        assert(whole.drop_last() =~= past.push(event) + events.drop_last());
        assert(whole.last() == events.last());
    }
}

} // verus!
