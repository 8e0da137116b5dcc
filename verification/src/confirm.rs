//! The confirmation of a second factor: an account can be used for login once
//! a first code has been shown. The recovery codes are handed out with it.
use vstd::prelude::*;

use crate::error::{
    error_response, internal_error, is_plain_error, success_response, ApiResponse, ResponseBody,
    BAD_REQUEST, INTERNAL_SERVER_ERROR, OK,
};
use crate::register::{are_recovery_codes, make_recovery_codes, ConfirmRequest, ConfirmResponse};
use crate::store::StoreError;
use crate::text::{lowercase, normalize_email, normalized_email, trimmed};
use crate::time::clock_read;
use crate::totp::{accepts_code, check_code, totp_usable};
use crate::user::User;

verus! {

/// Where a confirmation stands.
pub enum ConfirmState {
    FindingUser { email: String, mfa_code: String },
    CheckingCode { email: String },
    MakingCodes { email: String },
    Confirming { email: String, recovery_codes: Vec<String> },
    Finished,
}

/// What has happened since the last step.
pub enum ConfirmEvent {
    UserFound(Result<Option<User>, StoreError>),
    CodeChecked(bool),
    /// Recovery codes have been made, in clear and hashed.
    CodesMade { codes: Vec<String>, hashes: Vec<String> },
    EnrollmentConfirmed(Result<User, StoreError>),
}

/// Work that needs no store.
pub enum ConfirmTask {
    CheckCode { secret: Vec<u8>, account_email: String, code: String },
    MakeCodes,
}

/// What is to happen next.
pub enum ConfirmAction {
    FindUser { email: String },
    ConfirmEnrollment { email: String, recovery_code_hashes: Vec<String> },
    Compute(ConfirmTask),
    Respond(ConfirmOutcome),
}

/// How a confirmation ends.
pub enum ConfirmOutcome {
    /// The address is unknown, the account was confirmed before, or the code
    /// is wrong; the caller is not told which.
    Invalid,
    InternalError,
    Confirmed { email: String, recovery_codes: Vec<String> },
}

/// The end of a confirmation.
pub open spec fn confirm_ended(outcome: ConfirmOutcome) -> (ConfirmState, ConfirmAction) {
    (ConfirmState::Finished, ConfirmAction::Respond(outcome))
}

/// The first step of a confirmation: find the account.
pub open spec fn confirm_begun(email: String, mfa_code: String) -> (ConfirmState, ConfirmAction) {
    (ConfirmState::FindingUser { email, mfa_code }, ConfirmAction::FindUser { email })
}

/// The next step of a confirmation.
pub open spec fn confirm_next(
    state: ConfirmState,
    event: ConfirmEvent,
) -> (ConfirmState, ConfirmAction) {
    match (state, event) {
        (ConfirmState::FindingUser { email, mfa_code }, ConfirmEvent::UserFound(found)) => match found {
            Ok(Some(user)) => if user.mfa_enrolled {
                confirm_ended(ConfirmOutcome::Invalid)
            } else {
                (
                    ConfirmState::CheckingCode { email },
                    ConfirmAction::Compute(
                        ConfirmTask::CheckCode {
                            secret: user.mfa_secret,
                            account_email: email,
                            code: mfa_code,
                        },
                    ),
                )
            },
            Ok(None) => confirm_ended(ConfirmOutcome::Invalid),
            Err(_) => confirm_ended(ConfirmOutcome::InternalError),
        },
        (ConfirmState::CheckingCode { email }, ConfirmEvent::CodeChecked(accepted)) => if accepted {
            (
                ConfirmState::MakingCodes { email },
                ConfirmAction::Compute(ConfirmTask::MakeCodes),
            )
        } else {
            confirm_ended(ConfirmOutcome::Invalid)
        },
        (ConfirmState::MakingCodes { email }, ConfirmEvent::CodesMade { codes, hashes }) => (
            ConfirmState::Confirming { email, recovery_codes: codes },
            ConfirmAction::ConfirmEnrollment { email, recovery_code_hashes: hashes },
        ),
        (
            ConfirmState::Confirming { email, recovery_codes },
            ConfirmEvent::EnrollmentConfirmed(confirmed),
        ) => match confirmed {
            Ok(_) => confirm_ended(ConfirmOutcome::Confirmed { email, recovery_codes }),
            Err(StoreError::MfaAlreadyEnrolled) => confirm_ended(ConfirmOutcome::Invalid),
            Err(StoreError::NotFound) => confirm_ended(ConfirmOutcome::Invalid),
            Err(_) => confirm_ended(ConfirmOutcome::InternalError),
        },
        // An event that the state does not wait for.
        _ => confirm_ended(ConfirmOutcome::InternalError),
    }
}

fn end(outcome: ConfirmOutcome) -> (r: (ConfirmState, ConfirmAction))
    ensures
        r == confirm_ended(outcome),
{
    (ConfirmState::Finished, ConfirmAction::Respond(outcome))
}

/// Begins a confirmation.
pub fn confirm_begin(request: ConfirmRequest) -> (r: (ConfirmState, ConfirmAction))
    ensures
        exists|email: String|
            email@ == normalized_email(request.email@) && r == #[trigger] confirm_begun(
                email,
                request.mfa_code,
            ),
        r.1 matches ConfirmAction::FindUser { email } && email@ == lowercase(
            trimmed(request.email@),
        ),
{
    let email = normalize_email(request.email.as_str());
    let r = (
        ConfirmState::FindingUser { email: email.clone(), mfa_code: request.mfa_code },
        ConfirmAction::FindUser { email: email.clone() },
    );
    assert(r == confirm_begun(email, request.mfa_code));
    r
}

/// Takes the next step of a confirmation.
pub fn confirm_step(state: ConfirmState, event: ConfirmEvent) -> (r: (ConfirmState, ConfirmAction))
    ensures
        r == confirm_next(state, event),
{
    match (state, event) {
        (ConfirmState::FindingUser { email, mfa_code }, ConfirmEvent::UserFound(found)) => match found {
            Ok(Some(user)) => {
                if user.mfa_enrolled {
                    return end(ConfirmOutcome::Invalid);
                }
                let task = ConfirmTask::CheckCode {
                    secret: user.mfa_secret,
                    account_email: email.clone(),
                    code: mfa_code,
                };
                (ConfirmState::CheckingCode { email }, ConfirmAction::Compute(task))
            },
            Ok(None) => end(ConfirmOutcome::Invalid),
            Err(_) => end(ConfirmOutcome::InternalError),
        },
        (ConfirmState::CheckingCode { email }, ConfirmEvent::CodeChecked(accepted)) => {
            if accepted {
                (
                    ConfirmState::MakingCodes { email },
                    ConfirmAction::Compute(ConfirmTask::MakeCodes),
                )
            } else {
                end(ConfirmOutcome::Invalid)
            }
        },
        (ConfirmState::MakingCodes { email }, ConfirmEvent::CodesMade { codes, hashes }) => {
            let action = ConfirmAction::ConfirmEnrollment {
                email: email.clone(),
                recovery_code_hashes: hashes,
            };
            (ConfirmState::Confirming { email, recovery_codes: codes }, action)
        },
        (
            ConfirmState::Confirming { email, recovery_codes },
            ConfirmEvent::EnrollmentConfirmed(confirmed),
        ) => match confirmed {
            Ok(_) => end(ConfirmOutcome::Confirmed { email, recovery_codes }),
            Err(StoreError::MfaAlreadyEnrolled) => end(ConfirmOutcome::Invalid),
            Err(StoreError::NotFound) => end(ConfirmOutcome::Invalid),
            Err(_) => end(ConfirmOutcome::InternalError),
        },
        _ => end(ConfirmOutcome::InternalError),
    }
}

/// Holds of the events that performing a task may give.
pub open spec fn confirm_task_yields(task: ConfirmTask, event: ConfirmEvent) -> bool {
    match task {
        ConfirmTask::CheckCode { secret, code, .. } => exists|clock: Option<u64>|
            clock_read(clock) && event == ConfirmEvent::CodeChecked(
                #[trigger] accepts_code(secret@, code@, clock),
            ),
        ConfirmTask::MakeCodes => event matches ConfirmEvent::CodesMade { codes, hashes }
            && are_recovery_codes(codes@, hashes@),
    }
}

/// Holds of a task that can be performed.
pub open spec fn confirm_task_ready(task: ConfirmTask) -> bool {
    task matches ConfirmTask::CheckCode { secret, account_email, .. } ==> totp_usable(
        secret@,
        account_email@,
    )
}

/// Performs a task.
pub fn perform_confirm_task(task: ConfirmTask) -> (r: ConfirmEvent)
    requires
        confirm_task_ready(task),
    ensures
        confirm_task_yields(task, r),
{
    match task {
        ConfirmTask::CheckCode { secret, account_email, code } => ConfirmEvent::CodeChecked(
            check_code(&secret, account_email.as_str(), code.as_str()),
        ),
        ConfirmTask::MakeCodes => {
            let (codes, hashes) = make_recovery_codes();
            ConfirmEvent::CodesMade { codes, hashes }
        },
    }
}

/// Where a confirmation stands after events that follow on a step.
pub open spec fn confirm_run(
    from: (ConfirmState, ConfirmAction),
    events: Seq<ConfirmEvent>,
) -> (ConfirmState, ConfirmAction)
    decreases events.len(),
{
    if events.len() == 0 {
        from
    } else {
        confirm_next(confirm_run(from, events.drop_last()).0, events.last())
    }
}

/// Holds of an event that comes of a task which was due.
pub open spec fn confirm_computed(due: ConfirmAction, event: ConfirmEvent) -> bool {
    match due {
        ConfirmAction::Compute(task) => confirm_task_yields(task, event),
        _ => false,
    }
}

/// Holds of events that all come of tasks, each of the one that was due.
pub open spec fn confirm_computed_run(
    from: (ConfirmState, ConfirmAction),
    events: Seq<ConfirmEvent>,
) -> bool {
    forall|i: int|
        0 <= i < events.len() ==> confirm_computed(
            confirm_run(from, events.take(i)).1,
            #[trigger] events[i],
        )
}

/// One more task adds one more event.
proof fn confirm_computed_run_extends(
    from: (ConfirmState, ConfirmAction),
    events: Seq<ConfirmEvent>,
    event: ConfirmEvent,
)
    requires
        confirm_computed_run(from, events),
        confirm_computed(confirm_run(from, events).1, event),
    ensures
        confirm_computed_run(from, events.push(event)),
        confirm_run(from, events.push(event)) == confirm_next(confirm_run(from, events).0, event),
{
    let longer = events.push(event);
    assert(longer.drop_last() =~= events);
    assert forall|i: int| 0 <= i < longer.len() implies confirm_computed(
        confirm_run(from, longer.take(i)).1,
        #[trigger] longer[i],
    ) by {
        assert(longer.take(i) =~= events.take(i));
        if i == events.len() {
            assert(events.take(i) =~= events);
        } else {
            assert(longer[i] == events[i]);
        }
    }
}

/// How many steps a confirmation has before it at most.
pub open spec fn confirm_steps_left(state: ConfirmState) -> nat {
    match state {
        ConfirmState::FindingUser { .. } => 4,
        ConfirmState::CheckingCode { .. } => 3,
        ConfirmState::MakingCodes { .. } => 2,
        ConfirmState::Confirming { .. } => 1,
        ConfirmState::Finished => 0,
    }
}

/// Holds of a state and an event with which a confirmation can go on: an
/// account that is not enrolled has a secret that codes can be made from.
pub open spec fn confirm_ready(state: ConfirmState, event: ConfirmEvent) -> bool {
    match (state, event) {
        (ConfirmState::FindingUser { email, .. }, ConfirmEvent::UserFound(Ok(Some(user)))) =>
            !user.mfa_enrolled ==> totp_usable(user.mfa_secret@, email@),
        _ => true,
    }
}

/// Every step that is not the last brings a confirmation closer to its end.
proof fn confirm_makes_progress(state: ConfirmState, event: ConfirmEvent)
    ensures
        ({
            let next = confirm_next(state, event);
            &&& next.1 is Compute ==> next.0 !is Finished && next.0 !is FindingUser
            &&& state !is Finished ==> confirm_steps_left(next.0) < confirm_steps_left(state)
            &&& confirm_ready(state, event) ==> (next.1 matches ConfirmAction::Compute(task)
                ==> confirm_task_ready(task))
            &&& state !is FindingUser ==> confirm_ready(state, event)
        }),
{
}

/// Goes on with a confirmation after an event, up to the next store call or
/// the response.
pub fn confirm_resume(state: ConfirmState, event: ConfirmEvent) -> (r: (
    ConfirmState,
    ConfirmAction,
))
    requires
        confirm_ready(state, event),
    ensures
        r.1 !is Compute,
        exists|events: Seq<ConfirmEvent>|
            confirm_computed_run(confirm_next(state, event), events) && r
                == #[trigger] confirm_run(confirm_next(state, event), events),
{
    let ghost from = confirm_next(state, event);
    let ghost mut events: Seq<ConfirmEvent> = Seq::empty();
    proof {
        confirm_makes_progress(state, event);
    }
    let (mut current, mut action) = confirm_step(state, event);
    loop
        invariant
            from == confirm_next(state, event),
            (current, action) == confirm_run(from, events),
            confirm_computed_run(from, events),
            action is Compute ==> current !is Finished && current !is FindingUser,
            action matches ConfirmAction::Compute(task) ==> confirm_task_ready(task),
        decreases confirm_steps_left(current),
    {
        match action {
            ConfirmAction::Compute(task) => {
                let outcome = perform_confirm_task(task);
                proof {
                    confirm_computed_run_extends(from, events, outcome);
                    confirm_makes_progress(current, outcome);
                    events = events.push(outcome);
                }
                let next = confirm_step(current, outcome);
                current = next.0;
                action = next.1;
            },
            other => {
                return (current, other);
            },
        }
    }
}

/// The response to a confirmation that is refused, for whatever reason.
pub fn invalid_confirmation_response() -> (r: ApiResponse)
    ensures
        is_plain_error(r, BAD_REQUEST, "invalid_confirmation"@, "invalid email or MFA code"@),
{
    error_response(BAD_REQUEST, "invalid_confirmation", "invalid email or MFA code")
}

/// Holds of the response to a confirmation that ended so.
pub open spec fn answers_confirm(outcome: ConfirmOutcome, response: ApiResponse) -> bool {
    match outcome {
        ConfirmOutcome::Invalid => is_plain_error(
            response,
            BAD_REQUEST,
            "invalid_confirmation"@,
            "invalid email or MFA code"@,
        ),
        ConfirmOutcome::InternalError => is_plain_error(
            response,
            INTERNAL_SERVER_ERROR,
            "internal_error"@,
            "failed to process confirmation"@,
        ),
        ConfirmOutcome::Confirmed { email, recovery_codes } => {
            &&& response.status == OK
            &&& response.retry_after is None
            &&& response.body matches ResponseBody::Confirmed(confirmed) && confirmed.email == email
                && confirmed.recovery_codes == recovery_codes
        },
    }
}

/// The response to a confirmation.
pub fn confirm_response(outcome: ConfirmOutcome) -> (r: ApiResponse)
    ensures
        answers_confirm(outcome, r),
{
    match outcome {
        ConfirmOutcome::Invalid => invalid_confirmation_response(),
        ConfirmOutcome::InternalError => internal_error("failed to process confirmation"),
        ConfirmOutcome::Confirmed { email, recovery_codes } => success_response(
            OK,
            ResponseBody::Confirmed(ConfirmResponse { email, recovery_codes }),
        ),
    }
}

} // verus!
