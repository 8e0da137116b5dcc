//! Refresh: a refresh token and a DPoP proof, for a fresh pair of tokens.
use vstd::prelude::*;

use crate::dpop::{
    dpop_error_message, finish_dpop_proof, recorded, DpopError, DpopProof, PendingDpopProof,
};
use crate::error::{
    dpop_error_response, error_response, internal_error, is_plain_error, ApiResponse, BAD_REQUEST,
    INTERNAL_SERVER_ERROR, UNAUTHORIZED,
};
use crate::login::{is_token_response, token_response, REFRESH_TOKEN_BYTE_LEN};
use crate::random::{
    generate_opaque_token, hash_token, is_opaque_token, is_random_token, token_hash,
};
use crate::refresh_token::{RefreshTokenRecord, RefreshTokenStatus};
use crate::request::{check_proof, proof_checked, AuthService, RequestContext};
use crate::store::StoreError;
use crate::time::{seconds_read, utc_now, utc_read, Timestamp};
use crate::token::{issued_text, JwtKeys, TokenError};
use crate::user::User;

verus! {

#[derive(Debug)]
pub struct RefreshRequest {
    pub refresh_token: String,
}

/// Where a refresh stands. `presented` is the hash of the token presented.
pub enum RefreshState {
    FindingToken { presented: String },
    RevokingFamily,
    CheckingExpiry { presented: String, record: RefreshTokenRecord },
    ValidatingProof { presented: String, record: RefreshTokenRecord },
    RecordingProof { presented: String, record: RefreshTokenRecord, proof: DpopProof },
    FinishingProof { presented: String, record: RefreshTokenRecord },
    FindingUser { presented: String, jkt: String },
    MakingToken { presented: String, jkt: String, user_id: String },
    Rotating { jkt: String, user_id: String, refresh_token: String },
    IssuingToken { refresh_token: String },
    Finished,
}

/// What has happened since the last step.
pub enum RefreshEvent {
    TokenFound(Result<Option<RefreshTokenRecord>, StoreError>),
    FamilyRevoked(Result<(), StoreError>),
    ClockRead(Timestamp),
    ProofValidated(Result<PendingDpopProof, DpopError>),
    ProofRecorded(Result<(), StoreError>),
    ProofFinished(Result<DpopProof, DpopError>),
    UserFound(Result<Option<User>, StoreError>),
    TokenMade { refresh_token: String, token_hash: String },
    Rotated(Result<RefreshTokenRecord, StoreError>),
    TokenIssued(Result<String, TokenError>),
}

/// Work that needs no store.
pub enum RefreshTask {
    ReadClock,
    ValidateProof,
    FinishProof { proof: DpopProof, insertion: Result<(), StoreError> },
    MakeToken,
    IssueToken { user_id: String, jkt: String },
}

/// What is to happen next.
pub enum RefreshAction {
    FindToken { token_hash: String },
    RevokeFamily { family_id: String },
    RecordProof { jti: String, expires_at: Timestamp },
    FindUser { email: String },
    Rotate { old_token_hash: String, new_token_hash: String, jkt: String },
    Compute(RefreshTask),
    Respond(RefreshOutcome),
}

/// How a refresh ends.
pub enum RefreshOutcome {
    InvalidToken,
    Reused,
    ProofRejected(DpopError),
    InternalError,
    Tokens { access_token: String, refresh_token: String },
}

/// The end of a refresh.
pub open spec fn refresh_ended(outcome: RefreshOutcome) -> (RefreshState, RefreshAction) {
    (RefreshState::Finished, RefreshAction::Respond(outcome))
}

/// The next step of a refresh.
pub open spec fn refresh_next(
    state: RefreshState,
    event: RefreshEvent,
) -> (RefreshState, RefreshAction) {
    match (state, event) {
        (RefreshState::FindingToken { presented }, RefreshEvent::TokenFound(found)) => match found {
            Err(_) => refresh_ended(RefreshOutcome::InternalError),
            Ok(None) => refresh_ended(RefreshOutcome::InvalidToken),
            // A token that is not active has been used before.
            Ok(Some(record)) => if record.status != RefreshTokenStatus::Active {
                (
                    RefreshState::RevokingFamily,
                    RefreshAction::RevokeFamily { family_id: record.family_id },
                )
            } else {
                (
                    RefreshState::CheckingExpiry { presented, record },
                    RefreshAction::Compute(RefreshTask::ReadClock),
                )
            },
        },
        (RefreshState::RevokingFamily, RefreshEvent::FamilyRevoked(_)) => refresh_ended(
            RefreshOutcome::Reused,
        ),
        (
            RefreshState::CheckingExpiry { presented, record },
            RefreshEvent::ClockRead(now),
        ) => if record.expires_at.nanos < now.nanos {
            refresh_ended(RefreshOutcome::InvalidToken)
        } else {
            (
                RefreshState::ValidatingProof { presented, record },
                RefreshAction::Compute(RefreshTask::ValidateProof),
            )
        },
        (
            RefreshState::ValidatingProof { presented, record },
            RefreshEvent::ProofValidated(validated),
        ) => match validated {
            Ok(pending) => (
                RefreshState::RecordingProof { presented, record, proof: pending.proof },
                RefreshAction::RecordProof {
                    jti: pending.proof.jti,
                    expires_at: pending.expires_at,
                },
            ),
            Err(error) => refresh_ended(RefreshOutcome::ProofRejected(error)),
        },
        (
            RefreshState::RecordingProof { presented, record, proof },
            RefreshEvent::ProofRecorded(insertion),
        ) => (
            RefreshState::FinishingProof { presented, record },
            RefreshAction::Compute(RefreshTask::FinishProof { proof, insertion }),
        ),
        // The key must be the one that the token is bound to. Another key is
        // refused, but is no sign of theft.
        (
            RefreshState::FinishingProof { presented, record },
            RefreshEvent::ProofFinished(finished),
        ) => match finished {
            Ok(proof) => if proof.jkt@ != record.jkt@ {
                refresh_ended(RefreshOutcome::ProofRejected(DpopError::KeyMismatch))
            } else {
                (
                    RefreshState::FindingUser { presented, jkt: proof.jkt },
                    RefreshAction::FindUser { email: record.user_email },
                )
            },
            Err(error) => refresh_ended(RefreshOutcome::ProofRejected(error)),
        },
        (RefreshState::FindingUser { presented, jkt }, RefreshEvent::UserFound(found)) => match found {
            Ok(Some(user)) => (
                RefreshState::MakingToken { presented, jkt, user_id: user.user_id },
                RefreshAction::Compute(RefreshTask::MakeToken),
            ),
            _ => refresh_ended(RefreshOutcome::InternalError),
        },
        (
            RefreshState::MakingToken { presented, jkt, user_id },
            RefreshEvent::TokenMade { refresh_token, token_hash },
        ) => (
            RefreshState::Rotating { jkt, user_id, refresh_token },
            RefreshAction::Rotate {
                old_token_hash: presented,
                new_token_hash: token_hash,
                jkt,
            },
        ),
        (
            RefreshState::Rotating { jkt, user_id, refresh_token },
            RefreshEvent::Rotated(rotated),
        ) => match rotated {
            Ok(_) => (
                RefreshState::IssuingToken { refresh_token },
                RefreshAction::Compute(RefreshTask::IssueToken { user_id, jkt }),
            ),
            Err(StoreError::Reused) => refresh_ended(RefreshOutcome::Reused),
            Err(StoreError::NotFound) => refresh_ended(RefreshOutcome::InvalidToken),
            Err(StoreError::Expired) => refresh_ended(RefreshOutcome::InvalidToken),
            Err(_) => refresh_ended(RefreshOutcome::InternalError),
        },
        (RefreshState::IssuingToken { refresh_token }, RefreshEvent::TokenIssued(issued)) => match issued {
            Ok(access_token) => refresh_ended(
                RefreshOutcome::Tokens { access_token, refresh_token },
            ),
            Err(_) => refresh_ended(RefreshOutcome::InternalError),
        },
        // An event that the state does not wait for.
        _ => refresh_ended(RefreshOutcome::InternalError),
    }
}

/// The first step of a refresh: look the token up by its hash.
pub open spec fn refresh_begun(presented: String) -> (RefreshState, RefreshAction) {
    (
        RefreshState::FindingToken { presented },
        RefreshAction::FindToken { token_hash: presented },
    )
}

/// Begins a refresh.
pub fn refresh_begin(request: RefreshRequest) -> (r: (RefreshState, RefreshAction))
    ensures
        exists|presented: String|
            presented@ == token_hash(request.refresh_token@) && r == #[trigger] refresh_begun(
                presented,
            ),
{
    let presented = hash_token(request.refresh_token.as_str());
    let r = (
        RefreshState::FindingToken { presented: presented.clone() },
        RefreshAction::FindToken { token_hash: presented.clone() },
    );
    assert(r == refresh_begun(presented));
    r
}

fn end(outcome: RefreshOutcome) -> (r: (RefreshState, RefreshAction))
    ensures
        r == refresh_ended(outcome),
{
    (RefreshState::Finished, RefreshAction::Respond(outcome))
}

/// Takes the next step of a refresh.
pub fn refresh_step(state: RefreshState, event: RefreshEvent) -> (r: (RefreshState, RefreshAction))
    ensures
        r == refresh_next(state, event),
{
    match (state, event) {
        (RefreshState::FindingToken { presented }, RefreshEvent::TokenFound(found)) => match found {
            Err(_) => end(RefreshOutcome::InternalError),
            Ok(None) => end(RefreshOutcome::InvalidToken),
            Ok(Some(record)) => {
                if record.status != RefreshTokenStatus::Active {
                    return (
                        RefreshState::RevokingFamily,
                        RefreshAction::RevokeFamily { family_id: record.family_id },
                    );
                }
                (
                    RefreshState::CheckingExpiry { presented, record },
                    RefreshAction::Compute(RefreshTask::ReadClock),
                )
            },
        },
        (RefreshState::RevokingFamily, RefreshEvent::FamilyRevoked(_)) => end(
            RefreshOutcome::Reused,
        ),
        (RefreshState::CheckingExpiry { presented, record }, RefreshEvent::ClockRead(now)) => {
            if now.is_after(record.expires_at) {
                return end(RefreshOutcome::InvalidToken);
            }
            (
                RefreshState::ValidatingProof { presented, record },
                RefreshAction::Compute(RefreshTask::ValidateProof),
            )
        },
        (
            RefreshState::ValidatingProof { presented, record },
            RefreshEvent::ProofValidated(validated),
        ) => match validated {
            Ok(pending) => {
                let action = RefreshAction::RecordProof {
                    jti: pending.proof.jti.clone(),
                    expires_at: pending.expires_at,
                };
                (RefreshState::RecordingProof { presented, record, proof: pending.proof }, action)
            },
            Err(error) => end(RefreshOutcome::ProofRejected(error)),
        },
        (
            RefreshState::RecordingProof { presented, record, proof },
            RefreshEvent::ProofRecorded(insertion),
        ) => (
            RefreshState::FinishingProof { presented, record },
            RefreshAction::Compute(RefreshTask::FinishProof { proof, insertion }),
        ),
        (
            RefreshState::FinishingProof { presented, record },
            RefreshEvent::ProofFinished(finished),
        ) => match finished {
            Ok(proof) => {
                if proof.jkt != record.jkt {
                    return end(RefreshOutcome::ProofRejected(DpopError::KeyMismatch));
                }
                (
                    RefreshState::FindingUser { presented, jkt: proof.jkt },
                    RefreshAction::FindUser { email: record.user_email },
                )
            },
            Err(error) => end(RefreshOutcome::ProofRejected(error)),
        },
        (RefreshState::FindingUser { presented, jkt }, RefreshEvent::UserFound(found)) => match found {
            Ok(Some(user)) => (
                RefreshState::MakingToken { presented, jkt, user_id: user.user_id },
                RefreshAction::Compute(RefreshTask::MakeToken),
            ),
            _ => end(RefreshOutcome::InternalError),
        },
        (
            RefreshState::MakingToken { presented, jkt, user_id },
            RefreshEvent::TokenMade { refresh_token, token_hash },
        ) => {
            let action = RefreshAction::Rotate {
                old_token_hash: presented,
                new_token_hash: token_hash,
                jkt: jkt.clone(),
            };
            (RefreshState::Rotating { jkt, user_id, refresh_token }, action)
        },
        (
            RefreshState::Rotating { jkt, user_id, refresh_token },
            RefreshEvent::Rotated(rotated),
        ) => match rotated {
            Ok(_) => (
                RefreshState::IssuingToken { refresh_token },
                RefreshAction::Compute(RefreshTask::IssueToken { user_id, jkt }),
            ),
            Err(StoreError::Reused) => end(RefreshOutcome::Reused),
            Err(StoreError::NotFound) => end(RefreshOutcome::InvalidToken),
            Err(StoreError::Expired) => end(RefreshOutcome::InvalidToken),
            Err(_) => end(RefreshOutcome::InternalError),
        },
        (RefreshState::IssuingToken { refresh_token }, RefreshEvent::TokenIssued(issued)) => match issued {
            Ok(access_token) => end(RefreshOutcome::Tokens { access_token, refresh_token }),
            Err(_) => end(RefreshOutcome::InternalError),
        },
        _ => end(RefreshOutcome::InternalError),
    }
}

/// A token that was issued, as plain text.
pub open spec fn token_text(result: Result<String, TokenError>) -> Result<Seq<char>, TokenError> {
    match result {
        Ok(token) => Ok(token@),
        Err(error) => Err(error),
    }
}

/// Holds of what may come of issuing an access token to a user for a key.
pub open spec fn access_token_made(
    jwt: JwtKeys,
    user_id: Seq<char>,
    jkt: Seq<char>,
    result: Result<String, TokenError>,
) -> bool {
    exists|now: u64|
        seconds_read(now) && #[trigger] jwt.issues_at(now, user_id, jkt, token_text(result))
}

fn make_access_token(jwt: &JwtKeys, user_id: &str, jkt: &str) -> (r: Result<String, TokenError>)
    ensures
        access_token_made(*jwt, user_id@, jkt@, r),
{
    let issued = jwt.issue_access_token(user_id, jkt);
    let ghost text = issued_text(issued);
    let r: Result<String, TokenError> = match issued {
        Ok((token, _)) => Ok(token),
        Err(error) => Err(error),
    };
    assert(token_text(r) == text);
    r
}

/// Holds of the events that performing a task may give.
pub open spec fn refresh_task_yields(
    service: AuthService,
    request: RequestContext,
    task: RefreshTask,
    event: RefreshEvent,
) -> bool {
    match task {
        RefreshTask::ReadClock => event matches RefreshEvent::ClockRead(now) && now.valid()
            && utc_read(now),
        RefreshTask::ValidateProof => event matches RefreshEvent::ProofValidated(result)
            && proof_checked(service.base_url.raw@, request, None, result),
        RefreshTask::FinishProof { proof, insertion } => event matches RefreshEvent::ProofFinished(
            result,
        ) && recorded(proof, insertion, result),
        RefreshTask::MakeToken => event matches RefreshEvent::TokenMade { refresh_token, token_hash: hash }
            && is_opaque_token(refresh_token@, REFRESH_TOKEN_BYTE_LEN as nat) && is_random_token(
            refresh_token@,
            REFRESH_TOKEN_BYTE_LEN,
        ) && hash@ == token_hash(
            refresh_token@,
        ),
        RefreshTask::IssueToken { user_id, jkt } => event matches RefreshEvent::TokenIssued(result)
            && access_token_made(service.jwt, user_id@, jkt@, result),
    }
}

/// Performs a task.
pub fn perform_refresh_task(
    service: &AuthService,
    request: &RequestContext,
    task: RefreshTask,
) -> (r: RefreshEvent)
    ensures
        refresh_task_yields(*service, *request, task, r),
{
    match task {
        RefreshTask::ReadClock => RefreshEvent::ClockRead(utc_now()),
        RefreshTask::ValidateProof => RefreshEvent::ProofValidated(
            check_proof(&service.base_url, request, None),
        ),
        RefreshTask::FinishProof { proof, insertion } => RefreshEvent::ProofFinished(
            finish_dpop_proof(proof, insertion),
        ),
        RefreshTask::MakeToken => {
            let refresh_token = generate_opaque_token(REFRESH_TOKEN_BYTE_LEN);
            let token_hash = hash_token(refresh_token.as_str());
            assert(is_random_token(refresh_token@, REFRESH_TOKEN_BYTE_LEN));
            RefreshEvent::TokenMade { refresh_token, token_hash }
        },
        RefreshTask::IssueToken { user_id, jkt } => RefreshEvent::TokenIssued(
            make_access_token(&service.jwt, user_id.as_str(), jkt.as_str()),
        ),
    }
}

/// Where a refresh stands after events that follow on a step.
pub open spec fn refresh_run(
    from: (RefreshState, RefreshAction),
    events: Seq<RefreshEvent>,
) -> (RefreshState, RefreshAction)
    decreases events.len(),
{
    if events.len() == 0 {
        from
    } else {
        refresh_next(refresh_run(from, events.drop_last()).0, events.last())
    }
}

/// Holds of an event that comes of a task which was due.
pub open spec fn refresh_computed(
    service: AuthService,
    request: RequestContext,
    due: RefreshAction,
    event: RefreshEvent,
) -> bool {
    match due {
        RefreshAction::Compute(task) => refresh_task_yields(service, request, task, event),
        _ => false,
    }
}

/// Holds of events that all come of tasks, each of the one that was due.
pub open spec fn refresh_computed_run(
    service: AuthService,
    request: RequestContext,
    from: (RefreshState, RefreshAction),
    events: Seq<RefreshEvent>,
) -> bool {
    forall|i: int|
        0 <= i < events.len() ==> refresh_computed(
            service,
            request,
            refresh_run(from, events.take(i)).1,
            #[trigger] events[i],
        )
}

/// How many steps a refresh has before it at most.
pub open spec fn refresh_steps_left(state: RefreshState) -> nat {
    match state {
        RefreshState::FindingToken { .. } => 9,
        RefreshState::CheckingExpiry { .. } => 8,
        RefreshState::ValidatingProof { .. } => 7,
        RefreshState::RecordingProof { .. } => 6,
        RefreshState::FinishingProof { .. } => 5,
        RefreshState::FindingUser { .. } => 4,
        RefreshState::MakingToken { .. } => 3,
        RefreshState::Rotating { .. } => 2,
        RefreshState::IssuingToken { .. } => 1,
        RefreshState::RevokingFamily => 1,
        RefreshState::Finished => 0,
    }
}

/// Every step that is not the last brings a refresh closer to its end.
proof fn refresh_makes_progress(state: RefreshState, event: RefreshEvent)
    ensures
        ({
            let next = refresh_next(state, event);
            &&& next.1 is Compute ==> next.0 !is Finished
            &&& state !is Finished ==> refresh_steps_left(next.0) < refresh_steps_left(state)
        }),
{
}

/// One more task adds one more event.
proof fn refresh_computed_run_extends(
    service: AuthService,
    request: RequestContext,
    from: (RefreshState, RefreshAction),
    events: Seq<RefreshEvent>,
    event: RefreshEvent,
)
    requires
        refresh_computed_run(service, request, from, events),
        refresh_computed(service, request, refresh_run(from, events).1, event),
    ensures
        refresh_computed_run(service, request, from, events.push(event)),
        refresh_run(from, events.push(event)) == refresh_next(refresh_run(from, events).0, event),
{
    let longer = events.push(event);
    assert(longer.drop_last() =~= events);
    assert forall|i: int| 0 <= i < longer.len() implies refresh_computed(
        service,
        request,
        refresh_run(from, longer.take(i)).1,
        #[trigger] longer[i],
    ) by {
        assert(longer.take(i) =~= events.take(i));
        if i == events.len() {
            assert(events.take(i) =~= events);
        } else {
            assert(longer[i] == events[i]);
        }
    }
}

/// Goes on with a refresh after an event, up to the next store call or the
/// response.
pub fn refresh_resume(
    service: &AuthService,
    request: &RequestContext,
    state: RefreshState,
    event: RefreshEvent,
) -> (r: (RefreshState, RefreshAction))
    ensures
        r.1 !is Compute,
        exists|events: Seq<RefreshEvent>|
            refresh_computed_run(*service, *request, refresh_next(state, event), events) && r
                == #[trigger] refresh_run(refresh_next(state, event), events),
{
    let ghost from = refresh_next(state, event);
    let ghost mut events: Seq<RefreshEvent> = Seq::empty();
    proof {
        refresh_makes_progress(state, event);
    }
    let (mut current, mut action) = refresh_step(state, event);
    loop
        invariant
            from == refresh_next(state, event),
            (current, action) == refresh_run(from, events),
            refresh_computed_run(*service, *request, from, events),
            action is Compute ==> current !is Finished,
        decreases refresh_steps_left(current),
    {
        match action {
            RefreshAction::Compute(task) => {
                let outcome = perform_refresh_task(service, request, task);
                proof {
                    refresh_computed_run_extends(*service, *request, from, events, outcome);
                    refresh_makes_progress(current, outcome);
                    events = events.push(outcome);
                }
                let next = refresh_step(current, outcome);
                current = next.0;
                action = next.1;
            },
            other => {
                return (current, other);
            },
        }
    }
}

pub fn invalid_refresh_token_response() -> (r: ApiResponse)
    ensures
        is_plain_error(
            r,
            UNAUTHORIZED,
            "invalid_refresh_token"@,
            "invalid or expired refresh token"@,
        ),
{
    error_response(UNAUTHORIZED, "invalid_refresh_token", "invalid or expired refresh token")
}

pub fn reused_refresh_token_response() -> (r: ApiResponse)
    ensures
        is_plain_error(
            r,
            UNAUTHORIZED,
            "refresh_token_reused"@,
            "this refresh token has already been used; your session has been revoked for security reasons, please log in again"@,
        ),
{
    error_response(
        UNAUTHORIZED,
        "refresh_token_reused",
        "this refresh token has already been used; your session has been revoked for security reasons, please log in again",
    )
}

/// Holds of the response to a refresh that ended so.
pub open spec fn answers_refresh(
    outcome: RefreshOutcome,
    ttl_secs: u64,
    response: ApiResponse,
) -> bool {
    match outcome {
        RefreshOutcome::InvalidToken => is_plain_error(
            response,
            UNAUTHORIZED,
            "invalid_refresh_token"@,
            "invalid or expired refresh token"@,
        ),
        RefreshOutcome::Reused => is_plain_error(
            response,
            UNAUTHORIZED,
            "refresh_token_reused"@,
            "this refresh token has already been used; your session has been revoked for security reasons, please log in again"@,
        ),
        RefreshOutcome::ProofRejected(error) => is_plain_error(
            response,
            BAD_REQUEST,
            "invalid_dpop_proof"@,
            dpop_error_message(error),
        ),
        RefreshOutcome::InternalError => is_plain_error(
            response,
            INTERNAL_SERVER_ERROR,
            "internal_error"@,
            "failed to process refresh"@,
        ),
        RefreshOutcome::Tokens { access_token, refresh_token } => is_token_response(
            response,
            access_token,
            refresh_token,
            ttl_secs,
        ),
    }
}

/// The response to a refresh.
pub fn refresh_response(outcome: RefreshOutcome, ttl_secs: u64) -> (r: ApiResponse)
    ensures
        answers_refresh(outcome, ttl_secs, r),
{
    match outcome {
        RefreshOutcome::InvalidToken => invalid_refresh_token_response(),
        RefreshOutcome::Reused => reused_refresh_token_response(),
        RefreshOutcome::ProofRejected(error) => dpop_error_response(BAD_REQUEST, &error),
        RefreshOutcome::InternalError => internal_error("failed to process refresh"),
        RefreshOutcome::Tokens { access_token, refresh_token } => token_response(
            access_token,
            refresh_token,
            ttl_secs,
        ),
    }
}

} // verus!
