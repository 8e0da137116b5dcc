//! Logout: revokes the session of a refresh token.
use vstd::prelude::*;

use crate::error::{success_response, ApiResponse, ResponseBody, OK};
use crate::random::{hash_token, token_hash};
use crate::refresh_token::RefreshTokenRecord;
use crate::store::StoreError;

verus! {

#[derive(Debug)]
pub struct LogoutRequest {
    pub refresh_token: String,
}

#[derive(Debug)]
pub struct LogoutResponse {
    pub logged_out: bool,
}

pub enum LogoutState {
    FindingToken,
    RevokingFamily,
    Finished,
}

pub enum LogoutEvent {
    TokenFound(Result<Option<RefreshTokenRecord>, StoreError>),
    FamilyRevoked(Result<(), StoreError>),
}

pub enum LogoutAction {
    FindToken { token_hash: String },
    RevokeFamily { family_id: String },
    Respond,
}

/// The next step of a logout.
pub open spec fn logout_next(
    state: LogoutState,
    event: LogoutEvent,
) -> (LogoutState, LogoutAction) {
    match (state, event) {
        (LogoutState::FindingToken, LogoutEvent::TokenFound(Ok(Some(record)))) => (
            LogoutState::RevokingFamily,
            LogoutAction::RevokeFamily { family_id: record.family_id },
        ),
        _ => (LogoutState::Finished, LogoutAction::Respond),
    }
}

/// Begins a logout: looks the token up by its hash.
pub fn logout_begin(request: LogoutRequest) -> (r: (LogoutState, LogoutAction))
    ensures
        r.0 == LogoutState::FindingToken,
        r.1 matches LogoutAction::FindToken { token_hash: hash } && hash@ == token_hash(
            request.refresh_token@,
        ),
{
    let token_hash = hash_token(request.refresh_token.as_str());
    (LogoutState::FindingToken, LogoutAction::FindToken { token_hash })
}

/// Takes the next step of a logout.
pub fn logout_step(state: LogoutState, event: LogoutEvent) -> (r: (LogoutState, LogoutAction))
    ensures
        r == logout_next(state, event),
{
    match (state, event) {
        (LogoutState::FindingToken, LogoutEvent::TokenFound(Ok(Some(record)))) => (
            LogoutState::RevokingFamily,
            LogoutAction::RevokeFamily { family_id: record.family_id },
        ),
        _ => (LogoutState::Finished, LogoutAction::Respond),
    }
}

/// The response to every logout: success, whether or not the token was known,
/// so that the endpoint cannot be used to probe for tokens.
pub fn logout_response() -> (r: ApiResponse)
    ensures
        r.status == OK,
        r.retry_after is None,
        r.body matches ResponseBody::LoggedOut(response) && response.logged_out,
{
    success_response(OK, ResponseBody::LoggedOut(LogoutResponse { logged_out: true }))
}

/// A logout always ends in its one response: at once where the token is
/// unknown or cannot be looked up, else after its family has been revoked,
/// whatever came of that.
pub proof fn logout_always_succeeds(
    found: Result<Option<RefreshTokenRecord>, StoreError>,
    revoked: Result<(), StoreError>,
)
    ensures
        ({
            let next = logout_next(LogoutState::FindingToken, LogoutEvent::TokenFound(found));
            match found {
                Ok(Some(record)) => {
                    &&& next.1 == (LogoutAction::RevokeFamily { family_id: record.family_id })
                    &&& logout_next(next.0, LogoutEvent::FamilyRevoked(revoked)) == (
                        LogoutState::Finished,
                        LogoutAction::Respond,
                    )
                },
                _ => next == (LogoutState::Finished, LogoutAction::Respond),
            }
        }),
{
}

} // verus!
