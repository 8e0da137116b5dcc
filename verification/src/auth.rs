//! The check of the access token, and of the proof that goes with it, on a
//! protected route.
use vstd::prelude::*;

use crate::dpop::{
    dpop_error_message, finish_dpop_proof, recorded, DpopError, DpopProof, PendingDpopProof,
};
use crate::error::{
    dpop_error_response, is_plain_error, success_response, unauthorized, ApiResponse, ResponseBody,
    OK, UNAUTHORIZED,
};
use crate::request::{check_proof, proof_checked, AuthService, RequestContext};
use crate::store::StoreError;
use crate::text::{from_chars, to_chars};
use crate::token::{access_claims, JwtClaims, JwtKeys};

verus! {

/// What an `Authorization` header with an access token begins with.
pub const BEARER_PREFIX: &'static str = "Bearer ";

/// The user that an access token names.
#[derive(Debug)]
pub struct AuthUser {
    pub user_id: String,
}

/// The user that an access token names, where the caller has also shown the
/// key that the token is bound to.
#[derive(Debug)]
pub struct DpopBoundUser {
    pub user_id: String,
}

/// Why a request to a protected route is turned away.
#[derive(Debug)]
pub enum AuthRejection {
    Unauthorized,
    ProofRejected(DpopError),
}

/// A request whose access token and proof are good if the proof is new.
pub struct PendingAuth {
    pub claims: JwtClaims,
    pub pending: PendingDpopProof,
}

/// The access token in an `Authorization` header, if it has one.
pub open spec fn bearer_token_in(header: Option<String>) -> Option<Seq<char>> {
    match header {
        Some(header) if BEARER_PREFIX@.is_prefix_of(header@) => Some(
            header@.skip(BEARER_PREFIX@.len() as int),
        ),
        _ => None,
    }
}

pub fn extract_bearer_token(header: &Option<String>) -> (r: Option<String>)
    ensures
        (match bearer_token_in(*header) {
            Some(token) => r is Some && r->0@ == token,
            None => r is None,
        }),
{
    let text = match header {
        Some(text) => text,
        None => {
            return None;
        },
    };
    let chars = to_chars(text.as_str());
    let prefix = to_chars(BEARER_PREFIX);
    if chars.len() < prefix.len() {
        return None;
    }
    let mut i: usize = 0;
    while i < prefix.len()
        invariant
            *header == Some(*text),
            chars@ == text@,
            prefix@ == BEARER_PREFIX@,
            i <= prefix@.len() <= chars@.len(),
            forall|k: int| 0 <= k < i ==> #[trigger] prefix@[k] == chars@[k],
        decreases prefix@.len() - i,
    {
        if chars[i] != prefix[i] {
            assert(text@.subrange(0, prefix@.len() as int)[i as int] == text@[i as int]);
            return None;
        }
        i = i + 1;
    }
    assert(text@.subrange(0, prefix@.len() as int) =~= prefix@);
    assert(text@.skip(prefix@.len() as int) =~= text@.subrange(
        prefix@.len() as int,
        text@.len() as int,
    ));
    Some(from_chars(&chars, prefix.len(), chars.len()))
}

/// Holds of what may come of checking the access token that a request
/// presents: the claims it carries at some time, or a rejection.
pub open spec fn token_checked(
    jwt: JwtKeys,
    authorization: Option<String>,
    result: Result<JwtClaims, AuthRejection>,
) -> bool {
    match bearer_token_in(authorization) {
        None => result == Err::<JwtClaims, AuthRejection>(AuthRejection::Unauthorized),
        Some(token) => exists|now: int|
            0 <= now && match #[trigger] access_claims(token, jwt.secret@, now) {
                Some(claims) => result is Ok && result->Ok_0@ == claims,
                None => result == Err::<JwtClaims, AuthRejection>(AuthRejection::Unauthorized),
            },
    }
}

fn check_token(jwt: &JwtKeys, authorization: &Option<String>) -> (r: Result<
    JwtClaims,
    AuthRejection,
>)
    ensures
        token_checked(*jwt, *authorization, r),
{
    match extract_bearer_token(authorization) {
        None => Err(AuthRejection::Unauthorized),
        Some(token) => {
            let verified = jwt.verify_access_token(token.as_str());
            let ghost now = choose|now: int|
                0 <= now && match #[trigger] access_claims(token@, jwt.secret@, now) {
                    Some(claims) => verified is Ok && verified->Ok_0@ == claims,
                    None => verified is Err,
                };
            let r: Result<JwtClaims, AuthRejection> = match verified {
                Ok(claims) => Ok(claims),
                Err(_) => Err(AuthRejection::Unauthorized),
            };
            assert(match access_claims(token@, jwt.secret@, now) {
                Some(claims) => r is Ok && r->Ok_0@ == claims,
                None => r == Err::<JwtClaims, AuthRejection>(AuthRejection::Unauthorized),
            });
            r
        },
    }
}

/// Checks a bearer token alone, without a proof.
pub fn authenticate_bearer(jwt: &JwtKeys, authorization: &Option<String>) -> (r: Result<
    AuthUser,
    AuthRejection,
>)
    ensures
        exists|checked: Result<JwtClaims, AuthRejection>|
            #![trigger token_checked(*jwt, *authorization, checked)]
            token_checked(*jwt, *authorization, checked) && r == (match checked {
                Ok(claims) => Ok::<AuthUser, AuthRejection>(AuthUser { user_id: claims.sub }),
                Err(rejection) => Err::<AuthUser, AuthRejection>(rejection),
            }),
{
    let checked = check_token(jwt, authorization);
    assert(token_checked(*jwt, *authorization, checked));
    match checked {
        Ok(claims) => Ok(AuthUser { user_id: claims.sub }),
        Err(rejection) => Err(rejection),
    }
}

/// Holds of what may come of checking the token and the proof of a request,
/// up to the question whether the proof is new. The proof has to name the
/// token, and a token without a proof is not enough.
pub open spec fn auth_begun(
    service: AuthService,
    request: RequestContext,
    result: Result<PendingAuth, AuthRejection>,
) -> bool {
    match result {
        Ok(begun) => {
            &&& token_checked(service.jwt, request.authorization, Ok(begun.claims))
            &&& proof_checked(
                service.base_url.raw@,
                request,
                bearer_token_in(request.authorization),
                Ok(begun.pending),
            )
        },
        Err(AuthRejection::Unauthorized) => token_checked(
            service.jwt,
            request.authorization,
            Err(AuthRejection::Unauthorized),
        ),
        Err(AuthRejection::ProofRejected(error)) => {
            &&& exists|claims: JwtClaims|
                token_checked(service.jwt, request.authorization, Ok(claims))
            &&& proof_checked(
                service.base_url.raw@,
                request,
                bearer_token_in(request.authorization),
                Err(error),
            )
        },
    }
}

/// Checks the token and the proof of a request, up to the question whether
/// the proof is new.
pub fn begin_dpop_auth(service: &AuthService, request: &RequestContext) -> (r: Result<
    PendingAuth,
    AuthRejection,
>)
    ensures
        auth_begun(*service, *request, r),
        bearer_token_in(request.authorization) is None ==> r == Err::<PendingAuth, AuthRejection>(
            AuthRejection::Unauthorized,
        ),
        request.dpop is None ==> r is Err,
{
    let claims = match check_token(&service.jwt, &request.authorization) {
        Ok(claims) => claims,
        Err(_) => {
            return Err(AuthRejection::Unauthorized);
        },
    };
    let token = match extract_bearer_token(&request.authorization) {
        Some(token) => token,
        None => {
            return Err(AuthRejection::Unauthorized);
        },
    };
    match check_proof(&service.base_url, request, Some(token.as_str())) {
        Ok(pending) => Ok(PendingAuth { claims, pending }),
        Err(error) => {
            assert(token_checked(service.jwt, request.authorization, Ok(claims)));
            Err(AuthRejection::ProofRejected(error))
        },
    }
}

/// What a request is answered once the replay store has been asked to record
/// its proof.
pub open spec fn auth_finished(
    claims: JwtClaims,
    finished: Result<DpopProof, DpopError>,
    result: Result<DpopBoundUser, AuthRejection>,
) -> bool {
    match finished {
        Err(error) => result == Err::<DpopBoundUser, AuthRejection>(
            AuthRejection::ProofRejected(error),
        ),
        Ok(proof) => if proof.jkt@ != claims.cnf.jkt@ {
            result == Err::<DpopBoundUser, AuthRejection>(
                AuthRejection::ProofRejected(DpopError::KeyMismatch),
            )
        } else {
            result == Ok::<DpopBoundUser, AuthRejection>(DpopBoundUser { user_id: claims.sub })
        },
    }
}

/// Concludes the check of a request: the proof has to be new, and its key the
/// one that the token is bound to.
pub fn finish_dpop_auth(begun: PendingAuth, insertion: Result<(), StoreError>) -> (r: Result<
    DpopBoundUser,
    AuthRejection,
>)
    ensures
        exists|finished: Result<DpopProof, DpopError>| #[trigger]
            recorded(begun.pending.proof, insertion, finished) && auth_finished(
                begun.claims,
                finished,
                r,
            ),
{
    let finished = finish_dpop_proof(begun.pending.proof, insertion);
    assert(recorded(begun.pending.proof, insertion, finished));
    match finished {
        Err(error) => Err(AuthRejection::ProofRejected(error)),
        Ok(proof) => {
            if proof.jkt != begun.claims.cnf.jkt {
                return Err(AuthRejection::ProofRejected(DpopError::KeyMismatch));
            }
            Ok(DpopBoundUser { user_id: begun.claims.sub })
        },
    }
}

/// The response to a request that is turned away.
pub fn rejection_response(rejection: &AuthRejection) -> (r: ApiResponse)
    ensures
        (match *rejection {
            AuthRejection::Unauthorized => is_plain_error(
                r,
                UNAUTHORIZED,
                "unauthorized"@,
                "missing or invalid access token"@,
            ),
            AuthRejection::ProofRejected(error) => is_plain_error(
                r,
                UNAUTHORIZED,
                "invalid_dpop_proof"@,
                dpop_error_message(error),
            ),
        }),
{
    match rejection {
        AuthRejection::Unauthorized => unauthorized(),
        AuthRejection::ProofRejected(error) => dpop_error_response(UNAUTHORIZED, error),
    }
}

/// The response that tells a user who they are.
pub fn me_response(user: DpopBoundUser) -> (r: ApiResponse)
    ensures
        r.status == OK,
        r.retry_after is None,
        r.body == (ResponseBody::Identity { user_id: user.user_id }),
{
    success_response(OK, ResponseBody::Identity { user_id: user.user_id })
}

/// Whoever gets through has presented an access token of this service that
/// has not expired, and a proof that is valid for this request and this
/// token, was taken as new by the replay store, and was made with the very key
/// that the token is bound to; and is the user that the token names.
pub proof fn bound_users_hold_token_and_key(
    service: AuthService,
    request: RequestContext,
    begun: PendingAuth,
    insertion: Result<(), StoreError>,
    finished: Result<DpopProof, DpopError>,
    user: DpopBoundUser,
)
    requires
        auth_begun(service, request, Ok(begun)),
        recorded(begun.pending.proof, insertion, finished),
        auth_finished(begun.claims, finished, Ok(user)),
    ensures
        insertion is Ok,
        user.user_id == begun.claims.sub,
        begun.pending.proof.jkt@ == begun.claims.cnf.jkt@,
        request.dpop is Some,
        proof_checked(
            service.base_url.raw@,
            request,
            bearer_token_in(request.authorization),
            Ok(begun.pending),
        ),
        bearer_token_in(request.authorization) matches Some(token) && exists|now: int|
            0 <= now && #[trigger] access_claims(token, service.jwt.secret@, now) == Some(
                begun.claims@,
            ),
{
}

} // verus!
