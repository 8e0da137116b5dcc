//! What holds of access tokens: what they say, for how long, and who is let
//! through with one.
use vstd::prelude::*;

use crate::auth::{
    auth_begun, auth_finished, bearer_token_in, token_checked, AuthRejection, DpopBoundUser,
    PendingAuth,
};
use crate::dpop::{proof_verdict, recorded, validated_at, DpopError, DpopProof, PendingDpopProof};
use crate::json::Json;
use crate::jws::{jws_claims, jws_token, JwsKeyView};
use crate::random::{is_opaque_token, random_tokens_are_lower_hex};
use crate::request::{proof_checked, AuthService, RequestContext};
use crate::store::StoreError;
use crate::time::{seconds_read, utc_read, Timestamp};
use crate::token::{
    access_claims, claims_are_minimal, claims_in, claims_object, claims_roundtrip, JwtClaims,
    JwtClaimsView, JwtKeys, TokenError,
};

verus! {

/// Claims are read from an object exactly where it names the user, the token
/// and, inside `cnf`, the key as texts, and both times as integers. Members
/// beyond these change nothing.
pub proof fn token_claims_are_read_by_name(members: Map<Seq<char>, Json>, claims: JwtClaimsView)
    ensures
        claims_in(members) == Some(claims) <==> {
            &&& members.contains_key("sub"@) && members["sub"@] == Json::Text(claims.sub)
            &&& members.contains_key("iat"@) && members["iat"@] == Json::Number(Some(claims.iat))
            &&& members.contains_key("exp"@) && members["exp"@] == Json::Number(Some(claims.exp))
            &&& members.contains_key("jti"@) && members["jti"@] == Json::Text(claims.jti)
            &&& members.contains_key("cnf"@) && members["cnf"@] is Object
            &&& members["cnf"@]->Object_0.contains_key("jkt"@)
            &&& members["cnf"@]->Object_0["jkt"@] == Json::Text(claims.jkt)
        },
{
}

/// Claims are written under their names, and nothing is written beside them.
pub proof fn token_claims_are_written_by_name(claims: JwtClaimsView)
    ensures
        ({
            let members = claims_object(claims);
            &&& members.dom() == set!["sub"@, "iat"@, "exp"@, "jti"@, "cnf"@]
            &&& members["sub"@] == Json::Text(claims.sub)
            &&& members["iat"@] == Json::Number(Some(claims.iat))
            &&& members["exp"@] == Json::Number(Some(claims.exp))
            &&& members["jti"@] == Json::Text(claims.jti)
            &&& members["cnf"@] is Object
            &&& members["cnf"@]->Object_0.dom() == set!["jkt"@]
            &&& members["cnf"@]->Object_0["jkt"@] == Json::Text(claims.jkt)
        }),
{
    claims_are_minimal(claims);
    claims_roundtrip(claims);
    token_claims_are_read_by_name(claims_object(claims), claims);
    assert(claims_object(claims)["cnf"@]->Object_0.dom() =~= set!["jkt"@]);
}

/// A token is read as what it carries wherever it was signed with the secret
/// under HS256, has an end and a subject, and has not ended; and as nothing
/// elsewhere.
pub proof fn signed_tokens_are_read(token: Seq<char>, secret: Seq<u8>, now: int)
    ensures
        ({
            let signed = jws_claims(
                token,
                "HS256"@,
                JwsKeyView::Secret(secret),
                seq!["exp"@, "sub"@],
                true,
                now,
            );
            &&& signed is None ==> access_claims(token, secret, now) is None
            &&& signed is Some ==> access_claims(token, secret, now) == claims_in(signed->0)
        }),
{
}

/// Holds of a token as it was issued at that second, for that long, to a user
/// and a key.
pub open spec fn is_issued_token(
    keys: JwtKeys,
    now: u64,
    user_id: Seq<char>,
    jkt: Seq<char>,
    token: Seq<char>,
    claims: JwtClaimsView,
) -> bool {
    &&& claims.sub == user_id
    &&& claims.jkt == jkt
    &&& claims.iat == now
    &&& claims.exp == now + keys.ttl_secs
    &&& claims.jti.len() == 32
    &&& forall|i: int|
        0 <= i < 32 ==> '0' <= #[trigger] claims.jti[i] <= '9' || 'a' <= claims.jti[i] <= 'f'
    &&& jws_token(claims_object(claims), "HS256"@, keys.secret@) == Some(token)
    &&& forall|later: int|
        60 <= later <= now + keys.ttl_secs + 60 ==> #[trigger] access_claims(
            token,
            keys.secret@,
            later,
        ) == Some(claims)
}

/// A token that is issued says whom it was issued to, for which key, when, and
/// that it ends with the time to live. It is read as such up to its end and a
/// minute beyond. Issuing fails exactly where its end cannot be written.
pub proof fn issued_tokens_say_who_and_until_when(
    keys: JwtKeys,
    now: u64,
    user_id: Seq<char>,
    jkt: Seq<char>,
    result: Result<Seq<char>, TokenError>,
)
    requires
        keys.issues_at(now, user_id, jkt, result),
    ensures
        result is Err <==> now + keys.ttl_secs > 0x7fff_ffff_ffff_ffff,
        result is Err ==> result->Err_0 == TokenError::ClockOutOfRange,
        result matches Ok(token) ==> exists|claims: JwtClaimsView|
            is_issued_token(keys, now, user_id, jkt, token, claims),
{
    if result is Ok {
        let token = result->Ok_0;
        let claims = choose|claims: JwtClaimsView|
            claims.iat == now && #[trigger] keys.issued_to(token, claims, user_id, jkt);
        assert(is_opaque_token(claims.jti, 16));
        random_tokens_are_lower_hex(claims.jti, 16);
        assert(is_issued_token(keys, now, user_id, jkt, token, claims));
    }
}

/// An `Authorization` header presents what follows the word `Bearer` and one
/// space, whatever that is, and presents nothing where it begins otherwise.
pub proof fn bearer_tokens_follow_the_word(header: String, token: Seq<char>)
    ensures
        bearer_token_in(Some(header)) == Some(token) <==> header@ == seq![
            'B',
            'e',
            'a',
            'r',
            'e',
            'r',
            ' ',
        ] + token,
        bearer_token_in(None) is None,
{
    reveal_strlit("Bearer ");
    let word = seq!['B', 'e', 'a', 'r', 'e', 'r', ' '];
    assert("Bearer "@ =~= word);
    if bearer_token_in(Some(header)) == Some(token) {
        assert(header@.subrange(0, 7) =~= word);
        assert(header@ =~= word + header@.skip(7));
    }
    if header@ == word + token {
        assert(header@.subrange(0, 7) =~= word);
        assert(word.is_prefix_of(header@));
        assert(header@.skip(7) =~= token);
    }
}

/// Checking a token yields what it says at some time, and a rejection where it
/// says nothing then; without a token it yields a rejection.
pub proof fn tokens_are_checked_for_what_they_say(
    jwt: JwtKeys,
    authorization: Option<String>,
    result: Result<JwtClaims, AuthRejection>,
)
    requires
        token_checked(jwt, authorization, result),
    ensures
        bearer_token_in(authorization) is None ==> result == Err::<JwtClaims, AuthRejection>(
            AuthRejection::Unauthorized,
        ),
        result is Err ==> result->Err_0 == AuthRejection::Unauthorized,
        bearer_token_in(authorization) matches Some(token) ==> exists|now: int|
            0 <= now && says(#[trigger] access_claims(token, jwt.secret@, now), result),
{
    if bearer_token_in(authorization) is Some {
        let token = bearer_token_in(authorization)->0;
        let now = choose|now: int|
            0 <= now && match #[trigger] access_claims(token, jwt.secret@, now) {
                Some(claims) => result is Ok && result->Ok_0@ == claims,
                None => result == Err::<JwtClaims, AuthRejection>(AuthRejection::Unauthorized),
            };
        assert(says(access_claims(token, jwt.secret@, now), result));
    }
}

/// Holds of claims and what checking a token with them yields.
pub open spec fn says(
    claims: Option<JwtClaimsView>,
    result: Result<JwtClaims, AuthRejection>,
) -> bool {
    &&& result is Ok <==> claims is Some
    &&& result is Ok ==> {
        &&& result->Ok_0.sub@ == claims->0.sub
        &&& result->Ok_0.iat == claims->0.iat
        &&& result->Ok_0.exp == claims->0.exp
        &&& result->Ok_0.jti@ == claims->0.jti
        &&& result->Ok_0.cnf.jkt@ == claims->0.jkt
    }
}

/// Holds of a verdict on a proof and what checking the proof yields.
pub open spec fn follows(
    verdict: Result<(Seq<char>, Seq<char>), DpopError>,
    result: Result<PendingDpopProof, DpopError>,
) -> bool {
    &&& result is Ok <==> verdict is Ok
    &&& result is Ok ==> {
        &&& result->Ok_0.proof.jkt@ == verdict->Ok_0.0
        &&& result->Ok_0.proof.jti@ == verdict->Ok_0.1
    }
    &&& result is Err ==> result->Err_0 == verdict->Err_0
}

/// The proof that a request brings is held to the method and the path of that
/// request, to the server's address and to the token presented, at some time.
/// Without a proof the request is told that one is missing.
pub proof fn proofs_are_held_to_their_request(
    base_url: Seq<char>,
    request: RequestContext,
    bearer_token: Option<Seq<char>>,
    result: Result<PendingDpopProof, DpopError>,
)
    requires
        proof_checked(base_url, request, bearer_token, result),
    ensures
        request.dpop is None ==> result == Err::<PendingDpopProof, DpopError>(DpopError::Missing),
        request.dpop matches Some(proof) ==> exists|now: u64|
            seconds_read(now) && follows(
                #[trigger] proof_verdict(
                    proof@,
                    request.method@,
                    base_url,
                    request.path@,
                    bearer_token,
                    now as int,
                ),
                result,
            ),
{
    if request.dpop is Some {
        let proof = request.dpop->0@;
        let (now, utc) = choose|now: u64, utc: Timestamp|
            utc.valid() && utc_read(utc) && seconds_read(now) && #[trigger] validated_at(
                proof,
                request.method@,
                base_url,
                request.path@,
                bearer_token,
                now,
                utc,
                result,
            );
        assert(follows(
            proof_verdict(proof, request.method@, base_url, request.path@, bearer_token, now as int),
            result,
        ));
    }
}

/// A request is let through to the question whether its proof is new wherever
/// its token is good and its proof is, at whatever time they are looked at. A
/// bad token is unauthorized, whatever the proof; with a good one the proof's
/// own fault is told.
pub proof fn good_tokens_and_proofs_are_let_through(
    service: AuthService,
    request: RequestContext,
    token: Seq<char>,
    result: Result<PendingAuth, AuthRejection>,
)
    requires
        bearer_token_in(request.authorization) == Some(token),
        auth_begun(service, request, result),
    ensures
        (forall|now: int| 0 <= now ==> #[trigger] access_claims(token, service.jwt.secret@, now)
            is None) ==> result == Err::<PendingAuth, AuthRejection>(AuthRejection::Unauthorized),
        (forall|now: int| 0 <= now ==> #[trigger] access_claims(token, service.jwt.secret@, now)
            is Some) ==> {
            &&& request.dpop is None ==> result == Err::<PendingAuth, AuthRejection>(
                AuthRejection::ProofRejected(DpopError::Missing),
            )
            &&& (request.dpop is Some && forall|now: u64|
                (#[trigger] proof_verdict(
                    request.dpop->0@,
                    request.method@,
                    service.base_url.raw@,
                    request.path@,
                    Some(token),
                    now as int,
                )) is Ok) ==> result is Ok
            &&& (request.dpop is Some && forall|now: u64|
                (#[trigger] proof_verdict(
                    request.dpop->0@,
                    request.method@,
                    service.base_url.raw@,
                    request.path@,
                    Some(token),
                    now as int,
                )) is Err) ==> result is Err && result->Err_0 is ProofRejected
        },
{
    let checked: Result<JwtClaims, AuthRejection> = match result {
        Ok(begun) => Ok(begun.claims),
        Err(AuthRejection::Unauthorized) => Err(AuthRejection::Unauthorized),
        Err(AuthRejection::ProofRejected(_)) => Ok(
            choose|claims: JwtClaims|
                token_checked(service.jwt, request.authorization, Ok(claims)),
        ),
    };
    tokens_are_checked_for_what_they_say(service.jwt, request.authorization, checked);
    let now = choose|now: int|
        0 <= now && says(#[trigger] access_claims(token, service.jwt.secret@, now), checked);
    assert(says(access_claims(token, service.jwt.secret@, now), checked));
    match result {
        Ok(begun) => {
            proofs_are_held_to_their_request(
                service.base_url.raw@,
                request,
                Some(token),
                Ok(begun.pending),
            );
        },
        Err(AuthRejection::ProofRejected(error)) => {
            proofs_are_held_to_their_request(
                service.base_url.raw@,
                request,
                Some(token),
                Err(error),
            );
        },
        _ => {},
    }
}

/// A request is answered as the user that its token names exactly where the
/// replay store took its proof as new and the proof's key is the one that the
/// token is bound to.
pub proof fn new_proofs_of_the_bound_key_get_through(
    begun: PendingAuth,
    insertion: Result<(), StoreError>,
    finished: Result<DpopProof, DpopError>,
    result: Result<DpopBoundUser, AuthRejection>,
)
    requires
        recorded(begun.pending.proof, insertion, finished),
        auth_finished(begun.claims, finished, result),
    ensures
        result is Ok <==> insertion is Ok && begun.pending.proof.jkt@ == begun.claims.cnf.jkt@,
        result is Ok ==> result->Ok_0.user_id == begun.claims.sub,
        insertion is Ok && begun.pending.proof.jkt@ != begun.claims.cnf.jkt@ ==> result == Err::<
            DpopBoundUser,
            AuthRejection,
        >(AuthRejection::ProofRejected(DpopError::KeyMismatch)),
        insertion == Err::<(), StoreError>(StoreError::Replayed) ==> result == Err::<
            DpopBoundUser,
            AuthRejection,
        >(AuthRejection::ProofRejected(DpopError::Replayed)),
        insertion is Err && insertion->Err_0 !is Replayed ==> result is Err
            && result->Err_0 is ProofRejected && result->Err_0->ProofRejected_0 is Backend,
{
}

} // verus!
