//! What an endpoint needs to know of a request beside its body, and of the
//! service that it runs in.
use vstd::prelude::*;

use crate::dpop::{
    validate_dpop_proof, validated_at, DpopError, PendingDpopProof, PublicBaseUrl,
};
use crate::login::DUMMY_PASSWORD;
use crate::password::{hash_password, hashed};
use crate::time::{seconds_read, utc_read, Timestamp};
use crate::token::JwtKeys;

verus! {

/// What the service holds for as long as it runs.
pub struct AuthService {
    pub jwt: JwtKeys,
    pub base_url: PublicBaseUrl,
    /// A hash that no account has. A login for an unknown email address is
    /// checked against it, so that it takes as long as one for a known
    /// address.
    pub dummy_hash: String,
}

impl AuthService {
    /// Holds of a service whose stand-in is a hash of the stand-in password.
    pub open spec fn valid(self) -> bool {
        hashed(DUMMY_PASSWORD@, Ok(self.dummy_hash))
    }

    /// A service with these keys under this address.
    pub fn new(jwt: JwtKeys, base_url: PublicBaseUrl) -> (r: AuthService)
        ensures
            r.jwt == jwt,
            r.base_url == base_url,
            r.valid(),
    {
        proof {
            reveal_strlit("dummy-value-paid-for-timing-parity-only");
            assert(vstd::utf8::is_ascii_chars(DUMMY_PASSWORD@));
            vstd::utf8::is_ascii_chars_encode_utf8(DUMMY_PASSWORD@);
        }
        let dummy_hash = hash_password(DUMMY_PASSWORD).unwrap();
        AuthService { jwt, base_url, dummy_hash }
    }
}

/// What a request says outside its body.
pub struct RequestContext {
    pub method: String,
    pub path: String,
    /// The `Authorization` header.
    pub authorization: Option<String>,
    /// The `DPoP` header.
    pub dpop: Option<String>,
}

/// Holds of what may come of checking the proof that a request brings, where
/// it presents that access token or none.
pub open spec fn proof_checked(
    base_url: Seq<char>,
    request: RequestContext,
    bearer_token: Option<Seq<char>>,
    result: Result<PendingDpopProof, DpopError>,
) -> bool {
    match request.dpop {
        None => result == Err::<PendingDpopProof, DpopError>(DpopError::Missing),
        Some(proof) => exists|now: u64, utc: Timestamp|
            utc.valid() && utc_read(utc) && seconds_read(now) && #[trigger] validated_at(
                proof@,
                request.method@,
                base_url,
                request.path@,
                bearer_token,
                now,
                utc,
                result,
            ),
    }
}

/// Checks the proof that a request brings.
pub fn check_proof(
    base_url: &PublicBaseUrl,
    request: &RequestContext,
    bearer_token: Option<&str>,
) -> (r: Result<PendingDpopProof, DpopError>)
    ensures
        proof_checked(base_url.raw@, *request, crate::dpop::optional_str(bearer_token), r),
{
    match &request.dpop {
        None => Err(DpopError::Missing),
        Some(proof) => validate_dpop_proof(
            proof.as_str(),
            request.method.as_str(),
            base_url,
            request.path.as_str(),
            bearer_token,
        ),
    }
}

} // verus!
