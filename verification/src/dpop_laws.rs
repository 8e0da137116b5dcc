//! What holds of DPoP proofs: which ones are accepted, and what is told of the
//! others.
use vstd::prelude::*;

use crate::dpop::{
    base64url_char, base64url_text, byte_or_zero, claims_error, dpop_claims_in, header_error,
    htu_matches, optional_str, proof_verdict, recorded, sextet, url_parts, url_parts_with_path,
    validated_at, DpopClaims, DpopClaimsView, DpopError, DpopProof, PendingDpopProof, UrlPartsView,
};
use crate::json::Json;
use crate::jws::{
    jwk_is_supported, jwk_thumbprint, jws_claims, jws_header, optional_text, JwsKeyView,
};
use crate::random::sha256_digest;
use crate::store::StoreError;
use crate::time::Timestamp;

verus! {

/// A claimed `htu` matches exactly where it is a URL that agrees with the
/// server's, once the path has been put there, in scheme, host, port and path.
/// Nothing else is asked of it, and no scheme is preferred.
pub proof fn htu_is_held_to_four_parts(
    base_url: Seq<char>,
    claimed_htu: Seq<char>,
    path: Seq<char>,
    base: UrlPartsView,
    expected: UrlPartsView,
)
    requires
        url_parts(base_url) == Some(base),
        base.length + 3 * vstd::utf8::encode_utf8(path).len() + 4 <= 0xffff_ffff,
        url_parts_with_path(base_url, path) == Some(expected),
    ensures
        htu_matches(base_url, claimed_htu, path) <==> {
            &&& url_parts(claimed_htu) is Some
            &&& url_parts(claimed_htu)->0.scheme == expected.scheme
            &&& url_parts(claimed_htu)->0.host == expected.host
            &&& url_parts(claimed_htu)->0.port == expected.port
            &&& url_parts(claimed_htu)->0.path == expected.path
        },
{
}

/// Claims are accepted exactly where they name the method and the address of
/// the request, were made in the last three hundred seconds or up to sixty
/// seconds ahead of this clock, and name the access token, if one is
/// presented. Without a token nothing is asked of `ath`, and nothing is ever
/// asked of `jti`.
pub proof fn fitting_claims_are_accepted(
    claims: DpopClaimsView,
    method: Seq<char>,
    base_url: Seq<char>,
    path: Seq<char>,
    bearer_token: Option<Seq<char>>,
    now: int,
    base: UrlPartsView,
    expected: UrlPartsView,
)
    requires
        url_parts(base_url) == Some(base),
        base.length + 3 * vstd::utf8::encode_utf8(path).len() + 4 <= 0xffff_ffff,
        url_parts_with_path(base_url, path) == Some(expected),
    ensures
        claims_error(claims, method, base_url, path, bearer_token, now) is None <==> {
            &&& claims.htm == method
            &&& url_parts(claims.htu) is Some
            &&& url_parts(claims.htu)->0.scheme == expected.scheme
            &&& url_parts(claims.htu)->0.host == expected.host
            &&& url_parts(claims.htu)->0.port == expected.port
            &&& url_parts(claims.htu)->0.path == expected.path
            &&& now - 300 <= claims.iat <= now + 60
            &&& bearer_token is Some ==> claims.ath == Some(
                base64url_text(sha256_digest(vstd::utf8::encode_utf8(bearer_token->0))),
            )
        },
{
}

/// Where claims do not fit, the first thing that is wrong is told: the method,
/// the address, the age, the clock, the access token, in this order.
pub proof fn misfits_are_told_in_order(
    claims: DpopClaimsView,
    method: Seq<char>,
    base_url: Seq<char>,
    path: Seq<char>,
    bearer_token: Option<Seq<char>>,
    now: int,
)
    ensures
        ({
            let error = claims_error(claims, method, base_url, path, bearer_token, now);
            let names_address = htu_matches(base_url, claims.htu, path);
            let names_token = bearer_token is Some ==> claims.ath == Some(
                base64url_text(sha256_digest(vstd::utf8::encode_utf8(bearer_token->0))),
            );
            &&& error == Some(DpopError::MethodMismatch) <==> claims.htm != method
            &&& error == Some(DpopError::UriMismatch) <==> claims.htm == method && !names_address
            &&& error == Some(DpopError::Stale) <==> claims.htm == method && names_address
                && claims.iat < now - 300
            &&& error == Some(DpopError::FutureIat) <==> claims.htm == method && names_address
                && claims.iat > now + 60
            &&& error == Some(DpopError::AthMismatch) <==> claims.htm == method && names_address
                && now - 300 <= claims.iat <= now + 60 && !names_token
            &&& error is None <==> claims.htm == method && names_address && now - 300 <= claims.iat
                <= now + 60 && names_token
        }),
{
}

/// Without a server's address that is a URL, or where the path would make it
/// too long to be written, no `htu` matches; nor does one that is no URL.
pub proof fn only_urls_match(base_url: Seq<char>, claimed_htu: Seq<char>, path: Seq<char>)
    requires
        htu_matches(base_url, claimed_htu, path),
    ensures
        url_parts(base_url) is Some,
        url_parts(base_url)->0.length + 3 * vstd::utf8::encode_utf8(path).len() + 4 <= 0xffff_ffff,
        url_parts_with_path(base_url, path) is Some,
        url_parts(claimed_htu) is Some,
{
}

/// The header of a proof is held to its type, its algorithm and the key that
/// it brings along, in this order, and to nothing else.
pub proof fn headers_are_held_to_three_things(proof: Seq<char>)
    ensures
        ({
            let error = header_error(proof);
            let typed = jws_header(proof)->0.typ == Some("dpop+jwt"@);
            let signed = jws_header(proof)->0.algorithm == "ES256"@;
            let keyed = jws_header(proof)->0.has_jwk && jwk_is_supported(proof);
            &&& jws_header(proof) is None ==> error == Some(DpopError::Malformed)
            &&& jws_header(proof) is Some ==> {
                &&& error == Some(DpopError::WrongType) <==> !typed
                &&& error == Some(DpopError::WrongAlgorithm) <==> typed && !signed
                &&& error == Some(DpopError::Malformed) <==> typed && signed && !keyed
                &&& error is None <==> typed && signed && keyed
            }
        }),
{
}

/// Claims are read from an object exactly where it names the method, the
/// address and the `jti` as texts and the time as an integer, and its `ath`, if
/// it has one, is a text or null. Members beyond these change nothing.
pub proof fn proof_claims_are_read_by_name(members: Map<Seq<char>, Json>, claims: DpopClaimsView)
    ensures
        dpop_claims_in(members) == Some(claims) <==> {
            &&& members.contains_key("htm"@) && members["htm"@] == Json::Text(claims.htm)
            &&& members.contains_key("htu"@) && members["htu"@] == Json::Text(claims.htu)
            &&& members.contains_key("iat"@) && members["iat"@] == Json::Number(Some(claims.iat))
            &&& members.contains_key("jti"@) && members["jti"@] == Json::Text(claims.jti)
            &&& match claims.ath {
                Some(ath) => members.contains_key("ath"@) && members["ath"@] == Json::Text(ath),
                None => members.contains_key("ath"@) ==> members["ath"@] == Json::Null,
            }
        },
{
}

/// A proof is good exactly where its header is, the key in it verifies the
/// signature, what is signed fits the request, and that key has a thumbprint.
/// It yields that thumbprint and the `jti` that was signed. Elsewhere the first
/// thing that is wrong is told, in this order; a proof that cannot be read, or
/// whose key has no thumbprint, is malformed.
pub proof fn good_proofs_yield_their_key_and_name(
    proof: Seq<char>,
    method: Seq<char>,
    base_url: Seq<char>,
    path: Seq<char>,
    bearer_token: Option<Seq<char>>,
    now: int,
)
    ensures
        ({
            let signed = jws_claims(
                proof,
                "ES256"@,
                JwsKeyView::Embedded,
                Seq::<Seq<char>>::empty(),
                false,
                0,
            );
            let readable = signed is Some && dpop_claims_in(signed->0) is Some;
            let claims = dpop_claims_in(signed->0)->0;
            let misfit = claims_error(claims, method, base_url, path, bearer_token, now);
            let jkt = jwk_thumbprint(proof);
            let verdict = proof_verdict(proof, method, base_url, path, bearer_token, now);
            &&& verdict is Ok <==> header_error(proof) is None && readable && misfit is None && jkt
                is Some
            &&& verdict is Ok ==> verdict->Ok_0.0 == jkt->0 && verdict->Ok_0.1 == claims.jti
            &&& header_error(proof) is Some ==> verdict->Err_0 == header_error(proof)->0
            &&& header_error(proof) is None && !readable ==> verdict->Err_0 == DpopError::Malformed
            &&& header_error(proof) is None && readable && misfit is Some ==> verdict->Err_0
                == misfit->0
            &&& header_error(proof) is None && readable && misfit is None && jkt is None
                ==> verdict->Err_0 == DpopError::Malformed
        }),
{
}

/// What validating a proof yields, and no other, is what its verdict says. The
/// `jti` of a good one is to be kept for six minutes from the time of day.
pub proof fn good_proofs_are_kept_for_six_minutes(
    proof: Seq<char>,
    method: Seq<char>,
    base_url: Seq<char>,
    path: Seq<char>,
    bearer_token: Option<Seq<char>>,
    now: u64,
    utc: Timestamp,
    result: Result<PendingDpopProof, DpopError>,
)
    requires
        validated_at(proof, method, base_url, path, bearer_token, now, utc, result),
    ensures
        ({
            let verdict = proof_verdict(proof, method, base_url, path, bearer_token, now as int);
            &&& verdict is Ok <==> result is Ok
            &&& result is Ok ==> {
                &&& result->Ok_0.proof.jkt@ == verdict->Ok_0.0
                &&& result->Ok_0.proof.jti@ == verdict->Ok_0.1
                &&& result->Ok_0.expires_at.nanos == utc.nanos + 360_000_000_000
            }
            &&& result is Err ==> result->Err_0 == verdict->Err_0
        }),
{
}

/// Holds of an error that names an answer which no replay store gives.
pub open spec fn names_the_answer(result: Result<DpopProof, DpopError>, name: Seq<char>) -> bool {
    result matches Err(DpopError::Backend(message)) && message@ == "unexpected "@ + name
        + " from replay store"@
}

/// A proof is accepted exactly where the replay store took its `jti` as new,
/// and is handed on unchanged. A `jti` that was there makes it a replay; any
/// other answer is a failure of the store, in its own words where it has some.
pub proof fn the_replay_store_decides(
    proof: DpopProof,
    insertion: Result<(), StoreError>,
    result: Result<DpopProof, DpopError>,
)
    requires
        recorded(proof, insertion, result),
    ensures
        result is Ok <==> insertion is Ok,
        result is Ok ==> result->Ok_0 == proof,
        result == Err::<DpopProof, DpopError>(DpopError::Replayed) <==> insertion == Err::<
            (),
            StoreError,
        >(StoreError::Replayed),
        insertion matches Err(StoreError::Backend(message)) ==> result == Err::<
            DpopProof,
            DpopError,
        >(DpopError::Backend(message)),
        insertion matches Err(StoreError::DuplicateEmail) ==> names_the_answer(
            result,
            "DuplicateEmail"@,
        ),
        insertion matches Err(StoreError::NotFound) ==> names_the_answer(result, "NotFound"@),
        insertion matches Err(StoreError::Expired) ==> names_the_answer(result, "Expired"@),
        insertion matches Err(StoreError::Reused) ==> names_the_answer(result, "Reused"@),
        insertion matches Err(StoreError::MfaAlreadyEnrolled) ==> names_the_answer(
            result,
            "MfaAlreadyEnrolled"@,
        ),
{
}

/// The value of a digit of the URL-safe alphabet.
pub open spec fn base64url_value(c: char) -> int {
    if 'A' <= c <= 'Z' {
        c as int - 'A' as int
    } else if 'a' <= c <= 'z' {
        c as int - 'a' as int + 26
    } else if '0' <= c <= '9' {
        c as int - '0' as int + 52
    } else if c == '-' {
        62
    } else {
        63
    }
}

/// A digit of the URL-safe alphabet has the value that it was made from.
proof fn base64url_digits_have_their_value(n: int)
    requires
        0 <= n < 64,
    ensures
        base64url_value(base64url_char(n)) == n,
        n == 63 ==> base64url_char(n) == '_',
{
}

/// How the bits of two bytes in a row part into six at a time.
proof fn bits_part_into_sixes(a: int, b: int)
    requires
        0 <= a < 256,
        0 <= b < 256,
    ensures
        (a * 256 + b) / 1024 == a / 4,
        (a * 256 + b) / 16 % 64 == a % 4 * 16 + b / 16,
        (a * 256 + b) / 64 % 64 == a % 16 * 4 + b / 64,
        (a * 256 + b) / 256 % 64 == a % 64,
{
    assert((a * 256 + b) / 1024 == a / 4);
    assert((a * 256 + b) / 16 == a * 16 + b / 16);
    assert((a * 16 + b / 16) % 64 == a % 4 * 16 + b / 16);
    assert((a * 256 + b) / 64 == a * 4 + b / 64);
    assert((a * 4 + b / 64) % 64 == a % 16 * 4 + b / 64);
    assert((a * 256 + b) / 256 == a);
}

/// The four digits that stand for three bytes.
proof fn sextets_of_three_bytes(data: Seq<u8>, k: int)
    requires
        0 <= k,
    ensures
        ({
            let (a, b, c) = (
                byte_or_zero(data, 3 * k),
                byte_or_zero(data, 3 * k + 1),
                byte_or_zero(data, 3 * k + 2),
            );
            &&& sextet(data, 4 * k) == a / 4
            &&& sextet(data, 4 * k + 1) == a % 4 * 16 + b / 16
            &&& sextet(data, 4 * k + 2) == b % 16 * 4 + c / 64
            &&& sextet(data, 4 * k + 3) == c % 64
        }),
{
    assert(6 * (4 * k) / 8 == 3 * k && (6 * (4 * k)) % 8 == 0);
    assert(6 * (4 * k + 1) / 8 == 3 * k && (6 * (4 * k + 1)) % 8 == 6);
    assert(6 * (4 * k + 2) / 8 == 3 * k + 1 && (6 * (4 * k + 2)) % 8 == 4);
    assert(6 * (4 * k + 3) / 8 == 3 * k + 2 && (6 * (4 * k + 3)) % 8 == 2);
    let (a, b, c, d) = (
        byte_or_zero(data, 3 * k),
        byte_or_zero(data, 3 * k + 1),
        byte_or_zero(data, 3 * k + 2),
        byte_or_zero(data, 3 * k + 3),
    );
    bits_part_into_sixes(a, b);
    bits_part_into_sixes(b, c);
    bits_part_into_sixes(c, d);
}

/// Six bits at a time are put together to bytes again.
proof fn sixes_join_into_bytes(a: int, b: int, c: int)
    requires
        0 <= a < 256,
        0 <= b < 256,
        0 <= c < 256,
    ensures
        a / 4 * 4 + (a % 4 * 16 + b / 16) / 16 == a,
        (a % 4 * 16 + b / 16) % 16 * 16 + (b % 16 * 4 + c / 64) / 4 == b,
        (b % 16 * 4 + c / 64) % 4 * 64 + c % 64 == c,
        b == 0 ==> (a % 4 * 16 + b / 16) % 16 == 0,
        c == 0 ==> (b % 16 * 4 + c / 64) % 4 == 0,
{
    assert((a % 4 * 16 + b / 16) / 16 == a % 4);
    assert((a % 4 * 16 + b / 16) % 16 == b / 16);
    assert((b % 16 * 4 + c / 64) / 4 == b % 16);
    assert((b % 16 * 4 + c / 64) % 4 == c / 64);
}

/// From the base64 text of some data every byte can be read again: four digits
/// stand for three bytes, without padding behind the last.
pub proof fn base64url_reads_as_its_data(data: Seq<u8>, k: int)
    requires
        0 <= k,
        3 * k < data.len(),
    ensures
        ({
            let text = base64url_text(data);
            let first = base64url_value(text[4 * k]);
            let second = base64url_value(text[4 * k + 1]);
            let third = base64url_value(text[4 * k + 2]);
            let fourth = base64url_value(text[4 * k + 3]);
            &&& text.len() == (8 * data.len() + 5) / 6
            &&& data[3 * k] == first * 4 + second / 16
            &&& 3 * k + 1 < data.len() ==> data[3 * k + 1] == second % 16 * 16 + third / 4
            &&& 3 * k + 2 < data.len() ==> data[3 * k + 2] == third % 4 * 64 + fourth
            &&& 3 * k + 1 == data.len() ==> text.len() == 4 * k + 2 && second % 16 == 0
            &&& 3 * k + 2 == data.len() ==> text.len() == 4 * k + 3 && third % 4 == 0
        }),
{
    let text = base64url_text(data);
    let (a, b, c) = (
        byte_or_zero(data, 3 * k),
        byte_or_zero(data, 3 * k + 1),
        byte_or_zero(data, 3 * k + 2),
    );
    sextets_of_three_bytes(data, k);
    sixes_join_into_bytes(a, b, c);
    base64url_digits_have_their_value(a / 4);
    base64url_digits_have_their_value(a % 4 * 16 + b / 16);
    base64url_digits_have_their_value(b % 16 * 4 + c / 64);
    base64url_digits_have_their_value(c % 64);
    assert(4 * k + 1 < text.len());
    assert(text[4 * k] == base64url_char(sextet(data, 4 * k)));
    assert(text[4 * k + 1] == base64url_char(sextet(data, 4 * k + 1)));
    if 3 * k + 1 < data.len() {
        assert(4 * k + 2 < text.len());
        assert(text[4 * k + 2] == base64url_char(sextet(data, 4 * k + 2)));
    }
    if 3 * k + 2 < data.len() {
        assert(4 * k + 3 < text.len());
        assert(text[4 * k + 3] == base64url_char(sextet(data, 4 * k + 3)));
    }
}

/// An optional text is what it holds, and nothing where it holds nothing; the
/// claims of a proof are looked at field by field.
pub proof fn claims_are_looked_at_field_by_field(
    claims: DpopClaims,
    text: String,
    presented: Option<&str>,
)
    ensures
        optional_text(Some(text)) == Some(text@),
        optional_text(None) is None,
        presented is Some ==> optional_str(presented) == Some(presented->0@),
        presented is None ==> optional_str(presented) is None,
        claims@.htm == claims.htm@,
        claims@.htu == claims.htu@,
        claims@.iat == claims.iat,
        claims@.jti == claims.jti@,
        claims.ath is Some ==> claims@.ath == Some(claims.ath->0@),
        claims.ath is None ==> claims@.ath is None,
{
}

} // verus!
