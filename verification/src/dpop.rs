//! DPoP proofs (RFC 9449): signed statements by which a client shows that it
//! holds a key, for one request.
use vstd::prelude::*;

use crate::json::{
    integer_member, integer_of, json_members, member, text_member, text_of, Json, JsonMember,
    JsonObject,
};
use crate::jws::{
    decode_claims, decode_header, is_supported, jwk_is_supported, jwk_thumbprint, jws_claims,
    jws_header, optional_text, texts, thumbprint, JwsKey, JwsKeyView,
};
use crate::random::{sha256, sha256_digest};
use crate::store::StoreError;
use crate::time::{seconds_read, unix_now, utc_now, utc_read, Timestamp, NANOS_PER_SECOND};

use base64::Engine;

verus! {

/// How long a proof is accepted after its `iat`. It bounds how long a `jti`
/// has to be remembered and how long a captured proof stays dangerous.
pub const REPLAY_WINDOW_SECS: i64 = 300;

/// How far a client's clock may run ahead.
pub const CLOCK_SKEW_SECS: i64 = 60;

/// The only signature algorithm that is accepted, which leaves no room for
/// confusing one with another.
pub const DPOP_ALGORITHM: &'static str = "ES256";

pub const DPOP_TYP: &'static str = "dpop+jwt";

/// The longest URL that can be written, in bytes: `url` counts positions in it
/// with 32 bits.
pub const MAX_URL_LEN: u64 = 0xffff_ffff;

#[derive(Debug)]
pub enum DpopError {
    Missing,
    Malformed,
    WrongAlgorithm,
    WrongType,
    MethodMismatch,
    UriMismatch,
    Stale,
    FutureIat,
    AthMismatch,
    KeyMismatch,
    Replayed,
    Backend(String),
}

/// What a caller is told of an error.
pub open spec fn dpop_error_message(error: DpopError) -> Seq<char> {
    match error {
        DpopError::Missing => "a DPoP proof is required"@,
        DpopError::Malformed => "the DPoP proof is malformed"@,
        DpopError::WrongAlgorithm => "unsupported DPoP proof algorithm"@,
        DpopError::WrongType => "DPoP proof has the wrong typ"@,
        DpopError::MethodMismatch => "DPoP proof htm does not match the request"@,
        DpopError::UriMismatch => "DPoP proof htu does not match the request"@,
        DpopError::Stale => "DPoP proof is too old"@,
        DpopError::FutureIat => "DPoP proof iat is too far in the future"@,
        DpopError::AthMismatch => "DPoP proof does not match the presented access token"@,
        DpopError::KeyMismatch => "DPoP proof key does not match the token binding"@,
        DpopError::Replayed => "DPoP proof has already been used"@,
        DpopError::Backend(_) => "failed to process DPoP proof"@,
    }
}

impl DpopError {
    /// What a caller is told. The status of the response is up to each
    /// endpoint.
    pub fn message(&self) -> (r: &'static str)
        ensures
            r@ == dpop_error_message(*self),
    {
        match self {
            DpopError::Missing => "a DPoP proof is required",
            DpopError::Malformed => "the DPoP proof is malformed",
            DpopError::WrongAlgorithm => "unsupported DPoP proof algorithm",
            DpopError::WrongType => "DPoP proof has the wrong typ",
            DpopError::MethodMismatch => "DPoP proof htm does not match the request",
            DpopError::UriMismatch => "DPoP proof htu does not match the request",
            DpopError::Stale => "DPoP proof is too old",
            DpopError::FutureIat => "DPoP proof iat is too far in the future",
            DpopError::AthMismatch => "DPoP proof does not match the presented access token",
            DpopError::KeyMismatch => "DPoP proof key does not match the token binding",
            DpopError::Replayed => "DPoP proof has already been used",
            DpopError::Backend(_) => "failed to process DPoP proof",
        }
    }
}

/// The parts of a URL that a proof is held to, and how long the URL is when it
/// is written out.
pub struct UrlParts {
    pub scheme: String,
    pub host: Option<String>,
    pub port: Option<u16>,
    pub path: String,
    pub length: usize,
}

/// The parts of a URL as plain text.
pub struct UrlPartsView {
    pub scheme: Seq<char>,
    pub host: Option<Seq<char>>,
    pub port: Option<u16>,
    pub path: Seq<char>,
    pub length: usize,
}

impl View for UrlParts {
    type V = UrlPartsView;

    open spec fn view(&self) -> UrlPartsView {
        UrlPartsView {
            scheme: self.scheme@,
            host: optional_text(self.host),
            port: self.port,
            path: self.path@,
            length: self.length,
        }
    }
}

#[verifier::external_type_specification]
#[verifier::external_body]
pub struct ExUrlParseError(url::ParseError);

/// The parts of a URL, if the text is one. The port is the usual one of the
/// scheme where none is given.
pub uninterp spec fn url_parts(text: Seq<char>) -> Option<UrlPartsView>;

/// The parts of a URL whose path has been replaced, if the text is one.
pub uninterp spec fn url_parts_with_path(text: Seq<char>, path: Seq<char>) -> Option<UrlPartsView>;

/// `url::Url::parse`: the scheme, host, port and path of a URL, as `scheme`,
/// `host_str`, `port_or_known_default` and `path` give them, and the length of
/// `as_str`, in bytes.
#[verifier::external_body]
fn parse_url(text: &str) -> (r: Result<UrlParts, url::ParseError>)
    ensures
        (match url_parts(text@) {
            Some(parts) => r is Ok && r->Ok_0@ == parts,
            None => r is Err,
        }),
{
    let url = url::Url::parse(text)?;
    Ok(UrlParts {
        scheme: url.scheme().to_string(),
        host: url.host_str().map(String::from),
        port: url.port_or_known_default(),
        path: url.path().to_string(),
        length: url.as_str().len(),
    })
}

/// `url::Url::set_path` on a URL: the same parts, once the path has been
/// replaced. It succeeds exactly where the text is a URL. Where the URL would
/// then be longer than it can count, it panics; a path grows to three times its
/// length at most when it is written out, and by a leading slash.
#[verifier::external_body]
fn parse_url_with_path(text: &str, path: &str) -> (r: Result<UrlParts, url::ParseError>)
    requires
        fits_url(text@, path@),
    ensures
        (match url_parts_with_path(text@, path@) {
            Some(parts) => r is Ok && r->Ok_0@ == parts,
            None => r is Err,
        }),
        r is Ok <==> url_parts(text@) is Some,
{
    let mut url = url::Url::parse(text)?;
    url.set_path(path);
    Ok(UrlParts {
        scheme: url.scheme().to_string(),
        host: url.host_str().map(String::from),
        port: url.port_or_known_default(),
        path: url.path().to_string(),
        length: url.as_str().len(),
    })
}

/// The character that stands for six bits in the URL-safe alphabet.
pub open spec fn base64url_char(n: int) -> char {
    if n < 26 {
        ('A' as u32 + n) as char
    } else if n < 52 {
        ('a' as u32 + (n - 26)) as char
    } else if n < 62 {
        ('0' as u32 + (n - 52)) as char
    } else if n == 62 {
        '-'
    } else {
        '_'
    }
}

/// A byte of the data, and zeros behind its end.
pub open spec fn byte_or_zero(data: Seq<u8>, i: int) -> int {
    if i < data.len() {
        data[i] as int
    } else {
        0
    }
}

/// The six bits of the data that begin at bit `6 * i`, counted from the front.
pub open spec fn sextet(data: Seq<u8>, i: int) -> int {
    let pair = byte_or_zero(data, 6 * i / 8) * 256 + byte_or_zero(data, 6 * i / 8 + 1);
    let offset = (6 * i) % 8;
    if offset == 0 {
        pair / 1024
    } else if offset == 2 {
        pair / 256 % 64
    } else if offset == 4 {
        pair / 64 % 64
    } else {
        pair / 16 % 64
    }
}

/// The unpadded URL-safe base64 text of the data.
pub open spec fn base64url_text(data: Seq<u8>) -> Seq<char> {
    Seq::new((8 * data.len() + 5) / 6, |i: int| base64url_char(sextet(data, i)))
}

/// `base64::engine::general_purpose::URL_SAFE_NO_PAD.encode`: the unpadded
/// base64 text of the data in the URL-safe alphabet of RFC 4648.
#[verifier::external_body]
fn base64url(data: &Vec<u8>) -> (r: String)
    ensures
        r@ == base64url_text(data@),
{
    base64::engine::general_purpose::URL_SAFE_NO_PAD.encode(data)
}

/// The text given as a base URL is none.
#[derive(Debug)]
pub struct InvalidBaseUrl;

/// The server's own address, to which the `htu` of a proof is held. It is
/// configured, not taken from request headers, which nothing here trusts.
pub struct PublicBaseUrl {
    pub raw: String,
}

/// Holds of a base URL and a path that are not too long to be put together,
/// however the path is written out.
pub open spec fn fits_url(base_url: Seq<char>, path: Seq<char>) -> bool {
    url_parts(base_url) matches Some(parts) && parts.length + 3 * vstd::utf8::encode_utf8(path).len()
        + 4 <= MAX_URL_LEN
}

/// Holds of URLs that agree in scheme, host, port and path.
pub open spec fn same_place(a: UrlPartsView, b: UrlPartsView) -> bool {
    a.scheme == b.scheme && a.host == b.host && a.port == b.port && a.path == b.path
}

/// Holds where a claimed `htu` names the server and the path: scheme, host,
/// port and path agree, without any other leniency.
pub open spec fn htu_matches(base_url: Seq<char>, claimed_htu: Seq<char>, path: Seq<char>) -> bool {
    &&& fits_url(base_url, path)
    &&& url_parts(claimed_htu) matches Some(presented)
    &&& url_parts_with_path(base_url, path) matches Some(expected)
    &&& same_place(presented, expected)
}

fn same_optional_text(a: &Option<String>, b: &Option<String>) -> (r: bool)
    ensures
        r == (optional_text(*a) == optional_text(*b)),
{
    match (a, b) {
        (Some(a), Some(b)) => *a == *b,
        (None, None) => true,
        _ => false,
    }
}

impl PublicBaseUrl {
    pub fn parse(raw: &str) -> (r: Result<PublicBaseUrl, InvalidBaseUrl>)
        ensures
            r is Ok <==> url_parts(raw@) is Some,
            r matches Ok(base_url) ==> base_url.raw@ == raw@,
    {
        match parse_url(raw) {
            Ok(_) => Ok(PublicBaseUrl { raw: raw.to_string() }),
            Err(_) => Err(InvalidBaseUrl),
        }
    }

    pub fn matches_htu(&self, claimed_htu: &str, path: &str) -> (r: bool)
        ensures
            r == htu_matches(self.raw@, claimed_htu@, path@),
    {
        let base = match parse_url(self.raw.as_str()) {
            Ok(base) => base,
            Err(_) => {
                return false;
            },
        };
        let longest: u128 = base.length as u128 + 3 * path.as_bytes().len() as u128 + 4;
        if longest > MAX_URL_LEN as u128 {
            return false;
        }
        let presented = match parse_url(claimed_htu) {
            Ok(presented) => presented,
            Err(_) => {
                return false;
            },
        };
        let expected = match parse_url_with_path(self.raw.as_str(), path) {
            Ok(expected) => expected,
            Err(_) => {
                return false;
            },
        };
        let same_port: bool = match (presented.port, expected.port) {
            (Some(a), Some(b)) => a == b,
            (None, None) => true,
            _ => false,
        };
        presented.scheme == expected.scheme && same_optional_text(&presented.host, &expected.host)
            && same_port && presented.path == expected.path
    }
}

/// What a proof claims.
pub struct DpopClaims {
    pub htm: String,
    pub htu: String,
    pub iat: i64,
    pub jti: String,
    pub ath: Option<String>,
}

/// What a proof claims, as plain values.
pub struct DpopClaimsView {
    pub htm: Seq<char>,
    pub htu: Seq<char>,
    pub iat: i64,
    pub jti: Seq<char>,
    pub ath: Option<Seq<char>>,
}

impl View for DpopClaims {
    type V = DpopClaimsView;

    open spec fn view(&self) -> DpopClaimsView {
        DpopClaimsView {
            htm: self.htm@,
            htu: self.htu@,
            iat: self.iat,
            jti: self.jti@,
            ath: optional_text(self.ath),
        }
    }
}

/// Holds of an object whose `ath` is a text, null, or left out.
pub open spec fn ath_well_typed(members: Map<Seq<char>, Json>) -> bool {
    members.contains_key("ath"@) ==> members["ath"@] is Text || members["ath"@] is Null
}

/// The claims that an object carries; nothing where one is missing or of the
/// wrong type.
pub open spec fn dpop_claims_in(members: Map<Seq<char>, Json>) -> Option<DpopClaimsView> {
    match (
        text_of(members, "htm"@),
        text_of(members, "htu"@),
        integer_of(members, "iat"@),
        text_of(members, "jti"@),
        ath_well_typed(members),
    ) {
        (Some(htm), Some(htu), Some(iat), Some(jti), true) => Some(
            DpopClaimsView { htm, htu, iat, jti, ath: text_of(members, "ath"@) },
        ),
        _ => None,
    }
}

/// Reads what a proof claims from a JSON object.
pub fn dpop_claims_from_object(object: &JsonObject) -> (r: Option<DpopClaims>)
    ensures
        (match dpop_claims_in(json_members(*object)) {
            Some(claims) => r is Some && r->0@ == claims,
            None => r is None,
        }),
{
    let ath: Option<String> = match member(object, "ath") {
        None => None,
        Some(JsonMember::Null) => None,
        Some(JsonMember::Text(ath)) => Some(ath),
        Some(_) => {
            return None;
        },
    };
    let htm = text_member(object, "htm");
    let htu = text_member(object, "htu");
    let iat = integer_member(object, "iat");
    let jti = text_member(object, "jti");
    match (htm, htu, iat, jti) {
        (Some(htm), Some(htu), Some(iat), Some(jti)) => Some(DpopClaims { htm, htu, iat, jti, ath }),
        _ => None,
    }
}

/// The `ath` that goes with an access token.
pub open spec fn access_token_hash(token: Seq<char>) -> Seq<char> {
    base64url_text(sha256_digest(vstd::utf8::encode_utf8(token)))
}

/// What is wrong with claims, if anything, for a request with that method and
/// path that presents that access token, at that second.
pub open spec fn claims_error(
    claims: DpopClaimsView,
    method: Seq<char>,
    base_url: Seq<char>,
    path: Seq<char>,
    bearer_token: Option<Seq<char>>,
    now: int,
) -> Option<DpopError> {
    if claims.htm != method {
        Some(DpopError::MethodMismatch)
    } else if !htu_matches(base_url, claims.htu, path) {
        Some(DpopError::UriMismatch)
    } else if now - claims.iat > REPLAY_WINDOW_SECS {
        Some(DpopError::Stale)
    } else if claims.iat - now > CLOCK_SKEW_SECS {
        Some(DpopError::FutureIat)
    } else if bearer_token matches Some(token) && claims.ath != Some(access_token_hash(token)) {
        Some(DpopError::AthMismatch)
    } else {
        None
    }
}

/// What is wrong with the header of a proof, if anything. It has to bring
/// along the key that the proof is to be verified with.
pub open spec fn header_error(proof: Seq<char>) -> Option<DpopError> {
    match jws_header(proof) {
        None => Some(DpopError::Malformed),
        Some(header) => if header.typ != Some(DPOP_TYP@) {
            Some(DpopError::WrongType)
        } else if header.algorithm != DPOP_ALGORITHM@ {
            Some(DpopError::WrongAlgorithm)
        } else if !header.has_jwk || !jwk_is_supported(proof) {
            Some(DpopError::Malformed)
        } else {
            None
        },
    }
}

/// What a proof claims, if the key that it brings along verifies its
/// signature.
pub open spec fn verified_claims(proof: Seq<char>) -> Option<DpopClaimsView> {
    match jws_claims(
        proof,
        DPOP_ALGORITHM@,
        JwsKeyView::Embedded,
        Seq::<Seq<char>>::empty(),
        false,
        0,
    ) {
        Some(members) => dpop_claims_in(members),
        None => None,
    }
}

/// What becomes of a proof before its `jti` is looked at: the thumbprint of
/// its key and its `jti`, or what is wrong with it.
pub open spec fn proof_verdict(
    proof: Seq<char>,
    method: Seq<char>,
    base_url: Seq<char>,
    path: Seq<char>,
    bearer_token: Option<Seq<char>>,
    now: int,
) -> Result<(Seq<char>, Seq<char>), DpopError> {
    match header_error(proof) {
        Some(error) => Err(error),
        None => match verified_claims(proof) {
            None => Err(DpopError::Malformed),
            Some(claims) => match claims_error(claims, method, base_url, path, bearer_token, now) {
                Some(error) => Err(error),
                None => match jwk_thumbprint(proof) {
                    Some(jkt) => Ok((jkt, claims.jti)),
                    None => Err(DpopError::Malformed),
                },
            },
        },
    }
}

/// What a valid proof yields: the thumbprint of its key, and the `jti` under
/// which it was presented.
#[derive(Debug)]
pub struct DpopProof {
    pub jkt: String,
    pub jti: String,
}

/// A proof that is valid if its `jti` has not been seen before. The `jti` is
/// to be kept until `expires_at`.
pub struct PendingDpopProof {
    pub proof: DpopProof,
    pub expires_at: Timestamp,
}

/// An optional reference to a text, as plain text.
pub open spec fn optional_str(text: Option<&str>) -> Option<Seq<char>> {
    match text {
        Some(text) => Some(text@),
        None => None,
    }
}

/// Holds of what validating a proof yields at that second and time of day.
pub open spec fn validated_at(
    proof: Seq<char>,
    method: Seq<char>,
    base_url: Seq<char>,
    path: Seq<char>,
    bearer_token: Option<Seq<char>>,
    now: u64,
    utc: Timestamp,
    result: Result<PendingDpopProof, DpopError>,
) -> bool {
    match proof_verdict(proof, method, base_url, path, bearer_token, now as int) {
        Ok((jkt, jti)) => result matches Ok(pending) && {
            &&& pending.proof.jkt@ == jkt
            &&& pending.proof.jti@ == jti
            &&& pending.expires_at.nanos == utc.after(REPLAY_WINDOW_SECS + CLOCK_SKEW_SECS)
        },
        Err(error) => result == Err::<PendingDpopProof, DpopError>(error),
    }
}

/// Checks claims against the request.
pub fn check_claims(
    claims: &DpopClaims,
    method: &str,
    base_url: &PublicBaseUrl,
    path: &str,
    bearer_token: Option<&str>,
    now: u64,
) -> (r: Result<(), DpopError>)
    ensures
        r == (match claims_error(
            claims@,
            method@,
            base_url.raw@,
            path@,
            optional_str(bearer_token),
            now as int,
        ) {
            Some(error) => Err(error),
            None => Ok(()),
        }),
{
    let method = method.to_string();
    if claims.htm != method {
        return Err(DpopError::MethodMismatch);
    }
    if !base_url.matches_htu(claims.htu.as_str(), path) {
        return Err(DpopError::UriMismatch);
    }
    let age: i128 = now as i128 - claims.iat as i128;
    if age > REPLAY_WINDOW_SECS as i128 {
        return Err(DpopError::Stale);
    }
    if -age > CLOCK_SKEW_SECS as i128 {
        return Err(DpopError::FutureIat);
    }
    if let Some(token) = bearer_token {
        let expected_ath = base64url(&sha256(token.as_bytes()));
        let matches: bool = match &claims.ath {
            Some(ath) => *ath == expected_ath,
            None => false,
        };
        if !matches {
            return Err(DpopError::AthMismatch);
        }
    }
    Ok(())
}

fn is_text(text: &Option<String>, expected: &str) -> (r: bool)
    ensures
        r == (optional_text(*text) == Some(expected@)),
{
    match text {
        Some(text) => {
            let expected = expected.to_string();
            *text == expected
        },
        None => false,
    }
}

/// Validates a proof against a request at that second and time of day, up to
/// the question whether its `jti` has been seen.
pub fn validate_dpop_proof_at(
    proof: &str,
    method: &str,
    base_url: &PublicBaseUrl,
    path: &str,
    bearer_token: Option<&str>,
    now: u64,
    utc: Timestamp,
) -> (r: Result<PendingDpopProof, DpopError>)
    requires
        utc.valid(),
    ensures
        validated_at(
            proof@,
            method@,
            base_url.raw@,
            path@,
            optional_str(bearer_token),
            now,
            utc,
            r,
        ),
{
    let header = match decode_header(proof) {
        Ok(header) => header,
        Err(_) => {
            return Err(DpopError::Malformed);
        },
    };
    if !is_text(&header.typ, DPOP_TYP) {
        return Err(DpopError::WrongType);
    }
    let algorithm = DPOP_ALGORITHM.to_string();
    if header.algorithm != algorithm {
        return Err(DpopError::WrongAlgorithm);
    }
    if !header.has_jwk || !is_supported(proof) {
        return Err(DpopError::Malformed);
    }
    // A proof has no `exp`; how fresh it is follows from its `iat`.
    let required: Vec<String> = Vec::new();
    assert(texts(required@) =~= Seq::<Seq<char>>::empty());
    let object = match decode_claims(proof, DPOP_ALGORITHM, &JwsKey::Embedded, &required, false) {
        Ok(object) => object,
        Err(_) => {
            return Err(DpopError::Malformed);
        },
    };
    let claims = match dpop_claims_from_object(&object) {
        Some(claims) => claims,
        None => {
            return Err(DpopError::Malformed);
        },
    };
    match check_claims(&claims, method, base_url, path, bearer_token, now) {
        Ok(()) => {},
        Err(error) => {
            return Err(error);
        },
    }
    match thumbprint(proof) {
        Some(jkt) => Ok(
            PendingDpopProof {
                proof: DpopProof { jkt, jti: claims.jti },
                expires_at: utc.plus_seconds(REPLAY_WINDOW_SECS + CLOCK_SKEW_SECS),
            },
        ),
        None => Err(DpopError::Malformed),
    }
}

/// Validates a proof against a request. `bearer_token` is the access token
/// that the request presents, which the proof has to name, or nothing where
/// there is none yet. Whether the key is the one a token is bound to is for
/// the caller to compare.
pub fn validate_dpop_proof(
    proof: &str,
    method: &str,
    base_url: &PublicBaseUrl,
    path: &str,
    bearer_token: Option<&str>,
) -> (r: Result<PendingDpopProof, DpopError>)
    ensures
        exists|now: u64, utc: Timestamp|
            utc.valid() && utc_read(utc) && seconds_read(now) && #[trigger] validated_at(
                proof@,
                method@,
                base_url.raw@,
                path@,
                optional_str(bearer_token),
                now,
                utc,
                r,
            ),
{
    let now: u64 = unix_now();
    let utc = utc_now();
    validate_dpop_proof_at(proof, method, base_url, path, bearer_token, now, utc)
}

/// What a caller learns once the store has been asked to record the `jti`.
pub open spec fn recorded(
    proof: DpopProof,
    insertion: Result<(), StoreError>,
    result: Result<DpopProof, DpopError>,
) -> bool {
    match insertion {
        Ok(_) => result == Ok::<DpopProof, DpopError>(proof),
        Err(StoreError::Replayed) => result == Err::<DpopProof, DpopError>(DpopError::Replayed),
        Err(StoreError::Backend(message)) => result == Err::<DpopProof, DpopError>(
            DpopError::Backend(message),
        ),
        Err(other) => result matches Err(DpopError::Backend(message)) && message@ == "unexpected "@
            + unexpected_name(other) + " from replay store"@,
    }
}

/// The name of an error that no replay store gives.
pub open spec fn unexpected_name(error: StoreError) -> Seq<char> {
    match error {
        StoreError::DuplicateEmail => "DuplicateEmail"@,
        StoreError::NotFound => "NotFound"@,
        StoreError::Expired => "Expired"@,
        StoreError::Reused => "Reused"@,
        StoreError::MfaAlreadyEnrolled => "MfaAlreadyEnrolled"@,
        _ => ""@,
    }
}

fn unexpected(name: &str) -> (r: DpopError)
    ensures
        r matches DpopError::Backend(message) && message@ == "unexpected "@ + name@
            + " from replay store"@,
{
    let mut message = "unexpected ".to_string();
    message.append(name);
    message.append(" from replay store");
    DpopError::Backend(message)
}

/// Concludes the validation of a proof with the answer of the replay store.
pub fn finish_dpop_proof(proof: DpopProof, insertion: Result<(), StoreError>) -> (r: Result<
    DpopProof,
    DpopError,
>)
    ensures
        recorded(proof, insertion, r),
{
    match insertion {
        Ok(()) => Ok(proof),
        Err(StoreError::Replayed) => Err(DpopError::Replayed),
        Err(StoreError::Backend(message)) => Err(DpopError::Backend(message)),
        Err(StoreError::DuplicateEmail) => Err(unexpected("DuplicateEmail")),
        Err(StoreError::NotFound) => Err(unexpected("NotFound")),
        Err(StoreError::Expired) => Err(unexpected("Expired")),
        Err(StoreError::Reused) => Err(unexpected("Reused")),
        Err(StoreError::MfaAlreadyEnrolled) => Err(unexpected("MfaAlreadyEnrolled")),
    }
}

/// What a replay store answers: it takes each `jti` once.
pub open spec fn insertion_of(seen: Set<Seq<char>>, jti: Seq<char>) -> Result<(), StoreError> {
    if seen.contains(jti) {
        Err(StoreError::Replayed)
    } else {
        Ok(())
    }
}

/// Once a `jti` has been recorded, every proof that names it is rejected, the
/// same one or another, by whatever key and after whatever other proofs, as
/// long as the `jti` is remembered.
pub proof fn replayed_proofs_are_rejected(
    seen: Set<Seq<char>>,
    proof: DpopProof,
    first: Result<DpopProof, DpopError>,
    later: Set<Seq<char>>,
    other: DpopProof,
    again: Result<DpopProof, DpopError>,
)
    requires
        recorded(proof, insertion_of(seen, proof.jti@), first),
        seen.insert(proof.jti@).subset_of(later),
        other.jti@ == proof.jti@,
        recorded(other, insertion_of(later, other.jti@), again),
    ensures
        again == Err::<DpopProof, DpopError>(DpopError::Replayed),
        first is Ok <==> !seen.contains(proof.jti@),
{
}

/// A `jti` is kept for as long as its proof could be accepted: whenever a
/// proof that was accepted at `now` is fresh enough once more, the time to
/// forget it has not passed.
pub proof fn jti_outlives_its_proof(
    claims: DpopClaimsView,
    method: Seq<char>,
    base_url: Seq<char>,
    path: Seq<char>,
    bearer_token: Option<Seq<char>>,
    now: int,
    utc: Timestamp,
    later: int,
)
    requires
        claims_error(claims, method, base_url, path, bearer_token, now) is None,
        utc.nanos >= now * NANOS_PER_SECOND,
        claims_error(claims, method, base_url, path, bearer_token, later) is None,
    ensures
        later * NANOS_PER_SECOND <= utc.after(REPLAY_WINDOW_SECS + CLOCK_SKEW_SECS),
{
}

/// A proof that is accepted names the method, the address and, where one is
/// presented, the access token of the request, and is fresh.
pub proof fn accepted_proofs_fit_the_request(
    proof: Seq<char>,
    method: Seq<char>,
    base_url: Seq<char>,
    path: Seq<char>,
    bearer_token: Option<Seq<char>>,
    now: int,
)
    requires
        proof_verdict(proof, method, base_url, path, bearer_token, now) is Ok,
    ensures
        header_error(proof) is None,
        verified_claims(proof) matches Some(claims) && {
            &&& claims.htm == method
            &&& htu_matches(base_url, claims.htu, path)
            &&& now - REPLAY_WINDOW_SECS <= claims.iat <= now + CLOCK_SKEW_SECS
            &&& bearer_token matches Some(token) ==> claims.ath == Some(access_token_hash(token))
            &&& jwk_thumbprint(proof) == Some(
                proof_verdict(proof, method, base_url, path, bearer_token, now)->Ok_0.0,
            )
        },
{
}

} // verus!
