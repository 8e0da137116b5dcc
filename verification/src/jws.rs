//! Signed tokens in the compact form of JSON Web Signature.
use vstd::prelude::*;

use crate::json::{integer_of, json_members, text_of, Json, JsonObject};

use std::str::FromStr;

verus! {

/// The seconds by which the clocks of issuer and reader may differ, as
/// `jsonwebtoken` has it unless told otherwise.
pub const EXPIRY_LEEWAY_SECS: i64 = 60;

#[verifier::external_type_specification]
#[verifier::external_body]
pub struct ExJwtError(jsonwebtoken::errors::Error);

/// What the header of a token says, as far as it is looked at.
pub struct JwsHeader {
    pub typ: Option<String>,
    /// The name of the signature algorithm.
    pub algorithm: String,
    /// Whether the token brings a public key along.
    pub has_jwk: bool,
}

/// A header as plain values.
pub struct JwsHeaderView {
    pub typ: Option<Seq<char>>,
    pub algorithm: Seq<char>,
    pub has_jwk: bool,
}

/// An optional text, as plain text.
pub open spec fn optional_text(text: Option<String>) -> Option<Seq<char>> {
    match text {
        Some(text) => Some(text@),
        None => None,
    }
}

impl View for JwsHeader {
    type V = JwsHeaderView;

    open spec fn view(&self) -> JwsHeaderView {
        JwsHeaderView {
            typ: optional_text(self.typ),
            algorithm: self.algorithm@,
            has_jwk: self.has_jwk,
        }
    }
}

/// What a signature is checked with.
pub enum JwsKey {
    /// A secret that both sides share.
    Secret(Vec<u8>),
    /// The public key that the token itself brings along.
    Embedded,
}

/// A key as plain values.
pub enum JwsKeyView {
    Secret(Seq<u8>),
    Embedded,
}

impl View for JwsKey {
    type V = JwsKeyView;

    open spec fn view(&self) -> JwsKeyView {
        match *self {
            JwsKey::Secret(secret) => JwsKeyView::Secret(secret@),
            JwsKey::Embedded => JwsKeyView::Embedded,
        }
    }
}

/// The header of a token, if the text is one.
pub uninterp spec fn jws_header(token: Seq<char>) -> Option<JwsHeaderView>;

/// Whether the public key that a token brings along names a signature
/// algorithm that is supported.
pub uninterp spec fn jwk_is_supported(token: Seq<char>) -> bool;

/// The RFC 7638 thumbprint, under SHA-256, of the public key that a token
/// brings along.
pub uninterp spec fn jwk_thumbprint(token: Seq<char>) -> Option<Seq<char>>;

/// The claims of a token, if its text is well formed, its header names the
/// algorithm, the key verifies its signature, each of the required registered
/// claims is there, it names no audience, and, where that is checked, it has
/// not expired at that time.
pub uninterp spec fn jws_claims(
    token: Seq<char>,
    algorithm: Seq<char>,
    key: JwsKeyView,
    required: Seq<Seq<char>>,
    check_expiry: bool,
    now: int,
) -> Option<Map<Seq<char>, Json>>;

/// The token that carries claims, signed with a shared secret.
pub uninterp spec fn jws_token(
    claims: Map<Seq<char>, Json>,
    algorithm: Seq<char>,
    secret: Seq<u8>,
) -> Option<Seq<char>>;

/// Holds of a value that is a single text, integer, truth value or null.
pub open spec fn is_scalar(value: Json) -> bool {
    value is Null || value is Bool || value is Text || value matches Json::Number(Some(_))
}

/// The name that `serde_json` reserves for itself: a value that is an object
/// with such a member is read as the JSON text in it, not as an object.
pub open spec fn reserved_name() -> Seq<char> {
    "$serde_json::private::RawValue"@
}

/// Holds of members that are scalars, or objects of scalars without a member
/// of the reserved name.
pub open spec fn is_shallow(members: Map<Seq<char>, Json>) -> bool {
    forall|name: Seq<char>| #[trigger]
        members.contains_key(name) ==> is_scalar(members[name]) || (members[name] matches Json::Object(
            inner,
        ) && !inner.contains_key(reserved_name()) && forall|inner_name: Seq<char>| #[trigger]
            inner.contains_key(inner_name) ==> is_scalar(inner[inner_name]))
}

/// Holds of claims that pass at that time where the required ones are among
/// `exp` and `sub`: they have not expired and restrict nothing else.
pub open spec fn passes(
    claims: Map<Seq<char>, Json>,
    required: Seq<Seq<char>>,
    now: int,
) -> bool {
    &&& !claims.contains_key("aud"@) && !claims.contains_key("iss"@) && !claims.contains_key("nbf"@)
    &&& text_of(claims, "sub"@) is Some
    &&& integer_of(claims, "exp"@) matches Some(exp) && 0 <= exp && now - EXPIRY_LEEWAY_SECS <= exp
    &&& EXPIRY_LEEWAY_SECS <= now
    &&& forall|i: int|
        0 <= i < required.len() ==> #[trigger] required[i] == "exp"@ || required[i] == "sub"@
}

/// The texts of a list.
pub open spec fn texts(list: Seq<String>) -> Seq<Seq<char>> {
    list.map_values(|text: String| text@)
}

/// Holds of a result that is the named one.
pub open spec fn yields_members(
    result: Result<JsonObject, jsonwebtoken::errors::Error>,
    members: Option<Map<Seq<char>, Json>>,
) -> bool {
    match members {
        Some(members) => result is Ok && json_members(result->Ok_0) == members,
        None => result is Err,
    }
}

/// Holds of what decoding a token may yield: its claims as they stand at some
/// time, and at any time where expiry is not checked.
pub open spec fn may_decode_as(
    token: Seq<char>,
    algorithm: Seq<char>,
    key: JwsKeyView,
    required: Seq<Seq<char>>,
    check_expiry: bool,
    result: Result<JsonObject, jsonwebtoken::errors::Error>,
) -> bool {
    &&& exists|now: int|
        0 <= now && yields_members(
            result,
            #[trigger] jws_claims(token, algorithm, key, required, check_expiry, now),
        )
    &&& !check_expiry ==> forall|now: int|
        yields_members(
            result,
            #[trigger] jws_claims(token, algorithm, key, required, check_expiry, now),
        )
}

/// `jsonwebtoken::decode_header`: the header of a token, without a look at
/// its signature. The algorithm is given by its name, and of the embedded key
/// only whether there is one.
#[verifier::external_body]
pub(crate) fn decode_header(token: &str) -> (r: Result<JwsHeader, jsonwebtoken::errors::Error>)
    ensures
        (match jws_header(token@) {
            Some(header) => r is Ok && r->Ok_0@ == header,
            None => r is Err,
        }),
{
    let header = jsonwebtoken::decode_header(token)?;
    let algorithm = format!("{:?}", header.alg);
    Ok(JwsHeader { typ: header.typ, algorithm, has_jwk: header.jwk.is_some() })
}

/// `Jwk::is_supported` on the key in the header of a token: whether it names a
/// signature algorithm of `jsonwebtoken`. False where there is no such key.
#[verifier::external_body]
pub(crate) fn is_supported(token: &str) -> (r: bool)
    ensures
        r == jwk_is_supported(token@),
{
    match jsonwebtoken::decode_header(token) {
        Ok(header) => header.jwk.is_some_and(|jwk| jwk.is_supported()),
        Err(_) => false,
    }
}

/// `Jwk::thumbprint` under SHA-256 on the key in the header of a token.
/// Nothing where there is no such key, or one of a kind that has no
/// thumbprint.
#[verifier::external_body]
pub(crate) fn thumbprint(token: &str) -> (r: Option<String>)
    ensures
        (match jwk_thumbprint(token@) {
            Some(thumbprint) => r is Some && r->0@ == thumbprint,
            None => r is None,
        }),
{
    let jwk = jsonwebtoken::decode_header(token).ok()?.jwk?;
    jwk.thumbprint(jsonwebtoken::jwk::ThumbprintHash::SHA256).ok()
}

/// `jsonwebtoken::decode` into a JSON object, with `DecodingKey::from_secret`
/// or `DecodingKey::from_jwk` on the key in the token's header: the claims of a
/// token that is signed with the key under the algorithm and passes
/// validation. Of members with the same name the last one counts, and a value
/// with the reserved name is read as the JSON text in it. Where expiry
/// is checked, the clock decides it, and a clock within the leeway after the
/// Unix epoch makes the call panic; where it is not checked, the time plays no
/// part.
#[verifier::external_body]
pub(crate) fn decode_claims(
    token: &str,
    algorithm: &str,
    key: &JwsKey,
    required: &Vec<String>,
    check_expiry: bool,
) -> (r: Result<JsonObject, jsonwebtoken::errors::Error>)
    ensures
        may_decode_as(token@, algorithm@, key@, texts(required@), check_expiry, r),
{
    let key = match (key, jsonwebtoken::decode_header(token)?.jwk) {
        (JwsKey::Secret(secret), _) => jsonwebtoken::DecodingKey::from_secret(secret),
        (JwsKey::Embedded, Some(jwk)) => jsonwebtoken::DecodingKey::from_jwk(&jwk)?,
        _ => Err(jsonwebtoken::errors::ErrorKind::InvalidKeyFormat)?,
    };
    let mut validation = jsonwebtoken::Validation::new(jsonwebtoken::Algorithm::from_str(algorithm)?);
    validation.set_required_spec_claims(required);
    validation.validate_exp = check_expiry;
    Ok(jsonwebtoken::decode(token, &key, &validation)?.claims)
}

/// `jsonwebtoken::encode` of a JSON object with `EncodingKey::from_secret`:
/// the signed token. It succeeds under HS256. With the same secret and
/// algorithm the claims are read from it again, unless they have expired or
/// restrict who may read them; an object with the reserved name would not be,
/// so it is left out.
#[verifier::external_body]
pub(crate) fn encode_claims(claims: &JsonObject, algorithm: &str, secret: &Vec<u8>) -> (r: Result<
    String,
    jsonwebtoken::errors::Error,
>)
    requires
        is_shallow(json_members(*claims)),
    ensures
        (match jws_token(json_members(*claims), algorithm@, secret@) {
            Some(token) => r is Ok && r->Ok_0@ == token,
            None => r is Err,
        }),
        algorithm@ == "HS256"@ ==> r is Ok,
        (r matches Ok(token) ==> forall|required: Seq<Seq<char>>, now: int|
            passes(json_members(*claims), required, now) ==> #[trigger] jws_claims(
                token@,
                algorithm@,
                JwsKeyView::Secret(secret@),
                required,
                true,
                now,
            ) == Some(json_members(*claims))),
{
    let header = jsonwebtoken::Header::new(jsonwebtoken::Algorithm::from_str(algorithm)?);
    jsonwebtoken::encode(&header, claims, &jsonwebtoken::EncodingKey::from_secret(secret))
}

} // verus!
