//! Access tokens: short-lived, bound to a DPoP key, with minimal claims.
use vstd::prelude::*;

use crate::json::{
    integer_member, integer_of, json_members, new_object, object_member, object_of, set_member,
    text_member, text_of, Json, JsonObject, NewMember,
};
use crate::jws::{
    decode_claims, encode_claims, is_shallow, jws_claims, jws_token, passes, reserved_name, texts,
    yields_members, JwsKey, JwsKeyView, EXPIRY_LEEWAY_SECS,
};
use crate::random::{generate_opaque_token, is_opaque_token, is_random_token};
use crate::time::{seconds_read, unix_now};

verus! {

// An access token cannot be revoked, so its time to live is the only lever
// against a leak. Fixed policy, not a matter of deployment. In seconds.
pub const ACCESS_TOKEN_TTL: u64 = 600;

/// The signature algorithm of access tokens.
pub const ACCESS_TOKEN_ALGORITHM: &'static str = "HS256";

/// The number of random bytes in the `jti` of an access token.
pub const JTI_BYTE_LEN: usize = 16;

/// The shortest signing secret that is accepted, in bytes.
pub const MIN_SIGNING_SECRET_LEN: usize = 32;

/// The confirmation claim of RFC 7800, which binds a token to a key.
#[derive(Debug)]
pub struct ConfirmationClaim {
    pub jkt: String,
}

/// What an access token says: who, from when, until when, and for which key.
/// `sub` is the opaque user id, never the email address.
#[derive(Debug)]
pub struct JwtClaims {
    pub sub: String,
    pub iat: i64,
    pub exp: i64,
    pub jti: String,
    pub cnf: ConfirmationClaim,
}

/// Claims as plain values.
pub struct JwtClaimsView {
    pub sub: Seq<char>,
    pub iat: i64,
    pub exp: i64,
    pub jti: Seq<char>,
    pub jkt: Seq<char>,
}

impl View for JwtClaims {
    type V = JwtClaimsView;

    open spec fn view(&self) -> JwtClaimsView {
        JwtClaimsView {
            sub: self.sub@,
            iat: self.iat,
            exp: self.exp,
            jti: self.jti@,
            jkt: self.cnf.jkt@,
        }
    }
}

#[derive(Debug, Clone, Copy, PartialEq, Eq, Structural)]
pub enum TokenError {
    /// The clock stands so far ahead that the end of the token cannot be
    /// written.
    ClockOutOfRange,
    /// The token could not be signed.
    NotSigned,
    /// The token is malformed, forged or expired.
    Invalid,
}

/// Holds the signing secret; hence neither shown nor copied.
pub struct JwtKeys {
    pub secret: Vec<u8>,
    pub ttl_secs: u64,
}

/// The members of the object that carries claims.
pub open spec fn claims_object(claims: JwtClaimsView) -> Map<Seq<char>, Json> {
    Map::<Seq<char>, Json>::empty().insert("sub"@, Json::Text(claims.sub)).insert(
        "iat"@,
        Json::Number(Some(claims.iat)),
    ).insert("exp"@, Json::Number(Some(claims.exp))).insert("jti"@, Json::Text(claims.jti)).insert(
        "cnf"@,
        Json::Object(Map::<Seq<char>, Json>::empty().insert("jkt"@, Json::Text(claims.jkt))),
    )
}

/// The claims that an object carries; nothing where one is missing or of the
/// wrong type.
pub open spec fn claims_in(members: Map<Seq<char>, Json>) -> Option<JwtClaimsView> {
    match (
        text_of(members, "sub"@),
        integer_of(members, "iat"@),
        integer_of(members, "exp"@),
        text_of(members, "jti"@),
        object_of(members, "cnf"@),
    ) {
        (Some(sub), Some(iat), Some(exp), Some(jti), Some(cnf)) => match text_of(cnf, "jkt"@) {
            Some(jkt) => Some(JwtClaimsView { sub, iat, exp, jti, jkt }),
            None => None,
        },
        _ => None,
    }
}

/// The registered claims that an access token cannot do without.
pub open spec fn required_claims() -> Seq<Seq<char>> {
    seq!["exp"@, "sub"@]
}

/// Holds where a token issued at that second would end past what its claims
/// can say.
pub open spec fn ends_out_of_range(now: u64, ttl_secs: u64) -> bool {
    now + ttl_secs > i64::MAX
}

/// The text of a token that was issued with its claims.
pub open spec fn issued_text(result: Result<(String, JwtClaims), TokenError>) -> Result<
    Seq<char>,
    TokenError,
> {
    match result {
        Ok((token, _)) => Ok(token@),
        Err(error) => Err(error),
    }
}

/// The names of the claims are told apart.
proof fn claim_names_differ()
    ensures
        "sub"@ != "iat"@,
        "sub"@ != "exp"@,
        "sub"@ != "jti"@,
        "sub"@ != "cnf"@,
        "iat"@ != "exp"@,
        "iat"@ != "jti"@,
        "iat"@ != "cnf"@,
        "exp"@ != "jti"@,
        "exp"@ != "cnf"@,
        "jti"@ != "cnf"@,
        !seq!["sub"@, "iat"@, "exp"@, "jti"@, "cnf"@].contains("aud"@),
        !seq!["sub"@, "iat"@, "exp"@, "jti"@, "cnf"@].contains("iss"@),
        !seq!["sub"@, "iat"@, "exp"@, "jti"@, "cnf"@].contains("nbf"@),
{
    reveal_strlit("sub");
    reveal_strlit("iat");
    reveal_strlit("exp");
    reveal_strlit("jti");
    reveal_strlit("cnf");
    reveal_strlit("aud");
    reveal_strlit("iss");
    reveal_strlit("nbf");
    assert("sub"@[0] == 's' && "iat"@[0] == 'i' && "exp"@[0] == 'e' && "jti"@[0] == 'j'
        && "cnf"@[0] == 'c' && "aud"@[0] == 'a' && "nbf"@[0] == 'n');
    assert("iss"@[0] == 'i' && "iss"@[1] == 's' && "iat"@[1] == 'a');
}

/// What is written of claims is read from them again.
pub proof fn claims_roundtrip(claims: JwtClaimsView)
    ensures
        claims_in(claims_object(claims)) == Some(claims),
        is_shallow(claims_object(claims)),
        forall|now: int|
            0 <= claims.exp && EXPIRY_LEEWAY_SECS <= now <= claims.exp + EXPIRY_LEEWAY_SECS
                ==> #[trigger] passes(claims_object(claims), required_claims(), now),
{
    claim_names_differ();
    reveal_strlit("jkt");
    reveal_strlit("$serde_json::private::RawValue");
    assert("jkt"@.len() != reserved_name().len());
    let members = claims_object(claims);
    let names = seq!["sub"@, "iat"@, "exp"@, "jti"@, "cnf"@];
    assert(names[0] == "sub"@ && names[1] == "iat"@ && names[2] == "exp"@ && names[3] == "jti"@
        && names[4] == "cnf"@);
    assert forall|name: Seq<char>| #[trigger] members.contains_key(name) implies names.contains(
        name,
    ) by {}
    assert(claims_in(members) == Some(claims));
}

/// An access token carries these five claims and nothing else: no email
/// address, no permissions.
pub proof fn claims_are_minimal(claims: JwtClaimsView)
    ensures
        claims_object(claims).dom() == set!["sub"@, "iat"@, "exp"@, "jti"@, "cnf"@],
{
    assert(claims_object(claims).dom() =~= set!["sub"@, "iat"@, "exp"@, "jti"@, "cnf"@]);
}

/// The claims that a token carries at that time, if it was signed with the
/// secret and has not expired.
pub open spec fn access_claims(token: Seq<char>, secret: Seq<u8>, now: int) -> Option<
    JwtClaimsView,
> {
    match jws_claims(
        token,
        ACCESS_TOKEN_ALGORITHM@,
        JwsKeyView::Secret(secret),
        required_claims(),
        true,
        now,
    ) {
        Some(members) => claims_in(members),
        None => None,
    }
}

/// Writes claims as a JSON object.
fn claims_to_object(claims: &JwtClaims) -> (r: JsonObject)
    ensures
        json_members(r) == claims_object(claims@),
{
    let mut cnf = new_object();
    set_member(&mut cnf, "jkt", NewMember::Text(claims.cnf.jkt.clone()));
    let mut object = new_object();
    set_member(&mut object, "sub", NewMember::Text(claims.sub.clone()));
    set_member(&mut object, "iat", NewMember::Integer(claims.iat));
    set_member(&mut object, "exp", NewMember::Integer(claims.exp));
    set_member(&mut object, "jti", NewMember::Text(claims.jti.clone()));
    set_member(&mut object, "cnf", NewMember::Object(cnf));
    object
}

/// Reads the claims that a JSON object carries.
pub fn claims_from_object(object: &JsonObject) -> (r: Option<JwtClaims>)
    ensures
        (match claims_in(json_members(*object)) {
            Some(claims) => r is Some && r->0@ == claims,
            None => r is None,
        }),
{
    let sub = text_member(object, "sub");
    let iat = integer_member(object, "iat");
    let exp = integer_member(object, "exp");
    let jti = text_member(object, "jti");
    let cnf = object_member(object, "cnf");
    match (sub, iat, exp, jti, cnf) {
        (Some(sub), Some(iat), Some(exp), Some(jti), Some(cnf)) => match text_member(
            &cnf,
            "jkt",
        ) {
            Some(jkt) => Some(JwtClaims { sub, iat, exp, jti, cnf: ConfirmationClaim { jkt } }),
            None => None,
        },
        _ => None,
    }
}

/// The claims of a token that is issued at that second; nothing where its end
/// cannot be written.
pub fn claims_at(user_id: &str, jkt: &str, jti: String, now: u64, ttl_secs: u64) -> (r: Option<
    JwtClaims,
>)
    ensures
        now + ttl_secs <= i64::MAX <==> r is Some,
        r matches Some(claims) ==> claims@ == (JwtClaimsView {
            sub: user_id@,
            iat: now as i64,
            exp: (now + ttl_secs) as i64,
            jti: jti@,
            jkt: jkt@,
        }),
{
    let exp: u64 = match now.checked_add(ttl_secs) {
        Some(exp) => exp,
        None => {
            return None;
        },
    };
    if exp > i64::MAX as u64 {
        return None;
    }
    Some(
        JwtClaims {
            sub: user_id.to_string(),
            iat: now as i64,
            exp: exp as i64,
            jti,
            cnf: ConfirmationClaim { jkt: jkt.to_string() },
        },
    )
}

impl JwtKeys {
    pub fn new(secret: &[u8], ttl_secs: u64) -> (r: JwtKeys)
        ensures
            r.secret@ == secret@,
            r.ttl_secs == ttl_secs,
    {
        let mut copy: Vec<u8> = Vec::new();
        copy.extend_from_slice(secret);
        assert(copy@ == secret@);
        JwtKeys { secret: copy, ttl_secs }
    }

    /// The keys for a configured secret, with the usual time to live; nothing
    /// where the secret is too short.
    pub fn from_signing_secret(secret: &str) -> (r: Option<JwtKeys>)
        ensures
            r is Some <==> vstd::utf8::encode_utf8(secret@).len() >= MIN_SIGNING_SECRET_LEN,
            r is Some <==> vstd::utf8::encode_utf8(secret@).len() >= 32,
            r matches Some(keys) ==> keys.secret@ == vstd::utf8::encode_utf8(secret@)
                && keys.ttl_secs == ACCESS_TOKEN_TTL && keys.ttl_secs == 600,
    {
        let bytes = secret.as_bytes();
        if bytes.len() >= MIN_SIGNING_SECRET_LEN {
            Some(JwtKeys::new(bytes, ACCESS_TOKEN_TTL))
        } else {
            None
        }
    }

    /// The time to live of a token, in seconds.
    pub fn ttl(&self) -> (r: u64)
        ensures
            r == self.ttl_secs,
    {
        self.ttl_secs
    }

    /// Holds of a token that carries these claims and is read as such until it
    /// expires.
    pub open spec fn issued(self, token: Seq<char>, claims: JwtClaimsView) -> bool {
        &&& jws_token(claims_object(claims), ACCESS_TOKEN_ALGORITHM@, self.secret@) == Some(token)
        &&& forall|now: int|
            EXPIRY_LEEWAY_SECS <= now <= claims.exp + EXPIRY_LEEWAY_SECS
                ==> #[trigger] access_claims(token, self.secret@, now) == Some(claims)
    }

    /// Holds of a token issued to a user for a key, with a random `jti` and
    /// the usual time to live.
    pub open spec fn issued_to(
        self,
        token: Seq<char>,
        claims: JwtClaimsView,
        user_id: Seq<char>,
        jkt: Seq<char>,
    ) -> bool {
        &&& self.issued(token, claims)
        &&& claims.sub == user_id
        &&& claims.jkt == jkt
        &&& 0 <= claims.iat
        &&& claims.exp == claims.iat + self.ttl_secs
        &&& is_opaque_token(claims.jti, JTI_BYTE_LEN as nat)
    }

    /// Holds of what issuing a token at that second yields: a token from then
    /// on for the time to live, or an error where its end cannot be written.
    pub open spec fn issues_at(
        self,
        now: u64,
        user_id: Seq<char>,
        jkt: Seq<char>,
        result: Result<Seq<char>, TokenError>,
    ) -> bool {
        if ends_out_of_range(now, self.ttl_secs) {
            result == Err::<Seq<char>, TokenError>(TokenError::ClockOutOfRange)
        } else {
            result matches Ok(token) && exists|claims: JwtClaimsView|
                claims.iat == now && #[trigger] self.issued_to(token, claims, user_id, jkt)
        }
    }

    /// Signs claims.
    fn sign(&self, claims: &JwtClaims) -> (r: Result<String, TokenError>)
        requires
            claims.exp >= 0,
        ensures
            r matches Ok(token) && self.issued(token@, claims@),
    {
        let object = claims_to_object(claims);
        proof {
            claims_roundtrip(claims@);
        }
        match encode_claims(&object, ACCESS_TOKEN_ALGORITHM, &self.secret) {
            Ok(token) => {
                assert forall|now: int|
                    EXPIRY_LEEWAY_SECS <= now <= claims.exp + EXPIRY_LEEWAY_SECS
                    implies #[trigger] access_claims(token@, self.secret@, now) == Some(claims@) by {
                    assert(passes(claims_object(claims@), required_claims(), now));
                }
                Ok(token)
            },
            Err(_) => Err(TokenError::NotSigned),
        }
    }

    /// Issues a token to a user at that second, bound to the key with
    /// thumbprint `jkt` and named `jti`. It fails where its end cannot be
    /// written, and nowhere else.
    pub fn issue_access_token_at(&self, user_id: &str, jkt: &str, jti: String, now: u64) -> (r:
        Result<(String, JwtClaims), TokenError>)
        ensures
            r is Err <==> ends_out_of_range(now, self.ttl_secs),
            r matches Err(error) ==> error == TokenError::ClockOutOfRange,
            r matches Ok((token, claims)) ==> self.issued(token@, claims@) && claims@ == (
            JwtClaimsView {
                sub: user_id@,
                iat: now as i64,
                exp: (now + self.ttl_secs) as i64,
                jti: jti@,
                jkt: jkt@,
            }),
    {
        match claims_at(user_id, jkt, jti, now, self.ttl_secs) {
            None => Err(TokenError::ClockOutOfRange),
            Some(claims) => match self.sign(&claims) {
                Ok(token) => Ok((token, claims)),
                Err(error) => Err(error),
            },
        }
    }

    /// Issues a token to a user, bound to the key with thumbprint `jkt`. It
    /// names the user, lives for the time to live from now, carries a random
    /// `jti`, and is accepted by `verify_access_token` until it expires.
    pub fn issue_access_token(&self, user_id: &str, jkt: &str) -> (r: Result<
        (String, JwtClaims),
        TokenError,
    >)
        ensures
            exists|now: u64|
                seconds_read(now) && #[trigger] self.issues_at(now, user_id@, jkt@, issued_text(r)),
            r matches Ok((_, claims)) ==> seconds_read(claims.iat as u64) && is_random_token(
                claims.jti@,
                JTI_BYTE_LEN,
            ),
            r matches Ok((token, claims)) ==> self.issued_to(token@, claims@, user_id@, jkt@),
    {
        let now: u64 = unix_now();
        let jti = generate_opaque_token(JTI_BYTE_LEN);
        let ghost name = jti;
        assert(call_ensures(generate_opaque_token, (JTI_BYTE_LEN,), name));
        let r = self.issue_access_token_at(user_id, jkt, jti, now);
        proof {
            if r is Ok {
                let claims = r->Ok_0.1@;
                assert(claims.iat == now);
                assert(self.issued_to(issued_text(r)->Ok_0, claims, user_id@, jkt@));
            }
            assert(self.issues_at(now, user_id@, jkt@, issued_text(r)));
        }
        r
    }

    /// The claims of a token that was issued with these keys and has not
    /// expired.
    pub fn verify_access_token(&self, token: &str) -> (r: Result<JwtClaims, TokenError>)
        ensures
            exists|now: int|
                0 <= now && match #[trigger] access_claims(token@, self.secret@, now) {
                    Some(claims) => r is Ok && r->Ok_0@ == claims,
                    None => r == Err::<JwtClaims, TokenError>(TokenError::Invalid),
                },
    {
        let required: Vec<String> = vec!["exp".to_string(), "sub".to_string()];
        assert(texts(required@) =~= required_claims());
        let mut secret: Vec<u8> = Vec::new();
        secret.extend_from_slice(self.secret.as_slice());
        assert(secret@ == self.secret@);
        let key = JwsKey::Secret(secret);
        let decoded = decode_claims(token, ACCESS_TOKEN_ALGORITHM, &key, &required, true);
        let ghost now = choose|now: int|
            0 <= now && yields_members(
                decoded,
                #[trigger] jws_claims(
                    token@,
                    ACCESS_TOKEN_ALGORITHM@,
                    JwsKeyView::Secret(self.secret@),
                    required_claims(),
                    true,
                    now,
                ),
            );
        let r: Result<JwtClaims, TokenError> = match decoded {
            Ok(object) => match claims_from_object(&object) {
                Some(claims) => Ok(claims),
                None => Err(TokenError::Invalid),
            },
            Err(_) => Err(TokenError::Invalid),
        };
        assert(match access_claims(token@, self.secret@, now) {
            Some(claims) => r is Ok && r->Ok_0@ == claims,
            None => r == Err::<JwtClaims, TokenError>(TokenError::Invalid),
        });
        r
    }
}

} // verus!
