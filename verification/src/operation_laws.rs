//! What the operations of this service return, for all that they are given. An
//! operation is named together with what it was called on and what came back.
use vstd::prelude::*;

use crate::auth::{
    extract_bearer_token, finish_dpop_auth, AuthRejection, DpopBoundUser, PendingAuth,
};
use crate::confirm::{
    confirm_begin, confirm_next, confirm_step, ConfirmAction, ConfirmEvent, ConfirmState,
};
use crate::credential_laws::{
    addresses_need_a_name_and_a_dot, addresses_need_an_at, codes_are_shown_in_fives,
    passwords_are_held_to_their_length,
};
use crate::dpop::{
    base64url_text, check_claims, finish_dpop_proof, optional_str, url_parts, url_parts_with_path,
    DpopClaims, DpopError, DpopProof, PublicBaseUrl, UrlPartsView,
};
use crate::dpop_laws::fitting_claims_are_accepted;
use crate::hex::{encode_hex, hex_reads_as_its_bytes, hex_value};
use crate::login::{
    login_begin, login_next, login_step, LoginAction, LoginEvent, LoginRequest, LoginState,
};
use crate::logout::{logout_begin, LogoutAction, LogoutRequest, LogoutState};
use crate::password::{
    argon2_fits, breach_query, is_hash_text, range_lists_suffix, sha1_digest, verify_password,
    BreachQuery, PasswordError,
};
use crate::password_laws::{
    argon2_decides_whether_a_password_fits, breaches_are_listed_by_digest,
    listed_suffixes_are_found, same_letter,
};
use crate::random::{hash_token, sha256_digest, token_hash, tokens_are_kept_by_their_digest};
use crate::rate_limit::{
    extract, forged_entries_are_ignored, forwarded_client, login_config, refresh_config,
    register_config, single_entries_name_no_client, IpAddress, RateLimitConfig, RateLimitKey,
};
use crate::refresh::{
    refresh_begin, refresh_next, refresh_step, RefreshAction, RefreshEvent, RefreshRequest,
    RefreshState,
};
use crate::refresh_token::{
    capped_expiry, tokens_end_at_the_earlier_limit, NewRefreshToken, RefreshTokenRecord,
    RefreshTokenStatus,
};
use crate::register::{
    format_recovery_code, register_begin, register_next, register_step, validate_email,
    validate_password, ConfirmRequest, RegisterAction, RegisterEvent, RegisterRequest,
    RegisterState, RequestFault,
};
use crate::store::login_attempts::{
    check_at, failures_are_forgotten_after_their_window, failures_in_their_window_add_up,
    record_failure_at, LoginAttemptRecord,
};
use crate::store::recovery_codes::{redeem, RecoveryCodeRecord};
use crate::store::refresh_tokens::{
    create_at, rotate_in_transaction_at, RotationPlan, RotationWrites,
};
use crate::store::users::{
    confirm_mfa_result, create_user_at, user_insert_error, ConfirmMfaOutcome,
};
use crate::store::{jti_insert_error, InsertFailure, LoginAttemptState, StoreError};
use crate::text::{
    addresses_are_kept_in_lower_case, decimal_value, decimals_read_as_their_number, is_blank,
    lowercase, normalize_email, to_decimal, trim, trimmed, trimming_takes_the_ends, whitespace,
};
use crate::time::{whole_seconds_fit_before_the_time, whole_seconds_until, Timestamp};
use crate::token::{claims_at, JwtClaims, JwtKeys};
use crate::token_laws::bearer_tokens_follow_the_word;
use crate::totp::{check_code_by_clock, codes_are_accepted_for_three_steps, totp_code};
use crate::user::{NewUser, User};

verus! {

/// Trimming a text gives back what stands between the white space at its ends,
/// and normalizing an address the lower case of that.
pub proof fn texts_are_trimmed_and_lowered(
    text: &str,
    before: Seq<char>,
    core: Seq<char>,
    after: Seq<char>,
    trim_result: String,
    email_result: String,
)
    requires
        text@ == before + core + after,
        is_blank(before),
        is_blank(after),
        core.len() > 0 ==> !whitespace(core[0]) && !whitespace(core.last()),
        call_ensures(trim, (text,), trim_result),
        call_ensures(normalize_email, (text,), email_result),
    ensures
        trim_result@ == core,
        email_result@ == lowercase(core),
{
    trimming_takes_the_ends(before, core, after);
    addresses_are_kept_in_lower_case(before, core, after);
}

/// Two addresses are normalized to the same text wherever they have the same
/// lower case once the white space around them is gone, and login, confirmation
/// and registration go by that text.
pub proof fn endpoints_normalize_the_address(
    login: LoginRequest,
    login_result: (LoginState, LoginAction),
    confirm: ConfirmRequest,
    confirm_result: (ConfirmState, ConfirmAction),
    register: RegisterRequest,
    register_result: (RegisterState, RegisterAction),
)
    requires
        call_ensures(login_begin, (login,), login_result),
        call_ensures(confirm_begin, (confirm,), confirm_result),
        call_ensures(register_begin, (register,), register_result),
    ensures
        login_result.1 is CheckLockout,
        login_result.1->CheckLockout_email@ == lowercase(trimmed(login.email@)),
        confirm_result.1 is FindUser,
        confirm_result.1->FindUser_email@ == lowercase(trimmed(confirm.email@)),
        register_result.1 is CheckBreached || register_result.1 is Respond,
        register_result.1 is CheckBreached ==> {
            &&& register_result.0 is CheckingBreach
            &&& register_result.0->CheckingBreach_email@ == lowercase(trimmed(register.email@))
            &&& register_result.1->CheckBreached_password == register.password
        },
{
}

/// A number is written so that it reads as that number.
pub proof fn numbers_are_written_in_decimal(n: u64, result: String)
    requires
        call_ensures(to_decimal, (n,), result),
    ensures
        decimal_value(result@) == n,
        result@.len() > 1 ==> result@[0] != '0',
        forall|i: int| 0 <= i < result@.len() ==> '0' <= #[trigger] result@[i] <= '9',
{
    decimals_read_as_their_number(n as nat);
    if n == 0 {
        assert(result@.len() == 1);
    }
}

/// Times are moved, compared and subtracted in whole nanoseconds.
pub proof fn times_are_computed_in_nanoseconds(
    time: Timestamp,
    other: Timestamp,
    seconds: i64,
    nanos: u32,
    later: Timestamp,
    is_after: bool,
    earlier: Timestamp,
    made: Timestamp,
    left: u64,
)
    requires
        time.valid(),
        other.valid(),
        call_ensures(Timestamp::plus_seconds, (time, seconds), later),
        call_ensures(Timestamp::is_after, (time, other), is_after),
        call_ensures(Timestamp::earlier, (time, other), earlier),
        call_ensures(Timestamp::from_unix, (seconds, nanos), made),
        call_ensures(whole_seconds_until, (time, other), left),
    ensures
        later.nanos == time.nanos + 1_000_000_000 * seconds,
        is_after <==> other.nanos < time.nanos,
        earlier == time || earlier == other,
        earlier.nanos <= time.nanos && earlier.nanos <= other.nanos,
        made.nanos == 1_000_000_000 * seconds + nanos,
        time.nanos <= other.nanos ==> left == 0,
        time.nanos > other.nanos ==> other.nanos + 1_000_000_000 * left <= time.nanos < other.nanos
            + 1_000_000_000 * (left + 1),
{
    whole_seconds_fit_before_the_time(time, other);
}

/// Bytes are written as digits that read as those bytes, and a token is hashed
/// to the digits of its SHA-256 digest.
pub proof fn bytes_and_tokens_are_written_in_hex(
    bytes: &[u8],
    upper: bool,
    text: String,
    token: &str,
    kept: String,
    i: int,
)
    requires
        call_ensures(encode_hex, (bytes, upper), text),
        call_ensures(hash_token, (token,), kept),
    ensures
        text@.len() == 2 * bytes@.len(),
        0 <= i < bytes@.len() ==> 16 * hex_value(text@[2 * i]) + hex_value(text@[2 * i + 1])
            == bytes@[i],
        kept@.len() == 64,
        ({
            let digest = sha256_digest(vstd::utf8::encode_utf8(token@));
            0 <= i < digest.len() ==> 16 * hex_value(kept@[2 * i]) + hex_value(kept@[2 * i + 1])
                == digest[i]
        }),
{
    hex_reads_as_its_bytes(bytes@, upper);
    if 0 <= i < bytes@.len() {
        assert(bytes@[i] == bytes@[i]);
    }
    if 0 <= i < sha256_digest(vstd::utf8::encode_utf8(token@)).len() {
        tokens_are_kept_by_their_digest(token@, i);
    }
}

/// An address is accepted exactly where something stands before its first `@`
/// and a dot behind it.
pub proof fn addresses_are_validated(
    email: &str,
    local: Seq<char>,
    domain: Seq<char>,
    result: Result<(), RequestFault>,
)
    requires
        email@ == local + seq!['@'] + domain,
        !local.contains('@'),
        call_ensures(validate_email, (email,), result),
    ensures
        result is Ok <==> local.len() > 0 && domain.contains('.'),
        result is Err ==> result->Err_0 == RequestFault::EmailInvalid,
{
    addresses_need_a_name_and_a_dot(local, domain);
}

/// A text without an `@` is no address.
pub proof fn addresses_without_at_are_refused(email: &str, result: Result<(), RequestFault>)
    requires
        !email@.contains('@'),
        call_ensures(validate_email, (email,), result),
    ensures
        result == Err::<(), RequestFault>(RequestFault::EmailWithoutAt),
{
    addresses_need_an_at(email@);
}

/// A password is accepted exactly where it is twelve to two hundred and
/// fifty-six characters long and not white space alone.
pub proof fn passwords_are_validated(password: &str, result: Result<(), RequestFault>)
    requires
        call_ensures(validate_password, (password,), result),
    ensures
        result is Ok <==> 12 <= password@.len() <= 256 && !is_blank(password@),
        result == Err::<(), RequestFault>(RequestFault::PasswordEmpty) <==> is_blank(password@),
        result == Err::<(), RequestFault>(RequestFault::PasswordTooShort) <==> !is_blank(password@)
            && password@.len() < 12,
        result == Err::<(), RequestFault>(RequestFault::PasswordTooLong) <==> !is_blank(password@)
            && password@.len() > 256,
{
    passwords_are_held_to_their_length(password@);
}

/// A recovery code is shown with a hyphen behind every fifth digit that another
/// one follows.
pub proof fn recovery_codes_are_formatted(raw: &str, result: String)
    requires
        forall|i: int| 0 <= i < raw@.len() ==> #[trigger] raw@[i] <= '\u{7f}',
        call_ensures(format_recovery_code, (raw,), result),
    ensures
        raw@.len() > 0 ==> result@.len() == raw@.len() + (raw@.len() - 1) / 5,
        forall|p: int| 0 <= p < raw@.len() ==> result@[p + p / 5] == #[trigger] raw@[p],
        forall|g: int|
            #![trigger result@[6 * g + 5]]
            0 <= g && 5 * g + 5 < raw@.len() ==> result@[6 * g + 5] == '-',
{
    codes_are_shown_in_fives(raw@);
}

/// A token ends at the earlier of thirty days from now and ninety days from the
/// beginning of its session, when it is rotated as when it is created.
pub proof fn tokens_are_given_their_end(
    now: Timestamp,
    family_created_at: Timestamp,
    expiry: Timestamp,
    plan: &RotationPlan,
    current: Option<RefreshTokenRecord>,
    new_token_hash: &str,
    new_jkt: &str,
    writes: RotationWrites,
    new_token: NewRefreshToken,
    family_id: String,
    created: RefreshTokenRecord,
)
    requires
        now.valid(),
        family_created_at.valid(),
        plan.family_created_at == family_created_at,
        call_ensures(capped_expiry, (now, family_created_at), expiry),
        call_ensures(
            rotate_in_transaction_at,
            (plan, current, new_token_hash, new_jkt, now),
            writes,
        ),
        call_ensures(create_at, (new_token, new_token_hash, family_id, now), created),
    ensures
        ({
            let sliding = now.nanos + 2_592_000_000_000_000;
            let cap = family_created_at.nanos + 7_776_000_000_000_000;
            let end = if sliding <= cap {
                sliding
            } else {
                cap
            };
            &&& expiry.nanos == end
            &&& writes is Exchange <==> current is Some && current->0.status
                == RefreshTokenStatus::Active
            &&& writes is Exchange ==> writes->new.expires_at.nanos == end
            &&& created.expires_at.nanos == sliding
        }),
        writes matches RotationWrites::Exchange { old, new } ==> {
            &&& new.token_hash@ == new_token_hash@
            &&& new.jkt@ == new_jkt@
            &&& new.user_email@ == plan.user_email@
            &&& new.family_id@ == plan.family_id@
            &&& new.status == RefreshTokenStatus::Active
            &&& new.created_at == now
            &&& new.family_created_at == family_created_at
            &&& old.status == RefreshTokenStatus::Rotated
            &&& old.token_hash == current->0.token_hash
            &&& old.replaced_by is Some && old.replaced_by->0@ == new_token_hash@
        },
        created.token_hash@ == new_token_hash@,
        created.user_email == new_token.user_email,
        created.jkt == new_token.jkt,
        created.family_id == family_id,
        created.status == RefreshTokenStatus::Active,
        created.replaced_by is None,
        created.created_at == now,
        created.family_created_at == now,
{
    tokens_end_at_the_earlier_limit(now, family_created_at);
}

/// More than fifteen minutes after the first of some failures, and with no
/// lockout that lasts, the next one is the first again. Until then it is one
/// more, and from the tenth on it locks the address out for fifteen minutes.
pub proof fn failures_are_recorded(
    existing: LoginAttemptRecord,
    now: Timestamp,
    result: LoginAttemptRecord,
    first: LoginAttemptRecord,
)
    requires
        now.valid(),
        existing.window_started_at.valid(),
        existing.failure_count < u32::MAX,
        call_ensures(record_failure_at, (Some(existing), now), result),
        call_ensures(record_failure_at, (None, now), first),
    ensures
        ({
            let locked = existing.locked_until is Some && existing.locked_until->0.nanos
                > now.nanos;
            let over = now.nanos > existing.window_started_at.nanos + 900_000_000_000;
            &&& locked ==> result == existing
            &&& !locked && over ==> {
                &&& result.failure_count == 1
                &&& result.window_started_at == now
                &&& result.locked_until is None
            }
            &&& !locked && !over ==> {
                &&& result.failure_count == existing.failure_count + 1
                &&& result.window_started_at == existing.window_started_at
                &&& result.locked_until is Some <==> existing.failure_count >= 9
                &&& result.locked_until is Some ==> result.locked_until->0.nanos == now.nanos
                    + 900_000_000_000
            }
        }),
        first.failure_count == 1,
        first.window_started_at == now,
        first.locked_until is None,
{
    let locked = existing.locked_until is Some && existing.locked_until->0.nanos > now.nanos;
    if !locked && now.nanos > existing.window_started_at.nanos + 900_000_000_000 {
        failures_are_forgotten_after_their_window(existing, now);
    } else if !locked {
        failures_in_their_window_add_up(existing, now);
    }
}

/// A login is turned away exactly while a lockout lasts, and is told its end.
pub proof fn lockouts_are_checked(
    record: Option<LoginAttemptRecord>,
    now: Timestamp,
    result: LoginAttemptState,
)
    requires
        call_ensures(check_at, (record, now), result),
    ensures
        result is Locked <==> record is Some && record->0.locked_until is Some
            && record->0.locked_until->0.nanos > now.nanos,
        result is Locked ==> result->retry_after == record->0.locked_until->0,
{
}

/// A recovery code is accepted exactly where it is known, unused and the
/// account's own, and is then used.
pub proof fn recovery_codes_are_redeemed(
    current: Option<RecoveryCodeRecord>,
    user_email: &String,
    result: Option<RecoveryCodeRecord>,
)
    requires
        call_ensures(redeem, (current, user_email), result),
    ensures
        result is Some <==> current is Some && !current->0.consumed && current->0.user_email@
            == user_email@,
        result is Some ==> result->0.consumed && result->0.user_email == current->0.user_email,
{
}

/// What is made of a new account and of the answers of a store.
pub proof fn stores_are_answered_for(
    new_user: NewUser,
    now: Timestamp,
    user: User,
    failure: InsertFailure,
    user_error: StoreError,
    jti_error: StoreError,
    outcome: ConfirmMfaOutcome,
    confirmed: Result<User, StoreError>,
)
    requires
        call_ensures(create_user_at, (new_user, now), user),
        call_ensures(user_insert_error, (failure,), user_error),
        call_ensures(jti_insert_error, (failure,), jti_error),
        call_ensures(confirm_mfa_result, (outcome,), confirmed),
    ensures
        user.user_id == new_user.user_id,
        user.email == new_user.email,
        user.password_hash == new_user.password_hash,
        user.mfa_secret == new_user.mfa_secret,
        user.created_at == now,
        !user.mfa_enrolled,
        failure is Conflict ==> user_error is DuplicateEmail && jti_error is Replayed,
        failure matches InsertFailure::Other(message) ==> user_error == StoreError::Backend(message)
            && jti_error == StoreError::Backend(message),
        outcome is NotFound ==> confirmed == Err::<User, StoreError>(StoreError::NotFound),
        outcome is AlreadyEnrolled ==> confirmed == Err::<User, StoreError>(
            StoreError::MfaAlreadyEnrolled,
        ),
        outcome matches ConfirmMfaOutcome::Confirmed { user: enrolled, .. } ==> confirmed == Ok::<
            User,
            StoreError,
        >(enrolled),
{
}

/// A claimed `htu` matches exactly where it agrees with the server's address
/// and the path in scheme, host, port and path, whatever the scheme.
pub proof fn claimed_addresses_are_matched(
    base_url: &PublicBaseUrl,
    claimed_htu: &str,
    path: &str,
    base: UrlPartsView,
    expected: UrlPartsView,
    result: bool,
)
    requires
        url_parts(base_url.raw@) == Some(base),
        base.length + 3 * vstd::utf8::encode_utf8(path@).len() + 4 <= 0xffff_ffff,
        url_parts_with_path(base_url.raw@, path@) == Some(expected),
        call_ensures(PublicBaseUrl::matches_htu, (base_url, claimed_htu, path), result),
    ensures
        result <==> {
            &&& url_parts(claimed_htu@) is Some
            &&& url_parts(claimed_htu@)->0.scheme == expected.scheme
            &&& url_parts(claimed_htu@)->0.host == expected.host
            &&& url_parts(claimed_htu@)->0.port == expected.port
            &&& url_parts(claimed_htu@)->0.path == expected.path
        },
{
}

/// Claims are accepted exactly where they name the method, the address and the
/// token of the request and are fresh.
pub proof fn claims_are_checked(
    claims: &DpopClaims,
    method: &str,
    base_url: &PublicBaseUrl,
    path: &str,
    bearer_token: Option<&str>,
    now: u64,
    base: UrlPartsView,
    expected: UrlPartsView,
    result: Result<(), DpopError>,
)
    requires
        url_parts(base_url.raw@) == Some(base),
        base.length + 3 * vstd::utf8::encode_utf8(path@).len() + 4 <= 0xffff_ffff,
        url_parts_with_path(base_url.raw@, path@) == Some(expected),
        call_ensures(check_claims, (claims, method, base_url, path, bearer_token, now), result),
    ensures
        result is Ok <==> {
            &&& claims.htm@ == method@
            &&& url_parts(claims.htu@) is Some
            &&& url_parts(claims.htu@)->0.scheme == expected.scheme
            &&& url_parts(claims.htu@)->0.host == expected.host
            &&& url_parts(claims.htu@)->0.port == expected.port
            &&& url_parts(claims.htu@)->0.path == expected.path
            &&& now - 300 <= claims.iat <= now + 60
            &&& bearer_token is Some ==> claims.ath is Some && claims.ath->0@ == base64url_text(
                sha256_digest(vstd::utf8::encode_utf8(bearer_token->0@)),
            )
        },
{
    fitting_claims_are_accepted(
        claims@,
        method@,
        base_url.raw@,
        path@,
        optional_str(bearer_token),
        now as int,
        base,
        expected,
    );
}

/// A proof is accepted exactly where its `jti` was new, and a request exactly
/// where its proof was and its key is the token's.
pub proof fn proofs_are_concluded(
    proof: DpopProof,
    insertion: Result<(), StoreError>,
    result: Result<DpopProof, DpopError>,
    begun: PendingAuth,
    user: Result<DpopBoundUser, AuthRejection>,
)
    requires
        call_ensures(finish_dpop_proof, (proof, insertion), result),
        call_ensures(finish_dpop_auth, (begun, insertion), user),
    ensures
        result is Ok <==> insertion is Ok,
        result is Ok ==> result->Ok_0 == proof,
        insertion == Err::<(), StoreError>(StoreError::Replayed) ==> result == Err::<
            DpopProof,
            DpopError,
        >(DpopError::Replayed),
        user is Ok <==> insertion is Ok && begun.pending.proof.jkt@ == begun.claims.cnf.jkt@,
        user is Ok ==> user->Ok_0.user_id == begun.claims.sub,
{
}

/// A password is verified by Argon2 alone, against a text that is a hash and
/// names no number of lanes with nine digits or more.
pub proof fn passwords_are_verified(
    password: &str,
    hash: &str,
    result: Result<bool, PasswordError>,
)
    requires
        call_ensures(verify_password, (password, hash), result),
    ensures
        result is Ok <==> is_hash_text(hash@),
        result == Ok::<bool, PasswordError>(true) ==> argon2_fits(password@, hash@),
        is_hash_text(hash@) && (forall|i: int|
            #![trigger hash@[i]]
            0 <= i && i + 11 <= hash@.len() && hash@[i] == 'p' && hash@[i + 1] == '='
                ==> exists|j: int| i + 2 <= j < i + 11 && !('0' <= #[trigger] hash@[j] <= '9'))
            ==> result == Ok::<bool, PasswordError>(argon2_fits(password@, hash@)),
{
    argon2_decides_whether_a_password_fits(password@, hash@);
}

/// Five digits of a password's SHA-1 digest are sent and the others looked for,
/// and an answer that has those before the first colon of a line lists them.
pub proof fn breaches_are_looked_up(
    password: &str,
    query: BreachQuery,
    body: &str,
    suffix: &str,
    before: Seq<char>,
    head: Seq<char>,
    after: Seq<char>,
    listed: bool,
    i: int,
)
    requires
        call_ensures(breach_query, (password,), query),
        0 <= i < sha1_digest(vstd::utf8::encode_utf8(password@)).len(),
        body@ == before + head + seq![':'] + after,
        before.len() > 0 ==> before.last() == '\n',
        !head.contains('\n'),
        !head.contains(':'),
        head.len() == suffix@.len(),
        forall|k: int| 0 <= k < head.len() ==> same_letter(#[trigger] head[k], suffix@[k]),
        call_ensures(range_lists_suffix, (body, suffix), listed),
    ensures
        listed,
        query.prefix@.len() == 5,
        query.suffix@.len() == 35,
        ({
            let digits = query.prefix@ + query.suffix@;
            16 * hex_value(digits[2 * i]) + hex_value(digits[2 * i + 1]) == sha1_digest(
                vstd::utf8::encode_utf8(password@),
            )[i]
        }),
{
    listed_suffixes_are_found(before, head, after, suffix@);
    breaches_are_listed_by_digest(password@, i);
}

/// A code is accepted exactly where the secret yields it for the thirty seconds
/// that the clock shows, or for those next to them.
pub proof fn codes_are_checked(
    secret_bytes: &Vec<u8>,
    account_email: &str,
    code: &str,
    time: u64,
    result: bool,
)
    requires
        secret_bytes@.len() >= 16,
        !account_email@.contains(':'),
        30 <= time <= 0xffff_ffff_ffff_ffff - 30,
        call_ensures(check_code_by_clock, (secret_bytes, account_email, code, Some(time)), result),
    ensures
        result <==> exists|step: int|
            time as int / 30 - 1 <= step <= time as int / 30 + 1 && code@ == #[trigger] totp_code(
                secret_bytes@,
                6,
                step,
            ),
{
    codes_are_accepted_for_three_steps(secret_bytes@, code@, time);
}

/// A token says whom it is for, with which key, from when, and that it ends
/// after the time to live; a signing secret has thirty-two bytes at least.
pub proof fn tokens_say_what_they_are_made_from(
    user_id: &str,
    jkt: &str,
    jti: String,
    now: u64,
    ttl_secs: u64,
    claims: Option<JwtClaims>,
    secret: &str,
    keys: Option<JwtKeys>,
)
    requires
        call_ensures(claims_at, (user_id, jkt, jti, now, ttl_secs), claims),
        call_ensures(JwtKeys::from_signing_secret, (secret,), keys),
    ensures
        claims is Some <==> now + ttl_secs <= 0x7fff_ffff_ffff_ffff,
        claims is Some ==> {
            &&& claims->0.sub@ == user_id@
            &&& claims->0.cnf.jkt@ == jkt@
            &&& claims->0.jti@ == jti@
            &&& claims->0.iat == now
            &&& claims->0.exp == now + ttl_secs
        },
        keys is Some <==> vstd::utf8::encode_utf8(secret@).len() >= 32,
        keys is Some ==> keys->0.ttl_secs == 600 && keys->0.secret@ == vstd::utf8::encode_utf8(
            secret@,
        ),
{
    if claims is Some {
        assert(claims->0@.sub == user_id@);
    }
}

/// An `Authorization` header presents what follows the word `Bearer` and one
/// space, and presents nothing where it begins otherwise.
pub proof fn bearer_tokens_are_extracted(
    header: &Option<String>,
    token: Seq<char>,
    result: Option<String>,
)
    requires
        call_ensures(extract_bearer_token, (header,), result),
    ensures
        result is Some && result->0@ == token <==> *header is Some && (*header)->0@ == seq![
            'B',
            'e',
            'a',
            'r',
            'e',
            'r',
            ' ',
        ] + token,
{
    if *header is Some {
        bearer_tokens_follow_the_word((*header)->0, token);
    }
}

/// A request is counted under the last entry but one of its forwarding header,
/// else under its peer, else with all others of which neither is known.
pub proof fn requests_are_counted_by_address(
    header: &str,
    forged: Seq<char>,
    client: Seq<char>,
    front_end: Seq<char>,
    entry: Option<String>,
    forwarded: Option<IpAddress>,
    peer: Option<IpAddress>,
    key: RateLimitKey,
)
    requires
        !client.contains(','),
        !front_end.contains(','),
        header@ == client + seq![','] + front_end || header@ == forged + seq![','] + client + seq![
            ',',
        ] + front_end,
        call_ensures(forwarded_client, (header,), entry),
        call_ensures(extract, (forwarded, peer), key),
    ensures
        entry is Some && entry->0@ == trimmed(client),
        forwarded is Some ==> key == RateLimitKey::Ip(forwarded->0),
        forwarded is None && peer is Some ==> key == RateLimitKey::Ip(peer->0),
        forwarded is None && peer is None ==> key == RateLimitKey::Unknown,
{
    forged_entries_are_ignored(forged, client, front_end);
}

/// A header without a comma names no client.
pub proof fn plain_headers_name_no_client(header: &str, entry: Option<String>)
    requires
        !header@.contains(','),
        call_ensures(forwarded_client, (header,), entry),
    ensures
        entry is None,
{
    single_entries_name_no_client(header@);
}

/// Registrations are limited most, and logins beyond the ten failures that a
/// lockout takes.
pub proof fn requests_are_limited(
    register: RateLimitConfig,
    login: RateLimitConfig,
    refresh: RateLimitConfig,
)
    requires
        call_ensures(register_config, (), register),
        call_ensures(login_config, (), login),
        call_ensures(refresh_config, (), refresh),
    ensures
        register.burst_size == 5 && register.per_second == 60,
        login.burst_size == 20 && login.per_second == 30,
        refresh.burst_size == 20 && refresh.per_second == 12,
{
}

/// Every endpoint takes the steps that its laws speak of.
pub proof fn endpoints_take_their_steps(
    login: LoginState,
    login_event: LoginEvent,
    login_result: (LoginState, LoginAction),
    refresh: RefreshState,
    refresh_event: RefreshEvent,
    refresh_result: (RefreshState, RefreshAction),
    register: RegisterState,
    register_event: RegisterEvent,
    register_result: (RegisterState, RegisterAction),
    confirm: ConfirmState,
    confirm_event: ConfirmEvent,
    confirm_result: (ConfirmState, ConfirmAction),
)
    requires
        call_ensures(login_step, (login, login_event), login_result),
        call_ensures(refresh_step, (refresh, refresh_event), refresh_result),
        call_ensures(register_step, (register, register_event), register_result),
        call_ensures(confirm_step, (confirm, confirm_event), confirm_result),
    ensures
        login_result == login_next(login, login_event),
        refresh_result == refresh_next(refresh, refresh_event),
        register_result == register_next(register, register_event),
        confirm_result == confirm_next(confirm, confirm_event),
{
}

/// A refresh and a logout look their token up by its hash.
pub proof fn tokens_are_looked_up_by_hash(
    refresh: RefreshRequest,
    refresh_result: (RefreshState, RefreshAction),
    logout: LogoutRequest,
    logout_result: (LogoutState, LogoutAction),
)
    requires
        call_ensures(refresh_begin, (refresh,), refresh_result),
        call_ensures(logout_begin, (logout,), logout_result),
    ensures
        refresh_result.1 is FindToken,
        refresh_result.1->FindToken_token_hash@ == token_hash(refresh.refresh_token@),
        logout_result.1 is FindToken,
        logout_result.1->token_hash@ == token_hash(logout.refresh_token@),
{
}

} // verus!
