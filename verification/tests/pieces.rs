//! The smaller pieces, on their own.
use auth_service::dpop::{
    check_claims, finish_dpop_proof, DpopClaims, DpopError, DpopProof, PublicBaseUrl,
};
use auth_service::error::{invalid_json_response, ResponseBody};
use auth_service::login::account_locked_response;
use auth_service::rate_limit::{
    extract, forwarded_client, login_config, rate_limit_error_handler, refresh_config,
    register_config, IpAddress, RateLimitError, RateLimitKey,
};
use auth_service::refresh_token::{
    capped_expiry, NewRefreshToken, RefreshTokenRecord, RefreshTokenStatus,
};
use auth_service::register::{
    format_recovery_code, make_recovery_codes, validate_email, validate_password, RequestFault,
};
use auth_service::security_headers::security_headers;
use auth_service::store::login_attempts::{
    check_at, login_attempt_state, record_failure_at, LoginAttemptRecord,
};
use auth_service::store::recovery_codes::{redeem, RecoveryCodeRecord};
use auth_service::store::refresh_tokens::{
    create_at, revoke_family, rotate_in_transaction_at, rotate_step_at, RotateAction,
    RotateAttempt, RotateEvent, RotateState, RotationPlan, RotationWrites,
};
use auth_service::store::{LoginAttemptState, StoreError};
use auth_service::text::{normalize_email, to_decimal, trim};
use auth_service::time::{utc_now, whole_seconds_until, Timestamp};
use auth_service::totp::{
    check_code, check_code_at, check_code_by_clock, generate_enrollment_secret,
    generate_for_base32_at, is_totp_usable,
};

const MINUTE: i128 = 60_000_000_000;
const DAY: i128 = 86_400_000_000_000;

fn at(nanos: i128) -> Timestamp {
    Timestamp { nanos }
}

#[test]
fn email_is_trimmed_and_put_in_lower_case() {
    assert_eq!(normalize_email("  Someone@Example.COM\t\n"), "someone@example.com");
    assert_eq!(normalize_email("\u{3000}\u{c9}ric@x.y\u{a0}"), "\u{e9}ric@x.y");
    assert_eq!(normalize_email("   "), "");
    assert_eq!(trim(" a b "), "a b");
    assert_eq!(trim(""), "");
}

#[test]
fn numbers_are_written_in_decimal() {
    assert_eq!(to_decimal(0), "0");
    assert_eq!(to_decimal(7), "7");
    assert_eq!(to_decimal(10), "10");
    assert_eq!(to_decimal(90_210), "90210");
    assert_eq!(to_decimal(u64::MAX), "18446744073709551615");
}

#[test]
fn clock_reads_the_present() {
    let now = utc_now();
    let seconds = jsonwebtoken::get_current_timestamp() as i128;
    assert!((now.nanos / 1_000_000_000 - seconds).abs() <= 2);
}

#[test]
fn wait_is_counted_in_whole_seconds() {
    assert_eq!(whole_seconds_until(at(5_999_999_999), at(1_000_000_000)), 4);
    assert_eq!(whole_seconds_until(at(1_000_000_000), at(1_000_000_000)), 0);
    assert_eq!(whole_seconds_until(at(1_000_000_000), at(9_000_000_000)), 0);
    let response = account_locked_response(at(15 * MINUTE), at(0));
    assert_eq!(response.status, 429);
    assert_eq!(response.retry_after.unwrap(), "900");
}

#[test]
fn failures_are_counted_within_a_window() {
    let first = record_failure_at(None, at(0));
    assert_eq!(
        first,
        LoginAttemptRecord { failure_count: 1, window_started_at: at(0), locked_until: None }
    );
    let second = record_failure_at(Some(first), at(15 * MINUTE));
    assert_eq!(second.failure_count, 2);
    assert_eq!(second.window_started_at, at(0));
    // One moment later a new window begins.
    let third = record_failure_at(Some(second), at(15 * MINUTE + 1));
    assert_eq!(third.failure_count, 1);
    assert_eq!(third.window_started_at, at(15 * MINUTE + 1));
}

#[test]
fn tenth_failure_locks_for_fifteen_minutes() {
    let mut record = None;
    for i in 0..9 {
        let next = record_failure_at(record, at(i * MINUTE));
        assert_eq!(login_attempt_state(&next, at(i * MINUTE)), LoginAttemptState::Allowed);
        record = Some(next);
    }
    let locked = record_failure_at(record, at(9 * MINUTE));
    assert_eq!(locked.failure_count, 10);
    assert_eq!(locked.locked_until, Some(at(24 * MINUTE)));
    assert_eq!(
        check_at(Some(locked), at(24 * MINUTE - 1)),
        LoginAttemptState::Locked { retry_after: at(24 * MINUTE) }
    );
    assert_eq!(check_at(Some(locked), at(24 * MINUTE)), LoginAttemptState::Allowed);
    // Guesses during the lockout do not prolong it.
    assert_eq!(record_failure_at(Some(locked), at(20 * MINUTE)), locked);
    // After it, counting starts anew.
    assert_eq!(record_failure_at(Some(locked), at(25 * MINUTE)).failure_count, 1);
    assert_eq!(check_at(None, at(0)), LoginAttemptState::Allowed);
}

#[test]
fn expiry_slides_up_to_the_cap() {
    assert_eq!(capped_expiry(at(0), at(0)), at(30 * DAY));
    assert_eq!(capped_expiry(at(60 * DAY), at(0)), at(90 * DAY));
    assert_eq!(capped_expiry(at(59 * DAY), at(0)), at(89 * DAY));
    assert_eq!(capped_expiry(at(80 * DAY), at(0)), at(90 * DAY));
}

fn family() -> RefreshTokenRecord {
    create_at(
        NewRefreshToken { user_email: "a@example.com".to_string(), jkt: "key".to_string() },
        "hash-a",
        "family".to_string(),
        at(0),
    )
}

fn plan() -> RotationPlan {
    RotationPlan {
        family_id: "family".to_string(),
        user_email: "a@example.com".to_string(),
        family_created_at: at(0),
    }
}

#[test]
fn rotation_exchanges_one_record_for_another() {
    match rotate_in_transaction_at(&plan(), Some(family()), "hash-b", "new-key", at(70 * DAY)) {
        RotationWrites::Exchange { old, new } => {
            assert_eq!(old.token_hash, "hash-a");
            assert_eq!(old.status, RefreshTokenStatus::Rotated);
            assert_eq!(old.replaced_by.as_deref(), Some("hash-b"));
            assert_eq!(old.jkt, "key");
            assert_eq!(new.token_hash, "hash-b");
            assert_eq!(new.status, RefreshTokenStatus::Active);
            assert_eq!(new.jkt, "new-key");
            assert_eq!(new.family_id, "family");
            assert_eq!(new.user_email, "a@example.com");
            assert_eq!(new.created_at, at(70 * DAY));
            assert_eq!(new.expires_at, at(90 * DAY));
            assert_eq!(new.family_created_at, at(0));
            // Whoever comes second finds the old record rotated.
            assert!(matches!(
                rotate_in_transaction_at(&plan(), Some(old), "hash-c", "key", at(70 * DAY)),
                RotationWrites::Nothing
            ));
        }
        RotationWrites::Nothing => panic!("an active token is rotated"),
    }
    assert!(matches!(
        rotate_in_transaction_at(&plan(), None, "hash-b", "key", at(0)),
        RotationWrites::Nothing
    ));
}

fn returned(action: RotateAction) -> Result<RefreshTokenRecord, StoreError> {
    match action {
        RotateAction::Return(result) => result,
        _ => panic!("the rotation has not ended"),
    }
}

#[test]
fn rotation_tells_unknown_expired_and_reused_tokens_apart() {
    let (_, action) =
        rotate_step_at(RotateState::Finding, RotateEvent::Found(Ok(None)), at(0));
    assert!(matches!(returned(action), Err(StoreError::NotFound)));

    let found = RotateEvent::Found(Ok(Some(family())));
    let (_, action) = rotate_step_at(RotateState::Finding, found, at(30 * DAY + 1));
    assert!(matches!(returned(action), Err(StoreError::Expired)));

    let found = RotateEvent::Found(Ok(Some(family())));
    let (state, action) = rotate_step_at(RotateState::Finding, found, at(30 * DAY));
    assert!(matches!(action, RotateAction::RunTransaction(_)));
    let lost = RotateEvent::TransactionEnded(Ok(RotateAttempt::NotActive));
    let (state, action) = rotate_step_at(state, lost, at(30 * DAY));
    assert!(matches!(&action, RotateAction::RevokeFamily { family_id } if family_id == "family"));
    let (_, action) = rotate_step_at(state, RotateEvent::FamilyRevoked(Ok(())), at(30 * DAY));
    assert!(matches!(returned(action), Err(StoreError::Reused)));

    let mut rotated = family();
    rotated.status = RefreshTokenStatus::Rotated;
    let found = RotateEvent::Found(Ok(Some(rotated)));
    let (state, action) = rotate_step_at(RotateState::Finding, found, at(0));
    assert!(matches!(&action, RotateAction::RevokeFamily { family_id } if family_id == "family"));
    let failed = RotateEvent::FamilyRevoked(Err(StoreError::Backend("down".to_string())));
    let (_, action) = rotate_step_at(state, failed, at(0));
    assert!(matches!(returned(action), Err(StoreError::Backend(_))));

    let stray = RotateEvent::FamilyRevoked(Ok(()));
    let (_, action) = rotate_step_at(RotateState::Finding, stray, at(0));
    assert!(matches!(action, RotateAction::Refuse));
}

#[test]
fn revocation_writes_every_member_that_is_not_revoked() {
    let mut rotated = family();
    rotated.status = RefreshTokenStatus::Rotated;
    let mut revoked = family();
    revoked.status = RefreshTokenStatus::Revoked;
    revoked.token_hash = "hash-r".to_string();
    let mut active = family();
    active.token_hash = "hash-b".to_string();
    let writes = revoke_family(vec![rotated, revoked, active]);
    assert_eq!(writes.len(), 2);
    assert_eq!(writes[0].token_hash, "hash-a");
    assert_eq!(writes[1].token_hash, "hash-b");
    assert!(writes.iter().all(|record| record.status == RefreshTokenStatus::Revoked));
    assert!(revoke_family(Vec::new()).is_empty());
}

fn code(email: &str, consumed: bool) -> Option<RecoveryCodeRecord> {
    Some(RecoveryCodeRecord { user_email: email.to_string(), consumed })
}

#[test]
fn recovery_code_is_redeemed_once_and_by_its_owner() {
    let owner = "a@example.com".to_string();
    let redeemed = redeem(code("a@example.com", false), &owner).unwrap();
    assert!(redeemed.consumed);
    assert_eq!(redeemed.user_email, "a@example.com");
    assert!(redeem(Some(redeemed), &owner).is_none());
    assert!(redeem(code("b@example.com", false), &owner).is_none());
    assert!(redeem(None, &owner).is_none());
}

#[test]
fn store_errors_have_messages() {
    assert_eq!(StoreError::DuplicateEmail.message(), "email already registered");
    assert_eq!(StoreError::Replayed.message(), "DPoP proof jti already used");
    assert_eq!(StoreError::NotFound.message(), "record not found");
    assert_eq!(StoreError::Expired.message(), "record expired");
    assert_eq!(StoreError::Reused.message(), "refresh token reused; family revoked");
    assert_eq!(
        StoreError::MfaAlreadyEnrolled.message(),
        "MFA already enrolled for this account"
    );
    assert_eq!(StoreError::Backend("down".to_string()).message(), "backend error: down");
}

#[test]
fn addresses_need_two_parts_and_a_dot() {
    assert!(validate_email("a@b.c").is_ok());
    assert!(validate_email("a@b@c.d").is_ok());
    assert_eq!(validate_email("nobody"), Err(RequestFault::EmailWithoutAt));
    assert_eq!(validate_email(""), Err(RequestFault::EmailWithoutAt));
    assert_eq!(validate_email("@b.c"), Err(RequestFault::EmailInvalid));
    assert_eq!(validate_email("a@"), Err(RequestFault::EmailInvalid));
    assert_eq!(validate_email("a.b@c"), Err(RequestFault::EmailInvalid));
    assert_eq!(RequestFault::EmailWithoutAt.message(), "email must contain '@'");
    assert_eq!(RequestFault::EmailInvalid.message(), "email is not a valid address");
}

#[test]
fn passwords_are_measured_in_characters() {
    assert!(validate_password("twelve chars").is_ok());
    assert_eq!(validate_password("eleven char"), Err(RequestFault::PasswordTooShort));
    assert_eq!(validate_password("             "), Err(RequestFault::PasswordEmpty));
    assert!(validate_password(&"\u{e9}".repeat(256)).is_ok());
    assert_eq!(validate_password(&"\u{e9}".repeat(257)), Err(RequestFault::PasswordTooLong));
    assert_eq!(RequestFault::PasswordEmpty.message(), "password must not be empty");
    assert_eq!(
        RequestFault::PasswordTooLong.message(),
        "password must be at most 256 characters"
    );
}

#[test]
fn recovery_codes_are_grouped() {
    assert_eq!(format_recovery_code("0123456789"), "01234-56789");
    assert_eq!(format_recovery_code("01234567890"), "01234-56789-0");
    assert_eq!(format_recovery_code("01234"), "01234");
    assert_eq!(format_recovery_code(""), "");
    let (codes, hashes) = make_recovery_codes();
    assert_eq!(codes.len(), 10);
    for (code, hash) in codes.iter().zip(&hashes) {
        assert_eq!(&auth_service::random::hash_token(code), hash);
    }
    assert_ne!(codes[0], codes[1]);
}

#[test]
fn current_code_is_accepted_and_others_are_not() {
    let enrollment = generate_enrollment_secret("a@example.com");
    let secret = enrollment.secret_bytes();
    assert_eq!(secret.len(), 20);
    let code = enrollment.generate_current();
    assert_eq!(code.len(), 6);
    assert!(check_code(&secret, "a@example.com", &code));
    assert!(!check_code(&secret, "a@example.com", "abcdef"));
    assert!(!check_code(&secret, "a@example.com", ""));
    let other = generate_enrollment_secret("a@example.com");
    assert_ne!(other.secret_bytes(), secret);
    let url = enrollment.otpauth_url();
    assert_eq!(
        url,
        format!(
            "otpauth://totp/auth-service:a%40example.com?secret={}&issuer=auth-service",
            enrollment.base32_secret()
        )
    );
    let again = auth_service::totp::generate_current_for_base32(
        &enrollment.base32_secret(),
        "a@example.com",
    );
    assert!(check_code(&secret, "a@example.com", &again.unwrap()));
    assert!(auth_service::totp::generate_current_for_base32("1", "a@example.com").is_none());
    assert!(auth_service::totp::generate_current_for_base32("AAAA", "a@example.com").is_none());
    assert!(is_totp_usable(&secret, "a@example.com"));
    assert!(!is_totp_usable(&secret, "a:b@example.com"));
    assert!(!is_totp_usable(&vec![0; 15], "a@example.com"));
    assert!(!enrollment.base32_secret().is_empty());
}

#[test]
fn codes_are_accepted_one_step_early_and_late() {
    // The secret of RFC 6238, whose code in the second step is 287082.
    let secret = b"12345678901234567890".to_vec();
    let email = "a@example.com";
    for (time, accepted) in [(30, true), (59, true), (60, true), (89, true), (90, false)] {
        assert_eq!(check_code_at(&secret, email, "287082", time), accepted, "{time}");
    }
    // Leading zeros count.
    assert!(check_code_at(&secret, email, "081804", 1_111_111_109));
    assert!(!check_code_at(&secret, email, "81804", 1_111_111_109));
    // The name of the account does not.
    assert!(check_code_at(&secret, "b@example.com", "081804", 1_111_111_109 + 30));
    assert!(!check_code_at(&secret, email, "081804", 1_111_111_109 + 60));
    assert!(check_code_at(&secret, email, "353130", 20_000_000_000));
}

#[test]
fn clock_out_of_range_accepts_nothing() {
    let secret = b"12345678901234567890".to_vec();
    let email = "a@example.com";
    assert!(check_code_by_clock(&secret, email, "287082", Some(59)));
    assert!(!check_code_by_clock(&secret, email, "287082", None));
    assert!(!check_code_by_clock(&secret, email, "287082", Some(29)));
    assert!(!check_code_by_clock(&secret, email, "287082", Some(u64::MAX)));
}

#[test]
fn white_space_is_that_of_unicode() {
    for code in 0..=char::MAX as u32 {
        if let Some(c) = char::from_u32(code) {
            assert_eq!(trim(&c.to_string()).is_empty(), c.is_whitespace(), "{code:x}");
        }
    }
}

#[test]
fn codes_are_those_of_the_standard() {
    // The ASCII digits 1 to 0, twice, in base32, and codes for them that
    // RFC 6238 lists, cut to six digits.
    let secret = "GEZDGNBVGY3TQOJQGEZDGNBVGY3TQOJQ";
    for (time, code) in [
        (59, "287082"),
        (1_111_111_109, "081804"),
        (1_234_567_890, "005924"),
        (20_000_000_000, "353130"),
    ] {
        assert_eq!(generate_for_base32_at(secret, "a@example.com", time).as_deref(), Some(code));
    }
    // A code is that of its whole step.
    assert_eq!(generate_for_base32_at(secret, "a@example.com", 30).as_deref(), Some("287082"));
    assert_ne!(generate_for_base32_at(secret, "a@example.com", 60).as_deref(), Some("287082"));
    assert!(generate_for_base32_at(secret, "a:b@example.com", 59).is_none());
    assert!(generate_for_base32_at("1", "a@example.com", 59).is_none());

    let enrollment = generate_enrollment_secret("a@example.com");
    assert_eq!(
        Some(enrollment.generate_at(59)),
        generate_for_base32_at(&enrollment.base32_secret(), "a@example.com", 59)
    );
}

#[test]
fn client_is_the_last_entry_but_one() {
    assert_eq!(forwarded_client("192.0.2.10,35.190.0.1").unwrap(), "192.0.2.10");
    assert_eq!(forwarded_client("6.6.6.6, 192.0.2.10 , 35.190.0.1").unwrap(), "192.0.2.10");
    assert_eq!(forwarded_client("192.0.2.10"), None);
    assert_eq!(forwarded_client(""), None);
    assert_eq!(forwarded_client(",").unwrap(), "");
}

#[test]
fn requests_are_counted_by_address() {
    let forwarded = IpAddress::V4(0xc000_020a);
    let peer = IpAddress::V6(1);
    assert_eq!(extract(Some(forwarded), Some(peer)), RateLimitKey::Ip(forwarded));
    assert_eq!(extract(None, Some(peer)), RateLimitKey::Ip(peer));
    assert_eq!(extract(None, None), RateLimitKey::Unknown);
    assert_eq!((register_config().burst_size, register_config().per_second), (5, 60));
    assert_eq!((login_config().burst_size, login_config().per_second), (20, 30));
    assert_eq!((refresh_config().burst_size, refresh_config().per_second), (20, 12));
}

#[test]
fn limiter_errors_have_the_shape_of_errors() {
    let response = rate_limit_error_handler(RateLimitError::TooManyRequests { wait_time: 42 });
    assert_eq!(response.status, 429);
    assert_eq!(response.retry_after.unwrap(), "42");
    match response.body {
        ResponseBody::Error { error, message } => {
            assert_eq!(error, "rate_limited");
            assert_eq!(message, "too many requests; retry in 42s");
        }
        other => panic!("expected an error, not {other:?}"),
    }
    let response = rate_limit_error_handler(RateLimitError::Other);
    assert_eq!(response.status, 500);
    let response = invalid_json_response(415, "Expected request with a content type");
    assert_eq!(response.status, 415);
    assert!(matches!(response.body, ResponseBody::Error { error, .. } if error == "invalid_json"));
}

#[test]
fn every_response_is_kept_out_of_caches() {
    let headers: Vec<(&str, &str)> =
        security_headers().iter().map(|header| (header.name, header.value)).collect();
    assert_eq!(
        headers,
        vec![
            ("x-content-type-options", "nosniff"),
            ("cache-control", "no-store"),
            ("referrer-policy", "no-referrer"),
            ("strict-transport-security", "max-age=63072000; includeSubDomains"),
        ]
    );
}

fn claims(iat: i64, ath: Option<&str>) -> DpopClaims {
    DpopClaims {
        htm: "GET".to_string(),
        htu: "https://auth.test.example/me".to_string(),
        iat,
        jti: "jti".to_string(),
        ath: ath.map(String::from),
    }
}

#[test]
fn freshness_has_sharp_edges() {
    let base = PublicBaseUrl::parse("https://auth.test.example").unwrap();
    let check = |iat: i64| check_claims(&claims(iat, None), "GET", &base, "/me", None, 1000);
    assert!(check(700).is_ok());
    assert!(matches!(check(699), Err(DpopError::Stale)));
    assert!(check(1060).is_ok());
    assert!(matches!(check(1061), Err(DpopError::FutureIat)));
    assert!(matches!(check(i64::MIN), Err(DpopError::Stale)));
    assert!(matches!(check(i64::MAX), Err(DpopError::FutureIat)));
}

#[test]
fn access_token_is_named_by_its_digest() {
    let base = PublicBaseUrl::parse("https://auth.test.example").unwrap();
    // SHA-256 of "abc" in unpadded URL-safe base64.
    let digest = "ungWv48Bz-pBQUDeXa4iI7ADYaOWF3qctBD_YfIAFa0";
    let check = |ath: Option<&str>| {
        check_claims(&claims(1000, ath), "GET", &base, "/me", Some("abc"), 1000)
    };
    assert!(check(Some(digest)).is_ok());
    assert!(matches!(check(None), Err(DpopError::AthMismatch)));
    assert!(matches!(check(Some("abc")), Err(DpopError::AthMismatch)));
    assert!(PublicBaseUrl::parse("not a url").is_err());
}

#[test]
fn answer_of_the_replay_store_concludes_a_proof() {
    let proof = || DpopProof { jkt: "key".to_string(), jti: "jti".to_string() };
    let accepted = finish_dpop_proof(proof(), Ok(())).unwrap();
    assert_eq!((accepted.jkt.as_str(), accepted.jti.as_str()), ("key", "jti"));
    assert!(matches!(
        finish_dpop_proof(proof(), Err(StoreError::Replayed)),
        Err(DpopError::Replayed)
    ));
    assert!(matches!(
        finish_dpop_proof(proof(), Err(StoreError::Backend("down".to_string()))),
        Err(DpopError::Backend(message)) if message == "down"
    ));
    assert!(matches!(
        finish_dpop_proof(proof(), Err(StoreError::DuplicateEmail)),
        Err(DpopError::Backend(message))
            if message == "unexpected DuplicateEmail from replay store"
    ));
    assert_eq!(DpopError::Backend("down".to_string()).message(), "failed to process DPoP proof");
}
