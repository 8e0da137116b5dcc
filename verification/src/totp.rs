//! Time-based one-time passwords (RFC 6238).
use vstd::prelude::*;

use crate::time::{clock_now, clock_read, seconds_read, unix_now};

verus! {

pub const ISSUER: &'static str = "auth-service";

pub const DIGITS: usize = 6;

// One step to either side, the tolerance that RFC 6238 recommends.
pub const SKEW: u8 = 1;

pub const STEP_SECONDS: u64 = 30;

/// The shortest secret that is accepted, in bytes.
pub const MIN_SECRET_LEN: usize = 16;

/// The code that a secret yields at a time step, with so many digits, under
/// SHA-1.
pub uninterp spec fn totp_code(secret: Seq<u8>, digits: usize, step: int) -> Seq<char>;

/// The unpadded base32 text of a byte string.
pub uninterp spec fn base32_text(data: Seq<u8>) -> Seq<char>;

/// The bytes that an unpadded base32 text stands for, if it is one.
pub uninterp spec fn base32_bytes(text: Seq<char>) -> Option<Seq<u8>>;

/// The `otpauth://` address for a secret, a number of digits, a step length,
/// an issuer and an account.
pub uninterp spec fn otpauth_text(
    secret: Seq<u8>,
    digits: usize,
    step_seconds: u64,
    issuer: Seq<char>,
    account: Seq<char>,
) -> Seq<char>;

/// A generator of one-time passwords.
pub struct Totp {
    pub digits: usize,
    pub skew: u8,
    pub step_seconds: u64,
    pub secret: Vec<u8>,
    pub issuer: String,
    pub account: String,
}

impl Totp {
    /// Holds of the settings that a generator can be made from.
    pub open spec fn usable(self) -> bool {
        &&& 6 <= self.digits <= 8
        &&& self.step_seconds > 0
        &&& self.secret@.len() >= MIN_SECRET_LEN
        &&& !self.issuer@.contains(':')
        &&& !self.account@.contains(':')
    }

    /// Whether a code is accepted during a time step: it is the one of that
    /// step or of a neighbour within the skew.
    pub open spec fn accepts(self, code: Seq<char>, step: int) -> bool {
        exists|near: int|
            step - self.skew <= near <= step + self.skew && code == #[trigger] totp_code(
                self.secret@,
                self.digits,
                near,
            )
    }
}

/// `TOTP::check` on a generator with SHA-1: whether the code is that of the
/// step that holds the given second, counted from the Unix epoch, or of one
/// within the skew. It computes the first seconds of those steps, and all of
/// them have to be there.
#[verifier::external_body]
fn totp_check(totp: &Totp, code: &str, time: u64) -> (r: bool)
    requires
        totp.usable(),
        time as int / totp.step_seconds as int >= totp.skew,
        (time as int / totp.step_seconds as int + totp.skew) * totp.step_seconds <= u64::MAX,
    ensures
        r == totp.accepts(code@, time as int / totp.step_seconds as int),
{
    let (secret, issuer) = (totp.secret.clone(), Some(totp.issuer.clone()));
    let (algorithm, account) = (totp_rs::Algorithm::SHA1, totp.account.clone());
    let (digits, skew, step) = (totp.digits, totp.skew, totp.step_seconds);
    let made = totp_rs::TOTP::new(algorithm, digits, skew, step, secret, issuer, account);
    made.expect("usable settings").check(code, time)
}

/// `TOTP::generate` on a generator with SHA-1: the code of the step that holds
/// the given second, counted from the Unix epoch.
#[verifier::external_body]
fn totp_generate(totp: &Totp, time: u64) -> (r: String)
    requires
        totp.usable(),
    ensures
        r@ == totp_code(totp.secret@, totp.digits, time as int / totp.step_seconds as int),
{
    let (secret, issuer) = (totp.secret.clone(), Some(totp.issuer.clone()));
    let (algorithm, account) = (totp_rs::Algorithm::SHA1, totp.account.clone());
    let (digits, skew, step) = (totp.digits, totp.skew, totp.step_seconds);
    let made = totp_rs::TOTP::new(algorithm, digits, skew, step, secret, issuer, account);
    made.expect("usable settings").generate(time)
}

/// `TOTP::get_url` on a generator with SHA-1: the `otpauth://` address, which
/// names the secret, the issuer, the account, and the digits and the step
/// where they are not the usual ones.
#[verifier::external_body]
fn totp_url(totp: &Totp) -> (r: String)
    requires
        totp.usable(),
    ensures
        r@ == otpauth_text(
            totp.secret@,
            totp.digits,
            totp.step_seconds,
            totp.issuer@,
            totp.account@,
        ),
        r@.len() >= 15 && r@.take(15) == "otpauth://totp/"@,
{
    let (secret, issuer) = (totp.secret.clone(), Some(totp.issuer.clone()));
    let (algorithm, account) = (totp_rs::Algorithm::SHA1, totp.account.clone());
    let (digits, skew, step) = (totp.digits, totp.skew, totp.step_seconds);
    let made = totp_rs::TOTP::new(algorithm, digits, skew, step, secret, issuer, account);
    made.expect("usable settings").get_url()
}

/// `TOTP::get_secret_base32` on a generator with SHA-1: the unpadded base32
/// text of its secret, from which the same bytes can be read again. It is not
/// empty, since the secret is not.
#[verifier::external_body]
fn totp_secret_base32(totp: &Totp) -> (r: String)
    requires
        totp.usable(),
    ensures
        r@ == base32_text(totp.secret@),
        base32_bytes(r@) == Some(totp.secret@),
        r@.len() > 0,
{
    let (secret, issuer) = (totp.secret.clone(), Some(totp.issuer.clone()));
    let (algorithm, account) = (totp_rs::Algorithm::SHA1, totp.account.clone());
    let (digits, skew, step) = (totp.digits, totp.skew, totp.step_seconds);
    let made = totp_rs::TOTP::new(algorithm, digits, skew, step, secret, issuer, account);
    made.expect("usable settings").get_secret_base32()
}

/// `Secret::to_bytes` on a base32 text: the bytes that it stands for, or
/// nothing where it is no base32.
#[verifier::external_body]
fn decode_base32(text: &str) -> (r: Option<Vec<u8>>)
    ensures
        (match base32_bytes(text@) {
            Some(data) => r is Some && r->0@ == data,
            None => r is None,
        }),
{
    totp_rs::Secret::Encoded(text.to_string()).to_bytes().ok()
}

/// `Secret::generate_secret`: twenty random bytes.
#[verifier::external_body]
fn random_secret() -> (r: Option<Vec<u8>>)
    ensures
        r is Some && r->0@.len() == 20,
{
    totp_rs::Secret::generate_secret().to_bytes().ok()
}

/// Holds of a secret that was drawn at random.
pub closed spec fn secret_drawn(secret: Seq<u8>) -> bool {
    exists|drawn: Option<Vec<u8>>| #[trigger]
        call_ensures(random_secret, (), drawn) && drawn is Some && drawn->0@ == secret
}

/// The generator for a secret, with this service's settings.
fn build_totp(secret_bytes: Vec<u8>, account_email: &str) -> (r: Totp)
    requires
        totp_usable(secret_bytes@, account_email@),
    ensures
        r.usable(),
        r.digits == DIGITS,
        r.skew == SKEW,
        r.step_seconds == STEP_SECONDS,
        r.secret == secret_bytes,
        r.issuer@ == ISSUER@,
        r.account@ == account_email@,
{
    proof {
        reveal_strlit("auth-service");
    }
    let issuer = ISSUER.to_string();
    assert(!issuer@.contains(':')) by {
        assert(forall|i: int| 0 <= i < issuer@.len() ==> issuer@[i] != ':');
    }
    Totp {
        digits: DIGITS,
        skew: SKEW,
        step_seconds: STEP_SECONDS,
        secret: secret_bytes,
        issuer,
        account: account_email.to_string(),
    }
}

/// Holds of the secrets and account names that a generator can be made from:
/// the secret is long enough, and the name has no colon, which separates
/// issuer and account in an `otpauth://` address.
pub open spec fn totp_usable(secret: Seq<u8>, account_email: Seq<char>) -> bool {
    &&& secret.len() >= MIN_SECRET_LEN
    &&& !account_email.contains(':')
}

/// Whether a generator can be made from a secret and an account name.
pub fn is_totp_usable(secret_bytes: &Vec<u8>, account_email: &str) -> (r: bool)
    ensures
        r == totp_usable(secret_bytes@, account_email@),
{
    secret_bytes.len() >= MIN_SECRET_LEN && !crate::text::contains_char(account_email, ':')
}

/// Whether a code is accepted for a secret during a time step: it is the code
/// of that step, of the one before or of the one after.
pub open spec fn accepted_at(secret: Seq<u8>, code: Seq<char>, step: int) -> bool {
    ||| code == totp_code(secret, DIGITS, step - 1)
    ||| code == totp_code(secret, DIGITS, step)
    ||| code == totp_code(secret, DIGITS, step + 1)
}

/// Holds of the seconds at which a code can be checked: the steps before and
/// after have to be there too.
pub open spec fn can_check_at(time: u64) -> bool {
    STEP_SECONDS <= time <= u64::MAX - STEP_SECONDS
}

/// Whether a code is accepted for a secret, given what the clock shows. A
/// clock that stands before the Unix epoch, or so close to either end of its
/// range that a neighbouring step is missing, accepts nothing.
pub open spec fn accepts_code(secret: Seq<u8>, code: Seq<char>, clock: Option<u64>) -> bool {
    match clock {
        Some(time) => can_check_at(time) && accepted_at(
            secret,
            code,
            time as int / STEP_SECONDS as int,
        ),
        None => false,
    }
}

/// The code for a secret at that second, counted from the Unix epoch.
pub open spec fn code_at(secret: Seq<u8>, time: u64) -> Seq<char> {
    totp_code(secret, DIGITS, time as int / STEP_SECONDS as int)
}

/// A secret for an account that has not been confirmed, with what is needed
/// to show it to the user.
pub struct EnrollmentSecret {
    totp: Totp,
}

/// Makes a fresh secret for an account.
pub fn generate_enrollment_secret(account_email: &str) -> (r: EnrollmentSecret)
    requires
        !account_email@.contains(':'),
    ensures
        r.account() == account_email@,
        r.secret().len() == 20,
        secret_drawn(r.secret()),
{
    let drawn = random_secret();
    assert(secret_drawn(drawn->0@));
    let secret_bytes = drawn.unwrap();
    EnrollmentSecret { totp: build_totp(secret_bytes, account_email) }
}

impl EnrollmentSecret {
    /// The generator has this service's settings.
    #[verifier::type_invariant]
    spec fn valid(self) -> bool {
        &&& self.totp.usable()
        &&& self.totp.digits == DIGITS
        &&& self.totp.skew == SKEW
        &&& self.totp.step_seconds == STEP_SECONDS
        &&& self.totp.issuer@ == ISSUER@
    }

    /// The bytes of the secret.
    pub closed spec fn secret(self) -> Seq<u8> {
        self.totp.secret@
    }

    /// The account that the secret was made for.
    pub closed spec fn account(self) -> Seq<char> {
        self.totp.account@
    }

    /// The secret itself.
    pub fn secret_bytes(&self) -> (r: Vec<u8>)
        ensures
            r@ == self.secret(),
    {
        let copy = self.totp.secret.clone();
        assert(copy@ == self.totp.secret@);
        copy
    }

    /// The `otpauth://` address for an authenticator app.
    pub fn otpauth_url(&self) -> (r: String)
        ensures
            r@ == otpauth_text(self.secret(), DIGITS, STEP_SECONDS, ISSUER@, self.account()),
            r@ == otpauth_text(self.secret(), 6, 30, "auth-service"@, self.account()),
            r@.len() >= 15 && r@.take(15) == "otpauth://totp/"@,
    {
        proof {
            use_type_invariant(self);
        }
        totp_url(&self.totp)
    }

    /// The secret in base32, for entry by hand. The secret can be read from it
    /// again.
    pub fn base32_secret(&self) -> (r: String)
        ensures
            r@ == base32_text(self.secret()),
            base32_bytes(r@) == Some(self.secret()),
            r@.len() > 0,
    {
        proof {
            use_type_invariant(self);
        }
        totp_secret_base32(&self.totp)
    }

    /// The code that an authenticator app would show at that second.
    pub fn generate_at(&self, time: u64) -> (r: String)
        ensures
            r@ == code_at(self.secret(), time),
    {
        proof {
            use_type_invariant(self);
        }
        totp_generate(&self.totp, time)
    }

    /// The code that an authenticator app would show now.
    pub fn generate_current(&self) -> (r: String)
        ensures
            exists|time: u64| seconds_read(time) && r@ == #[trigger] code_at(self.secret(), time),
    {
        let time: u64 = unix_now();
        self.generate_at(time)
    }
}

/// Holds of the base32 texts and account names that codes can be made from.
pub open spec fn base32_usable(base32_secret: Seq<char>, account_email: Seq<char>) -> bool {
    base32_bytes(base32_secret) matches Some(secret) && totp_usable(secret, account_email)
}

/// The code that an authenticator app would show at that second for a secret
/// in base32; nothing where the text is no base32, the secret is too short, or
/// the account name has a colon.
pub fn generate_for_base32_at(base32_secret: &str, account_email: &str, time: u64) -> (r: Option<
    String,
>)
    ensures
        r is Some <==> base32_usable(base32_secret@, account_email@),
        r matches Some(code) ==> code@ == code_at(base32_bytes(base32_secret@)->0, time),
{
    match decode_base32(base32_secret) {
        None => None,
        Some(secret_bytes) => if is_totp_usable(&secret_bytes, account_email) {
            let totp = build_totp(secret_bytes, account_email);
            Some(totp_generate(&totp, time))
        } else {
            None
        },
    }
}

/// The code that an authenticator app would show now for a secret in base32;
/// nothing where the text is no base32, the secret is too short, or the
/// account name has a colon.
pub fn generate_current_for_base32(base32_secret: &str, account_email: &str) -> (r: Option<String>)
    ensures
        r is Some <==> base32_usable(base32_secret@, account_email@),
        r matches Some(code) ==> exists|time: u64|
            seconds_read(time) && code@ == #[trigger] code_at(base32_bytes(base32_secret@)->0, time),
{
    let time: u64 = unix_now();
    generate_for_base32_at(base32_secret, account_email, time)
}

/// Whether a code is correct for a secret at that second, give or take one
/// step.
pub fn check_code_at(secret_bytes: &Vec<u8>, account_email: &str, code: &str, time: u64) -> (r: bool)
    requires
        totp_usable(secret_bytes@, account_email@),
        can_check_at(time),
    ensures
        r == accepted_at(secret_bytes@, code@, time as int / STEP_SECONDS as int),
{
    let totp = build_totp(secret_bytes.clone(), account_email);
    let ghost step = time as int / STEP_SECONDS as int;
    proof {
        assert(totp.secret@ == secret_bytes@);
        if accepted_at(secret_bytes@, code@, step) {
            if code@ == totp_code(secret_bytes@, DIGITS, step - 1) {
                assert(code@ == totp_code(totp.secret@, totp.digits, step - 1));
            } else if code@ == totp_code(secret_bytes@, DIGITS, step) {
                assert(code@ == totp_code(totp.secret@, totp.digits, step));
            } else {
                assert(code@ == totp_code(totp.secret@, totp.digits, step + 1));
            }
        }
    }
    totp_check(&totp, code, time)
}

/// Whether a code is correct for a secret, given what the clock shows.
pub fn check_code_by_clock(
    secret_bytes: &Vec<u8>,
    account_email: &str,
    code: &str,
    clock: Option<u64>,
) -> (r: bool)
    requires
        totp_usable(secret_bytes@, account_email@),
    ensures
        r == accepts_code(secret_bytes@, code@, clock),
{
    match clock {
        Some(time) => if STEP_SECONDS <= time && time <= u64::MAX - STEP_SECONDS {
            check_code_at(secret_bytes, account_email, code, time)
        } else {
            false
        },
        None => false,
    }
}

/// Whether a code is correct for a secret now, give or take one step.
pub fn check_code(secret_bytes: &Vec<u8>, account_email: &str, code: &str) -> (r: bool)
    requires
        totp_usable(secret_bytes@, account_email@),
    ensures
        exists|clock: Option<u64>|
            clock_read(clock) && r == #[trigger] accepts_code(secret_bytes@, code@, clock),
{
    let clock: Option<u64> = clock_now();
    check_code_by_clock(secret_bytes, account_email, code, clock)
}

/// A code that was made for a secret is accepted for as long as the step it
/// was made in, or one next to it, lasts.
pub proof fn made_codes_are_accepted(secret: Seq<u8>, made: u64, checked: u64)
    requires
        can_check_at(checked),
        made as int / STEP_SECONDS as int - 1 <= checked as int / STEP_SECONDS as int <= made as int
            / STEP_SECONDS as int + 1,
    ensures
        accepted_at(secret, code_at(secret, made), checked as int / STEP_SECONDS as int),
        accepts_code(secret, code_at(secret, made), Some(checked)),
{
}

/// A code is accepted exactly where it is the one that the secret yields, with
/// six digits, for the thirty seconds that hold the given one, for those before
/// or for those after. A clock without either neighbour, or before the Unix
/// epoch, accepts nothing.
pub proof fn codes_are_accepted_for_three_steps(secret: Seq<u8>, code: Seq<char>, time: u64)
    ensures
        30 <= time <= 0xffff_ffff_ffff_ffff - 30 ==> (accepts_code(secret, code, Some(time))
            <==> exists|step: int|
            time as int / 30 - 1 <= step <= time as int / 30 + 1 && code == #[trigger] totp_code(
                secret,
                6,
                step,
            )),
        !(30 <= time <= 0xffff_ffff_ffff_ffff - 30) ==> !accepts_code(secret, code, Some(time)),
        !accepts_code(secret, code, None),
{
    if accepts_code(secret, code, Some(time)) {
        let step = time as int / 30;
        assert(code == totp_code(secret, 6, step - 1) || code == totp_code(secret, 6, step) || code
            == totp_code(secret, 6, step + 1));
    }
}

/// At any second of the same thirty an authenticator app shows the same code:
/// the one of six digits that the secret yields for them.
pub proof fn codes_last_for_thirty_seconds(secret: Seq<u8>, one: u64, other: u64)
    requires
        one as int / 30 == other as int / 30,
    ensures
        code_at(secret, one) == code_at(secret, other),
        code_at(secret, one) == totp_code(secret, 6, one as int / 30),
{
}

/// Codes can be made from a secret of sixteen bytes or more, for an account
/// whose name has no colon, and from no other.
pub proof fn secrets_need_sixteen_bytes(secret: Seq<u8>, account: Seq<char>, base32: Seq<char>)
    ensures
        totp_usable(secret, account) <==> secret.len() >= 16 && forall|i: int|
            0 <= i < account.len() ==> #[trigger] account[i] != ':',
        base32_bytes(base32) == Some(secret) ==> (base32_usable(base32, account) <==> totp_usable(
            secret,
            account,
        )),
        base32_bytes(base32) is None ==> !base32_usable(base32, account),
{
    if account.contains(':') {
        let i = choose|i: int| 0 <= i < account.len() && account[i] == ':';
        assert(account[i] == ':');
    }
}

} // verus!
