//! Registration, and the confirmation of a second factor that completes it.
use vstd::prelude::*;

use crate::error::{
    error_response, internal_error, is_plain_error, success_response, ApiResponse, ResponseBody,
    BAD_REQUEST, CONFLICT, CREATED, INTERNAL_SERVER_ERROR,
};
use crate::hex::{hex_text, hex_text_is_lower_hex, is_lower_hex};
use crate::password::{hash_password, hashed, PasswordError};
use crate::random::{
    generate_opaque_token, hash_token, is_opaque_token, is_random_token, token_hash,
};
use crate::store::StoreError;
use crate::text::{
    decimal, from_chars, lowercase, normalize_email, normalized_email, to_chars, to_decimal, trim,
    trimmed,
};
use crate::time::Timestamp;
use crate::totp::{
    base32_text, generate_enrollment_secret, otpauth_text, secret_drawn, EnrollmentSecret, DIGITS,
    ISSUER, STEP_SECONDS,
};
use crate::user::{NewUser, User};

verus! {

// Above the floor of eight that NIST sets, and backed by the check against
// breached passwords.
pub const MIN_PASSWORD_LEN: usize = 12;

pub const MAX_PASSWORD_LEN: usize = 256;

/// How many recovery codes an account gets.
pub const RECOVERY_CODE_COUNT: usize = 10;

/// The number of random bytes in a recovery code.
pub const RECOVERY_CODE_BYTE_LEN: usize = 5;

/// The digits of a recovery code are shown in groups of this size.
pub const RECOVERY_CODE_GROUP_LEN: usize = 5;

/// The number of random bytes in a user id.
pub const USER_ID_BYTE_LEN: usize = 16;

#[derive(Debug)]
pub struct RegisterRequest {
    pub email: String,
    pub password: String,
}

#[derive(Debug)]
pub struct RegisterResponse {
    pub email: String,
    pub created_at: Timestamp,
    /// The `otpauth://` address, to be shown to an authenticator app.
    pub mfa_enrollment_url: String,
    /// The secret in base32, for entry by hand.
    pub mfa_secret_base32: String,
}

#[derive(Debug)]
pub struct ConfirmRequest {
    pub email: String,
    pub mfa_code: String,
}

#[derive(Debug)]
pub struct ConfirmResponse {
    pub email: String,
    /// The recovery codes in clear, shown this once.
    pub recovery_codes: Vec<String>,
}

/// What is wrong with a registration request.
#[derive(Debug, Clone, Copy, PartialEq, Eq, Structural)]
pub enum RequestFault {
    EmailWithoutAt,
    EmailInvalid,
    PasswordEmpty,
    PasswordTooShort,
    PasswordTooLong,
    PasswordBreached,
}

/// What a caller is told of a fault.
pub open spec fn fault_message(fault: RequestFault) -> Seq<char> {
    match fault {
        RequestFault::EmailWithoutAt => "email must contain '@'"@,
        RequestFault::EmailInvalid => "email is not a valid address"@,
        RequestFault::PasswordEmpty => "password must not be empty"@,
        RequestFault::PasswordTooShort => "password must be at least "@ + decimal(
            MIN_PASSWORD_LEN as nat,
        ) + " characters"@,
        RequestFault::PasswordTooLong => "password must be at most "@ + decimal(
            MAX_PASSWORD_LEN as nat,
        ) + " characters"@,
        RequestFault::PasswordBreached =>
            "this password has appeared in a data breach; choose a different one"@,
    }
}

fn length_message(start: &str, limit: u64) -> (r: String)
    ensures
        r@ == start@ + decimal(limit as nat) + " characters"@,
{
    let mut message = start.to_string();
    message.append(to_decimal(limit).as_str());
    message.append(" characters");
    message
}

impl RequestFault {
    /// What a caller is told.
    pub fn message(&self) -> (r: String)
        ensures
            r@ == fault_message(*self),
    {
        match self {
            RequestFault::EmailWithoutAt => "email must contain '@'".to_string(),
            RequestFault::EmailInvalid => "email is not a valid address".to_string(),
            RequestFault::PasswordEmpty => "password must not be empty".to_string(),
            RequestFault::PasswordTooShort => length_message(
                "password must be at least ",
                MIN_PASSWORD_LEN as u64,
            ),
            RequestFault::PasswordTooLong => length_message(
                "password must be at most ",
                MAX_PASSWORD_LEN as u64,
            ),
            RequestFault::PasswordBreached =>
                "this password has appeared in a data breach; choose a different one".to_string(),
        }
    }
}

/// Holds where an address is parted by its first `@`.
pub open spec fn parted_at(email: Seq<char>, at: int) -> bool {
    &&& 0 <= at < email.len()
    &&& email[at] == '@'
    &&& forall|i: int| 0 <= i < at ==> #[trigger] email[i] != '@'
}

/// Holds of an address with something before its first `@`, and behind it a
/// domain with a dot.
pub open spec fn is_valid_email(email: Seq<char>) -> bool {
    exists|at: int| #[trigger]
        parted_at(email, at) && at > 0 && email.skip(at + 1).len() > 0 && email.skip(
            at + 1,
        ).contains('.')
}

/// What is wrong with an email address, if anything.
pub open spec fn email_fault(email: Seq<char>) -> Option<RequestFault> {
    if !email.contains('@') {
        Some(RequestFault::EmailWithoutAt)
    } else if !is_valid_email(email) {
        Some(RequestFault::EmailInvalid)
    } else {
        None
    }
}

pub fn validate_email(email: &str) -> (r: Result<(), RequestFault>)
    ensures
        r == (match email_fault(email@) {
            Some(fault) => Err(fault),
            None => Ok(()),
        }),
{
    let chars = to_chars(email);
    let mut at: usize = 0;
    while at < chars.len() && chars[at] != '@'
        invariant
            chars@ == email@,
            at <= chars@.len(),
            forall|i: int| 0 <= i < at ==> #[trigger] email@[i] != '@',
        decreases chars@.len() - at,
    {
        at = at + 1;
    }
    if at == chars.len() {
        assert(!email@.contains('@'));
        return Err(RequestFault::EmailWithoutAt);
    }
    assert(email@[at as int] == '@');
    assert(email@.contains('@'));
    assert(parted_at(email@, at as int));
    assert(forall|other: int| #[trigger] parted_at(email@, other) ==> other == at) by {
        assert forall|other: int| #[trigger] parted_at(email@, other) implies other == at by {
            if other < at {
                assert(email@[other] != '@');
            }
            if at < other {
                assert(email@[at as int] != '@');
            }
        }
    }
    let ghost domain = email@.skip(at + 1);
    let mut dot: usize = at + 1;
    while dot < chars.len() && chars[dot] != '.'
        invariant
            chars@ == email@,
            at < dot <= chars@.len(),
            domain == email@.skip(at + 1),
            forall|i: int| at < i < dot ==> #[trigger] email@[i] != '.',
        decreases chars@.len() - dot,
    {
        dot = dot + 1;
    }
    if at == 0 || dot == chars.len() {
        assert(dot == email@.len() ==> !domain.contains('.')) by {
            if dot == email@.len() && domain.contains('.') {
                let i = choose|i: int| 0 <= i < domain.len() && domain[i] == '.';
                assert(email@[at + 1 + i] == '.');
            }
        }
        return Err(RequestFault::EmailInvalid);
    }
    assert(domain[dot - at - 1] == '.');
    Ok(())
}

/// What is wrong with a password, if anything, short of its being known.
pub open spec fn password_fault(password: Seq<char>) -> Option<RequestFault> {
    if trimmed(password).len() == 0 {
        Some(RequestFault::PasswordEmpty)
    } else if password.len() < MIN_PASSWORD_LEN {
        Some(RequestFault::PasswordTooShort)
    } else if password.len() > MAX_PASSWORD_LEN {
        Some(RequestFault::PasswordTooLong)
    } else {
        None
    }
}

pub fn validate_password(password: &str) -> (r: Result<(), RequestFault>)
    ensures
        r == (match password_fault(password@) {
            Some(fault) => Err(fault),
            None => Ok(()),
        }),
{
    if trim(password).as_str().unicode_len() == 0 {
        return Err(RequestFault::PasswordEmpty);
    }
    let len: usize = password.unicode_len();
    if len < MIN_PASSWORD_LEN {
        return Err(RequestFault::PasswordTooShort);
    }
    if len > MAX_PASSWORD_LEN {
        return Err(RequestFault::PasswordTooLong);
    }
    Ok(())
}

/// A text in groups of a size, with hyphens between them.
pub open spec fn grouped(text: Seq<char>, size: nat) -> Seq<char>
    decreases text.len(),
{
    if size == 0 || text.len() <= size {
        text
    } else {
        text.take(size as int) + seq!['-'] + grouped(text.skip(size as int), size)
    }
}

/// Shows the digits of a recovery code in groups.
pub fn format_recovery_code(raw_hex: &str) -> (r: String)
    requires
        forall|i: int| 0 <= i < raw_hex@.len() ==> #[trigger] raw_hex@[i] <= '\u{7f}',
    ensures
        r@ == grouped(raw_hex@, RECOVERY_CODE_GROUP_LEN as nat),
{
    let chars = to_chars(raw_hex);
    let mut text = String::new();
    let mut done: usize = 0;
    proof {
        let all = grouped(raw_hex@, RECOVERY_CODE_GROUP_LEN as nat);
        assert(raw_hex@.skip(0) =~= raw_hex@);
        assert(text@ + all =~= all);
    }
    while chars.len() - done > RECOVERY_CODE_GROUP_LEN
        invariant
            chars@ == raw_hex@,
            done <= chars@.len(),
            grouped(raw_hex@, RECOVERY_CODE_GROUP_LEN as nat) == text@ + grouped(
                raw_hex@.skip(done as int),
                RECOVERY_CODE_GROUP_LEN as nat,
            ),
        decreases chars@.len() - done,
    {
        let group = from_chars(&chars, done, done + RECOVERY_CODE_GROUP_LEN);
        let ghost before = text@;
        text.append(group.as_str());
        text.push('-');
        proof {
            let rest = raw_hex@.skip(done as int);
            let size = RECOVERY_CODE_GROUP_LEN as int;
            assert(rest.take(size) =~= group@);
            assert(rest.skip(size) =~= raw_hex@.skip(done + size));
            assert(text@ =~= before + (group@ + seq!['-']));
            assert(before + (group@ + seq!['-'] + grouped(rest.skip(size), size as nat)) =~= text@
                + grouped(rest.skip(size), size as nat));
        }
        done = done + RECOVERY_CODE_GROUP_LEN;
    }
    let last = from_chars(&chars, done, chars.len());
    assert(raw_hex@.skip(done as int) =~= last@);
    text.append(last.as_str());
    text
}

/// Holds of a recovery code: ten random hexadecimal digits in groups.
pub open spec fn is_recovery_code(code: Seq<char>) -> bool {
    exists|raw: Seq<char>|
        is_random_token(raw, RECOVERY_CODE_BYTE_LEN) && is_opaque_token(
            raw,
            RECOVERY_CODE_BYTE_LEN as nat,
        ) && code == #[trigger] grouped(raw, RECOVERY_CODE_GROUP_LEN as nat)
}

/// Holds of a full set of recovery codes with their hashes.
pub open spec fn are_recovery_codes(codes: Seq<String>, hashes: Seq<String>) -> bool {
    &&& codes.len() == RECOVERY_CODE_COUNT
    &&& hashes.len() == RECOVERY_CODE_COUNT
    &&& forall|i: int|
        0 <= i < RECOVERY_CODE_COUNT ==> is_recovery_code((#[trigger] codes[i])@) && hashes[i]@
            == token_hash(codes[i]@)
}

fn make_recovery_code() -> (r: String)
    ensures
        is_recovery_code(r@),
{
    let raw = generate_opaque_token(RECOVERY_CODE_BYTE_LEN);
    assert(is_random_token(raw@, RECOVERY_CODE_BYTE_LEN));
    proof {
        let bytes = choose|bytes: Seq<u8>|
            bytes.len() == RECOVERY_CODE_BYTE_LEN && raw@ == #[trigger] hex_text(bytes, false);
        hex_text_is_lower_hex(bytes);
        assert forall|i: int| 0 <= i < raw@.len() implies #[trigger] raw@[i] <= '\u{7f}' by {
            assert(is_lower_hex(hex_text(bytes, false)[i]));
        }
    }
    format_recovery_code(raw.as_str())
}

/// Makes a set of recovery codes, in clear and hashed.
pub fn make_recovery_codes() -> (r: (Vec<String>, Vec<String>))
    ensures
        are_recovery_codes(r.0@, r.1@),
{
    let mut codes: Vec<String> = Vec::new();
    let mut hashes: Vec<String> = Vec::new();
    while codes.len() < RECOVERY_CODE_COUNT
        invariant
            codes@.len() <= RECOVERY_CODE_COUNT,
            hashes@.len() == codes@.len(),
            forall|i: int|
                0 <= i < codes@.len() ==> is_recovery_code((#[trigger] codes@[i])@) && hashes@[i]@
                    == token_hash(codes@[i]@),
        decreases RECOVERY_CODE_COUNT - codes@.len(),
    {
        let code = make_recovery_code();
        hashes.push(hash_token(code.as_str()));
        codes.push(code);
    }
    (codes, hashes)
}

/// The list of breached passwords could not be had.
#[derive(Debug)]
pub struct BreachCheckFailed;

/// Where a registration stands.
pub enum RegisterState {
    CheckingBreach { email: String, password: String },
    HashingPassword { email: String },
    Enrolling { email: String, password_hash: String },
    CreatingUser { enrollment: EnrollmentSecret },
    Finished,
}

/// What has happened since the last step.
pub enum RegisterEvent {
    BreachChecked(Result<bool, BreachCheckFailed>),
    PasswordHashed(Result<String, PasswordError>),
    /// A user id and a secret have been made; `secret` is the secret's bytes.
    Enrolled { user_id: String, secret: Vec<u8>, enrollment: EnrollmentSecret },
    UserCreated(Result<User, StoreError>),
}

/// Work that needs no store.
pub enum RegisterTask {
    HashPassword { password: String },
    Enroll { email: String },
}

/// What is to happen next.
pub enum RegisterAction {
    /// Ask whether the password has been breached.
    CheckBreached { password: String },
    CreateUser(NewUser),
    Compute(RegisterTask),
    Respond(RegisterOutcome),
}

/// How a registration ends.
pub enum RegisterOutcome {
    InvalidRequest(RequestFault),
    EmailTaken,
    InternalError,
    Registered { email: String, created_at: Timestamp, enrollment: EnrollmentSecret },
}

/// The end of a registration.
pub open spec fn register_ended(outcome: RegisterOutcome) -> (RegisterState, RegisterAction) {
    (RegisterState::Finished, RegisterAction::Respond(outcome))
}

/// The first step of a registration: an address or a password that will not
/// do is refused at once, and one that will is held against the breaches.
pub open spec fn register_begun(email: String, password: String) -> (
    RegisterState,
    RegisterAction,
) {
    match (email_fault(email@), password_fault(password@)) {
        (Some(fault), _) => register_ended(RegisterOutcome::InvalidRequest(fault)),
        (None, Some(fault)) => register_ended(RegisterOutcome::InvalidRequest(fault)),
        (None, None) => (
            RegisterState::CheckingBreach { email, password },
            RegisterAction::CheckBreached { password },
        ),
    }
}

/// The next step of a registration.
pub open spec fn register_next(
    state: RegisterState,
    event: RegisterEvent,
) -> (RegisterState, RegisterAction) {
    match (state, event) {
        // Where the list cannot be had the registration goes on: it does not
        // depend on someone else's uptime.
        (
            RegisterState::CheckingBreach { email, password },
            RegisterEvent::BreachChecked(checked),
        ) => match checked {
            Ok(true) => register_ended(
                RegisterOutcome::InvalidRequest(RequestFault::PasswordBreached),
            ),
            _ => (
                RegisterState::HashingPassword { email },
                RegisterAction::Compute(RegisterTask::HashPassword { password }),
            ),
        },
        (
            RegisterState::HashingPassword { email },
            RegisterEvent::PasswordHashed(result),
        ) => match result {
            Ok(password_hash) => (
                RegisterState::Enrolling { email, password_hash },
                RegisterAction::Compute(RegisterTask::Enroll { email }),
            ),
            Err(_) => register_ended(RegisterOutcome::InternalError),
        },
        (
            RegisterState::Enrolling { email, password_hash },
            RegisterEvent::Enrolled { user_id, secret, enrollment },
        ) => (
            RegisterState::CreatingUser { enrollment },
            RegisterAction::CreateUser(
                NewUser { user_id, email, password_hash, mfa_secret: secret },
            ),
        ),
        (
            RegisterState::CreatingUser { enrollment },
            RegisterEvent::UserCreated(created),
        ) => match created {
            Ok(user) => register_ended(
                RegisterOutcome::Registered {
                    email: user.email,
                    created_at: user.created_at,
                    enrollment,
                },
            ),
            Err(StoreError::DuplicateEmail) => register_ended(RegisterOutcome::EmailTaken),
            Err(_) => register_ended(RegisterOutcome::InternalError),
        },
        // An event that the state does not wait for.
        _ => register_ended(RegisterOutcome::InternalError),
    }
}

fn register_end(outcome: RegisterOutcome) -> (r: (RegisterState, RegisterAction))
    ensures
        r == register_ended(outcome),
{
    (RegisterState::Finished, RegisterAction::Respond(outcome))
}

/// Begins a registration.
pub fn register_begin(request: RegisterRequest) -> (r: (RegisterState, RegisterAction))
    ensures
        exists|email: String|
            email@ == normalized_email(request.email@) && r == #[trigger] register_begun(
                email,
                request.password,
            ),
        r.0 matches RegisterState::CheckingBreach { email, .. } ==> email@ == lowercase(
            trimmed(request.email@),
        ),
{
    let email = normalize_email(request.email.as_str());
    let ghost address = email;
    let r = match validate_email(email.as_str()) {
        Err(fault) => register_end(RegisterOutcome::InvalidRequest(fault)),
        Ok(()) => match validate_password(request.password.as_str()) {
            Err(fault) => register_end(RegisterOutcome::InvalidRequest(fault)),
            Ok(()) => {
                let action = RegisterAction::CheckBreached { password: request.password.clone() };
                (RegisterState::CheckingBreach { email, password: request.password }, action)
            },
        },
    };
    assert(r == register_begun(address, request.password));
    r
}

/// Takes the next step of a registration.
pub fn register_step(state: RegisterState, event: RegisterEvent) -> (r: (
    RegisterState,
    RegisterAction,
))
    ensures
        r == register_next(state, event),
{
    match (state, event) {
        (
            RegisterState::CheckingBreach { email, password },
            RegisterEvent::BreachChecked(checked),
        ) => match checked {
            Ok(true) => register_end(
                RegisterOutcome::InvalidRequest(RequestFault::PasswordBreached),
            ),
            _ => (
                RegisterState::HashingPassword { email },
                RegisterAction::Compute(RegisterTask::HashPassword { password }),
            ),
        },
        (
            RegisterState::HashingPassword { email },
            RegisterEvent::PasswordHashed(result),
        ) => match result {
            Ok(password_hash) => {
                let task = RegisterTask::Enroll { email: email.clone() };
                (RegisterState::Enrolling { email, password_hash }, RegisterAction::Compute(task))
            },
            Err(_) => register_end(RegisterOutcome::InternalError),
        },
        (
            RegisterState::Enrolling { email, password_hash },
            RegisterEvent::Enrolled { user_id, secret, enrollment },
        ) => (
            RegisterState::CreatingUser { enrollment },
            RegisterAction::CreateUser(
                NewUser { user_id, email, password_hash, mfa_secret: secret },
            ),
        ),
        (
            RegisterState::CreatingUser { enrollment },
            RegisterEvent::UserCreated(created),
        ) => match created {
            Ok(user) => register_end(
                RegisterOutcome::Registered {
                    email: user.email,
                    created_at: user.created_at,
                    enrollment,
                },
            ),
            Err(StoreError::DuplicateEmail) => register_end(RegisterOutcome::EmailTaken),
            Err(_) => register_end(RegisterOutcome::InternalError),
        },
        _ => register_end(RegisterOutcome::InternalError),
    }
}

/// Holds of the events that performing a task may give.
pub open spec fn register_task_yields(task: RegisterTask, event: RegisterEvent) -> bool {
    match task {
        RegisterTask::HashPassword { password } => event matches RegisterEvent::PasswordHashed(
            result,
        ) && hashed(password@, result),
        RegisterTask::Enroll { email } => event matches RegisterEvent::Enrolled {
            user_id,
            secret,
            enrollment,
        } && {
            &&& is_opaque_token(user_id@, USER_ID_BYTE_LEN as nat)
            &&& is_random_token(user_id@, USER_ID_BYTE_LEN)
            &&& enrollment.account() == email@
            &&& secret@ == enrollment.secret()
            &&& secret@.len() == 20
            &&& secret_drawn(secret@)
        },
    }
}

/// Holds of a task that can be performed: no secret can be made for an
/// address with a colon.
pub open spec fn register_task_ready(task: RegisterTask) -> bool {
    task matches RegisterTask::Enroll { email } ==> !email@.contains(':')
}

/// Performs a task.
pub fn perform_register_task(task: RegisterTask) -> (r: RegisterEvent)
    requires
        register_task_ready(task),
    ensures
        register_task_yields(task, r),
{
    match task {
        RegisterTask::HashPassword { password } => RegisterEvent::PasswordHashed(
            hash_password(password.as_str()),
        ),
        RegisterTask::Enroll { email } => {
            let enrollment = generate_enrollment_secret(email.as_str());
            let secret = enrollment.secret_bytes();
            let user_id = generate_opaque_token(USER_ID_BYTE_LEN);
            assert(is_random_token(user_id@, USER_ID_BYTE_LEN));
            RegisterEvent::Enrolled { user_id, secret, enrollment }
        },
    }
}

/// Where a registration stands after events that follow on a step.
pub open spec fn register_run(
    from: (RegisterState, RegisterAction),
    events: Seq<RegisterEvent>,
) -> (RegisterState, RegisterAction)
    decreases events.len(),
{
    if events.len() == 0 {
        from
    } else {
        register_next(register_run(from, events.drop_last()).0, events.last())
    }
}

/// Holds of an event that comes of a task which was due.
pub open spec fn register_computed(due: RegisterAction, event: RegisterEvent) -> bool {
    match due {
        RegisterAction::Compute(task) => register_task_yields(task, event),
        _ => false,
    }
}

/// Holds of events that all come of tasks, each of the one that was due.
pub open spec fn register_computed_run(
    from: (RegisterState, RegisterAction),
    events: Seq<RegisterEvent>,
) -> bool {
    forall|i: int|
        0 <= i < events.len() ==> register_computed(
            register_run(from, events.take(i)).1,
            #[trigger] events[i],
        )
}

/// One more task adds one more event.
proof fn register_computed_run_extends(
    from: (RegisterState, RegisterAction),
    events: Seq<RegisterEvent>,
    event: RegisterEvent,
)
    requires
        register_computed_run(from, events),
        register_computed(register_run(from, events).1, event),
    ensures
        register_computed_run(from, events.push(event)),
        register_run(from, events.push(event)) == register_next(
            register_run(from, events).0,
            event,
        ),
{
    let longer = events.push(event);
    assert(longer.drop_last() =~= events);
    assert forall|i: int| 0 <= i < longer.len() implies register_computed(
        register_run(from, longer.take(i)).1,
        #[trigger] longer[i],
    ) by {
        assert(longer.take(i) =~= events.take(i));
        if i == events.len() {
            assert(events.take(i) =~= events);
        } else {
            assert(longer[i] == events[i]);
        }
    }
}

/// How many steps a registration has before it at most.
pub open spec fn register_steps_left(state: RegisterState) -> nat {
    match state {
        RegisterState::CheckingBreach { .. } => 4,
        RegisterState::HashingPassword { .. } => 3,
        RegisterState::Enrolling { .. } => 2,
        RegisterState::CreatingUser { .. } => 1,
        RegisterState::Finished => 0,
    }
}

/// The address that a registration is about to make a secret for, if it is
/// that far.
pub open spec fn register_address(state: RegisterState) -> Option<Seq<char>> {
    match state {
        RegisterState::CheckingBreach { email, .. } => Some(email@),
        RegisterState::HashingPassword { email } => Some(email@),
        _ => None,
    }
}

/// Holds of a state and an event with which a registration can go on: unless
/// it ends here, no colon stands in the address.
pub open spec fn register_ready(state: RegisterState, event: RegisterEvent) -> bool {
    match (state, event) {
        (
            RegisterState::CheckingBreach { email, .. },
            RegisterEvent::BreachChecked(checked),
        ) => checked != Ok::<bool, BreachCheckFailed>(true) ==> !email@.contains(':'),
        (
            RegisterState::HashingPassword { email },
            RegisterEvent::PasswordHashed(result),
        ) => result is Ok ==> !email@.contains(':'),
        _ => true,
    }
}

/// Every step that is not the last brings a registration closer to its end.
proof fn register_makes_progress(state: RegisterState, event: RegisterEvent)
    ensures
        ({
            let next = register_next(state, event);
            &&& next.1 is Compute ==> next.0 !is Finished
            &&& state !is Finished ==> register_steps_left(next.0) < register_steps_left(state)
            &&& next.1 matches RegisterAction::Compute(RegisterTask::HashPassword { .. }) ==> next.0
                matches RegisterState::HashingPassword { email } && register_address(state) == Some(
                email@,
            )
            &&& next.1 matches RegisterAction::Compute(RegisterTask::Enroll { email }) ==> {
                &&& next.0 is Enrolling
                &&& register_address(state) == Some(email@)
            }
        }),
{
}

/// Goes on with a registration after an event, up to the next store call or
/// the response.
pub fn register_resume(state: RegisterState, event: RegisterEvent) -> (r: (
    RegisterState,
    RegisterAction,
))
    requires
        register_ready(state, event),
    ensures
        r.1 !is Compute,
        exists|events: Seq<RegisterEvent>|
            register_computed_run(register_next(state, event), events) && r
                == #[trigger] register_run(register_next(state, event), events),
{
    let ghost from = register_next(state, event);
    let ghost mut events: Seq<RegisterEvent> = Seq::empty();
    proof {
        register_makes_progress(state, event);
    }
    let (mut current, mut action) = register_step(state, event);
    loop
        invariant
            from == register_next(state, event),
            (current, action) == register_run(from, events),
            register_computed_run(from, events),
            action is Compute ==> current !is Finished,
            action matches RegisterAction::Compute(task) ==> register_task_ready(task),
            action is Compute ==> (register_address(current) matches Some(address)
                ==> !address.contains(':')),
        decreases register_steps_left(current),
    {
        match action {
            RegisterAction::Compute(task) => {
                let outcome = perform_register_task(task);
                proof {
                    register_computed_run_extends(from, events, outcome);
                    register_makes_progress(current, outcome);
                    events = events.push(outcome);
                }
                let next = register_step(current, outcome);
                current = next.0;
                action = next.1;
            },
            other => {
                return (current, other);
            },
        }
    }
}

/// Holds of the response to a registration that ended so.
pub open spec fn answers_register(outcome: RegisterOutcome, response: ApiResponse) -> bool {
    match outcome {
        RegisterOutcome::InvalidRequest(fault) => is_plain_error(
            response,
            BAD_REQUEST,
            "invalid_request"@,
            fault_message(fault),
        ),
        RegisterOutcome::EmailTaken => is_plain_error(
            response,
            CONFLICT,
            "email_already_registered"@,
            "an account with this email already exists"@,
        ),
        RegisterOutcome::InternalError => is_plain_error(
            response,
            INTERNAL_SERVER_ERROR,
            "internal_error"@,
            "failed to process registration"@,
        ),
        RegisterOutcome::Registered { email, created_at, enrollment } => {
            &&& response.status == CREATED
            &&& response.retry_after is None
            &&& response.body matches ResponseBody::Registered(registered) && {
                &&& registered.email == email
                &&& registered.created_at == created_at
                &&& registered.mfa_enrollment_url@ == otpauth_text(
                    enrollment.secret(),
                    DIGITS,
                    STEP_SECONDS,
                    ISSUER@,
                    enrollment.account(),
                )
                &&& registered.mfa_secret_base32@ == base32_text(enrollment.secret())
            }
        },
    }
}

/// The response to a registration.
pub fn register_response(outcome: RegisterOutcome) -> (r: ApiResponse)
    ensures
        answers_register(outcome, r),
{
    match outcome {
        RegisterOutcome::InvalidRequest(fault) => error_response(
            BAD_REQUEST,
            "invalid_request",
            fault.message().as_str(),
        ),
        RegisterOutcome::EmailTaken => error_response(
            CONFLICT,
            "email_already_registered",
            "an account with this email already exists",
        ),
        RegisterOutcome::InternalError => internal_error("failed to process registration"),
        RegisterOutcome::Registered { email, created_at, enrollment } => success_response(
            CREATED,
            ResponseBody::Registered(
                RegisterResponse {
                    email,
                    created_at,
                    mfa_enrollment_url: enrollment.otpauth_url(),
                    mfa_secret_base32: enrollment.base32_secret(),
                },
            ),
        ),
    }
}

} // verus!
