//! What holds of a registration and of its confirmation from beginning to
//! end, whatever the store answers and whatever the tasks yield.
use vstd::prelude::*;

use crate::confirm::{
    confirm_begun, confirm_ended, confirm_next, confirm_ready, confirm_run, ConfirmAction,
    ConfirmEvent, ConfirmOutcome, ConfirmState, ConfirmTask,
};
use crate::login::{task_ready, LoginTask};
use crate::random::token_hash;
use crate::register::{
    are_recovery_codes, email_fault, password_fault, register_begun, register_ended, register_next,
    register_run, register_task_ready, register_task_yields, BreachCheckFailed, RegisterAction,
    RegisterEvent, RegisterOutcome, RegisterState, RegisterTask, RequestFault, RECOVERY_CODE_COUNT,
};
use crate::store::recovery_codes::{as_consumed, redeemable};
use crate::store::users::{
    confirmed, created_user, entries_for, ConfirmMfaOutcome, RecoveryCodeEntry,
};
use crate::time::Timestamp;
use crate::user::{NewUser, User};

verus! {

/// Holds of the events of a registration that leaves an account.
pub open spec fn registration_granted(events: Seq<RegisterEvent>) -> bool {
    &&& events.len() == 4
    &&& events[0] matches RegisterEvent::BreachChecked(checked)
    &&& checked != Ok::<bool, BreachCheckFailed>(true)
    &&& events[1] matches RegisterEvent::PasswordHashed(Ok(_))
    &&& events[2] is Enrolled
    &&& events[3] matches RegisterEvent::UserCreated(Ok(_))
}

/// What the events so far must have been, given where a registration stands.
spec fn register_trace(
    email: String,
    password: String,
    state: RegisterState,
    action: RegisterAction,
    events: Seq<RegisterEvent>,
) -> bool {
    let n = events.len() as int;
    let acceptable = email_fault(email@) is None && password_fault(password@) is None;
    match state {
        RegisterState::CheckingBreach { email: address, password: secret } => n == 0 && acceptable
            && address == email && secret == password,
        RegisterState::HashingPassword { email: address } => {
            &&& n == 1
            &&& acceptable
            &&& address == email
            &&& events[0] matches RegisterEvent::BreachChecked(checked)
            &&& checked != Ok::<bool, BreachCheckFailed>(true)
            &&& action == RegisterAction::Compute(RegisterTask::HashPassword { password })
        },
        RegisterState::Enrolling { email: address, password_hash } => {
            &&& n == 2
            &&& acceptable
            &&& address == email
            &&& events[0] matches RegisterEvent::BreachChecked(checked)
            &&& checked != Ok::<bool, BreachCheckFailed>(true)
            &&& events[1] == RegisterEvent::PasswordHashed(Ok(password_hash))
        },
        RegisterState::CreatingUser { enrollment } => {
            &&& n == 3
            &&& acceptable
            &&& events[0] matches RegisterEvent::BreachChecked(checked)
            &&& checked != Ok::<bool, BreachCheckFailed>(true)
            &&& events[1] matches RegisterEvent::PasswordHashed(Ok(password_hash))
            &&& events[2] matches RegisterEvent::Enrolled { user_id, secret, enrollment: made }
            &&& made == enrollment
            &&& action == RegisterAction::CreateUser(
                NewUser { user_id, email, password_hash, mfa_secret: secret },
            )
        },
        RegisterState::Finished => action matches RegisterAction::Respond(outcome) && (
        outcome is Registered ==> acceptable && registration_granted(events)),
    }
}

/// Every run has the events that its state tells.
proof fn registrations_are_traced(email: String, password: String, events: Seq<RegisterEvent>)
    ensures
        ({
            let run = register_run(register_begun(email, password), events);
            register_trace(email, password, run.0, run.1, events)
        }),
    decreases events.len(),
{
    if events.len() > 0 {
        let before = events.drop_last();
        registrations_are_traced(email, password, before);
        let n = before.len() as int;
        assert(events[n] == events.last());
        assert(forall|i: int| 0 <= i < n ==> #[trigger] before[i] == events[i]);
    }
}

/// A run is made of steps.
proof fn register_run_steps(
    from: (RegisterState, RegisterAction),
    events: Seq<RegisterEvent>,
    i: int,
)
    requires
        0 <= i < events.len(),
    ensures
        register_run(from, events.take(i + 1)) == register_next(
            register_run(from, events.take(i)).0,
            events[i],
        ),
{
    assert(events.take(i + 1).drop_last() =~= events.take(i));
    assert(events.take(i + 1).last() == events[i]);
}

/// An account comes of a registration exactly where the address and the
/// password will do, the password is not known to be breached, and it could be
/// hashed and stored.
pub proof fn registration_needs_sound_credentials(
    email: String,
    password: String,
    events: Seq<RegisterEvent>,
)
    ensures
        (register_run(register_begun(email, password), events).1 matches RegisterAction::Respond(
            outcome,
        ) && outcome is Registered) <==> email_fault(email@) is None && password_fault(password@)
            is None && registration_granted(events),
{
    registrations_are_traced(email, password, events);
    if email_fault(email@) is None && password_fault(password@) is None && registration_granted(
        events,
    ) {
        let from = register_begun(email, password);
        assert(events.take(0) =~= Seq::empty());
        register_run_steps(from, events, 0);
        register_run_steps(from, events, 1);
        register_run_steps(from, events, 2);
        register_run_steps(from, events, 3);
        assert(events.take(4) =~= events);
    }
}

/// What is stored of a password is the hash that was made of it, never the
/// password: the account is created with what hashing that password yielded.
pub proof fn only_the_hash_is_stored(email: String, password: String, events: Seq<RegisterEvent>)
    requires
        register_run(register_begun(email, password), events).1 is CreateUser,
    ensures
        events.len() == 3,
        register_run(register_begun(email, password), events.take(1)).1 == RegisterAction::Compute(
            RegisterTask::HashPassword { password },
        ),
        events[1] matches RegisterEvent::PasswordHashed(Ok(password_hash)) && (register_run(
            register_begun(email, password),
            events,
        ).1 matches RegisterAction::CreateUser(new_user) && new_user.password_hash == password_hash
            && new_user.email == email),
{
    registrations_are_traced(email, password, events);
    if events.len() > 0 {
        registrations_are_traced(email, password, events.drop_last());
    }
    let from = register_begun(email, password);
    assert(events.take(0) =~= Seq::empty());
    register_run_steps(from, events, 0);
    registrations_are_traced(email, password, events.take(1));
}

/// An account that comes of a registration holds the very secret that was
/// handed out for it, and one that codes can be checked against: neither its
/// confirmation nor, once it is confirmed, a login for it can come to a secret
/// that is of no use.
pub proof fn registered_secrets_are_usable(
    email: String,
    password_hash: String,
    event: RegisterEvent,
    now: Timestamp,
    mfa_code: String,
    hashes: Seq<String>,
    outcome: ConfirmMfaOutcome,
)
    requires
        register_task_ready(RegisterTask::Enroll { email }),
        register_task_yields(RegisterTask::Enroll { email }, event),
        confirmed(
            Some(
                created_user(
                    register_next(
                        RegisterState::Enrolling { email, password_hash },
                        event,
                    ).1->CreateUser_0,
                    now,
                ),
            ),
            email@,
            hashes,
            outcome,
        ),
    ensures
        ({
            let next = register_next(RegisterState::Enrolling { email, password_hash }, event);
            let user = created_user(next.1->CreateUser_0, now);
            &&& next.0 matches RegisterState::CreatingUser { enrollment }
            &&& next.1 is CreateUser
            &&& user.email == email
            &&& user.password_hash == password_hash
            &&& user.mfa_secret@ == enrollment.secret()
            &&& enrollment.account() == email@
            &&& confirm_ready(
                ConfirmState::FindingUser { email, mfa_code },
                ConfirmEvent::UserFound(Ok(Some(user))),
            )
            &&& outcome matches ConfirmMfaOutcome::Confirmed { user: enrolled, .. }
            &&& task_ready(
                LoginTask::CheckCode {
                    secret: enrolled.mfa_secret,
                    account_email: enrolled.email,
                    code: mfa_code,
                },
            )
        }),
{
}

/// A breach list that cannot be had stops no registration.
pub proof fn breach_check_fails_open(email: String, password: String)
    ensures
        register_next(
            RegisterState::CheckingBreach { email, password },
            RegisterEvent::BreachChecked(Err(BreachCheckFailed)),
        ) == register_next(
            RegisterState::CheckingBreach { email, password },
            RegisterEvent::BreachChecked(Ok(false)),
        ),
        register_next(
            RegisterState::CheckingBreach { email, password },
            RegisterEvent::BreachChecked(Ok(true)),
        ) == register_ended(RegisterOutcome::InvalidRequest(RequestFault::PasswordBreached)),
{
}

/// Holds of the events of a confirmation that succeeds.
pub open spec fn confirmation_granted(events: Seq<ConfirmEvent>) -> bool {
    &&& events.len() == 4
    &&& events[0] matches ConfirmEvent::UserFound(Ok(Some(user)))
    &&& !user.mfa_enrolled
    &&& events[1] == ConfirmEvent::CodeChecked(true)
    &&& events[2] is CodesMade
    &&& events[3] matches ConfirmEvent::EnrollmentConfirmed(Ok(_))
}

/// What the events so far must have been, given where a confirmation stands.
spec fn confirm_trace(
    email: String,
    mfa_code: String,
    state: ConfirmState,
    action: ConfirmAction,
    events: Seq<ConfirmEvent>,
) -> bool {
    let n = events.len() as int;
    match state {
        ConfirmState::FindingUser { email: address, mfa_code: code } => n == 0 && address == email
            && code == mfa_code,
        ConfirmState::CheckingCode { email: address } => {
            &&& n == 1
            &&& address == email
            &&& events[0] matches ConfirmEvent::UserFound(Ok(Some(user)))
            &&& !user.mfa_enrolled
            &&& action == ConfirmAction::Compute(
                ConfirmTask::CheckCode {
                    secret: user.mfa_secret,
                    account_email: email,
                    code: mfa_code,
                },
            )
        },
        ConfirmState::MakingCodes { email: address } => {
            &&& n == 2
            &&& address == email
            &&& events[0] matches ConfirmEvent::UserFound(Ok(Some(user)))
            &&& !user.mfa_enrolled
            &&& events[1] == ConfirmEvent::CodeChecked(true)
        },
        ConfirmState::Confirming { email: address, recovery_codes } => {
            &&& n == 3
            &&& address == email
            &&& events[0] matches ConfirmEvent::UserFound(Ok(Some(user)))
            &&& !user.mfa_enrolled
            &&& events[1] == ConfirmEvent::CodeChecked(true)
            &&& events[2] matches ConfirmEvent::CodesMade { codes, hashes }
            &&& codes == recovery_codes
            &&& action == (ConfirmAction::ConfirmEnrollment { email, recovery_code_hashes: hashes })
        },
        ConfirmState::Finished => action matches ConfirmAction::Respond(outcome) && (
        outcome matches ConfirmOutcome::Confirmed { email: address, recovery_codes } ==> {
            &&& confirmation_granted(events)
            &&& address == email
            &&& recovery_codes == events[2]->codes
        }),
    }
}

/// Every run has the events that its state tells.
proof fn confirmations_are_traced(email: String, mfa_code: String, events: Seq<ConfirmEvent>)
    ensures
        ({
            let run = confirm_run(confirm_begun(email, mfa_code), events);
            confirm_trace(email, mfa_code, run.0, run.1, events)
        }),
    decreases events.len(),
{
    if events.len() > 0 {
        let before = events.drop_last();
        confirmations_are_traced(email, mfa_code, before);
        let n = before.len() as int;
        assert(events[n] == events.last());
        assert(forall|i: int| 0 <= i < n ==> #[trigger] before[i] == events[i]);
    }
}

/// A run is made of steps.
proof fn confirm_run_steps(from: (ConfirmState, ConfirmAction), events: Seq<ConfirmEvent>, i: int)
    requires
        0 <= i < events.len(),
    ensures
        confirm_run(from, events.take(i + 1)) == confirm_next(
            confirm_run(from, events.take(i)).0,
            events[i],
        ),
{
    assert(events.take(i + 1).drop_last() =~= events.take(i));
    assert(events.take(i + 1).last() == events[i]);
}

/// An account is confirmed exactly where it exists, has not been confirmed
/// before, and a current code of its own secret was shown; the codes handed
/// out are the ones whose hashes were stored.
pub proof fn confirmation_needs_a_code(email: String, mfa_code: String, events: Seq<ConfirmEvent>)
    ensures
        (confirm_run(confirm_begun(email, mfa_code), events).1 matches ConfirmAction::Respond(
            outcome,
        ) && outcome is Confirmed) <==> confirmation_granted(events),
        confirmation_granted(events) ==> {
            let from = confirm_begun(email, mfa_code);
            let user = events[0]->UserFound_0->Ok_0->0;
            &&& confirm_run(from, events.take(1)).1 == ConfirmAction::Compute(
                ConfirmTask::CheckCode {
                    secret: user.mfa_secret,
                    account_email: email,
                    code: mfa_code,
                },
            )
            &&& confirm_run(from, events.take(3)).1 == (ConfirmAction::ConfirmEnrollment {
                email,
                recovery_code_hashes: events[2]->hashes,
            })
            &&& confirm_run(from, events) == confirm_ended(
                ConfirmOutcome::Confirmed { email, recovery_codes: events[2]->codes },
            )
        },
{
    confirmations_are_traced(email, mfa_code, events);
    if confirmation_granted(events) {
        let from = confirm_begun(email, mfa_code);
        assert(events.take(0) =~= Seq::empty());
        confirm_run_steps(from, events, 0);
        confirm_run_steps(from, events, 1);
        confirm_run_steps(from, events, 2);
        confirm_run_steps(from, events, 3);
        assert(events.take(4) =~= events);
    }
}

/// An unknown address, an account that was confirmed before and a wrong code
/// are refused alike.
pub proof fn refused_confirmations_are_alike(email: String, mfa_code: String, enrolled: User)
    requires
        enrolled.mfa_enrolled,
    ensures
        confirm_next(confirm_begun(email, mfa_code).0, ConfirmEvent::UserFound(Ok(None)))
            == confirm_ended(ConfirmOutcome::Invalid),
        confirm_next(confirm_begun(email, mfa_code).0, ConfirmEvent::UserFound(Ok(Some(enrolled))))
            == confirm_ended(ConfirmOutcome::Invalid),
        confirm_next(ConfirmState::CheckingCode { email }, ConfirmEvent::CodeChecked(false))
            == confirm_ended(ConfirmOutcome::Invalid),
{
}

/// Each recovery code that a confirmation hands out opens its account exactly
/// once: what is stored for it is found under the hash that presenting the
/// code leads to, can be redeemed by that account and by no other, and never
/// again once it has been.
pub proof fn recovery_codes_work_once(
    codes: Seq<String>,
    hashes: Seq<String>,
    email: Seq<char>,
    entries: Seq<RecoveryCodeEntry>,
    i: int,
    other: Seq<char>,
)
    requires
        are_recovery_codes(codes, hashes),
        entries_for(entries, email, hashes),
        0 <= i < codes.len(),
    ensures
        entries.len() == RECOVERY_CODE_COUNT,
        entries[i].code_hash@ == token_hash(codes[i]@),
        redeemable(Some(entries[i].record), other) <==> other == email,
        !redeemable(Some(as_consumed(entries[i].record)), other),
{
}

/// A run that is taken up again where it stood goes on as one run.
pub proof fn resumed_registrations_are_runs(
    from: (RegisterState, RegisterAction),
    past: Seq<RegisterEvent>,
    event: RegisterEvent,
    events: Seq<RegisterEvent>,
)
    ensures
        register_run(register_next(register_run(from, past).0, event), events) == register_run(
            from,
            past.push(event) + events,
        ),
    decreases events.len(),
{
    let whole = past.push(event) + events;
    if events.len() == 0 {
        assert(whole =~= past.push(event));
        assert(past.push(event).drop_last() =~= past);
    } else {
        resumed_registrations_are_runs(from, past, event, events.drop_last());
        assert(whole.drop_last() =~= past.push(event) + events.drop_last());
        assert(whole.last() == events.last());
    }
}

/// A run that is taken up again where it stood goes on as one run.
pub proof fn resumed_confirmations_are_runs(
    from: (ConfirmState, ConfirmAction),
    past: Seq<ConfirmEvent>,
    event: ConfirmEvent,
    events: Seq<ConfirmEvent>,
)
    ensures
        confirm_run(confirm_next(confirm_run(from, past).0, event), events) == confirm_run(
            from,
            past.push(event) + events,
        ),
    decreases events.len(),
{
    let whole = past.push(event) + events;
    if events.len() == 0 {
        assert(whole =~= past.push(event));
        assert(past.push(event).drop_last() =~= past);
    } else {
        resumed_confirmations_are_runs(from, past, event, events.drop_last());
        assert(whole.drop_last() =~= past.push(event) + events.drop_last());
        assert(whole.last() == events.last());
    }
}

} // verus!
