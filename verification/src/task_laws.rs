//! What the tasks of the endpoints yield, and what a run over several of them
//! comes to.
use vstd::prelude::*;

use crate::confirm::{
    confirm_computed, confirm_next, confirm_ready, confirm_run, confirm_task_ready,
    confirm_task_yields, ConfirmAction, ConfirmEvent, ConfirmState, ConfirmTask,
};
use crate::credential_laws::{accounts_get_ten_codes, is_two_fives};
use crate::dpop::{proof_verdict, recorded, DpopError, DpopProof, PendingDpopProof};
use crate::login::{
    access_text, computed, login_next, login_run, task_ready, task_yields, LoginAction, LoginEvent,
    LoginState, LoginTask,
};
use crate::password::{argon2_fits, is_hash_text, password_fits, PasswordError};
use crate::password_laws::passwords_fit_their_hashes;
use crate::random::{random_tokens_are_lower_hex, token_hash};
use crate::refresh::{
    refresh_computed, refresh_next, refresh_run, refresh_task_yields, token_text,
    RefreshAction, RefreshEvent, RefreshState, RefreshTask,
};
use crate::register::{
    register_computed, register_next, register_ready, register_run, register_task_ready,
    register_task_yields, BreachCheckFailed, RegisterAction, RegisterEvent, RegisterState,
    RegisterTask,
};
use crate::request::{AuthService, RequestContext};
use crate::store::StoreError;
use crate::time::{clock_read, seconds_read, utc_read};
use crate::token::{JwtClaimsView, TokenError};
use crate::token_laws::{
    follows, is_issued_token, issued_tokens_say_who_and_until_when,
    proofs_are_held_to_their_request,
};
use crate::totp::{accepts_code, codes_are_accepted_for_three_steps, secret_drawn, totp_code};
use crate::user::User;

verus! {

/// Holds of a code that is live at what the clock shows: the secret yields it,
/// with six digits, for the thirty seconds at hand or for those next to them.
pub open spec fn is_live(secret: Seq<u8>, code: Seq<char>, clock: Option<u64>) -> bool {
    &&& clock is Some
    &&& 30 <= clock->0 <= 0xffff_ffff_ffff_ffff - 30
    &&& exists|step: int|
        clock->0 as int / 30 - 1 <= step <= clock->0 as int / 30 + 1 && code == #[trigger] totp_code(
            secret,
            6,
            step,
        )
}

/// A code is accepted where it is live.
proof fn live_codes_are_accepted(secret: Seq<u8>, code: Seq<char>, clock: Option<u64>)
    ensures
        accepts_code(secret, code, clock) <==> is_live(secret, code, clock),
{
    match clock {
        Some(time) => {
            codes_are_accepted_for_three_steps(secret, code, time);
        },
        None => {},
    }
}

/// Holds of so many hexadecimal digits in lower case.
pub open spec fn is_hex_of_len(text: Seq<char>, len: int) -> bool {
    &&& text.len() == len
    &&& forall|i: int|
        0 <= i < text.len() ==> '0' <= #[trigger] text[i] <= '9' || 'a' <= text[i] <= 'f'
}

/// A login verifies a password against the hash that it is given, and against
/// the service's stand-in where it is given none. It says yes exactly where the
/// password, all of it, fits.
pub proof fn logins_verify_whole_passwords(
    service: AuthService,
    request: RequestContext,
    password: String,
    password_hash: Option<String>,
    event: LoginEvent,
)
    requires
        task_yields(service, request, LoginTask::VerifyPassword { password, password_hash }, event),
    ensures
        ({
            let hash = if password_hash is Some {
                password_hash->0@
            } else {
                service.dummy_hash@
            };
            &&& event is PasswordVerified
            &&& event->PasswordVerified_0 is Ok <==> is_hash_text(hash)
            &&& event == LoginEvent::PasswordVerified(Ok(true)) ==> argon2_fits(password@, hash)
            &&& event == LoginEvent::PasswordVerified(Ok(true)) <==> password_fits(password@, hash)
                == Some(true)
        }),
{
}

/// A login accepts a code exactly where it is live for the secret at what the
/// clock shows, hashes one as tokens are hashed, holds a proof to the request
/// and to no token, and concludes it with the answer of the replay store.
pub proof fn logins_perform_what_is_due(
    service: AuthService,
    request: RequestContext,
    secret: Vec<u8>,
    account_email: String,
    code: String,
    proof: DpopProof,
    insertion: Result<(), StoreError>,
    event: LoginEvent,
)
    ensures
        task_yields(service, request, LoginTask::CheckCode { secret, account_email, code }, event)
            ==> exists|clock: Option<u64>|
            clock_read(clock) && event == LoginEvent::CodeChecked(
                #[trigger] is_live(secret@, code@, clock),
            ),
        task_yields(service, request, LoginTask::HashCode { code }, event) ==> event is CodeHashed
            && event->CodeHashed_0@ == token_hash(code@),
        task_yields(service, request, LoginTask::ValidateProof, event) ==> event is ProofValidated
            && is_verdict(service, request, event->ProofValidated_0),
        task_yields(service, request, LoginTask::FinishProof { proof, insertion }, event) ==> event
            is ProofFinished && recorded(proof, insertion, event->ProofFinished_0),
{
    if task_yields(service, request, LoginTask::CheckCode { secret, account_email, code }, event) {
        let clock = choose|clock: Option<u64>|
            clock_read(clock) && event == LoginEvent::CodeChecked(
                #[trigger] accepts_code(secret@, code@, clock),
            );
        live_codes_are_accepted(secret@, code@, clock);
        assert(event == LoginEvent::CodeChecked(is_live(secret@, code@, clock)));
    }
    if task_yields(service, request, LoginTask::ValidateProof, event) {
        proofs_are_held_to_their_request(
            service.base_url.raw@,
            request,
            None,
            event->ProofValidated_0,
        );
    }
}

/// Holds of the verdict on the proof of a request that presents no token.
pub open spec fn is_verdict(
    service: AuthService,
    request: RequestContext,
    result: Result<PendingDpopProof, DpopError>,
) -> bool {
    &&& request.dpop is None ==> result == Err::<PendingDpopProof, DpopError>(DpopError::Missing)
    &&& request.dpop is Some ==> exists|now: u64|
        seconds_read(now) && follows(
            #[trigger] proof_verdict(
                request.dpop->0@,
                request.method@,
                service.base_url.raw@,
                request.path@,
                None,
                now as int,
            ),
            result,
        )
}

/// Holds of a token and whom it was issued to at that second.
pub open spec fn is_token_for(
    service: AuthService,
    now: u64,
    user_id: Seq<char>,
    jkt: Seq<char>,
    result: Result<Seq<char>, TokenError>,
) -> bool {
    &&& result is Err <==> now + service.jwt.ttl_secs > 0x7fff_ffff_ffff_ffff
    &&& result is Ok ==> exists|claims: JwtClaimsView|
        is_issued_token(service.jwt, now, user_id, jkt, result->Ok_0, claims)
}

/// A login makes an access token for the user and the key that it is given, and
/// a refresh token of sixty-four digits, which it hashes as tokens are hashed.
pub proof fn logins_make_tokens_for_user_and_key(
    service: AuthService,
    request: RequestContext,
    user_id: String,
    jkt: String,
    event: LoginEvent,
)
    requires
        task_yields(service, request, LoginTask::IssueTokens { user_id, jkt }, event),
    ensures
        event is TokensIssued,
        exists|now: u64|
            seconds_read(now) && #[trigger] is_token_for(
                service,
                now,
                user_id@,
                jkt@,
                access_text(event->TokensIssued_0),
            ),
        event matches LoginEvent::TokensIssued(Ok(tokens)) ==> {
            &&& access_text(event->TokensIssued_0) == Ok::<Seq<char>, TokenError>(
                tokens.access_token@,
            )
            &&& is_hex_of_len(tokens.refresh_token@, 64)
            &&& tokens.refresh_token_hash@ == token_hash(tokens.refresh_token@)
        },
{
    let result = event->TokensIssued_0;
    let now = choose|now: u64|
        seconds_read(now) && #[trigger] service.jwt.issues_at(
            now,
            user_id@,
            jkt@,
            access_text(result),
        );
    issued_tokens_say_who_and_until_when(
        service.jwt,
        now,
        user_id@,
        jkt@,
        access_text(result),
    );
    assert(is_token_for(service, now, user_id@, jkt@, access_text(result)));
    if result is Ok {
        random_tokens_are_lower_hex(result->Ok_0.refresh_token@, 32);
    }
}

/// A refresh holds a proof to the request and to no token, concludes it with
/// the answer of the replay store, makes a refresh token of sixty-four digits
/// with its hash, and an access token for the user and the key that it is
/// given.
pub proof fn refreshes_perform_what_is_due(
    service: AuthService,
    request: RequestContext,
    proof: DpopProof,
    insertion: Result<(), StoreError>,
    user_id: String,
    jkt: String,
    event: RefreshEvent,
)
    ensures
        refresh_task_yields(service, request, RefreshTask::ReadClock, event) ==> event is ClockRead
            && event->ClockRead_0.valid() && utc_read(event->ClockRead_0),
        refresh_task_yields(service, request, RefreshTask::ValidateProof, event) ==> event
            is ProofValidated && is_verdict(service, request, event->ProofValidated_0),
        refresh_task_yields(service, request, RefreshTask::FinishProof { proof, insertion }, event)
            ==> event is ProofFinished && recorded(proof, insertion, event->ProofFinished_0),
        refresh_task_yields(service, request, RefreshTask::MakeToken, event) ==> {
            &&& event is TokenMade
            &&& is_hex_of_len(event->refresh_token@, 64)
            &&& event->token_hash@ == token_hash(event->refresh_token@)
        },
        refresh_task_yields(service, request, RefreshTask::IssueToken { user_id, jkt }, event) ==> {
            &&& event is TokenIssued
            &&& event->TokenIssued_0 is Ok <==> token_text(event->TokenIssued_0) is Ok
            &&& event->TokenIssued_0 is Ok ==> token_text(event->TokenIssued_0)->Ok_0
                == event->TokenIssued_0->Ok_0@
            &&& exists|now: u64|
                seconds_read(now) && #[trigger] is_token_for(
                    service,
                    now,
                    user_id@,
                    jkt@,
                    token_text(event->TokenIssued_0),
                )
        },
{
    if refresh_task_yields(service, request, RefreshTask::ValidateProof, event) {
        proofs_are_held_to_their_request(
            service.base_url.raw@,
            request,
            None,
            event->ProofValidated_0,
        );
    }
    if refresh_task_yields(service, request, RefreshTask::MakeToken, event) {
        random_tokens_are_lower_hex(event->refresh_token@, 32);
    }
    if refresh_task_yields(service, request, RefreshTask::IssueToken { user_id, jkt }, event) {
        let result = token_text(event->TokenIssued_0);
        let now = choose|now: u64|
            seconds_read(now) && #[trigger] service.jwt.issues_at(now, user_id@, jkt@, result);
        issued_tokens_say_who_and_until_when(service.jwt, now, user_id@, jkt@, result);
        assert(is_token_for(service, now, user_id@, jkt@, result));
    }
}

/// A registration keeps a hash that the whole password fits, and makes a user
/// id of thirty-two digits and a secret of twenty bytes for the address.
pub proof fn registrations_perform_what_is_due(
    password: String,
    email: String,
    event: RegisterEvent,
)
    ensures
        register_task_yields(RegisterTask::HashPassword { password }, event) ==> {
            &&& event is PasswordHashed
            &&& event->PasswordHashed_0 is Ok <==> vstd::utf8::encode_utf8(password@).len()
                <= 0xffff_ffff
            &&& event->PasswordHashed_0 is Ok ==> {
                &&& is_hash_text(event->PasswordHashed_0->Ok_0@)
                &&& argon2_fits(password@, event->PasswordHashed_0->Ok_0@)
                &&& password_fits(password@, event->PasswordHashed_0->Ok_0@) == Some(true)
            }
        },
        register_task_yields(RegisterTask::Enroll { email }, event) ==> {
            &&& event is Enrolled
            &&& is_hex_of_len(event->user_id@, 32)
            &&& event->secret@.len() == 20
            &&& secret_drawn(event->secret@)
            &&& event->enrollment.secret() == event->secret@
            &&& event->enrollment.account() == email@
        },
{
    if register_task_yields(RegisterTask::HashPassword { password }, event) {
        passwords_fit_their_hashes(password@, event->PasswordHashed_0);
    }
    if register_task_yields(RegisterTask::Enroll { email }, event) {
        random_tokens_are_lower_hex(event->user_id@, 16);
    }
}

/// A confirmation accepts a code exactly where it is live for the secret at
/// what the clock shows, and makes ten recovery codes with their hashes.
pub proof fn confirmations_perform_what_is_due(
    secret: Vec<u8>,
    account_email: String,
    code: String,
    event: ConfirmEvent,
)
    ensures
        confirm_task_yields(ConfirmTask::CheckCode { secret, account_email, code }, event)
            ==> exists|clock: Option<u64>|
            clock_read(clock) && event == ConfirmEvent::CodeChecked(
                #[trigger] is_live(secret@, code@, clock),
            ),
        confirm_task_yields(ConfirmTask::MakeCodes, event) ==> {
            &&& event is CodesMade
            &&& event->codes@.len() == 10
            &&& event->hashes@.len() == 10
            &&& forall|i: int| 0 <= i < 10 ==> is_two_fives((#[trigger] event->codes@[i])@)
            &&& forall|i: int|
                0 <= i < 10 ==> (#[trigger] event->hashes@[i])@ == token_hash(event->codes@[i]@)
        },
{
    if confirm_task_yields(ConfirmTask::CheckCode { secret, account_email, code }, event) {
        let clock = choose|clock: Option<u64>|
            clock_read(clock) && event == ConfirmEvent::CodeChecked(
                #[trigger] accepts_code(secret@, code@, clock),
            );
        live_codes_are_accepted(secret@, code@, clock);
        assert(event == ConfirmEvent::CodeChecked(is_live(secret@, code@, clock)));
    }
    if confirm_task_yields(ConfirmTask::MakeCodes, event) {
        accounts_get_ten_codes(event->codes@, event->hashes@);
    }
}

/// Every task can be performed, but for a code that is to be checked against a
/// secret below sixteen bytes or for an account with a colon in its name, and
/// for a secret that is to be made for an address with a colon in it.
pub proof fn only_unusable_secrets_stop_a_task(
    login: LoginTask,
    register: RegisterTask,
    confirm: ConfirmTask,
)
    ensures
        login !is CheckCode ==> task_ready(login),
        login matches LoginTask::CheckCode { secret, account_email, .. } ==> (task_ready(login)
            <==> secret@.len() >= 16 && !account_email@.contains(':')),
        register !is Enroll ==> register_task_ready(register),
        register matches RegisterTask::Enroll { email } ==> (register_task_ready(register)
            <==> !email@.contains(':')),
        confirm !is CheckCode ==> confirm_task_ready(confirm),
        confirm matches ConfirmTask::CheckCode { secret, account_email, .. } ==> (
        confirm_task_ready(confirm) <==> secret@.len() >= 16 && !account_email@.contains(':')),
{
}

/// A registration can be resumed with every event, unless it goes on for an
/// address with a colon in it; and a confirmation, unless it goes on for an
/// account whose secret codes cannot be made from.
pub proof fn resuming_asks_for_usable_secrets_alone(
    email: String,
    password: String,
    mfa_code: String,
    checked: Result<bool, BreachCheckFailed>,
    result: Result<String, PasswordError>,
    user: User,
)
    ensures
        register_ready(
            RegisterState::CheckingBreach { email, password },
            RegisterEvent::BreachChecked(checked),
        ) <==> checked == Ok::<bool, BreachCheckFailed>(true) || !email@.contains(':'),
        confirm_ready(
            ConfirmState::FindingUser { email, mfa_code },
            ConfirmEvent::UserFound(Ok(Some(user))),
        ) <==> user.mfa_enrolled || user.mfa_secret@.len() >= 16 && !email@.contains(':'),
        confirm_ready(
            ConfirmState::FindingUser { email, mfa_code },
            ConfirmEvent::UserFound(Ok(None)),
        ),
        register_ready(
            RegisterState::HashingPassword { email },
            RegisterEvent::PasswordHashed(result),
        ) <==> result is Err || !email@.contains(':'),
{
}

/// A login that is resumed makes one step for each event, in order.
pub proof fn resumed_logins_go_step_by_step(
    from: (LoginState, LoginAction),
    events: Seq<LoginEvent>,
    event: LoginEvent,
)
    ensures
        login_run(from, Seq::empty()) == from,
        login_run(from, events.push(event)) == login_next(login_run(from, events).0, event),
{
    assert(events.push(event).drop_last() =~= events);
    assert(events.push(event).last() == event);
}

/// An event of a login comes of a task exactly where one was due and yields it.
pub proof fn due_tasks_are_performed(
    service: AuthService,
    request: RequestContext,
    due: LoginAction,
    event: LoginEvent,
)
    ensures
        computed(service, request, due, event) <==> due is Compute && task_yields(
            service,
            request,
            due->Compute_0,
            event,
        ),
{
}

/// A refresh that is resumed makes one step for each event, in order.
pub proof fn resumed_refreshes_go_step_by_step(
    from: (RefreshState, RefreshAction),
    events: Seq<RefreshEvent>,
    event: RefreshEvent,
)
    ensures
        refresh_run(from, Seq::empty()) == from,
        refresh_run(from, events.push(event)) == refresh_next(refresh_run(from, events).0, event),
{
    assert(events.push(event).drop_last() =~= events);
    assert(events.push(event).last() == event);
}

/// An event of a refresh comes of a task exactly where one was due and yields
/// it.
pub proof fn due_refresh_tasks_are_performed(
    service: AuthService,
    request: RequestContext,
    due: RefreshAction,
    event: RefreshEvent,
)
    ensures
        refresh_computed(service, request, due, event) <==> due is Compute && refresh_task_yields(
            service,
            request,
            due->Compute_0,
            event,
        ),
{
}

/// A registration that is resumed makes one step for each event, in order, and
/// an event of it comes of a task exactly where one was due and yields it.
pub proof fn resumed_registrations_go_step_by_step(
    from: (RegisterState, RegisterAction),
    events: Seq<RegisterEvent>,
    event: RegisterEvent,
    due: RegisterAction,
)
    ensures
        register_run(from, Seq::empty()) == from,
        register_run(from, events.push(event)) == register_next(
            register_run(from, events).0,
            event,
        ),
        register_computed(due, event) <==> due is Compute && register_task_yields(
            due->Compute_0,
            event,
        ),
{
    assert(events.push(event).drop_last() =~= events);
    assert(events.push(event).last() == event);
}

/// A confirmation that is resumed makes one step for each event, in order, and
/// an event of it comes of a task exactly where one was due and yields it.
pub proof fn resumed_confirmations_go_step_by_step(
    from: (ConfirmState, ConfirmAction),
    events: Seq<ConfirmEvent>,
    event: ConfirmEvent,
    due: ConfirmAction,
)
    ensures
        confirm_run(from, Seq::empty()) == from,
        confirm_run(from, events.push(event)) == confirm_next(confirm_run(from, events).0, event),
        confirm_computed(due, event) <==> due is Compute && confirm_task_yields(
            due->Compute_0,
            event,
        ),
{
    assert(events.push(event).drop_last() =~= events);
    assert(events.push(event).last() == event);
}

} // verus!
