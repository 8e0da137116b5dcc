//! What holds of a refresh from its beginning to its end, whatever the store
//! answers and whatever the tasks yield.
use vstd::prelude::*;

use crate::dpop::DpopError;
use crate::logout::{logout_next, LogoutAction, LogoutEvent, LogoutState};
use crate::refresh::{
    refresh_begun, refresh_ended, refresh_next, refresh_run, RefreshAction, RefreshEvent,
    RefreshOutcome, RefreshState, RefreshTask,
};
use crate::refresh_token::{RefreshTokenRecord, RefreshTokenStatus};
use crate::store::token_families::with_family_revoked;
use crate::store::StoreError;
use crate::time::Timestamp;

verus! {

/// Holds of events that begin with a token which is known, active and has not
/// expired.
pub open spec fn usable_token_shown(events: Seq<RefreshEvent>) -> bool {
    &&& events.len() >= 2
    &&& events[0] matches RefreshEvent::TokenFound(Ok(Some(record)))
    &&& record.status == RefreshTokenStatus::Active
    &&& events[1] matches RefreshEvent::ClockRead(now)
    &&& record.expires_at.nanos >= now.nanos
}

/// The record of the token presented, once it has been found.
pub open spec fn record_of(events: Seq<RefreshEvent>) -> RefreshTokenRecord {
    events[0]->TokenFound_0->Ok_0->0
}

/// Holds of events that go on with a proof which is valid and new.
pub open spec fn proof_shown(events: Seq<RefreshEvent>) -> bool {
    &&& events.len() >= 5
    &&& usable_token_shown(events)
    &&& events[2] matches RefreshEvent::ProofValidated(Ok(_))
    &&& events[3] is ProofRecorded
    &&& events[4] matches RefreshEvent::ProofFinished(Ok(_))
}

/// Holds of events that show the key which the token is bound to.
pub open spec fn bound_key_shown(events: Seq<RefreshEvent>) -> bool {
    &&& proof_shown(events)
    &&& events[4]->ProofFinished_0->Ok_0.jkt@ == record_of(events).jkt@
}

/// Holds of the events of a refresh that is granted.
pub open spec fn refresh_granted(events: Seq<RefreshEvent>) -> bool {
    &&& events.len() == 9
    &&& bound_key_shown(events)
    &&& events[5] matches RefreshEvent::UserFound(Ok(Some(_)))
    &&& events[6] is TokenMade
    &&& events[7] matches RefreshEvent::Rotated(Ok(_))
    &&& events[8] matches RefreshEvent::TokenIssued(Ok(_))
}

/// What the events so far must have been, given where a refresh stands.
spec fn trace(
    presented: String,
    state: RefreshState,
    action: RefreshAction,
    events: Seq<RefreshEvent>,
) -> bool {
    let n = events.len() as int;
    match state {
        RefreshState::FindingToken { presented: hash } => n == 0 && hash == presented,
        RefreshState::RevokingFamily => {
            &&& n == 1
            &&& events[0] matches RefreshEvent::TokenFound(Ok(Some(record)))
            &&& record.status != RefreshTokenStatus::Active
            &&& action == (RefreshAction::RevokeFamily { family_id: record.family_id })
        },
        RefreshState::CheckingExpiry { presented: hash, record } => {
            &&& n == 1
            &&& hash == presented
            &&& events[0] == RefreshEvent::TokenFound(Ok(Some(record)))
            &&& record.status == RefreshTokenStatus::Active
        },
        RefreshState::ValidatingProof { presented: hash, record } => {
            &&& n == 2
            &&& hash == presented
            &&& usable_token_shown(events)
            &&& record == record_of(events)
        },
        RefreshState::RecordingProof { presented: hash, record, .. } => {
            &&& n == 3
            &&& hash == presented
            &&& usable_token_shown(events)
            &&& record == record_of(events)
            &&& events[2] matches RefreshEvent::ProofValidated(Ok(_))
        },
        RefreshState::FinishingProof { presented: hash, record } => {
            &&& n == 4
            &&& hash == presented
            &&& usable_token_shown(events)
            &&& record == record_of(events)
            &&& events[2] matches RefreshEvent::ProofValidated(Ok(_))
            &&& events[3] is ProofRecorded
        },
        RefreshState::FindingUser { presented: hash, jkt } => {
            &&& n == 5
            &&& hash == presented
            &&& bound_key_shown(events)
            &&& jkt == events[4]->ProofFinished_0->Ok_0.jkt
        },
        RefreshState::MakingToken { presented: hash, jkt, .. } => {
            &&& n == 6
            &&& hash == presented
            &&& bound_key_shown(events)
            &&& jkt == events[4]->ProofFinished_0->Ok_0.jkt
            &&& events[5] matches RefreshEvent::UserFound(Ok(Some(_)))
        },
        RefreshState::Rotating { .. } => {
            &&& n == 7
            &&& bound_key_shown(events)
            &&& events[5] matches RefreshEvent::UserFound(Ok(Some(_)))
            &&& events[6] is TokenMade
            &&& action == (RefreshAction::Rotate {
                old_token_hash: presented,
                new_token_hash: events[6]->token_hash,
                jkt: events[4]->ProofFinished_0->Ok_0.jkt,
            })
        },
        RefreshState::IssuingToken { .. } => {
            &&& n == 8
            &&& bound_key_shown(events)
            &&& events[5] matches RefreshEvent::UserFound(Ok(Some(_)))
            &&& events[6] is TokenMade
            &&& events[7] matches RefreshEvent::Rotated(Ok(_))
        },
        RefreshState::Finished => action matches RefreshAction::Respond(outcome) && (
        outcome is Tokens ==> refresh_granted(events)),
    }
}

/// Every run has the events that its state tells.
proof fn runs_are_traced(presented: String, events: Seq<RefreshEvent>)
    ensures
        ({
            let run = refresh_run(refresh_begun(presented), events);
            trace(presented, run.0, run.1, events)
        }),
    decreases events.len(),
{
    if events.len() > 0 {
        let before = events.drop_last();
        runs_are_traced(presented, before);
        let n = before.len() as int;
        assert(events[n] == events.last());
        assert(forall|i: int| 0 <= i < n ==> #[trigger] before[i] == events[i]);
    }
}

/// A run is made of steps.
proof fn run_steps(from: (RefreshState, RefreshAction), events: Seq<RefreshEvent>, i: int)
    requires
        0 <= i < events.len(),
    ensures
        refresh_run(from, events.take(i + 1)) == refresh_next(
            refresh_run(from, events.take(i)).0,
            events[i],
        ),
{
    assert(events.take(i + 1).drop_last() =~= events.take(i));
    assert(events.take(i + 1).last() == events[i]);
}

/// What is to happen after the first `i` events of a refresh.
pub open spec fn action_after(presented: String, events: Seq<RefreshEvent>, i: int) -> RefreshAction {
    refresh_run(refresh_begun(presented), events.take(i)).1
}

/// A refresh that is granted exchanges the very token that was presented, for
/// the key that it is bound to, and issues an access token for that key to
/// the user whose token it is.
pub proof fn granted_refresh_rotates_the_token(presented: String, events: Seq<RefreshEvent>)
    requires
        refresh_granted(events),
    ensures
        ({
            let record = record_of(events);
            let pending = events[2]->ProofValidated_0->Ok_0;
            let proof = events[4]->ProofFinished_0->Ok_0;
            let user = events[5]->UserFound_0->Ok_0->0;
            &&& action_after(presented, events, 0) == (RefreshAction::FindToken {
                token_hash: presented,
            })
            &&& action_after(presented, events, 1) == RefreshAction::Compute(RefreshTask::ReadClock)
            &&& action_after(presented, events, 2) == RefreshAction::Compute(
                RefreshTask::ValidateProof,
            )
            &&& action_after(presented, events, 3) == (RefreshAction::RecordProof {
                jti: pending.proof.jti,
                expires_at: pending.expires_at,
            })
            &&& action_after(presented, events, 4) == RefreshAction::Compute(
                RefreshTask::FinishProof {
                    proof: pending.proof,
                    insertion: events[3]->ProofRecorded_0,
                },
            )
            &&& action_after(presented, events, 5) == (RefreshAction::FindUser {
                email: record.user_email,
            })
            &&& action_after(presented, events, 6) == RefreshAction::Compute(RefreshTask::MakeToken)
            &&& action_after(presented, events, 7) == (RefreshAction::Rotate {
                old_token_hash: presented,
                new_token_hash: events[6]->token_hash,
                jkt: proof.jkt,
            })
            &&& action_after(presented, events, 8) == RefreshAction::Compute(
                RefreshTask::IssueToken { user_id: user.user_id, jkt: proof.jkt },
            )
            &&& action_after(presented, events, 9) == RefreshAction::Respond(
                RefreshOutcome::Tokens {
                    access_token: events[8]->TokenIssued_0->Ok_0,
                    refresh_token: events[6]->refresh_token,
                },
            )
        }),
{
    let from = refresh_begun(presented);
    assert(events.take(0) =~= Seq::empty());
    run_steps(from, events, 0);
    run_steps(from, events, 1);
    run_steps(from, events, 2);
    run_steps(from, events, 3);
    run_steps(from, events, 4);
    run_steps(from, events, 5);
    run_steps(from, events, 6);
    run_steps(from, events, 7);
    run_steps(from, events, 8);
}

/// Tokens are handed out exactly for a token that is known, active and has not
/// expired, with a valid, new proof for the key that it is bound to, where the
/// user is still there and the exchange succeeded.
pub proof fn refresh_needs_token_and_key(presented: String, events: Seq<RefreshEvent>)
    ensures
        (refresh_run(refresh_begun(presented), events).1 matches RefreshAction::Respond(outcome)
            && outcome is Tokens) <==> refresh_granted(events),
{
    runs_are_traced(presented, events);
    if refresh_granted(events) {
        granted_refresh_rotates_the_token(presented, events);
        assert(events.take(9) =~= events);
    }
}

/// No token is exchanged unless the token presented is usable and the proof is
/// for the key that it is bound to; and what is exchanged is that token.
pub proof fn rotation_needs_the_bound_key(presented: String, events: Seq<RefreshEvent>)
    requires
        refresh_run(refresh_begun(presented), events).1 is Rotate,
    ensures
        bound_key_shown(events),
        refresh_run(refresh_begun(presented), events).1->old_token_hash == presented,
        refresh_run(refresh_begun(presented), events).1->Rotate_jkt@ == record_of(events).jkt@,
{
    runs_are_traced(presented, events);
    if events.len() > 0 {
        runs_are_traced(presented, events.drop_last());
    }
}

/// Presenting a token that was rotated away or revoked has its family revoked,
/// whether or not a proof comes with it, and the caller is told so, whether or
/// not the revocation could be carried out.
pub proof fn reuse_is_answered_with_revocation(
    presented: String,
    record: RefreshTokenRecord,
    revoked: Result<(), StoreError>,
)
    requires
        record.status != RefreshTokenStatus::Active,
    ensures
        refresh_next(
            refresh_begun(presented).0,
            RefreshEvent::TokenFound(Ok(Some(record))),
        ) == (
            RefreshState::RevokingFamily,
            RefreshAction::RevokeFamily { family_id: record.family_id },
        ),
        refresh_next(RefreshState::RevokingFamily, RefreshEvent::FamilyRevoked(revoked))
            == refresh_ended(RefreshOutcome::Reused),
{
}

/// A refresh asks for a family to be revoked for reuse only: the token that was
/// presented is known and no longer active, and the family is its own.
pub proof fn only_reuse_revokes(presented: String, events: Seq<RefreshEvent>)
    requires
        refresh_run(refresh_begun(presented), events).1 is RevokeFamily,
    ensures
        events.len() == 1,
        events[0] matches RefreshEvent::TokenFound(Ok(Some(record))) && record.status
            != RefreshTokenStatus::Active && refresh_run(refresh_begun(presented), events).1
            == (RefreshAction::RevokeFamily { family_id: record.family_id }),
{
    runs_are_traced(presented, events);
    if events.len() > 0 {
        runs_are_traced(presented, events.drop_last());
    }
}

/// A proof for another key is refused without side effects: nothing but the
/// proof's own `jti` has been written, and no token was rotated or revoked.
pub proof fn wrong_key_has_no_side_effects(presented: String, events: Seq<RefreshEvent>)
    requires
        events.len() == 5,
        proof_shown(events),
        events[4]->ProofFinished_0->Ok_0.jkt@ != record_of(events).jkt@,
    ensures
        refresh_run(refresh_begun(presented), events) == refresh_ended(
            RefreshOutcome::ProofRejected(DpopError::KeyMismatch),
        ),
        action_after(presented, events, 0) is FindToken,
        action_after(presented, events, 1) is Compute,
        action_after(presented, events, 2) is Compute,
        action_after(presented, events, 3) is RecordProof,
        action_after(presented, events, 4) is Compute,
{
    let from = refresh_begun(presented);
    assert(events.take(0) =~= Seq::empty());
    run_steps(from, events, 0);
    run_steps(from, events, 1);
    run_steps(from, events, 2);
    run_steps(from, events, 3);
    run_steps(from, events, 4);
    assert(events.take(5) =~= events);
}

/// An unknown token and an expired one are refused alike, and nothing is
/// written.
pub proof fn unknown_and_expired_tokens_are_alike(
    presented: String,
    record: RefreshTokenRecord,
    now: Timestamp,
)
    requires
        record.status == RefreshTokenStatus::Active,
        record.expires_at.nanos < now.nanos,
    ensures
        refresh_next(refresh_begun(presented).0, RefreshEvent::TokenFound(Ok(None)))
            == refresh_ended(RefreshOutcome::InvalidToken),
        refresh_next(refresh_begun(presented).0, RefreshEvent::TokenFound(Ok(Some(record)))).1
            == RefreshAction::Compute(RefreshTask::ReadClock),
        refresh_next(
            refresh_next(refresh_begun(presented).0, RefreshEvent::TokenFound(Ok(Some(record)))).0,
            RefreshEvent::ClockRead(now),
        ) == refresh_ended(RefreshOutcome::InvalidToken),
{
}

/// A logout ends the session for good: once the family of a token has been
/// revoked, presenting any token of the family is answered as a reuse.
pub proof fn logout_ends_the_session(
    store: Map<Seq<char>, RefreshTokenRecord>,
    hash: Seq<char>,
    sibling: Seq<char>,
    presented: String,
)
    requires
        store.contains_key(hash),
        store.contains_key(sibling),
        store[sibling].family_id@ == store[hash].family_id@,
    ensures
        logout_next(LogoutState::FindingToken, LogoutEvent::TokenFound(Ok(Some(store[hash])))).1
            == (LogoutAction::RevokeFamily { family_id: store[hash].family_id }),
        ({
            let after = with_family_revoked(store, store[hash].family_id@);
            &&& after.contains_key(sibling)
            &&& refresh_next(
                refresh_begun(presented).0,
                RefreshEvent::TokenFound(Ok(Some(after[sibling]))),
            ) == (
                RefreshState::RevokingFamily,
                RefreshAction::RevokeFamily { family_id: store[sibling].family_id },
            )
        }),
{
}

/// A token is usable for as long as it is active and its end has not passed:
/// the refresh goes on to the proof.
pub proof fn fresh_tokens_are_usable(
    presented: String,
    record: RefreshTokenRecord,
    now: Timestamp,
)
    requires
        record.status == RefreshTokenStatus::Active,
        now.nanos <= record.expires_at.nanos,
    ensures
        refresh_run(
            refresh_begun(presented),
            seq![RefreshEvent::TokenFound(Ok(Some(record))), RefreshEvent::ClockRead(now)],
        ).1 == RefreshAction::Compute(RefreshTask::ValidateProof),
{
    let events = seq![RefreshEvent::TokenFound(Ok(Some(record))), RefreshEvent::ClockRead(now)];
    let from = refresh_begun(presented);
    assert(events.take(0) =~= Seq::empty());
    run_steps(from, events, 0);
    run_steps(from, events, 1);
    assert(events.take(2) =~= events);
}

/// A run that is taken up again where it stood goes on as one run.
pub proof fn resumed_refreshes_are_runs(
    from: (RefreshState, RefreshAction),
    past: Seq<RefreshEvent>,
    event: RefreshEvent,
    events: Seq<RefreshEvent>,
)
    ensures
        refresh_run(refresh_next(refresh_run(from, past).0, event), events) == refresh_run(
            from,
            past.push(event) + events,
        ),
    decreases events.len(),
{
    let whole = past.push(event) + events;
    if events.len() == 0 {
        assert(whole =~= past.push(event));
        assert(past.push(event).drop_last() =~= past);
    } else {
        resumed_refreshes_are_runs(from, past, event, events.drop_last());
        assert(whole.drop_last() =~= past.push(event) + events.drop_last());
        assert(whole.last() == events.last());
    }
}

} // verus!
