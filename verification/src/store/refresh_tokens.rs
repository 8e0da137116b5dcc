//! Creating, rotating and revoking refresh tokens.
use vstd::prelude::*;

use super::StoreError;
use crate::random::{generate_opaque_token, is_opaque_token, is_random_token};
use crate::refresh_token::{
    capped_expiry, capped_expiry_nanos, NewRefreshToken, RefreshTokenRecord, RefreshTokenStatus,
    REFRESH_TOKEN_TTL_DAYS,
};
use crate::time::{utc_now, utc_read, Timestamp, SECONDS_PER_DAY};

verus! {

/// The number of random bytes in the name of a family.
pub const FAMILY_ID_BYTE_LEN: usize = 16;

/// Holds of a record that opens a family.
pub open spec fn opens_family(record: RefreshTokenRecord) -> bool {
    &&& record.status == RefreshTokenStatus::Active
    &&& record.replaced_by is None
    &&& record.family_created_at == record.created_at
    &&& record.expires_at.nanos == record.created_at.after(REFRESH_TOKEN_TTL_DAYS * SECONDS_PER_DAY)
}

/// The first record of a new family.
pub fn create_at(
    new_token: NewRefreshToken,
    token_hash: &str,
    family_id: String,
    now: Timestamp,
) -> (r: RefreshTokenRecord)
    requires
        now.valid(),
    ensures
        r.token_hash@ == token_hash@,
        r.user_email == new_token.user_email,
        r.jkt == new_token.jkt,
        r.family_id == family_id,
        r.created_at == now,
        opens_family(r),
{
    RefreshTokenRecord {
        token_hash: token_hash.to_string(),
        user_email: new_token.user_email,
        jkt: new_token.jkt,
        family_id,
        status: RefreshTokenStatus::Active,
        replaced_by: None,
        created_at: now,
        expires_at: capped_expiry(now, now),
        family_created_at: now,
    }
}

/// The record to insert for a token that a login has made: it opens a family
/// under a random name.
pub fn create(new_token: NewRefreshToken, token_hash: &str) -> (r: RefreshTokenRecord)
    ensures
        r.token_hash@ == token_hash@,
        r.user_email == new_token.user_email,
        r.jkt == new_token.jkt,
        is_opaque_token(r.family_id@, FAMILY_ID_BYTE_LEN as nat),
        r.family_id@.len() == 32,
        is_random_token(r.family_id@, FAMILY_ID_BYTE_LEN),
        r.created_at.valid(),
        utc_read(r.created_at),
        opens_family(r),
{
    let now = utc_now();
    let family_id = generate_opaque_token(FAMILY_ID_BYTE_LEN);
    assert(is_random_token(family_id@, FAMILY_ID_BYTE_LEN));
    create_at(new_token, token_hash, family_id, now)
}

/// What the transaction of a rotation takes from the record that was found
/// before it. None of it changes in the life of a record.
pub struct RotationPlan {
    pub family_id: String,
    pub user_email: String,
    pub family_created_at: Timestamp,
}

/// What the transaction of a rotation writes.
pub enum RotationWrites {
    /// Nothing: the old token is gone or no longer active.
    Nothing,
    /// `old` in place of the record it stands for, and `new` as a new record.
    Exchange { old: RefreshTokenRecord, new: RefreshTokenRecord },
}

/// How the transaction of a rotation ended.
pub enum RotateAttempt {
    Rotated(RefreshTokenRecord),
    /// The old record was not active by the time the transaction read it.
    NotActive,
}

pub enum RotateState {
    Finding,
    Transacting { family_id: String },
    Revoking,
    Finished,
}

pub enum RotateEvent {
    /// The record under the old hash was looked up.
    Found(Result<Option<RefreshTokenRecord>, StoreError>),
    TransactionEnded(Result<RotateAttempt, StoreError>),
    FamilyRevoked(Result<(), StoreError>),
}

pub enum RotateAction {
    /// Run the transaction whose writes `rotate_in_transaction` decides.
    RunTransaction(RotationPlan),
    RevokeFamily { family_id: String },
    Return(Result<RefreshTokenRecord, StoreError>),
    /// The event does not belong to the state.
    Refuse,
}

/// What the writes of a rotation are, given the record that the transaction
/// read.
pub open spec fn exchanged(
    plan: RotationPlan,
    current: Option<RefreshTokenRecord>,
    new_token_hash: Seq<char>,
    new_jkt: Seq<char>,
    now: Timestamp,
    writes: RotationWrites,
) -> bool {
    match current {
        Some(current) if current.status == RefreshTokenStatus::Active => {
            writes matches RotationWrites::Exchange { old, new } && {
                &&& old.replaced_by is Some && old.replaced_by->0@ == new_token_hash
                &&& old == (RefreshTokenRecord {
                    status: RefreshTokenStatus::Rotated,
                    replaced_by: old.replaced_by,
                    ..current
                })
                &&& new.token_hash@ == new_token_hash
                &&& new.user_email@ == plan.user_email@
                &&& new.jkt@ == new_jkt
                &&& new.family_id@ == plan.family_id@
                &&& new.status == RefreshTokenStatus::Active
                &&& new.replaced_by is None
                &&& new.created_at == now
                &&& new.expires_at.nanos == capped_expiry_nanos(now, plan.family_created_at)
                &&& new.family_created_at == plan.family_created_at
            }
        },
        _ => writes is Nothing,
    }
}

pub fn rotate_in_transaction_at(
    plan: &RotationPlan,
    current: Option<RefreshTokenRecord>,
    new_token_hash: &str,
    new_jkt: &str,
    now: Timestamp,
) -> (r: RotationWrites)
    requires
        now.valid(),
        plan.family_created_at.valid(),
    ensures
        exchanged(*plan, current, new_token_hash@, new_jkt@, now, r),
{
    match current {
        None => RotationWrites::Nothing,
        Some(current) => {
            if current.status != RefreshTokenStatus::Active {
                return RotationWrites::Nothing;
            }
            let mut old = current;
            old.status = RefreshTokenStatus::Rotated;
            old.replaced_by = Some(new_token_hash.to_string());
            let new = RefreshTokenRecord {
                token_hash: new_token_hash.to_string(),
                user_email: plan.user_email.clone(),
                jkt: new_jkt.to_string(),
                family_id: plan.family_id.clone(),
                status: RefreshTokenStatus::Active,
                replaced_by: None,
                created_at: now,
                expires_at: capped_expiry(now, plan.family_created_at),
                family_created_at: plan.family_created_at,
            };
            RotationWrites::Exchange { old, new }
        },
    }
}

/// The writes of a rotation that happens now.
pub fn rotate_in_transaction(
    plan: &RotationPlan,
    current: Option<RefreshTokenRecord>,
    new_token_hash: &str,
    new_jkt: &str,
) -> (r: RotationWrites)
    requires
        plan.family_created_at.valid(),
    ensures
        exists|now: Timestamp|
            now.valid() && utc_read(now) && #[trigger] exchanged(
                *plan,
                current,
                new_token_hash@,
                new_jkt@,
                now,
                r,
            ),
{
    let now = utc_now();
    rotate_in_transaction_at(plan, current, new_token_hash, new_jkt, now)
}

/// The next step of a rotation. A token that is not active has been used
/// before: the family is revoked, then the rotation fails as a reuse. One
/// that has expired is no reuse and revokes nothing.
pub open spec fn rotate_next(
    state: RotateState,
    event: RotateEvent,
    now: Timestamp,
) -> (RotateState, RotateAction) {
    match (state, event) {
        (RotateState::Finding, RotateEvent::Found(found)) => match found {
            Err(error) => (RotateState::Finished, RotateAction::Return(Err(error))),
            Ok(None) => (RotateState::Finished, RotateAction::Return(Err(StoreError::NotFound))),
            Ok(Some(old)) => if old.status != RefreshTokenStatus::Active {
                (RotateState::Revoking, RotateAction::RevokeFamily { family_id: old.family_id })
            } else if old.expires_at.nanos < now.nanos {
                (RotateState::Finished, RotateAction::Return(Err(StoreError::Expired)))
            } else {
                (
                    RotateState::Transacting { family_id: old.family_id },
                    RotateAction::RunTransaction(
                        RotationPlan {
                            family_id: old.family_id,
                            user_email: old.user_email,
                            family_created_at: old.family_created_at,
                        },
                    ),
                )
            },
        },
        (RotateState::Transacting { family_id }, RotateEvent::TransactionEnded(ended)) => match ended {
            Err(error) => (RotateState::Finished, RotateAction::Return(Err(error))),
            Ok(RotateAttempt::Rotated(record)) => (
                RotateState::Finished,
                RotateAction::Return(Ok(record)),
            ),
            Ok(RotateAttempt::NotActive) => (
                RotateState::Revoking,
                RotateAction::RevokeFamily { family_id },
            ),
        },
        (RotateState::Revoking, RotateEvent::FamilyRevoked(revoked)) => match revoked {
            Err(error) => (RotateState::Finished, RotateAction::Return(Err(error))),
            Ok(_) => (RotateState::Finished, RotateAction::Return(Err(StoreError::Reused))),
        },
        _ => (RotateState::Finished, RotateAction::Refuse),
    }
}

pub fn rotate_step_at(state: RotateState, event: RotateEvent, now: Timestamp) -> (r: (
    RotateState,
    RotateAction,
))
    ensures
        r == rotate_next(state, event, now),
{
    match (state, event) {
        (RotateState::Finding, RotateEvent::Found(found)) => match found {
            Err(error) => (RotateState::Finished, RotateAction::Return(Err(error))),
            Ok(None) => (RotateState::Finished, RotateAction::Return(Err(StoreError::NotFound))),
            Ok(Some(old)) => {
                if old.status != RefreshTokenStatus::Active {
                    return (
                        RotateState::Revoking,
                        RotateAction::RevokeFamily { family_id: old.family_id },
                    );
                }
                if now.is_after(old.expires_at) {
                    return (
                        RotateState::Finished,
                        RotateAction::Return(Err(StoreError::Expired)),
                    );
                }
                let plan = RotationPlan {
                    family_id: old.family_id.clone(),
                    user_email: old.user_email,
                    family_created_at: old.family_created_at,
                };
                (
                    RotateState::Transacting { family_id: old.family_id },
                    RotateAction::RunTransaction(plan),
                )
            },
        },
        (RotateState::Transacting { family_id }, RotateEvent::TransactionEnded(ended)) => match ended {
            Err(error) => (RotateState::Finished, RotateAction::Return(Err(error))),
            Ok(RotateAttempt::Rotated(record)) => (
                RotateState::Finished,
                RotateAction::Return(Ok(record)),
            ),
            Ok(RotateAttempt::NotActive) => (
                RotateState::Revoking,
                RotateAction::RevokeFamily { family_id },
            ),
        },
        (RotateState::Revoking, RotateEvent::FamilyRevoked(revoked)) => match revoked {
            Err(error) => (RotateState::Finished, RotateAction::Return(Err(error))),
            Ok(_) => (RotateState::Finished, RotateAction::Return(Err(StoreError::Reused))),
        },
        _ => (RotateState::Finished, RotateAction::Refuse),
    }
}

/// The next step of a rotation, with expiry judged by the clock.
pub fn rotate_step(state: RotateState, event: RotateEvent) -> (r: (RotateState, RotateAction))
    ensures
        exists|now: Timestamp| now.valid() && utc_read(now) && r == #[trigger] rotate_next(state, event, now),
{
    let now = utc_now();
    rotate_step_at(state, event, now)
}

/// The record with its family revoked.
pub open spec fn as_revoked(record: RefreshTokenRecord) -> RefreshTokenRecord {
    RefreshTokenRecord { status: RefreshTokenStatus::Revoked, ..record }
}

/// The records to write so that a family is revoked: every member that is not
/// revoked yet, as a revoked one.
pub open spec fn revocations(members: Seq<RefreshTokenRecord>) -> Seq<RefreshTokenRecord>
    decreases members.len(),
{
    if members.len() == 0 {
        Seq::empty()
    } else {
        let before = revocations(members.drop_last());
        if members.last().status == RefreshTokenStatus::Revoked {
            before
        } else {
            before.push(as_revoked(members.last()))
        }
    }
}

/// The records to write when a family with these members is revoked.
pub fn revoke_family(members: Vec<RefreshTokenRecord>) -> (r: Vec<RefreshTokenRecord>)
    ensures
        r@ == revocations(members@),
{
    let ghost all = members@;
    let mut writes: Vec<RefreshTokenRecord> = Vec::new();
    for member in it: members
        invariant
            it.seq() == all,
            writes@ == revocations(all.take(it.index())),
    {
        proof {
            assert(all.take(it.index() + 1).drop_last() == all.take(it.index()));
        }
        if member.status != RefreshTokenStatus::Revoked {
            let mut revoked = member;
            revoked.status = RefreshTokenStatus::Revoked;
            writes.push(revoked);
        }
    }
    assert(all.take(all.len() as int) == all);
    writes
}

} // verus!
