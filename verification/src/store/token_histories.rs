//! What holds of the store of refresh tokens after any sequence of calls that
//! create, rotate and revoke.
use vstd::prelude::*;

use super::refresh_tokens::{
    as_revoked, exchanged, opens_family, rotate_next, RotateAction, RotateAttempt, RotateEvent,
    RotateState, RotationPlan, RotationWrites,
};
use super::token_families::{
    keyed_by_hash, one_active_per_family, with_family_revoked, within_session_cap, written,
};
use crate::refresh_token::{RefreshTokenRecord, RefreshTokenStatus};
use crate::time::Timestamp;

verus! {

/// A call of the store.
pub enum StoreCall {
    /// A login has its first record kept.
    Create { record: RefreshTokenRecord },
    /// A token is exchanged for a new one. The record was looked up at
    /// `found_at`; the transaction ran at `now` and had these writes.
    Rotate {
        old_hash: Seq<char>,
        new_hash: Seq<char>,
        new_jkt: Seq<char>,
        found_at: Timestamp,
        now: Timestamp,
        writes: RotationWrites,
    },
    RevokeFamily { family_id: Seq<char> },
}

/// The record under a hash, if there is one.
pub open spec fn lookup(store: Map<Seq<char>, RefreshTokenRecord>, hash: Seq<char>) -> Option<
    RefreshTokenRecord,
> {
    if store.contains_key(hash) {
        Some(store[hash])
    } else {
        None
    }
}

/// What a rotation does once the record has been looked up.
pub open spec fn rotation_begun(
    store: Map<Seq<char>, RefreshTokenRecord>,
    old_hash: Seq<char>,
    found_at: Timestamp,
) -> RotateAction {
    rotate_next(
        RotateState::Finding,
        RotateEvent::Found(Ok(lookup(store, old_hash))),
        found_at,
    ).1
}

/// Holds of a call that can be made of a store: a new token and a new family
/// have names that are not taken, and a rotation writes what its transaction
/// decides.
pub open spec fn call_fits(store: Map<Seq<char>, RefreshTokenRecord>, call: StoreCall) -> bool {
    match call {
        StoreCall::Create { record } => {
            &&& opens_family(record)
            &&& !store.contains_key(record.token_hash@)
            &&& forall|hash: Seq<char>| #[trigger]
                store.contains_key(hash) ==> store[hash].family_id@ != record.family_id@
        },
        StoreCall::Rotate { old_hash, new_hash, new_jkt, found_at, now, writes } => {
            &&& !store.contains_key(new_hash)
            &&& rotation_begun(store, old_hash, found_at) matches RotateAction::RunTransaction(plan)
                ==> exchanged(plan, lookup(store, old_hash), new_hash, new_jkt, now, writes)
        },
        StoreCall::RevokeFamily { .. } => true,
    }
}

/// The store after a call.
pub open spec fn after_call(
    store: Map<Seq<char>, RefreshTokenRecord>,
    call: StoreCall,
) -> Map<Seq<char>, RefreshTokenRecord> {
    match call {
        StoreCall::Create { record } => written(store, seq![record]),
        StoreCall::Rotate { old_hash, found_at, writes, .. } => match rotation_begun(
            store,
            old_hash,
            found_at,
        ) {
            RotateAction::RunTransaction(plan) => match writes {
                RotationWrites::Exchange { old, new } => written(store, seq![old, new]),
                RotationWrites::Nothing => with_family_revoked(store, plan.family_id@),
            },
            RotateAction::RevokeFamily { family_id } => with_family_revoked(store, family_id@),
            _ => store,
        },
        StoreCall::RevokeFamily { family_id } => with_family_revoked(store, family_id),
    }
}

/// Holds of a call that has exchanged the token with that hash for a new one.
pub open spec fn has_rotated(
    store: Map<Seq<char>, RefreshTokenRecord>,
    call: StoreCall,
    hash: Seq<char>,
) -> bool {
    call matches StoreCall::Rotate { old_hash, found_at, writes, .. } && {
        &&& old_hash == hash
        &&& rotation_begun(store, old_hash, found_at) is RunTransaction
        &&& writes is Exchange
    }
}

/// The store after a sequence of calls, beginning with an empty one.
pub open spec fn after_calls(calls: Seq<StoreCall>) -> Map<Seq<char>, RefreshTokenRecord>
    decreases calls.len(),
{
    if calls.len() == 0 {
        Map::empty()
    } else {
        after_call(after_calls(calls.drop_last()), calls.last())
    }
}

/// Holds of a sequence of calls each of which fits the store that it finds.
pub open spec fn calls_fit(calls: Seq<StoreCall>) -> bool {
    forall|i: int| 0 <= i < calls.len() ==> call_fits(after_calls(calls.take(i)), #[trigger] calls[i])
}

/// Holds of a store in which all records of a family belong to one user and
/// one session.
pub open spec fn families_agree(store: Map<Seq<char>, RefreshTokenRecord>) -> bool {
    forall|a: Seq<char>, b: Seq<char>|
        #![trigger store[a], store[b]]
        store.contains_key(a) && store.contains_key(b) && store[a].family_id@ == store[b].family_id@
            ==> store[a].user_email@ == store[b].user_email@ && store[a].family_created_at
            == store[b].family_created_at
}

/// Holds where the record under a hash, if it was rotated away, names a record
/// of its family that took its place.
pub open spec fn has_successor(
    store: Map<Seq<char>, RefreshTokenRecord>,
    hash: Seq<char>,
) -> bool {
    store[hash].status == RefreshTokenStatus::Rotated ==> {
        &&& store[hash].replaced_by matches Some(next)
        &&& store.contains_key(next@)
        &&& store[next@].family_id@ == store[hash].family_id@
    }
}

/// What holds of every store: each record stands under its hash, no family has
/// two usable tokens, the records of a family agree on user and session, none
/// outlasts the cap of its session, and each one that was rotated away names
/// its successor.
pub open spec fn families_sound(store: Map<Seq<char>, RefreshTokenRecord>) -> bool {
    &&& keyed_by_hash(store)
    &&& one_active_per_family(store)
    &&& families_agree(store)
    &&& forall|hash: Seq<char>| #[trigger]
        store.contains_key(hash) ==> within_session_cap(store[hash]) && has_successor(store, hash)
}

/// A store that is empty is sound.
pub proof fn empty_stores_are_sound()
    ensures
        families_sound(Map::empty()),
{
}

/// Writing one record or two puts them in their places.
proof fn written_records(
    store: Map<Seq<char>, RefreshTokenRecord>,
    first: RefreshTokenRecord,
    second: RefreshTokenRecord,
)
    ensures
        written(store, seq![first]) == store.insert(first.token_hash@, first),
        written(store, seq![first, second]) == store.insert(first.token_hash@, first).insert(
            second.token_hash@,
            second,
        ),
{
    assert(seq![first, second].drop_last() =~= seq![first]);
    assert(seq![first].drop_last() =~= Seq::empty());
    assert(written(store, Seq::<RefreshTokenRecord>::empty()) == store);
    assert(written(store, seq![first]) == store.insert(first.token_hash@, first));
}

/// Creating the first record of a new family keeps a store sound.
pub proof fn creation_keeps_families_sound(
    store: Map<Seq<char>, RefreshTokenRecord>,
    record: RefreshTokenRecord,
)
    requires
        families_sound(store),
        call_fits(store, StoreCall::Create { record }),
    ensures
        families_sound(written(store, seq![record])),
{
    written_records(store, record, record);
    let after = store.insert(record.token_hash@, record);
    assert forall|hash: Seq<char>| #[trigger] after.contains_key(hash) implies within_session_cap(
        after[hash],
    ) && has_successor(after, hash) by {
        if hash != record.token_hash@ {
            assert(store.contains_key(hash));
            assert(after[hash] == store[hash]);
            if let Some(next) = store[hash].replaced_by {
                assert(has_successor(store, hash));
            }
        }
    }
    assert forall|a: Seq<char>, b: Seq<char>|
        #![trigger after[a], after[b]]
        after.contains_key(a) && after.contains_key(b) && after[a].family_id@ == after[b].family_id@
        implies after[a].user_email@ == after[b].user_email@ && after[a].family_created_at
        == after[b].family_created_at by {
        if a != record.token_hash@ && b != record.token_hash@ {
            assert(after[a] == store[a] && after[b] == store[b]);
        }
    }
}

/// Holds of a plan that was taken from the record under a hash, at that time or
/// before: what it takes does not change in the life of a record.
pub open spec fn plan_agrees(plan: RotationPlan, record: RefreshTokenRecord) -> bool {
    &&& plan.family_id@ == record.family_id@
    &&& plan.user_email@ == record.user_email@
    &&& plan.family_created_at == record.family_created_at
}

/// The transaction of a rotation keeps a store sound, whenever the plan for it
/// was made.
pub proof fn rotation_keeps_families_sound(
    store: Map<Seq<char>, RefreshTokenRecord>,
    plan: RotationPlan,
    old_hash: Seq<char>,
    new_hash: Seq<char>,
    new_jkt: Seq<char>,
    now: Timestamp,
    old: RefreshTokenRecord,
    new: RefreshTokenRecord,
)
    requires
        families_sound(store),
        store.contains_key(old_hash),
        !store.contains_key(new_hash),
        plan_agrees(plan, store[old_hash]),
        exchanged(
            plan,
            Some(store[old_hash]),
            new_hash,
            new_jkt,
            now,
            RotationWrites::Exchange { old, new },
        ),
    ensures
        families_sound(written(store, seq![old, new])),
        written(store, seq![old, new]) == store.insert(old_hash, old).insert(new_hash, new),
{
    written_records(store, old, new);
    assert(store[old_hash].token_hash@ == old_hash);
    let after = store.insert(old_hash, old).insert(new_hash, new);
    assert(written(store, seq![old, new]) == after);
    assert(store[old_hash].status == RefreshTokenStatus::Active);
    assert forall|hash: Seq<char>| #[trigger] after.contains_key(hash) implies within_session_cap(
        after[hash],
    ) && has_successor(after, hash) by {
        if hash != old_hash && hash != new_hash {
            assert(store.contains_key(hash));
            assert(after[hash] == store[hash]);
            assert(has_successor(store, hash));
        } else {
            assert(within_session_cap(store[old_hash]));
        }
    }
    assert forall|a: Seq<char>, b: Seq<char>|
        #![trigger after[a], after[b]]
        after.contains_key(a) && after.contains_key(b) && after[a].family_id@ == after[b].family_id@
        implies after[a].user_email@ == after[b].user_email@ && after[a].family_created_at
        == after[b].family_created_at by {
        let x = if a == new_hash {
            old_hash
        } else {
            a
        };
        let y = if b == new_hash {
            old_hash
        } else {
            b
        };
        assert(store[x].family_id@ == store[y].family_id@);
    }
    assert forall|a: Seq<char>, b: Seq<char>|
        #![trigger after[a], after[b]]
        {
            &&& after.contains_key(a)
            &&& after.contains_key(b)
            &&& after[a].status == RefreshTokenStatus::Active
            &&& after[b].status == RefreshTokenStatus::Active
            &&& after[a].family_id@ == after[b].family_id@
        } implies a == b by {
        let x = if a == new_hash {
            old_hash
        } else {
            a
        };
        let y = if b == new_hash {
            old_hash
        } else {
            b
        };
        assert(store[x].family_id@ == store[y].family_id@);
        assert(store[x].status == RefreshTokenStatus::Active);
        assert(store[y].status == RefreshTokenStatus::Active);
    }
}

/// Revoking a family keeps a store sound.
pub proof fn revocation_keeps_families_sound(
    store: Map<Seq<char>, RefreshTokenRecord>,
    family_id: Seq<char>,
)
    requires
        families_sound(store),
    ensures
        families_sound(with_family_revoked(store, family_id)),
{
    let after = with_family_revoked(store, family_id);
    assert forall|hash: Seq<char>| #[trigger] store.contains_key(hash) implies after.contains_key(
        hash,
    ) && (after[hash] == store[hash] || after[hash] == as_revoked(store[hash])) by {}
    assert forall|hash: Seq<char>| #[trigger] after.contains_key(hash) implies within_session_cap(
        after[hash],
    ) && has_successor(after, hash) by {
        assert(store.contains_key(hash));
        assert(has_successor(store, hash));
    }
    assert forall|a: Seq<char>, b: Seq<char>|
        #![trigger after[a], after[b]]
        after.contains_key(a) && after.contains_key(b) && after[a].family_id@ == after[b].family_id@
        implies after[a].user_email@ == after[b].user_email@ && after[a].family_created_at
        == after[b].family_created_at by {
        assert(store[a].family_id@ == store[b].family_id@);
    }
    assert forall|a: Seq<char>, b: Seq<char>|
        #![trigger after[a], after[b]]
        {
            &&& after.contains_key(a)
            &&& after.contains_key(b)
            &&& after[a].status == RefreshTokenStatus::Active
            &&& after[b].status == RefreshTokenStatus::Active
            &&& after[a].family_id@ == after[b].family_id@
        } implies a == b by {
        assert(store[a] == after[a]);
        assert(store[b] == after[b]);
    }
}

/// A call keeps a store sound.
proof fn calls_keep_families_sound(store: Map<Seq<char>, RefreshTokenRecord>, call: StoreCall)
    requires
        families_sound(store),
        call_fits(store, call),
    ensures
        families_sound(after_call(store, call)),
{
    match call {
        StoreCall::Create { record } => creation_keeps_families_sound(store, record),
        StoreCall::Rotate { old_hash, new_hash, new_jkt, found_at, now, writes } => match rotation_begun(
            store,
            old_hash,
            found_at,
        ) {
            RotateAction::RunTransaction(plan) => {
                assert(store.contains_key(old_hash));
                rotation_keeps_families_sound(
                    store,
                    plan,
                    old_hash,
                    new_hash,
                    new_jkt,
                    now,
                    writes->old,
                    writes->new,
                );
            },
            RotateAction::RevokeFamily { family_id } => revocation_keeps_families_sound(
                store,
                family_id@,
            ),
            _ => {},
        },
        StoreCall::RevokeFamily { family_id } => revocation_keeps_families_sound(store, family_id),
    }
}

/// A sequence of calls that fits begins with one that does.
proof fn earlier_calls_fit(calls: Seq<StoreCall>)
    requires
        calls_fit(calls),
        calls.len() > 0,
    ensures
        calls_fit(calls.drop_last()),
        call_fits(after_calls(calls.drop_last()), calls.last()),
{
    let earlier = calls.drop_last();
    assert forall|i: int| 0 <= i < earlier.len() implies call_fits(
        after_calls(earlier.take(i)),
        #[trigger] earlier[i],
    ) by {
        assert(earlier.take(i) =~= calls.take(i));
        assert(earlier[i] == calls[i]);
    }
    assert(calls.take(calls.len() - 1) =~= earlier);
    assert(calls[calls.len() - 1] == calls.last());
}

/// Whatever calls are made, in whatever order and however often: in every
/// family at most one token is usable, all records belong to one user and one
/// session, none ends after the session's cap, and each that was rotated away
/// names a record of the family that took its place.
pub proof fn every_store_is_sound(calls: Seq<StoreCall>)
    requires
        calls_fit(calls),
    ensures
        families_sound(after_calls(calls)),
    decreases calls.len(),
{
    if calls.len() == 0 {
        empty_stores_are_sound();
    } else {
        earlier_calls_fit(calls);
        every_store_is_sound(calls.drop_last());
        calls_keep_families_sound(after_calls(calls.drop_last()), calls.last());
    }
}

/// Holds of a token that is no longer usable.
pub open spec fn is_spent(store: Map<Seq<char>, RefreshTokenRecord>, hash: Seq<char>) -> bool {
    store.contains_key(hash) && store[hash].status != RefreshTokenStatus::Active
}

/// A call takes no record away, changes neither its user, its family nor its
/// session, and makes none usable again.
pub proof fn calls_keep_records(
    store: Map<Seq<char>, RefreshTokenRecord>,
    call: StoreCall,
    hash: Seq<char>,
)
    requires
        families_sound(store),
        call_fits(store, call),
        store.contains_key(hash),
    ensures
        ({
            let after = after_call(store, call);
            &&& after.contains_key(hash)
            &&& after[hash].family_id == store[hash].family_id
            &&& after[hash].user_email == store[hash].user_email
            &&& after[hash].family_created_at == store[hash].family_created_at
            &&& is_spent(store, hash) ==> is_spent(after, hash)
            &&& has_rotated(store, call, hash) ==> is_spent(after, hash) && !is_spent(store, hash)
        }),
{
    match call {
        StoreCall::Create { record } => written_records(store, record, record),
        StoreCall::Rotate { old_hash, new_hash, new_jkt, found_at, now, writes } => {
            if rotation_begun(store, old_hash, found_at) is RunTransaction {
                let plan = rotation_begun(store, old_hash, found_at)->RunTransaction_0;
                rotation_keeps_families_sound(
                    store,
                    plan,
                    old_hash,
                    new_hash,
                    new_jkt,
                    now,
                    writes->old,
                    writes->new,
                );
            }
        },
        StoreCall::RevokeFamily { .. } => {},
    }
}

/// A token that is spent stays spent.
proof fn spent_tokens_stay_spent(calls: Seq<StoreCall>, i: int, hash: Seq<char>)
    requires
        calls_fit(calls),
        0 <= i <= calls.len(),
        is_spent(after_calls(calls.take(i)), hash),
    ensures
        is_spent(after_calls(calls), hash),
    decreases calls.len(),
{
    if i == calls.len() {
        assert(calls.take(i) =~= calls);
    } else {
        let earlier = calls.drop_last();
        earlier_calls_fit(calls);
        assert(earlier.take(i) =~= calls.take(i));
        spent_tokens_stay_spent(earlier, i, hash);
        every_store_is_sound(earlier);
        calls_keep_records(after_calls(earlier), calls.last(), hash);
    }
}

/// The calls up to one of them fit as well.
proof fn first_calls_fit(calls: Seq<StoreCall>, n: int)
    requires
        calls_fit(calls),
        0 <= n <= calls.len(),
    ensures
        calls_fit(calls.take(n)),
{
    let first = calls.take(n);
    assert forall|i: int| 0 <= i < first.len() implies call_fits(
        after_calls(first.take(i)),
        #[trigger] first[i],
    ) by {
        assert(first.take(i) =~= calls.take(i));
        assert(first[i] == calls[i]);
    }
}

/// A token is exchanged once at most, whatever calls are made between.
pub proof fn tokens_are_rotated_once(calls: Seq<StoreCall>, i: int, j: int, hash: Seq<char>)
    requires
        calls_fit(calls),
        0 <= i < j < calls.len(),
        has_rotated(after_calls(calls.take(i)), calls[i], hash),
    ensures
        !has_rotated(after_calls(calls.take(j)), calls[j], hash),
{
    let before = after_calls(calls.take(i));
    first_calls_fit(calls, i);
    every_store_is_sound(calls.take(i));
    assert(call_fits(before, calls[i]));
    calls_keep_records(before, calls[i], hash);
    assert(calls.take(i + 1).drop_last() =~= calls.take(i));
    assert(calls.take(i + 1).last() == calls[i]);
    assert(is_spent(after_calls(calls.take(i + 1)), hash));
    first_calls_fit(calls, j);
    assert(calls.take(j).take(i + 1) =~= calls.take(i + 1));
    spent_tokens_stay_spent(calls.take(j), i + 1, hash);
}

/// A rotation whose transaction has exchanged the token returns the new record.
pub proof fn rotated_calls_return_the_new_record(
    plan: RotationPlan,
    new: RefreshTokenRecord,
    now: Timestamp,
)
    ensures
        rotate_next(
            RotateState::Transacting { family_id: plan.family_id },
            RotateEvent::TransactionEnded(Ok(RotateAttempt::Rotated(new))),
            now,
        ) == (RotateState::Finished, RotateAction::Return(Ok(new))),
{
}

} // verus!
