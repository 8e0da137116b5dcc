//! What creating, rotating and revoking do to the store of refresh tokens as
//! a whole. The store maps the hash of a token to its record.
use vstd::prelude::*;

use super::refresh_tokens::{
    as_revoked, exchanged, opens_family, revocations, rotate_next, RotateAction, RotateAttempt,
    RotateEvent, RotateState, RotationPlan, RotationWrites,
};
use super::StoreError;
use crate::refresh_token::{
    RefreshTokenRecord, RefreshTokenStatus, ABSOLUTE_SESSION_CAP_DAYS, REFRESH_TOKEN_TTL_DAYS,
};
use crate::time::{Timestamp, SECONDS_PER_DAY};

verus! {

/// Holds of a store that keeps each record under the hash that the record
/// names.
pub open spec fn keyed_by_hash(store: Map<Seq<char>, RefreshTokenRecord>) -> bool {
    forall|hash: Seq<char>| #[trigger]
        store.contains_key(hash) ==> store[hash].token_hash@ == hash
}

/// Holds of a store in which no family has two usable tokens.
pub open spec fn one_active_per_family(store: Map<Seq<char>, RefreshTokenRecord>) -> bool {
    forall|a: Seq<char>, b: Seq<char>|
        #![trigger store[a], store[b]]
        {
            &&& store.contains_key(a)
            &&& store.contains_key(b)
            &&& store[a].status == RefreshTokenStatus::Active
            &&& store[b].status == RefreshTokenStatus::Active
            &&& store[a].family_id@ == store[b].family_id@
        } ==> a == b
}

/// Holds of a record that ends within the time that its family may last.
pub open spec fn within_session_cap(record: RefreshTokenRecord) -> bool {
    record.expires_at.nanos <= record.family_created_at.after(
        ABSOLUTE_SESSION_CAP_DAYS * SECONDS_PER_DAY,
    )
}

/// The store after records have been written, each under its own hash.
pub open spec fn written(
    store: Map<Seq<char>, RefreshTokenRecord>,
    writes: Seq<RefreshTokenRecord>,
) -> Map<Seq<char>, RefreshTokenRecord>
    decreases writes.len(),
{
    if writes.len() == 0 {
        store
    } else {
        written(store, writes.drop_last()).insert(writes.last().token_hash@, writes.last())
    }
}

/// The store with every record of a family revoked and all others untouched.
pub open spec fn with_family_revoked(
    store: Map<Seq<char>, RefreshTokenRecord>,
    family_id: Seq<char>,
) -> Map<Seq<char>, RefreshTokenRecord> {
    store.map_values(
        |record: RefreshTokenRecord|
            if record.family_id@ == family_id {
                as_revoked(record)
            } else {
                record
            },
    )
}

/// Holds where `members` are the records of a family, as a query for its name
/// returns them.
pub open spec fn lists_family(
    store: Map<Seq<char>, RefreshTokenRecord>,
    family_id: Seq<char>,
    members: Seq<RefreshTokenRecord>,
) -> bool {
    &&& forall|i: int|
        0 <= i < members.len() ==> {
            &&& (#[trigger] members[i]).family_id@ == family_id
            &&& store.contains_key(members[i].token_hash@)
            &&& store[members[i].token_hash@] == members[i]
        }
    &&& forall|hash: Seq<char>| #[trigger]
        store.contains_key(hash) && store[hash].family_id@ == family_id ==> members.contains(
            store[hash],
        )
}

/// Writing the revocations of the first members revokes those and leaves the
/// rest of the store alone.
proof fn revoking_some_members(
    store: Map<Seq<char>, RefreshTokenRecord>,
    family_id: Seq<char>,
    members: Seq<RefreshTokenRecord>,
    n: int,
)
    requires
        keyed_by_hash(store),
        lists_family(store, family_id, members),
        0 <= n <= members.len(),
    ensures
        ({
            let after = written(store, revocations(members.take(n)));
            &&& after.dom() == store.dom()
            &&& forall|hash: Seq<char>| #[trigger]
                store.contains_key(hash) ==> after[hash] == if members.take(n).contains(
                    store[hash],
                ) {
                    as_revoked(store[hash])
                } else {
                    store[hash]
                }
        }),
    decreases n,
{
    let some = members.take(n);
    if n == 0 {
        assert(some =~= Seq::empty());
        assert(revocations(some) =~= Seq::empty());
    } else {
        let fewer = members.take(n - 1);
        let last = members[n - 1];
        assert(some.drop_last() =~= fewer);
        assert(some.last() == last);
        revoking_some_members(store, family_id, members, n - 1);
        let before = written(store, revocations(fewer));
        let after = written(store, revocations(some));
        if last.status == RefreshTokenStatus::Revoked {
            assert(after == before);
            assert(as_revoked(last) == last);
        } else {
            let writes = revocations(some);
            assert(writes.drop_last() =~= revocations(fewer));
            assert(after == before.insert(last.token_hash@, as_revoked(last)));
            assert(before.contains_key(last.token_hash@));
            assert(after.dom() =~= store.dom());
        }
        assert forall|hash: Seq<char>| #[trigger] store.contains_key(hash) implies after[hash]
            == if some.contains(store[hash]) {
            as_revoked(store[hash])
        } else {
            store[hash]
        } by {
            assert(some =~= fewer.push(last));
            if hash == last.token_hash@ {
                assert(store[hash] == last);
                assert(some[n - 1] == last);
            } else {
                assert(store[hash] != last);
                if some.contains(store[hash]) {
                    let i = choose|i: int| 0 <= i < some.len() && some[i] == store[hash];
                    assert(fewer[i] == store[hash]);
                }
                if fewer.contains(store[hash]) {
                    let i = choose|i: int| 0 <= i < fewer.len() && fewer[i] == store[hash];
                    assert(some[i] == store[hash]);
                }
            }
        }
    }
}

/// Revoking a family leaves none of its tokens usable, and touches no other
/// family.
pub proof fn revocation_covers_the_family(
    store: Map<Seq<char>, RefreshTokenRecord>,
    family_id: Seq<char>,
    members: Seq<RefreshTokenRecord>,
)
    requires
        keyed_by_hash(store),
        lists_family(store, family_id, members),
    ensures
        written(store, revocations(members)) == with_family_revoked(store, family_id),
        keyed_by_hash(with_family_revoked(store, family_id)),
        forall|hash: Seq<char>| #[trigger]
            store.contains_key(hash) ==> {
                let after = with_family_revoked(store, family_id)[hash];
                if store[hash].family_id@ == family_id {
                    after == as_revoked(store[hash]) && revokes(store[hash], after)
                } else {
                    after == store[hash]
                }
            },
{
    revoking_some_members(store, family_id, members, members.len() as int);
    assert(members.take(members.len() as int) =~= members);
    let after = written(store, revocations(members));
    assert forall|hash: Seq<char>| #[trigger] store.contains_key(hash) implies after[hash]
        == with_family_revoked(store, family_id)[hash] by {
        if members.contains(store[hash]) {
            let i = choose|i: int| 0 <= i < members.len() && members[i] == store[hash];
            assert(members[i].family_id@ == family_id);
        }
    }
    assert(after =~= with_family_revoked(store, family_id));
}

/// A login opens a family of its own and takes no token from another.
pub proof fn creation_keeps_one_active(
    store: Map<Seq<char>, RefreshTokenRecord>,
    record: RefreshTokenRecord,
)
    requires
        keyed_by_hash(store),
        one_active_per_family(store),
        !store.contains_key(record.token_hash@),
        forall|hash: Seq<char>| #[trigger]
            store.contains_key(hash) ==> store[hash].family_id@ != record.family_id@,
    ensures
        keyed_by_hash(written(store, seq![record])),
        one_active_per_family(written(store, seq![record])),
{
    let after = store.insert(record.token_hash@, record);
    assert(seq![record].drop_last() =~= Seq::empty());
    assert(written(store, Seq::<RefreshTokenRecord>::empty()) == store);
    assert(written(store, seq![record]) == after);
}

/// The plan that a rotation takes from the record of the token presented.
pub open spec fn plan_of(record: RefreshTokenRecord) -> RotationPlan {
    RotationPlan {
        family_id: record.family_id,
        user_email: record.user_email,
        family_created_at: record.family_created_at,
    }
}

/// A token that is active and has not expired is exchanged for a new one of
/// the same family, user and session start, bound to the key presented. The
/// old one is kept as rotated, and names the new one. No family gets a second
/// usable token, and every other record stays. The new token ends thirty days
/// from now or ninety days after the session began, whichever comes first.
pub proof fn rotation_continues_the_family(
    store: Map<Seq<char>, RefreshTokenRecord>,
    old_hash: Seq<char>,
    new_hash: Seq<char>,
    new_jkt: Seq<char>,
    found_at: Timestamp,
    now: Timestamp,
    writes: RotationWrites,
)
    requires
        keyed_by_hash(store),
        one_active_per_family(store),
        store.contains_key(old_hash),
        store[old_hash].status == RefreshTokenStatus::Active,
        store[old_hash].expires_at.nanos >= found_at.nanos,
        !store.contains_key(new_hash),
        exchanged(plan_of(store[old_hash]), Some(store[old_hash]), new_hash, new_jkt, now, writes),
    ensures
        rotate_next(RotateState::Finding, RotateEvent::Found(Ok(Some(store[old_hash]))), found_at)
            == (
            RotateState::Transacting { family_id: store[old_hash].family_id },
            RotateAction::RunTransaction(plan_of(store[old_hash])),
        ),
        writes matches RotationWrites::Exchange { old, new } && {
            let after = written(store, seq![old, new]);
            &&& keyed_by_hash(after)
            &&& one_active_per_family(after)
            &&& after.dom() == store.dom().insert(new_hash)
            &&& after[old_hash] == old
            &&& old.status == RefreshTokenStatus::Rotated
            &&& after[new_hash] == new
            &&& new.status == RefreshTokenStatus::Active
            &&& new.jkt@ == new_jkt
            &&& new.family_id@ == store[old_hash].family_id@
            &&& new.user_email@ == store[old_hash].user_email@
            &&& new.family_created_at == store[old_hash].family_created_at
            &&& new.token_hash@ == new_hash
            &&& new.created_at == now
            &&& new.replaced_by is None
            &&& new.expires_at.nanos <= now.after(REFRESH_TOKEN_TTL_DAYS * SECONDS_PER_DAY)
            &&& now.nanos + 2_592_000_000_000_000 <= store[old_hash].family_created_at.nanos
                + 7_776_000_000_000_000 ==> new.expires_at.nanos == now.nanos
                + 2_592_000_000_000_000
            &&& now.nanos + 2_592_000_000_000_000 > store[old_hash].family_created_at.nanos
                + 7_776_000_000_000_000 ==> new.expires_at.nanos
                == store[old_hash].family_created_at.nanos + 7_776_000_000_000_000
            &&& old.replaced_by is Some && old.replaced_by->0@ == new_hash
            &&& old.token_hash == store[old_hash].token_hash
            &&& old.user_email == store[old_hash].user_email
            &&& old.jkt == store[old_hash].jkt
            &&& old.family_id == store[old_hash].family_id
            &&& old.created_at == store[old_hash].created_at
            &&& old.expires_at == store[old_hash].expires_at
            &&& old.family_created_at == store[old_hash].family_created_at
            &&& within_session_cap(new)
            &&& forall|hash: Seq<char>| #[trigger]
                store.contains_key(hash) && hash != old_hash ==> after[hash] == store[hash]
        },
{
    let old = writes->old;
    let new = writes->new;
    let after = written(store, seq![old, new]);
    assert(old.token_hash@ == old_hash);
    assert(seq![old, new].drop_last() =~= seq![old]);
    assert(seq![old].drop_last() =~= Seq::empty());
    assert(written(store, Seq::<RefreshTokenRecord>::empty()) == store);
    assert(written(store, seq![old]) == store.insert(old_hash, old));
    assert(after == store.insert(old_hash, old).insert(new_hash, new));
    assert(after.dom() =~= store.dom().insert(new_hash));
    assert forall|a: Seq<char>, b: Seq<char>|
        #![trigger after[a], after[b]]
        {
            &&& after.contains_key(a)
            &&& after.contains_key(b)
            &&& after[a].status == RefreshTokenStatus::Active
            &&& after[b].status == RefreshTokenStatus::Active
            &&& after[a].family_id@ == after[b].family_id@
        } implies a == b by {
        // Within the old family the presented token was the only usable one.
        if a == new_hash && b != new_hash {
            assert(after[b] == store[b]);
            assert(store[b].family_id@ == store[old_hash].family_id@);
            assert(b == old_hash);
        }
        if b == new_hash && a != new_hash {
            assert(after[a] == store[a]);
            assert(store[a].family_id@ == store[old_hash].family_id@);
            assert(a == old_hash);
        }
        if a != new_hash && b != new_hash {
            assert(after[a] == store[a]);
            assert(after[b] == store[b]);
        }
    }
}

/// A token that was rotated away or revoked is never accepted again. Whoever
/// presents it has the whole family revoked, the newest token included, and
/// is told that the token was reused.
pub proof fn reuse_revokes_the_family(
    store: Map<Seq<char>, RefreshTokenRecord>,
    hash: Seq<char>,
    now: Timestamp,
)
    requires
        keyed_by_hash(store),
        store.contains_key(hash),
        store[hash].status != RefreshTokenStatus::Active,
    ensures
        rotate_next(RotateState::Finding, RotateEvent::Found(Ok(Some(store[hash]))), now) == (
            RotateState::Revoking,
            RotateAction::RevokeFamily { family_id: store[hash].family_id },
        ),
        rotate_next(RotateState::Revoking, RotateEvent::FamilyRevoked(Ok(())), now) == (
            RotateState::Finished,
            RotateAction::Return(Err(StoreError::Reused)),
        ),
        forall|sibling: Seq<char>| #[trigger]
            store.contains_key(sibling) && store[sibling].family_id@ == store[hash].family_id@
                ==> with_family_revoked(store, store[hash].family_id@)[sibling].status
                == RefreshTokenStatus::Revoked,
        one_active_per_family(store) ==> one_active_per_family(
            with_family_revoked(store, store[hash].family_id@),
        ),
{
    let family_id = store[hash].family_id@;
    let after = with_family_revoked(store, family_id);
    if one_active_per_family(store) {
        assert forall|a: Seq<char>, b: Seq<char>|
            #![trigger after[a], after[b]]
            {
                &&& after.contains_key(a)
                &&& after.contains_key(b)
                &&& after[a].status == RefreshTokenStatus::Active
                &&& after[b].status == RefreshTokenStatus::Active
                &&& after[a].family_id@ == after[b].family_id@
            } implies a == b by {
            assert(store[a] == after[a]);
            assert(store[b] == after[b]);
        }
    }
}

/// Of two rotations of one token that run at the same time, the one whose
/// transaction comes second writes no token: it finds the record rotated and
/// goes on to revoke the family.
pub proof fn second_rotation_loses_the_race(
    plan: RotationPlan,
    current: RefreshTokenRecord,
    first: RotationWrites,
    first_hash: Seq<char>,
    first_jkt: Seq<char>,
    first_at: Timestamp,
    second: RotationWrites,
    second_hash: Seq<char>,
    second_jkt: Seq<char>,
    second_at: Timestamp,
)
    requires
        current.status == RefreshTokenStatus::Active,
        exchanged(plan, Some(current), first_hash, first_jkt, first_at, first),
        exchanged(plan, Some(first->old), second_hash, second_jkt, second_at, second),
    ensures
        second is Nothing,
        rotate_next(
            RotateState::Transacting { family_id: plan.family_id },
            RotateEvent::TransactionEnded(Ok(RotateAttempt::NotActive)),
            second_at,
        ) == (RotateState::Revoking, RotateAction::RevokeFamily { family_id: plan.family_id }),
{
}

/// An expired token is refused without revoking anything.
pub proof fn expired_token_is_no_reuse(record: RefreshTokenRecord, now: Timestamp)
    requires
        record.status == RefreshTokenStatus::Active,
        record.expires_at.nanos < now.nanos,
    ensures
        rotate_next(RotateState::Finding, RotateEvent::Found(Ok(Some(record))), now) == (
            RotateState::Finished,
            RotateAction::Return(Err(StoreError::Expired)),
        ),
{
}

/// The record of a login opens a session: it lasts for thirty days from then.
pub proof fn sessions_open_for_thirty_days(record: RefreshTokenRecord)
    ensures
        opens_family(record) <==> {
            &&& record.status == RefreshTokenStatus::Active
            &&& record.replaced_by is None
            &&& record.family_created_at == record.created_at
            &&& record.expires_at.nanos == record.created_at.nanos + 2_592_000_000_000_000
        },
{
}

/// Whatever plan a transaction was given, it writes a new token exactly where
/// it still finds the old one, and finds it active. What it then writes is
/// taken from the plan, the key presented and the time, and the new token ends
/// thirty days from then or ninety days after the session began, whichever
/// comes first.
pub proof fn transactions_exchange_active_tokens(
    plan: RotationPlan,
    current: Option<RefreshTokenRecord>,
    new_hash: Seq<char>,
    new_jkt: Seq<char>,
    now: Timestamp,
    writes: RotationWrites,
)
    requires
        exchanged(plan, current, new_hash, new_jkt, now, writes),
    ensures
        writes is Exchange <==> current is Some && current->0.status == RefreshTokenStatus::Active,
        writes matches RotationWrites::Exchange { old, new } ==> {
            let sliding = now.nanos + 2_592_000_000_000_000;
            let cap = plan.family_created_at.nanos + 7_776_000_000_000_000;
            &&& new.token_hash@ == new_hash
            &&& new.jkt@ == new_jkt
            &&& new.user_email@ == plan.user_email@
            &&& new.family_id@ == plan.family_id@
            &&& new.status == RefreshTokenStatus::Active
            &&& new.replaced_by is None
            &&& new.created_at == now
            &&& new.family_created_at == plan.family_created_at
            &&& sliding <= cap ==> new.expires_at.nanos == sliding
            &&& sliding > cap ==> new.expires_at.nanos == cap
            &&& old.status == RefreshTokenStatus::Rotated
            &&& old.replaced_by is Some && old.replaced_by->0@ == new_hash
            &&& old.token_hash == current->0.token_hash
            &&& old.user_email == current->0.user_email
            &&& old.jkt == current->0.jkt
            &&& old.family_id == current->0.family_id
            &&& old.created_at == current->0.created_at
            &&& old.expires_at == current->0.expires_at
            &&& old.family_created_at == current->0.family_created_at
        },
{
}

/// A rotation of a token that is unknown fails as such, one whose store fails
/// hands the error on, and one whose transaction succeeded returns what it
/// wrote. Neither depends on the time.
pub proof fn rotations_end_as_the_store_answers(
    family_id: String,
    error: StoreError,
    record: RefreshTokenRecord,
    now: Timestamp,
)
    ensures
        rotate_next(RotateState::Finding, RotateEvent::Found(Ok(None)), now).1
            == RotateAction::Return(Err(StoreError::NotFound)),
        rotate_next(RotateState::Finding, RotateEvent::Found(Err(error)), now).1
            == RotateAction::Return(Err(error)),
        rotate_next(
            RotateState::Transacting { family_id },
            RotateEvent::TransactionEnded(Err(error)),
            now,
        ).1 == RotateAction::Return(Err(error)),
        rotate_next(
            RotateState::Transacting { family_id },
            RotateEvent::TransactionEnded(Ok(RotateAttempt::Rotated(record))),
            now,
        ).1 == RotateAction::Return(Ok(record)),
        rotate_next(RotateState::Revoking, RotateEvent::FamilyRevoked(Err(error)), now).1
            == RotateAction::Return(Err(error)),
{
}

/// A token is rotated, refused as expired or treated as reused by its status
/// and its end alone. One whose last moment is now can still be rotated.
pub proof fn status_and_end_decide_a_rotation(record: RefreshTokenRecord, now: Timestamp)
    ensures
        ({
            let next = rotate_next(RotateState::Finding, RotateEvent::Found(Ok(Some(record))), now);
            let active = record.status == RefreshTokenStatus::Active;
            &&& next.1 == (RotateAction::RevokeFamily { family_id: record.family_id }) <==> !active
            &&& next.1 == RotateAction::Return(Err(StoreError::Expired)) <==> active
                && record.expires_at.nanos < now.nanos
            &&& next.1 is RunTransaction <==> active && now.nanos <= record.expires_at.nanos
            &&& next.1 is RunTransaction ==> {
                &&& next.1->RunTransaction_0.family_id == record.family_id
                &&& next.1->RunTransaction_0.user_email == record.user_email
                &&& next.1->RunTransaction_0.family_created_at == record.family_created_at
                &&& next.0 == (RotateState::Transacting { family_id: record.family_id })
            }
            &&& !active ==> next.0 == RotateState::Revoking
        }),
{
}

/// Revoking a family writes each member that is not revoked yet, with nothing
/// changed but its status.
pub proof fn revocations_change_the_status_alone(members: Seq<RefreshTokenRecord>, i: int)
    requires
        0 <= i < members.len(),
        members[i].status != RefreshTokenStatus::Revoked,
    ensures
        exists|k: int|
            0 <= k < revocations(members).len() && revokes(
                members[i],
                #[trigger] revocations(members)[k],
            ),
    decreases members.len(),
{
    let before = members.drop_last();
    let all = revocations(members);
    if i == before.len() {
        let k = all.len() - 1;
        assert(revokes(members[i], all[k]));
    } else {
        assert(before[i] == members[i]);
        revocations_change_the_status_alone(before, i);
        let k = choose|k: int|
            0 <= k < revocations(before).len() && revokes(
                before[i],
                #[trigger] revocations(before)[k],
            );
        assert(all[k] == revocations(before)[k]);
    }
}

/// Holds of a record and what is written of it when its family is revoked.
pub open spec fn revokes(before: RefreshTokenRecord, after: RefreshTokenRecord) -> bool {
    &&& after.status == RefreshTokenStatus::Revoked
    &&& after.token_hash == before.token_hash
    &&& after.user_email == before.user_email
    &&& after.jkt == before.jkt
    &&& after.family_id == before.family_id
    &&& after.replaced_by == before.replaced_by
    &&& after.created_at == before.created_at
    &&& after.expires_at == before.expires_at
    &&& after.family_created_at == before.family_created_at
}

/// Nothing is written when a family is revoked but its members that were not
/// revoked yet, with nothing changed but their status.
pub proof fn only_members_are_revoked(members: Seq<RefreshTokenRecord>, k: int)
    requires
        0 <= k < revocations(members).len(),
    ensures
        exists|i: int|
            0 <= i < members.len() && members[i].status != RefreshTokenStatus::Revoked && revokes(
                #[trigger] members[i],
                revocations(members)[k],
            ),
    decreases members.len(),
{
    let before = members.drop_last();
    let last = members.len() - 1;
    if k < revocations(before).len() {
        assert(revocations(members)[k] == revocations(before)[k]);
        only_members_are_revoked(before, k);
        let i = choose|i: int|
            0 <= i < before.len() && before[i].status != RefreshTokenStatus::Revoked && revokes(
                #[trigger] before[i],
                revocations(before)[k],
            );
        assert(members[i] == before[i]);
    } else {
        assert(revokes(members[last], revocations(members)[k]));
    }
}

/// Members are revoked one by one: those of two lists put together are revoked
/// as the lists are, one after the other, and a single one is written exactly
/// where it was not revoked.
pub proof fn members_are_revoked_one_by_one(
    some: Seq<RefreshTokenRecord>,
    others: Seq<RefreshTokenRecord>,
    member: RefreshTokenRecord,
)
    ensures
        revocations(some + others) == revocations(some) + revocations(others),
        revocations(seq![member]).len() == if member.status == RefreshTokenStatus::Revoked {
            0int
        } else {
            1
        },
    decreases others.len(),
{
    let both = some + others;
    if others.len() == 0 {
        assert(both =~= some);
        assert(revocations(some) + revocations(others) =~= revocations(some));
    } else {
        members_are_revoked_one_by_one(some, others.drop_last(), member);
        assert(both.drop_last() =~= some + others.drop_last());
        assert(both.last() == others.last());
        assert(revocations(both) =~= revocations(some) + revocations(others));
    }
    assert(seq![member].drop_last() =~= Seq::empty());
    assert(revocations(Seq::<RefreshTokenRecord>::empty()) =~= Seq::empty());
}

} // verus!
