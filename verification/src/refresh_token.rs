//! Refresh tokens: what is kept of one, and how long it lasts.
use vstd::prelude::*;

use crate::time::{Timestamp, SECONDS_PER_DAY};

verus! {

/// How long a token lasts. Each rotation opens a fresh window this long.
pub const REFRESH_TOKEN_TTL_DAYS: i64 = 30;

/// How long a session lasts at most, however often its token is rotated.
/// Reuse detection only catches a theft when the holder and the thief collide
/// on one token; this bounds the case in which they never do.
pub const ABSOLUTE_SESSION_CAP_DAYS: i64 = 90;

/// Where a token stands in its family. `Active` is the usable one. `Rotated`
/// was exchanged for a newer one: presenting it again signals reuse.
/// `Revoked` means that the family as a whole was invalidated.
#[derive(Debug, Clone, Copy, PartialEq, Eq, Structural)]
pub enum RefreshTokenStatus {
    Active,
    Rotated,
    Revoked,
}

/// What is kept of a token, under the hash of it. `family_id` is made at
/// login and handed on unchanged with every rotation; revocation acts on it.
/// `jkt` is the thumbprint of the DPoP key that the token is bound to.
#[derive(Debug)]
pub struct RefreshTokenRecord {
    pub token_hash: String,
    pub user_email: String,
    pub jkt: String,
    pub family_id: String,
    pub status: RefreshTokenStatus,
    pub replaced_by: Option<String>,
    pub created_at: Timestamp,
    pub expires_at: Timestamp,
    pub family_created_at: Timestamp,
}

/// What a login hands to the store: it always opens a new family.
#[derive(Debug)]
pub struct NewRefreshToken {
    pub user_email: String,
    pub jkt: String,
}

/// The end of a token made at `now`: its own time to live, but never past the
/// cap on the family.
pub open spec fn capped_expiry_nanos(now: Timestamp, family_created_at: Timestamp) -> int {
    let sliding = now.after(REFRESH_TOKEN_TTL_DAYS * SECONDS_PER_DAY);
    let absolute_cap = family_created_at.after(ABSOLUTE_SESSION_CAP_DAYS * SECONDS_PER_DAY);
    if sliding <= absolute_cap {
        sliding
    } else {
        absolute_cap
    }
}

pub fn capped_expiry(now: Timestamp, family_created_at: Timestamp) -> (r: Timestamp)
    requires
        now.valid(),
        family_created_at.valid(),
    ensures
        r.nanos == capped_expiry_nanos(now, family_created_at),
        r.nanos == now.nanos + 2_592_000_000_000_000 || r.nanos == family_created_at.nanos
            + 7_776_000_000_000_000,
        r.nanos <= now.nanos + 2_592_000_000_000_000,
        r.nanos <= family_created_at.nanos + 7_776_000_000_000_000,
{
    let sliding = now.plus_seconds(REFRESH_TOKEN_TTL_DAYS * SECONDS_PER_DAY);
    let absolute_cap = family_created_at.plus_seconds(ABSOLUTE_SESSION_CAP_DAYS * SECONDS_PER_DAY);
    sliding.earlier(absolute_cap)
}

/// A token ends thirty days after it was made, or ninety days after its
/// session began, whichever comes first, and at no other time.
pub proof fn tokens_end_at_the_earlier_limit(now: Timestamp, family_created_at: Timestamp)
    ensures
        now.nanos + 2_592_000_000_000_000 <= family_created_at.nanos + 7_776_000_000_000_000
            ==> capped_expiry_nanos(now, family_created_at) == now.nanos + 2_592_000_000_000_000,
        now.nanos + 2_592_000_000_000_000 > family_created_at.nanos + 7_776_000_000_000_000
            ==> capped_expiry_nanos(now, family_created_at) == family_created_at.nanos
            + 7_776_000_000_000_000,
{
}

} // verus!
