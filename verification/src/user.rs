//! Accounts.
use vstd::prelude::*;

use crate::time::Timestamp;

verus! {

/// What is kept of an account, under its normalized email address. `user_id`
/// is what an access token names, so that no token carries the address.
#[derive(Debug)]
pub struct User {
    pub user_id: String,
    pub email: String,
    pub password_hash: String,
    pub created_at: Timestamp,
    /// The TOTP secret, there from registration on.
    pub mfa_secret: Vec<u8>,
    /// False until a first code has been confirmed. No login succeeds before.
    pub mfa_enrolled: bool,
}

/// What a registration hands to the store. The store sets the time of
/// creation, and enrollment always starts incomplete.
#[derive(Debug)]
pub struct NewUser {
    pub user_id: String,
    pub email: String,
    pub password_hash: String,
    pub mfa_secret: Vec<u8>,
}

} // verus!
