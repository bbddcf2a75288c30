//! What the user flows read of the records they work on.

use crate::instant::Instant;
use vstd::prelude::*;

verus! {

/// A user account.
#[derive(Debug, PartialEq, Eq)]
pub struct User {
    pub id: u128,
    pub username: String,
    /// Whether the account is neither locked nor deactivated.
    pub valid: bool,
}

impl Clone for User {
    fn clone(&self) -> (r: Self)
        ensures
            r == *self,
    {
        User { id: self.id, username: self.username.clone(), valid: self.valid }
    }
}

/// A browser session of a user.
#[derive(Debug, PartialEq, Eq)]
pub struct BrowserSession {
    pub id: u128,
    pub user: User,
}

impl Clone for BrowserSession {
    fn clone(&self) -> (r: Self)
        ensures
            r == *self,
    {
        BrowserSession { id: self.id, user: self.user.clone() }
    }
}

/// A password as it is stored.
#[derive(Debug, PartialEq, Eq)]
pub struct HashedPassword {
    pub version: u16,
    pub hash: String,
}

/// A registration that is under way.
#[derive(Debug, PartialEq, Eq)]
pub struct UserRegistration {
    pub id: u128,
    pub username: String,
    pub user_agent: Option<String>,
    pub display_name: Option<String>,
    pub terms_url: Option<String>,
    pub email_authentication_id: Option<u128>,
    pub user_registration_token_id: Option<u128>,
    pub password: Option<HashedPassword>,
    pub created_at: Instant,
    pub completed_at: Option<Instant>,
}

/// The proof, under way or complete, that someone reads an e-mail address.
#[derive(Debug, PartialEq, Eq)]
pub struct EmailAuthentication {
    pub id: u128,
    pub email: String,
    pub completed_at: Option<Instant>,
}

/// A code that was sent for an [`EmailAuthentication`].
#[derive(Debug, PartialEq, Eq)]
pub struct EmailAuthenticationCode {
    pub id: u128,
    pub expires_at: Instant,
}

/// A token that lets its bearer register.
#[derive(Debug, PartialEq, Eq)]
pub struct RegistrationToken {
    pub id: u128,
    /// Whether the token could be used when it was looked up.
    pub valid: bool,
}

/// A ticket that lets its bearer set a new password.
#[derive(Debug, PartialEq, Eq)]
pub struct RecoveryTicket {
    pub id: u128,
    pub user_recovery_session_id: u128,
    pub user_email_id: u128,
}

/// A request to recover an account.
#[derive(Debug, PartialEq, Eq)]
pub struct RecoverySession {
    pub id: u128,
    pub email: String,
    pub consumed_at: Option<Instant>,
}

/// An e-mail address of a user.
#[derive(Debug, PartialEq, Eq)]
pub struct UserEmail {
    pub id: u128,
    pub user_id: u128,
}

} // verus!
