//! The mutations on user accounts.
//!
//! Each mutation is a function of what was asked and of the answers gathered so
//! far. It returns the next thing to ask for or to do, or the outcome. The caller
//! does it, records the answer and calls the function again. Where the thing
//! itself fails, the request ends with that failure and nothing is saved.

use vstd::prelude::*;

pub mod admin;
pub mod completion;
pub mod deactivation;
pub mod model;
pub mod passwords;
pub mod recovery_runs;
pub mod registration;
pub mod registration_steps;
pub mod username;

verus! {

/// The mutations on user accounts.
#[derive(Debug, Default)]
pub struct UserMutations {
    _private: (),
}

/// What a mutation needs next, or what came of it.
#[derive(Debug, PartialEq, Eq)]
pub enum Next<A, P> {
    Ask(A),
    Done(Result<P, MutationError>),
}

impl<A, P> Next<A, P> {
    /// Whether this asks for just that.
    pub open spec fn asks(self, ask: A) -> bool {
        self == Next::<A, P>::Ask(ask)
    }

    /// Whether the outcome is just that.
    pub open spec fn gives(self, payload: P) -> bool {
        self == Next::<A, P>::Done(Ok(payload))
    }

    /// Whether the mutation is refused with that error.
    pub open spec fn refuses(self, error: MutationError) -> bool {
        self == Next::<A, P>::Done(Err(error))
    }
}

/// A mutation that was refused.
#[derive(Debug, Clone, Copy, PartialEq, Eq, Structural)]
pub enum MutationError {
    Unauthorized,
    CrossSigningResetFailed,
    CurrentPasswordRequired,
    RecoveryIsForAnonymousUsers,
    UnknownRecoverySession,
    UnknownEmailAddress,
    InvalidUser,
    CouldNotLoadRecoverySession,
    DeactivationNotAllowed,
    AlreadyAuthenticated,
    RegistrationDisabled,
    TokenNotFound,
    InvalidSessionId,
    RegistrationNotFound,
    RegistrationCompleted,
    RegistrationExpired,
    EmailAuthenticationNotFound,
    EmailAuthMissing,
    EmailAuthNotFound,
    UsernameTaken,
    UsernameNotAvailable,
    EmailInUse,
}

impl MutationError {
    /// The text of the error.
    pub open spec fn text(self) -> Seq<char> {
        match self {
            MutationError::Unauthorized => "Unauthorized"@,
            MutationError::CrossSigningResetFailed => "Failed to allow cross-signing reset"@,
            MutationError::CurrentPasswordRequired =>
            "You must supply `currentPassword` to change your own password if you are not an administrator"@,
            MutationError::RecoveryIsForAnonymousUsers =>
            "Account recovery is only for anonymous users."@,
            MutationError::UnknownRecoverySession => "Unknown session"@,
            MutationError::UnknownEmailAddress => "Unknown email address"@,
            MutationError::InvalidUser => "Invalid user"@,
            MutationError::CouldNotLoadRecoverySession => "Could not load recovery session"@,
            MutationError::DeactivationNotAllowed =>
            "Account deactivation is not allowed on this server"@,
            MutationError::AlreadyAuthenticated => "Already authenticated"@,
            MutationError::RegistrationDisabled => "Password registration is disabled"@,
            MutationError::TokenNotFound => "Token not found"@,
            MutationError::InvalidSessionId => "Invalid session ID"@,
            MutationError::RegistrationNotFound => "Registration session not found"@,
            MutationError::RegistrationCompleted => "Registration already completed"@,
            MutationError::RegistrationExpired => "Registration session has expired"@,
            MutationError::EmailAuthenticationNotFound => "Email authentication not found"@,
            MutationError::EmailAuthMissing => "Email auth missing"@,
            MutationError::EmailAuthNotFound => "Email auth not found"@,
            MutationError::UsernameTaken => "Username is already taken"@,
            MutationError::UsernameNotAvailable => "Username is not available"@,
            MutationError::EmailInUse => "Email address already in use"@,
        }
    }

    /// The text of the error, as clients see it.
    pub fn message(&self) -> (r: &'static str)
        ensures
            r@ == self.text(),
    {
        match self {
            MutationError::Unauthorized => "Unauthorized",
            MutationError::CrossSigningResetFailed => "Failed to allow cross-signing reset",
            MutationError::CurrentPasswordRequired =>
            "You must supply `currentPassword` to change your own password if you are not an administrator",
            MutationError::RecoveryIsForAnonymousUsers =>
            "Account recovery is only for anonymous users.",
            MutationError::UnknownRecoverySession => "Unknown session",
            MutationError::UnknownEmailAddress => "Unknown email address",
            MutationError::InvalidUser => "Invalid user",
            MutationError::CouldNotLoadRecoverySession => "Could not load recovery session",
            MutationError::DeactivationNotAllowed =>
            "Account deactivation is not allowed on this server",
            MutationError::AlreadyAuthenticated => "Already authenticated",
            MutationError::RegistrationDisabled => "Password registration is disabled",
            MutationError::TokenNotFound => "Token not found",
            MutationError::InvalidSessionId => "Invalid session ID",
            MutationError::RegistrationNotFound => "Registration session not found",
            MutationError::RegistrationCompleted => "Registration already completed",
            MutationError::RegistrationExpired => "Registration session has expired",
            MutationError::EmailAuthenticationNotFound => "Email authentication not found",
            MutationError::EmailAuthMissing => "Email auth missing",
            MutationError::EmailAuthNotFound => "Email auth not found",
            MutationError::UsernameTaken => "Username is already taken",
            MutationError::UsernameNotAvailable => "Username is not available",
            MutationError::EmailInUse => "Email address already in use",
        }
    }
}

/// Each error has this text for clients.
pub proof fn law_errors_have_these_texts()
    ensures
        MutationError::Unauthorized.text() == "Unauthorized"@,
        MutationError::CrossSigningResetFailed.text() == "Failed to allow cross-signing reset"@,
        MutationError::CurrentPasswordRequired.text()
            == "You must supply `currentPassword` to change your own password if you are not an administrator"@,
        MutationError::RecoveryIsForAnonymousUsers.text()
            == "Account recovery is only for anonymous users."@,
        MutationError::UnknownRecoverySession.text() == "Unknown session"@,
        MutationError::UnknownEmailAddress.text() == "Unknown email address"@,
        MutationError::InvalidUser.text() == "Invalid user"@,
        MutationError::CouldNotLoadRecoverySession.text() == "Could not load recovery session"@,
        MutationError::DeactivationNotAllowed.text()
            == "Account deactivation is not allowed on this server"@,
        MutationError::AlreadyAuthenticated.text() == "Already authenticated"@,
        MutationError::RegistrationDisabled.text() == "Password registration is disabled"@,
        MutationError::TokenNotFound.text() == "Token not found"@,
        MutationError::InvalidSessionId.text() == "Invalid session ID"@,
        MutationError::RegistrationNotFound.text() == "Registration session not found"@,
        MutationError::RegistrationCompleted.text() == "Registration already completed"@,
        MutationError::RegistrationExpired.text() == "Registration session has expired"@,
        MutationError::EmailAuthenticationNotFound.text() == "Email authentication not found"@,
        MutationError::EmailAuthMissing.text() == "Email auth missing"@,
        MutationError::EmailAuthNotFound.text() == "Email auth not found"@,
        MutationError::UsernameTaken.text() == "Username is already taken"@,
        MutationError::UsernameNotAvailable.text() == "Username is not available"@,
        MutationError::EmailInUse.text() == "Email address already in use"@,
{
}

} // verus!
