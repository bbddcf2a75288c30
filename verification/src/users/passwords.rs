//! Setting passwords, with the current one or by recovery.

use crate::users::model::HashedPassword;
use crate::users::model::RecoverySession;
use crate::users::model::RecoveryTicket;
use crate::users::model::User;
use crate::users::model::UserEmail;
use crate::users::MutationError;
use crate::users::Next;
use crate::users::UserMutations;
use vstd::prelude::*;

verus! {

/// What the site has configured about passwords.
#[derive(Debug, Clone, Copy, PartialEq, Eq, Structural)]
pub struct PasswordSettings {
    /// Whether there are passwords at all.
    pub passwords_enabled: bool,
    pub password_change_allowed: bool,
    pub account_recovery_allowed: bool,
}

/// The input for the `setPassword` mutation.
#[derive(Debug)]
pub struct SetPasswordInput {
    /// The ID of the user to set the password for.
    /// If you are not a server administrator then this must be your own user
    /// ID.
    pub user_id: String,
    /// The current password of the user.
    /// Required if you are not a server administrator.
    pub current_password: Option<String>,
    /// The new password for the user.
    pub new_password: String,
}

/// The input for the `setPasswordByRecovery` mutation.
#[derive(Debug)]
pub struct SetPasswordByRecoveryInput {
    /// The recovery ticket to use.
    /// This identifies the user as well as proving authorisation to perform the
    /// recovery operation.
    pub ticket: String,
    /// The new password for the user.
    pub new_password: String,
}

/// The status of the `setPassword` mutation.
#[derive(Debug, Clone, Copy, PartialEq, Eq, Structural)]
pub enum SetPasswordStatus {
    /// The password was updated.
    Allowed,
    /// The user was not found.
    NotFound,
    /// The user doesn't have a current password to attempt to match against.
    NoCurrentPassword,
    /// The supplied current password was wrong.
    WrongPassword,
    /// The new password is invalid. For example, it may not meet configured
    /// security requirements.
    InvalidNewPassword,
    /// You aren't allowed to set the password for that user.
    /// This happens if you aren't setting your own password and you aren't a
    /// server administrator.
    NotAllowed,
    /// Password support has been disabled.
    /// This usually means that login is handled by an upstream identity
    /// provider.
    PasswordChangesDisabled,
    /// The specified recovery ticket does not exist.
    NoSuchRecoveryTicket,
    /// The specified recovery ticket has already been used and cannot be used
    /// again.
    RecoveryTicketAlreadyUsed,
    /// The specified recovery ticket has expired.
    ExpiredRecoveryTicket,
    /// Your account is locked and you can't change its password.
    AccountLocked,
}

/// The return type for the `setPassword` mutation.
#[derive(Debug, PartialEq, Eq, Structural)]
pub struct SetPasswordPayload {
    pub status: SetPasswordStatus,
}

impl SetPasswordPayload {
    /// Status of the operation
    pub fn status(&self) -> (r: SetPasswordStatus)
        ensures
            r == self.status,
    {
        self.status
    }
}

/// What setting a password asks for, or has done.
#[derive(Debug, PartialEq, Eq)]
pub enum SetPasswordAsk<'a> {
    /// The identifier in this node ID of a user.
    ExtractUserId(&'a String),
    /// Whether the requester is this user or an administrator.
    IsOwnerOrAdmin(u128),
    /// Whether this password meets the requirements.
    IsComplexEnough(&'a String),
    /// Open the repository; nothing is kept until it is saved.
    OpenRepository,
    LookupUser(u128),
    ActivePassword(&'a User),
    /// Whether the attempt is the password that is stored.
    VerifyPassword { attempt: &'a String, active: &'a HashedPassword },
    HashPassword(&'a String),
    StorePassword { user: &'a User, password: &'a HashedPassword },
    Save,
}

/// The answers that setting a password has had so far.
#[derive(Debug)]
pub struct SetPasswordAnswers {
    pub user_id: Option<u128>,
    pub owner_or_admin: Option<bool>,
    pub complex_enough: Option<bool>,
    pub repository_open: bool,
    pub user: Option<Option<User>>,
    pub active_password: Option<Option<HashedPassword>>,
    pub current_password_matches: Option<bool>,
    pub hashed: Option<HashedPassword>,
    pub stored: bool,
    pub saved: bool,
}

impl SetPasswordAnswers {
    /// No answer yet.
    pub fn new() -> (r: Self)
        ensures
            r.user_id is None,
            r.owner_or_admin is None,
            r.complex_enough is None,
            !r.repository_open,
            r.user is None,
            r.active_password is None,
            r.current_password_matches is None,
            r.hashed is None,
            !r.stored,
            !r.saved,
    {
        SetPasswordAnswers {
            user_id: None,
            owner_or_admin: None,
            complex_enough: None,
            repository_open: false,
            user: None,
            active_password: None,
            current_password_matches: None,
            hashed: None,
            stored: false,
            saved: false,
        }
    }
}

/// The outcome of setting a password.
pub open spec fn password_outcome<A>(status: SetPasswordStatus) -> Next<A, SetPasswordPayload> {
    Next::Done(Ok(SetPasswordPayload { status }))
}

/// What is asked of someone who is no administrator: that password changes are
/// allowed, and that they know the current password. `None` once they do.
pub open spec fn current_password_next<'a>(
    settings: PasswordSettings,
    input: &'a SetPasswordInput,
    user: &'a User,
    known: &'a SetPasswordAnswers,
) -> Option<Next<SetPasswordAsk<'a>, SetPasswordPayload>> {
    if !settings.password_change_allowed {
        Some(password_outcome(SetPasswordStatus::PasswordChangesDisabled))
    } else if known.active_password is None {
        Some(Next::Ask(SetPasswordAsk::ActivePassword(user)))
    } else if known.active_password->0 is None {
        Some(password_outcome(SetPasswordStatus::NoCurrentPassword))
    } else if input.current_password is None {
        Some(Next::Done(Err(MutationError::CurrentPasswordRequired)))
    } else if known.current_password_matches is None {
        Some(
            Next::Ask(
                SetPasswordAsk::VerifyPassword {
                    attempt: &input.current_password->0,
                    active: &known.active_password->0->0,
                },
            ),
        )
    } else if known.current_password_matches == Some(false) {
        Some(password_outcome(SetPasswordStatus::WrongPassword))
    } else {
        None
    }
}

/// What is left to do once the new password may be set.
pub open spec fn store_password_next<'a>(
    input: &'a SetPasswordInput,
    user: &'a User,
    known: &'a SetPasswordAnswers,
) -> Next<SetPasswordAsk<'a>, SetPasswordPayload> {
    if known.hashed is None {
        Next::Ask(SetPasswordAsk::HashPassword(&input.new_password))
    } else if !known.stored {
        Next::Ask(SetPasswordAsk::StorePassword { user, password: &known.hashed->0 })
    } else if !known.saved {
        Next::Ask(SetPasswordAsk::Save)
    } else {
        password_outcome(SetPasswordStatus::Allowed)
    }
}

/// The next thing that setting a password asks for, or its outcome.
pub open spec fn set_password_next<'a>(
    admin: bool,
    settings: PasswordSettings,
    input: &'a SetPasswordInput,
    known: &'a SetPasswordAnswers,
) -> Next<SetPasswordAsk<'a>, SetPasswordPayload> {
    if known.user_id is None {
        Next::Ask(SetPasswordAsk::ExtractUserId(&input.user_id))
    } else if known.owner_or_admin is None {
        Next::Ask(SetPasswordAsk::IsOwnerOrAdmin(known.user_id->0))
    } else if known.owner_or_admin == Some(false) {
        password_outcome(SetPasswordStatus::NotAllowed)
    } else if input.new_password@.len() == 0 {
        password_outcome(SetPasswordStatus::InvalidNewPassword)
    } else if !settings.passwords_enabled {
        password_outcome(SetPasswordStatus::PasswordChangesDisabled)
    } else if known.complex_enough is None {
        Next::Ask(SetPasswordAsk::IsComplexEnough(&input.new_password))
    } else if known.complex_enough == Some(false) {
        password_outcome(SetPasswordStatus::InvalidNewPassword)
    } else if !known.repository_open {
        Next::Ask(SetPasswordAsk::OpenRepository)
    } else if known.user is None {
        Next::Ask(SetPasswordAsk::LookupUser(known.user_id->0))
    } else if known.user->0 is None {
        password_outcome(SetPasswordStatus::NotFound)
    } else {
        let user = &known.user->0->0;
        let current = if admin {
            None
        } else {
            current_password_next(settings, input, user, known)
        };
        match current {
            Some(next) => next,
            None => store_password_next(input, user, known),
        }
    }
}

fn password_status<A>(status: SetPasswordStatus) -> (r: Next<A, SetPasswordPayload>)
    ensures
        r == password_outcome::<A>(status),
{
    Next::Done(Ok(SetPasswordPayload { status }))
}

fn check_current_password<'a>(
    settings: &PasswordSettings,
    input: &'a SetPasswordInput,
    user: &'a User,
    known: &'a SetPasswordAnswers,
) -> (r: Option<Next<SetPasswordAsk<'a>, SetPasswordPayload>>)
    ensures
        r == current_password_next(*settings, input, user, known),
{
    if !settings.password_change_allowed {
        return Some(password_status(SetPasswordStatus::PasswordChangesDisabled));
    }
    let active = match &known.active_password {
        None => {
            return Some(Next::Ask(SetPasswordAsk::ActivePassword(user)));
        },
        Some(None) => {
            // The user has no current password, so can't verify against one.
            return Some(password_status(SetPasswordStatus::NoCurrentPassword));
        },
        Some(Some(active)) => active,
    };
    let attempt = match &input.current_password {
        None => {
            return Some(Next::Done(Err(MutationError::CurrentPasswordRequired)));
        },
        Some(attempt) => attempt,
    };
    match known.current_password_matches {
        None => Some(Next::Ask(SetPasswordAsk::VerifyPassword { attempt, active })),
        Some(false) => Some(password_status(SetPasswordStatus::WrongPassword)),
        Some(true) => None,
    }
}

impl UserMutations {
    /// Set the password for a user.
    ///
    /// This can be used by server administrators to set any user's password,
    /// or, provided the capability hasn't been disabled on this server,
    /// by a user to change their own password as long as they know their
    /// current password.
    pub fn set_password<'a>(
        &self,
        admin: bool,
        settings: &PasswordSettings,
        input: &'a SetPasswordInput,
        known: &'a SetPasswordAnswers,
    ) -> (r: Next<SetPasswordAsk<'a>, SetPasswordPayload>)
        ensures
            r == set_password_next(admin, *settings, input, known),
    {
        let user_id = match known.user_id {
            None => {
                return Next::Ask(SetPasswordAsk::ExtractUserId(&input.user_id));
            },
            Some(id) => id,
        };
        match known.owner_or_admin {
            None => {
                return Next::Ask(SetPasswordAsk::IsOwnerOrAdmin(user_id));
            },
            Some(false) => {
                return password_status(SetPasswordStatus::NotAllowed);
            },
            Some(true) => {},
        }
        if input.new_password.as_str().is_empty() {
            return password_status(SetPasswordStatus::InvalidNewPassword);
        }
        if !settings.passwords_enabled {
            return password_status(SetPasswordStatus::PasswordChangesDisabled);
        }
        match known.complex_enough {
            None => {
                return Next::Ask(SetPasswordAsk::IsComplexEnough(&input.new_password));
            },
            Some(false) => {
                return password_status(SetPasswordStatus::InvalidNewPassword);
            },
            Some(true) => {},
        }
        if !known.repository_open {
            return Next::Ask(SetPasswordAsk::OpenRepository);
        }
        let user = match &known.user {
            None => {
                return Next::Ask(SetPasswordAsk::LookupUser(user_id));
            },
            Some(None) => {
                return password_status(SetPasswordStatus::NotFound);
            },
            Some(Some(user)) => user,
        };
        if !admin {
            // If the user isn't an admin, we:
            // - check that password changes are enabled
            // - check that they know their current password
            if let Some(next) = check_current_password(settings, input, user, known) {
                return next;
            }
        }
        match &known.hashed {
            None => Next::Ask(SetPasswordAsk::HashPassword(&input.new_password)),
            Some(password) => {
                if !known.stored {
                    return Next::Ask(SetPasswordAsk::StorePassword { user, password });
                }
                if !known.saved {
                    return Next::Ask(SetPasswordAsk::Save);
                }
                password_status(SetPasswordStatus::Allowed)
            },
        }
    }
}

/// Whether a password may be changed: by an administrator, or by the user, who proved
/// to know the current one on a site that allows the change; and only to one that meets
/// the requirements.
pub open spec fn may_change<'a>(
    admin: bool,
    settings: PasswordSettings,
    input: &'a SetPasswordInput,
    known: &'a SetPasswordAnswers,
) -> bool {
    &&& (known.owner_or_admin matches Some(true))
    &&& settings.passwords_enabled
    &&& input.new_password@.len() > 0
    &&& (known.complex_enough matches Some(true))
    &&& admin || {
        &&& settings.password_change_allowed
        &&& input.current_password is Some
        &&& (known.current_password_matches matches Some(true))
    }
}

/// Who is neither the user nor an administrator gets the status `NotAllowed`, and
/// nobody else does.
pub proof fn law_others_are_not_allowed<'a>(
    admin: bool,
    settings: PasswordSettings,
    input: &'a SetPasswordInput,
    known: &'a SetPasswordAnswers,
)
    ensures
        known.user_id is Some && (known.owner_or_admin matches Some(false)) <==> set_password_next(
            admin,
            settings,
            input,
            known,
        ) == password_outcome::<SetPasswordAsk<'a>>(SetPasswordStatus::NotAllowed),
{
}

/// A password is stored only where it may be changed, and for the user that was asked
/// for. What is stored is the hash of the new password.
pub proof fn law_passwords_are_changed_by_who_may<'a>(
    admin: bool,
    settings: PasswordSettings,
    input: &'a SetPasswordInput,
    known: &'a SetPasswordAnswers,
)
    ensures
        set_password_next(admin, settings, input, known) matches Next::Ask(
            SetPasswordAsk::StorePassword { user, password },
        ) ==> {
            &&& may_change(admin, settings, input, known)
            &&& known.user == Some(Some(*user))
            &&& known.hashed == Some(*password)
        },
        set_password_next(admin, settings, input, known) matches Next::Ask(SetPasswordAsk::Save)
            ==> may_change(admin, settings, input, known) && known.stored,
        set_password_next(admin, settings, input, known) matches Next::Ask(
            SetPasswordAsk::HashPassword(password),
        ) ==> *password == input.new_password,
{
}

/// The answer `Allowed` comes only once the new password is stored and saved.
pub proof fn law_allowed_passwords_are_saved<'a>(
    admin: bool,
    settings: PasswordSettings,
    input: &'a SetPasswordInput,
    known: &'a SetPasswordAnswers,
)
    ensures
        set_password_next(admin, settings, input, known) == password_outcome::<SetPasswordAsk<'a>>(
            SetPasswordStatus::Allowed,
        ) ==> known.stored && known.saved && known.hashed is Some && (admin
            || known.current_password_matches == Some(true)),
{
}

/// What setting a password by recovery asks for, or has done.
#[derive(Debug, PartialEq, Eq)]
pub enum PasswordRecoveryAsk<'a> {
    /// Whether this password meets the requirements.
    IsComplexEnough(&'a String),
    /// Open the repository; nothing is kept until it is saved.
    OpenRepository,
    FindTicket(&'a String),
    LookupSession(u128),
    /// Whether the ticket has not expired.
    IsTicketActive(&'a RecoveryTicket),
    LookupEmail(u128),
    LookupUser(u128),
    HashPassword(&'a String),
    StorePassword { user: &'a User, password: &'a HashedPassword },
    /// Mark the ticket and its session as used.
    ConsumeTicket { ticket: &'a RecoveryTicket, session: &'a RecoverySession },
    Save,
}

/// The answers that setting a password by recovery has had so far.
#[derive(Debug)]
pub struct PasswordRecoveryAnswers {
    pub complex_enough: Option<bool>,
    pub repository_open: bool,
    pub ticket: Option<Option<RecoveryTicket>>,
    pub session: Option<Option<RecoverySession>>,
    pub ticket_active: Option<bool>,
    pub email: Option<Option<UserEmail>>,
    pub user: Option<Option<User>>,
    pub hashed: Option<HashedPassword>,
    pub stored: bool,
    pub consumed: bool,
    pub saved: bool,
}

impl PasswordRecoveryAnswers {
    /// No answer yet.
    pub fn new() -> (r: Self)
        ensures
            r.complex_enough is None,
            !r.repository_open,
            r.ticket is None,
            r.session is None,
            r.ticket_active is None,
            r.email is None,
            r.user is None,
            r.hashed is None,
            !r.stored,
            !r.consumed,
            !r.saved,
    {
        PasswordRecoveryAnswers {
            complex_enough: None,
            repository_open: false,
            ticket: None,
            session: None,
            ticket_active: None,
            email: None,
            user: None,
            hashed: None,
            stored: false,
            consumed: false,
            saved: false,
        }
    }
}

/// The next thing that setting a password by recovery asks for, or its outcome.
pub open spec fn password_recovery_next<'a>(
    unauthenticated: bool,
    settings: PasswordSettings,
    input: &'a SetPasswordByRecoveryInput,
    known: &'a PasswordRecoveryAnswers,
) -> Next<PasswordRecoveryAsk<'a>, SetPasswordPayload> {
    if !unauthenticated {
        Next::Done(Err(MutationError::RecoveryIsForAnonymousUsers))
    } else if !settings.passwords_enabled || !settings.account_recovery_allowed {
        password_outcome(SetPasswordStatus::PasswordChangesDisabled)
    } else if known.complex_enough is None {
        Next::Ask(PasswordRecoveryAsk::IsComplexEnough(&input.new_password))
    } else if known.complex_enough == Some(false) {
        password_outcome(SetPasswordStatus::InvalidNewPassword)
    } else if !known.repository_open {
        Next::Ask(PasswordRecoveryAsk::OpenRepository)
    } else if known.ticket is None {
        Next::Ask(PasswordRecoveryAsk::FindTicket(&input.ticket))
    } else if known.ticket->0 is None {
        password_outcome(SetPasswordStatus::NoSuchRecoveryTicket)
    } else if known.session is None {
        Next::Ask(
            PasswordRecoveryAsk::LookupSession(known.ticket->0->0.user_recovery_session_id),
        )
    } else if known.session->0 is None {
        Next::Done(Err(MutationError::UnknownRecoverySession))
    } else if known.session->0->0.consumed_at is Some {
        password_outcome(SetPasswordStatus::RecoveryTicketAlreadyUsed)
    } else if known.ticket_active is None {
        Next::Ask(PasswordRecoveryAsk::IsTicketActive(&known.ticket->0->0))
    } else if known.ticket_active == Some(false) {
        password_outcome(SetPasswordStatus::ExpiredRecoveryTicket)
    } else if known.email is None {
        Next::Ask(PasswordRecoveryAsk::LookupEmail(known.ticket->0->0.user_email_id))
    } else if known.email->0 is None {
        Next::Done(Err(MutationError::UnknownEmailAddress))
    } else if known.user is None {
        Next::Ask(PasswordRecoveryAsk::LookupUser(known.email->0->0.user_id))
    } else if known.user->0 is None {
        Next::Done(Err(MutationError::InvalidUser))
    } else if !known.user->0->0.valid {
        password_outcome(SetPasswordStatus::AccountLocked)
    } else if known.hashed is None {
        Next::Ask(PasswordRecoveryAsk::HashPassword(&input.new_password))
    } else if !known.stored {
        Next::Ask(
            PasswordRecoveryAsk::StorePassword {
                user: &known.user->0->0,
                password: &known.hashed->0,
            },
        )
    } else if !known.consumed {
        Next::Ask(
            PasswordRecoveryAsk::ConsumeTicket {
                ticket: &known.ticket->0->0,
                session: &known.session->0->0,
            },
        )
    } else if !known.saved {
        Next::Ask(PasswordRecoveryAsk::Save)
    } else {
        password_outcome(SetPasswordStatus::Allowed)
    }
}

impl UserMutations {
    /// Set the password for yourself, using a recovery ticket sent by e-mail.
    pub fn set_password_by_recovery<'a>(
        &self,
        unauthenticated: bool,
        settings: &PasswordSettings,
        input: &'a SetPasswordByRecoveryInput,
        known: &'a PasswordRecoveryAnswers,
    ) -> (r: Next<PasswordRecoveryAsk<'a>, SetPasswordPayload>)
        ensures
            r == password_recovery_next(unauthenticated, *settings, input, known),
    {
        if !unauthenticated {
            return Next::Done(Err(MutationError::RecoveryIsForAnonymousUsers));
        }
        if !settings.passwords_enabled || !settings.account_recovery_allowed {
            return password_status(SetPasswordStatus::PasswordChangesDisabled);
        }
        match known.complex_enough {
            None => {
                return Next::Ask(PasswordRecoveryAsk::IsComplexEnough(&input.new_password));
            },
            Some(false) => {
                return password_status(SetPasswordStatus::InvalidNewPassword);
            },
            Some(true) => {},
        }
        if !known.repository_open {
            return Next::Ask(PasswordRecoveryAsk::OpenRepository);
        }
        let ticket = match &known.ticket {
            None => {
                return Next::Ask(PasswordRecoveryAsk::FindTicket(&input.ticket));
            },
            Some(None) => {
                return password_status(SetPasswordStatus::NoSuchRecoveryTicket);
            },
            Some(Some(ticket)) => ticket,
        };
        let session = match &known.session {
            None => {
                return Next::Ask(
                    PasswordRecoveryAsk::LookupSession(ticket.user_recovery_session_id),
                );
            },
            Some(None) => {
                return Next::Done(Err(MutationError::UnknownRecoverySession));
            },
            Some(Some(session)) => session,
        };
        if session.consumed_at.is_some() {
            return password_status(SetPasswordStatus::RecoveryTicketAlreadyUsed);
        }
        match known.ticket_active {
            None => {
                return Next::Ask(PasswordRecoveryAsk::IsTicketActive(ticket));
            },
            Some(false) => {
                return password_status(SetPasswordStatus::ExpiredRecoveryTicket);
            },
            Some(true) => {},
        }
        let email = match &known.email {
            None => {
                return Next::Ask(PasswordRecoveryAsk::LookupEmail(ticket.user_email_id));
            },
            Some(None) => {
                return Next::Done(Err(MutationError::UnknownEmailAddress));
            },
            Some(Some(email)) => email,
        };
        let user = match &known.user {
            None => {
                return Next::Ask(PasswordRecoveryAsk::LookupUser(email.user_id));
            },
            Some(None) => {
                return Next::Done(Err(MutationError::InvalidUser));
            },
            Some(Some(user)) => user,
        };
        if !user.valid {
            return password_status(SetPasswordStatus::AccountLocked);
        }
        match &known.hashed {
            None => Next::Ask(PasswordRecoveryAsk::HashPassword(&input.new_password)),
            Some(password) => {
                if !known.stored {
                    return Next::Ask(PasswordRecoveryAsk::StorePassword { user, password });
                }
                // Mark the session as consumed
                if !known.consumed {
                    return Next::Ask(PasswordRecoveryAsk::ConsumeTicket { ticket, session });
                }
                if !known.saved {
                    return Next::Ask(PasswordRecoveryAsk::Save);
                }
                password_status(SetPasswordStatus::Allowed)
            },
        }
    }
}

/// Whether a password may be recovered: with a ticket that has not expired, whose
/// session was not used before, for an account that is not locked.
pub open spec fn may_recover<'a>(
    unauthenticated: bool,
    settings: PasswordSettings,
    known: &'a PasswordRecoveryAnswers,
) -> bool {
    &&& unauthenticated
    &&& settings.passwords_enabled
    &&& settings.account_recovery_allowed
    &&& (known.complex_enough matches Some(true))
    &&& known.ticket matches Some(Some(_))
    &&& (known.ticket_active matches Some(true))
    &&& (known.session matches Some(Some(session)) && session.consumed_at is None)
    &&& (known.user matches Some(Some(user)) && user.valid)
}

/// A password is stored, and a ticket consumed, only where the password may be
/// recovered.
pub proof fn law_recovery_needs_a_live_unused_ticket<'a>(
    unauthenticated: bool,
    settings: PasswordSettings,
    input: &'a SetPasswordByRecoveryInput,
    known: &'a PasswordRecoveryAnswers,
)
    ensures
        password_recovery_next(unauthenticated, settings, input, known) matches Next::Ask(
            PasswordRecoveryAsk::StorePassword { user, password },
        ) ==> {
            &&& may_recover(unauthenticated, settings, known)
            &&& known.user == Some(Some(*user))
            &&& known.hashed == Some(*password)
        },
        password_recovery_next(unauthenticated, settings, input, known) matches Next::Ask(
            PasswordRecoveryAsk::ConsumeTicket { ticket, session },
        ) ==> {
            &&& may_recover(unauthenticated, settings, known)
            &&& known.ticket == Some(Some(*ticket))
            &&& known.session == Some(Some(*session))
        },
        password_recovery_next(unauthenticated, settings, input, known) matches Next::Ask(
            PasswordRecoveryAsk::Save,
        ) ==> may_recover(unauthenticated, settings, known),
{
}

/// A ticket that set a password is consumed in the same save: the answer `Allowed` comes
/// only once both are done and saved, and a session that is marked as used is answered with
/// `RecoveryTicketAlreadyUsed`.
pub proof fn law_tickets_are_used_once<'a>(
    unauthenticated: bool,
    settings: PasswordSettings,
    input: &'a SetPasswordByRecoveryInput,
    known: &'a PasswordRecoveryAnswers,
)
    ensures
        password_recovery_next(unauthenticated, settings, input, known) == password_outcome::<
            PasswordRecoveryAsk<'a>,
        >(SetPasswordStatus::Allowed) ==> known.stored && known.consumed && known.saved,
        password_recovery_next(unauthenticated, settings, input, known) == Next::<
            PasswordRecoveryAsk<'a>,
            SetPasswordPayload,
        >::Ask(PasswordRecoveryAsk::Save) ==> known.stored && known.consumed,
        unauthenticated && settings.passwords_enabled && settings.account_recovery_allowed
            && known.complex_enough == Some(true) && known.repository_open && (
        known.ticket matches Some(Some(_))) && (known.session matches Some(Some(session))
            && session.consumed_at is Some) ==> password_recovery_next(
            unauthenticated,
            settings,
            input,
            known,
        ) == password_outcome::<PasswordRecoveryAsk<'a>>(
            SetPasswordStatus::RecoveryTicketAlreadyUsed,
        ),
{
}

/// The input for the `resendRecoveryEmail` mutation.
#[derive(Debug)]
pub struct ResendRecoveryEmailInput {
    /// The recovery ticket to use.
    pub ticket: String,
}

/// The return type for the `resendRecoveryEmail` mutation.
#[derive(Debug, PartialEq, Eq, Structural)]
pub enum ResendRecoveryEmailPayload {
    NoSuchRecoveryTicket,
    RateLimited,
    Sent { recovery_session_id: u128 },
}

/// The status of the `resendRecoveryEmail` mutation.
#[derive(Debug, Clone, Copy, PartialEq, Eq, Structural)]
pub enum ResendRecoveryEmailStatus {
    /// The recovery ticket was not found.
    NoSuchRecoveryTicket,
    /// The rate limit was exceeded.
    RateLimited,
    /// The recovery email was sent.
    Sent,
}

impl ResendRecoveryEmailPayload {
    /// Status of the operation
    pub fn status(&self) -> (r: ResendRecoveryEmailStatus)
        ensures
            self is NoSuchRecoveryTicket <==> r == ResendRecoveryEmailStatus::NoSuchRecoveryTicket,
            self is RateLimited <==> r == ResendRecoveryEmailStatus::RateLimited,
            self is Sent <==> r == ResendRecoveryEmailStatus::Sent,
    {
        match self {
            ResendRecoveryEmailPayload::NoSuchRecoveryTicket =>
            ResendRecoveryEmailStatus::NoSuchRecoveryTicket,
            ResendRecoveryEmailPayload::RateLimited => ResendRecoveryEmailStatus::RateLimited,
            ResendRecoveryEmailPayload::Sent { .. } => ResendRecoveryEmailStatus::Sent,
        }
    }

    /// The session whose page continues the recovery process.
    pub fn progress_session(&self) -> (r: Option<u128>)
        ensures
            r == match *self {
                ResendRecoveryEmailPayload::Sent { recovery_session_id } => Some(
                    recovery_session_id,
                ),
                _ => None,
            },
    {
        match self {
            ResendRecoveryEmailPayload::NoSuchRecoveryTicket => None,
            ResendRecoveryEmailPayload::RateLimited => None,
            ResendRecoveryEmailPayload::Sent { recovery_session_id } => Some(*recovery_session_id),
        }
    }
}

/// What resending a recovery e-mail asks for, or has done.
#[derive(Debug, PartialEq, Eq)]
pub enum ResendRecoveryAsk<'a> {
    /// Open the repository; nothing is kept until it is saved.
    OpenRepository,
    FindTicket(&'a String),
    LookupSession(u128),
    /// Whether the requester may have a recovery e-mail sent to this address now.
    CheckLimit(&'a String),
    ScheduleEmails(&'a RecoverySession),
    Save,
}

/// The answers that resending a recovery e-mail has had so far.
#[derive(Debug)]
pub struct ResendRecoveryAnswers {
    pub repository_open: bool,
    pub ticket: Option<Option<RecoveryTicket>>,
    pub session: Option<Option<RecoverySession>>,
    pub within_limit: Option<bool>,
    pub emails_scheduled: bool,
    pub saved: bool,
}

impl ResendRecoveryAnswers {
    /// No answer yet.
    pub fn new() -> (r: Self)
        ensures
            !r.repository_open,
            r.ticket is None,
            r.session is None,
            r.within_limit is None,
            !r.emails_scheduled,
            !r.saved,
    {
        ResendRecoveryAnswers {
            repository_open: false,
            ticket: None,
            session: None,
            within_limit: None,
            emails_scheduled: false,
            saved: false,
        }
    }
}

/// The next thing that resending a recovery e-mail asks for, or its outcome.
pub open spec fn resend_recovery_next<'a>(
    input: &'a ResendRecoveryEmailInput,
    known: &'a ResendRecoveryAnswers,
) -> Next<ResendRecoveryAsk<'a>, ResendRecoveryEmailPayload> {
    if !known.repository_open {
        Next::Ask(ResendRecoveryAsk::OpenRepository)
    } else if known.ticket is None {
        Next::Ask(ResendRecoveryAsk::FindTicket(&input.ticket))
    } else if known.ticket->0 is None {
        Next::Done(Ok(ResendRecoveryEmailPayload::NoSuchRecoveryTicket))
    } else if known.session is None {
        Next::Ask(ResendRecoveryAsk::LookupSession(known.ticket->0->0.user_recovery_session_id))
    } else if known.session->0 is None {
        Next::Done(Err(MutationError::CouldNotLoadRecoverySession))
    } else if known.within_limit is None {
        Next::Ask(ResendRecoveryAsk::CheckLimit(&known.session->0->0.email))
    } else if known.within_limit == Some(false) {
        Next::Done(Ok(ResendRecoveryEmailPayload::RateLimited))
    } else if !known.emails_scheduled {
        Next::Ask(ResendRecoveryAsk::ScheduleEmails(&known.session->0->0))
    } else if !known.saved {
        Next::Ask(ResendRecoveryAsk::Save)
    } else {
        Next::Done(
            Ok(
                ResendRecoveryEmailPayload::Sent {
                    recovery_session_id: known.session->0->0.id,
                },
            ),
        )
    }
}

impl UserMutations {
    /// Resend a user recovery email
    ///
    /// This is used when a user opens a recovery link that has expired. In this
    /// case, we display a link for them to get a new recovery email, which
    /// calls this mutation.
    pub fn resend_recovery_email<'a>(
        &self,
        input: &'a ResendRecoveryEmailInput,
        known: &'a ResendRecoveryAnswers,
    ) -> (r: Next<ResendRecoveryAsk<'a>, ResendRecoveryEmailPayload>)
        ensures
            r == resend_recovery_next(input, known),
    {
        if !known.repository_open {
            return Next::Ask(ResendRecoveryAsk::OpenRepository);
        }
        let ticket = match &known.ticket {
            None => {
                return Next::Ask(ResendRecoveryAsk::FindTicket(&input.ticket));
            },
            Some(None) => {
                return Next::Done(Ok(ResendRecoveryEmailPayload::NoSuchRecoveryTicket));
            },
            Some(Some(ticket)) => ticket,
        };
        let session = match &known.session {
            None => {
                return Next::Ask(
                    ResendRecoveryAsk::LookupSession(ticket.user_recovery_session_id),
                );
            },
            Some(None) => {
                return Next::Done(Err(MutationError::CouldNotLoadRecoverySession));
            },
            Some(Some(session)) => session,
        };
        match known.within_limit {
            None => {
                return Next::Ask(ResendRecoveryAsk::CheckLimit(&session.email));
            },
            Some(false) => {
                return Next::Done(Ok(ResendRecoveryEmailPayload::RateLimited));
            },
            Some(true) => {},
        }
        // Schedule a new batch of emails
        if !known.emails_scheduled {
            return Next::Ask(ResendRecoveryAsk::ScheduleEmails(session));
        }
        if !known.saved {
            return Next::Ask(ResendRecoveryAsk::Save);
        }
        Next::Done(Ok(ResendRecoveryEmailPayload::Sent { recovery_session_id: session.id }))
    }
}

/// No recovery e-mail goes out past the limit, and the answer `Sent` comes only once
/// the e-mails of the ticket's session are scheduled and saved.
pub proof fn law_recovery_emails_keep_the_limit<'a>(
    input: &'a ResendRecoveryEmailInput,
    known: &'a ResendRecoveryAnswers,
)
    ensures
        resend_recovery_next(input, known) matches Next::Ask(
            ResendRecoveryAsk::ScheduleEmails(session),
        ) ==> known.within_limit == Some(true) && known.session == Some(Some(*session)),
        resend_recovery_next(input, known) matches Next::Done(
            Ok(ResendRecoveryEmailPayload::Sent { recovery_session_id }),
        ) ==> known.within_limit == Some(true) && known.emails_scheduled && known.saved && (
        known.session matches Some(Some(session)) && session.id == recovery_session_id),
{
}

impl<'a> SetPasswordAsk<'a> {
    /// Whether the answers hold the answer to this.
    pub open spec fn answered_in(self, known: SetPasswordAnswers) -> bool {
        match self {
            SetPasswordAsk::ExtractUserId(_) => known.user_id is Some,
            SetPasswordAsk::IsOwnerOrAdmin(_) => known.owner_or_admin is Some,
            SetPasswordAsk::IsComplexEnough(_) => known.complex_enough is Some,
            SetPasswordAsk::OpenRepository => known.repository_open,
            SetPasswordAsk::LookupUser(_) => known.user is Some,
            SetPasswordAsk::ActivePassword(_) => known.active_password is Some,
            SetPasswordAsk::VerifyPassword { .. } => known.current_password_matches is Some,
            SetPasswordAsk::HashPassword(_) => known.hashed is Some,
            SetPasswordAsk::StorePassword { .. } => known.stored,
            SetPasswordAsk::Save => known.saved,
        }
    }
}

/// Only what has no answer yet is asked for, so nothing is done twice.
pub proof fn law_setting_asks_for_the_missing<'a>(
    admin: bool,
    settings: PasswordSettings,
    input: &'a SetPasswordInput,
    known: &'a SetPasswordAnswers,
)
    ensures
        set_password_next(admin, settings, input, known) matches Next::Ask(ask)
            ==> !ask.answered_in(*known),
{
}

impl<'a> PasswordRecoveryAsk<'a> {
    /// Whether the answers hold the answer to this.
    pub open spec fn answered_in(self, known: PasswordRecoveryAnswers) -> bool {
        match self {
            PasswordRecoveryAsk::IsComplexEnough(_) => known.complex_enough is Some,
            PasswordRecoveryAsk::OpenRepository => known.repository_open,
            PasswordRecoveryAsk::FindTicket(_) => known.ticket is Some,
            PasswordRecoveryAsk::LookupSession(_) => known.session is Some,
            PasswordRecoveryAsk::IsTicketActive(_) => known.ticket_active is Some,
            PasswordRecoveryAsk::LookupEmail(_) => known.email is Some,
            PasswordRecoveryAsk::LookupUser(_) => known.user is Some,
            PasswordRecoveryAsk::HashPassword(_) => known.hashed is Some,
            PasswordRecoveryAsk::StorePassword { .. } => known.stored,
            PasswordRecoveryAsk::ConsumeTicket { .. } => known.consumed,
            PasswordRecoveryAsk::Save => known.saved,
        }
    }
}

/// Only what has no answer yet is asked for, so nothing is done twice.
pub proof fn law_recovering_asks_for_the_missing<'a>(
    unauthenticated: bool,
    settings: PasswordSettings,
    input: &'a SetPasswordByRecoveryInput,
    known: &'a PasswordRecoveryAnswers,
)
    ensures
        password_recovery_next(unauthenticated, settings, input, known) matches Next::Ask(ask)
            ==> !ask.answered_in(*known),
{
}

impl<'a> ResendRecoveryAsk<'a> {
    /// Whether the answers hold the answer to this.
    pub open spec fn answered_in(self, known: ResendRecoveryAnswers) -> bool {
        match self {
            ResendRecoveryAsk::OpenRepository => known.repository_open,
            ResendRecoveryAsk::FindTicket(_) => known.ticket is Some,
            ResendRecoveryAsk::LookupSession(_) => known.session is Some,
            ResendRecoveryAsk::CheckLimit(_) => known.within_limit is Some,
            ResendRecoveryAsk::ScheduleEmails(_) => known.emails_scheduled,
            ResendRecoveryAsk::Save => known.saved,
        }
    }
}

/// Only what has no answer yet is asked for, so nothing is done twice.
pub proof fn law_resending_asks_for_the_missing<'a>(
    input: &'a ResendRecoveryEmailInput,
    known: &'a ResendRecoveryAnswers,
)
    ensures
        resend_recovery_next(input, known) matches Next::Ask(ask) ==> !ask.answered_in(*known),
{
}

/// Once a new password is saved, the answer is `Allowed`: nothing is saved for a refusal.
pub proof fn law_saving_ends_the_change<'a>(
    admin: bool,
    settings: PasswordSettings,
    input: &'a SetPasswordInput,
    known: &'a SetPasswordAnswers,
    later: &'a SetPasswordAnswers,
)
    requires
        set_password_next(admin, settings, input, known)
            == Next::<SetPasswordAsk<'a>, SetPasswordPayload>::Ask(
            SetPasswordAsk::Save,
        ),
        *later == (SetPasswordAnswers { saved: true, ..*known }),
    ensures
        set_password_next(admin, settings, input, later) == password_outcome::<
            SetPasswordAsk<'a>,
        >(SetPasswordStatus::Allowed),
{
}

/// Once a recovered password is saved, the answer is `Allowed`: nothing is saved for a
/// refusal.
pub proof fn law_saving_ends_the_recovery<'a>(
    unauthenticated: bool,
    settings: PasswordSettings,
    input: &'a SetPasswordByRecoveryInput,
    known: &'a PasswordRecoveryAnswers,
    later: &'a PasswordRecoveryAnswers,
)
    requires
        password_recovery_next(unauthenticated, settings, input, known)
            == Next::<PasswordRecoveryAsk<'a>, SetPasswordPayload>::Ask(
            PasswordRecoveryAsk::Save,
        ),
        *later == (PasswordRecoveryAnswers { saved: true, ..*known }),
    ensures
        password_recovery_next(unauthenticated, settings, input, later) == password_outcome::<
            PasswordRecoveryAsk<'a>,
        >(SetPasswordStatus::Allowed),
{
}

/// Once a recovery e-mail is saved, it counts as sent.
pub proof fn law_saving_ends_resending<'a>(
    input: &'a ResendRecoveryEmailInput,
    known: &'a ResendRecoveryAnswers,
    later: &'a ResendRecoveryAnswers,
)
    requires
        resend_recovery_next(input, known)
            == Next::<ResendRecoveryAsk<'a>, ResendRecoveryEmailPayload>::Ask(
            ResendRecoveryAsk::Save,
        ),
        *later == (ResendRecoveryAnswers { saved: true, ..*known }),
    ensures
        resend_recovery_next(input, later) matches Next::Done(
            Ok(ResendRecoveryEmailPayload::Sent { .. }),
        ),
{
}

/// Setting a password starts with who asks for it and with the new password: nobody but the
/// user and administrators gets further, the password has to be there, there have to be
/// passwords at all, and it has to meet the requirements.
pub proof fn law_setting_checks_who_asks_and_what_for<'a>(
    admin: bool,
    settings: PasswordSettings,
    input: &'a SetPasswordInput,
    known: &'a SetPasswordAnswers,
)
    ensures
        ({
            let next = set_password_next(admin, settings, input, known);
            let may = known.user_id is Some && (known.owner_or_admin matches Some(true));
            let filled = may && input.new_password@.len() > 0;
            let enabled = filled && settings.passwords_enabled;
            &&& known.user_id is None ==> next.asks(SetPasswordAsk::ExtractUserId(&input.user_id))
            &&& known.user_id is Some && known.owner_or_admin is None ==> next.asks(
                SetPasswordAsk::IsOwnerOrAdmin(known.user_id->0),
            )
            &&& known.user_id is Some && (known.owner_or_admin matches Some(false)) ==> next.gives(
                SetPasswordPayload { status: SetPasswordStatus::NotAllowed },
            )
            &&& next.gives(
                SetPasswordPayload { status: SetPasswordStatus::InvalidNewPassword },
            ) <==> may && (input.new_password@.len() == 0 || settings.passwords_enabled && (
            known.complex_enough matches Some(false)))
            &&& filled && !settings.passwords_enabled ==> next.gives(
                SetPasswordPayload { status: SetPasswordStatus::PasswordChangesDisabled },
            )
            &&& enabled && known.complex_enough is None ==> next.asks(
                SetPasswordAsk::IsComplexEnough(&input.new_password),
            )
            &&& enabled && (known.complex_enough matches Some(true)) && !known.repository_open
                ==> next.asks(SetPasswordAsk::OpenRepository)
            &&& enabled && (known.complex_enough matches Some(true)) && known.repository_open
                ==> match &known.user {
                None => next.asks(SetPasswordAsk::LookupUser(known.user_id->0)),
                Some(None) => next.gives(
                    SetPasswordPayload { status: SetPasswordStatus::NotFound },
                ),
                Some(Some(_)) => true,
            }
        }),
{
}

/// Whether the user that a new password is for was found, for someone who may ask for it,
/// and the password is good enough.
pub open spec fn user_is_found<'a>(
    settings: PasswordSettings,
    input: &'a SetPasswordInput,
    known: &'a SetPasswordAnswers,
) -> bool {
    &&& known.user_id is Some
    &&& (known.owner_or_admin matches Some(true))
    &&& input.new_password@.len() > 0
    &&& settings.passwords_enabled
    &&& (known.complex_enough matches Some(true))
    &&& known.repository_open
    &&& (known.user matches Some(Some(_)))
}

/// Who is no administrator has to know the current password, on a site that allows changes:
/// the stored password is looked up, and what was given for the current one is compared with
/// it. Administrators are asked for nothing of the kind.
pub proof fn law_users_prove_the_current_password<'a>(
    settings: PasswordSettings,
    input: &'a SetPasswordInput,
    known: &'a SetPasswordAnswers,
)
    requires
        user_is_found(settings, input, known),
    ensures
        ({
            let next = set_password_next(false, settings, input, known);
            let allowed = settings.password_change_allowed;
            let proved = allowed && (known.active_password matches Some(Some(_)))
                && input.current_password is Some && (
            known.current_password_matches matches Some(true));
            &&& !allowed ==> next.gives(
                SetPasswordPayload { status: SetPasswordStatus::PasswordChangesDisabled },
            )
            &&& allowed && known.active_password is None ==> next.asks(
                SetPasswordAsk::ActivePassword(&known.user->0->0),
            )
            &&& allowed && (known.active_password matches Some(None)) ==> next.gives(
                SetPasswordPayload { status: SetPasswordStatus::NoCurrentPassword },
            )
            &&& allowed && (known.active_password matches Some(Some(_))) ==> match &input.current_password {
                None => next.refuses(MutationError::CurrentPasswordRequired),
                Some(attempt) => match known.current_password_matches {
                    None => next.asks(
                        SetPasswordAsk::VerifyPassword {
                            attempt,
                            active: &known.active_password->0->0,
                        },
                    ),
                    Some(false) => next.gives(
                        SetPasswordPayload { status: SetPasswordStatus::WrongPassword },
                    ),
                    Some(true) => true,
                },
            }
            &&& proved ==> next == set_password_next(true, settings, input, known)
        }),
{
}

/// Once the password may be set, the new one is hashed, the hash is stored for the user, all
/// is saved, and the answer is `Allowed`.
pub proof fn law_setting_goes_step_by_step<'a>(
    settings: PasswordSettings,
    input: &'a SetPasswordInput,
    known: &'a SetPasswordAnswers,
)
    requires
        user_is_found(settings, input, known),
    ensures
        ({
            let next = set_password_next(true, settings, input, known);
            match &known.hashed {
                None => next.asks(SetPasswordAsk::HashPassword(&input.new_password)),
                Some(password) => if !known.stored {
                    next.asks(
                        SetPasswordAsk::StorePassword { user: &known.user->0->0, password },
                    )
                } else if !known.saved {
                    next.asks(SetPasswordAsk::Save)
                } else {
                    next.gives(SetPasswordPayload { status: SetPasswordStatus::Allowed })
                },
            }
        }),
{
}

/// Recovery is for anonymous users, on a site that has passwords and allows it, and for a
/// password that meets the requirements.
pub proof fn law_recovering_checks_who_asks_and_what_for<'a>(
    unauthenticated: bool,
    settings: PasswordSettings,
    input: &'a SetPasswordByRecoveryInput,
    known: &'a PasswordRecoveryAnswers,
)
    ensures
        ({
            let next = password_recovery_next(unauthenticated, settings, input, known);
            let allowed = unauthenticated && settings.passwords_enabled
                && settings.account_recovery_allowed;
            &&& next.refuses(MutationError::RecoveryIsForAnonymousUsers) <==> !unauthenticated
            &&& next.gives(
                SetPasswordPayload { status: SetPasswordStatus::PasswordChangesDisabled },
            ) <==> unauthenticated && !allowed
            &&& allowed && known.complex_enough is None ==> next.asks(
                PasswordRecoveryAsk::IsComplexEnough(&input.new_password),
            )
            &&& next.gives(
                SetPasswordPayload { status: SetPasswordStatus::InvalidNewPassword },
            ) <==> allowed && (known.complex_enough matches Some(false))
            &&& allowed && (known.complex_enough matches Some(true)) && !known.repository_open
                ==> next.asks(PasswordRecoveryAsk::OpenRepository)
        }),
{
}

/// The ticket is looked up, then its session, which must not have been used, and the ticket
/// must not have expired. Then come the address that the ticket was sent to and the user of
/// that address, who must not be locked.
pub proof fn law_recovering_follows_the_ticket<'a>(
    settings: PasswordSettings,
    input: &'a SetPasswordByRecoveryInput,
    known: &'a PasswordRecoveryAnswers,
)
    requires
        settings.passwords_enabled,
        settings.account_recovery_allowed,
        known.complex_enough == Some(true),
        known.repository_open,
    ensures
        ({
            let next = password_recovery_next(true, settings, input, known);
            let ticket = known.ticket->0->0;
            let has_ticket = known.ticket matches Some(Some(_));
            let session = known.session->0->0;
            let has_session = has_ticket && (known.session matches Some(Some(_)));
            let unused = has_session && session.consumed_at is None;
            let live = unused && (known.ticket_active matches Some(true));
            let has_email = live && (known.email matches Some(Some(_)));
            &&& known.ticket is None ==> next.asks(PasswordRecoveryAsk::FindTicket(&input.ticket))
            &&& (known.ticket matches Some(None)) ==> next.gives(
                SetPasswordPayload { status: SetPasswordStatus::NoSuchRecoveryTicket },
            )
            &&& has_ticket && known.session is None ==> next.asks(
                PasswordRecoveryAsk::LookupSession(ticket.user_recovery_session_id),
            )
            &&& has_ticket && (known.session matches Some(None)) ==> next.refuses(
                MutationError::UnknownRecoverySession,
            )
            &&& has_session && session.consumed_at is Some ==> next.gives(
                SetPasswordPayload { status: SetPasswordStatus::RecoveryTicketAlreadyUsed },
            )
            &&& unused && known.ticket_active is None ==> next.asks(
                PasswordRecoveryAsk::IsTicketActive(&ticket),
            )
            &&& unused && (known.ticket_active matches Some(false)) ==> next.gives(
                SetPasswordPayload { status: SetPasswordStatus::ExpiredRecoveryTicket },
            )
            &&& live && known.email is None ==> next.asks(
                PasswordRecoveryAsk::LookupEmail(ticket.user_email_id),
            )
            &&& live && (known.email matches Some(None)) ==> next.refuses(
                MutationError::UnknownEmailAddress,
            )
            &&& has_email && known.user is None ==> next.asks(
                PasswordRecoveryAsk::LookupUser(known.email->0->0.user_id),
            )
            &&& has_email && (known.user matches Some(None)) ==> next.refuses(
                MutationError::InvalidUser,
            )
            &&& has_email && (known.user matches Some(Some(_))) && !known.user->0->0.valid
                ==> next.gives(SetPasswordPayload { status: SetPasswordStatus::AccountLocked })
        }),
{
}

/// With a ticket that has not expired, of a session that was not used, and for a user who is
/// not locked, the new password is hashed and stored for that user, the ticket and its session
/// are marked as used, all is saved, and the answer is `Allowed`.
pub proof fn law_recovering_goes_step_by_step<'a>(
    settings: PasswordSettings,
    input: &'a SetPasswordByRecoveryInput,
    known: &'a PasswordRecoveryAnswers,
)
    requires
        settings.passwords_enabled,
        settings.account_recovery_allowed,
        known.complex_enough == Some(true),
        known.repository_open,
        known.ticket matches Some(Some(_)),
        known.session matches Some(Some(session)) && session.consumed_at is None,
        known.ticket_active == Some(true),
        known.email matches Some(Some(_)),
        known.user matches Some(Some(user)) && user.valid,
    ensures
        ({
            let next = password_recovery_next(true, settings, input, known);
            match &known.hashed {
                None => next.asks(PasswordRecoveryAsk::HashPassword(&input.new_password)),
                Some(password) => if !known.stored {
                    next.asks(
                        PasswordRecoveryAsk::StorePassword { user: &known.user->0->0, password },
                    )
                } else if !known.consumed {
                    next.asks(
                        PasswordRecoveryAsk::ConsumeTicket {
                            ticket: &known.ticket->0->0,
                            session: &known.session->0->0,
                        },
                    )
                } else if !known.saved {
                    next.asks(PasswordRecoveryAsk::Save)
                } else {
                    next.gives(SetPasswordPayload { status: SetPasswordStatus::Allowed })
                },
            }
        }),
{
}

/// A recovery e-mail goes out again for the session of the ticket: both are looked up, the
/// limit is checked for the address of the session, the e-mails are scheduled and saved, and
/// the answer names the session.
pub proof fn law_resending_goes_step_by_step<'a>(
    input: &'a ResendRecoveryEmailInput,
    known: &'a ResendRecoveryAnswers,
)
    ensures
        ({
            let next = resend_recovery_next(input, known);
            let has_ticket = known.repository_open && (known.ticket matches Some(Some(_)));
            let has_session = has_ticket && (known.session matches Some(Some(_)));
            let session = known.session->0->0;
            let allowed = has_session && (known.within_limit matches Some(true));
            &&& !known.repository_open ==> next.asks(ResendRecoveryAsk::OpenRepository)
            &&& known.repository_open && known.ticket is None ==> next.asks(
                ResendRecoveryAsk::FindTicket(&input.ticket),
            )
            &&& known.repository_open && (known.ticket matches Some(None)) ==> next.gives(
                ResendRecoveryEmailPayload::NoSuchRecoveryTicket,
            )
            &&& has_ticket && known.session is None ==> next.asks(
                ResendRecoveryAsk::LookupSession(known.ticket->0->0.user_recovery_session_id),
            )
            &&& has_ticket && (known.session matches Some(None)) ==> next.refuses(
                MutationError::CouldNotLoadRecoverySession,
            )
            &&& has_session && known.within_limit is None ==> next.asks(
                ResendRecoveryAsk::CheckLimit(&session.email),
            )
            &&& has_session && (known.within_limit matches Some(false)) ==> next.gives(
                ResendRecoveryEmailPayload::RateLimited,
            )
            &&& allowed && !known.emails_scheduled ==> next.asks(
                ResendRecoveryAsk::ScheduleEmails(&session),
            )
            &&& allowed && known.emails_scheduled && !known.saved ==> next.asks(
                ResendRecoveryAsk::Save,
            )
            &&& allowed && known.emails_scheduled && known.saved ==> next.gives(
                ResendRecoveryEmailPayload::Sent { recovery_session_id: session.id },
            )
        }),
{
}

} // verus!
