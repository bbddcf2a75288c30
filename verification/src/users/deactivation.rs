//! Users who deactivate their own account.

use crate::users::model::BrowserSession;
use crate::users::model::User;
use crate::users::MutationError;
use crate::users::Next;
use crate::users::UserMutations;
use vstd::prelude::*;

verus! {

/// The input for the `deactivateUser` mutation.
#[derive(Debug)]
pub struct DeactivateUserInput {
    /// Whether to ask the homeserver to GDPR-erase the user
    ///
    /// This is equivalent to the `erase` parameter on the
    /// `/_matrix/client/v3/account/deactivate` C-S API, which is
    /// implementation-specific.
    ///
    /// What Synapse does is documented here:
    /// <https://element-hq.github.io/synapse/latest/admin_api/user_admin_api.html#deactivate-account>
    pub hs_erase: bool,
    /// The password of the user to deactivate.
    pub password: Option<String>,
}

/// The payload for the `deactivateUser` mutation.
#[derive(Debug, PartialEq, Eq)]
pub enum DeactivateUserPayload {
    /// The user was deactivated.
    Deactivated(User),
    /// The password was wrong or missing.
    IncorrectPassword,
}

/// The status of the `deactivateUser` mutation.
#[derive(Debug, Clone, Copy, PartialEq, Eq, Structural)]
pub enum DeactivateUserStatus {
    /// The user was deactivated.
    Deactivated,
    /// The password was wrong.
    IncorrectPassword,
}

impl DeactivateUserPayload {
    /// Status of the operation
    pub fn status(&self) -> (r: DeactivateUserStatus)
        ensures
            self is Deactivated <==> r == DeactivateUserStatus::Deactivated,
    {
        match self {
            DeactivateUserPayload::Deactivated(_) => DeactivateUserStatus::Deactivated,
            DeactivateUserPayload::IncorrectPassword => DeactivateUserStatus::IncorrectPassword,
        }
    }

    /// The user that was deactivated.
    pub fn user(&self) -> (r: Option<User>)
        ensures
            r == match *self {
                DeactivateUserPayload::Deactivated(user) => Some(user),
                DeactivateUserPayload::IncorrectPassword => None,
            },
    {
        match self {
            DeactivateUserPayload::Deactivated(user) => Some(user.clone()),
            DeactivateUserPayload::IncorrectPassword => None,
        }
    }
}

/// What a deactivation asks for, or has done.
#[derive(Debug, PartialEq, Eq)]
pub enum DeactivateUserAsk<'a> {
    /// Open the repository; nothing is kept until it is saved.
    OpenRepository,
    /// Whether the user needs no password, or this one is right.
    VerifyPassword { user: &'a User, password: &'a Option<String> },
    Deactivate(&'a User),
    /// Have the deactivation carried out in full.
    ScheduleDeactivation { user: &'a User, hs_erase: bool },
    Save,
}

/// The answers that a deactivation has had so far.
#[derive(Debug)]
pub struct DeactivateUserAnswers {
    pub repository_open: bool,
    pub password_accepted: Option<bool>,
    /// The user, once deactivated.
    pub deactivated: Option<User>,
    pub deactivation_scheduled: bool,
    pub saved: bool,
}

impl DeactivateUserAnswers {
    /// No answer yet.
    pub fn new() -> (r: Self)
        ensures
            !r.repository_open,
            r.password_accepted is None,
            r.deactivated is None,
            !r.deactivation_scheduled,
            !r.saved,
    {
        DeactivateUserAnswers {
            repository_open: false,
            password_accepted: None,
            deactivated: None,
            deactivation_scheduled: false,
            saved: false,
        }
    }
}

/// The next thing that a deactivation asks for, or its outcome.
pub open spec fn deactivate_user_next<'a>(
    browser_session: Option<&'a BrowserSession>,
    deactivation_allowed: bool,
    input: &'a DeactivateUserInput,
    known: &'a DeactivateUserAnswers,
) -> Next<DeactivateUserAsk<'a>, DeactivateUserPayload> {
    if browser_session is None {
        Next::Done(Err(MutationError::Unauthorized))
    } else if !deactivation_allowed {
        Next::Done(Err(MutationError::DeactivationNotAllowed))
    } else if !known.repository_open {
        Next::Ask(DeactivateUserAsk::OpenRepository)
    } else if known.password_accepted is None {
        Next::Ask(
            DeactivateUserAsk::VerifyPassword {
                user: &browser_session->0.user,
                password: &input.password,
            },
        )
    } else if known.password_accepted == Some(false) {
        Next::Done(Ok(DeactivateUserPayload::IncorrectPassword))
    } else if known.deactivated is None {
        Next::Ask(DeactivateUserAsk::Deactivate(&browser_session->0.user))
    } else if !known.deactivation_scheduled {
        Next::Ask(
            DeactivateUserAsk::ScheduleDeactivation {
                user: &known.deactivated->0,
                hs_erase: input.hs_erase,
            },
        )
    } else if !known.saved {
        Next::Ask(DeactivateUserAsk::Save)
    } else {
        Next::Done(Ok(DeactivateUserPayload::Deactivated(known.deactivated->0)))
    }
}

impl UserMutations {
    /// Deactivate the current user account
    ///
    /// If the user has a password, it *must* be supplied in the `password`
    /// field.
    pub fn deactivate_user<'a>(
        &self,
        browser_session: Option<&'a BrowserSession>,
        deactivation_allowed: bool,
        input: &'a DeactivateUserInput,
        known: &'a DeactivateUserAnswers,
    ) -> (r: Next<DeactivateUserAsk<'a>, DeactivateUserPayload>)
        ensures
            r == deactivate_user_next(browser_session, deactivation_allowed, input, known),
    {
        // Only allow calling this if the requester is a browser session
        let session = match browser_session {
            None => {
                return Next::Done(Err(MutationError::Unauthorized));
            },
            Some(session) => session,
        };
        if !deactivation_allowed {
            return Next::Done(Err(MutationError::DeactivationNotAllowed));
        }
        if !known.repository_open {
            return Next::Ask(DeactivateUserAsk::OpenRepository);
        }
        match known.password_accepted {
            None => {
                return Next::Ask(
                    DeactivateUserAsk::VerifyPassword {
                        user: &session.user,
                        password: &input.password,
                    },
                );
            },
            Some(false) => {
                return Next::Done(Ok(DeactivateUserPayload::IncorrectPassword));
            },
            Some(true) => {},
        }
        // Deactivate the user right away, and then schedule a job to deactivate it
        // fully
        match &known.deactivated {
            None => Next::Ask(DeactivateUserAsk::Deactivate(&session.user)),
            Some(user) => {
                if !known.deactivation_scheduled {
                    return Next::Ask(
                        DeactivateUserAsk::ScheduleDeactivation { user, hs_erase: input.hs_erase },
                    );
                }
                if !known.saved {
                    return Next::Ask(DeactivateUserAsk::Save);
                }
                Next::Done(Ok(DeactivateUserPayload::Deactivated(user.clone())))
            },
        }
    }
}

/// Only the requester's own account is deactivated, on a site that allows it, and
/// only once the password was accepted.
pub proof fn law_users_deactivate_only_themselves<'a>(
    browser_session: Option<&'a BrowserSession>,
    deactivation_allowed: bool,
    input: &'a DeactivateUserInput,
    known: &'a DeactivateUserAnswers,
)
    ensures
        deactivate_user_next(
            browser_session,
            deactivation_allowed,
            input,
            known,
        ) matches Next::Ask(DeactivateUserAsk::Deactivate(user)) ==> {
            &&& deactivation_allowed
            &&& known.password_accepted == Some(true)
            &&& (browser_session matches Some(session) && session.user == *user)
        },
        deactivate_user_next(
            browser_session,
            deactivation_allowed,
            input,
            known,
        ) matches Next::Ask(DeactivateUserAsk::VerifyPassword { user, password }) ==> *password
            == input.password && (browser_session matches Some(session) && session.user == *user),
        deactivate_user_next(
            browser_session,
            deactivation_allowed,
            input,
            known,
        ) matches Next::Done(Ok(DeactivateUserPayload::Deactivated(user))) ==> {
            &&& known.password_accepted == Some(true)
            &&& known.deactivated == Some(user)
            &&& known.deactivation_scheduled
            &&& known.saved
        },
{
}

impl<'a> DeactivateUserAsk<'a> {
    /// Whether the answers hold the answer to this.
    pub open spec fn answered_in(self, known: DeactivateUserAnswers) -> bool {
        match self {
            DeactivateUserAsk::OpenRepository => known.repository_open,
            DeactivateUserAsk::VerifyPassword { .. } => known.password_accepted is Some,
            DeactivateUserAsk::Deactivate(_) => known.deactivated is Some,
            DeactivateUserAsk::ScheduleDeactivation { .. } => known.deactivation_scheduled,
            DeactivateUserAsk::Save => known.saved,
        }
    }
}

/// Only what has no answer yet is asked for, so nothing is done twice.
pub proof fn law_deactivating_asks_for_the_missing<'a>(
    browser_session: Option<&'a BrowserSession>,
    deactivation_allowed: bool,
    input: &'a DeactivateUserInput,
    known: &'a DeactivateUserAnswers,
)
    ensures
        deactivate_user_next(browser_session, deactivation_allowed, input, known)
            matches Next::Ask(ask)
            ==> !ask.answered_in(*known),
{
}

/// Once a deactivation is saved, that is the outcome: nothing is saved for a refusal.
pub proof fn law_saving_ends_the_deactivation<'a>(
    browser_session: Option<&'a BrowserSession>,
    deactivation_allowed: bool,
    input: &'a DeactivateUserInput,
    known: &'a DeactivateUserAnswers,
    later: &'a DeactivateUserAnswers,
)
    requires
        deactivate_user_next(browser_session, deactivation_allowed, input, known)
            == Next::<DeactivateUserAsk<'a>, DeactivateUserPayload>::Ask(
            DeactivateUserAsk::Save,
        ),
        *later == (DeactivateUserAnswers { saved: true, ..*known }),
    ensures
        deactivate_user_next(browser_session, deactivation_allowed, input, later)
            matches Next::Done(Ok(DeactivateUserPayload::Deactivated(_))),
{
}

/// Only someone with a browser session can deactivate an account, on a site that allows
/// it. A password that is not accepted ends it, and nothing else is told of it.
pub proof fn law_deactivations_are_refused_for_a_reason<'a>(
    browser_session: Option<&'a BrowserSession>,
    deactivation_allowed: bool,
    input: &'a DeactivateUserInput,
    known: &'a DeactivateUserAnswers,
)
    ensures
        ({
            let next = deactivate_user_next(browser_session, deactivation_allowed, input, known);
            let may = browser_session is Some && deactivation_allowed;
            &&& next.refuses(MutationError::Unauthorized) <==> browser_session is None
            &&& next.refuses(MutationError::DeactivationNotAllowed) <==> browser_session is Some
                && !deactivation_allowed
            &&& (next matches Next::Done(Err(_))) <==> !may
            &&& next.gives(DeactivateUserPayload::IncorrectPassword) <==> may
                && known.repository_open && (known.password_accepted matches Some(false))
        }),
{
}

/// The account of the browser session is the one that is deactivated, once the password
/// that came with the request is accepted for it. The job that is scheduled carries what
/// was asked for: it is for the deactivated user, and the homeserver is asked to erase the
/// user exactly where the request asks for that.
pub proof fn law_deactivations_do_what_was_asked_for<'a>(
    browser_session: Option<&'a BrowserSession>,
    deactivation_allowed: bool,
    input: &'a DeactivateUserInput,
    known: &'a DeactivateUserAnswers,
)
    requires
        browser_session is Some,
        deactivation_allowed,
    ensures
        ({
            let next = deactivate_user_next(browser_session, deactivation_allowed, input, known);
            let user = &browser_session->0.user;
            let accepted = known.repository_open && (known.password_accepted matches Some(true));
            &&& !known.repository_open ==> next.asks(DeactivateUserAsk::OpenRepository)
            &&& known.repository_open && known.password_accepted is None ==> next.asks(
                DeactivateUserAsk::VerifyPassword { user, password: &input.password },
            )
            &&& accepted && known.deactivated is None ==> next.asks(
                DeactivateUserAsk::Deactivate(user),
            )
            &&& next matches Next::Ask(DeactivateUserAsk::ScheduleDeactivation { user, hs_erase })
                ==> hs_erase == input.hs_erase && known.deactivated == Some(*user)
            &&& accepted && known.deactivated is Some && !known.deactivation_scheduled
                ==> next.asks(
                DeactivateUserAsk::ScheduleDeactivation {
                    user: &known.deactivated->0,
                    hs_erase: input.hs_erase,
                },
            )
            &&& accepted && known.deactivated is Some && known.deactivation_scheduled ==> if known.saved {
                next.gives(DeactivateUserPayload::Deactivated(known.deactivated->0))
            } else {
                next.asks(DeactivateUserAsk::Save)
            }
        }),
{
}

} // verus!
