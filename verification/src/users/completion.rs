//! The end of a registration: the account is created from it.

use crate::users::model::BrowserSession;
use crate::users::model::EmailAuthentication;
use crate::users::model::HashedPassword;
use crate::users::model::RegistrationToken;
use crate::users::model::User;
use crate::users::model::UserRegistration;
use crate::users::MutationError;
use crate::users::Next;
use crate::users::UserMutations;
use vstd::prelude::*;

verus! {

/// What the completion of a registration asks for, or has done.
#[derive(Debug, PartialEq, Eq)]
pub enum CompletionAsk<'a> {
    /// Whether a user has this name.
    IsUsernameTaken(&'a String),
    /// Whether the homeserver has this name free.
    IsUsernameAvailable(&'a String),
    LookupEmailAuthentication(u128),
    /// How many users have this e-mail address.
    CountEmail(&'a String),
    /// Mark the registration as completed.
    MarkCompleted(&'a UserRegistration),
    LookupToken(u128),
    UseToken(&'a RegistrationToken),
    AddUser(&'a String),
    AddSession { user: &'a User, user_agent: &'a Option<String> },
    AddPassword { user: &'a User, password: &'a HashedPassword },
    AuthenticateSession { session: &'a BrowserSession, password_id: u128 },
    AddEmail { user: &'a User, email: &'a String },
    AcceptTerms { user: &'a User, terms_url: &'a String },
    /// Have the user created on the homeserver.
    ScheduleProvisioning { user: &'a User, display_name: &'a Option<String> },
}

/// The answers that the completion of a registration has had so far.
#[derive(Debug)]
pub struct CompletionAnswers {
    pub username_taken: Option<bool>,
    pub username_available: Option<bool>,
    pub email_authentication: Option<Option<EmailAuthentication>>,
    pub email_count: Option<usize>,
    /// The registration, once it is marked as completed.
    pub completed: Option<UserRegistration>,
    pub token: Option<Option<RegistrationToken>>,
    pub token_used: bool,
    pub user: Option<User>,
    pub session: Option<BrowserSession>,
    /// The identifier of the stored password.
    pub password_id: Option<u128>,
    pub session_authenticated: bool,
    pub email_added: bool,
    pub terms_accepted: bool,
    pub provisioning_scheduled: bool,
}

impl CompletionAnswers {
    /// No answer yet.
    pub open spec fn none(self) -> bool {
        &&& self.username_taken is None
        &&& self.username_available is None
        &&& self.email_authentication is None
        &&& self.email_count is None
        &&& self.completed is None
        &&& self.token is None
        &&& !self.token_used
        &&& self.user is None
        &&& self.session is None
        &&& self.password_id is None
        &&& !self.session_authenticated
        &&& !self.email_added
        &&& !self.terms_accepted
        &&& !self.provisioning_scheduled
    }

    /// No answer yet.
    pub fn new() -> (r: Self)
        ensures
            r.none(),
    {
        CompletionAnswers {
            username_taken: None,
            username_available: None,
            email_authentication: None,
            email_count: None,
            completed: None,
            token: None,
            token_used: false,
            user: None,
            session: None,
            password_id: None,
            session_authenticated: false,
            email_added: false,
            terms_accepted: false,
            provisioning_scheduled: false,
        }
    }
}

/// The outcome of the checks before an account is created: what they still ask
/// for, or the e-mail address that the account gets.
pub open spec fn completion_checks<'a>(
    registration: &'a UserRegistration,
    known: &'a CompletionAnswers,
) -> Next<CompletionAsk<'a>, Option<&'a String>> {
    if known.username_taken is None {
        Next::Ask(CompletionAsk::IsUsernameTaken(&registration.username))
    } else if known.username_taken == Some(true) {
        Next::Done(Err(MutationError::UsernameTaken))
    } else if known.username_available is None {
        Next::Ask(CompletionAsk::IsUsernameAvailable(&registration.username))
    } else if known.username_available == Some(false) {
        Next::Done(Err(MutationError::UsernameNotAvailable))
    } else {
        match registration.email_authentication_id {
            None => Next::Done(Ok(None)),
            Some(id) => match &known.email_authentication {
                None => Next::Ask(CompletionAsk::LookupEmailAuthentication(id)),
                Some(None) => Next::Done(Err(MutationError::EmailAuthNotFound)),
                Some(Some(authentication)) => match known.email_count {
                    None => Next::Ask(CompletionAsk::CountEmail(&authentication.email)),
                    Some(count) => if count > 0 {
                        Next::Done(Err(MutationError::EmailInUse))
                    } else {
                        Next::Done(Ok(Some(&authentication.email)))
                    },
                },
            },
        }
    }
}

/// What is done about the token of a completed registration, or nothing more.
pub open spec fn token_use<'a>(
    registration: &'a UserRegistration,
    known: &'a CompletionAnswers,
) -> Next<CompletionAsk<'a>, ()> {
    match registration.user_registration_token_id {
        None => Next::Done(Ok(())),
        Some(id) => match &known.token {
            None => Next::Ask(CompletionAsk::LookupToken(id)),
            Some(None) => Next::Done(Err(MutationError::TokenNotFound)),
            Some(Some(token)) => if known.token_used {
                Next::Done(Ok(()))
            } else {
                Next::Ask(CompletionAsk::UseToken(token))
            },
        },
    }
}

/// What is done about an account whose user and session exist.
pub open spec fn account_setup<'a>(
    registration: &'a UserRegistration,
    email: Option<&'a String>,
    user: &'a User,
    session: &'a BrowserSession,
    known: &'a CompletionAnswers,
) -> Next<CompletionAsk<'a>, (User, BrowserSession)> {
    if registration.password is Some && known.password_id is None {
        Next::Ask(
            CompletionAsk::AddPassword { user, password: &registration.password->0 },
        )
    } else if registration.password is Some && !known.session_authenticated {
        Next::Ask(
            CompletionAsk::AuthenticateSession { session, password_id: known.password_id->0 },
        )
    } else if email is Some && !known.email_added {
        Next::Ask(CompletionAsk::AddEmail { user, email: email->0 })
    } else if registration.terms_url is Some && !known.terms_accepted {
        Next::Ask(CompletionAsk::AcceptTerms { user, terms_url: &registration.terms_url->0 })
    } else if !known.provisioning_scheduled {
        Next::Ask(
            CompletionAsk::ScheduleProvisioning { user, display_name: &registration.display_name },
        )
    } else {
        Next::Done(Ok((*user, *session)))
    }
}

/// The next thing that the completion of a registration asks for, or its outcome.
pub open spec fn completion_next<'a>(
    registration: &'a UserRegistration,
    known: &'a CompletionAnswers,
) -> Next<CompletionAsk<'a>, (User, BrowserSession)> {
    match completion_checks(registration, known) {
        Next::Ask(ask) => Next::Ask(ask),
        Next::Done(Err(error)) => Next::Done(Err(error)),
        Next::Done(Ok(email)) => match &known.completed {
            None => Next::Ask(CompletionAsk::MarkCompleted(registration)),
            Some(completed) => match token_use(completed, known) {
                Next::Ask(ask) => Next::Ask(ask),
                Next::Done(Err(error)) => Next::Done(Err(error)),
                Next::Done(Ok(_)) => match &known.user {
                    None => Next::Ask(CompletionAsk::AddUser(&completed.username)),
                    Some(user) => match &known.session {
                        None => Next::Ask(
                            CompletionAsk::AddSession { user, user_agent: &completed.user_agent },
                        ),
                        Some(session) => account_setup(completed, email, user, session, known),
                    },
                },
            },
        },
    }
}

fn check_completion<'a>(registration: &'a UserRegistration, known: &'a CompletionAnswers) -> (r:
    Next<CompletionAsk<'a>, Option<&'a String>>)
    ensures
        r == completion_checks(registration, known),
{
    match known.username_taken {
        None => {
            return Next::Ask(CompletionAsk::IsUsernameTaken(&registration.username));
        },
        Some(true) => {
            return Next::Done(Err(MutationError::UsernameTaken));
        },
        Some(false) => {},
    }
    match known.username_available {
        None => {
            return Next::Ask(CompletionAsk::IsUsernameAvailable(&registration.username));
        },
        Some(false) => {
            return Next::Done(Err(MutationError::UsernameNotAvailable));
        },
        Some(true) => {},
    }
    // The address must not be in use before the user is created.
    match registration.email_authentication_id {
        None => Next::Done(Ok(None)),
        Some(id) => match &known.email_authentication {
            None => Next::Ask(CompletionAsk::LookupEmailAuthentication(id)),
            Some(None) => Next::Done(Err(MutationError::EmailAuthNotFound)),
            Some(Some(authentication)) => match known.email_count {
                None => Next::Ask(CompletionAsk::CountEmail(&authentication.email)),
                Some(count) => if count > 0 {
                    Next::Done(Err(MutationError::EmailInUse))
                } else {
                    Next::Done(Ok(Some(&authentication.email)))
                },
            },
        },
    }
}

fn use_token<'a>(registration: &'a UserRegistration, known: &'a CompletionAnswers) -> (r: Next<
    CompletionAsk<'a>,
    (),
>)
    ensures
        r == token_use(registration, known),
{
    match registration.user_registration_token_id {
        None => Next::Done(Ok(())),
        Some(id) => match &known.token {
            None => Next::Ask(CompletionAsk::LookupToken(id)),
            Some(None) => Next::Done(Err(MutationError::TokenNotFound)),
            Some(Some(token)) => if known.token_used {
                Next::Done(Ok(()))
            } else {
                Next::Ask(CompletionAsk::UseToken(token))
            },
        },
    }
}

fn set_up_account<'a>(
    registration: &'a UserRegistration,
    email: Option<&'a String>,
    user: &'a User,
    session: &'a BrowserSession,
    known: &'a CompletionAnswers,
) -> (r: Next<CompletionAsk<'a>, (User, BrowserSession)>)
    ensures
        r == account_setup(registration, email, user, session, known),
{
    // The password is stored, and the session authenticated with it.
    if let Some(password) = &registration.password {
        match known.password_id {
            None => {
                return Next::Ask(CompletionAsk::AddPassword { user, password });
            },
            Some(password_id) => if !known.session_authenticated {
                return Next::Ask(CompletionAsk::AuthenticateSession { session, password_id });
            },
        }
    }
    if let Some(email) = email {
        if !known.email_added {
            return Next::Ask(CompletionAsk::AddEmail { user, email });
        }
    }
    if let Some(terms_url) = &registration.terms_url {
        if !known.terms_accepted {
            return Next::Ask(CompletionAsk::AcceptTerms { user, terms_url });
        }
    }
    if !known.provisioning_scheduled {
        return Next::Ask(
            CompletionAsk::ScheduleProvisioning { user, display_name: &registration.display_name },
        );
    }
    Next::Done(Ok((user.clone(), session.clone())))
}

impl UserMutations {
    /// Create the account that a registration was for.
    ///
    /// The name and the e-mail address are checked once more before anything is
    /// written: they may have been taken since the registration began.
    pub fn complete_registration<'a>(
        registration: &'a UserRegistration,
        known: &'a CompletionAnswers,
    ) -> (r: Next<CompletionAsk<'a>, (User, BrowserSession)>)
        ensures
            r == completion_next(registration, known),
    {
        let email = match check_completion(registration, known) {
            Next::Ask(ask) => {
                return Next::Ask(ask);
            },
            Next::Done(Err(error)) => {
                return Next::Done(Err(error));
            },
            Next::Done(Ok(email)) => email,
        };
        let completed = match &known.completed {
            None => {
                return Next::Ask(CompletionAsk::MarkCompleted(registration));
            },
            Some(completed) => completed,
        };
        match use_token(completed, known) {
            Next::Ask(ask) => {
                return Next::Ask(ask);
            },
            Next::Done(Err(error)) => {
                return Next::Done(Err(error));
            },
            Next::Done(Ok(_)) => {},
        }
        match &known.user {
            None => Next::Ask(CompletionAsk::AddUser(&completed.username)),
            Some(user) => match &known.session {
                None => Next::Ask(
                    CompletionAsk::AddSession { user, user_agent: &completed.user_agent },
                ),
                Some(session) => set_up_account(completed, email, user, session, known),
            },
        }
    }
}

impl<'a> CompletionAsk<'a> {
    /// Whether this changes what is stored.
    pub open spec fn writes(self) -> bool {
        !(self is IsUsernameTaken || self is IsUsernameAvailable
            || self is LookupEmailAuthentication || self is CountEmail || self is LookupToken)
    }

    /// Whether the answers hold the answer to this.
    pub open spec fn answered_in(self, known: CompletionAnswers) -> bool {
        match self {
            CompletionAsk::IsUsernameTaken(_) => known.username_taken is Some,
            CompletionAsk::IsUsernameAvailable(_) => known.username_available is Some,
            CompletionAsk::LookupEmailAuthentication(_) => known.email_authentication is Some,
            CompletionAsk::CountEmail(_) => known.email_count is Some,
            CompletionAsk::MarkCompleted(_) => known.completed is Some,
            CompletionAsk::LookupToken(_) => known.token is Some,
            CompletionAsk::UseToken(_) => known.token_used,
            CompletionAsk::AddUser(_) => known.user is Some,
            CompletionAsk::AddSession { .. } => known.session is Some,
            CompletionAsk::AddPassword { .. } => known.password_id is Some,
            CompletionAsk::AuthenticateSession { .. } => known.session_authenticated,
            CompletionAsk::AddEmail { .. } => known.email_added,
            CompletionAsk::AcceptTerms { .. } => known.terms_accepted,
            CompletionAsk::ScheduleProvisioning { .. } => known.provisioning_scheduled,
        }
    }
}

/// Nothing is written unless the name is free, here and on the homeserver, and the
/// e-mail address, if there is one, belongs to nobody.
pub proof fn law_accounts_are_created_only_when_name_and_email_are_free<'a>(
    registration: &'a UserRegistration,
    known: &'a CompletionAnswers,
)
    ensures
        completion_next(registration, known) matches Next::Ask(ask) && ask.writes() ==> {
            &&& known.username_taken == Some(false)
            &&& known.username_available == Some(true)
            &&& registration.email_authentication_id is Some ==> known.email_count == Some(0usize)
        },
{
}

/// A user is added under the name that was registered, after the token was used.
pub proof fn law_tokens_are_used_before_the_user_exists<'a>(
    registration: &'a UserRegistration,
    known: &'a CompletionAnswers,
)
    ensures
        completion_next(registration, known) matches Next::Ask(
            CompletionAsk::AddUser(username),
        ) ==> {
            &&& known.completed matches Some(completed)
            &&& *username == completed.username
            &&& completed.user_registration_token_id is Some ==> known.token_used
        },
{
}

/// A completed account has all that its registration held: the password, with
/// which its session is authenticated, the e-mail address, the accepted terms, and
/// it is on its way to the homeserver.
pub proof fn law_completed_accounts_are_complete<'a>(
    registration: &'a UserRegistration,
    known: &'a CompletionAnswers,
)
    ensures
        completion_next(registration, known) matches Next::Done(Ok((user, session))) ==> {
            &&& known.user == Some(user)
            &&& known.session == Some(session)
            &&& known.completed matches Some(completed)
            &&& completed.password is Some ==> known.password_id is Some
                && known.session_authenticated
            &&& registration.email_authentication_id is Some ==> known.email_added
            &&& completed.terms_url is Some ==> known.terms_accepted
            &&& completed.user_registration_token_id is Some ==> known.token_used
            &&& known.provisioning_scheduled
        },
{
}

/// Only what has no answer yet is asked for, so nothing is done twice.
pub proof fn law_completion_asks_for_the_missing<'a>(
    registration: &'a UserRegistration,
    known: &'a CompletionAnswers,
)
    ensures
        completion_next(registration, known) matches Next::Ask(ask) ==> !ask.answered_in(*known),
{
}

/// Before an account is created, its name must be free here and then on the homeserver, and
/// the address that was verified for it, if there is one, must belong to nobody.
pub proof fn law_completion_checks_the_name_and_the_address<'a>(
    registration: &'a UserRegistration,
    known: &'a CompletionAnswers,
)
    ensures
        ({
            let next = completion_next(registration, known);
            let unused = known.username_taken matches Some(false);
            let free = unused && (known.username_available matches Some(true));
            let has_address = registration.email_authentication_id is Some;
            let found = known.email_authentication matches Some(Some(_));
            &&& known.username_taken is None ==> next.asks(
                CompletionAsk::IsUsernameTaken(&registration.username),
            )
            &&& next.refuses(MutationError::UsernameTaken) <==> (
            known.username_taken matches Some(true))
            &&& unused && known.username_available is None ==> next.asks(
                CompletionAsk::IsUsernameAvailable(&registration.username),
            )
            &&& next.refuses(MutationError::UsernameNotAvailable) <==> unused && (
            known.username_available matches Some(false))
            &&& free && has_address && known.email_authentication is None ==> next.asks(
                CompletionAsk::LookupEmailAuthentication(registration.email_authentication_id->0),
            )
            &&& next.refuses(MutationError::EmailAuthNotFound) <==> free && has_address && (
            known.email_authentication matches Some(None))
            &&& free && has_address && found && known.email_count is None ==> next.asks(
                CompletionAsk::CountEmail(&known.email_authentication->0->0.email),
            )
            &&& next.refuses(MutationError::EmailInUse) <==> free && has_address && found && (
            known.email_count matches Some(count) && count > 0)
        }),
{
}

/// Whether nothing stands against an account: its name is free, and so is its address, if it
/// has one.
pub open spec fn may_be_created(registration: UserRegistration, known: CompletionAnswers) -> bool {
    &&& (known.username_taken matches Some(false))
    &&& (known.username_available matches Some(true))
    &&& registration.email_authentication_id is None || (
    known.email_authentication matches Some(Some(_))) && (known.email_count matches Some(0))
}

/// Where nothing stands against it, the registration is marked as completed, its token, if it
/// has one, is looked up and used, the user is added under the name and then a session with
/// the user agent of the registration.
pub proof fn law_completion_starts_the_account<'a>(
    registration: &'a UserRegistration,
    known: &'a CompletionAnswers,
)
    requires
        may_be_created(*registration, *known),
    ensures
        ({
            let next = completion_next(registration, known);
            let completed = known.completed->0;
            let marked = known.completed is Some;
            let by_token = marked && completed.user_registration_token_id is Some;
            let let_in = marked && (completed.user_registration_token_id is None || (
            known.token matches Some(Some(_))) && known.token_used);
            &&& !marked ==> next.asks(CompletionAsk::MarkCompleted(registration))
            &&& by_token && known.token is None ==> next.asks(
                CompletionAsk::LookupToken(completed.user_registration_token_id->0),
            )
            &&& by_token && (known.token matches Some(None)) ==> next.refuses(
                MutationError::TokenNotFound,
            )
            &&& by_token && (known.token matches Some(Some(_))) && !known.token_used ==> next.asks(
                CompletionAsk::UseToken(&known.token->0->0),
            )
            &&& let_in && known.user is None ==> next.asks(
                CompletionAsk::AddUser(&completed.username),
            )
            &&& let_in && known.user is Some && known.session is None ==> next.asks(
                CompletionAsk::AddSession {
                    user: &known.user->0,
                    user_agent: &completed.user_agent,
                },
            )
        }),
{
}

/// The account then gets what its registration holds, each where the registration holds it:
/// the password, with which its session is authenticated, the address, and the terms that
/// were accepted. It is created on the homeserver under its display name, and the answer is
/// the user and the session.
pub proof fn law_completion_fills_the_account<'a>(
    registration: &'a UserRegistration,
    known: &'a CompletionAnswers,
)
    requires
        may_be_created(*registration, *known),
        known.completed matches Some(completed) && (completed.user_registration_token_id is None
            || known.token_used && (known.token matches Some(Some(_)))),
        known.user is Some,
        known.session is Some,
    ensures
        ({
            let next = completion_next(registration, known);
            let completed = known.completed->0;
            let user = &known.user->0;
            let authenticated = completed.password is None || known.password_id is Some
                && known.session_authenticated;
            let reachable = authenticated && (registration.email_authentication_id is None
                || known.email_added);
            let agreed = reachable && (completed.terms_url is None || known.terms_accepted);
            &&& completed.password is Some && known.password_id is None ==> next.asks(
                CompletionAsk::AddPassword { user, password: &completed.password->0 },
            )
            &&& completed.password is Some && known.password_id is Some
                && !known.session_authenticated ==> next.asks(
                CompletionAsk::AuthenticateSession {
                    session: &known.session->0,
                    password_id: known.password_id->0,
                },
            )
            &&& authenticated && registration.email_authentication_id is Some
                && !known.email_added ==> next.asks(
                CompletionAsk::AddEmail {
                    user,
                    email: &known.email_authentication->0->0.email,
                },
            )
            &&& reachable && completed.terms_url is Some && !known.terms_accepted ==> next.asks(
                CompletionAsk::AcceptTerms { user, terms_url: &completed.terms_url->0 },
            )
            &&& agreed && !known.provisioning_scheduled ==> next.asks(
                CompletionAsk::ScheduleProvisioning {
                    user,
                    display_name: &completed.display_name,
                },
            )
            &&& agreed && known.provisioning_scheduled ==> next.gives((*user, known.session->0))
        }),
{
}

} // verus!
