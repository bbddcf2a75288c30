//! The start of a registration: what was filled in is checked, and kept until the
//! steps that are left have been taken.

use crate::email::parses_as_email_address;
use crate::ids::encode_ulid;
use crate::text::same_text;
use crate::users::completion::CompletionAnswers;
use crate::users::completion::CompletionAsk;
use crate::users::model::BrowserSession;
use crate::users::model::EmailAuthentication;
use crate::users::model::HashedPassword;
use crate::users::model::RegistrationToken;
use crate::users::model::User;
use crate::users::model::UserRegistration;
use crate::users::MutationError;
use crate::users::Next;
use crate::users::UserMutations;
use vstd::prelude::*;

verus! {

/// The input for the `registerUserInitiate` mutation.
#[derive(Debug)]
pub struct RegisterUserInitiateInput {
    /// Desired username (localpart).
    pub username: String,
    /// Account password.
    pub password: String,
    /// Password confirmation. Must match `password`.
    pub password_confirm: Option<String>,
    /// Optional email address. Required if server config says so.
    pub email: Option<String>,
    /// Optional registration token. Required if server config says so.
    pub registration_token: Option<String>,
    /// Whether the user accepts the terms of service. Required if the server has a ToS.
    pub accept_terms: Option<bool>,
    /// The language to use for emails.
    pub language: String,
    /// CAPTCHA response. Required if the server has CAPTCHA configured.
    pub captcha_response: Option<String>,
}

/// What the site has configured about registrations.
#[derive(Debug)]
pub struct RegistrationSettings {
    pub password_registration_enabled: bool,
    pub password_registration_email_required: bool,
    pub registration_token_required: bool,
    pub tos_uri: Option<String>,
    pub captcha_configured: bool,
}

/// Who asks to be registered.
#[derive(Debug)]
pub struct RegistrationRequester {
    pub unauthenticated: bool,
    pub ip_address: Option<String>,
    pub user_agent: Option<String>,
}

/// A rule of the registration policy that was not kept.
#[derive(Debug)]
pub struct PolicyViolation {
    pub field: Option<String>,
    pub msg: String,
}

/// The status of the `registerUserInitiate` mutation.
#[derive(Debug, Clone, Copy, PartialEq, Eq, Structural)]
pub enum RegisterUserInitiateStatus {
    /// Registration is complete; user and session were created.
    Complete,
    /// Additional steps are required before registration finishes.
    Pending,
    /// Input validation failed.
    Failed,
}

/// A step the client must complete to finish registration.
#[derive(Debug, Clone, Copy, PartialEq, Eq, Structural)]
pub enum RegistrationStepType {
    EmailVerification,
}

/// A step descriptor.
#[derive(Debug, Clone, Copy, PartialEq, Eq, Structural)]
pub struct RegistrationStep {
    pub step_type: RegistrationStepType,
}

/// A field-level validation error.
#[derive(Debug, PartialEq, Eq)]
pub struct RegistrationFieldError {
    pub field: String,
    pub message: String,
}

/// The field and the message of a [`RegistrationFieldError`].
pub struct FieldErrorView {
    pub field: Seq<char>,
    pub message: Seq<char>,
}

impl View for RegistrationFieldError {
    type V = FieldErrorView;

    open spec fn view(&self) -> FieldErrorView {
        FieldErrorView { field: self.field@, message: self.message@ }
    }
}

impl Clone for RegistrationFieldError {
    fn clone(&self) -> (r: Self)
        ensures
            r == *self,
    {
        RegistrationFieldError { field: self.field.clone(), message: self.message.clone() }
    }
}

/// The fields and the messages of some errors.
pub open spec fn field_errors(errors: Seq<RegistrationFieldError>) -> Seq<FieldErrorView> {
    errors.map_values(|error: RegistrationFieldError| error@)
}

impl RegistrationFieldError {
    /// An error about a field.
    pub fn new(field: &str, message: &str) -> (r: Self)
        ensures
            r@ == (FieldErrorView { field: field@, message: message@ }),
    {
        RegistrationFieldError { field: field.to_owned(), message: message.to_owned() }
    }
}

/// The payload for the `registerUserInitiate` mutation.
#[derive(Debug, PartialEq, Eq)]
pub enum RegisterUserInitiatePayload {
    Complete(User, BrowserSession),
    Pending { session_id: String, next_steps: Vec<RegistrationStep> },
    Failed(Vec<RegistrationFieldError>),
}

/// The contents of a [`RegisterUserInitiatePayload`].
pub enum RegisterPayloadView {
    Complete(User, BrowserSession),
    Pending { session_id: Seq<char>, next_steps: Seq<RegistrationStep> },
    Failed(Seq<FieldErrorView>),
}

impl View for RegisterUserInitiatePayload {
    type V = RegisterPayloadView;

    open spec fn view(&self) -> RegisterPayloadView {
        match self {
            RegisterUserInitiatePayload::Complete(user, session) => RegisterPayloadView::Complete(
                *user,
                *session,
            ),
            RegisterUserInitiatePayload::Pending {
                session_id,
                next_steps,
            } => RegisterPayloadView::Pending { session_id: session_id@, next_steps: next_steps@ },
            RegisterUserInitiatePayload::Failed(errors) => RegisterPayloadView::Failed(
                field_errors(errors@),
            ),
        }
    }
}

impl RegisterUserInitiatePayload {
    /// Status of the operation
    pub fn status(&self) -> (r: RegisterUserInitiateStatus)
        ensures
            self is Complete <==> r == RegisterUserInitiateStatus::Complete,
            self is Pending <==> r == RegisterUserInitiateStatus::Pending,
            self is Failed <==> r == RegisterUserInitiateStatus::Failed,
    {
        match self {
            RegisterUserInitiatePayload::Complete(_, _) => RegisterUserInitiateStatus::Complete,
            RegisterUserInitiatePayload::Pending { .. } => RegisterUserInitiateStatus::Pending,
            RegisterUserInitiatePayload::Failed(_) => RegisterUserInitiateStatus::Failed,
        }
    }

    /// The user that was registered.
    pub fn user(&self) -> (r: Option<User>)
        ensures
            r == match *self {
                RegisterUserInitiatePayload::Complete(user, _) => Some(user),
                _ => None,
            },
    {
        match self {
            RegisterUserInitiatePayload::Complete(user, _) => Some(user.clone()),
            _ => None,
        }
    }

    /// The session that was started for the user.
    pub fn browser_session(&self) -> (r: Option<BrowserSession>)
        ensures
            r == match *self {
                RegisterUserInitiatePayload::Complete(_, session) => Some(session),
                _ => None,
            },
    {
        match self {
            RegisterUserInitiatePayload::Complete(_, session) => Some(session.clone()),
            _ => None,
        }
    }

    /// The session under which the registration goes on.
    pub fn session_id(&self) -> (r: Option<String>)
        ensures
            r == match *self {
                RegisterUserInitiatePayload::Pending { session_id, .. } => Some(session_id),
                _ => None,
            },
    {
        match self {
            RegisterUserInitiatePayload::Pending { session_id, .. } => Some(session_id.clone()),
            _ => None,
        }
    }

    /// The steps that are left.
    pub fn next_steps(&self) -> (r: Option<Vec<RegistrationStep>>)
        ensures
            match r {
                Some(steps) => self is Pending && steps@ == self->next_steps@,
                None => !(self is Pending),
            },
    {
        match self {
            RegisterUserInitiatePayload::Pending { next_steps, .. } => Some(next_steps.clone()),
            _ => None,
        }
    }

    /// What was wrong.
    pub fn errors(&self) -> (r: Option<Vec<RegistrationFieldError>>)
        ensures
            match r {
                Some(errors) => self is Failed && errors@ == self->Failed_0@,
                None => !(self is Failed),
            },
    {
        match self {
            RegisterUserInitiatePayload::Failed(errors) => Some(errors.clone()),
            _ => None,
        }
    }
}

/// What a registration asks for, or has done.
#[derive(Debug, PartialEq, Eq)]
pub enum RegisterAsk<'a> {
    /// Open the repository; nothing is kept until it is saved.
    OpenRepository,
    IsUsernameTaken(&'a String),
    /// Whether the homeserver has this name free.
    IsUsernameAvailable(&'a String),
    IsPasswordComplexEnough(&'a String),
    FindToken(&'a String),
    VerifyCaptcha(&'a Option<String>),
    CheckRegistrationLimit,
    CheckEmailLimit(&'a String),
    EvaluatePolicy { username: &'a String, email: Option<&'a String> },
    AddRegistration {
        username: &'a String,
        ip_address: &'a Option<String>,
        user_agent: &'a Option<String>,
    },
    SetTermsUrl { registration: &'a UserRegistration, terms_url: &'a String },
    /// Have an e-mail address verified for the registration.
    AddEmailAuthentication { registration: &'a UserRegistration, address: &'a String },
    ScheduleEmailCode { authentication: &'a EmailAuthentication, language: &'a String },
    SetEmailAuthentication {
        registration: &'a UserRegistration,
        authentication: &'a EmailAuthentication,
    },
    HashPassword(&'a String),
    SetPassword { registration: &'a UserRegistration, password: &'a HashedPassword },
    LookupToken(u128),
    SetRegistrationToken { registration: &'a UserRegistration, token: &'a RegistrationToken },
    Complete(CompletionAsk<'a>),
    Save,
}

/// The answers that a registration has had so far.
#[derive(Debug)]
pub struct RegisterAnswers {
    pub repository_open: bool,
    pub username_taken: Option<bool>,
    pub username_available: Option<bool>,
    pub password_complex_enough: Option<bool>,
    pub token: Option<Option<RegistrationToken>>,
    pub captcha_passed: Option<bool>,
    pub registration_within_limit: Option<bool>,
    pub email_within_limit: Option<bool>,
    pub violations: Option<Vec<PolicyViolation>>,
    /// The registration, as the repository last returned it.
    pub registration: Option<UserRegistration>,
    pub terms_url_set: bool,
    pub email_authentication: Option<EmailAuthentication>,
    pub email_code_scheduled: bool,
    pub email_authentication_set: bool,
    pub hashed_password: Option<HashedPassword>,
    pub password_set: bool,
    pub stored_token: Option<Option<RegistrationToken>>,
    pub registration_token_set: bool,
    pub completion: CompletionAnswers,
    pub saved: bool,
}

impl RegisterAnswers {
    /// No answer yet.
    pub fn new() -> (r: Self)
        ensures
            !r.repository_open,
            r.username_taken is None,
            r.username_available is None,
            r.password_complex_enough is None,
            r.token is None,
            r.captcha_passed is None,
            r.registration_within_limit is None,
            r.email_within_limit is None,
            r.violations is None,
            r.registration is None,
            !r.terms_url_set,
            r.email_authentication is None,
            !r.email_code_scheduled,
            !r.email_authentication_set,
            r.hashed_password is None,
            !r.password_set,
            r.stored_token is None,
            !r.registration_token_set,
            r.completion.none(),
            !r.saved,
    {
        RegisterAnswers {
            repository_open: false,
            username_taken: None,
            username_available: None,
            password_complex_enough: None,
            token: None,
            captcha_passed: None,
            registration_within_limit: None,
            email_within_limit: None,
            violations: None,
            registration: None,
            terms_url_set: false,
            email_authentication: None,
            email_code_scheduled: false,
            email_authentication_set: false,
            hashed_password: None,
            password_set: false,
            stored_token: None,
            registration_token_set: false,
            completion: CompletionAnswers::new(),
            saved: false,
        }
    }
}

/// What a check of one field comes to.
#[derive(Debug, PartialEq, Eq)]
pub enum FieldCheck<'a> {
    /// The check needs this first.
    Ask(RegisterAsk<'a>),
    Passed,
    /// The field is wrong; the message says how.
    Failed(&'static str),
}

/// A check and the field that it is about.
#[derive(Debug, PartialEq, Eq)]
pub struct NamedCheck<'a> {
    pub field: &'static str,
    pub check: FieldCheck<'a>,
}

/// The username must be given and free, here and on the homeserver.
pub open spec fn username_check<'a>(
    input: &'a RegisterUserInitiateInput,
    known: &'a RegisterAnswers,
) -> FieldCheck<'a> {
    if input.username@.len() == 0 {
        FieldCheck::Failed("Username is required")
    } else {
        match known.username_taken {
            None => FieldCheck::Ask(RegisterAsk::IsUsernameTaken(&input.username)),
            Some(true) => FieldCheck::Failed("Username is already taken"),
            Some(false) => match known.username_available {
                None => FieldCheck::Ask(RegisterAsk::IsUsernameAvailable(&input.username)),
                Some(false) => FieldCheck::Failed("Username is not available"),
                Some(true) => FieldCheck::Passed,
            },
        }
    }
}

/// The password must be given and strong.
pub open spec fn password_check<'a>(
    input: &'a RegisterUserInitiateInput,
    known: &'a RegisterAnswers,
) -> FieldCheck<'a> {
    if input.password@.len() == 0 {
        FieldCheck::Failed("Password is required")
    } else {
        match known.password_complex_enough {
            None => FieldCheck::Ask(RegisterAsk::IsPasswordComplexEnough(&input.password)),
            Some(false) => FieldCheck::Failed("Password is too weak"),
            Some(true) => FieldCheck::Passed,
        }
    }
}

/// A confirmation, where there is one, must repeat the password.
pub open spec fn password_confirm_check<'a>(input: &'a RegisterUserInitiateInput) -> FieldCheck<
    'a,
> {
    if input.password_confirm matches Some(confirm) && confirm@ != input.password@ {
        FieldCheck::Failed("Passwords do not match")
    } else {
        FieldCheck::Passed
    }
}

/// The e-mail address that was given, if any.
pub open spec fn given_email<'a>(input: &'a RegisterUserInitiateInput) -> Option<&'a String> {
    match &input.email {
        Some(email) => if email@.len() > 0 {
            Some(email)
        } else {
            None
        },
        None => None,
    }
}

/// Whether an e-mail address was given that is one.
pub open spec fn gives_address<'a>(input: &'a RegisterUserInitiateInput) -> bool {
    given_email(input) matches Some(email) && crate::email::is_email_address(email@)
}

/// The e-mail address must be one, and be given where the site requires it.
pub open spec fn email_check<'a>(
    input: &'a RegisterUserInitiateInput,
    settings: &'a RegistrationSettings,
    is_address: bool,
) -> FieldCheck<'a> {
    match given_email(input) {
        Some(email) => if is_address {
            FieldCheck::Passed
        } else {
            FieldCheck::Failed("Email address is invalid")
        },
        None => if settings.password_registration_email_required {
            FieldCheck::Failed("Email is required")
        } else {
            FieldCheck::Passed
        },
    }
}

/// Where the site requires a token, it must be given, exist and be usable.
pub open spec fn registration_token_check<'a>(
    input: &'a RegisterUserInitiateInput,
    settings: &'a RegistrationSettings,
    known: &'a RegisterAnswers,
) -> FieldCheck<'a> {
    if !settings.registration_token_required {
        FieldCheck::Passed
    } else if input.registration_token is None || (input.registration_token->0)@.len() == 0 {
        FieldCheck::Failed("Registration token is required")
    } else {
        match known.token {
            None => FieldCheck::Ask(RegisterAsk::FindToken(&input.registration_token->0)),
            Some(token) => if token is Some && token->0.valid {
                FieldCheck::Passed
            } else {
                FieldCheck::Failed("Invalid or expired registration token")
            },
        }
    }
}

/// Where the site has terms of service, they must be accepted.
pub open spec fn accept_terms_check<'a>(
    input: &'a RegisterUserInitiateInput,
    settings: &'a RegistrationSettings,
) -> FieldCheck<'a> {
    if settings.tos_uri is Some && input.accept_terms != Some(true) {
        FieldCheck::Failed("You must accept the terms of service")
    } else {
        FieldCheck::Passed
    }
}

/// Where the site has a CAPTCHA, it must be passed.
pub open spec fn captcha_check<'a>(
    input: &'a RegisterUserInitiateInput,
    settings: &'a RegistrationSettings,
    known: &'a RegisterAnswers,
) -> FieldCheck<'a> {
    if !settings.captcha_configured {
        FieldCheck::Passed
    } else {
        match known.captcha_passed {
            None => FieldCheck::Ask(RegisterAsk::VerifyCaptcha(&input.captcha_response)),
            Some(false) => FieldCheck::Failed("CAPTCHA verification failed"),
            Some(true) => FieldCheck::Passed,
        }
    }
}

/// The checks of what was filled in, in the order in which they are made.
pub open spec fn form_checks<'a>(
    input: &'a RegisterUserInitiateInput,
    settings: &'a RegistrationSettings,
    is_address: bool,
    known: &'a RegisterAnswers,
) -> Seq<NamedCheck<'a>> {
    seq![
        NamedCheck { field: "username", check: username_check(input, known) },
        NamedCheck { field: "password", check: password_check(input, known) },
        NamedCheck { field: "password_confirm", check: password_confirm_check(input) },
        NamedCheck { field: "email", check: email_check(input, settings, is_address) },
        NamedCheck {
            field: "registration_token",
            check: registration_token_check(input, settings, known),
        },
        NamedCheck { field: "accept_terms", check: accept_terms_check(input, settings) },
        NamedCheck { field: "captcha", check: captcha_check(input, settings, known) },
    ]
}

/// There must not have been too many registrations.
pub open spec fn registration_limit_check<'a>(known: &'a RegisterAnswers) -> FieldCheck<'a> {
    match known.registration_within_limit {
        None => FieldCheck::Ask(RegisterAsk::CheckRegistrationLimit),
        Some(false) => FieldCheck::Failed("Too many registration attempts"),
        Some(true) => FieldCheck::Passed,
    }
}

/// There must not have been too many e-mails to the address.
pub open spec fn email_limit_check<'a>(
    input: &'a RegisterUserInitiateInput,
    known: &'a RegisterAnswers,
) -> FieldCheck<'a> {
    match given_email(input) {
        None => FieldCheck::Passed,
        Some(email) => match known.email_within_limit {
            None => FieldCheck::Ask(RegisterAsk::CheckEmailLimit(email)),
            Some(false) => FieldCheck::Failed("Too many email authentication attempts"),
            Some(true) => FieldCheck::Passed,
        },
    }
}

/// The checks of the rate limits, in the order in which they are made.
pub open spec fn limit_checks<'a>(
    input: &'a RegisterUserInitiateInput,
    known: &'a RegisterAnswers,
) -> Seq<NamedCheck<'a>> {
    seq![
        NamedCheck { field: "form", check: registration_limit_check(known) },
        NamedCheck { field: "email", check: email_limit_check(input, known) },
    ]
}

/// The first thing that some checks ask for.
pub open spec fn first_ask<'a>(checks: Seq<NamedCheck<'a>>) -> Option<RegisterAsk<'a>>
    decreases checks.len(),
{
    if checks.len() == 0 {
        None
    } else {
        match checks[0].check {
            FieldCheck::Ask(ask) => Some(ask),
            _ => first_ask(checks.drop_first()),
        }
    }
}

/// The errors of the checks that failed.
pub open spec fn failures<'a>(checks: Seq<NamedCheck<'a>>) -> Seq<FieldErrorView>
    decreases checks.len(),
{
    if checks.len() == 0 {
        Seq::empty()
    } else {
        let rest = failures(checks.drop_last());
        match checks.last().check {
            FieldCheck::Failed(message) => rest.push(
                FieldErrorView { field: checks.last().field@, message: message@ },
            ),
            _ => rest,
        }
    }
}

/// The field that an error about a policy violation names.
pub open spec fn violation_field(violation: PolicyViolation) -> Seq<char> {
    match violation.field {
        Some(field) => if field@ == "email"@ || field@ == "username"@ || field@ == "password"@ {
            field@
        } else {
            "form"@
        },
        None => "form"@,
    }
}

/// The errors that some policy violations come to.
pub open spec fn violation_errors_of(violations: Seq<PolicyViolation>) -> Seq<FieldErrorView> {
    violations.map_values(
        |violation: PolicyViolation|
            FieldErrorView { field: violation_field(violation), message: violation.msg@ },
    )
}

/// The token that the registration is linked to.
pub open spec fn token_to_link<'a>(
    settings: &'a RegistrationSettings,
    known: &'a RegisterAnswers,
) -> Option<u128> {
    match known.token {
        Some(Some(token)) => if settings.registration_token_required {
            Some(token.id)
        } else {
            None
        },
        _ => None,
    }
}

/// The steps that are left once the registration is stored.
pub open spec fn steps_left(registration: UserRegistration) -> Seq<RegistrationStep> {
    if registration.email_authentication_id is Some {
        seq![RegistrationStep { step_type: RegistrationStepType::EmailVerification }]
    } else {
        seq![]
    }
}

/// What is done with a registration that passed every check and was stored.
pub open spec fn stored_registration_next<'a>(
    input: &'a RegisterUserInitiateInput,
    settings: &'a RegistrationSettings,
    registration: &'a UserRegistration,
    known: &'a RegisterAnswers,
) -> Next<RegisterAsk<'a>, RegisterPayloadView> {
    let email = given_email(input);
    let token_id = token_to_link(settings, known);
    if settings.tos_uri is Some && !known.terms_url_set {
        Next::Ask(RegisterAsk::SetTermsUrl { registration, terms_url: &settings.tos_uri->0 })
    } else if email is Some && known.email_authentication is None {
        Next::Ask(RegisterAsk::AddEmailAuthentication { registration, address: email->0 })
    } else if email is Some && !known.email_code_scheduled {
        Next::Ask(
            RegisterAsk::ScheduleEmailCode {
                authentication: &known.email_authentication->0,
                language: &input.language,
            },
        )
    } else if email is Some && !known.email_authentication_set {
        Next::Ask(
            RegisterAsk::SetEmailAuthentication {
                registration,
                authentication: &known.email_authentication->0,
            },
        )
    } else if known.hashed_password is None {
        Next::Ask(RegisterAsk::HashPassword(&input.password))
    } else if !known.password_set {
        Next::Ask(
            RegisterAsk::SetPassword { registration, password: &known.hashed_password->0 },
        )
    } else if token_id is Some && known.stored_token is None {
        Next::Ask(RegisterAsk::LookupToken(token_id->0))
    } else if token_id is Some && known.stored_token->0 is None {
        Next::Done(Err(MutationError::TokenNotFound))
    } else if token_id is Some && !known.registration_token_set {
        Next::Ask(
            RegisterAsk::SetRegistrationToken {
                registration,
                token: &known.stored_token->0->0,
            },
        )
    } else if steps_left(*registration).len() > 0 {
        if !known.saved {
            Next::Ask(RegisterAsk::Save)
        } else {
            Next::Done(
                Ok(
                    RegisterPayloadView::Pending {
                        session_id: crate::ids::ulid_text(registration.id),
                        next_steps: steps_left(*registration),
                    },
                ),
            )
        }
    } else {
        match crate::users::completion::completion_next(registration, &known.completion) {
            Next::Ask(ask) => Next::Ask(RegisterAsk::Complete(ask)),
            Next::Done(Err(error)) => Next::Done(Err(error)),
            Next::Done(Ok((user, session))) => if !known.saved {
                Next::Ask(RegisterAsk::Save)
            } else {
                Next::Done(Ok(RegisterPayloadView::Complete(user, session)))
            },
        }
    }
}

/// The next thing that a registration asks for, or its outcome, given whether the
/// e-mail address that came with it is one.
///
/// The form is checked first, then the rate limits, then the policy: each only if
/// the ones before it found nothing wrong.
pub open spec fn register_form_next<'a>(
    requester: &'a RegistrationRequester,
    settings: &'a RegistrationSettings,
    input: &'a RegisterUserInitiateInput,
    is_address: bool,
    known: &'a RegisterAnswers,
) -> Next<RegisterAsk<'a>, RegisterPayloadView> {
    let form = form_checks(input, settings, is_address, known);
    let limits = limit_checks(input, known);
    if !requester.unauthenticated {
        Next::Done(Err(MutationError::AlreadyAuthenticated))
    } else if !settings.password_registration_enabled {
        Next::Done(Err(MutationError::RegistrationDisabled))
    } else if !known.repository_open {
        Next::Ask(RegisterAsk::OpenRepository)
    } else if first_ask(form) is Some {
        Next::Ask(first_ask(form)->0)
    } else if failures(form).len() > 0 {
        Next::Done(Ok(RegisterPayloadView::Failed(failures(form))))
    } else if first_ask(limits) is Some {
        Next::Ask(first_ask(limits)->0)
    } else if failures(limits).len() > 0 {
        Next::Done(Ok(RegisterPayloadView::Failed(failures(limits))))
    } else if known.violations is None {
        Next::Ask(
            RegisterAsk::EvaluatePolicy { username: &input.username, email: given_email(input) },
        )
    } else if (known.violations->0)@.len() > 0 {
        Next::Done(Ok(RegisterPayloadView::Failed(violation_errors_of((known.violations->0)@))))
    } else {
        match &known.registration {
            None => Next::Ask(
                RegisterAsk::AddRegistration {
                    username: &input.username,
                    ip_address: &requester.ip_address,
                    user_agent: &requester.user_agent,
                },
            ),
            Some(registration) => stored_registration_next(input, settings, registration, known),
        }
    }
}

/// The next thing that a registration asks for, or its outcome.
pub open spec fn register_next<'a>(
    requester: &'a RegistrationRequester,
    settings: &'a RegistrationSettings,
    input: &'a RegisterUserInitiateInput,
    known: &'a RegisterAnswers,
) -> Next<RegisterAsk<'a>, RegisterPayloadView> {
    register_form_next(requester, settings, input, gives_address(input), known)
}

/// The contents of an outcome.
pub open spec fn register_view<'a>(
    next: Next<RegisterAsk<'a>, RegisterUserInitiatePayload>,
) -> Next<RegisterAsk<'a>, RegisterPayloadView> {
    match next {
        Next::Ask(ask) => Next::Ask(ask),
        Next::Done(Err(error)) => Next::Done(Err(error)),
        Next::Done(Ok(payload)) => Next::Done(Ok(payload@)),
    }
}

fn check_username<'a>(input: &'a RegisterUserInitiateInput, known: &'a RegisterAnswers) -> (r:
    FieldCheck<'a>)
    ensures
        r == username_check(input, known),
{
    if input.username.as_str().is_empty() {
        return FieldCheck::Failed("Username is required");
    }
    match known.username_taken {
        None => FieldCheck::Ask(RegisterAsk::IsUsernameTaken(&input.username)),
        Some(true) => FieldCheck::Failed("Username is already taken"),
        Some(false) => match known.username_available {
            None => FieldCheck::Ask(RegisterAsk::IsUsernameAvailable(&input.username)),
            Some(false) => FieldCheck::Failed("Username is not available"),
            Some(true) => FieldCheck::Passed,
        },
    }
}

fn check_password<'a>(input: &'a RegisterUserInitiateInput, known: &'a RegisterAnswers) -> (r:
    FieldCheck<'a>)
    ensures
        r == password_check(input, known),
{
    if input.password.as_str().is_empty() {
        return FieldCheck::Failed("Password is required");
    }
    match known.password_complex_enough {
        None => FieldCheck::Ask(RegisterAsk::IsPasswordComplexEnough(&input.password)),
        Some(false) => FieldCheck::Failed("Password is too weak"),
        Some(true) => FieldCheck::Passed,
    }
}

fn check_password_confirm<'a>(input: &'a RegisterUserInitiateInput) -> (r: FieldCheck<'a>)
    ensures
        r == password_confirm_check(input),
{
    if let Some(confirm) = &input.password_confirm {
        if !same_text(confirm, &input.password) {
            return FieldCheck::Failed("Passwords do not match");
        }
    }
    FieldCheck::Passed
}

fn email_of<'a>(input: &'a RegisterUserInitiateInput) -> (r: Option<&'a String>)
    ensures
        r == given_email(input),
{
    match &input.email {
        Some(email) => if email.as_str().is_empty() {
            None
        } else {
            Some(email)
        },
        None => None,
    }
}

fn check_email<'a>(
    input: &'a RegisterUserInitiateInput,
    settings: &'a RegistrationSettings,
    is_address: bool,
) -> (r: FieldCheck<'a>)
    ensures
        r == email_check(input, settings, is_address),
{
    match email_of(input) {
        Some(_) => if is_address {
            FieldCheck::Passed
        } else {
            FieldCheck::Failed("Email address is invalid")
        },
        None => if settings.password_registration_email_required {
            FieldCheck::Failed("Email is required")
        } else {
            FieldCheck::Passed
        },
    }
}

fn check_registration_token<'a>(
    input: &'a RegisterUserInitiateInput,
    settings: &'a RegistrationSettings,
    known: &'a RegisterAnswers,
) -> (r: FieldCheck<'a>)
    ensures
        r == registration_token_check(input, settings, known),
{
    if !settings.registration_token_required {
        return FieldCheck::Passed;
    }
    match &input.registration_token {
        Some(token) => {
            if token.as_str().is_empty() {
                return FieldCheck::Failed("Registration token is required");
            }
            match &known.token {
                None => FieldCheck::Ask(RegisterAsk::FindToken(token)),
                Some(Some(record)) => if record.valid {
                    FieldCheck::Passed
                } else {
                    FieldCheck::Failed("Invalid or expired registration token")
                },
                Some(None) => FieldCheck::Failed("Invalid or expired registration token"),
            }
        },
        None => FieldCheck::Failed("Registration token is required"),
    }
}

fn check_accept_terms<'a>(
    input: &'a RegisterUserInitiateInput,
    settings: &'a RegistrationSettings,
) -> (r: FieldCheck<'a>)
    ensures
        r == accept_terms_check(input, settings),
{
    if settings.tos_uri.is_none() {
        return FieldCheck::Passed;
    }
    match input.accept_terms {
        Some(true) => FieldCheck::Passed,
        _ => FieldCheck::Failed("You must accept the terms of service"),
    }
}

fn check_captcha<'a>(
    input: &'a RegisterUserInitiateInput,
    settings: &'a RegistrationSettings,
    known: &'a RegisterAnswers,
) -> (r: FieldCheck<'a>)
    ensures
        r == captcha_check(input, settings, known),
{
    if !settings.captcha_configured {
        return FieldCheck::Passed;
    }
    match known.captcha_passed {
        None => FieldCheck::Ask(RegisterAsk::VerifyCaptcha(&input.captcha_response)),
        Some(false) => FieldCheck::Failed("CAPTCHA verification failed"),
        Some(true) => FieldCheck::Passed,
    }
}

fn check_form<'a>(
    input: &'a RegisterUserInitiateInput,
    settings: &'a RegistrationSettings,
    is_address: bool,
    known: &'a RegisterAnswers,
) -> (r: Vec<NamedCheck<'a>>)
    ensures
        r@ == form_checks(input, settings, is_address, known),
{
    let mut r: Vec<NamedCheck<'a>> = Vec::new();
    r.push(NamedCheck { field: "username", check: check_username(input, known) });
    r.push(NamedCheck { field: "password", check: check_password(input, known) });
    r.push(NamedCheck { field: "password_confirm", check: check_password_confirm(input) });
    r.push(NamedCheck { field: "email", check: check_email(input, settings, is_address) });
    r.push(
        NamedCheck {
            field: "registration_token",
            check: check_registration_token(input, settings, known),
        },
    );
    r.push(NamedCheck { field: "accept_terms", check: check_accept_terms(input, settings) });
    r.push(NamedCheck { field: "captcha", check: check_captcha(input, settings, known) });
    r
}

fn check_limits<'a>(input: &'a RegisterUserInitiateInput, known: &'a RegisterAnswers) -> (r: Vec<
    NamedCheck<'a>,
>)
    ensures
        r@ == limit_checks(input, known),
{
    let registration: FieldCheck<'a> = match known.registration_within_limit {
        None => FieldCheck::Ask(RegisterAsk::CheckRegistrationLimit),
        Some(false) => FieldCheck::Failed("Too many registration attempts"),
        Some(true) => FieldCheck::Passed,
    };
    let email: FieldCheck<'a> = match email_of(input) {
        None => FieldCheck::Passed,
        Some(email) => match known.email_within_limit {
            None => FieldCheck::Ask(RegisterAsk::CheckEmailLimit(email)),
            Some(false) => FieldCheck::Failed("Too many email authentication attempts"),
            Some(true) => FieldCheck::Passed,
        },
    };
    let mut r: Vec<NamedCheck<'a>> = Vec::new();
    r.push(NamedCheck { field: "form", check: registration });
    r.push(NamedCheck { field: "email", check: email });
    r
}

/// What some checks come to: the first thing that one of them asks for, or else
/// the errors of those that failed.
fn run_checks<'a>(checks: Vec<NamedCheck<'a>>) -> (r: Result<
    Vec<RegistrationFieldError>,
    RegisterAsk<'a>,
>)
    ensures
        match r {
            Err(ask) => first_ask(checks@) == Some(ask),
            Ok(errors) => first_ask(checks@) is None && field_errors(errors@) == failures(checks@),
        },
{
    let mut errors: Vec<RegistrationFieldError> = Vec::new();
    let ghost all = checks@;
    let mut rest = checks;
    let ghost mut n: int = 0;
    assert(all.take(0) =~= Seq::empty());
    assert(all.skip(0) =~= all);
    assert(field_errors(errors@) =~= failures(all.take(0)));
    while rest.len() > 0
        invariant
            0 <= n <= all.len(),
            all == checks@,
            rest@ == all.skip(n),
            first_ask(all) == first_ask(rest@),
            field_errors(errors@) == failures(all.take(n)),
        decreases rest@.len(),
    {
        let ghost before = rest@;
        let first = rest.remove(0);
        proof {
            assert(rest@ =~= before.drop_first());
            assert(all.take(n + 1).drop_last() =~= all.take(n));
            assert(all.take(n + 1).last() == first);
        }
        match first.check {
            FieldCheck::Ask(ask) => {
                return Err(ask);
            },
            FieldCheck::Passed => {},
            FieldCheck::Failed(message) => {
                let ghost old_errors = errors@;
                errors.push(RegistrationFieldError::new(first.field, message));
                assert(field_errors(errors@) =~= field_errors(old_errors).push(
                    FieldErrorView { field: first.field@, message: message@ },
                ));
            },
        }
        proof {
            n = n + 1;
        }
    }
    assert(all.take(n) =~= all);
    Ok(errors)
}

/// The errors that some policy violations come to.
pub fn violation_errors(violations: &Vec<PolicyViolation>) -> (r: Vec<RegistrationFieldError>)
    ensures
        field_errors(r@) == violation_errors_of(violations@),
{
    let mut r: Vec<RegistrationFieldError> = Vec::new();
    let mut i: usize = 0;
    while i < violations.len()
        invariant
            0 <= i <= violations@.len(),
            r@.len() == i,
            forall|j: int| 0 <= j < i ==> (#[trigger] r@[j])@ == violation_errors_of(violations@)[j],
        decreases violations@.len() - i,
    {
        let violation = &violations[i];
        let field: &'static str = match &violation.field {
            Some(field) => if same_text(field, "email") {
                "email"
            } else if same_text(field, "username") {
                "username"
            } else if same_text(field, "password") {
                "password"
            } else {
                "form"
            },
            None => "form",
        };
        r.push(RegistrationFieldError::new(field, &violation.msg));
        i = i + 1;
    }
    assert(field_errors(r@) =~= violation_errors_of(violations@));
    r
}

fn remaining_steps(registration: &UserRegistration) -> (r: Vec<RegistrationStep>)
    ensures
        r@ == steps_left(*registration),
{
    let mut r: Vec<RegistrationStep> = Vec::new();
    if registration.email_authentication_id.is_some() {
        r.push(RegistrationStep { step_type: RegistrationStepType::EmailVerification });
    }
    r
}

fn continue_registration<'a>(
    input: &'a RegisterUserInitiateInput,
    settings: &'a RegistrationSettings,
    registration: &'a UserRegistration,
    known: &'a RegisterAnswers,
) -> (r: Next<RegisterAsk<'a>, RegisterUserInitiatePayload>)
    ensures
        register_view(r) == stored_registration_next(input, settings, registration, known),
{
    if let Some(tos_uri) = &settings.tos_uri {
        if !known.terms_url_set {
            return Next::Ask(RegisterAsk::SetTermsUrl { registration, terms_url: tos_uri });
        }
    }
    if let Some(email) = email_of(input) {
        match &known.email_authentication {
            None => {
                return Next::Ask(
                    RegisterAsk::AddEmailAuthentication { registration, address: email },
                );
            },
            Some(authentication) => {
                if !known.email_code_scheduled {
                    return Next::Ask(
                        RegisterAsk::ScheduleEmailCode { authentication, language: &input.language },
                    );
                }
                if !known.email_authentication_set {
                    return Next::Ask(
                        RegisterAsk::SetEmailAuthentication { registration, authentication },
                    );
                }
            },
        }
    }
    match &known.hashed_password {
        None => {
            return Next::Ask(RegisterAsk::HashPassword(&input.password));
        },
        Some(password) => {
            if !known.password_set {
                return Next::Ask(RegisterAsk::SetPassword { registration, password });
            }
        },
    }
    if settings.registration_token_required {
        if let Some(Some(token)) = &known.token {
            match &known.stored_token {
                None => {
                    return Next::Ask(RegisterAsk::LookupToken(token.id));
                },
                Some(None) => {
                    return Next::Done(Err(MutationError::TokenNotFound));
                },
                Some(Some(stored)) => {
                    if !known.registration_token_set {
                        return Next::Ask(
                            RegisterAsk::SetRegistrationToken { registration, token: stored },
                        );
                    }
                },
            }
        }
    }
    let next_steps = remaining_steps(registration);
    if next_steps.len() > 0 {
        if !known.saved {
            return Next::Ask(RegisterAsk::Save);
        }
        return Next::Done(
            Ok(
                RegisterUserInitiatePayload::Pending {
                    session_id: encode_ulid(registration.id),
                    next_steps,
                },
            ),
        );
    }
    // With no step left, the registration is finished at once.
    match UserMutations::complete_registration(registration, &known.completion) {
        Next::Ask(ask) => Next::Ask(RegisterAsk::Complete(ask)),
        Next::Done(Err(error)) => Next::Done(Err(error)),
        Next::Done(Ok((user, session))) => {
            if !known.saved {
                return Next::Ask(RegisterAsk::Save);
            }
            Next::Done(Ok(RegisterUserInitiatePayload::Complete(user, session)))
        },
    }
}

impl UserMutations {
    /// Initiate a user registration.
    pub fn register_user_initiate<'a>(
        &self,
        requester: &'a RegistrationRequester,
        settings: &'a RegistrationSettings,
        input: &'a RegisterUserInitiateInput,
        known: &'a RegisterAnswers,
    ) -> (r: Next<RegisterAsk<'a>, RegisterUserInitiatePayload>)
        ensures
            register_view(r) == register_next(requester, settings, input, known),
    {
        let is_address: bool = match email_of(input) {
            Some(email) => parses_as_email_address(email),
            None => false,
        };
        self.register_form(requester, settings, input, is_address, known)
    }

    /// Initiate a user registration, given whether the e-mail address that came with
    /// it is one.
    pub fn register_form<'a>(
        &self,
        requester: &'a RegistrationRequester,
        settings: &'a RegistrationSettings,
        input: &'a RegisterUserInitiateInput,
        is_address: bool,
        known: &'a RegisterAnswers,
    ) -> (r: Next<RegisterAsk<'a>, RegisterUserInitiatePayload>)
        ensures
            register_view(r) == register_form_next(requester, settings, input, is_address, known),
    {
        // Only requesters that are not signed in may register.
        if !requester.unauthenticated {
            return Next::Done(Err(MutationError::AlreadyAuthenticated));
        }
        if !settings.password_registration_enabled {
            return Next::Done(Err(MutationError::RegistrationDisabled));
        }
        if !known.repository_open {
            return Next::Ask(RegisterAsk::OpenRepository);
        }
        match run_checks(check_form(input, settings, is_address, known)) {
            Err(ask) => {
                return Next::Ask(ask);
            },
            Ok(errors) => {
                if errors.len() > 0 {
                    return Next::Done(Ok(RegisterUserInitiatePayload::Failed(errors)));
                }
            },
        }
        match run_checks(check_limits(input, known)) {
            Err(ask) => {
                return Next::Ask(ask);
            },
            Ok(errors) => {
                if errors.len() > 0 {
                    return Next::Done(Ok(RegisterUserInitiatePayload::Failed(errors)));
                }
            },
        }
        match &known.violations {
            None => {
                return Next::Ask(
                    RegisterAsk::EvaluatePolicy {
                        username: &input.username,
                        email: email_of(input),
                    },
                );
            },
            Some(violations) => {
                if violations.len() > 0 {
                    return Next::Done(
                        Ok(RegisterUserInitiatePayload::Failed(violation_errors(violations))),
                    );
                }
            },
        }
        match &known.registration {
            None => Next::Ask(
                RegisterAsk::AddRegistration {
                    username: &input.username,
                    ip_address: &requester.ip_address,
                    user_agent: &requester.user_agent,
                },
            ),
            Some(registration) => continue_registration(input, settings, registration, known),
        }
    }
}

impl<'a> RegisterAsk<'a> {
    /// The registration that this is about, if it writes to one.
    pub open spec fn registration(self) -> Option<&'a UserRegistration> {
        match self {
            RegisterAsk::SetTermsUrl { registration, .. } => Some(registration),
            RegisterAsk::AddEmailAuthentication { registration, .. } => Some(registration),
            RegisterAsk::SetEmailAuthentication { registration, .. } => Some(registration),
            RegisterAsk::SetPassword { registration, .. } => Some(registration),
            RegisterAsk::SetRegistrationToken { registration, .. } => Some(registration),
            RegisterAsk::Complete(CompletionAsk::MarkCompleted(registration)) => Some(registration),
            _ => None,
        }
    }

    /// Whether this changes what is stored.
    pub open spec fn writes(self) -> bool {
        match self {
            RegisterAsk::AddRegistration { .. } => true,
            RegisterAsk::SetTermsUrl { .. } => true,
            RegisterAsk::AddEmailAuthentication { .. } => true,
            RegisterAsk::ScheduleEmailCode { .. } => true,
            RegisterAsk::SetEmailAuthentication { .. } => true,
            RegisterAsk::SetPassword { .. } => true,
            RegisterAsk::SetRegistrationToken { .. } => true,
            RegisterAsk::Complete(ask) => ask.writes(),
            RegisterAsk::Save => true,
            _ => false,
        }
    }

    /// Whether the answers hold the answer to this.
    pub open spec fn answered_in(self, known: RegisterAnswers) -> bool {
        match self {
            RegisterAsk::OpenRepository => known.repository_open,
            RegisterAsk::IsUsernameTaken(_) => known.username_taken is Some,
            RegisterAsk::IsUsernameAvailable(_) => known.username_available is Some,
            RegisterAsk::IsPasswordComplexEnough(_) => known.password_complex_enough is Some,
            RegisterAsk::FindToken(_) => known.token is Some,
            RegisterAsk::VerifyCaptcha(_) => known.captcha_passed is Some,
            RegisterAsk::CheckRegistrationLimit => known.registration_within_limit is Some,
            RegisterAsk::CheckEmailLimit(_) => known.email_within_limit is Some,
            RegisterAsk::EvaluatePolicy { .. } => known.violations is Some,
            RegisterAsk::AddRegistration { .. } => known.registration is Some,
            RegisterAsk::SetTermsUrl { .. } => known.terms_url_set,
            RegisterAsk::AddEmailAuthentication { .. } => known.email_authentication is Some,
            RegisterAsk::ScheduleEmailCode { .. } => known.email_code_scheduled,
            RegisterAsk::SetEmailAuthentication { .. } => known.email_authentication_set,
            RegisterAsk::HashPassword(_) => known.hashed_password is Some,
            RegisterAsk::SetPassword { .. } => known.password_set,
            RegisterAsk::LookupToken(_) => known.stored_token is Some,
            RegisterAsk::SetRegistrationToken { .. } => known.registration_token_set,
            RegisterAsk::Complete(ask) => ask.answered_in(known.completion),
            RegisterAsk::Save => known.saved,
        }
    }
}

/// Whether a registration is one that the site admits: whoever asks is not signed
/// in, every field is as the site requires it, no rate limit is exceeded and the
/// policy has no objection.
pub open spec fn admitted<'a>(
    requester: &'a RegistrationRequester,
    settings: &'a RegistrationSettings,
    input: &'a RegisterUserInitiateInput,
    known: &'a RegisterAnswers,
) -> bool {
    &&& requester.unauthenticated
    &&& settings.password_registration_enabled
    &&& input.username@.len() > 0
    &&& known.username_taken == Some(false)
    &&& known.username_available == Some(true)
    &&& input.password@.len() > 0
    &&& known.password_complex_enough == Some(true)
    &&& input.password_confirm matches Some(confirm) ==> confirm@ == input.password@
    &&& given_email(input) matches Some(email) ==> crate::email::is_email_address(email@)
        && known.email_within_limit == Some(true)
    &&& settings.password_registration_email_required ==> given_email(input) is Some
    &&& settings.registration_token_required ==> (known.token matches Some(Some(token))
        && token.valid)
    &&& settings.tos_uri is Some ==> input.accept_terms == Some(true)
    &&& settings.captcha_configured ==> known.captcha_passed == Some(true)
    &&& known.registration_within_limit == Some(true)
    &&& known.violations matches Some(violations) && violations@.len() == 0
}

proof fn checks_without_failures_passed<'a>(checks: Seq<NamedCheck<'a>>)
    requires
        first_ask(checks) is None,
        failures(checks).len() == 0,
    ensures
        forall|i: int| 0 <= i < checks.len() ==> (#[trigger] checks[i]).check is Passed,
    decreases checks.len(),
{
    if checks.len() > 0 {
        no_ask_in_any_check(checks);
        let front = checks.drop_last();
        assert(first_ask(front) is None) by {
            no_check_no_ask(front);
        }
        checks_without_failures_passed(front);
        assert forall|i: int| 0 <= i < checks.len() implies (
        #[trigger] checks[i]).check is Passed by {
            if i < front.len() {
                assert(front[i].check is Passed);
            }
        }
    }
}

proof fn no_ask_in_any_check<'a>(checks: Seq<NamedCheck<'a>>)
    requires
        first_ask(checks) is None,
    ensures
        forall|i: int| 0 <= i < checks.len() ==> !((#[trigger] checks[i]).check is Ask),
    decreases checks.len(),
{
    if checks.len() > 0 {
        no_ask_in_any_check(checks.drop_first());
        assert forall|i: int| 0 <= i < checks.len() implies !((
        #[trigger] checks[i]).check is Ask) by {
            if i > 0 {
                assert(!(checks.drop_first()[i - 1].check is Ask));
            }
        }
    }
}

proof fn no_check_no_ask<'a>(checks: Seq<NamedCheck<'a>>)
    requires
        forall|i: int| 0 <= i < checks.len() ==> !((#[trigger] checks[i]).check is Ask),
    ensures
        first_ask(checks) is None,
    decreases checks.len(),
{
    if checks.len() > 0 {
        assert(!(checks[0].check is Ask));
        no_check_no_ask(checks.drop_first());
    }
}

proof fn first_ask_is_of_a_check<'a>(checks: Seq<NamedCheck<'a>>) -> (i: int)
    requires
        first_ask(checks) is Some,
    ensures
        0 <= i < checks.len(),
        checks[i].check == FieldCheck::Ask(first_ask(checks)->0),
    decreases checks.len(),
{
    if checks[0].check is Ask {
        0
    } else {
        let j = first_ask_is_of_a_check(checks.drop_first());
        j + 1
    }
}

/// Nothing is stored, and no e-mail is sent, unless the registration is admitted.
pub proof fn law_only_admitted_registrations_are_stored<'a>(
    requester: &'a RegistrationRequester,
    settings: &'a RegistrationSettings,
    input: &'a RegisterUserInitiateInput,
    known: &'a RegisterAnswers,
)
    ensures
        register_next(requester, settings, input, known) matches Next::Ask(ask) && ask.writes()
            ==> admitted(requester, settings, input, known),
        register_next(requester, settings, input, known) matches Next::Done(
            Ok(RegisterPayloadView::Pending { .. }),
        ) ==> admitted(requester, settings, input, known),
        register_next(requester, settings, input, known) matches Next::Done(
            Ok(RegisterPayloadView::Complete(_, _)),
        ) ==> admitted(requester, settings, input, known),
{
    let form = form_checks(input, settings, gives_address(input), known);
    let limits = limit_checks(input, known);
    if first_ask(form) is Some {
        let i = first_ask_is_of_a_check(form);
    } else if failures(form).len() == 0 {
        checks_without_failures_passed(form);
        assert(form[0].check is Passed);
        assert(form[1].check is Passed);
        assert(form[2].check is Passed);
        assert(form[3].check is Passed);
        assert(form[4].check is Passed);
        assert(form[5].check is Passed);
        assert(form[6].check is Passed);
        if first_ask(limits) is Some {
            let i = first_ask_is_of_a_check(limits);
        } else if failures(limits).len() == 0 {
            checks_without_failures_passed(limits);
            assert(limits[0].check is Passed);
            assert(limits[1].check is Passed);
        }
    }
}

/// A registration that failed says what was wrong.
pub proof fn law_failed_registrations_have_errors<'a>(
    requester: &'a RegistrationRequester,
    settings: &'a RegistrationSettings,
    input: &'a RegisterUserInitiateInput,
    known: &'a RegisterAnswers,
)
    ensures
        register_next(requester, settings, input, known) matches Next::Done(
            Ok(RegisterPayloadView::Failed(errors)),
        ) ==> errors.len() > 0,
{
}

/// What is written to a registration is written to the one that was added, as it was last
/// returned.
pub proof fn law_registrations_write_to_their_own<'a>(
    requester: &'a RegistrationRequester,
    settings: &'a RegistrationSettings,
    input: &'a RegisterUserInitiateInput,
    known: &'a RegisterAnswers,
)
    ensures
        register_next(requester, settings, input, known) matches Next::Ask(ask) ==> (
        ask.registration() matches Some(registration) ==> known.registration == Some(
            *registration,
        )),
{
    let form = form_checks(input, settings, gives_address(input), known);
    let limits = limit_checks(input, known);
    if first_ask(form) is Some {
        let i = first_ask_is_of_a_check(form);
    }
    if first_ask(limits) is Some {
        let i = first_ask_is_of_a_check(limits);
    }
}

/// Where an e-mail address is still to be verified, no account is created yet, and
/// the client is told to verify it.
pub proof fn law_accounts_wait_for_email_verification<'a>(
    requester: &'a RegistrationRequester,
    settings: &'a RegistrationSettings,
    input: &'a RegisterUserInitiateInput,
    known: &'a RegisterAnswers,
)
    requires
        known.registration matches Some(registration)
            && registration.email_authentication_id is Some,
    ensures
        !(register_next(requester, settings, input, known) matches Next::Ask(
            RegisterAsk::Complete(_),
        )),
        !(register_next(requester, settings, input, known) matches Next::Done(
            Ok(RegisterPayloadView::Complete(_, _)),
        )),
        register_next(requester, settings, input, known) matches Next::Done(
            Ok(RegisterPayloadView::Pending { session_id, next_steps }),
        ) ==> next_steps == seq![
            RegistrationStep { step_type: RegistrationStepType::EmailVerification },
        ] && crate::ids::ulid_of(session_id) == Some(known.registration->0.id),
{
    let form = form_checks(input, settings, gives_address(input), known);
    let limits = limit_checks(input, known);
    if first_ask(form) is Some {
        let i = first_ask_is_of_a_check(form);
    }
    if first_ask(limits) is Some {
        let i = first_ask_is_of_a_check(limits);
    }
    crate::ids::law_ulid_text_reads_back(known.registration->0.id);
}

/// A registration that succeeded, at once or but for the steps left, was saved, and
/// by then it held the password and all that the site asks for.
pub proof fn law_successful_registrations_are_saved<'a>(
    requester: &'a RegistrationRequester,
    settings: &'a RegistrationSettings,
    input: &'a RegisterUserInitiateInput,
    known: &'a RegisterAnswers,
)
    ensures
        register_next(requester, settings, input, known) matches Next::Done(
            Ok(payload),
        ) && !(payload is Failed) ==> known.saved,
        register_next(requester, settings, input, known) == Next::<
            RegisterAsk<'a>,
            RegisterPayloadView,
        >::Ask(RegisterAsk::Save) ==> {
            &&& known.registration is Some
            &&& known.password_set
            &&& settings.tos_uri is Some ==> known.terms_url_set
            &&& given_email(input) is Some ==> known.email_code_scheduled
                && known.email_authentication_set
            &&& settings.registration_token_required ==> known.registration_token_set
        },
{
    law_only_admitted_registrations_are_stored(requester, settings, input, known);
    let form = form_checks(input, settings, gives_address(input), known);
    let limits = limit_checks(input, known);
    if first_ask(form) is Some {
        let i = first_ask_is_of_a_check(form);
    }
    if first_ask(limits) is Some {
        let i = first_ask_is_of_a_check(limits);
    }
}

/// Only what has no answer yet is asked for.
pub proof fn law_registration_asks_for_the_missing<'a>(
    requester: &'a RegistrationRequester,
    settings: &'a RegistrationSettings,
    input: &'a RegisterUserInitiateInput,
    known: &'a RegisterAnswers,
)
    ensures
        register_next(requester, settings, input, known) matches Next::Ask(ask)
            ==> !ask.answered_in(*known),
{
    let form = form_checks(input, settings, gives_address(input), known);
    let limits = limit_checks(input, known);
    if first_ask(form) is Some {
        let i = first_ask_is_of_a_check(form);
    }
    if first_ask(limits) is Some {
        let i = first_ask_is_of_a_check(limits);
    }
    if known.registration is Some {
        crate::users::completion::law_completion_asks_for_the_missing(
            &known.registration->0,
            &known.completion,
        );
    }
}

/// Once a registration is saved, it succeeds, at once or but for the steps left: nothing
/// is saved for one that fails.
pub proof fn law_saving_ends_the_registration<'a>(
    requester: &'a RegistrationRequester,
    settings: &'a RegistrationSettings,
    input: &'a RegisterUserInitiateInput,
    known: &'a RegisterAnswers,
    later: &'a RegisterAnswers,
)
    requires
        register_next(requester, settings, input, known)
            == Next::<RegisterAsk<'a>, RegisterPayloadView>::Ask(
            RegisterAsk::Save,
        ),
        *later == (RegisterAnswers { saved: true, ..*known }),
    ensures
        register_next(requester, settings, input, later) matches Next::Done(Ok(payload))
            && !(payload is Failed),
{
    let form = form_checks(input, settings, gives_address(input), known);
    let limits = limit_checks(input, known);
    assert(form =~= form_checks(input, settings, gives_address(input), later));
    assert(limits =~= limit_checks(input, later));
    if first_ask(form) is Some {
        let i = first_ask_is_of_a_check(form);
    }
    if first_ask(limits) is Some {
        let i = first_ask_is_of_a_check(limits);
    }
}

/// The error about a field, where there is one.
pub open spec fn error_if(wrong: bool, field: Seq<char>, message: Seq<char>) -> Seq<
    FieldErrorView,
> {
    if wrong {
        seq![FieldErrorView { field, message }]
    } else {
        seq![]
    }
}

/// Whether an e-mail address was filled in.
pub open spec fn fills_in_email(input: RegisterUserInitiateInput) -> bool {
    input.email is Some && (input.email->0)@.len() > 0
}

/// Whether a token was filled in.
pub open spec fn fills_in_token(input: RegisterUserInitiateInput) -> bool {
    input.registration_token is Some && (input.registration_token->0)@.len() > 0
}

/// Whether every check of the form has the answers that it needs.
pub open spec fn form_is_answered(
    settings: RegistrationSettings,
    input: RegisterUserInitiateInput,
    known: RegisterAnswers,
) -> bool {
    &&& input.username@.len() > 0 ==> known.username_taken is Some
    &&& input.username@.len() > 0 && (known.username_taken matches Some(false))
        ==> known.username_available is Some
    &&& input.password@.len() > 0 ==> known.password_complex_enough is Some
    &&& settings.registration_token_required && fills_in_token(input) ==> known.token is Some
    &&& settings.captcha_configured ==> known.captcha_passed is Some
}

/// What is wrong with the name: it is missing, taken, or not available.
pub open spec fn wrong_username(
    input: RegisterUserInitiateInput,
    known: RegisterAnswers,
) -> Seq<FieldErrorView> {
    let named = input.username@.len() > 0;
    let taken = named && (known.username_taken matches Some(true));
    error_if(!named, "username"@, "Username is required"@) + error_if(
        taken,
        "username"@,
        "Username is already taken"@,
    ) + error_if(
        named && !taken && (known.username_available matches Some(false)),
        "username"@,
        "Username is not available"@,
    )
}

/// What is wrong with the password: it is missing or weak.
pub open spec fn wrong_password(
    input: RegisterUserInitiateInput,
    known: RegisterAnswers,
) -> Seq<FieldErrorView> {
    error_if(input.password@.len() == 0, "password"@, "Password is required"@) + error_if(
        input.password@.len() > 0 && (known.password_complex_enough matches Some(false)),
        "password"@,
        "Password is too weak"@,
    )
}

/// What is wrong with the confirmation: there is one, and it is not the password.
pub open spec fn wrong_confirmation(input: RegisterUserInitiateInput) -> Seq<FieldErrorView> {
    error_if(
        input.password_confirm is Some && (input.password_confirm->0)@ != input.password@,
        "password_confirm"@,
        "Passwords do not match"@,
    )
}

/// What is wrong with the address: it is none, or it is missing where the site requires
/// one.
pub open spec fn wrong_email(
    settings: RegistrationSettings,
    input: RegisterUserInitiateInput,
) -> Seq<FieldErrorView> {
    error_if(
        fills_in_email(input) && !crate::email::is_email_address((input.email->0)@),
        "email"@,
        "Email address is invalid"@,
    ) + error_if(
        !fills_in_email(input) && settings.password_registration_email_required,
        "email"@,
        "Email is required"@,
    )
}

/// What is wrong with the token, where the site requires one: it is missing, or it cannot
/// be used.
pub open spec fn wrong_token(
    settings: RegistrationSettings,
    input: RegisterUserInitiateInput,
    known: RegisterAnswers,
) -> Seq<FieldErrorView> {
    error_if(
        settings.registration_token_required && !fills_in_token(input),
        "registration_token"@,
        "Registration token is required"@,
    ) + error_if(
        settings.registration_token_required && fills_in_token(input) && !(
        known.token matches Some(Some(token)) && token.valid),
        "registration_token"@,
        "Invalid or expired registration token"@,
    )
}

/// What is wrong with the terms: there are some, and they are not accepted.
pub open spec fn wrong_terms(
    settings: RegistrationSettings,
    input: RegisterUserInitiateInput,
) -> Seq<FieldErrorView> {
    error_if(
        settings.tos_uri is Some && !(input.accept_terms matches Some(true)),
        "accept_terms"@,
        "You must accept the terms of service"@,
    )
}

/// What is wrong with the CAPTCHA: there is one, and it is not passed.
pub open spec fn wrong_captcha(
    settings: RegistrationSettings,
    known: RegisterAnswers,
) -> Seq<FieldErrorView> {
    error_if(
        settings.captcha_configured && (known.captcha_passed matches Some(false)),
        "captcha"@,
        "CAPTCHA verification failed"@,
    )
}

/// What is wrong with what was filled in, field by field.
pub open spec fn what_is_wrong(
    settings: RegistrationSettings,
    input: RegisterUserInitiateInput,
    known: RegisterAnswers,
) -> Seq<FieldErrorView> {
    wrong_username(input, known) + wrong_password(input, known) + wrong_confirmation(input)
        + wrong_email(settings, input) + wrong_token(settings, input, known) + wrong_terms(
        settings,
        input,
    ) + wrong_captcha(settings, known)
}

spec fn error_of<'a>(check: NamedCheck<'a>) -> Seq<FieldErrorView> {
    match check.check {
        FieldCheck::Failed(message) => seq![
            FieldErrorView { field: check.field@, message: message@ },
        ],
        _ => seq![],
    }
}

proof fn failures_by_check<'a>(checks: Seq<NamedCheck<'a>>)
    ensures
        checks.len() == 0 ==> failures(checks) == Seq::<FieldErrorView>::empty(),
        checks.len() > 0 ==> failures(checks) == failures(checks.drop_last()) + error_of(
            checks.last(),
        ),
{
    if checks.len() > 0 {
        assert(failures(checks) =~= failures(checks.drop_last()) + error_of(checks.last()));
    }
}

proof fn failures_of_seven<'a>(checks: Seq<NamedCheck<'a>>)
    requires
        checks.len() == 7,
    ensures
        failures(checks) == error_of(checks[0]) + error_of(checks[1]) + error_of(checks[2])
            + error_of(checks[3]) + error_of(checks[4]) + error_of(checks[5]) + error_of(checks[6]),
{
    let c6 = checks.drop_last();
    let c5 = c6.drop_last();
    let c4 = c5.drop_last();
    let c3 = c4.drop_last();
    let c2 = c3.drop_last();
    let c1 = c2.drop_last();
    failures_by_check(checks);
    failures_by_check(c6);
    failures_by_check(c5);
    failures_by_check(c4);
    failures_by_check(c3);
    failures_by_check(c2);
    failures_by_check(c1);
    failures_by_check(c1.drop_last());
    assert(failures(c1) =~= error_of(checks[0]));
}

proof fn failures_of_two<'a>(checks: Seq<NamedCheck<'a>>)
    requires
        checks.len() == 2,
    ensures
        failures(checks) == error_of(checks[0]) + error_of(checks[1]),
{
    let c1 = checks.drop_last();
    failures_by_check(checks);
    failures_by_check(c1);
    failures_by_check(c1.drop_last());
    assert(failures(c1) =~= error_of(checks[0]));
}

proof fn form_comes_to<'a>(
    settings: &'a RegistrationSettings,
    input: &'a RegisterUserInitiateInput,
    known: &'a RegisterAnswers,
)
    requires
        form_is_answered(*settings, *input, *known),
    ensures
        first_ask(form_checks(input, settings, gives_address(input), known)) is None,
        failures(form_checks(input, settings, gives_address(input), known)) == what_is_wrong(
            *settings,
            *input,
            *known,
        ),
{
    let form = form_checks(input, settings, gives_address(input), known);
    assert forall|i: int| 0 <= i < form.len() implies !((#[trigger] form[i]).check is Ask) by {}
    no_check_no_ask(form);
    failures_of_seven(form);
    assert(error_of(form[0]) =~= wrong_username(*input, *known));
    assert(error_of(form[1]) =~= wrong_password(*input, *known));
    assert(error_of(form[2]) =~= wrong_confirmation(*input));
    assert(error_of(form[3]) =~= wrong_email(*settings, *input));
    assert(error_of(form[4]) =~= wrong_token(*settings, *input, *known));
    assert(error_of(form[5]) =~= wrong_terms(*settings, *input));
    assert(error_of(form[6]) =~= wrong_captcha(*settings, *known));
}

/// A form that is answered for fails exactly where something filled in is wrong, and then
/// the answer names all that is wrong, in the order of the fields.
pub proof fn law_forms_fail_for_what_is_wrong<'a>(
    requester: &'a RegistrationRequester,
    settings: &'a RegistrationSettings,
    input: &'a RegisterUserInitiateInput,
    known: &'a RegisterAnswers,
)
    requires
        requester.unauthenticated,
        settings.password_registration_enabled,
        known.repository_open,
        form_is_answered(*settings, *input, *known),
        what_is_wrong(*settings, *input, *known).len() > 0,
    ensures
        register_next(requester, settings, input, known) == Next::<
            RegisterAsk<'a>,
            RegisterPayloadView,
        >::Done(Ok(RegisterPayloadView::Failed(what_is_wrong(*settings, *input, *known)))),
{
    form_comes_to(settings, input, known);
}

/// Whether a registration has begun: by someone who is not signed in, on a site that
/// takes registrations with a password, and the repository is open.
pub open spec fn has_begun(
    requester: RegistrationRequester,
    settings: RegistrationSettings,
    known: RegisterAnswers,
) -> bool {
    requester.unauthenticated && settings.password_registration_enabled && known.repository_open
}

/// Whoever is signed in cannot register, and nobody can where the site takes no
/// registrations with a password. Everyone else can begin.
pub proof fn law_registrations_begin_for_anonymous_users<'a>(
    requester: &'a RegistrationRequester,
    settings: &'a RegistrationSettings,
    input: &'a RegisterUserInitiateInput,
    known: &'a RegisterAnswers,
)
    ensures
        ({
            let next = register_next(requester, settings, input, known);
            &&& next.refuses(MutationError::AlreadyAuthenticated) <==> !requester.unauthenticated
            &&& requester.unauthenticated && !settings.password_registration_enabled
                ==> next.refuses(MutationError::RegistrationDisabled)
            &&& requester.unauthenticated && settings.password_registration_enabled
                && !known.repository_open ==> next.asks(RegisterAsk::OpenRepository)
            &&& has_begun(*requester, *settings, *known) ==> !next.refuses(
                MutationError::RegistrationDisabled,
            ) && !next.asks(RegisterAsk::OpenRepository)
        }),
{
    let form = form_checks(input, settings, gives_address(input), known);
    let limits = limit_checks(input, known);
    if first_ask(form) is Some {
        let i = first_ask_is_of_a_check(form);
    }
    if first_ask(limits) is Some {
        let i = first_ask_is_of_a_check(limits);
    }
}

proof fn first_of_seven<'a>(checks: Seq<NamedCheck<'a>>, n: int)
    requires
        0 <= n < checks.len(),
        checks[n].check is Ask,
        forall|i: int| 0 <= i < n ==> !((#[trigger] checks[i]).check is Ask),
    ensures
        first_ask(checks) == Some(checks[n].check->Ask_0),
    decreases n,
{
    if n > 0 {
        assert(!(checks[0].check is Ask));
        assert forall|i: int| 0 <= i < n - 1 implies !((
        #[trigger] checks.drop_first()[i]).check is Ask) by {
            assert(checks.drop_first()[i] == checks[i + 1]);
        }
        first_of_seven(checks.drop_first(), n - 1);
    }
}

/// What the form needs to be checked is asked for in turn: whether the name is taken,
/// whether the homeserver has it free, whether the password is strong, the token that was
/// filled in where the site requires one, and whether the CAPTCHA is passed.
pub proof fn law_forms_are_asked_about_in_turn<'a>(
    requester: &'a RegistrationRequester,
    settings: &'a RegistrationSettings,
    input: &'a RegisterUserInitiateInput,
    known: &'a RegisterAnswers,
)
    requires
        has_begun(*requester, *settings, *known),
    ensures
        ({
            let next = register_next(requester, settings, input, known);
            let named = input.username@.len() > 0;
            let taken_open = named && known.username_taken is None;
            let available_open = named && (known.username_taken matches Some(false))
                && known.username_available is None;
            let name_done = !taken_open && !available_open;
            let strength_open = input.password@.len() > 0 && known.password_complex_enough is None;
            let token_open = settings.registration_token_required && fills_in_token(*input)
                && known.token is None;
            let captcha_open = settings.captcha_configured && known.captcha_passed is None;
            &&& taken_open ==> next.asks(RegisterAsk::IsUsernameTaken(&input.username))
            &&& available_open ==> next.asks(RegisterAsk::IsUsernameAvailable(&input.username))
            &&& name_done && strength_open ==> next.asks(
                RegisterAsk::IsPasswordComplexEnough(&input.password),
            )
            &&& name_done && !strength_open && token_open ==> next.asks(
                RegisterAsk::FindToken(&input.registration_token->0),
            )
            &&& name_done && !strength_open && !token_open && captcha_open ==> next.asks(
                RegisterAsk::VerifyCaptcha(&input.captcha_response),
            )
        }),
{
    let form = form_checks(input, settings, gives_address(input), known);
    let named = input.username@.len() > 0;
    if named && (known.username_taken is None || ((known.username_taken matches Some(false))
        && known.username_available is None)) {
        first_of_seven(form, 0);
    } else if input.password@.len() > 0 && known.password_complex_enough is None {
        first_of_seven(form, 1);
    } else if settings.registration_token_required && fills_in_token(*input)
        && known.token is None {
        first_of_seven(form, 4);
    } else if settings.captcha_configured && known.captcha_passed is None {
        first_of_seven(form, 6);
    }
}

/// Whether nothing that was filled in is wrong.
pub open spec fn nothing_is_wrong(
    settings: RegistrationSettings,
    input: RegisterUserInitiateInput,
    known: RegisterAnswers,
) -> bool {
    form_is_answered(settings, input, known) && what_is_wrong(settings, input, known).len() == 0
}

/// What the rate limits have against a registration.
pub open spec fn what_is_too_much(
    input: RegisterUserInitiateInput,
    known: RegisterAnswers,
) -> Seq<FieldErrorView> {
    error_if(
        known.registration_within_limit matches Some(false),
        "form"@,
        "Too many registration attempts"@,
    ) + error_if(
        fills_in_email(input) && (known.email_within_limit matches Some(false)),
        "email"@,
        "Too many email authentication attempts"@,
    )
}

/// Whether the rate limits are answered for: of registrations, and of e-mails to the
/// address if there is one.
pub open spec fn limits_are_answered(
    input: RegisterUserInitiateInput,
    known: RegisterAnswers,
) -> bool {
    known.registration_within_limit is Some && (fills_in_email(input)
        ==> known.email_within_limit is Some)
}

proof fn limits_come_to<'a>(input: &'a RegisterUserInitiateInput, known: &'a RegisterAnswers)
    ensures
        limits_are_answered(*input, *known) ==> first_ask(limit_checks(input, known)) is None
            && failures(limit_checks(input, known)) == what_is_too_much(*input, *known),
        known.registration_within_limit is None ==> first_ask(limit_checks(input, known)) == Some(
            RegisterAsk::<'a>::CheckRegistrationLimit,
        ),
        known.registration_within_limit is Some && fills_in_email(*input)
            && known.email_within_limit is None ==> first_ask(limit_checks(input, known)) == Some(
            RegisterAsk::<'a>::CheckEmailLimit(&input.email->0),
        ),
{
    let limits = limit_checks(input, known);
    failures_of_two(limits);
    if limits_are_answered(*input, *known) {
        assert forall|i: int| 0 <= i < limits.len() implies !((
        #[trigger] limits[i]).check is Ask) by {}
        no_check_no_ask(limits);
        assert(error_of(limits[0]) + error_of(limits[1]) =~= what_is_too_much(*input, *known));
    } else if known.registration_within_limit is None {
        first_of_seven(limits, 0);
    } else {
        first_of_seven(limits, 1);
    }
}

/// Once nothing filled in is wrong, the rate limits are checked: of registrations, then of
/// e-mails to the address. A registration past one fails, and says which.
pub proof fn law_limits_are_checked_next<'a>(
    requester: &'a RegistrationRequester,
    settings: &'a RegistrationSettings,
    input: &'a RegisterUserInitiateInput,
    known: &'a RegisterAnswers,
)
    requires
        has_begun(*requester, *settings, *known),
        nothing_is_wrong(*settings, *input, *known),
    ensures
        ({
            let next = register_next(requester, settings, input, known);
            &&& known.registration_within_limit is None ==> next.asks(
                RegisterAsk::CheckRegistrationLimit,
            )
            &&& known.registration_within_limit is Some && fills_in_email(*input)
                && known.email_within_limit is None ==> next.asks(
                RegisterAsk::CheckEmailLimit(&input.email->0),
            )
            &&& limits_are_answered(*input, *known) && what_is_too_much(*input, *known).len() > 0
                ==> next.gives(RegisterPayloadView::Failed(what_is_too_much(*input, *known)))
        }),
{
    form_comes_to(settings, input, known);
    limits_come_to(input, known);
}

/// Once the rate limits allow a registration, the policy is asked about its name and
/// address. Each violation is told, under the field that it names if that is the address,
/// the name or the password, and under the whole form otherwise.
pub proof fn law_policy_is_evaluated_last<'a>(
    requester: &'a RegistrationRequester,
    settings: &'a RegistrationSettings,
    input: &'a RegisterUserInitiateInput,
    known: &'a RegisterAnswers,
)
    requires
        has_begun(*requester, *settings, *known),
        nothing_is_wrong(*settings, *input, *known),
        limits_are_answered(*input, *known),
        what_is_too_much(*input, *known).len() == 0,
    ensures
        ({
            let next = register_next(requester, settings, input, known);
            &&& known.violations is None ==> next.asks(
                RegisterAsk::EvaluatePolicy {
                    username: &input.username,
                    email: if fills_in_email(*input) {
                        Some(&input.email->0)
                    } else {
                        None
                    },
                },
            )
            &&& (known.violations matches Some(violations) && violations@.len() > 0) ==> {
                &&& next matches Next::Done(Ok(RegisterPayloadView::Failed(errors)))
                &&& errors.len() == (known.violations->0)@.len()
                &&& forall|i: int|
                    0 <= i < errors.len() ==> {
                        let violation = (known.violations->0)@[i];
                        &&& (#[trigger] errors[i]).message == violation.msg@
                        &&& errors[i].field == if violation.field is Some && ((
                        violation.field->0)@ == "email"@ || (violation.field->0)@ == "username"@ || (
                        violation.field->0)@ == "password"@) {
                            (violation.field->0)@
                        } else {
                            "form"@
                        }
                    }
            }
        }),
{
    form_comes_to(settings, input, known);
    limits_come_to(input, known);
}

/// Whether a registration has nothing against it: it has begun, what was filled in is as
/// the site wants it, it is within the limits, and the policy has no objection.
pub open spec fn has_nothing_against_it(
    requester: RegistrationRequester,
    settings: RegistrationSettings,
    input: RegisterUserInitiateInput,
    known: RegisterAnswers,
) -> bool {
    &&& has_begun(requester, settings, known)
    &&& input.username@.len() > 0
    &&& (known.username_taken matches Some(false))
    &&& (known.username_available matches Some(true))
    &&& input.password@.len() > 0
    &&& (known.password_complex_enough matches Some(true))
    &&& input.password_confirm is None || (input.password_confirm->0)@ == input.password@
    &&& if fills_in_email(input) {
        crate::email::is_email_address((input.email->0)@) && (
        known.email_within_limit matches Some(true))
    } else {
        !settings.password_registration_email_required
    }
    &&& settings.registration_token_required ==> fills_in_token(input) && (
    known.token matches Some(Some(token)) && token.valid)
    &&& settings.tos_uri is Some ==> (input.accept_terms matches Some(true))
    &&& settings.captcha_configured ==> (known.captcha_passed matches Some(true))
    &&& (known.registration_within_limit matches Some(true))
    &&& (known.violations matches Some(violations) && violations@.len() == 0)
}

proof fn nothing_against_it_passes<'a>(
    requester: &'a RegistrationRequester,
    settings: &'a RegistrationSettings,
    input: &'a RegisterUserInitiateInput,
    known: &'a RegisterAnswers,
)
    requires
        has_nothing_against_it(*requester, *settings, *input, *known),
    ensures
        nothing_is_wrong(*settings, *input, *known),
        limits_are_answered(*input, *known),
        what_is_too_much(*input, *known).len() == 0,
{
    assert(what_is_wrong(*settings, *input, *known) =~= Seq::<FieldErrorView>::empty());
    assert(what_is_too_much(*input, *known) =~= Seq::<FieldErrorView>::empty());
}

/// A registration that has nothing against it is not refused: it never fails, and it is
/// stored under its name, with where it came from, if that was not done before. A missing
/// confirmation is nothing against it, nor is anything that the site does not ask for.
pub proof fn law_admitted_registrations_are_not_refused<'a>(
    requester: &'a RegistrationRequester,
    settings: &'a RegistrationSettings,
    input: &'a RegisterUserInitiateInput,
    known: &'a RegisterAnswers,
)
    requires
        has_nothing_against_it(*requester, *settings, *input, *known),
    ensures
        ({
            let next = register_next(requester, settings, input, known);
            &&& !(next matches Next::Done(Ok(RegisterPayloadView::Failed(_))))
            &&& known.registration is None ==> next.asks(
                RegisterAsk::AddRegistration {
                    username: &input.username,
                    ip_address: &requester.ip_address,
                    user_agent: &requester.user_agent,
                },
            )
        }),
{
    nothing_against_it_passes(requester, settings, input, known);
    form_comes_to(settings, input, known);
    limits_come_to(input, known);
}

/// A stored registration is filled in turn: the terms of the site, the address with a code
/// on its way to it in the language that was asked for, the hash of the password, and the
/// token that was found. With an address to verify it is then saved as pending, under its
/// identifier; without one the account is created at once, and then saved.
pub proof fn law_stored_registrations_are_filled_in<'a>(
    requester: &'a RegistrationRequester,
    settings: &'a RegistrationSettings,
    input: &'a RegisterUserInitiateInput,
    known: &'a RegisterAnswers,
)
    requires
        has_nothing_against_it(*requester, *settings, *input, *known),
        known.registration is Some,
    ensures
        ({
            let next = register_next(requester, settings, input, known);
            let registration = &known.registration->0;
            let terms_done = settings.tos_uri is None || known.terms_url_set;
            let email_done = !fills_in_email(*input) || (known.email_authentication is Some
                && known.email_code_scheduled && known.email_authentication_set);
            let password_done = known.hashed_password is Some && known.password_set;
            let token_done = !settings.registration_token_required || ((
            known.stored_token matches Some(Some(_))) && known.registration_token_set);
            let filled = terms_done && email_done && password_done && token_done;
            let account = crate::users::completion::completion_next(
                registration,
                &known.completion,
            );
            &&& !terms_done ==> next.asks(
                RegisterAsk::SetTermsUrl { registration, terms_url: &settings.tos_uri->0 },
            )
            &&& terms_done && fills_in_email(*input) && known.email_authentication is None
                ==> next.asks(
                RegisterAsk::AddEmailAuthentication { registration, address: &input.email->0 },
            )
            &&& terms_done && fills_in_email(*input) && known.email_authentication is Some
                && !known.email_code_scheduled ==> next.asks(
                RegisterAsk::ScheduleEmailCode {
                    authentication: &known.email_authentication->0,
                    language: &input.language,
                },
            )
            &&& terms_done && fills_in_email(*input) && known.email_authentication is Some
                && known.email_code_scheduled && !known.email_authentication_set ==> next.asks(
                RegisterAsk::SetEmailAuthentication {
                    registration,
                    authentication: &known.email_authentication->0,
                },
            )
            &&& terms_done && email_done && known.hashed_password is None ==> next.asks(
                RegisterAsk::HashPassword(&input.password),
            )
            &&& terms_done && email_done && known.hashed_password is Some && !known.password_set
                ==> next.asks(
                RegisterAsk::SetPassword { registration, password: &known.hashed_password->0 },
            )
            &&& terms_done && email_done && password_done && settings.registration_token_required
                ==> {
                &&& known.stored_token is None ==> next.asks(
                    RegisterAsk::LookupToken(known.token->0->0.id),
                )
                &&& (known.stored_token matches Some(None)) ==> next.refuses(
                    MutationError::TokenNotFound,
                )
                &&& (known.stored_token matches Some(Some(_))) && !known.registration_token_set
                    ==> next.asks(
                    RegisterAsk::SetRegistrationToken {
                        registration,
                        token: &known.stored_token->0->0,
                    },
                )
            }
            &&& filled && registration.email_authentication_id is Some ==> {
                &&& !known.saved ==> next.asks(RegisterAsk::Save)
                &&& known.saved ==> next.gives(
                    RegisterPayloadView::Pending {
                        session_id: crate::ids::ulid_text(registration.id),
                        next_steps: seq![
                            RegistrationStep { step_type: RegistrationStepType::EmailVerification },
                        ],
                    },
                )
            }
            &&& filled && registration.email_authentication_id is None ==> {
                &&& account matches Next::Ask(ask) ==> next.asks(RegisterAsk::Complete(ask))
                &&& account matches Next::Done(Err(error)) ==> next.refuses(error)
                &&& account matches Next::Done(Ok((user, session))) ==> if known.saved {
                    next.gives(RegisterPayloadView::Complete(user, session))
                } else {
                    next.asks(RegisterAsk::Save)
                }
            }
        }),
{
    nothing_against_it_passes(requester, settings, input, known);
    form_comes_to(settings, input, known);
    limits_come_to(input, known);
}

/// Once everything that the form needs is answered for, the registration fails for each field
/// that is wrong, and all of them are told at once. A confirmation is wrong where one was given
/// that is not the password.
pub proof fn law_each_wrong_field_is_told<'a>(
    requester: &'a RegistrationRequester,
    settings: &'a RegistrationSettings,
    input: &'a RegisterUserInitiateInput,
    is_address: bool,
    known: &'a RegisterAnswers,
)
    requires
        requester.unauthenticated,
        settings.password_registration_enabled,
        known.repository_open,
        input.username@.len() > 0 ==> known.username_taken is Some,
        input.username@.len() > 0 && known.username_taken == Some(false)
            ==> known.username_available is Some,
        input.password@.len() > 0 ==> known.password_complex_enough is Some,
        settings.registration_token_required && input.registration_token is Some && (
        input.registration_token->0)@.len() > 0 ==> known.token is Some,
        settings.captcha_configured ==> known.captcha_passed is Some,
    ensures
        ({
            let next = register_form_next(requester, settings, input, is_address, known);
            let nameless = input.username@.len() == 0;
            let taken = !nameless && (known.username_taken matches Some(true));
            let unavailable = !nameless && !taken && (
            known.username_available matches Some(false));
            let empty = input.password@.len() == 0;
            let weak = !empty && (known.password_complex_enough matches Some(false));
            let mismatch = input.password_confirm is Some && (input.password_confirm->0)@
                != input.password@;
            let addressed = input.email is Some && (input.email->0)@.len() > 0;
            let no_address = addressed && !is_address;
            let unaddressed = !addressed && settings.password_registration_email_required;
            let with_token = input.registration_token is Some && (
            input.registration_token->0)@.len() > 0;
            let tokenless = settings.registration_token_required && !with_token;
            let bad_token = settings.registration_token_required && with_token && !(
            known.token matches Some(Some(token)) && token.valid);
            let not_accepted = settings.tos_uri is Some && !(
            input.accept_terms matches Some(true));
            let robot = settings.captcha_configured && (
            known.captcha_passed matches Some(false));
            &&& nameless ==> fails_for(next, "username"@, "Username is required"@)
            &&& taken ==> fails_for(next, "username"@, "Username is already taken"@)
            &&& unavailable ==> fails_for(next, "username"@, "Username is not available"@)
            &&& empty ==> fails_for(next, "password"@, "Password is required"@)
            &&& weak ==> fails_for(next, "password"@, "Password is too weak"@)
            &&& mismatch ==> fails_for(next, "password_confirm"@, "Passwords do not match"@)
            &&& no_address ==> fails_for(next, "email"@, "Email address is invalid"@)
            &&& unaddressed ==> fails_for(next, "email"@, "Email is required"@)
            &&& tokenless ==> fails_for(
                next,
                "registration_token"@,
                "Registration token is required"@,
            )
            &&& bad_token ==> fails_for(
                next,
                "registration_token"@,
                "Invalid or expired registration token"@,
            )
            &&& not_accepted ==> fails_for(
                next,
                "accept_terms"@,
                "You must accept the terms of service"@,
            )
            &&& robot ==> fails_for(next, "captcha"@, "CAPTCHA verification failed"@)
        }),
{
    let form = form_checks(input, settings, is_address, known);
    let next = register_form_next(requester, settings, input, is_address, known);
    form_fields_come_to(settings, input, is_address, known);
    no_check_no_ask(form);
    assert forall|k: int|
        0 <= k < 7 implies ((#[trigger] form[k]).check matches FieldCheck::Failed(message)
        ==> fails_for(next, form[k].field@, message@)) by {
        failures_are_told(form, k);
        reveal(tells);
    }
    assert(form[0].check == username_check(input, known));
    assert(form[1].check == password_check(input, known));
    assert(form[2].check == password_confirm_check(input));
    assert(form[3].check == email_check(input, settings, is_address));
    assert(form[4].check == registration_token_check(input, settings, known));
    assert(form[5].check == accept_terms_check(input, settings));
    assert(form[6].check == captcha_check(input, settings, known));
}

/// Where no field is wrong, the registration does not fail for its form: the rate limits come
/// next. A confirmation may be missing, and so may be an address, a token, the acceptance of
/// terms and a CAPTCHA where the site does not ask for them.
pub proof fn law_good_forms_are_not_refused<'a>(
    requester: &'a RegistrationRequester,
    settings: &'a RegistrationSettings,
    input: &'a RegisterUserInitiateInput,
    is_address: bool,
    known: &'a RegisterAnswers,
)
    requires
        requester.unauthenticated,
        settings.password_registration_enabled,
        known.repository_open,
        input.username@.len() > 0,
        known.username_taken == Some(false),
        known.username_available == Some(true),
        input.password@.len() > 0,
        known.password_complex_enough == Some(true),
        input.password_confirm is None || (input.password_confirm->0)@ == input.password@,
        input.email is Some && (input.email->0)@.len() > 0 ==> is_address,
        input.email is None || (input.email->0)@.len() == 0
            ==> !settings.password_registration_email_required,
        settings.registration_token_required ==> input.registration_token is Some && (
        input.registration_token->0)@.len() > 0 && (known.token matches Some(Some(token))
            && token.valid),
        settings.tos_uri is Some ==> input.accept_terms == Some(true),
        settings.captcha_configured ==> known.captcha_passed == Some(true),
    ensures
        known.registration_within_limit is None ==> register_form_next(
            requester,
            settings,
            input,
            is_address,
            known,
        ).asks(RegisterAsk::CheckRegistrationLimit),
        known.registration_within_limit == Some(true) && (input.email is None || (
        input.email->0)@.len() == 0 || known.email_within_limit == Some(true)) ==> {
            let next = register_form_next(requester, settings, input, is_address, known);
            &&& known.violations is None ==> next is Ask && next->Ask_0 is EvaluatePolicy
            &&& known.violations matches Some(violations) ==> (violations@.len() == 0 ==> !(
            next matches Next::Done(Ok(RegisterPayloadView::Failed(_)))))
        },
{
    let form = form_checks(input, settings, is_address, known);
    form_fields_come_to(settings, input, is_address, known);
    assert forall|k: int| 0 <= k < form.len() implies (#[trigger] form[k]).check is Passed by {}
    no_check_no_ask(form);
    nothing_failed(form);
    limits_come_to(input, known);
    if known.registration_within_limit == Some(true) {
        nothing_failed_within_the_limits(input, known);
    }
}

proof fn nothing_failed<'a>(checks: Seq<NamedCheck<'a>>)
    requires
        forall|k: int| 0 <= k < checks.len() ==> (#[trigger] checks[k]).check is Passed,
    ensures
        failures(checks).len() == 0,
    decreases checks.len(),
{
    if checks.len() > 0 {
        let front = checks.drop_last();
        assert forall|k: int| 0 <= k < front.len() implies (#[trigger] front[k]).check is Passed by {
            assert(front[k] == checks[k]);
        }
        nothing_failed(front);
        assert(checks[checks.len() - 1].check is Passed);
    }
}

proof fn nothing_failed_within_the_limits<'a>(
    input: &'a RegisterUserInitiateInput,
    known: &'a RegisterAnswers,
)
    requires
        known.registration_within_limit == Some(true),
    ensures
        !fills_in_email(*input) || known.email_within_limit == Some(true)
            ==> what_is_too_much(*input, *known).len() == 0,
{
    if !fills_in_email(*input) || known.email_within_limit == Some(true) {
        assert(what_is_too_much(*input, *known) =~= Seq::<FieldErrorView>::empty());
    }
}

/// Whether a registration fails, and this is among what is told.
pub open spec fn fails_for<'a>(
    next: Next<RegisterAsk<'a>, RegisterPayloadView>,
    field: Seq<char>,
    message: Seq<char>,
) -> bool {
    next matches Next::Done(Ok(RegisterPayloadView::Failed(errors))) && tells(
        errors,
        field,
        message,
    )
}

proof fn form_fields_come_to<'a>(
    settings: &'a RegistrationSettings,
    input: &'a RegisterUserInitiateInput,
    is_address: bool,
    known: &'a RegisterAnswers,
)
    requires
        form_is_answered(*settings, *input, *known),
    ensures
        ({
            let form = form_checks(input, settings, is_address, known);
            &&& form.len() == 7
            &&& forall|i: int| 0 <= i < form.len() ==> !((#[trigger] form[i]).check is Ask)
            &&& form[0] == (NamedCheck { field: "username", check: username_check(input, known) })
            &&& form[1] == (NamedCheck { field: "password", check: password_check(input, known) })
            &&& form[2] == (NamedCheck {
                field: "password_confirm",
                check: password_confirm_check(input),
            })
            &&& form[3] == (NamedCheck {
                field: "email",
                check: email_check(input, settings, is_address),
            })
            &&& form[4] == (NamedCheck {
                field: "registration_token",
                check: registration_token_check(input, settings, known),
            })
            &&& form[5] == (NamedCheck {
                field: "accept_terms",
                check: accept_terms_check(input, settings),
            })
            &&& form[6] == (NamedCheck {
                field: "captcha",
                check: captcha_check(input, settings, known),
            })
        }),
{
}

proof fn failures_are_told<'a>(checks: Seq<NamedCheck<'a>>, k: int)
    requires
        0 <= k < checks.len(),
    ensures
        checks[k].check matches FieldCheck::Failed(message) ==> tells(
            failures(checks),
            checks[k].field@,
            message@,
        ),
    decreases checks.len(),
{
    reveal(tells);
    if let FieldCheck::Failed(message) = checks[k].check {
        let front = checks.drop_last();
        let before = failures(front);
        let after = failures(checks);
        if k < front.len() {
            failures_are_told(front, k);
            let i = choose|i: int|
                0 <= i < before.len() && (#[trigger] before[i]).field == checks[k].field@
                    && before[i].message == message@;
            assert(after[i] == before[i]);
        } else {
            assert(after[after.len() - 1].message == message@);
        }
    }
}

/// Whether some errors hold this one.
#[verifier::opaque]
pub open spec fn tells(
    errors: Seq<FieldErrorView>,
    field: Seq<char>,
    message: Seq<char>,
) -> bool {
    exists|i: int|
        0 <= i < errors.len() && (#[trigger] errors[i]).field == field && errors[i].message
            == message
}

/// Whether the address reads as one is all that the form has from outside: it makes no
/// difference where no address was filled in, and otherwise it is what the text reads as.
pub proof fn law_addresses_count_where_they_are_filled_in<'a>(
    requester: &'a RegistrationRequester,
    settings: &'a RegistrationSettings,
    input: &'a RegisterUserInitiateInput,
    known: &'a RegisterAnswers,
)
    ensures
        input.email is Some && (input.email->0)@.len() > 0 ==> register_next(
            requester,
            settings,
            input,
            known,
        ) == register_form_next(
            requester,
            settings,
            input,
            crate::email::is_email_address((input.email->0)@),
            known,
        ),
        input.email is None || (input.email->0)@.len() == 0 ==> {
            &&& register_next(requester, settings, input, known) == register_form_next(
                requester,
                settings,
                input,
                true,
                known,
            )
            &&& register_next(requester, settings, input, known) == register_form_next(
                requester,
                settings,
                input,
                false,
                known,
            )
        },
{
    if input.email is None || (input.email->0)@.len() == 0 {
        let form = form_checks(input, settings, gives_address(input), known);
        assert(form =~= form_checks(input, settings, true, known));
        assert(form =~= form_checks(input, settings, false, known));
    }
}

/// Each policy violation comes to one error with its message, in their order: under the field
/// that it names if that is the address, the name or the password, and under the whole form
/// otherwise.
pub proof fn law_violations_are_told_one_by_one(violations: Seq<PolicyViolation>, i: int)
    ensures
        violation_errors_of(violations).len() == violations.len(),
        0 <= i < violations.len() ==> {
            let error = violation_errors_of(violations)[i];
            &&& error.message == violations[i].msg@
            &&& violations[i].field is None ==> error.field == "form"@
            &&& violations[i].field matches Some(field) ==> if field@ == "email"@ || field@
                == "username"@ || field@ == "password"@ {
                error.field == field@
            } else {
                error.field == "form"@
            }
        },
{
}

/// The contents of an outcome are those of the outcome itself.
pub proof fn law_registrations_are_viewed_as_they_are<'a>(
    next: Next<RegisterAsk<'a>, RegisterUserInitiatePayload>,
    errors: Seq<RegistrationFieldError>,
)
    ensures
        next matches Next::Ask(ask) ==> register_view(next).asks(ask),
        next matches Next::Done(Err(error)) ==> register_view(next).refuses(error),
        next matches Next::Done(Ok(RegisterUserInitiatePayload::Complete(user, session)))
            ==> register_view(next).gives(RegisterPayloadView::Complete(user, session)),
        next matches Next::Done(
            Ok(RegisterUserInitiatePayload::Pending { session_id, next_steps }),
        ) ==> register_view(next).gives(
            RegisterPayloadView::Pending { session_id: session_id@, next_steps: next_steps@ },
        ),
        next matches Next::Done(Ok(RegisterUserInitiatePayload::Failed(told)))
            ==> register_view(next).gives(RegisterPayloadView::Failed(field_errors(told@))),
        field_errors(errors).len() == errors.len(),
        forall|i: int|
            0 <= i < errors.len() ==> (#[trigger] field_errors(errors)[i]).field
                == errors[i].field@ && field_errors(errors)[i].message == errors[i].message@,
{
}

} // verus!
