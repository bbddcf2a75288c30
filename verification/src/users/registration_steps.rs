//! The steps between the start of a registration and its end.

use crate::ids::parse_ulid;
use crate::instant::Instant;
use crate::json::JsonValue;
use crate::users::completion::CompletionAnswers;
use crate::users::completion::CompletionAsk;
use crate::users::model::BrowserSession;
use crate::users::model::EmailAuthentication;
use crate::users::model::EmailAuthenticationCode;
use crate::users::model::User;
use crate::users::model::UserRegistration;
use crate::users::registration::RegistrationFieldError;
use crate::users::registration::RegistrationStep;
use crate::users::registration::RegistrationStepType;
use crate::users::MutationError;
use crate::users::Next;
use crate::users::UserMutations;
use vstd::prelude::*;

verus! {

/// How long a registration may take, in seconds.
pub const REGISTRATION_LIFETIME: u32 = 3600;

/// The input for the `completeRegistrationStep` mutation.
#[derive(Debug)]
pub struct CompleteRegistrationStepInput {
    pub session_id: String,
    pub step_type: RegistrationStepType,
    /// Step-specific data. For `EmailVerification`: `{"code": "123456"}`.
    pub data: Option<JsonValue>,
}

/// The status of the `completeRegistrationStep` mutation.
#[derive(Debug, Clone, Copy, PartialEq, Eq, Structural)]
pub enum CompleteRegistrationStepStatus {
    Complete,
    Pending,
    Failed,
}

/// The payload for the `completeRegistrationStep` mutation.
#[derive(Debug, PartialEq, Eq)]
pub enum CompleteRegistrationStepPayload {
    Complete(User, BrowserSession),
    Pending { next_steps: Vec<RegistrationStep> },
    Failed(Vec<RegistrationFieldError>),
}

/// The contents of a [`CompleteRegistrationStepPayload`].
pub enum StepPayloadView {
    Complete(User, BrowserSession),
    Pending { next_steps: Seq<RegistrationStep> },
    Failed(Seq<crate::users::registration::FieldErrorView>),
}

impl View for CompleteRegistrationStepPayload {
    type V = StepPayloadView;

    open spec fn view(&self) -> StepPayloadView {
        match self {
            CompleteRegistrationStepPayload::Complete(user, session) => StepPayloadView::Complete(
                *user,
                *session,
            ),
            CompleteRegistrationStepPayload::Pending { next_steps } => StepPayloadView::Pending {
                next_steps: next_steps@,
            },
            CompleteRegistrationStepPayload::Failed(errors) => StepPayloadView::Failed(
                crate::users::registration::field_errors(errors@),
            ),
        }
    }
}

impl CompleteRegistrationStepPayload {
    /// Status of the operation
    pub fn status(&self) -> (r: CompleteRegistrationStepStatus)
        ensures
            self is Complete <==> r == CompleteRegistrationStepStatus::Complete,
            self is Pending <==> r == CompleteRegistrationStepStatus::Pending,
            self is Failed <==> r == CompleteRegistrationStepStatus::Failed,
    {
        match self {
            CompleteRegistrationStepPayload::Complete(_, _) => CompleteRegistrationStepStatus::Complete,
            CompleteRegistrationStepPayload::Pending { .. } => CompleteRegistrationStepStatus::Pending,
            CompleteRegistrationStepPayload::Failed(_) => CompleteRegistrationStepStatus::Failed,
        }
    }

    /// The user that was registered.
    pub fn user(&self) -> (r: Option<User>)
        ensures
            r == match *self {
                CompleteRegistrationStepPayload::Complete(user, _) => Some(user),
                _ => None,
            },
    {
        match self {
            CompleteRegistrationStepPayload::Complete(user, _) => Some(user.clone()),
            _ => None,
        }
    }

    /// The session that was started for the user.
    pub fn browser_session(&self) -> (r: Option<BrowserSession>)
        ensures
            r == match *self {
                CompleteRegistrationStepPayload::Complete(_, session) => Some(session),
                _ => None,
            },
    {
        match self {
            CompleteRegistrationStepPayload::Complete(_, session) => Some(session.clone()),
            _ => None,
        }
    }

    /// The steps that are left.
    pub fn next_steps(&self) -> (r: Option<Vec<RegistrationStep>>)
        ensures
            match r {
                Some(steps) => self is Pending && steps@ == self->next_steps@,
                None => !(self is Pending),
            },
    {
        match self {
            CompleteRegistrationStepPayload::Pending { next_steps, .. } => Some(next_steps.clone()),
            _ => None,
        }
    }

    /// What was wrong.
    pub fn errors(&self) -> (r: Option<Vec<RegistrationFieldError>>)
        ensures
            match r {
                Some(errors) => self is Failed && errors@ == self->Failed_0@,
                None => !(self is Failed),
            },
    {
        match self {
            CompleteRegistrationStepPayload::Failed(errors) => Some(errors.clone()),
            _ => None,
        }
    }
}

/// What a registration step asks for, or has done. `C` is the type of a code.
#[derive(Debug, PartialEq, Eq)]
pub enum StepAsk<'a, C> {
    /// Open the repository; nothing is kept until it is saved.
    OpenRepository,
    LookupRegistration(u128),
    ReadClock,
    LookupEmailAuthentication(u128),
    CheckAttemptLimit(&'a EmailAuthentication),
    FindCode { authentication: &'a EmailAuthentication, submitted: C },
    /// Read the clock once more, now that the code was found.
    ReadClockForCode,
    CompleteAuthentication {
        authentication: &'a EmailAuthentication,
        code: &'a EmailAuthenticationCode,
    },
    /// Look the registration up again.
    RefreshRegistration(u128),
    /// Look the e-mail authentication up again.
    RefreshEmailAuthentication(u128),
    Complete(CompletionAsk<'a>),
    Save,
}

/// The answers that a registration step has had so far.
#[derive(Debug)]
pub struct StepAnswers {
    pub repository_open: bool,
    pub registration: Option<Option<UserRegistration>>,
    pub now: Option<Instant>,
    pub email_authentication: Option<Option<EmailAuthentication>>,
    pub attempt_within_limit: Option<bool>,
    pub code: Option<Option<EmailAuthenticationCode>>,
    pub now_for_code: Option<Instant>,
    pub authentication_completed: bool,
    pub refreshed: Option<Option<UserRegistration>>,
    pub refreshed_authentication: Option<Option<EmailAuthentication>>,
    pub completion: CompletionAnswers,
    pub saved: bool,
}

impl StepAnswers {
    /// No answer yet.
    pub fn new() -> (r: Self)
        ensures
            !r.repository_open,
            r.registration is None,
            r.now is None,
            r.email_authentication is None,
            r.attempt_within_limit is None,
            r.code is None,
            r.now_for_code is None,
            !r.authentication_completed,
            r.refreshed is None,
            r.refreshed_authentication is None,
            r.completion.none(),
            !r.saved,
    {
        StepAnswers {
            repository_open: false,
            registration: None,
            now: None,
            email_authentication: None,
            attempt_within_limit: None,
            code: None,
            now_for_code: None,
            authentication_completed: false,
            refreshed: None,
            refreshed_authentication: None,
            completion: CompletionAnswers::new(),
            saved: false,
        }
    }
}

/// The code that came with a step: the text under `code`, or nothing.
pub open spec fn submitted_code(data: Option<JsonValue>) -> Seq<char> {
    match data {
        Some(value) => match value@.text_member("code"@) {
            Some(code) => code,
            None => ""@,
        },
        None => ""@,
    }
}

/// The code that came with a step.
pub fn code_of<'a>(input: &'a CompleteRegistrationStepInput) -> (r: &'a str)
    ensures
        r@ == submitted_code(input.data),
{
    match &input.data {
        Some(value) => match value.text_member("code") {
            Some(code) => code,
            None => "",
        },
        None => "",
    }
}

/// What comes of a submitted code: what the check asks for, `None` if the address is
/// verified or there is none to verify, or the message of the error.
pub open spec fn verification_next<'a>(
    registration: &'a UserRegistration,
    code: Seq<char>,
    known: &'a StepAnswers,
) -> Next<StepAsk<'a, Seq<char>>, Option<&'static str>> {
    match registration.email_authentication_id {
        None => Next::Done(Ok(None)),
        Some(id) => match &known.email_authentication {
            None => Next::Ask(StepAsk::LookupEmailAuthentication(id)),
            Some(None) => Next::Done(Err(MutationError::EmailAuthenticationNotFound)),
            Some(Some(authentication)) => match known.attempt_within_limit {
                None => Next::Ask(StepAsk::CheckAttemptLimit(authentication)),
                Some(false) => Next::Done(Ok(Some("Too many verification attempts"))),
                Some(true) => if authentication.completed_at is Some {
                    Next::Done(Ok(None))
                } else if code.len() == 0 {
                    Next::Done(Ok(Some("Verification code is required")))
                } else {
                    match &known.code {
                        None => Next::Ask(StepAsk::FindCode { authentication, submitted: code }),
                        Some(None) => Next::Done(Ok(Some("Invalid or expired verification code"))),
                        Some(Some(record)) => match known.now_for_code {
                            None => Next::Ask(StepAsk::ReadClockForCode),
                            Some(now) => if record.expires_at.since_epoch() > now.since_epoch() {
                                if known.authentication_completed {
                                    Next::Done(Ok(None))
                                } else {
                                    Next::Ask(
                                        StepAsk::CompleteAuthentication {
                                            authentication,
                                            code: record,
                                        },
                                    )
                                }
                            } else {
                                Next::Done(Ok(Some("Invalid or expired verification code")))
                            },
                        },
                    }
                },
            },
        },
    }
}

/// What is done once the step itself is taken: the steps left are worked out anew
/// and, where there are none, the account is created.
pub open spec fn after_verification_next<'a>(session_id: u128, known: &'a StepAnswers) -> Next<
    StepAsk<'a, Seq<char>>,
    StepPayloadView,
> {
    match &known.refreshed {
        None => Next::Ask(StepAsk::RefreshRegistration(session_id)),
        Some(None) => Next::Done(Err(MutationError::RegistrationNotFound)),
        Some(Some(registration)) => {
            let authentication = &known.refreshed_authentication;
            let id = registration.email_authentication_id;
            if id is Some && authentication is None {
                Next::Ask(StepAsk::RefreshEmailAuthentication(id->0))
            } else if id is Some && authentication->0 is None {
                Next::Done(Err(MutationError::EmailAuthMissing))
            } else if id is Some && authentication->0->0.completed_at is None {
                if known.saved {
                    Next::Done(
                        Ok(
                            StepPayloadView::Pending {
                                next_steps: seq![
                                    RegistrationStep {
                                        step_type: RegistrationStepType::EmailVerification,
                                    },
                                ],
                            },
                        ),
                    )
                } else {
                    Next::Ask(StepAsk::Save)
                }
            } else {
                match crate::users::completion::completion_next(registration, &known.completion) {
                    Next::Ask(ask) => Next::Ask(StepAsk::Complete(ask)),
                    Next::Done(Err(error)) => Next::Done(Err(error)),
                    Next::Done(Ok((user, session))) => if known.saved {
                        Next::Done(Ok(StepPayloadView::Complete(user, session)))
                    } else {
                        Next::Ask(StepAsk::Save)
                    },
                }
            }
        },
    }
}

/// What a step of a running registration comes to.
pub open spec fn running_registration_next<'a>(
    session_id: u128,
    code: Seq<char>,
    registration: &'a UserRegistration,
    known: &'a StepAnswers,
) -> Next<StepAsk<'a, Seq<char>>, StepPayloadView> {
    match verification_next(registration, code, known) {
        Next::Ask(ask) => Next::Ask(ask),
        Next::Done(Err(error)) => Next::Done(Err(error)),
        Next::Done(Ok(Some(message))) => Next::Done(
            Ok(
                StepPayloadView::Failed(
                    seq![
                        crate::users::registration::FieldErrorView {
                            field: "code"@,
                            message: message@,
                        },
                    ],
                ),
            ),
        ),
        Next::Done(Ok(None)) => after_verification_next(session_id, known),
    }
}

/// The next thing that a registration step asks for, or its outcome.
pub open spec fn registration_step_next<'a>(
    session_id: Seq<char>,
    code: Seq<char>,
    known: &'a StepAnswers,
) -> Next<StepAsk<'a, Seq<char>>, StepPayloadView> {
    if !known.repository_open {
        Next::Ask(StepAsk::OpenRepository)
    } else {
        match crate::ids::ulid_of(session_id) {
            None => Next::Done(Err(MutationError::InvalidSessionId)),
            Some(id) => match &known.registration {
                None => Next::Ask(StepAsk::LookupRegistration(id)),
                Some(None) => Next::Done(Err(MutationError::RegistrationNotFound)),
                Some(Some(registration)) => if registration.completed_at is Some {
                    Next::Done(Err(MutationError::RegistrationCompleted))
                } else {
                    match known.now {
                        None => Next::Ask(StepAsk::ReadClock),
                        Some(now) => if now.since_epoch() - registration.created_at.since_epoch()
                            > REGISTRATION_LIFETIME * 1_000_000_000 {
                            Next::Done(Err(MutationError::RegistrationExpired))
                        } else {
                            running_registration_next(id, code, registration, known)
                        },
                    }
                },
            },
        }
    }
}

/// An ask, with the code that it names taken as a sequence of characters.
pub open spec fn ask_view<'a>(ask: StepAsk<'a, &'a str>) -> StepAsk<'a, Seq<char>> {
    match ask {
        StepAsk::OpenRepository => StepAsk::OpenRepository,
        StepAsk::LookupRegistration(id) => StepAsk::LookupRegistration(id),
        StepAsk::ReadClock => StepAsk::ReadClock,
        StepAsk::LookupEmailAuthentication(id) => StepAsk::LookupEmailAuthentication(id),
        StepAsk::CheckAttemptLimit(authentication) => StepAsk::CheckAttemptLimit(authentication),
        StepAsk::FindCode { authentication, submitted } => StepAsk::FindCode {
            authentication,
            submitted: submitted@,
        },
        StepAsk::ReadClockForCode => StepAsk::ReadClockForCode,
        StepAsk::CompleteAuthentication { authentication, code } =>
        StepAsk::CompleteAuthentication { authentication, code },
        StepAsk::RefreshRegistration(id) => StepAsk::RefreshRegistration(id),
        StepAsk::RefreshEmailAuthentication(id) => StepAsk::RefreshEmailAuthentication(id),
        StepAsk::Complete(ask) => StepAsk::Complete(ask),
        StepAsk::Save => StepAsk::Save,
    }
}

/// The contents of an outcome.
pub open spec fn step_view<'a>(
    next: Next<StepAsk<'a, &'a str>, CompleteRegistrationStepPayload>,
) -> Next<StepAsk<'a, Seq<char>>, StepPayloadView> {
    match next {
        Next::Ask(ask) => Next::Ask(ask_view(ask)),
        Next::Done(Err(error)) => Next::Done(Err(error)),
        Next::Done(Ok(payload)) => Next::Done(Ok(payload@)),
    }
}

/// What a check of a code comes to, with the code taken as a sequence of characters.
spec fn verification_view<'a>(
    next: Next<StepAsk<'a, &'a str>, Option<&'static str>>,
) -> Next<StepAsk<'a, Seq<char>>, Option<&'static str>> {
    match next {
        Next::Ask(ask) => Next::Ask(ask_view(ask)),
        Next::Done(result) => Next::Done(result),
    }
}

fn check_verification<'a>(
    registration: &'a UserRegistration,
    code: &'a str,
    known: &'a StepAnswers,
) -> (r: Next<StepAsk<'a, &'a str>, Option<&'static str>>)
    ensures
        verification_view(r) == verification_next(registration, code@, known),
{
    let id = match registration.email_authentication_id {
        None => {
            return Next::Done(Ok(None));
        },
        Some(id) => id,
    };
    let authentication = match &known.email_authentication {
        None => {
            return Next::Ask(StepAsk::LookupEmailAuthentication(id));
        },
        Some(None) => {
            return Next::Done(Err(MutationError::EmailAuthenticationNotFound));
        },
        Some(Some(authentication)) => authentication,
    };
    match known.attempt_within_limit {
        None => {
            return Next::Ask(StepAsk::CheckAttemptLimit(authentication));
        },
        Some(false) => {
            return Next::Done(Ok(Some("Too many verification attempts")));
        },
        Some(true) => {},
    }
    if authentication.completed_at.is_some() {
        return Next::Done(Ok(None));
    }
    if code.is_empty() {
        return Next::Done(Ok(Some("Verification code is required")));
    }
    let record = match &known.code {
        None => {
            return Next::Ask(StepAsk::FindCode { authentication, submitted: code });
        },
        Some(None) => {
            return Next::Done(Ok(Some("Invalid or expired verification code")));
        },
        Some(Some(record)) => record,
    };
    match known.now_for_code {
        None => Next::Ask(StepAsk::ReadClockForCode),
        Some(now) => {
            if !record.expires_at.is_after(&now) {
                return Next::Done(Ok(Some("Invalid or expired verification code")));
            }
            if known.authentication_completed {
                return Next::Done(Ok(None));
            }
            Next::Ask(StepAsk::CompleteAuthentication { authentication, code: record })
        },
    }
}

fn continue_after_verification<'a>(session_id: u128, known: &'a StepAnswers) -> (r: Next<
    StepAsk<'a, &'a str>,
    CompleteRegistrationStepPayload,
>)
    ensures
        step_view(r) == after_verification_next(session_id, known),
{
    let registration = match &known.refreshed {
        None => {
            return Next::Ask(StepAsk::RefreshRegistration(session_id));
        },
        Some(None) => {
            return Next::Done(Err(MutationError::RegistrationNotFound));
        },
        Some(Some(registration)) => registration,
    };
    if let Some(id) = registration.email_authentication_id {
        match &known.refreshed_authentication {
            None => {
                return Next::Ask(StepAsk::RefreshEmailAuthentication(id));
            },
            Some(None) => {
                return Next::Done(Err(MutationError::EmailAuthMissing));
            },
            Some(Some(authentication)) => {
                if authentication.completed_at.is_none() {
                    if !known.saved {
                        return Next::Ask(StepAsk::Save);
                    }
                    let mut next_steps: Vec<RegistrationStep> = Vec::new();
                    next_steps.push(
                        RegistrationStep { step_type: RegistrationStepType::EmailVerification },
                    );
                    return Next::Done(Ok(CompleteRegistrationStepPayload::Pending { next_steps }));
                }
            },
        }
    }
    match UserMutations::complete_registration(registration, &known.completion) {
        Next::Ask(ask) => Next::Ask(StepAsk::Complete(ask)),
        Next::Done(Err(error)) => Next::Done(Err(error)),
        Next::Done(Ok((user, session))) => {
            if !known.saved {
                return Next::Ask(StepAsk::Save);
            }
            Next::Done(Ok(CompleteRegistrationStepPayload::Complete(user, session)))
        },
    }
}

impl UserMutations {
    /// Take a step of a registration that is under way.
    pub fn complete_registration_step<'a>(
        &self,
        input: &'a CompleteRegistrationStepInput,
        known: &'a StepAnswers,
    ) -> (r: Next<StepAsk<'a, &'a str>, CompleteRegistrationStepPayload>)
        ensures
            step_view(r) == registration_step_next(
                input.session_id@,
                submitted_code(input.data),
                known,
            ),
    {
        if !known.repository_open {
            return Next::Ask(StepAsk::OpenRepository);
        }
        let session_id = match parse_ulid(&input.session_id) {
            None => {
                return Next::Done(Err(MutationError::InvalidSessionId));
            },
            Some(id) => id,
        };
        let registration = match &known.registration {
            None => {
                return Next::Ask(StepAsk::LookupRegistration(session_id));
            },
            Some(None) => {
                return Next::Done(Err(MutationError::RegistrationNotFound));
            },
            Some(Some(registration)) => registration,
        };
        if registration.completed_at.is_some() {
            return Next::Done(Err(MutationError::RegistrationCompleted));
        }
        match known.now {
            None => {
                return Next::Ask(StepAsk::ReadClock);
            },
            Some(now) => {
                if now.is_later_by_more_than(&registration.created_at, REGISTRATION_LIFETIME) {
                    return Next::Done(Err(MutationError::RegistrationExpired));
                }
            },
        }
        let verified = match input.step_type {
            RegistrationStepType::EmailVerification => check_verification(
                registration,
                code_of(input),
                known,
            ),
        };
        match verified {
            Next::Ask(ask) => Next::Ask(ask),
            Next::Done(Err(error)) => Next::Done(Err(error)),
            Next::Done(Ok(Some(message))) => {
                let mut errors: Vec<RegistrationFieldError> = Vec::new();
                errors.push(RegistrationFieldError::new("code", message));
                let r = Next::Done(Ok(CompleteRegistrationStepPayload::Failed(errors)));
                assert(crate::users::registration::field_errors(errors@) =~= seq![errors@[0]@]);
                r
            },
            Next::Done(Ok(None)) => continue_after_verification(session_id, known),
        }
    }
}

impl<'a, C> StepAsk<'a, C> {
    /// Whether the answers hold the answer to this.
    pub open spec fn answered_in(self, known: StepAnswers) -> bool {
        match self {
            StepAsk::OpenRepository => known.repository_open,
            StepAsk::LookupRegistration(_) => known.registration is Some,
            StepAsk::ReadClock => known.now is Some,
            StepAsk::LookupEmailAuthentication(_) => known.email_authentication is Some,
            StepAsk::CheckAttemptLimit(_) => known.attempt_within_limit is Some,
            StepAsk::FindCode { .. } => known.code is Some,
            StepAsk::ReadClockForCode => known.now_for_code is Some,
            StepAsk::CompleteAuthentication { .. } => known.authentication_completed,
            StepAsk::RefreshRegistration(_) => known.refreshed is Some,
            StepAsk::RefreshEmailAuthentication(_) => known.refreshed_authentication is Some,
            StepAsk::Complete(ask) => ask.answered_in(known.completion),
            StepAsk::Save => known.saved,
        }
    }
}

/// Whether a registration was found, is not completed and has not expired.
pub open spec fn is_running(known: StepAnswers) -> bool {
    &&& known.registration matches Some(Some(registration))
    &&& registration.completed_at is None
    &&& known.now matches Some(now)
    &&& now.since_epoch() - registration.created_at.since_epoch() <= REGISTRATION_LIFETIME
        * 1_000_000_000
}

/// An e-mail address counts as verified only by a code that was found for it and has
/// not expired, in a running registration, and only within the rate limit.
pub proof fn law_addresses_are_verified_by_live_codes<'a>(
    session_id: Seq<char>,
    submitted: Seq<char>,
    known: &'a StepAnswers,
)
    ensures
        registration_step_next(session_id, submitted, known) matches Next::Ask(
            StepAsk::CompleteAuthentication { authentication, code },
        ) ==> {
            &&& is_running(*known)
            &&& submitted.len() > 0
            &&& known.attempt_within_limit == Some(true)
            &&& known.email_authentication == Some(Some(*authentication))
            &&& known.code == Some(Some(*code))
            &&& known.now_for_code matches Some(now) && code.expires_at.since_epoch()
                > now.since_epoch()
        },
{
}

/// An account is created only from a running registration whose e-mail address, if
/// it has one, is verified.
pub proof fn law_accounts_need_verified_addresses<'a>(
    session_id: Seq<char>,
    submitted: Seq<char>,
    known: &'a StepAnswers,
)
    ensures
        registration_step_next(session_id, submitted, known) matches Next::Ask(
            StepAsk::Complete(_),
        ) ==> is_running(*known) && verified(*known),
        registration_step_next(session_id, submitted, known) matches Next::Done(
            Ok(StepPayloadView::Complete(_, _)),
        ) ==> is_running(*known) && verified(*known) && known.saved,
{
}

/// Whether the registration, as it was last looked up, has no e-mail address left to
/// verify.
pub open spec fn verified(known: StepAnswers) -> bool {
    &&& known.refreshed matches Some(Some(registration))
    &&& registration.email_authentication_id is Some ==> (
    known.refreshed_authentication matches Some(Some(authentication))
        && authentication.completed_at is Some)
}

/// A step that failed says why, of the field `code`.
pub proof fn law_failed_steps_are_about_the_code<'a>(
    session_id: Seq<char>,
    submitted: Seq<char>,
    known: &'a StepAnswers,
)
    ensures
        registration_step_next(session_id, submitted, known) matches Next::Done(
            Ok(StepPayloadView::Failed(errors)),
        ) ==> errors.len() == 1 && errors[0].field == "code"@,
{
}

/// Only what has no answer yet is asked for.
pub proof fn law_steps_ask_for_the_missing<'a>(
    session_id: Seq<char>,
    submitted: Seq<char>,
    known: &'a StepAnswers,
)
    ensures
        registration_step_next(session_id, submitted, known) matches Next::Ask(ask)
            ==> !ask.answered_in(*known),
{
    if known.refreshed is Some && known.refreshed->0 is Some {
        crate::users::completion::law_completion_asks_for_the_missing(
            &known.refreshed->0->0,
            &known.completion,
        );
    }
}

/// The session that a pending registration was given is one that a step accepts.
pub proof fn law_pending_sessions_can_be_continued<'a>(
    id: u128,
    submitted: Seq<char>,
    known: &'a StepAnswers,
)
    requires
        known.repository_open,
        known.registration is None,
    ensures
        registration_step_next(crate::ids::ulid_text(id), submitted, known) == Next::<
            StepAsk<'a, Seq<char>>,
            StepPayloadView,
        >::Ask(StepAsk::LookupRegistration(id)),
{
    crate::ids::law_ulid_text_reads_back(id);
}

/// The input for the `resendRegistrationEmail` mutation.
#[derive(Debug)]
pub struct ResendRegistrationEmailInput {
    pub session_id: String,
}

/// The status of the `resendRegistrationEmail` mutation.
#[derive(Debug, Clone, Copy, PartialEq, Eq, Structural)]
pub enum ResendRegistrationEmailStatus {
    Sent,
    Failed,
}

/// The payload for the `resendRegistrationEmail` mutation.
#[derive(Debug, PartialEq, Eq)]
pub struct ResendRegistrationEmailPayload {
    pub status: ResendRegistrationEmailStatus,
    pub errors: Option<Vec<RegistrationFieldError>>,
}

/// The contents of a [`ResendRegistrationEmailPayload`].
pub struct ResendPayloadView {
    pub status: ResendRegistrationEmailStatus,
    pub errors: Option<Seq<crate::users::registration::FieldErrorView>>,
}

impl View for ResendRegistrationEmailPayload {
    type V = ResendPayloadView;

    open spec fn view(&self) -> ResendPayloadView {
        ResendPayloadView {
            status: self.status,
            errors: match self.errors {
                Some(errors) => Some(crate::users::registration::field_errors(errors@)),
                None => None,
            },
        }
    }
}

/// What sending a registration e-mail again asks for, or has done.
#[derive(Debug, PartialEq, Eq)]
pub enum ResendRegistrationAsk<'a> {
    /// Open the repository; nothing is kept until it is saved.
    OpenRepository,
    LookupRegistration(u128),
    LookupEmailAuthentication(u128),
    CheckSendLimit(&'a EmailAuthentication),
    ScheduleEmailCode { authentication: &'a EmailAuthentication, language: &'static str },
    Save,
}

/// The answers that sending a registration e-mail again has had so far.
#[derive(Debug)]
pub struct ResendRegistrationAnswers {
    pub repository_open: bool,
    pub registration: Option<Option<UserRegistration>>,
    pub email_authentication: Option<Option<EmailAuthentication>>,
    pub within_limit: Option<bool>,
    pub email_code_scheduled: bool,
    pub saved: bool,
}

impl ResendRegistrationAnswers {
    /// No answer yet.
    pub fn new() -> (r: Self)
        ensures
            !r.repository_open,
            r.registration is None,
            r.email_authentication is None,
            r.within_limit is None,
            !r.email_code_scheduled,
            !r.saved,
    {
        ResendRegistrationAnswers {
            repository_open: false,
            registration: None,
            email_authentication: None,
            within_limit: None,
            email_code_scheduled: false,
            saved: false,
        }
    }
}

/// The payload that says why no e-mail was sent.
pub open spec fn not_resent(message: Seq<char>) -> ResendPayloadView {
    ResendPayloadView {
        status: ResendRegistrationEmailStatus::Failed,
        errors: Some(
            seq![crate::users::registration::FieldErrorView { field: "session"@, message }],
        ),
    }
}

/// The next thing that sending a registration e-mail again asks for, or its outcome.
pub open spec fn resend_registration_next<'a>(
    session_id: Seq<char>,
    known: &'a ResendRegistrationAnswers,
) -> Next<ResendRegistrationAsk<'a>, ResendPayloadView> {
    if !known.repository_open {
        Next::Ask(ResendRegistrationAsk::OpenRepository)
    } else {
        match crate::ids::ulid_of(session_id) {
            None => Next::Done(Err(MutationError::InvalidSessionId)),
            Some(id) => match &known.registration {
                None => Next::Ask(ResendRegistrationAsk::LookupRegistration(id)),
                Some(None) => Next::Done(Err(MutationError::RegistrationNotFound)),
                Some(Some(registration)) => match registration.email_authentication_id {
                    None => Next::Done(
                        Ok(not_resent("Email verification is not pending for this session."@)),
                    ),
                    Some(id) => match &known.email_authentication {
                        None => Next::Ask(ResendRegistrationAsk::LookupEmailAuthentication(id)),
                        Some(None) => Next::Done(Err(MutationError::EmailAuthenticationNotFound)),
                        Some(Some(authentication)) => match known.within_limit {
                            None => Next::Ask(
                                ResendRegistrationAsk::CheckSendLimit(authentication),
                            ),
                            Some(false) => Next::Done(
                                Ok(not_resent("Rate limited. Please try again later."@)),
                            ),
                            Some(true) => if !known.email_code_scheduled {
                                Next::Ask(
                                    ResendRegistrationAsk::ScheduleEmailCode {
                                        authentication,
                                        language: "en",
                                    },
                                )
                            } else if !known.saved {
                                Next::Ask(ResendRegistrationAsk::Save)
                            } else {
                                Next::Done(
                                    Ok(
                                        ResendPayloadView {
                                            status: ResendRegistrationEmailStatus::Sent,
                                            errors: None,
                                        },
                                    ),
                                )
                            },
                        },
                    },
                },
            },
        }
    }
}

/// The contents of an outcome.
pub open spec fn resend_registration_view<'a>(
    next: Next<ResendRegistrationAsk<'a>, ResendRegistrationEmailPayload>,
) -> Next<ResendRegistrationAsk<'a>, ResendPayloadView> {
    match next {
        Next::Ask(ask) => Next::Ask(ask),
        Next::Done(Err(error)) => Next::Done(Err(error)),
        Next::Done(Ok(payload)) => Next::Done(Ok(payload@)),
    }
}

fn refuse_resend(message: &str) -> (r: ResendRegistrationEmailPayload)
    ensures
        r@ == not_resent(message@),
{
    let mut errors: Vec<RegistrationFieldError> = Vec::new();
    errors.push(RegistrationFieldError::new("session", message));
    assert(crate::users::registration::field_errors(errors@) =~= seq![errors@[0]@]);
    ResendRegistrationEmailPayload {
        status: ResendRegistrationEmailStatus::Failed,
        errors: Some(errors),
    }
}

impl UserMutations {
    /// Send the e-mail with the code for a registration again.
    pub fn resend_registration_email<'a>(
        &self,
        input: &'a ResendRegistrationEmailInput,
        known: &'a ResendRegistrationAnswers,
    ) -> (r: Next<ResendRegistrationAsk<'a>, ResendRegistrationEmailPayload>)
        ensures
            resend_registration_view(r) == resend_registration_next(input.session_id@, known),
    {
        if !known.repository_open {
            return Next::Ask(ResendRegistrationAsk::OpenRepository);
        }
        let session_id = match parse_ulid(&input.session_id) {
            None => {
                return Next::Done(Err(MutationError::InvalidSessionId));
            },
            Some(id) => id,
        };
        let registration = match &known.registration {
            None => {
                return Next::Ask(ResendRegistrationAsk::LookupRegistration(session_id));
            },
            Some(None) => {
                return Next::Done(Err(MutationError::RegistrationNotFound));
            },
            Some(Some(registration)) => registration,
        };
        let id = match registration.email_authentication_id {
            None => {
                return Next::Done(
                    Ok(refuse_resend("Email verification is not pending for this session.")),
                );
            },
            Some(id) => id,
        };
        let authentication = match &known.email_authentication {
            None => {
                return Next::Ask(ResendRegistrationAsk::LookupEmailAuthentication(id));
            },
            Some(None) => {
                return Next::Done(Err(MutationError::EmailAuthenticationNotFound));
            },
            Some(Some(authentication)) => authentication,
        };
        match known.within_limit {
            None => {
                return Next::Ask(ResendRegistrationAsk::CheckSendLimit(authentication));
            },
            Some(false) => {
                return Next::Done(Ok(refuse_resend("Rate limited. Please try again later.")));
            },
            Some(true) => {},
        }
        if !known.email_code_scheduled {
            return Next::Ask(
                ResendRegistrationAsk::ScheduleEmailCode { authentication, language: "en" },
            );
        }
        if !known.saved {
            return Next::Ask(ResendRegistrationAsk::Save);
        }
        Next::Done(
            Ok(
                ResendRegistrationEmailPayload {
                    status: ResendRegistrationEmailStatus::Sent,
                    errors: None,
                },
            ),
        )
    }
}

/// An e-mail is sent again only within the rate limit, and only for an address that
/// the registration is about.
pub proof fn law_resending_keeps_the_limit<'a>(
    session_id: Seq<char>,
    known: &'a ResendRegistrationAnswers,
)
    ensures
        resend_registration_next(session_id, known) matches Next::Ask(
            ResendRegistrationAsk::ScheduleEmailCode { authentication, language },
        ) ==> known.within_limit == Some(true) && known.email_authentication == Some(
            Some(*authentication),
        ),
        resend_registration_next(session_id, known) matches Next::Done(
            Ok(payload),
        ) && payload.status == ResendRegistrationEmailStatus::Sent ==> known.within_limit == Some(
            true,
        ) && known.email_code_scheduled && known.saved,
{
}

impl<'a> ResendRegistrationAsk<'a> {
    /// Whether the answers hold the answer to this.
    pub open spec fn answered_in(self, known: ResendRegistrationAnswers) -> bool {
        match self {
            ResendRegistrationAsk::OpenRepository => known.repository_open,
            ResendRegistrationAsk::LookupRegistration(_) => known.registration is Some,
            ResendRegistrationAsk::LookupEmailAuthentication(_) =>
            known.email_authentication is Some,
            ResendRegistrationAsk::CheckSendLimit(_) => known.within_limit is Some,
            ResendRegistrationAsk::ScheduleEmailCode { .. } => known.email_code_scheduled,
            ResendRegistrationAsk::Save => known.saved,
        }
    }
}

/// Only what has no answer yet is asked for, so nothing is done twice.
pub proof fn law_sending_again_asks_for_the_missing<'a>(
    session_id: Seq<char>,
    known: &'a ResendRegistrationAnswers,
)
    ensures
        resend_registration_next(session_id, known) matches Next::Ask(ask) ==> !ask.answered_in(
            *known,
        ),
{
}

/// Once a step is saved, it succeeds, whether or not steps are left: nothing is saved for
/// one that fails.
pub proof fn law_saving_ends_the_step<'a>(
    session_id: Seq<char>,
    code: Seq<char>,
    known: &'a StepAnswers,
    later: &'a StepAnswers,
)
    requires
        registration_step_next(session_id, code, known) == Next::<
            StepAsk<'a, Seq<char>>,
            StepPayloadView,
        >::Ask(StepAsk::Save),
        *later == (StepAnswers { saved: true, ..*known }),
    ensures
        registration_step_next(session_id, code, later) matches Next::Done(Ok(payload)) && !(
        payload is Failed),
{
}

/// A step is taken in the registration that the ULID names: one that is there, was not
/// completed, and was begun no more than an hour ago.
pub proof fn law_steps_need_a_running_registration<'a>(
    session_id: Seq<char>,
    code: Seq<char>,
    known: &'a StepAnswers,
)
    ensures
        ({
            let next = registration_step_next(session_id, code, known);
            let id = crate::ids::ulid_of(session_id);
            let named = known.repository_open && id is Some;
            let found = named && (known.registration matches Some(Some(_)));
            let registration = known.registration->0->0;
            let open = found && registration.completed_at is None;
            let age = known.now->0.since_epoch() - registration.created_at.since_epoch();
            &&& !known.repository_open ==> next.asks(StepAsk::OpenRepository)
            &&& next.refuses(MutationError::InvalidSessionId) <==> known.repository_open
                && id is None
            &&& named && known.registration is None ==> next.asks(
                StepAsk::LookupRegistration(id->0),
            )
            &&& named && (known.registration matches Some(None)) ==> next.refuses(
                MutationError::RegistrationNotFound,
            )
            &&& next.refuses(MutationError::RegistrationCompleted) <==> found
                && registration.completed_at is Some
            &&& open && known.now is None ==> next.asks(StepAsk::ReadClock)
            &&& next.refuses(MutationError::RegistrationExpired) <==> open && known.now is Some
                && age > 3_600_000_000_000
        }),
{
    if known.refreshed matches Some(Some(_)) {
        crate::users::completion::law_completion_checks_the_name_and_the_address(
            &known.refreshed->0->0,
            &known.completion,
        );
    }
}

/// In a running registration with an address the code is checked, as long as there were not
/// too many attempts. An address that was verified before needs none. Otherwise a code has to
/// come, be one of those that were sent for the address, and not have expired; then the
/// address counts as verified.
pub proof fn law_codes_are_checked_step_by_step<'a>(
    session_id: Seq<char>,
    code: Seq<char>,
    known: &'a StepAnswers,
)
    requires
        known.repository_open,
        crate::ids::ulid_of(session_id) is Some,
        known.registration matches Some(Some(registration)) && registration.completed_at is None
            && registration.email_authentication_id is Some,
        known.now is Some,
        known.now->0.since_epoch() - known.registration->0->0.created_at.since_epoch()
            <= 3_600_000_000_000,
    ensures
        ({
            let next = registration_step_next(session_id, code, known);
            let id = known.registration->0->0.email_authentication_id->0;
            let found = known.email_authentication matches Some(Some(_));
            let authentication = &known.email_authentication->0->0;
            let allowed = found && (known.attempt_within_limit matches Some(true));
            let due = allowed && authentication.completed_at is None;
            let came = due && code.len() > 0;
            let sent = came && (known.code matches Some(Some(_)));
            let expires = known.code->0->0.expires_at.since_epoch();
            &&& known.email_authentication is None ==> next.asks(
                StepAsk::LookupEmailAuthentication(id),
            )
            &&& (known.email_authentication matches Some(None)) ==> next.refuses(
                MutationError::EmailAuthenticationNotFound,
            )
            &&& found && known.attempt_within_limit is None ==> next.asks(
                StepAsk::CheckAttemptLimit(authentication),
            )
            &&& found && (known.attempt_within_limit matches Some(false)) ==> fails_for_the_code(
                next,
                "Too many verification attempts"@,
            )
            &&& allowed && authentication.completed_at is Some ==> next
                == after_verification_next(crate::ids::ulid_of(session_id)->0, known)
            &&& due && code.len() == 0 ==> fails_for_the_code(
                next,
                "Verification code is required"@,
            )
            &&& came && known.code is None ==> next.asks(
                StepAsk::FindCode { authentication, submitted: code },
            )
            &&& came && (known.code matches Some(None)) ==> fails_for_the_code(
                next,
                "Invalid or expired verification code"@,
            )
            &&& sent && known.now_for_code is None ==> next.asks(StepAsk::ReadClockForCode)
            &&& sent && (known.now_for_code matches Some(now) && now.since_epoch() >= expires)
                ==> fails_for_the_code(next, "Invalid or expired verification code"@)
            &&& sent && (known.now_for_code matches Some(now) && now.since_epoch() < expires)
                ==> if known.authentication_completed {
                next == after_verification_next(crate::ids::ulid_of(session_id)->0, known)
            } else {
                next.asks(
                    StepAsk::CompleteAuthentication {
                        authentication,
                        code: &known.code->0->0,
                    },
                )
            }
        }),
{
}

/// Whether a step failed for this reason, told of the field `code` and of nothing else.
pub open spec fn fails_for_the_code<'a>(
    next: Next<StepAsk<'a, Seq<char>>, StepPayloadView>,
    message: Seq<char>,
) -> bool {
    &&& next matches Next::Done(Ok(StepPayloadView::Failed(errors)))
    &&& errors.len() == 1
    &&& errors[0].field == "code"@
    &&& errors[0].message == message
}

/// A running registration without an address needs no code.
pub proof fn law_no_code_is_needed_without_an_address<'a>(
    session_id: Seq<char>,
    code: Seq<char>,
    known: &'a StepAnswers,
)
    requires
        known.repository_open,
        crate::ids::ulid_of(session_id) is Some,
        known.registration matches Some(Some(registration)) && registration.completed_at is None
            && registration.email_authentication_id is None,
        known.now is Some,
        known.now->0.since_epoch() - known.registration->0->0.created_at.since_epoch()
            <= 3_600_000_000_000,
    ensures
        registration_step_next(session_id, code, known) == after_verification_next(
            crate::ids::ulid_of(session_id)->0,
            known,
        ),
{
}

/// Once the code is taken, the registration is looked up again, and its address, if it has
/// one. While the address is not verified, its verification is the step that is left.
/// Otherwise the account is created from the registration as it was just found, and it is the
/// answer once all is saved.
pub proof fn law_accounts_come_after_the_last_step<'a>(session_id: u128, known: &'a StepAnswers)
    ensures
        ({
            let next = after_verification_next(session_id, known);
            let found = known.refreshed matches Some(Some(_));
            let registration = &known.refreshed->0->0;
            let has_address = found && registration.email_authentication_id is Some;
            let reread = has_address && (known.refreshed_authentication matches Some(Some(_)));
            let authentication = known.refreshed_authentication->0->0;
            let waiting = reread && authentication.completed_at is None;
            let ready = found && (registration.email_authentication_id is None || reread
                && authentication.completed_at is Some);
            let account = crate::users::completion::completion_next(
                registration,
                &known.completion,
            );
            &&& known.refreshed is None ==> next.asks(StepAsk::RefreshRegistration(session_id))
            &&& (known.refreshed matches Some(None)) ==> next.refuses(
                MutationError::RegistrationNotFound,
            )
            &&& has_address && known.refreshed_authentication is None ==> next.asks(
                StepAsk::RefreshEmailAuthentication(registration.email_authentication_id->0),
            )
            &&& has_address && (known.refreshed_authentication matches Some(None)) ==> next.refuses(
                MutationError::EmailAuthMissing,
            )
            &&& waiting && !known.saved ==> next.asks(StepAsk::Save)
            &&& waiting && known.saved ==> {
                &&& next matches Next::Done(Ok(StepPayloadView::Pending { next_steps }))
                &&& next_steps.len() == 1
                &&& next_steps[0].step_type is EmailVerification
            }
            &&& ready ==> match account {
                Next::Ask(ask) => next.asks(StepAsk::Complete(ask)),
                Next::Done(Err(error)) => next.refuses(error),
                Next::Done(Ok((user, session))) => if known.saved {
                    next.gives(StepPayloadView::Complete(user, session))
                } else {
                    next.asks(StepAsk::Save)
                },
            }
        }),
{
}

/// The code that came with a step is the text under `code` in its data, and without that it
/// is empty.
pub proof fn law_codes_come_with_the_data(data: Option<JsonValue>)
    ensures
        data matches Some(value) ==> (value@.member("code"@) matches Some(
            crate::json::Json::Text(code),
        ) ==> submitted_code(data) == code),
        !(data matches Some(value) && (value@.member("code"@) matches Some(
            crate::json::Json::Text(_),
        ))) ==> submitted_code(data).len() == 0,
{
    reveal_strlit("");
}

/// The e-mail with the code is sent again for the registration that the ULID names, if it has
/// an address: the limit is checked for that address, a code is scheduled for it in English
/// and saved, and the answer is that it was sent.
pub proof fn law_sending_again_goes_step_by_step<'a>(
    session_id: Seq<char>,
    known: &'a ResendRegistrationAnswers,
)
    ensures
        ({
            let next = resend_registration_next(session_id, known);
            let id = crate::ids::ulid_of(session_id);
            let named = known.repository_open && id is Some;
            let found = named && (known.registration matches Some(Some(_)));
            let registration = known.registration->0->0;
            let has_address = found && registration.email_authentication_id is Some;
            let reread = has_address && (known.email_authentication matches Some(Some(_)));
            let authentication = &known.email_authentication->0->0;
            let allowed = reread && (known.within_limit matches Some(true));
            &&& !known.repository_open ==> next.asks(ResendRegistrationAsk::OpenRepository)
            &&& next.refuses(MutationError::InvalidSessionId) <==> known.repository_open
                && id is None
            &&& named && known.registration is None ==> next.asks(
                ResendRegistrationAsk::LookupRegistration(id->0),
            )
            &&& named && (known.registration matches Some(None)) ==> next.refuses(
                MutationError::RegistrationNotFound,
            )
            &&& found && registration.email_authentication_id is None ==> is_not_resent(
                next,
                "Email verification is not pending for this session."@,
            )
            &&& has_address && known.email_authentication is None ==> next.asks(
                ResendRegistrationAsk::LookupEmailAuthentication(
                    registration.email_authentication_id->0,
                ),
            )
            &&& has_address && (known.email_authentication matches Some(None)) ==> next.refuses(
                MutationError::EmailAuthenticationNotFound,
            )
            &&& reread && known.within_limit is None ==> next.asks(
                ResendRegistrationAsk::CheckSendLimit(authentication),
            )
            &&& reread && (known.within_limit matches Some(false)) ==> is_not_resent(
                next,
                "Rate limited. Please try again later."@,
            )
            &&& allowed && !known.email_code_scheduled ==> next.asks(
                ResendRegistrationAsk::ScheduleEmailCode { authentication, language: "en" },
            )
            &&& allowed && known.email_code_scheduled && !known.saved ==> next.asks(
                ResendRegistrationAsk::Save,
            )
            &&& allowed && known.email_code_scheduled && known.saved ==> next.gives(
                ResendPayloadView {
                    status: ResendRegistrationEmailStatus::Sent,
                    errors: None,
                },
            )
        }),
{
}

/// Whether no e-mail was sent again for this reason, told of the field `session` and of
/// nothing else.
pub open spec fn is_not_resent<'a>(
    next: Next<ResendRegistrationAsk<'a>, ResendPayloadView>,
    message: Seq<char>,
) -> bool {
    &&& next matches Next::Done(Ok(payload))
    &&& payload.status is Failed
    &&& payload.errors matches Some(errors)
    &&& errors.len() == 1
    &&& errors[0].field == "session"@
    &&& errors[0].message == message
}

/// Taken as a sequence of characters, the code of a step is that of the step itself, and
/// nothing else of the step changes; nor does the outcome.
pub proof fn law_registration_steps_are_viewed_as_they_are<'a>(
    ask: StepAsk<'a, &'a str>,
    step: Next<StepAsk<'a, &'a str>, CompleteRegistrationStepPayload>,
    resend: Next<ResendRegistrationAsk<'a>, ResendRegistrationEmailPayload>,
)
    ensures
        ask is OpenRepository ==> ask_view(ask) is OpenRepository,
        ask matches StepAsk::LookupRegistration(id) ==> ask_view(ask) == StepAsk::<
            'a,
            Seq<char>,
        >::LookupRegistration(id),
        ask is ReadClock ==> ask_view(ask) is ReadClock,
        ask matches StepAsk::LookupEmailAuthentication(id) ==> ask_view(ask) == StepAsk::<
            'a,
            Seq<char>,
        >::LookupEmailAuthentication(id),
        ask matches StepAsk::CheckAttemptLimit(authentication) ==> ask_view(ask) == StepAsk::<
            'a,
            Seq<char>,
        >::CheckAttemptLimit(authentication),
        ask matches StepAsk::FindCode { authentication, submitted } ==> ask_view(ask)
            == (StepAsk::FindCode { authentication, submitted: submitted@ }),
        ask is ReadClockForCode ==> ask_view(ask) is ReadClockForCode,
        ask matches StepAsk::CompleteAuthentication { authentication, code } ==> (ask_view(
            ask,
        ) matches StepAsk::CompleteAuthentication { authentication: of, code: by } && of
            == authentication && by == code),
        ask matches StepAsk::RefreshRegistration(id) ==> ask_view(ask) == StepAsk::<
            'a,
            Seq<char>,
        >::RefreshRegistration(id),
        ask matches StepAsk::RefreshEmailAuthentication(id) ==> ask_view(ask) == StepAsk::<
            'a,
            Seq<char>,
        >::RefreshEmailAuthentication(id),
        ask matches StepAsk::Complete(inner) ==> ask_view(ask) == StepAsk::<
            'a,
            Seq<char>,
        >::Complete(inner),
        ask is Save ==> ask_view(ask) is Save,
        step matches Next::Ask(asked) ==> step_view(step).asks(ask_view(asked)),
        step matches Next::Done(Err(error)) ==> step_view(step).refuses(error),
        step matches Next::Done(Ok(CompleteRegistrationStepPayload::Complete(user, session)))
            ==> step_view(step).gives(StepPayloadView::Complete(user, session)),
        step matches Next::Done(Ok(CompleteRegistrationStepPayload::Pending { next_steps }))
            ==> step_view(step).gives(StepPayloadView::Pending { next_steps: next_steps@ }),
        step matches Next::Done(Ok(CompleteRegistrationStepPayload::Failed(errors))) ==> {
            &&& step_view(step) matches Next::Done(Ok(StepPayloadView::Failed(viewed)))
            &&& viewed.len() == errors@.len()
            &&& forall|i: int|
                0 <= i < viewed.len() ==> (#[trigger] viewed[i]).field == errors@[i].field@
                    && viewed[i].message == errors@[i].message@
        },
        resend matches Next::Ask(asked) ==> resend_registration_view(resend).asks(asked),
        resend matches Next::Done(Err(error)) ==> resend_registration_view(resend).refuses(error),
        resend matches Next::Done(Ok(payload)) ==> {
            &&& resend_registration_view(resend) matches Next::Done(Ok(viewed))
            &&& viewed.status == payload.status
            &&& viewed.errors is Some <==> payload.errors is Some
            &&& payload.errors matches Some(errors) ==> {
                &&& viewed.errors->0.len() == errors@.len()
                &&& forall|i: int|
                    0 <= i < errors@.len() ==> (#[trigger] viewed.errors->0[i]).field
                        == errors@[i].field@ && viewed.errors->0[i].message == errors@[i].message@
            }
        },
{
}

} // verus!
