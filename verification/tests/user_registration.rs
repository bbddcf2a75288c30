use tween_accounts::ids::parse_ulid;
use tween_accounts::instant::Instant;
use tween_accounts::json::JsonValue;
use tween_accounts::users::completion::CompletionAnswers;
use tween_accounts::users::completion::CompletionAsk;
use tween_accounts::users::model::BrowserSession;
use tween_accounts::users::model::EmailAuthentication;
use tween_accounts::users::model::EmailAuthenticationCode;
use tween_accounts::users::model::HashedPassword;
use tween_accounts::users::model::RegistrationToken;
use tween_accounts::users::model::User;
use tween_accounts::users::model::UserRegistration;
use tween_accounts::users::registration::PolicyViolation;
use tween_accounts::users::registration::RegisterAnswers;
use tween_accounts::users::registration::RegisterAsk;
use tween_accounts::users::registration::RegisterUserInitiateInput;
use tween_accounts::users::registration::RegisterUserInitiatePayload;
use tween_accounts::users::registration::RegisterUserInitiateStatus;
use tween_accounts::users::registration::RegistrationFieldError;
use tween_accounts::users::registration::RegistrationRequester;
use tween_accounts::users::registration::RegistrationSettings;
use tween_accounts::users::registration::RegistrationStep;
use tween_accounts::users::registration::RegistrationStepType;
use tween_accounts::users::registration_steps::CompleteRegistrationStepInput;
use tween_accounts::users::registration_steps::CompleteRegistrationStepPayload;
use tween_accounts::users::registration_steps::CompleteRegistrationStepStatus;
use tween_accounts::users::registration_steps::ResendRegistrationAnswers;
use tween_accounts::users::registration_steps::ResendRegistrationAsk;
use tween_accounts::users::registration_steps::ResendRegistrationEmailInput;
use tween_accounts::users::registration_steps::ResendRegistrationEmailPayload;
use tween_accounts::users::registration_steps::ResendRegistrationEmailStatus;
use tween_accounts::users::registration_steps::StepAnswers;
use tween_accounts::users::registration_steps::StepAsk;
use tween_accounts::users::MutationError;
use tween_accounts::users::Next;
use tween_accounts::users::UserMutations;

const SESSION: &str = "01J0RZ4N0P7E5A9F2C6B3D8H5K";

fn input() -> RegisterUserInitiateInput {
    RegisterUserInitiateInput {
        username: "alice".to_owned(),
        password: "correct horse".to_owned(),
        password_confirm: Some("correct horse".to_owned()),
        email: Some("a@example.com".to_owned()),
        registration_token: Some("token".to_owned()),
        accept_terms: Some(true),
        language: "en".to_owned(),
        captcha_response: Some("captcha".to_owned()),
    }
}

fn strict() -> RegistrationSettings {
    RegistrationSettings {
        password_registration_enabled: true,
        password_registration_email_required: true,
        registration_token_required: true,
        tos_uri: Some("https://example.com/terms".to_owned()),
        captcha_configured: true,
    }
}

fn open_site() -> RegistrationSettings {
    RegistrationSettings {
        password_registration_enabled: true,
        password_registration_email_required: false,
        registration_token_required: false,
        tos_uri: None,
        captcha_configured: false,
    }
}

fn requester() -> RegistrationRequester {
    RegistrationRequester {
        unauthenticated: true,
        ip_address: Some("127.0.0.1".to_owned()),
        user_agent: Some("agent".to_owned()),
    }
}

fn passed() -> RegisterAnswers {
    let mut known = RegisterAnswers::new();
    known.repository_open = true;
    known.username_taken = Some(false);
    known.username_available = Some(true);
    known.password_complex_enough = Some(true);
    known.token = Some(Some(RegistrationToken { id: 8, valid: true }));
    known.captcha_passed = Some(true);
    known.registration_within_limit = Some(true);
    known.email_within_limit = Some(true);
    known.violations = Some(Vec::new());
    known
}

fn registration() -> UserRegistration {
    UserRegistration {
        id: parse_ulid(SESSION).unwrap(),
        username: "alice".to_owned(),
        user_agent: Some("agent".to_owned()),
        display_name: Some("Alice".to_owned()),
        terms_url: Some("https://example.com/terms".to_owned()),
        email_authentication_id: Some(21),
        user_registration_token_id: Some(8),
        password: Some(HashedPassword { version: 1, hash: "h".to_owned() }),
        created_at: Instant { seconds: 1000, nanos: 0 },
        completed_at: None,
    }
}

fn plain_registration() -> UserRegistration {
    UserRegistration {
        id: 77,
        username: "alice".to_owned(),
        user_agent: None,
        display_name: None,
        terms_url: None,
        email_authentication_id: None,
        user_registration_token_id: None,
        password: None,
        created_at: Instant { seconds: 1000, nanos: 0 },
        completed_at: None,
    }
}

fn authentication(completed: bool) -> EmailAuthentication {
    EmailAuthentication {
        id: 21,
        email: "a@example.com".to_owned(),
        completed_at: if completed { Some(Instant { seconds: 1, nanos: 0 }) } else { None },
    }
}

fn alice() -> User {
    User { id: 1, username: "alice".to_owned(), valid: true }
}

fn browser() -> BrowserSession {
    BrowserSession { id: 2, user: alice() }
}

fn failures(
    settings: &RegistrationSettings,
    input: &RegisterUserInitiateInput,
    known: &RegisterAnswers,
) -> Vec<(String, String)> {
    match UserMutations::default().register_user_initiate(&requester(), settings, input, known) {
        Next::Done(Ok(RegisterUserInitiatePayload::Failed(errors))) => {
            errors.into_iter().map(|e| (e.field, e.message)).collect()
        }
        other => panic!("not failed: {other:?}"),
    }
}

fn asked(
    settings: &RegistrationSettings,
    input: &RegisterUserInitiateInput,
    known: &RegisterAnswers,
) -> String {
    match UserMutations::default().register_user_initiate(&requester(), settings, input, known) {
        Next::Ask(ask) => format!("{ask:?}"),
        other => panic!("nothing asked: {other:?}"),
    }
}

#[test]
fn registrations_are_for_anonymous_requesters_where_enabled() {
    let m = UserMutations::default();
    let mut signed_in = requester();
    signed_in.unauthenticated = false;
    assert_eq!(
        m.register_user_initiate(&signed_in, &strict(), &input(), &passed()),
        Next::Done(Err(MutationError::AlreadyAuthenticated))
    );
    let mut off = strict();
    off.password_registration_enabled = false;
    assert_eq!(
        m.register_user_initiate(&requester(), &off, &input(), &passed()),
        Next::Done(Err(MutationError::RegistrationDisabled))
    );
}

#[test]
fn checks_are_asked_for_in_turn() {
    let mut known = RegisterAnswers::new();
    let form = input();
    let site = strict();
    assert_eq!(asked(&site, &form, &known), "OpenRepository");
    known.repository_open = true;
    assert_eq!(asked(&site, &form, &known), "IsUsernameTaken(\"alice\")");
    known.username_taken = Some(false);
    assert_eq!(asked(&site, &form, &known), "IsUsernameAvailable(\"alice\")");
    known.username_available = Some(true);
    assert_eq!(asked(&site, &form, &known), "IsPasswordComplexEnough(\"correct horse\")");
    known.password_complex_enough = Some(true);
    assert_eq!(asked(&site, &form, &known), "FindToken(\"token\")");
    known.token = Some(Some(RegistrationToken { id: 8, valid: true }));
    assert_eq!(asked(&site, &form, &known), "VerifyCaptcha(Some(\"captcha\"))");
    known.captcha_passed = Some(true);
    assert_eq!(asked(&site, &form, &known), "CheckRegistrationLimit");
    known.registration_within_limit = Some(true);
    assert_eq!(asked(&site, &form, &known), "CheckEmailLimit(\"a@example.com\")");
    known.email_within_limit = Some(true);
    assert_eq!(
        asked(&site, &form, &known),
        "EvaluatePolicy { username: \"alice\", email: Some(\"a@example.com\") }"
    );
    known.violations = Some(Vec::new());
    assert_eq!(
        asked(&site, &form, &known),
        "AddRegistration { username: \"alice\", ip_address: Some(\"127.0.0.1\"), user_agent: Some(\"agent\") }"
    );
}

#[test]
fn every_wrong_field_is_told() {
    let mut form = input();
    form.username.clear();
    form.password.clear();
    form.password_confirm = Some("other".to_owned());
    form.email = None;
    form.registration_token = None;
    form.accept_terms = None;
    let mut known = RegisterAnswers::new();
    known.repository_open = true;
    known.captcha_passed = Some(false);
    let expected = [
        ("username", "Username is required"),
        ("password", "Password is required"),
        ("password_confirm", "Passwords do not match"),
        ("email", "Email is required"),
        ("registration_token", "Registration token is required"),
        ("accept_terms", "You must accept the terms of service"),
        ("captcha", "CAPTCHA verification failed"),
    ];
    let told = failures(&strict(), &form, &known);
    assert_eq!(told.len(), expected.len());
    for ((field, message), (wanted_field, wanted)) in told.iter().zip(expected) {
        assert_eq!(field, wanted_field);
        assert_eq!(message, wanted);
    }
}

#[test]
fn fields_fail_one_by_one() {
    let one = |settings: &RegistrationSettings,
               change: fn(&mut RegisterUserInitiateInput),
               answer: fn(&mut RegisterAnswers)| {
        let mut form = input();
        change(&mut form);
        let mut known = passed();
        answer(&mut known);
        let mut told = failures(settings, &form, &known);
        assert_eq!(told.len(), 1);
        let (field, message) = told.remove(0);
        format!("{field}: {message}")
    };
    let site = strict();
    assert_eq!(
        one(&site, |_| {}, |k| k.username_taken = Some(true)),
        "username: Username is already taken"
    );
    assert_eq!(
        one(&site, |_| {}, |k| k.username_available = Some(false)),
        "username: Username is not available"
    );
    assert_eq!(
        one(&site, |_| {}, |k| k.password_complex_enough = Some(false)),
        "password: Password is too weak"
    );
    assert_eq!(
        one(&site, |i| i.email = Some("nobody".to_owned()), |_| {}),
        "email: Email address is invalid"
    );
    assert_eq!(
        one(&site, |i| i.email = Some(String::new()), |_| {}),
        "email: Email is required"
    );
    assert_eq!(
        one(&site, |_| {}, |k| k.token = Some(None)),
        "registration_token: Invalid or expired registration token"
    );
    assert_eq!(
        one(&site, |_| {}, |k| k.token = Some(Some(RegistrationToken { id: 8, valid: false }))),
        "registration_token: Invalid or expired registration token"
    );
    assert_eq!(
        one(&site, |i| i.registration_token = Some(String::new()), |_| {}),
        "registration_token: Registration token is required"
    );
    assert_eq!(
        one(&site, |i| i.accept_terms = Some(false), |_| {}),
        "accept_terms: You must accept the terms of service"
    );
    assert_eq!(
        one(&site, |_| {}, |k| k.registration_within_limit = Some(false)),
        "form: Too many registration attempts"
    );
    assert_eq!(
        one(&site, |_| {}, |k| k.email_within_limit = Some(false)),
        "email: Too many email authentication attempts"
    );
    // Where no address is required, one that was given must still be right.
    assert_eq!(
        one(&open_site(), |i| i.email = Some("nobody".to_owned()), |_| {}),
        "email: Email address is invalid"
    );
}

#[test]
fn addresses_are_judged_by_whether_they_are_one() {
    let m = UserMutations::default();
    let form = input();
    let known = passed();
    assert_eq!(
        m.register_form(&requester(), &strict(), &form, false, &known),
        Next::Done(Ok(RegisterUserInitiatePayload::Failed(vec![RegistrationFieldError::new(
            "email",
            "Email address is invalid",
        )])))
    );
    let (who, site) = (requester(), strict());
    assert_eq!(
        m.register_form(&who, &site, &form, true, &known),
        m.register_user_initiate(&who, &site, &form, &known)
    );
    // Where no address was given, there is none to judge.
    let mut without = input();
    without.email = None;
    let open = open_site();
    assert_eq!(
        m.register_form(&who, &open, &without, false, &known),
        m.register_form(&who, &open, &without, true, &known)
    );
}

#[test]
fn violations_are_told_by_field() {
    let violation = |field: Option<&str>, msg: &str| PolicyViolation {
        field: field.map(str::to_owned),
        msg: msg.to_owned(),
    };
    let mut known = passed();
    known.violations = Some(vec![
        violation(Some("email"), "banned"),
        violation(Some("username"), "rude"),
        violation(Some("password"), "leaked"),
        violation(Some("colour"), "odd"),
        violation(None, "no"),
    ]);
    let told = failures(&strict(), &input(), &known);
    let expected = [
        ("email", "banned"),
        ("username", "rude"),
        ("password", "leaked"),
        ("form", "odd"),
        ("form", "no"),
    ];
    assert_eq!(told.len(), expected.len());
    for ((field, message), (wanted_field, wanted)) in told.iter().zip(expected) {
        assert_eq!(field, wanted_field);
        assert_eq!(message, wanted);
    }
}

#[test]
fn admitted_registrations_are_stored_and_wait_for_the_email() {
    let m = UserMutations::default();
    let (who, site, form) = (requester(), strict(), input());
    let mut known = passed();
    known.registration = Some(registration());
    let stored = registration();
    let terms_url = "https://example.com/terms".to_owned();
    assert_eq!(
        m.register_user_initiate(&who, &site, &form, &known),
        Next::Ask(RegisterAsk::SetTermsUrl { registration: &stored, terms_url: &terms_url })
    );
    known.terms_url_set = true;
    let email = "a@example.com".to_owned();
    assert_eq!(
        m.register_user_initiate(&who, &site, &form, &known),
        Next::Ask(RegisterAsk::AddEmailAuthentication { registration: &stored, address: &email })
    );
    known.email_authentication = Some(authentication(false));
    let language = "en".to_owned();
    assert_eq!(
        m.register_user_initiate(&who, &site, &form, &known),
        Next::Ask(RegisterAsk::ScheduleEmailCode {
            authentication: &authentication(false),
            language: &language,
        })
    );
    known.email_code_scheduled = true;
    assert_eq!(
        m.register_user_initiate(&who, &site, &form, &known),
        Next::Ask(RegisterAsk::SetEmailAuthentication {
            registration: &stored,
            authentication: &authentication(false),
        })
    );
    known.email_authentication_set = true;
    assert_eq!(asked(&site, &form, &known), "HashPassword(\"correct horse\")");
    known.hashed_password = Some(HashedPassword { version: 1, hash: "h".to_owned() });
    let password = HashedPassword { version: 1, hash: "h".to_owned() };
    assert_eq!(
        m.register_user_initiate(&who, &site, &form, &known),
        Next::Ask(RegisterAsk::SetPassword { registration: &stored, password: &password })
    );
    known.password_set = true;
    assert_eq!(asked(&site, &form, &known), "LookupToken(8)");
    known.stored_token = Some(None);
    assert_eq!(
        m.register_user_initiate(&who, &site, &form, &known),
        Next::Done(Err(MutationError::TokenNotFound))
    );
    known.stored_token = Some(Some(RegistrationToken { id: 8, valid: true }));
    assert_eq!(
        m.register_user_initiate(&who, &site, &form, &known),
        Next::Ask(RegisterAsk::SetRegistrationToken {
            registration: &stored,
            token: &RegistrationToken { id: 8, valid: true },
        })
    );
    known.registration_token_set = true;
    assert_eq!(asked(&site, &form, &known), "Save");
    known.saved = true;
    let Next::Done(Ok(payload)) = m.register_user_initiate(&who, &site, &form, &known) else {
        panic!("not done");
    };
    assert_eq!(payload.status(), RegisterUserInitiateStatus::Pending);
    assert_eq!(payload.session_id().as_deref(), Some(SESSION));
    assert_eq!(
        payload.next_steps(),
        Some(vec![RegistrationStep { step_type: RegistrationStepType::EmailVerification }])
    );
    assert_eq!(payload.user(), None);
    assert_eq!(payload.browser_session(), None);
    assert_eq!(payload.errors(), None);
}

#[test]
fn registrations_without_an_email_complete_at_once() {
    let m = UserMutations::default();
    let (who, site) = (requester(), open_site());
    let mut form = input();
    form.email = Some(String::new());
    let mut known = passed();
    known.registration = Some(plain_registration());
    assert_eq!(asked(&site, &form, &known), "HashPassword(\"correct horse\")");
    known.hashed_password = Some(HashedPassword { version: 1, hash: "h".to_owned() });
    known.password_set = true;
    assert_eq!(asked(&site, &form, &known), "Complete(IsUsernameTaken(\"alice\"))");
    known.completion.username_taken = Some(true);
    assert_eq!(
        m.register_user_initiate(&who, &site, &form, &known),
        Next::Done(Err(MutationError::UsernameTaken))
    );
    known.completion.username_taken = Some(false);
    known.completion.username_available = Some(true);
    assert_eq!(
        m.register_user_initiate(&who, &site, &form, &known),
        Next::Ask(RegisterAsk::Complete(CompletionAsk::MarkCompleted(&plain_registration())))
    );
    known.completion.completed = Some(plain_registration());
    known.completion.user = Some(alice());
    known.completion.session = Some(browser());
    known.completion.provisioning_scheduled = true;
    assert_eq!(asked(&site, &form, &known), "Save");
    known.saved = true;
    let Next::Done(Ok(payload)) = m.register_user_initiate(&who, &site, &form, &known) else {
        panic!("not done");
    };
    assert_eq!(payload.status(), RegisterUserInitiateStatus::Complete);
    assert_eq!(payload.user(), Some(alice()));
    assert_eq!(payload.browser_session(), Some(browser()));
    assert_eq!(payload.session_id(), None);
    assert_eq!(payload.next_steps(), None);
}

#[test]
fn failed_registrations_have_a_status_and_errors() {
    let errors = vec![RegistrationFieldError::new("email", "wrong")];
    let payload = RegisterUserInitiatePayload::Failed(errors.clone());
    assert_eq!(payload.status(), RegisterUserInitiateStatus::Failed);
    assert_eq!(payload.errors(), Some(errors));
}

#[test]
fn completion_sets_the_account_up() {
    let whole = registration();
    let mut known = CompletionAnswers::new();
    let step = |known: &CompletionAnswers| match UserMutations::complete_registration(&whole, known) {
        Next::Ask(ask) => {
            let text = format!("{ask:?}");
            text.split(|c: char| !c.is_ascii_alphanumeric()).next().unwrap().to_owned()
        }
        Next::Done(Ok(_)) => "done".to_owned(),
        Next::Done(Err(e)) => format!("{e:?}"),
    };
    assert_eq!(step(&known), "IsUsernameTaken");
    known.username_taken = Some(false);
    assert_eq!(step(&known), "IsUsernameAvailable");
    known.username_available = Some(false);
    assert_eq!(step(&known), "UsernameNotAvailable");
    known.username_available = Some(true);
    assert_eq!(
        UserMutations::complete_registration(&whole, &known),
        Next::Ask(CompletionAsk::LookupEmailAuthentication(21))
    );
    known.email_authentication = Some(None);
    assert_eq!(step(&known), "EmailAuthNotFound");
    known.email_authentication = Some(Some(authentication(true)));
    assert_eq!(step(&known), "CountEmail");
    known.email_count = Some(1);
    assert_eq!(step(&known), "EmailInUse");
    known.email_count = Some(0);
    assert_eq!(
        UserMutations::complete_registration(&whole, &known),
        Next::Ask(CompletionAsk::MarkCompleted(&whole))
    );
    known.completed = Some(registration());
    assert_eq!(step(&known), "LookupToken");
    known.token = Some(None);
    assert_eq!(step(&known), "TokenNotFound");
    known.token = Some(Some(RegistrationToken { id: 8, valid: true }));
    assert_eq!(step(&known), "UseToken");
    known.token_used = true;
    assert_eq!(step(&known), "AddUser");
    known.user = Some(alice());
    assert_eq!(step(&known), "AddSession");
    known.session = Some(browser());
    assert_eq!(step(&known), "AddPassword");
    known.password_id = Some(31);
    assert_eq!(
        UserMutations::complete_registration(&whole, &known),
        Next::Ask(CompletionAsk::AuthenticateSession { session: &browser(), password_id: 31 })
    );
    known.session_authenticated = true;
    let email = "a@example.com".to_owned();
    assert_eq!(
        UserMutations::complete_registration(&whole, &known),
        Next::Ask(CompletionAsk::AddEmail { user: &alice(), email: &email })
    );
    known.email_added = true;
    let terms = "https://example.com/terms".to_owned();
    assert_eq!(
        UserMutations::complete_registration(&whole, &known),
        Next::Ask(CompletionAsk::AcceptTerms { user: &alice(), terms_url: &terms })
    );
    known.terms_accepted = true;
    let name = Some("Alice".to_owned());
    assert_eq!(
        UserMutations::complete_registration(&whole, &known),
        Next::Ask(CompletionAsk::ScheduleProvisioning { user: &alice(), display_name: &name })
    );
    known.provisioning_scheduled = true;
    assert_eq!(
        UserMutations::complete_registration(&whole, &known),
        Next::Done(Ok((alice(), browser())))
    );
}

fn step_input(code: Option<&str>) -> CompleteRegistrationStepInput {
    CompleteRegistrationStepInput {
        session_id: SESSION.to_owned(),
        step_type: RegistrationStepType::EmailVerification,
        data: code.map(|code| {
            JsonValue::Object(vec![("code".to_owned(), JsonValue::Text(code.to_owned()))])
        }),
    }
}

fn no_step_answers() -> StepAnswers {
    StepAnswers {
        repository_open: true,
        registration: Some(Some(registration())),
        now: Some(Instant { seconds: 2000, nanos: 0 }),
        email_authentication: Some(Some(authentication(false))),
        attempt_within_limit: Some(true),
        code: None,
        now_for_code: None,
        authentication_completed: false,
        refreshed: None,
        refreshed_authentication: None,
        completion: CompletionAnswers::new(),
        saved: false,
    }
}

fn code_error(known: &StepAnswers, code: Option<&str>) -> String {
    let form = step_input(code);
    match UserMutations::default().complete_registration_step(&form, known) {
        Next::Done(Ok(CompleteRegistrationStepPayload::Failed(errors))) => {
            assert_eq!(errors.len(), 1);
            assert_eq!(errors[0].field, "code");
            errors[0].message.clone()
        }
        other => panic!("no error: {other:?}"),
    }
}

#[test]
fn registration_sessions_must_be_running() {
    let m = UserMutations::default();
    let form = step_input(Some("123456"));
    let mut known = no_step_answers();
    known.repository_open = false;
    assert_eq!(
        m.complete_registration_step(&form, &known),
        Next::Ask(StepAsk::OpenRepository)
    );
    known.repository_open = true;
    let mut unreadable = step_input(None);
    unreadable.session_id = "nonsense".to_owned();
    assert_eq!(
        m.complete_registration_step(&unreadable, &known),
        Next::Done(Err(MutationError::InvalidSessionId))
    );
    known.registration = None;
    assert_eq!(
        m.complete_registration_step(&form, &known),
        Next::Ask(StepAsk::LookupRegistration(parse_ulid(SESSION).unwrap()))
    );
    known.registration = Some(None);
    assert_eq!(
        m.complete_registration_step(&form, &known),
        Next::Done(Err(MutationError::RegistrationNotFound))
    );
    let mut done = registration();
    done.completed_at = Some(Instant { seconds: 1500, nanos: 0 });
    known.registration = Some(Some(done));
    assert_eq!(
        m.complete_registration_step(&form, &known),
        Next::Done(Err(MutationError::RegistrationCompleted))
    );
    known.registration = Some(Some(registration()));
    known.now = None;
    assert_eq!(m.complete_registration_step(&form, &known), Next::Ask(StepAsk::ReadClock));
    // An hour to the nanosecond is not too late, a nanosecond more is.
    known.now = Some(Instant { seconds: 4600, nanos: 1 });
    assert_eq!(
        m.complete_registration_step(&form, &known),
        Next::Done(Err(MutationError::RegistrationExpired))
    );
    known.now = Some(Instant { seconds: 4600, nanos: 0 });
    known.email_authentication = None;
    assert_eq!(
        m.complete_registration_step(&form, &known),
        Next::Ask(StepAsk::LookupEmailAuthentication(21))
    );
    known.email_authentication = Some(None);
    assert_eq!(
        m.complete_registration_step(&form, &known),
        Next::Done(Err(MutationError::EmailAuthenticationNotFound))
    );
}

#[test]
fn codes_are_checked() {
    let m = UserMutations::default();
    let mut known = no_step_answers();
    known.attempt_within_limit = None;
    assert_eq!(
        m.complete_registration_step(&step_input(Some("1")), &known),
        Next::Ask(StepAsk::CheckAttemptLimit(&authentication(false)))
    );
    known.attempt_within_limit = Some(false);
    assert_eq!(code_error(&known, Some("1")), "Too many verification attempts");
    known.attempt_within_limit = Some(true);
    assert_eq!(code_error(&known, None), "Verification code is required");
    assert_eq!(code_error(&known, Some("")), "Verification code is required");
    assert_eq!(
        m.complete_registration_step(&step_input(Some("123456")), &known),
        Next::Ask(StepAsk::FindCode { authentication: &authentication(false), submitted: "123456" })
    );
    known.code = Some(None);
    assert_eq!(code_error(&known, Some("123456")), "Invalid or expired verification code");
    let live = || EmailAuthenticationCode { id: 41, expires_at: Instant { seconds: 2000, nanos: 1 } };
    known.code = Some(Some(live()));
    assert_eq!(
        m.complete_registration_step(&step_input(Some("123456")), &known),
        Next::Ask(StepAsk::ReadClockForCode)
    );
    known.now_for_code = Some(Instant { seconds: 2000, nanos: 1 });
    assert_eq!(code_error(&known, Some("123456")), "Invalid or expired verification code");
    known.now_for_code = Some(Instant { seconds: 2000, nanos: 0 });
    assert_eq!(
        m.complete_registration_step(&step_input(Some("123456")), &known),
        Next::Ask(StepAsk::CompleteAuthentication {
            authentication: &authentication(false),
            code: &live(),
        })
    );
}

#[test]
fn verified_addresses_complete_the_registration() {
    let m = UserMutations::default();
    let form = step_input(Some("123456"));
    let mut known = no_step_answers();
    known.email_authentication = Some(Some(authentication(true)));
    assert_eq!(
        m.complete_registration_step(&form, &known),
        Next::Ask(StepAsk::RefreshRegistration(parse_ulid(SESSION).unwrap()))
    );
    known.refreshed = Some(None);
    assert_eq!(
        m.complete_registration_step(&form, &known),
        Next::Done(Err(MutationError::RegistrationNotFound))
    );
    known.refreshed = Some(Some(registration()));
    assert_eq!(
        m.complete_registration_step(&form, &known),
        Next::Ask(StepAsk::RefreshEmailAuthentication(21))
    );
    known.refreshed_authentication = Some(None);
    assert_eq!(
        m.complete_registration_step(&form, &known),
        Next::Done(Err(MutationError::EmailAuthMissing))
    );
    // An address that is still not verified leaves the step to be taken.
    known.refreshed_authentication = Some(Some(authentication(false)));
    assert_eq!(m.complete_registration_step(&form, &known), Next::Ask(StepAsk::Save));
    known.saved = true;
    let Next::Done(Ok(pending)) = m.complete_registration_step(&form, &known) else {
        panic!("not done");
    };
    assert_eq!(pending.status(), CompleteRegistrationStepStatus::Pending);
    assert_eq!(
        pending.next_steps(),
        Some(vec![RegistrationStep { step_type: RegistrationStepType::EmailVerification }])
    );
    assert_eq!(pending.errors(), None);
    known.saved = false;
    known.refreshed_authentication = Some(Some(authentication(true)));
    known.refreshed = Some(Some(plain_registration()));
    let name = "alice".to_owned();
    assert_eq!(
        m.complete_registration_step(&form, &known),
        Next::Ask(StepAsk::Complete(CompletionAsk::IsUsernameTaken(&name)))
    );
    known.completion.username_taken = Some(false);
    known.completion.username_available = Some(true);
    known.completion.completed = Some(plain_registration());
    known.completion.user = Some(alice());
    known.completion.session = Some(browser());
    known.completion.provisioning_scheduled = true;
    assert_eq!(m.complete_registration_step(&form, &known), Next::Ask(StepAsk::Save));
    known.saved = true;
    let Next::Done(Ok(complete)) = m.complete_registration_step(&form, &known) else {
        panic!("not done");
    };
    assert_eq!(complete.status(), CompleteRegistrationStepStatus::Complete);
    assert_eq!(complete.user(), Some(alice()));
    assert_eq!(complete.browser_session(), Some(browser()));
    assert_eq!(complete.next_steps(), None);
}

#[test]
fn registration_emails_are_resent() {
    let m = UserMutations::default();
    let mut form = ResendRegistrationEmailInput { session_id: "nonsense".to_owned() };
    let mut known = ResendRegistrationAnswers::new();
    assert_eq!(
        m.resend_registration_email(&form, &known),
        Next::Ask(ResendRegistrationAsk::OpenRepository)
    );
    known.repository_open = true;
    assert_eq!(
        m.resend_registration_email(&form, &known),
        Next::Done(Err(MutationError::InvalidSessionId))
    );
    form.session_id = SESSION.to_owned();
    assert_eq!(
        m.resend_registration_email(&form, &known),
        Next::Ask(ResendRegistrationAsk::LookupRegistration(parse_ulid(SESSION).unwrap()))
    );
    known.registration = Some(None);
    assert_eq!(
        m.resend_registration_email(&form, &known),
        Next::Done(Err(MutationError::RegistrationNotFound))
    );
    let failed = |message: &str| {
        Next::Done(Ok(ResendRegistrationEmailPayload {
            status: ResendRegistrationEmailStatus::Failed,
            errors: Some(vec![RegistrationFieldError::new("session", message)]),
        }))
    };
    known.registration = Some(Some(plain_registration()));
    assert_eq!(
        m.resend_registration_email(&form, &known),
        failed("Email verification is not pending for this session.")
    );
    known.registration = Some(Some(registration()));
    assert_eq!(
        m.resend_registration_email(&form, &known),
        Next::Ask(ResendRegistrationAsk::LookupEmailAuthentication(21))
    );
    known.email_authentication = Some(None);
    assert_eq!(
        m.resend_registration_email(&form, &known),
        Next::Done(Err(MutationError::EmailAuthenticationNotFound))
    );
    known.email_authentication = Some(Some(authentication(false)));
    assert_eq!(
        m.resend_registration_email(&form, &known),
        Next::Ask(ResendRegistrationAsk::CheckSendLimit(&authentication(false)))
    );
    known.within_limit = Some(false);
    assert_eq!(
        m.resend_registration_email(&form, &known),
        failed("Rate limited. Please try again later.")
    );
    known.within_limit = Some(true);
    assert_eq!(
        m.resend_registration_email(&form, &known),
        Next::Ask(ResendRegistrationAsk::ScheduleEmailCode {
            authentication: &authentication(false),
            language: "en",
        })
    );
    known.email_code_scheduled = true;
    assert_eq!(
        m.resend_registration_email(&form, &known),
        Next::Ask(ResendRegistrationAsk::Save)
    );
    known.saved = true;
    assert_eq!(
        m.resend_registration_email(&form, &known),
        Next::Done(Ok(ResendRegistrationEmailPayload {
            status: ResendRegistrationEmailStatus::Sent,
            errors: None,
        }))
    );
}
