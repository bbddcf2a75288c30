use tween_accounts::instant::Instant;
use tween_accounts::users::deactivation::DeactivateUserAnswers;
use tween_accounts::users::deactivation::DeactivateUserAsk;
use tween_accounts::users::deactivation::DeactivateUserInput;
use tween_accounts::users::deactivation::DeactivateUserPayload;
use tween_accounts::users::deactivation::DeactivateUserStatus;
use tween_accounts::users::model::BrowserSession;
use tween_accounts::users::model::HashedPassword;
use tween_accounts::users::model::RecoverySession;
use tween_accounts::users::model::RecoveryTicket;
use tween_accounts::users::model::User;
use tween_accounts::users::model::UserEmail;
use tween_accounts::users::passwords::PasswordRecoveryAnswers;
use tween_accounts::users::passwords::PasswordRecoveryAsk;
use tween_accounts::users::passwords::PasswordSettings;
use tween_accounts::users::passwords::ResendRecoveryAnswers;
use tween_accounts::users::passwords::ResendRecoveryAsk;
use tween_accounts::users::passwords::ResendRecoveryEmailInput;
use tween_accounts::users::passwords::ResendRecoveryEmailPayload;
use tween_accounts::users::passwords::ResendRecoveryEmailStatus;
use tween_accounts::users::passwords::SetPasswordAnswers;
use tween_accounts::users::passwords::SetPasswordAsk;
use tween_accounts::users::passwords::SetPasswordByRecoveryInput;
use tween_accounts::users::passwords::SetPasswordInput;
use tween_accounts::users::passwords::SetPasswordPayload;
use tween_accounts::users::passwords::SetPasswordStatus;
use tween_accounts::users::MutationError;
use tween_accounts::users::Next;
use tween_accounts::users::UserMutations;

fn settings() -> PasswordSettings {
    PasswordSettings {
        passwords_enabled: true,
        password_change_allowed: true,
        account_recovery_allowed: true,
    }
}

fn alice() -> User {
    User { id: 1, username: "alice".to_owned(), valid: true }
}

fn hash(text: &str) -> HashedPassword {
    HashedPassword { version: 2, hash: text.to_owned() }
}

fn status<A>(status: SetPasswordStatus) -> Next<A, SetPasswordPayload> {
    Next::Done(Ok(SetPasswordPayload { status }))
}

fn change() -> SetPasswordInput {
    SetPasswordInput {
        user_id: "user:1".to_owned(),
        current_password: Some("old".to_owned()),
        new_password: "new".to_owned(),
    }
}

#[test]
fn users_change_their_password_with_the_current_one() {
    let m = UserMutations::default();
    let input = change();
    let mut known = SetPasswordAnswers::new();
    let step = |known: &SetPasswordAnswers| {
        let next = m.set_password(false, &settings(), &input, known);
        format!("{next:?}")
    };
    assert_eq!(
        m.set_password(false, &settings(), &input, &known),
        Next::Ask(SetPasswordAsk::ExtractUserId(&input.user_id))
    );
    known.user_id = Some(1);
    assert!(step(&known).contains("IsOwnerOrAdmin(1)"));
    known.owner_or_admin = Some(true);
    assert!(step(&known).contains("IsComplexEnough(\"new\")"));
    known.complex_enough = Some(true);
    assert!(step(&known).contains("OpenRepository"));
    known.repository_open = true;
    assert!(step(&known).contains("LookupUser(1)"));
    known.user = Some(Some(alice()));
    assert!(step(&known).contains("ActivePassword"));
    known.active_password = Some(Some(hash("old hash")));
    let attempt = "old".to_owned();
    assert_eq!(
        m.set_password(false, &settings(), &input, &known),
        Next::Ask(SetPasswordAsk::VerifyPassword { attempt: &attempt, active: &hash("old hash") })
    );
    known.current_password_matches = Some(false);
    assert_eq!(
        m.set_password(false, &settings(), &input, &known),
        status(SetPasswordStatus::WrongPassword)
    );
    known.current_password_matches = Some(true);
    assert!(step(&known).contains("HashPassword(\"new\")"));
    known.hashed = Some(hash("new hash"));
    assert_eq!(
        m.set_password(false, &settings(), &input, &known),
        Next::Ask(SetPasswordAsk::StorePassword { user: &alice(), password: &hash("new hash") })
    );
    known.stored = true;
    assert_eq!(
        m.set_password(false, &settings(), &input, &known),
        Next::Ask(SetPasswordAsk::Save)
    );
    known.saved = true;
    let Next::Done(Ok(payload)) = m.set_password(false, &settings(), &input, &known) else {
        panic!("not set");
    };
    assert_eq!(payload.status(), SetPasswordStatus::Allowed);
}

#[test]
fn administrators_need_no_current_password() {
    let m = UserMutations::default();
    let mut input = change();
    input.current_password = None;
    let mut off = settings();
    off.password_change_allowed = false;
    let mut known = SetPasswordAnswers::new();
    known.user_id = Some(1);
    known.owner_or_admin = Some(true);
    known.complex_enough = Some(true);
    known.repository_open = true;
    known.user = Some(Some(alice()));
    assert_eq!(
        m.set_password(true, &off, &input, &known),
        Next::Ask(SetPasswordAsk::HashPassword(&input.new_password))
    );
    assert_eq!(
        m.set_password(false, &off, &input, &known),
        status(SetPasswordStatus::PasswordChangesDisabled)
    );
    known.active_password = Some(None);
    assert_eq!(
        m.set_password(false, &settings(), &input, &known),
        status(SetPasswordStatus::NoCurrentPassword)
    );
    known.active_password = Some(Some(hash("old hash")));
    assert_eq!(
        m.set_password(false, &settings(), &input, &known),
        Next::Done(Err(MutationError::CurrentPasswordRequired))
    );
}

#[test]
fn password_changes_are_refused() {
    let m = UserMutations::default();
    let mut input = change();
    let mut known = SetPasswordAnswers::new();
    known.user_id = Some(1);
    known.owner_or_admin = Some(false);
    assert_eq!(
        m.set_password(true, &settings(), &input, &known),
        status(SetPasswordStatus::NotAllowed)
    );
    known.owner_or_admin = Some(true);
    let mut off = settings();
    off.passwords_enabled = false;
    assert_eq!(
        m.set_password(true, &off, &input, &known),
        status(SetPasswordStatus::PasswordChangesDisabled)
    );
    known.complex_enough = Some(false);
    assert_eq!(
        m.set_password(true, &settings(), &input, &known),
        status(SetPasswordStatus::InvalidNewPassword)
    );
    known.complex_enough = Some(true);
    known.repository_open = true;
    known.user = Some(None);
    assert_eq!(
        m.set_password(true, &settings(), &input, &known),
        status(SetPasswordStatus::NotFound)
    );
    input.new_password.clear();
    // An empty password is refused before anything else about passwords.
    assert_eq!(
        m.set_password(true, &off, &input, &known),
        status(SetPasswordStatus::InvalidNewPassword)
    );
}

fn ticket() -> RecoveryTicket {
    RecoveryTicket { id: 3, user_recovery_session_id: 4, user_email_id: 5 }
}

fn session(consumed: bool) -> RecoverySession {
    RecoverySession {
        id: 4,
        email: "a@example.com".to_owned(),
        consumed_at: if consumed { Some(Instant { seconds: 1, nanos: 0 }) } else { None },
    }
}

#[test]
fn passwords_are_recovered_with_a_ticket() {
    let m = UserMutations::default();
    let input = SetPasswordByRecoveryInput {
        ticket: "t".to_owned(),
        new_password: "new".to_owned(),
    };
    let next = |known: &PasswordRecoveryAnswers| {
        format!("{:?}", m.set_password_by_recovery(true, &settings(), &input, known))
    };
    let mut known = PasswordRecoveryAnswers::new();
    assert_eq!(
        m.set_password_by_recovery(true, &settings(), &input, &known),
        Next::Ask(PasswordRecoveryAsk::IsComplexEnough(&input.new_password))
    );
    known.complex_enough = Some(true);
    assert!(next(&known).contains("OpenRepository"));
    known.repository_open = true;
    assert!(next(&known).contains("FindTicket(\"t\")"));
    known.ticket = Some(Some(ticket()));
    assert!(next(&known).contains("LookupSession(4)"));
    known.session = Some(Some(session(false)));
    assert_eq!(
        m.set_password_by_recovery(true, &settings(), &input, &known),
        Next::Ask(PasswordRecoveryAsk::IsTicketActive(&ticket()))
    );
    known.ticket_active = Some(true);
    assert!(next(&known).contains("LookupEmail(5)"));
    known.email = Some(Some(UserEmail { id: 5, user_id: 1 }));
    assert!(next(&known).contains("LookupUser(1)"));
    known.user = Some(Some(alice()));
    assert!(next(&known).contains("HashPassword(\"new\")"));
    known.hashed = Some(hash("new hash"));
    assert_eq!(
        m.set_password_by_recovery(true, &settings(), &input, &known),
        Next::Ask(PasswordRecoveryAsk::StorePassword {
            user: &alice(),
            password: &hash("new hash"),
        })
    );
    known.stored = true;
    assert_eq!(
        m.set_password_by_recovery(true, &settings(), &input, &known),
        Next::Ask(PasswordRecoveryAsk::ConsumeTicket {
            ticket: &ticket(),
            session: &session(false),
        })
    );
    known.consumed = true;
    assert_eq!(
        m.set_password_by_recovery(true, &settings(), &input, &known),
        Next::Ask(PasswordRecoveryAsk::Save)
    );
    known.saved = true;
    assert_eq!(
        m.set_password_by_recovery(true, &settings(), &input, &known),
        status(SetPasswordStatus::Allowed)
    );
}

#[test]
fn recoveries_are_refused() {
    let m = UserMutations::default();
    let input = SetPasswordByRecoveryInput {
        ticket: "t".to_owned(),
        new_password: "new".to_owned(),
    };
    let mut known = PasswordRecoveryAnswers::new();
    assert_eq!(
        m.set_password_by_recovery(false, &settings(), &input, &known),
        Next::Done(Err(MutationError::RecoveryIsForAnonymousUsers))
    );
    let mut off = settings();
    off.account_recovery_allowed = false;
    assert_eq!(
        m.set_password_by_recovery(true, &off, &input, &known),
        status(SetPasswordStatus::PasswordChangesDisabled)
    );
    let mut off = settings();
    off.passwords_enabled = false;
    assert_eq!(
        m.set_password_by_recovery(true, &off, &input, &known),
        status(SetPasswordStatus::PasswordChangesDisabled)
    );
    let check = |known: &PasswordRecoveryAnswers, expected: SetPasswordStatus| {
        assert_eq!(
            m.set_password_by_recovery(true, &settings(), &input, known),
            status(expected)
        );
    };
    known.complex_enough = Some(false);
    check(&known, SetPasswordStatus::InvalidNewPassword);
    known.complex_enough = Some(true);
    known.repository_open = true;
    known.ticket = Some(None);
    check(&known, SetPasswordStatus::NoSuchRecoveryTicket);
    known.ticket = Some(Some(ticket()));
    known.session = Some(None);
    assert_eq!(
        m.set_password_by_recovery(true, &settings(), &input, &known),
        Next::Done(Err(MutationError::UnknownRecoverySession))
    );
    // A used ticket is told apart from one that expired.
    known.session = Some(Some(session(true)));
    known.ticket_active = Some(false);
    check(&known, SetPasswordStatus::RecoveryTicketAlreadyUsed);
    known.session = Some(Some(session(false)));
    check(&known, SetPasswordStatus::ExpiredRecoveryTicket);
    known.ticket_active = Some(true);
    known.email = Some(None);
    assert_eq!(
        m.set_password_by_recovery(true, &settings(), &input, &known),
        Next::Done(Err(MutationError::UnknownEmailAddress))
    );
    known.email = Some(Some(UserEmail { id: 5, user_id: 1 }));
    known.user = Some(None);
    assert_eq!(
        m.set_password_by_recovery(true, &settings(), &input, &known),
        Next::Done(Err(MutationError::InvalidUser))
    );
    let mut locked = alice();
    locked.valid = false;
    known.user = Some(Some(locked));
    check(&known, SetPasswordStatus::AccountLocked);
}

#[test]
fn recovery_emails_are_resent_within_the_limit() {
    let m = UserMutations::default();
    let input = ResendRecoveryEmailInput { ticket: "t".to_owned() };
    let mut known = ResendRecoveryAnswers::new();
    assert_eq!(
        m.resend_recovery_email(&input, &known),
        Next::Ask(ResendRecoveryAsk::OpenRepository)
    );
    known.repository_open = true;
    assert_eq!(
        m.resend_recovery_email(&input, &known),
        Next::Ask(ResendRecoveryAsk::FindTicket(&input.ticket))
    );
    known.ticket = Some(None);
    let Next::Done(Ok(missing)) = m.resend_recovery_email(&input, &known) else {
        panic!("a ticket");
    };
    assert_eq!(missing.status(), ResendRecoveryEmailStatus::NoSuchRecoveryTicket);
    assert_eq!(missing.progress_session(), None);
    known.ticket = Some(Some(ticket()));
    assert_eq!(
        m.resend_recovery_email(&input, &known),
        Next::Ask(ResendRecoveryAsk::LookupSession(4))
    );
    known.session = Some(None);
    assert_eq!(
        m.resend_recovery_email(&input, &known),
        Next::Done(Err(MutationError::CouldNotLoadRecoverySession))
    );
    known.session = Some(Some(session(false)));
    let email = "a@example.com".to_owned();
    assert_eq!(
        m.resend_recovery_email(&input, &known),
        Next::Ask(ResendRecoveryAsk::CheckLimit(&email))
    );
    known.within_limit = Some(false);
    assert_eq!(
        m.resend_recovery_email(&input, &known),
        Next::Done(Ok(ResendRecoveryEmailPayload::RateLimited))
    );
    assert_eq!(
        ResendRecoveryEmailPayload::RateLimited.status(),
        ResendRecoveryEmailStatus::RateLimited
    );
    known.within_limit = Some(true);
    assert_eq!(
        m.resend_recovery_email(&input, &known),
        Next::Ask(ResendRecoveryAsk::ScheduleEmails(&session(false)))
    );
    known.emails_scheduled = true;
    assert_eq!(m.resend_recovery_email(&input, &known), Next::Ask(ResendRecoveryAsk::Save));
    known.saved = true;
    let Next::Done(Ok(sent)) = m.resend_recovery_email(&input, &known) else {
        panic!("not sent");
    };
    assert_eq!(sent.status(), ResendRecoveryEmailStatus::Sent);
    assert_eq!(sent.progress_session(), Some(4));
}

#[test]
fn users_deactivate_themselves() {
    let m = UserMutations::default();
    let input = DeactivateUserInput { hs_erase: true, password: Some("pw".to_owned()) };
    let browser = BrowserSession { id: 9, user: alice() };
    let mut known = DeactivateUserAnswers::new();
    assert_eq!(
        m.deactivate_user(None, true, &input, &known),
        Next::Done(Err(MutationError::Unauthorized))
    );
    assert_eq!(
        m.deactivate_user(Some(&browser), false, &input, &known),
        Next::Done(Err(MutationError::DeactivationNotAllowed))
    );
    assert_eq!(
        m.deactivate_user(Some(&browser), true, &input, &known),
        Next::Ask(DeactivateUserAsk::OpenRepository)
    );
    known.repository_open = true;
    assert_eq!(
        m.deactivate_user(Some(&browser), true, &input, &known),
        Next::Ask(DeactivateUserAsk::VerifyPassword { user: &alice(), password: &input.password })
    );
    known.password_accepted = Some(false);
    assert_eq!(
        m.deactivate_user(Some(&browser), true, &input, &known),
        Next::Done(Ok(DeactivateUserPayload::IncorrectPassword))
    );
    assert_eq!(
        DeactivateUserPayload::IncorrectPassword.status(),
        DeactivateUserStatus::IncorrectPassword
    );
    assert_eq!(DeactivateUserPayload::IncorrectPassword.user(), None);
    known.password_accepted = Some(true);
    assert_eq!(
        m.deactivate_user(Some(&browser), true, &input, &known),
        Next::Ask(DeactivateUserAsk::Deactivate(&alice()))
    );
    let mut gone = alice();
    gone.valid = false;
    known.deactivated = Some(gone.clone());
    assert_eq!(
        m.deactivate_user(Some(&browser), true, &input, &known),
        Next::Ask(DeactivateUserAsk::ScheduleDeactivation { user: &gone, hs_erase: true })
    );
    known.deactivation_scheduled = true;
    assert_eq!(
        m.deactivate_user(Some(&browser), true, &input, &known),
        Next::Ask(DeactivateUserAsk::Save)
    );
    known.saved = true;
    let Next::Done(Ok(payload)) = m.deactivate_user(Some(&browser), true, &input, &known) else {
        panic!("not deactivated");
    };
    assert_eq!(payload.status(), DeactivateUserStatus::Deactivated);
    assert_eq!(payload.user(), Some(gone));
}

/// Runs a recovery on a stored session, and says how many passwords it added.
fn recover(stored: &mut RecoverySession, active: bool) -> (SetPasswordStatus, usize) {
    let m = UserMutations::default();
    let input = SetPasswordByRecoveryInput {
        ticket: "ticket".to_owned(),
        new_password: "correct horse".to_owned(),
    };
    let mut known = PasswordRecoveryAnswers::new();
    let mut added = 0;
    loop {
        match m.set_password_by_recovery(true, &settings(), &input, &known) {
            Next::Ask(PasswordRecoveryAsk::IsComplexEnough(_)) => known.complex_enough = Some(true),
            Next::Ask(PasswordRecoveryAsk::OpenRepository) => known.repository_open = true,
            Next::Ask(PasswordRecoveryAsk::FindTicket(_)) => known.ticket = Some(Some(ticket())),
            Next::Ask(PasswordRecoveryAsk::LookupSession(_)) => {
                known.session = Some(Some(RecoverySession {
                    id: stored.id,
                    email: stored.email.clone(),
                    consumed_at: stored.consumed_at,
                }));
            }
            Next::Ask(PasswordRecoveryAsk::IsTicketActive(_)) => known.ticket_active = Some(active),
            Next::Ask(PasswordRecoveryAsk::LookupEmail(id)) => {
                known.email = Some(Some(UserEmail { id, user_id: 1 }));
            }
            Next::Ask(PasswordRecoveryAsk::LookupUser(_)) => known.user = Some(Some(alice())),
            Next::Ask(PasswordRecoveryAsk::HashPassword(_)) => {
                known.hashed = Some(HashedPassword { version: 1, hash: "h".to_owned() });
            }
            Next::Ask(PasswordRecoveryAsk::StorePassword { .. }) => {
                added += 1;
                known.stored = true;
            }
            Next::Ask(PasswordRecoveryAsk::ConsumeTicket { session, .. }) => {
                assert_eq!(session.id, stored.id);
                stored.consumed_at = Some(Instant { seconds: 1, nanos: 0 });
                known.consumed = true;
            }
            Next::Ask(PasswordRecoveryAsk::Save) => known.saved = true,
            Next::Done(Ok(payload)) => return (payload.status, added),
            Next::Done(Err(e)) => panic!("failed: {e:?}"),
        }
    }
}

#[test]
fn a_ticket_sets_one_password() {
    let mut stored = session(false);
    assert_eq!(recover(&mut stored, false), (SetPasswordStatus::ExpiredRecoveryTicket, 0));
    assert_eq!(recover(&mut stored, true), (SetPasswordStatus::Allowed, 1));
    for active in [true, false] {
        assert_eq!(
            recover(&mut stored, active),
            (SetPasswordStatus::RecoveryTicketAlreadyUsed, 0)
        );
    }
}
