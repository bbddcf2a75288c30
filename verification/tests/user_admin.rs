use tween_accounts::users::admin::AddUserAnswers;
use tween_accounts::users::admin::AddUserAsk;
use tween_accounts::users::admin::AddUserInput;
use tween_accounts::users::admin::AddUserPayload;
use tween_accounts::users::admin::AddUserStatus;
use tween_accounts::users::admin::AllowCrossSigningResetAnswers;
use tween_accounts::users::admin::AllowCrossSigningResetAsk;
use tween_accounts::users::admin::AllowUserCrossSigningResetInput;
use tween_accounts::users::admin::AllowUserCrossSigningResetPayload;
use tween_accounts::users::admin::LockUserAnswers;
use tween_accounts::users::admin::LockUserAsk;
use tween_accounts::users::admin::LockUserInput;
use tween_accounts::users::admin::LockUserPayload;
use tween_accounts::users::admin::LockUserStatus;
use tween_accounts::users::admin::SetCanRequestAdminAnswers;
use tween_accounts::users::admin::SetCanRequestAdminAsk;
use tween_accounts::users::admin::SetCanRequestAdminInput;
use tween_accounts::users::admin::SetCanRequestAdminPayload;
use tween_accounts::users::admin::UnlockUserAnswers;
use tween_accounts::users::admin::UnlockUserAsk;
use tween_accounts::users::admin::UnlockUserInput;
use tween_accounts::users::admin::UnlockUserPayload;
use tween_accounts::users::admin::UnlockUserStatus;
use tween_accounts::users::model::User;
use tween_accounts::users::MutationError;
use tween_accounts::users::Next;
use tween_accounts::users::UserMutations;

fn user(id: u128, valid: bool) -> User {
    User { id, username: "alice".to_owned(), valid }
}

#[test]
fn only_administrators_may() {
    let m = UserMutations::default();
    let add = AddUserInput { username: "alice".to_owned(), skip_homeserver_check: None };
    assert_eq!(
        m.add_user(false, &add, &AddUserAnswers::new()),
        Next::Done(Err(MutationError::Unauthorized))
    );
    let lock = LockUserInput { user_id: "u".to_owned(), deactivate: None };
    assert_eq!(
        m.lock_user(false, &lock, &LockUserAnswers::new()),
        Next::Done(Err(MutationError::Unauthorized))
    );
    let unlock = UnlockUserInput { user_id: "u".to_owned() };
    assert_eq!(
        m.unlock_user(false, &unlock, &UnlockUserAnswers::new()),
        Next::Done(Err(MutationError::Unauthorized))
    );
    let can = SetCanRequestAdminInput { user_id: "u".to_owned(), can_request_admin: true };
    assert_eq!(
        m.set_can_request_admin(false, &can, &SetCanRequestAdminAnswers::new()),
        Next::Done(Err(MutationError::Unauthorized))
    );
}

#[test]
fn users_are_added_step_by_step() {
    let m = UserMutations::default();
    let input = AddUserInput { username: "alice".to_owned(), skip_homeserver_check: None };
    let mut known = AddUserAnswers::new();
    assert_eq!(m.add_user(true, &input, &known), Next::Ask(AddUserAsk::OpenRepository));
    known.repository_open = true;
    assert_eq!(
        m.add_user(true, &input, &known),
        Next::Ask(AddUserAsk::FindByUsername(&input.username))
    );
    known.existing = Some(None);
    assert_eq!(
        m.add_user(true, &input, &known),
        Next::Ask(AddUserAsk::IsUsernameAvailable(&input.username))
    );
    known.username_available = Some(true);
    assert_eq!(
        m.add_user(true, &input, &known),
        Next::Ask(AddUserAsk::AddUser(&input.username))
    );
    known.added = Some(user(1, true));
    assert_eq!(
        m.add_user(true, &input, &known),
        Next::Ask(AddUserAsk::ScheduleProvisioning(&user(1, true)))
    );
    known.provisioning_scheduled = true;
    assert_eq!(m.add_user(true, &input, &known), Next::Ask(AddUserAsk::Save));
    known.saved = true;
    let Next::Done(Ok(payload)) = m.add_user(true, &input, &known) else {
        panic!("not added");
    };
    assert_eq!(payload.status(), AddUserStatus::Added);
    assert_eq!(payload.user(), Some(user(1, true)));
}

#[test]
fn users_are_not_added_under_taken_invalid_or_reserved_names() {
    let m = UserMutations::default();
    let mut input = AddUserInput { username: "alice".to_owned(), skip_homeserver_check: None };
    let mut known = AddUserAnswers::new();
    known.repository_open = true;
    known.existing = Some(Some(user(1, true)));
    let Next::Done(Ok(exists)) = m.add_user(true, &input, &known) else {
        panic!("added");
    };
    assert_eq!(exists.status(), AddUserStatus::Exists);
    assert_eq!(exists.user(), Some(user(1, true)));
    known.existing = Some(None);
    input.username = "Alice".to_owned();
    assert_eq!(m.add_user(true, &input, &known), Next::Done(Ok(AddUserPayload::Invalid)));
    assert_eq!(AddUserPayload::Invalid.status(), AddUserStatus::Invalid);
    assert_eq!(AddUserPayload::Invalid.user(), None);
    input.username = "alice".to_owned();
    known.username_available = Some(false);
    assert_eq!(m.add_user(true, &input, &known), Next::Done(Ok(AddUserPayload::Reserved)));
    assert_eq!(AddUserPayload::Reserved.status(), AddUserStatus::Reserved);
    input.skip_homeserver_check = Some(false);
    assert_eq!(m.add_user(true, &input, &known), Next::Done(Ok(AddUserPayload::Reserved)));
    // A check that is to be skipped is not made, whatever its outcome would be.
    input.skip_homeserver_check = Some(true);
    for available in [Some(false), Some(true), None] {
        known.username_available = available;
        assert_eq!(
            m.add_user(true, &input, &known),
            Next::Ask(AddUserAsk::AddUser(&input.username))
        );
    }
}

#[test]
fn locking_deactivates_on_request() {
    let m = UserMutations::default();
    let mut input = LockUserInput { user_id: "user:1".to_owned(), deactivate: Some(true) };
    let mut known = LockUserAnswers::new();
    assert_eq!(m.lock_user(true, &input, &known), Next::Ask(LockUserAsk::OpenRepository));
    known.repository_open = true;
    assert_eq!(
        m.lock_user(true, &input, &known),
        Next::Ask(LockUserAsk::ExtractUserId(&input.user_id))
    );
    known.user_id = Some(1);
    assert_eq!(m.lock_user(true, &input, &known), Next::Ask(LockUserAsk::LookupUser(1)));
    known.user = Some(None);
    assert_eq!(m.lock_user(true, &input, &known), Next::Done(Ok(LockUserPayload::NotFound)));
    assert_eq!(LockUserPayload::NotFound.status(), LockUserStatus::NotFound);
    assert_eq!(LockUserPayload::NotFound.user(), None);
    known.user = Some(Some(user(1, true)));
    assert_eq!(
        m.lock_user(true, &input, &known),
        Next::Ask(LockUserAsk::Lock(&user(1, true)))
    );
    known.locked = Some(user(1, false));
    assert_eq!(
        m.lock_user(true, &input, &known),
        Next::Ask(LockUserAsk::ScheduleProvisioning(&user(1, false)))
    );
    known.provisioning_scheduled = true;
    assert_eq!(
        m.lock_user(true, &input, &known),
        Next::Ask(LockUserAsk::ScheduleDeactivation { user: &user(1, false), hs_erase: true })
    );
    input.deactivate = None;
    assert_eq!(m.lock_user(true, &input, &known), Next::Ask(LockUserAsk::Save));
    known.saved = true;
    let Next::Done(Ok(payload)) = m.lock_user(true, &input, &known) else {
        panic!("not locked");
    };
    assert_eq!(payload.status(), LockUserStatus::Locked);
    assert_eq!(payload.user(), Some(user(1, false)));
}

#[test]
fn unlocking_goes_to_the_homeserver_first() {
    let m = UserMutations::default();
    let input = UnlockUserInput { user_id: "user:1".to_owned() };
    let mut known = UnlockUserAnswers::new();
    assert_eq!(m.unlock_user(true, &input, &known), Next::Ask(UnlockUserAsk::OpenRepository));
    known.repository_open = true;
    assert_eq!(
        m.unlock_user(true, &input, &known),
        Next::Ask(UnlockUserAsk::ExtractUserId(&input.user_id))
    );
    known.user_id = Some(1);
    assert_eq!(m.unlock_user(true, &input, &known), Next::Ask(UnlockUserAsk::LookupUser(1)));
    known.user = Some(None);
    assert_eq!(
        m.unlock_user(true, &input, &known),
        Next::Done(Ok(UnlockUserPayload::NotFound))
    );
    assert_eq!(UnlockUserPayload::NotFound.status(), UnlockUserStatus::NotFound);
    assert_eq!(UnlockUserPayload::NotFound.user(), None);
    known.user = Some(Some(user(1, false)));
    let name = "alice".to_owned();
    assert_eq!(
        m.unlock_user(true, &input, &known),
        Next::Ask(UnlockUserAsk::ReactivateOnHomeserver(&name))
    );
    known.reactivated_on_homeserver = true;
    assert_eq!(
        m.unlock_user(true, &input, &known),
        Next::Ask(UnlockUserAsk::Reactivate(&user(1, false)))
    );
    known.reactivated = Some(user(1, false));
    assert_eq!(
        m.unlock_user(true, &input, &known),
        Next::Ask(UnlockUserAsk::Unlock(&user(1, false)))
    );
    known.unlocked = Some(user(1, true));
    assert_eq!(
        m.unlock_user(true, &input, &known),
        Next::Ask(UnlockUserAsk::ScheduleProvisioning(&user(1, true)))
    );
    known.provisioning_scheduled = true;
    assert_eq!(m.unlock_user(true, &input, &known), Next::Ask(UnlockUserAsk::Save));
    known.saved = true;
    let Next::Done(Ok(payload)) = m.unlock_user(true, &input, &known) else {
        panic!("not unlocked");
    };
    assert_eq!(payload.status(), UnlockUserStatus::Unlocked);
    assert_eq!(payload.user(), Some(user(1, true)));
}

#[test]
fn administrators_say_who_can_request_admin() {
    let m = UserMutations::default();
    let input = SetCanRequestAdminInput { user_id: "user:1".to_owned(), can_request_admin: true };
    let mut known = SetCanRequestAdminAnswers::new();
    assert_eq!(
        m.set_can_request_admin(true, &input, &known),
        Next::Ask(SetCanRequestAdminAsk::OpenRepository)
    );
    known.repository_open = true;
    assert_eq!(
        m.set_can_request_admin(true, &input, &known),
        Next::Ask(SetCanRequestAdminAsk::ExtractUserId(&input.user_id))
    );
    known.user_id = Some(1);
    assert_eq!(
        m.set_can_request_admin(true, &input, &known),
        Next::Ask(SetCanRequestAdminAsk::LookupUser(1))
    );
    known.user = Some(None);
    assert_eq!(
        m.set_can_request_admin(true, &input, &known),
        Next::Done(Ok(SetCanRequestAdminPayload::NotFound))
    );
    assert_eq!(SetCanRequestAdminPayload::NotFound.user(), None);
    known.user = Some(Some(user(1, true)));
    assert_eq!(
        m.set_can_request_admin(true, &input, &known),
        Next::Ask(SetCanRequestAdminAsk::Update { user: &user(1, true), can_request_admin: true })
    );
    known.updated = Some(user(1, true));
    assert_eq!(
        m.set_can_request_admin(true, &input, &known),
        Next::Ask(SetCanRequestAdminAsk::Save)
    );
    known.saved = true;
    let Next::Done(Ok(payload)) = m.set_can_request_admin(true, &input, &known) else {
        panic!("not updated");
    };
    assert_eq!(payload.user(), Some(user(1, true)));
}

#[test]
fn cross_signing_resets_are_for_the_owner() {
    let m = UserMutations::default();
    let input = AllowUserCrossSigningResetInput { user_id: "user:1".to_owned() };
    let mut known = AllowCrossSigningResetAnswers::new();
    assert_eq!(
        m.allow_user_cross_signing_reset(&input, &known),
        Next::Ask(AllowCrossSigningResetAsk::ExtractUserId(&input.user_id))
    );
    known.user_id = Some(1);
    assert_eq!(
        m.allow_user_cross_signing_reset(&input, &known),
        Next::Ask(AllowCrossSigningResetAsk::IsOwnerOrAdmin(1))
    );
    known.owner_or_admin = Some(false);
    assert_eq!(
        m.allow_user_cross_signing_reset(&input, &known),
        Next::Done(Err(MutationError::Unauthorized))
    );
    known.owner_or_admin = Some(true);
    assert_eq!(
        m.allow_user_cross_signing_reset(&input, &known),
        Next::Ask(AllowCrossSigningResetAsk::OpenRepository)
    );
    known.repository_open = true;
    assert_eq!(
        m.allow_user_cross_signing_reset(&input, &known),
        Next::Ask(AllowCrossSigningResetAsk::LookupUser(1))
    );
    known.user = Some(None);
    assert_eq!(
        m.allow_user_cross_signing_reset(&input, &known),
        Next::Ask(AllowCrossSigningResetAsk::CancelRepository)
    );
    known.repository_cancelled = true;
    assert_eq!(
        m.allow_user_cross_signing_reset(&input, &known),
        Next::Done(Ok(AllowUserCrossSigningResetPayload::NotFound))
    );
    assert_eq!(AllowUserCrossSigningResetPayload::NotFound.user(), None);
    known.user = Some(Some(user(1, true)));
    let name = "alice".to_owned();
    assert_eq!(
        m.allow_user_cross_signing_reset(&input, &known),
        Next::Ask(AllowCrossSigningResetAsk::AllowOnHomeserver(&name))
    );
    known.allowed = Some(false);
    assert_eq!(
        m.allow_user_cross_signing_reset(&input, &known),
        Next::Done(Err(MutationError::CrossSigningResetFailed))
    );
    known.allowed = Some(true);
    let Next::Done(Ok(payload)) = m.allow_user_cross_signing_reset(&input, &known) else {
        panic!("not allowed");
    };
    assert_eq!(payload.user(), Some(user(1, true)));
}

#[test]
fn errors_have_their_texts() {
    let texts = [
        (MutationError::Unauthorized, "Unauthorized"),
        (MutationError::CrossSigningResetFailed, "Failed to allow cross-signing reset"),
        (
            MutationError::CurrentPasswordRequired,
            "You must supply `currentPassword` to change your own password if you are not an administrator",
        ),
        (
            MutationError::RecoveryIsForAnonymousUsers,
            "Account recovery is only for anonymous users.",
        ),
        (MutationError::UnknownRecoverySession, "Unknown session"),
        (MutationError::UnknownEmailAddress, "Unknown email address"),
        (MutationError::InvalidUser, "Invalid user"),
        (MutationError::CouldNotLoadRecoverySession, "Could not load recovery session"),
        (
            MutationError::DeactivationNotAllowed,
            "Account deactivation is not allowed on this server",
        ),
        (MutationError::AlreadyAuthenticated, "Already authenticated"),
        (MutationError::RegistrationDisabled, "Password registration is disabled"),
        (MutationError::TokenNotFound, "Token not found"),
        (MutationError::InvalidSessionId, "Invalid session ID"),
        (MutationError::RegistrationNotFound, "Registration session not found"),
        (MutationError::RegistrationCompleted, "Registration already completed"),
        (MutationError::RegistrationExpired, "Registration session has expired"),
        (MutationError::EmailAuthenticationNotFound, "Email authentication not found"),
        (MutationError::EmailAuthMissing, "Email auth missing"),
        (MutationError::EmailAuthNotFound, "Email auth not found"),
        (MutationError::UsernameTaken, "Username is already taken"),
        (MutationError::UsernameNotAvailable, "Username is not available"),
        (MutationError::EmailInUse, "Email address already in use"),
    ];
    for (e, text) in texts {
        assert_eq!(e.message(), text);
    }
}
