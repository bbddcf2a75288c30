//! What administrators do with user accounts.

use crate::users::model::User;
use crate::users::username::username_valid;
use crate::users::MutationError;
use crate::users::Next;
use crate::users::UserMutations;
use vstd::prelude::*;

verus! {

/// The input for the `addUser` mutation.
#[derive(Debug)]
pub struct AddUserInput {
    /// The username of the user to add.
    pub username: String,
    /// Skip checking with the homeserver whether the username is valid.
    ///
    /// Use this with caution! The main reason to use this, is when a user used
    /// by an application service needs to exist to craft special tokens (like
    /// with admin access) for them.
    pub skip_homeserver_check: Option<bool>,
}

/// The status of the `addUser` mutation.
#[derive(Debug, Clone, Copy, PartialEq, Eq, Structural)]
pub enum AddUserStatus {
    /// The user was added.
    Added,
    /// The user already exists.
    Exists,
    /// The username is reserved.
    Reserved,
    /// The username is invalid.
    Invalid,
}

/// The payload for the `addUser` mutation.
#[derive(Debug, PartialEq, Eq)]
pub enum AddUserPayload {
    Added(User),
    Exists(User),
    Reserved,
    Invalid,
}

impl AddUserPayload {
    /// Status of the operation
    pub fn status(&self) -> (r: AddUserStatus)
        ensures
            self is Added <==> r == AddUserStatus::Added,
            self is Exists <==> r == AddUserStatus::Exists,
            self is Reserved <==> r == AddUserStatus::Reserved,
            self is Invalid <==> r == AddUserStatus::Invalid,
    {
        match self {
            AddUserPayload::Added(_) => AddUserStatus::Added,
            AddUserPayload::Exists(_) => AddUserStatus::Exists,
            AddUserPayload::Reserved => AddUserStatus::Reserved,
            AddUserPayload::Invalid => AddUserStatus::Invalid,
        }
    }

    /// The user that was added.
    pub fn user(&self) -> (r: Option<User>)
        ensures
            r == match *self {
                AddUserPayload::Added(user) => Some(user),
                AddUserPayload::Exists(user) => Some(user),
                _ => None,
            },
    {
        match self {
            AddUserPayload::Added(user) => Some(user.clone()),
            AddUserPayload::Exists(user) => Some(user.clone()),
            AddUserPayload::Reserved => None,
            AddUserPayload::Invalid => None,
        }
    }
}

/// What adding a user asks for, or has done.
#[derive(Debug, PartialEq, Eq)]
pub enum AddUserAsk<'a> {
    /// Open the repository; nothing is kept until it is saved.
    OpenRepository,
    FindByUsername(&'a String),
    /// Whether the homeserver has this name free.
    IsUsernameAvailable(&'a String),
    AddUser(&'a String),
    /// Have the user created on the homeserver.
    ScheduleProvisioning(&'a User),
    Save,
}

/// The answers that adding a user has had so far.
#[derive(Debug)]
pub struct AddUserAnswers {
    pub repository_open: bool,
    pub existing: Option<Option<User>>,
    pub username_available: Option<bool>,
    pub added: Option<User>,
    pub provisioning_scheduled: bool,
    pub saved: bool,
}

impl AddUserAnswers {
    /// No answer yet.
    pub fn new() -> (r: Self)
        ensures
            !r.repository_open,
            r.existing is None,
            r.username_available is None,
            r.added is None,
            !r.provisioning_scheduled,
            !r.saved,
    {
        AddUserAnswers {
            repository_open: false,
            existing: None,
            username_available: None,
            added: None,
            provisioning_scheduled: false,
            saved: false,
        }
    }
}

/// The next thing that adding a user asks for, or its outcome.
pub open spec fn add_user_next<'a>(
    admin: bool,
    input: &'a AddUserInput,
    known: &'a AddUserAnswers,
) -> Next<AddUserAsk<'a>, AddUserPayload> {
    if !admin {
        Next::Done(Err(MutationError::Unauthorized))
    } else if !known.repository_open {
        Next::Ask(AddUserAsk::OpenRepository)
    } else if known.existing is None {
        Next::Ask(AddUserAsk::FindByUsername(&input.username))
    } else if known.existing->0 is Some {
        Next::Done(Ok(AddUserPayload::Exists(known.existing->0->0)))
    } else if !crate::users::username::is_valid_username(input.username@) {
        Next::Done(Ok(AddUserPayload::Invalid))
    } else if input.skip_homeserver_check != Some(true) && known.username_available is None {
        Next::Ask(AddUserAsk::IsUsernameAvailable(&input.username))
    } else if input.skip_homeserver_check != Some(true) && known.username_available == Some(false) {
        Next::Done(Ok(AddUserPayload::Reserved))
    } else if known.added is None {
        Next::Ask(AddUserAsk::AddUser(&input.username))
    } else if !known.provisioning_scheduled {
        Next::Ask(AddUserAsk::ScheduleProvisioning(&known.added->0))
    } else if !known.saved {
        Next::Ask(AddUserAsk::Save)
    } else {
        Next::Done(Ok(AddUserPayload::Added(known.added->0)))
    }
}

impl UserMutations {
    /// Add a user. This is only available to administrators.
    pub fn add_user<'a>(
        &self,
        admin: bool,
        input: &'a AddUserInput,
        known: &'a AddUserAnswers,
    ) -> (r: Next<AddUserAsk<'a>, AddUserPayload>)
        ensures
            r == add_user_next(admin, input, known),
    {
        if !admin {
            return Next::Done(Err(MutationError::Unauthorized));
        }
        if !known.repository_open {
            return Next::Ask(AddUserAsk::OpenRepository);
        }
        match &known.existing {
            None => {
                return Next::Ask(AddUserAsk::FindByUsername(&input.username));
            },
            Some(Some(user)) => {
                return Next::Done(Ok(AddUserPayload::Exists(user.clone())));
            },
            Some(None) => {},
        }
        // Do some basic check on the username
        if !username_valid(&input.username) {
            return Next::Done(Ok(AddUserPayload::Invalid));
        }
        match (input.skip_homeserver_check, known.username_available) {
            (Some(true), _) => {},
            (_, None) => {
                return Next::Ask(AddUserAsk::IsUsernameAvailable(&input.username));
            },
            (_, Some(false)) => {
                return Next::Done(Ok(AddUserPayload::Reserved));
            },
            (_, Some(true)) => {},
        }
        match &known.added {
            None => Next::Ask(AddUserAsk::AddUser(&input.username)),
            Some(user) => {
                if !known.provisioning_scheduled {
                    return Next::Ask(AddUserAsk::ScheduleProvisioning(user));
                }
                if !known.saved {
                    return Next::Ask(AddUserAsk::Save);
                }
                Next::Done(Ok(AddUserPayload::Added(user.clone())))
            },
        }
    }
}

/// A user is added only by an administrator, under a valid name that no user has, and
/// that the homeserver has free unless that check is to be skipped.
pub proof fn law_users_are_added_under_free_and_valid_names<'a>(
    admin: bool,
    input: &'a AddUserInput,
    known: &'a AddUserAnswers,
)
    ensures
        add_user_next(admin, input, known) matches Next::Ask(AddUserAsk::AddUser(username)) ==> {
            &&& admin
            &&& *username == input.username
            &&& crate::users::username::is_valid_username(username@)
            &&& known.existing == Some(None::<User>)
            &&& known.username_available == Some(true) || input.skip_homeserver_check == Some(true)
        },
        add_user_next(admin, input, known) matches Next::Done(Ok(AddUserPayload::Added(user))) ==> {
            &&& admin
            &&& known.added == Some(user)
            &&& known.provisioning_scheduled
            &&& known.saved
        },
{
}

/// Where the check with the homeserver is to be skipped, it is not asked, and what it
/// would have said makes no difference.
pub proof fn law_skipped_checks_are_not_made<'a>(
    admin: bool,
    input: &'a AddUserInput,
    known: &'a AddUserAnswers,
    other: &'a AddUserAnswers,
)
    requires
        input.skip_homeserver_check == Some(true),
        *other == (AddUserAnswers { username_available: other.username_available, ..*known }),
    ensures
        !(add_user_next(admin, input, known) matches Next::Ask(AddUserAsk::IsUsernameAvailable(_))),
        add_user_next(admin, input, known) == add_user_next(admin, input, other),
{
}

/// The input for the `lockUser` mutation.
#[derive(Debug)]
pub struct LockUserInput {
    /// The ID of the user to lock.
    pub user_id: String,
    /// Permanently lock the user.
    pub deactivate: Option<bool>,
}

/// The status of the `lockUser` mutation.
#[derive(Debug, Clone, Copy, PartialEq, Eq, Structural)]
pub enum LockUserStatus {
    /// The user was locked.
    Locked,
    /// The user was not found.
    NotFound,
}

/// The payload for the `lockUser` mutation.
#[derive(Debug, PartialEq, Eq)]
pub enum LockUserPayload {
    /// The user was locked.
    Locked(User),
    /// The user was not found.
    NotFound,
}

impl LockUserPayload {
    /// Status of the operation
    pub fn status(&self) -> (r: LockUserStatus)
        ensures
            self is Locked <==> r == LockUserStatus::Locked,
    {
        match self {
            LockUserPayload::Locked(_) => LockUserStatus::Locked,
            LockUserPayload::NotFound => LockUserStatus::NotFound,
        }
    }

    /// The user that was locked.
    pub fn user(&self) -> (r: Option<User>)
        ensures
            r == match *self {
                LockUserPayload::Locked(user) => Some(user),
                LockUserPayload::NotFound => None,
            },
    {
        match self {
            LockUserPayload::Locked(user) => Some(user.clone()),
            LockUserPayload::NotFound => None,
        }
    }
}

/// What locking a user asks for, or has done.
#[derive(Debug, PartialEq, Eq)]
pub enum LockUserAsk<'a> {
    /// Open the repository; nothing is kept until it is saved.
    OpenRepository,
    /// The identifier in this node ID of a user.
    ExtractUserId(&'a String),
    LookupUser(u128),
    Lock(&'a User),
    /// Have the lock taken over by the homeserver.
    ScheduleProvisioning(&'a User),
    ScheduleDeactivation { user: &'a User, hs_erase: bool },
    Save,
}

/// The answers that locking a user has had so far.
#[derive(Debug)]
pub struct LockUserAnswers {
    pub repository_open: bool,
    pub user_id: Option<u128>,
    pub user: Option<Option<User>>,
    /// The user, once locked.
    pub locked: Option<User>,
    pub provisioning_scheduled: bool,
    pub deactivation_scheduled: bool,
    pub saved: bool,
}

impl LockUserAnswers {
    /// No answer yet.
    pub fn new() -> (r: Self)
        ensures
            !r.repository_open,
            r.user_id is None,
            r.user is None,
            r.locked is None,
            !r.provisioning_scheduled,
            !r.deactivation_scheduled,
            !r.saved,
    {
        LockUserAnswers {
            repository_open: false,
            user_id: None,
            user: None,
            locked: None,
            provisioning_scheduled: false,
            deactivation_scheduled: false,
            saved: false,
        }
    }
}

/// The next thing that locking a user asks for, or its outcome.
pub open spec fn lock_user_next<'a>(
    admin: bool,
    input: &'a LockUserInput,
    known: &'a LockUserAnswers,
) -> Next<LockUserAsk<'a>, LockUserPayload> {
    if !admin {
        Next::Done(Err(MutationError::Unauthorized))
    } else if !known.repository_open {
        Next::Ask(LockUserAsk::OpenRepository)
    } else if known.user_id is None {
        Next::Ask(LockUserAsk::ExtractUserId(&input.user_id))
    } else if known.user is None {
        Next::Ask(LockUserAsk::LookupUser(known.user_id->0))
    } else if known.user->0 is None {
        Next::Done(Ok(LockUserPayload::NotFound))
    } else if known.locked is None {
        Next::Ask(LockUserAsk::Lock(&known.user->0->0))
    } else if !known.provisioning_scheduled {
        Next::Ask(LockUserAsk::ScheduleProvisioning(&known.locked->0))
    } else if input.deactivate == Some(true) && !known.deactivation_scheduled {
        Next::Ask(LockUserAsk::ScheduleDeactivation { user: &known.locked->0, hs_erase: true })
    } else if !known.saved {
        Next::Ask(LockUserAsk::Save)
    } else {
        Next::Done(Ok(LockUserPayload::Locked(known.locked->0)))
    }
}

impl UserMutations {
    /// Lock a user. This is only available to administrators.
    pub fn lock_user<'a>(
        &self,
        admin: bool,
        input: &'a LockUserInput,
        known: &'a LockUserAnswers,
    ) -> (r: Next<LockUserAsk<'a>, LockUserPayload>)
        ensures
            r == lock_user_next(admin, input, known),
    {
        if !admin {
            return Next::Done(Err(MutationError::Unauthorized));
        }
        if !known.repository_open {
            return Next::Ask(LockUserAsk::OpenRepository);
        }
        let user_id = match known.user_id {
            None => {
                return Next::Ask(LockUserAsk::ExtractUserId(&input.user_id));
            },
            Some(id) => id,
        };
        let user = match &known.user {
            None => {
                return Next::Ask(LockUserAsk::LookupUser(user_id));
            },
            Some(None) => {
                return Next::Done(Ok(LockUserPayload::NotFound));
            },
            Some(Some(user)) => user,
        };
        let deactivate: bool = match input.deactivate {
            Some(deactivate) => deactivate,
            None => false,
        };
        match &known.locked {
            None => Next::Ask(LockUserAsk::Lock(user)),
            Some(locked) => {
                if !known.provisioning_scheduled {
                    return Next::Ask(LockUserAsk::ScheduleProvisioning(locked));
                }
                if deactivate && !known.deactivation_scheduled {
                    return Next::Ask(
                        LockUserAsk::ScheduleDeactivation { user: locked, hs_erase: deactivate },
                    );
                }
                if !known.saved {
                    return Next::Ask(LockUserAsk::Save);
                }
                Next::Done(Ok(LockUserPayload::Locked(locked.clone())))
            },
        }
    }
}

/// A user is deactivated only where an administrator asked for that, and only after
/// the lock.
pub proof fn law_locking_deactivates_only_on_request<'a>(
    admin: bool,
    input: &'a LockUserInput,
    known: &'a LockUserAnswers,
)
    ensures
        lock_user_next(admin, input, known) matches Next::Ask(
            LockUserAsk::ScheduleDeactivation { user, hs_erase },
        ) ==> admin && input.deactivate == Some(true) && known.locked == Some(*user),
        lock_user_next(admin, input, known) matches Next::Done(
            Ok(LockUserPayload::Locked(user)),
        ) ==> {
            &&& admin
            &&& known.locked == Some(user)
            &&& known.provisioning_scheduled
            &&& input.deactivate == Some(true) ==> known.deactivation_scheduled
            &&& known.saved
        },
{
}

/// The input for the `unlockUser` mutation.
#[derive(Debug)]
pub struct UnlockUserInput {
    /// The ID of the user to unlock
    pub user_id: String,
}

/// The status of the `unlockUser` mutation.
#[derive(Debug, Clone, Copy, PartialEq, Eq, Structural)]
pub enum UnlockUserStatus {
    /// The user was unlocked.
    Unlocked,
    /// The user was not found.
    NotFound,
}

/// The payload for the `unlockUser` mutation.
#[derive(Debug, PartialEq, Eq)]
pub enum UnlockUserPayload {
    /// The user was unlocked.
    Unlocked(User),
    /// The user was not found.
    NotFound,
}

impl UnlockUserPayload {
    /// Status of the operation
    pub fn status(&self) -> (r: UnlockUserStatus)
        ensures
            self is Unlocked <==> r == UnlockUserStatus::Unlocked,
    {
        match self {
            UnlockUserPayload::Unlocked(_) => UnlockUserStatus::Unlocked,
            UnlockUserPayload::NotFound => UnlockUserStatus::NotFound,
        }
    }

    /// The user that was unlocked.
    pub fn user(&self) -> (r: Option<User>)
        ensures
            r == match *self {
                UnlockUserPayload::Unlocked(user) => Some(user),
                UnlockUserPayload::NotFound => None,
            },
    {
        match self {
            UnlockUserPayload::Unlocked(user) => Some(user.clone()),
            UnlockUserPayload::NotFound => None,
        }
    }
}

/// What unlocking a user asks for, or has done.
#[derive(Debug, PartialEq, Eq)]
pub enum UnlockUserAsk<'a> {
    /// Open the repository; nothing is kept until it is saved.
    OpenRepository,
    /// The identifier in this node ID of a user.
    ExtractUserId(&'a String),
    LookupUser(u128),
    /// Have the homeserver reactivate the user with this name, and wait for it.
    ReactivateOnHomeserver(&'a String),
    Reactivate(&'a User),
    Unlock(&'a User),
    /// Have the lock taken off by the homeserver.
    ScheduleProvisioning(&'a User),
    Save,
}

/// The answers that unlocking a user has had so far.
#[derive(Debug)]
pub struct UnlockUserAnswers {
    pub repository_open: bool,
    pub user_id: Option<u128>,
    pub user: Option<Option<User>>,
    pub reactivated_on_homeserver: bool,
    /// The user, once reactivated.
    pub reactivated: Option<User>,
    /// The user, once unlocked.
    pub unlocked: Option<User>,
    pub provisioning_scheduled: bool,
    pub saved: bool,
}

impl UnlockUserAnswers {
    /// No answer yet.
    pub fn new() -> (r: Self)
        ensures
            !r.repository_open,
            r.user_id is None,
            r.user is None,
            !r.reactivated_on_homeserver,
            r.reactivated is None,
            r.unlocked is None,
            !r.provisioning_scheduled,
            !r.saved,
    {
        UnlockUserAnswers {
            repository_open: false,
            user_id: None,
            user: None,
            reactivated_on_homeserver: false,
            reactivated: None,
            unlocked: None,
            provisioning_scheduled: false,
            saved: false,
        }
    }
}

/// The next thing that unlocking a user asks for, or its outcome.
pub open spec fn unlock_user_next<'a>(
    admin: bool,
    input: &'a UnlockUserInput,
    known: &'a UnlockUserAnswers,
) -> Next<UnlockUserAsk<'a>, UnlockUserPayload> {
    if !admin {
        Next::Done(Err(MutationError::Unauthorized))
    } else if !known.repository_open {
        Next::Ask(UnlockUserAsk::OpenRepository)
    } else if known.user_id is None {
        Next::Ask(UnlockUserAsk::ExtractUserId(&input.user_id))
    } else if known.user is None {
        Next::Ask(UnlockUserAsk::LookupUser(known.user_id->0))
    } else if known.user->0 is None {
        Next::Done(Ok(UnlockUserPayload::NotFound))
    } else if !known.reactivated_on_homeserver {
        Next::Ask(UnlockUserAsk::ReactivateOnHomeserver(&known.user->0->0.username))
    } else if known.reactivated is None {
        Next::Ask(UnlockUserAsk::Reactivate(&known.user->0->0))
    } else if known.unlocked is None {
        Next::Ask(UnlockUserAsk::Unlock(&known.reactivated->0))
    } else if !known.provisioning_scheduled {
        Next::Ask(UnlockUserAsk::ScheduleProvisioning(&known.unlocked->0))
    } else if !known.saved {
        Next::Ask(UnlockUserAsk::Save)
    } else {
        Next::Done(Ok(UnlockUserPayload::Unlocked(known.unlocked->0)))
    }
}

impl UserMutations {
    /// Unlock and reactivate a user. This is only available to administrators.
    pub fn unlock_user<'a>(
        &self,
        admin: bool,
        input: &'a UnlockUserInput,
        known: &'a UnlockUserAnswers,
    ) -> (r: Next<UnlockUserAsk<'a>, UnlockUserPayload>)
        ensures
            r == unlock_user_next(admin, input, known),
    {
        if !admin {
            return Next::Done(Err(MutationError::Unauthorized));
        }
        if !known.repository_open {
            return Next::Ask(UnlockUserAsk::OpenRepository);
        }
        let user_id = match known.user_id {
            None => {
                return Next::Ask(UnlockUserAsk::ExtractUserId(&input.user_id));
            },
            Some(id) => id,
        };
        let user = match &known.user {
            None => {
                return Next::Ask(UnlockUserAsk::LookupUser(user_id));
            },
            Some(None) => {
                return Next::Done(Ok(UnlockUserPayload::NotFound));
            },
            Some(Some(user)) => user,
        };
        // The homeserver comes first: only then is the user reactivated and unlocked
        // in the repository.
        if !known.reactivated_on_homeserver {
            return Next::Ask(UnlockUserAsk::ReactivateOnHomeserver(&user.username));
        }
        let reactivated = match &known.reactivated {
            None => {
                return Next::Ask(UnlockUserAsk::Reactivate(user));
            },
            Some(reactivated) => reactivated,
        };
        match &known.unlocked {
            None => Next::Ask(UnlockUserAsk::Unlock(reactivated)),
            Some(unlocked) => {
                if !known.provisioning_scheduled {
                    return Next::Ask(UnlockUserAsk::ScheduleProvisioning(unlocked));
                }
                if !known.saved {
                    return Next::Ask(UnlockUserAsk::Save);
                }
                Next::Done(Ok(UnlockUserPayload::Unlocked(unlocked.clone())))
            },
        }
    }
}

/// A user is unlocked only by an administrator and after the homeserver reactivated
/// it.
pub proof fn law_unlocking_waits_for_the_homeserver<'a>(
    admin: bool,
    input: &'a UnlockUserInput,
    known: &'a UnlockUserAnswers,
)
    ensures
        unlock_user_next(admin, input, known) matches Next::Ask(UnlockUserAsk::Unlock(_)) ==> admin
            && known.reactivated_on_homeserver && known.reactivated is Some,
        unlock_user_next(admin, input, known) matches Next::Done(
            Ok(UnlockUserPayload::Unlocked(user)),
        ) ==> {
            &&& admin
            &&& known.reactivated_on_homeserver
            &&& known.unlocked == Some(user)
            &&& known.provisioning_scheduled
            &&& known.saved
        },
{
}

/// The input for the `setCanRequestAdmin` mutation.
#[derive(Debug)]
pub struct SetCanRequestAdminInput {
    /// The ID of the user to update.
    pub user_id: String,
    /// Whether the user can request admin.
    pub can_request_admin: bool,
}

/// The payload for the `setCanRequestAdmin` mutation.
#[derive(Debug, PartialEq, Eq)]
pub enum SetCanRequestAdminPayload {
    /// The user was updated.
    Updated(User),
    /// The user was not found.
    NotFound,
}

impl SetCanRequestAdminPayload {
    /// The user that was updated.
    pub fn user(&self) -> (r: Option<User>)
        ensures
            r == match *self {
                SetCanRequestAdminPayload::Updated(user) => Some(user),
                SetCanRequestAdminPayload::NotFound => None,
            },
    {
        match self {
            SetCanRequestAdminPayload::Updated(user) => Some(user.clone()),
            SetCanRequestAdminPayload::NotFound => None,
        }
    }
}

/// What setting whether a user can request admin asks for, or has done.
#[derive(Debug, PartialEq, Eq)]
pub enum SetCanRequestAdminAsk<'a> {
    /// Open the repository; nothing is kept until it is saved.
    OpenRepository,
    /// The identifier in this node ID of a user.
    ExtractUserId(&'a String),
    LookupUser(u128),
    Update { user: &'a User, can_request_admin: bool },
    Save,
}

/// The answers that setting whether a user can request admin has had so far.
#[derive(Debug)]
pub struct SetCanRequestAdminAnswers {
    pub repository_open: bool,
    pub user_id: Option<u128>,
    pub user: Option<Option<User>>,
    /// The user, once updated.
    pub updated: Option<User>,
    pub saved: bool,
}

impl SetCanRequestAdminAnswers {
    /// No answer yet.
    pub fn new() -> (r: Self)
        ensures
            !r.repository_open,
            r.user_id is None,
            r.user is None,
            r.updated is None,
            !r.saved,
    {
        SetCanRequestAdminAnswers {
            repository_open: false,
            user_id: None,
            user: None,
            updated: None,
            saved: false,
        }
    }
}

/// The next thing that setting whether a user can request admin asks for, or its
/// outcome.
pub open spec fn set_can_request_admin_next<'a>(
    admin: bool,
    input: &'a SetCanRequestAdminInput,
    known: &'a SetCanRequestAdminAnswers,
) -> Next<SetCanRequestAdminAsk<'a>, SetCanRequestAdminPayload> {
    if !admin {
        Next::Done(Err(MutationError::Unauthorized))
    } else if !known.repository_open {
        Next::Ask(SetCanRequestAdminAsk::OpenRepository)
    } else if known.user_id is None {
        Next::Ask(SetCanRequestAdminAsk::ExtractUserId(&input.user_id))
    } else if known.user is None {
        Next::Ask(SetCanRequestAdminAsk::LookupUser(known.user_id->0))
    } else if known.user->0 is None {
        Next::Done(Ok(SetCanRequestAdminPayload::NotFound))
    } else if known.updated is None {
        Next::Ask(
            SetCanRequestAdminAsk::Update {
                user: &known.user->0->0,
                can_request_admin: input.can_request_admin,
            },
        )
    } else if !known.saved {
        Next::Ask(SetCanRequestAdminAsk::Save)
    } else {
        Next::Done(Ok(SetCanRequestAdminPayload::Updated(known.updated->0)))
    }
}

impl UserMutations {
    /// Set whether a user can request admin. This is only available to
    /// administrators.
    pub fn set_can_request_admin<'a>(
        &self,
        admin: bool,
        input: &'a SetCanRequestAdminInput,
        known: &'a SetCanRequestAdminAnswers,
    ) -> (r: Next<SetCanRequestAdminAsk<'a>, SetCanRequestAdminPayload>)
        ensures
            r == set_can_request_admin_next(admin, input, known),
    {
        if !admin {
            return Next::Done(Err(MutationError::Unauthorized));
        }
        if !known.repository_open {
            return Next::Ask(SetCanRequestAdminAsk::OpenRepository);
        }
        let user_id = match known.user_id {
            None => {
                return Next::Ask(SetCanRequestAdminAsk::ExtractUserId(&input.user_id));
            },
            Some(id) => id,
        };
        let user = match &known.user {
            None => {
                return Next::Ask(SetCanRequestAdminAsk::LookupUser(user_id));
            },
            Some(None) => {
                return Next::Done(Ok(SetCanRequestAdminPayload::NotFound));
            },
            Some(Some(user)) => user,
        };
        match &known.updated {
            None => Next::Ask(
                SetCanRequestAdminAsk::Update { user, can_request_admin: input.can_request_admin },
            ),
            Some(updated) => {
                if !known.saved {
                    return Next::Ask(SetCanRequestAdminAsk::Save);
                }
                Next::Done(Ok(SetCanRequestAdminPayload::Updated(updated.clone())))
            },
        }
    }
}

/// The input for the `allowUserCrossSigningReset` mutation.
#[derive(Debug)]
pub struct AllowUserCrossSigningResetInput {
    /// The ID of the user to update.
    pub user_id: String,
}

/// The payload for the `allowUserCrossSigningReset` mutation.
#[derive(Debug, PartialEq, Eq)]
pub enum AllowUserCrossSigningResetPayload {
    /// The user was updated.
    Allowed(User),
    /// The user was not found.
    NotFound,
}

impl AllowUserCrossSigningResetPayload {
    /// The user that was updated.
    pub fn user(&self) -> (r: Option<User>)
        ensures
            r == match *self {
                AllowUserCrossSigningResetPayload::Allowed(user) => Some(user),
                AllowUserCrossSigningResetPayload::NotFound => None,
            },
    {
        match self {
            AllowUserCrossSigningResetPayload::Allowed(user) => Some(user.clone()),
            AllowUserCrossSigningResetPayload::NotFound => None,
        }
    }
}

/// What allowing a reset of cross-signing keys asks for, or has done.
#[derive(Debug, PartialEq, Eq)]
pub enum AllowCrossSigningResetAsk<'a> {
    /// The identifier in this node ID of a user.
    ExtractUserId(&'a String),
    /// Whether the requester is this user or an administrator.
    IsOwnerOrAdmin(u128),
    OpenRepository,
    LookupUser(u128),
    /// Close the repository; nothing was changed.
    CancelRepository,
    /// Have the homeserver allow the reset for the user with this name.
    AllowOnHomeserver(&'a String),
}

/// The answers that allowing a reset of cross-signing keys has had so far.
#[derive(Debug)]
pub struct AllowCrossSigningResetAnswers {
    pub user_id: Option<u128>,
    pub owner_or_admin: Option<bool>,
    pub repository_open: bool,
    pub user: Option<Option<User>>,
    pub repository_cancelled: bool,
    /// Whether the homeserver allowed the reset.
    pub allowed: Option<bool>,
}

impl AllowCrossSigningResetAnswers {
    /// No answer yet.
    pub fn new() -> (r: Self)
        ensures
            r.user_id is None,
            r.owner_or_admin is None,
            !r.repository_open,
            r.user is None,
            !r.repository_cancelled,
            r.allowed is None,
    {
        AllowCrossSigningResetAnswers {
            user_id: None,
            owner_or_admin: None,
            repository_open: false,
            user: None,
            repository_cancelled: false,
            allowed: None,
        }
    }
}

/// The next thing that allowing a reset of cross-signing keys asks for, or its
/// outcome.
pub open spec fn allow_cross_signing_reset_next<'a>(
    input: &'a AllowUserCrossSigningResetInput,
    known: &'a AllowCrossSigningResetAnswers,
) -> Next<AllowCrossSigningResetAsk<'a>, AllowUserCrossSigningResetPayload> {
    if known.user_id is None {
        Next::Ask(AllowCrossSigningResetAsk::ExtractUserId(&input.user_id))
    } else if known.owner_or_admin is None {
        Next::Ask(AllowCrossSigningResetAsk::IsOwnerOrAdmin(known.user_id->0))
    } else if known.owner_or_admin == Some(false) {
        Next::Done(Err(MutationError::Unauthorized))
    } else if !known.repository_open {
        Next::Ask(AllowCrossSigningResetAsk::OpenRepository)
    } else if known.user is None {
        Next::Ask(AllowCrossSigningResetAsk::LookupUser(known.user_id->0))
    } else if !known.repository_cancelled {
        Next::Ask(AllowCrossSigningResetAsk::CancelRepository)
    } else if known.user->0 is None {
        Next::Done(Ok(AllowUserCrossSigningResetPayload::NotFound))
    } else if known.allowed is None {
        Next::Ask(AllowCrossSigningResetAsk::AllowOnHomeserver(&known.user->0->0.username))
    } else if known.allowed == Some(false) {
        Next::Done(Err(MutationError::CrossSigningResetFailed))
    } else {
        Next::Done(Ok(AllowUserCrossSigningResetPayload::Allowed(known.user->0->0)))
    }
}

impl UserMutations {
    /// Temporarily allow user to reset their cross-signing keys.
    pub fn allow_user_cross_signing_reset<'a>(
        &self,
        input: &'a AllowUserCrossSigningResetInput,
        known: &'a AllowCrossSigningResetAnswers,
    ) -> (r: Next<AllowCrossSigningResetAsk<'a>, AllowUserCrossSigningResetPayload>)
        ensures
            r == allow_cross_signing_reset_next(input, known),
    {
        let user_id = match known.user_id {
            None => {
                return Next::Ask(AllowCrossSigningResetAsk::ExtractUserId(&input.user_id));
            },
            Some(id) => id,
        };
        match known.owner_or_admin {
            None => {
                return Next::Ask(AllowCrossSigningResetAsk::IsOwnerOrAdmin(user_id));
            },
            Some(false) => {
                return Next::Done(Err(MutationError::Unauthorized));
            },
            Some(true) => {},
        }
        if !known.repository_open {
            return Next::Ask(AllowCrossSigningResetAsk::OpenRepository);
        }
        let found = match &known.user {
            None => {
                return Next::Ask(AllowCrossSigningResetAsk::LookupUser(user_id));
            },
            Some(found) => found,
        };
        if !known.repository_cancelled {
            return Next::Ask(AllowCrossSigningResetAsk::CancelRepository);
        }
        match found {
            None => Next::Done(Ok(AllowUserCrossSigningResetPayload::NotFound)),
            Some(user) => match known.allowed {
                None => Next::Ask(AllowCrossSigningResetAsk::AllowOnHomeserver(&user.username)),
                Some(false) => Next::Done(Err(MutationError::CrossSigningResetFailed)),
                Some(true) => Next::Done(
                    Ok(AllowUserCrossSigningResetPayload::Allowed(user.clone())),
                ),
            },
        }
    }
}

/// The homeserver is told to allow a reset only for the requester's own keys, or by
/// an administrator.
pub proof fn law_cross_signing_reset_needs_owner_or_admin<'a>(
    input: &'a AllowUserCrossSigningResetInput,
    known: &'a AllowCrossSigningResetAnswers,
)
    ensures
        allow_cross_signing_reset_next(input, known) matches Next::Ask(
            AllowCrossSigningResetAsk::AllowOnHomeserver(username),
        ) ==> known.owner_or_admin == Some(true) && (known.user matches Some(Some(user))
            && user.username == *username),
{
}

/// Whoever is no administrator gets nothing done by the mutations that are for
/// administrators alone.
pub proof fn law_admin_mutations_are_refused_to_others<'a>(
    add: &'a AddUserInput,
    add_known: &'a AddUserAnswers,
    lock: &'a LockUserInput,
    lock_known: &'a LockUserAnswers,
    unlock: &'a UnlockUserInput,
    unlock_known: &'a UnlockUserAnswers,
    can: &'a SetCanRequestAdminInput,
    can_known: &'a SetCanRequestAdminAnswers,
)
    ensures
        add_user_next(false, add, add_known) == Next::<AddUserAsk<'a>, AddUserPayload>::Done(
            Err(MutationError::Unauthorized),
        ),
        lock_user_next(false, lock, lock_known) == Next::<LockUserAsk<'a>, LockUserPayload>::Done(
            Err(MutationError::Unauthorized),
        ),
        unlock_user_next(false, unlock, unlock_known) == Next::<
            UnlockUserAsk<'a>,
            UnlockUserPayload,
        >::Done(Err(MutationError::Unauthorized)),
        set_can_request_admin_next(false, can, can_known) == Next::<
            SetCanRequestAdminAsk<'a>,
            SetCanRequestAdminPayload,
        >::Done(Err(MutationError::Unauthorized)),
{
}

impl<'a> AddUserAsk<'a> {
    /// Whether the answers hold the answer to this.
    pub open spec fn answered_in(self, known: AddUserAnswers) -> bool {
        match self {
            AddUserAsk::OpenRepository => known.repository_open,
            AddUserAsk::FindByUsername(_) => known.existing is Some,
            AddUserAsk::IsUsernameAvailable(_) => known.username_available is Some,
            AddUserAsk::AddUser(_) => known.added is Some,
            AddUserAsk::ScheduleProvisioning(_) => known.provisioning_scheduled,
            AddUserAsk::Save => known.saved,
        }
    }
}

/// Only what has no answer yet is asked for, so nothing is done twice.
pub proof fn law_adding_asks_for_the_missing<'a>(
    admin: bool,
    input: &'a AddUserInput,
    known: &'a AddUserAnswers,
)
    ensures
        add_user_next(admin, input, known) matches Next::Ask(ask) ==> !ask.answered_in(*known),
{
}

impl<'a> LockUserAsk<'a> {
    /// Whether the answers hold the answer to this.
    pub open spec fn answered_in(self, known: LockUserAnswers) -> bool {
        match self {
            LockUserAsk::OpenRepository => known.repository_open,
            LockUserAsk::ExtractUserId(_) => known.user_id is Some,
            LockUserAsk::LookupUser(_) => known.user is Some,
            LockUserAsk::Lock(_) => known.locked is Some,
            LockUserAsk::ScheduleProvisioning(_) => known.provisioning_scheduled,
            LockUserAsk::ScheduleDeactivation { .. } => known.deactivation_scheduled,
            LockUserAsk::Save => known.saved,
        }
    }
}

/// Only what has no answer yet is asked for, so nothing is done twice.
pub proof fn law_locking_asks_for_the_missing<'a>(
    admin: bool,
    input: &'a LockUserInput,
    known: &'a LockUserAnswers,
)
    ensures
        lock_user_next(admin, input, known) matches Next::Ask(ask) ==> !ask.answered_in(*known),
{
}

impl<'a> UnlockUserAsk<'a> {
    /// Whether the answers hold the answer to this.
    pub open spec fn answered_in(self, known: UnlockUserAnswers) -> bool {
        match self {
            UnlockUserAsk::OpenRepository => known.repository_open,
            UnlockUserAsk::ExtractUserId(_) => known.user_id is Some,
            UnlockUserAsk::LookupUser(_) => known.user is Some,
            UnlockUserAsk::ReactivateOnHomeserver(_) => known.reactivated_on_homeserver,
            UnlockUserAsk::Reactivate(_) => known.reactivated is Some,
            UnlockUserAsk::Unlock(_) => known.unlocked is Some,
            UnlockUserAsk::ScheduleProvisioning(_) => known.provisioning_scheduled,
            UnlockUserAsk::Save => known.saved,
        }
    }
}

/// Only what has no answer yet is asked for, so nothing is done twice.
pub proof fn law_unlocking_asks_for_the_missing<'a>(
    admin: bool,
    input: &'a UnlockUserInput,
    known: &'a UnlockUserAnswers,
)
    ensures
        unlock_user_next(admin, input, known) matches Next::Ask(ask) ==> !ask.answered_in(*known),
{
}

impl<'a> SetCanRequestAdminAsk<'a> {
    /// Whether the answers hold the answer to this.
    pub open spec fn answered_in(self, known: SetCanRequestAdminAnswers) -> bool {
        match self {
            SetCanRequestAdminAsk::OpenRepository => known.repository_open,
            SetCanRequestAdminAsk::ExtractUserId(_) => known.user_id is Some,
            SetCanRequestAdminAsk::LookupUser(_) => known.user is Some,
            SetCanRequestAdminAsk::Update { .. } => known.updated is Some,
            SetCanRequestAdminAsk::Save => known.saved,
        }
    }
}

/// Only what has no answer yet is asked for, so nothing is done twice.
pub proof fn law_updating_asks_for_the_missing<'a>(
    admin: bool,
    input: &'a SetCanRequestAdminInput,
    known: &'a SetCanRequestAdminAnswers,
)
    ensures
        set_can_request_admin_next(admin, input, known) matches Next::Ask(ask)
            ==> !ask.answered_in(*known),
{
}

impl<'a> AllowCrossSigningResetAsk<'a> {
    /// Whether the answers hold the answer to this.
    pub open spec fn answered_in(self, known: AllowCrossSigningResetAnswers) -> bool {
        match self {
            AllowCrossSigningResetAsk::ExtractUserId(_) => known.user_id is Some,
            AllowCrossSigningResetAsk::IsOwnerOrAdmin(_) => known.owner_or_admin is Some,
            AllowCrossSigningResetAsk::OpenRepository => known.repository_open,
            AllowCrossSigningResetAsk::LookupUser(_) => known.user is Some,
            AllowCrossSigningResetAsk::CancelRepository => known.repository_cancelled,
            AllowCrossSigningResetAsk::AllowOnHomeserver(_) => known.allowed is Some,
        }
    }
}

/// Only what has no answer yet is asked for, so nothing is done twice.
pub proof fn law_allowing_asks_for_the_missing<'a>(
    input: &'a AllowUserCrossSigningResetInput,
    known: &'a AllowCrossSigningResetAnswers,
)
    ensures
        allow_cross_signing_reset_next(input, known) matches Next::Ask(ask)
            ==> !ask.answered_in(*known),
{
}

/// Once an added user is saved, that is the outcome: nothing is saved for a refusal.
pub proof fn law_saving_ends_adding<'a>(
    admin: bool,
    input: &'a AddUserInput,
    known: &'a AddUserAnswers,
    later: &'a AddUserAnswers,
)
    requires
        add_user_next(admin, input, known) == Next::<AddUserAsk<'a>, AddUserPayload>::Ask(
            AddUserAsk::Save,
        ),
        *later == (AddUserAnswers { saved: true, ..*known }),
    ensures
        add_user_next(admin, input, later) matches Next::Done(Ok(AddUserPayload::Added(_))),
{
}

/// Once a lock is saved, that is the outcome.
pub proof fn law_saving_ends_locking<'a>(
    admin: bool,
    input: &'a LockUserInput,
    known: &'a LockUserAnswers,
    later: &'a LockUserAnswers,
)
    requires
        lock_user_next(admin, input, known) == Next::<LockUserAsk<'a>, LockUserPayload>::Ask(
            LockUserAsk::Save,
        ),
        *later == (LockUserAnswers { saved: true, ..*known }),
    ensures
        lock_user_next(admin, input, later) matches Next::Done(Ok(LockUserPayload::Locked(_))),
{
}

/// Once an unlocked user is saved, that is the outcome.
pub proof fn law_saving_ends_unlocking<'a>(
    admin: bool,
    input: &'a UnlockUserInput,
    known: &'a UnlockUserAnswers,
    later: &'a UnlockUserAnswers,
)
    requires
        unlock_user_next(admin, input, known) == Next::<UnlockUserAsk<'a>, UnlockUserPayload>::Ask(
            UnlockUserAsk::Save,
        ),
        *later == (UnlockUserAnswers { saved: true, ..*known }),
    ensures
        unlock_user_next(admin, input, later)
            matches Next::Done(Ok(UnlockUserPayload::Unlocked(_))),
{
}

/// Once whether a user can request admin is saved, that is the outcome.
pub proof fn law_saving_ends_updating<'a>(
    admin: bool,
    input: &'a SetCanRequestAdminInput,
    known: &'a SetCanRequestAdminAnswers,
    later: &'a SetCanRequestAdminAnswers,
)
    requires
        set_can_request_admin_next(admin, input, known)
            == Next::<SetCanRequestAdminAsk<'a>, SetCanRequestAdminPayload>::Ask(
            SetCanRequestAdminAsk::Save,
        ),
        *later == (SetCanRequestAdminAnswers { saved: true, ..*known }),
    ensures
        set_can_request_admin_next(admin, input, later)
            matches Next::Done(Ok(SetCanRequestAdminPayload::Updated(_))),
{
}

/// Adding a user ends without one exactly where the name is taken, where it is no name, or
/// where the homeserver has it reserved and was to be asked; and it is refused to who is
/// no administrator alone.
pub proof fn law_adding_ends_for_a_reason<'a>(
    admin: bool,
    input: &'a AddUserInput,
    known: &'a AddUserAnswers,
)
    ensures
        ({
            let next = add_user_next(admin, input, known);
            let looked_up = admin && known.repository_open && known.existing is Some;
            let valid = crate::users::username::is_valid_username(input.username@);
            let skipped = input.skip_homeserver_check matches Some(true);
            &&& (next matches Next::Done(Err(_))) <==> !admin
            &&& !admin ==> next.refuses(MutationError::Unauthorized)
            &&& (next matches Next::Done(Ok(AddUserPayload::Exists(_)))) <==> looked_up
                && known.existing->0 is Some
            &&& next matches Next::Done(Ok(AddUserPayload::Exists(user))) ==> known.existing
                == Some(Some(user))
            &&& next.gives(AddUserPayload::Invalid) <==> looked_up && known.existing->0 is None
                && !valid
            &&& next.gives(AddUserPayload::Reserved) <==> looked_up && known.existing->0 is None
                && valid && !skipped && (known.username_available matches Some(false))
        }),
{
}

/// An administrator adds a user under the name that was asked for: once it is looked up
/// and free, and the homeserver, unless that is skipped, has it free too, the user is
/// added, provisioned, saved, and told.
pub proof fn law_adding_goes_step_by_step<'a>(input: &'a AddUserInput, known: &'a AddUserAnswers)
    ensures
        ({
            let next = add_user_next(true, input, known);
            let free = known.repository_open && (known.existing matches Some(None))
                && crate::users::username::is_valid_username(input.username@);
            let skipped = input.skip_homeserver_check matches Some(true);
            let cleared = free && (skipped || (known.username_available matches Some(true)));
            &&& !known.repository_open ==> next.asks(AddUserAsk::OpenRepository)
            &&& known.repository_open && known.existing is None ==> next.asks(
                AddUserAsk::FindByUsername(&input.username),
            )
            &&& free && !skipped && known.username_available is None ==> next.asks(
                AddUserAsk::IsUsernameAvailable(&input.username),
            )
            &&& cleared && known.added is None ==> next.asks(AddUserAsk::AddUser(&input.username))
            &&& cleared && known.added is Some && !known.provisioning_scheduled ==> next.asks(
                AddUserAsk::ScheduleProvisioning(&known.added->0),
            )
            &&& cleared && known.added is Some && known.provisioning_scheduled ==> if known.saved {
                next.gives(AddUserPayload::Added(known.added->0))
            } else {
                next.asks(AddUserAsk::Save)
            }
        }),
{
}

/// An administrator locks the user that was asked for, if there is one: it is looked up by
/// the identifier in the request, locked and provisioned. Where it is to be locked for
/// good, it is deactivated and erased on the homeserver too, and not otherwise. Then it is
/// saved and told.
pub proof fn law_locking_goes_step_by_step<'a>(input: &'a LockUserInput, known: &'a LockUserAnswers)
    ensures
        ({
            let next = lock_user_next(true, input, known);
            let named = known.repository_open && known.user_id is Some;
            let found = named && (known.user matches Some(Some(_)));
            let locked = found && known.locked is Some;
            let for_good = input.deactivate matches Some(true);
            let passed_on = locked && known.provisioning_scheduled && (!for_good
                || known.deactivation_scheduled);
            &&& !(next matches Next::Done(Err(_)))
            &&& !known.repository_open ==> next.asks(LockUserAsk::OpenRepository)
            &&& known.repository_open && known.user_id is None ==> next.asks(
                LockUserAsk::ExtractUserId(&input.user_id),
            )
            &&& named && known.user is None ==> next.asks(
                LockUserAsk::LookupUser(known.user_id->0),
            )
            &&& next.gives(LockUserPayload::NotFound) <==> named && (
            known.user matches Some(None))
            &&& found && known.locked is None ==> next.asks(LockUserAsk::Lock(&known.user->0->0))
            &&& locked && !known.provisioning_scheduled ==> next.asks(
                LockUserAsk::ScheduleProvisioning(&known.locked->0),
            )
            &&& locked && known.provisioning_scheduled && for_good && !known.deactivation_scheduled
                ==> next.asks(
                LockUserAsk::ScheduleDeactivation { user: &known.locked->0, hs_erase: true },
            )
            &&& passed_on ==> if known.saved {
                next.gives(LockUserPayload::Locked(known.locked->0))
            } else {
                next.asks(LockUserAsk::Save)
            }
        }),
{
}

/// An administrator unlocks the user that was asked for, if there is one: the homeserver
/// reactivates it under its name, then it is reactivated and unlocked here, provisioned,
/// saved and told.
pub proof fn law_unlocking_goes_step_by_step<'a>(
    input: &'a UnlockUserInput,
    known: &'a UnlockUserAnswers,
)
    ensures
        ({
            let next = unlock_user_next(true, input, known);
            let named = known.repository_open && known.user_id is Some;
            let found = named && (known.user matches Some(Some(_)));
            let active = found && known.reactivated_on_homeserver && known.reactivated is Some;
            let unlocked = active && known.unlocked is Some;
            &&& !(next matches Next::Done(Err(_)))
            &&& !known.repository_open ==> next.asks(UnlockUserAsk::OpenRepository)
            &&& known.repository_open && known.user_id is None ==> next.asks(
                UnlockUserAsk::ExtractUserId(&input.user_id),
            )
            &&& named && known.user is None ==> next.asks(
                UnlockUserAsk::LookupUser(known.user_id->0),
            )
            &&& next.gives(UnlockUserPayload::NotFound) <==> named && (
            known.user matches Some(None))
            &&& found && !known.reactivated_on_homeserver ==> next.asks(
                UnlockUserAsk::ReactivateOnHomeserver(&known.user->0->0.username),
            )
            &&& found && known.reactivated_on_homeserver && known.reactivated is None
                ==> next.asks(UnlockUserAsk::Reactivate(&known.user->0->0))
            &&& active && known.unlocked is None ==> next.asks(
                UnlockUserAsk::Unlock(&known.reactivated->0),
            )
            &&& unlocked && !known.provisioning_scheduled ==> next.asks(
                UnlockUserAsk::ScheduleProvisioning(&known.unlocked->0),
            )
            &&& unlocked && known.provisioning_scheduled ==> if known.saved {
                next.gives(UnlockUserPayload::Unlocked(known.unlocked->0))
            } else {
                next.asks(UnlockUserAsk::Save)
            }
        }),
{
}

/// An administrator sets whether the user that was asked for, if there is one, can request
/// admin, to what was asked for; it is saved and told.
pub proof fn law_updating_goes_step_by_step<'a>(
    input: &'a SetCanRequestAdminInput,
    known: &'a SetCanRequestAdminAnswers,
)
    ensures
        ({
            let next = set_can_request_admin_next(true, input, known);
            let named = known.repository_open && known.user_id is Some;
            let found = named && (known.user matches Some(Some(_)));
            &&& !(next matches Next::Done(Err(_)))
            &&& !known.repository_open ==> next.asks(SetCanRequestAdminAsk::OpenRepository)
            &&& known.repository_open && known.user_id is None ==> next.asks(
                SetCanRequestAdminAsk::ExtractUserId(&input.user_id),
            )
            &&& named && known.user is None ==> next.asks(
                SetCanRequestAdminAsk::LookupUser(known.user_id->0),
            )
            &&& next.gives(SetCanRequestAdminPayload::NotFound) <==> named && (
            known.user matches Some(None))
            &&& found && known.updated is None ==> next.asks(
                SetCanRequestAdminAsk::Update {
                    user: &known.user->0->0,
                    can_request_admin: input.can_request_admin,
                },
            )
            &&& found && known.updated is Some ==> if known.saved {
                next.gives(SetCanRequestAdminPayload::Updated(known.updated->0))
            } else {
                next.asks(SetCanRequestAdminAsk::Save)
            }
        }),
{
}

/// The user that was asked for, or an administrator, has the homeserver allow a reset of
/// that user's cross-signing keys. The repository is only read and closed again, whether
/// or not it holds the user. Nobody else gets that far.
pub proof fn law_allowing_goes_step_by_step<'a>(
    input: &'a AllowUserCrossSigningResetInput,
    known: &'a AllowCrossSigningResetAnswers,
)
    ensures
        ({
            let next = allow_cross_signing_reset_next(input, known);
            let may = known.user_id is Some && (known.owner_or_admin matches Some(true));
            let looked_up = may && known.repository_open && known.user is Some;
            let found = looked_up && known.repository_cancelled && known.user->0 is Some;
            &&& known.user_id is None ==> next.asks(
                AllowCrossSigningResetAsk::ExtractUserId(&input.user_id),
            )
            &&& known.user_id is Some && known.owner_or_admin is None ==> next.asks(
                AllowCrossSigningResetAsk::IsOwnerOrAdmin(known.user_id->0),
            )
            &&& next.refuses(MutationError::Unauthorized) <==> known.user_id is Some && (
            known.owner_or_admin matches Some(false))
            &&& may && !known.repository_open ==> next.asks(
                AllowCrossSigningResetAsk::OpenRepository,
            )
            &&& may && known.repository_open && known.user is None ==> next.asks(
                AllowCrossSigningResetAsk::LookupUser(known.user_id->0),
            )
            &&& looked_up && !known.repository_cancelled ==> next.asks(
                AllowCrossSigningResetAsk::CancelRepository,
            )
            &&& next.gives(AllowUserCrossSigningResetPayload::NotFound) <==> looked_up
                && known.repository_cancelled && known.user->0 is None
            &&& found && known.allowed is None ==> next.asks(
                AllowCrossSigningResetAsk::AllowOnHomeserver(&known.user->0->0.username),
            )
            &&& next.refuses(MutationError::CrossSigningResetFailed) <==> found && (
            known.allowed matches Some(false))
            &&& found && (known.allowed matches Some(true)) ==> next.gives(
                AllowUserCrossSigningResetPayload::Allowed(known.user->0->0),
            )
        }),
{
}

} // verus!
