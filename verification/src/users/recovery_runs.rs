//! What is kept of account recovery, and what runs of a recovery by ticket do to it.

use crate::instant::Instant;
use crate::users::model::HashedPassword;
use crate::users::model::RecoverySession;
use crate::users::model::RecoveryTicket;
use crate::users::model::User;
use crate::users::model::UserEmail;
use crate::users::passwords::PasswordRecoveryAnswers;
use crate::users::passwords::PasswordRecoveryAsk;
use crate::users::passwords::PasswordSettings;
use crate::users::passwords::SetPasswordByRecoveryInput;
use crate::users::passwords::SetPasswordPayload;
use crate::users::passwords::SetPasswordStatus;
use crate::users::MutationError;
use vstd::prelude::*;

verus! {

/// What is kept: the tickets by their texts, the sessions by their identifiers, and the
/// passwords that were added, each with the identifier of its user.
pub struct KeptRecovery {
    pub tickets: Map<Seq<char>, RecoveryTicket>,
    pub sessions: Map<u128, RecoverySession>,
    pub passwords: Seq<(u128, HashedPassword)>,
}

impl KeptRecovery {
    /// Every session is kept under its own identifier.
    pub open spec fn is_valid(self) -> bool {
        forall|id: u128| #[trigger]
            self.sessions.contains_key(id) ==> self.sessions[id].id == id
    }

    /// The ticket with this text.
    pub open spec fn ticket(self, text: Seq<char>) -> Option<RecoveryTicket> {
        if self.tickets.contains_key(text) {
            Some(self.tickets[text])
        } else {
            None
        }
    }

    /// The session with this identifier.
    pub open spec fn session(self, id: u128) -> Option<RecoverySession> {
        if self.sessions.contains_key(id) {
            Some(self.sessions[id])
        } else {
            None
        }
    }

    /// What is kept after what a recovery asked for was done at this time: a password is
    /// added, or a session is marked as used. The rest changes nothing.
    pub open spec fn after<'a>(self, ask: PasswordRecoveryAsk<'a>, now: Instant) -> KeptRecovery {
        match ask {
            PasswordRecoveryAsk::StorePassword { user, password } => KeptRecovery {
                passwords: self.passwords.push((user.id, *password)),
                ..self
            },
            PasswordRecoveryAsk::ConsumeTicket { session, .. } => KeptRecovery {
                sessions: self.sessions.insert(
                    session.id,
                    RecoverySession { consumed_at: Some(now), ..*session },
                ),
                ..self
            },
            _ => self,
        }
    }
}

/// What a run of a recovery is told besides what is kept: whether the new password meets
/// the requirements, whether the ticket is active, the address and the user that are
/// found, the hash of the password, and the time.
pub struct Told {
    pub complex_enough: bool,
    pub ticket_active: bool,
    pub email: Option<UserEmail>,
    pub user: Option<User>,
    pub hashed: HashedPassword,
    pub now: Instant,
}

/// The answers once this was done or answered, from what the run sees.
pub open spec fn answered<'a>(
    known: PasswordRecoveryAnswers,
    ask: PasswordRecoveryAsk<'a>,
    seen: KeptRecovery,
    told: Told,
) -> PasswordRecoveryAnswers {
    match ask {
        PasswordRecoveryAsk::IsComplexEnough(_) => PasswordRecoveryAnswers {
            complex_enough: Some(told.complex_enough),
            ..known
        },
        PasswordRecoveryAsk::OpenRepository => PasswordRecoveryAnswers {
            repository_open: true,
            ..known
        },
        PasswordRecoveryAsk::FindTicket(text) => PasswordRecoveryAnswers {
            ticket: Some(seen.ticket(text@)),
            ..known
        },
        PasswordRecoveryAsk::LookupSession(id) => PasswordRecoveryAnswers {
            session: Some(seen.session(id)),
            ..known
        },
        PasswordRecoveryAsk::IsTicketActive(_) => PasswordRecoveryAnswers {
            ticket_active: Some(told.ticket_active),
            ..known
        },
        PasswordRecoveryAsk::LookupEmail(_) => PasswordRecoveryAnswers {
            email: Some(told.email),
            ..known
        },
        PasswordRecoveryAsk::LookupUser(_) => PasswordRecoveryAnswers {
            user: Some(told.user),
            ..known
        },
        PasswordRecoveryAsk::HashPassword(_) => PasswordRecoveryAnswers {
            hashed: Some(told.hashed),
            ..known
        },
        PasswordRecoveryAsk::StorePassword { .. } => PasswordRecoveryAnswers {
            stored: true,
            ..known
        },
        PasswordRecoveryAsk::ConsumeTicket { .. } => PasswordRecoveryAnswers {
            consumed: true,
            ..known
        },
        PasswordRecoveryAsk::Save => PasswordRecoveryAnswers { saved: true, ..known },
    }
}

/// How a run of a recovery ended: its outcome, and what is kept then.
pub struct RunEnd {
    pub outcome: Result<SetPasswordPayload, MutationError>,
    pub kept: KeptRecovery,
}

/// One, where an answer is missing.
pub open spec fn one_if(missing: bool) -> nat {
    if missing {
        1
    } else {
        0
    }
}

/// How many answers a recovery still lacks.
pub open spec fn answers_left(known: PasswordRecoveryAnswers) -> nat {
    one_if(known.complex_enough is None) + one_if(!known.repository_open) + one_if(
        known.ticket is None,
    ) + one_if(known.session is None) + one_if(known.ticket_active is None) + one_if(
        known.email is None,
    ) + one_if(known.user is None) + one_if(known.hashed is None) + one_if(!known.stored)
        + one_if(!known.consumed) + one_if(!known.saved)
}

/// A run of a recovery from here on. It sees what is kept together with what it wrote;
/// what it wrote is kept once it saves, and is lost otherwise.
pub open spec fn run(
    unauthenticated: bool,
    settings: PasswordSettings,
    input: SetPasswordByRecoveryInput,
    told: Told,
    kept: KeptRecovery,
    seen: KeptRecovery,
    known: PasswordRecoveryAnswers,
) -> RunEnd
    decreases answers_left(known),
{
    match crate::users::passwords::password_recovery_next(
        unauthenticated,
        settings,
        &input,
        &known,
    ) {
        crate::users::Next::Done(outcome) => RunEnd { outcome, kept },
        crate::users::Next::Ask(ask) => {
            let after = seen.after(ask, told.now);
            run(
                unauthenticated,
                settings,
                input,
                told,
                if ask is Save {
                    after
                } else {
                    kept
                },
                after,
                answered(known, ask, seen, told),
            )
        },
    }
}

/// No answer yet.
pub open spec fn unanswered() -> PasswordRecoveryAnswers {
    PasswordRecoveryAnswers {
        complex_enough: None,
        repository_open: false,
        ticket: None,
        session: None,
        ticket_active: None,
        email: None,
        user: None,
        hashed: None,
        stored: false,
        consumed: false,
        saved: false,
    }
}

/// A call of `set_password_by_recovery`: a run from the start.
pub open spec fn call(
    unauthenticated: bool,
    settings: PasswordSettings,
    input: SetPasswordByRecoveryInput,
    told: Told,
    kept: KeptRecovery,
) -> RunEnd {
    run(unauthenticated, settings, input, told, kept, kept, unanswered())
}

/// The outcome with this status.
pub open spec fn status(status: SetPasswordStatus) -> Result<SetPasswordPayload, MutationError> {
    Ok(SetPasswordPayload { status })
}

/// A call either sets one password and marks the session of its ticket as used, with the
/// status `Allowed`, or changes nothing.
pub proof fn law_calls_set_one_password_or_change_nothing(
    unauthenticated: bool,
    settings: PasswordSettings,
    input: SetPasswordByRecoveryInput,
    told: Told,
    kept: KeptRecovery,
)
    requires
        kept.is_valid(),
    ensures
        ({
            let end = call(unauthenticated, settings, input, told, kept);
            &&& end.outcome == status(SetPasswordStatus::Allowed) ==> {
                let id = kept.tickets[input.ticket@].user_recovery_session_id;
                &&& kept.tickets.contains_key(input.ticket@)
                &&& kept.sessions.contains_key(id)
                &&& kept.sessions[id].consumed_at is None
                &&& told.user is Some
                &&& end.kept == KeptRecovery {
                    tickets: kept.tickets,
                    sessions: kept.sessions.insert(
                        id,
                        RecoverySession { consumed_at: Some(told.now), ..kept.sessions[id] },
                    ),
                    passwords: kept.passwords.push((told.user->0.id, told.hashed)),
                }
            }
            &&& end.outcome != status(SetPasswordStatus::Allowed) ==> end.kept == kept
        }),
{
    reveal_with_fuel(run, 12);
}

/// A ticket that is active and whose session was not used sets the password of a user
/// that is not locked, where recovery is on and the new password is strong enough.
pub proof fn law_live_tickets_set_a_password(
    settings: PasswordSettings,
    input: SetPasswordByRecoveryInput,
    told: Told,
    kept: KeptRecovery,
)
    requires
        settings.passwords_enabled,
        settings.account_recovery_allowed,
        kept.ticket(input.ticket@) matches Some(ticket) && (kept.session(
            ticket.user_recovery_session_id,
        ) matches Some(session) && session.consumed_at is None),
        told.complex_enough,
        told.ticket_active,
        told.email is Some,
        told.user matches Some(user) && user.valid,
    ensures
        call(true, settings, input, told, kept).outcome == status(SetPasswordStatus::Allowed),
{
    reveal_with_fuel(run, 12);
}

/// A ticket sets at most one password: once a call with it gave `Allowed`, any other call
/// with it gives `RecoveryTicketAlreadyUsed` and adds no password, also if the ticket
/// expired meanwhile, where recovery is on and the new password is strong enough.
pub proof fn law_a_ticket_sets_one_password(
    first_unauthenticated: bool,
    first_settings: PasswordSettings,
    first: SetPasswordByRecoveryInput,
    first_told: Told,
    kept: KeptRecovery,
    settings: PasswordSettings,
    second: SetPasswordByRecoveryInput,
    told: Told,
)
    requires
        kept.is_valid(),
        call(first_unauthenticated, first_settings, first, first_told, kept).outcome == status(
            SetPasswordStatus::Allowed,
        ),
        second.ticket@ == first.ticket@,
        settings.passwords_enabled,
        settings.account_recovery_allowed,
        told.complex_enough,
    ensures
        ({
            let after = call(first_unauthenticated, first_settings, first, first_told, kept).kept;
            let end = call(true, settings, second, told, after);
            &&& end.outcome == status(SetPasswordStatus::RecoveryTicketAlreadyUsed)
            &&& end.kept == after
        }),
{
    law_calls_set_one_password_or_change_nothing(
        first_unauthenticated,
        first_settings,
        first,
        first_told,
        kept,
    );
    reveal_with_fuel(run, 6);
}

/// A ticket that set a password sets no other one, whatever a later call is told.
pub proof fn law_used_tickets_change_nothing(
    first_unauthenticated: bool,
    first_settings: PasswordSettings,
    first: SetPasswordByRecoveryInput,
    first_told: Told,
    kept: KeptRecovery,
    unauthenticated: bool,
    settings: PasswordSettings,
    second: SetPasswordByRecoveryInput,
    told: Told,
)
    requires
        kept.is_valid(),
        call(first_unauthenticated, first_settings, first, first_told, kept).outcome == status(
            SetPasswordStatus::Allowed,
        ),
        second.ticket@ == first.ticket@,
    ensures
        ({
            let after = call(first_unauthenticated, first_settings, first, first_told, kept).kept;
            call(unauthenticated, settings, second, told, after).kept == after
        }),
{
    law_calls_set_one_password_or_change_nothing(
        first_unauthenticated,
        first_settings,
        first,
        first_told,
        kept,
    );
    reveal_with_fuel(run, 6);
}

} // verus!
