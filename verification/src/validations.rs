//! The sessions in which phone numbers are proved, as they are kept, and the numbers
//! that accounts have.

use crate::instant::Instant;
use vstd::prelude::*;

verus! {

/// A validation session as it is kept.
#[derive(Debug, PartialEq, Eq)]
pub struct ValidationSession {
    pub secret_hash: Vec<u8>,
    pub token_hash: Vec<u8>,
    /// The number that is proved, in E.164.
    pub phone_number: String,
    pub next_link: Option<String>,
    pub expires_at: Instant,
    /// When the code came back.
    pub validated_at: Option<Instant>,
}

/// The contents of a [`ValidationSession`]. Times are nanoseconds since the epoch.
pub struct SessionView {
    pub secret_hash: Seq<u8>,
    pub token_hash: Seq<u8>,
    pub phone_number: Seq<char>,
    pub next_link: Option<Seq<char>>,
    pub expires_at: int,
    pub validated_at: Option<int>,
}

impl View for ValidationSession {
    type V = SessionView;

    open spec fn view(&self) -> SessionView {
        SessionView {
            secret_hash: self.secret_hash@,
            token_hash: self.token_hash@,
            phone_number: self.phone_number@,
            next_link: crate::text::contents(self.next_link),
            expires_at: self.expires_at.since_epoch(),
            validated_at: match self.validated_at {
                Some(at) => Some(at.since_epoch()),
                None => None,
            },
        }
    }
}

impl SessionView {
    /// Whether the session takes a code: it has these hashes, was not validated before
    /// and has not expired.
    pub open spec fn accepts(self, secret_hash: Seq<u8>, token_hash: Seq<u8>, now: int) -> bool {
        &&& self.secret_hash == secret_hash
        &&& self.token_hash == token_hash
        &&& self.validated_at is None
        &&& self.expires_at > now
    }

    /// The session once its code came back.
    pub open spec fn validated(self, now: int) -> SessionView {
        SessionView { validated_at: Some(now), ..self }
    }

    /// Whether the session proves its number to who has this hash: it was validated and
    /// has not expired.
    pub open spec fn proves(self, secret_hash: Seq<u8>, now: int) -> bool {
        &&& self.secret_hash == secret_hash
        &&& self.validated_at is Some
        &&& self.expires_at > now
    }
}

/// Whether two hashes are the same.
fn same_bytes(a: &Vec<u8>, b: &Vec<u8>) -> (r: bool)
    ensures
        r == (a@ == b@),
{
    if a.len() != b.len() {
        return false;
    }
    let mut i: usize = 0;
    while i < a.len()
        invariant
            0 <= i <= a@.len(),
            a@.len() == b@.len(),
            a@.take(i as int) == b@.take(i as int),
        decreases a@.len() - i,
    {
        if a[i] != b[i] {
            assert(a@[i as int] != b@[i as int]);
            return false;
        }
        assert(a@.take(i + 1) =~= a@.take(i as int).push(a@[i as int]));
        assert(b@.take(i + 1) =~= b@.take(i as int).push(b@[i as int]));
        i = i + 1;
    }
    assert(a@.take(a@.len() as int) =~= a@);
    assert(b@.take(b@.len() as int) =~= b@);
    true
}

impl ValidationSession {
    /// Whether the session takes a code.
    pub fn accepts(&self, secret_hash: &Vec<u8>, token_hash: &Vec<u8>, now: &Instant) -> (r: bool)
        ensures
            r == self@.accepts(secret_hash@, token_hash@, now.since_epoch()),
    {
        same_bytes(&self.secret_hash, secret_hash) && same_bytes(&self.token_hash, token_hash)
            && self.validated_at.is_none() && self.expires_at.is_after(now)
    }
}

/// What came of looking for a session.
#[derive(Debug, PartialEq, Eq)]
pub enum SessionLookup {
    /// It could not be looked for.
    Failed,
    /// There is no such session.
    Missing,
    /// The session, and the time at which it was read.
    Found { session: ValidationSession, now: Instant },
}

/// What is kept: the sessions by their identifiers, and of each number that an account
/// has, which one. No number belongs to two accounts.
pub struct Kept {
    pub sessions: Map<Seq<char>, SessionView>,
    pub owners: Map<Seq<char>, Seq<char>>,
}

impl Kept {
    /// Whether there is a session with this identifier that takes a code.
    pub open spec fn accepts(
        self,
        sid: Seq<char>,
        secret_hash: Seq<u8>,
        token_hash: Seq<u8>,
        now: int,
    ) -> bool {
        &&& self.sessions.contains_key(sid)
        &&& self.sessions[sid].accepts(secret_hash, token_hash, now)
    }

    /// What is kept after a code came back: the session that takes it is validated, and
    /// nothing else changes.
    pub open spec fn after_submission(
        self,
        sid: Seq<char>,
        secret_hash: Seq<u8>,
        token_hash: Seq<u8>,
        now: int,
    ) -> Kept {
        if self.accepts(sid, secret_hash, token_hash, now) {
            Kept {
                sessions: self.sessions.insert(sid, self.sessions[sid].validated(now)),
                owners: self.owners,
            }
        } else {
            self
        }
    }

    /// Whether there is a session with this identifier that proves its number.
    pub open spec fn proves(self, sid: Seq<char>, secret_hash: Seq<u8>, now: int) -> bool {
        &&& self.sessions.contains_key(sid)
        &&& self.sessions[sid].proves(secret_hash, now)
    }

    /// The number that a claim gets: the one that the session proves, unless an account
    /// has it.
    pub open spec fn claimable(self, sid: Seq<char>, secret_hash: Seq<u8>, now: int) -> Option<
        Seq<char>,
    > {
        if self.proves(sid, secret_hash, now) && !self.owners.contains_key(
            self.sessions[sid].phone_number,
        ) {
            Some(self.sessions[sid].phone_number)
        } else {
            None
        }
    }

    /// What is kept after a claim: where it gets a number, the number belongs to the user
    /// and the session that proved it is used up. Otherwise nothing changes.
    pub open spec fn after_claim(
        self,
        user_id: Seq<char>,
        sid: Seq<char>,
        secret_hash: Seq<u8>,
        now: int,
    ) -> Kept {
        match self.claimable(sid, secret_hash, now) {
            Some(number) => Kept {
                sessions: self.sessions.remove(sid),
                owners: self.owners.insert(number, user_id),
            },
            None => self,
        }
    }

    /// Whether this is what came of looking for a session.
    pub open spec fn finds(self, sid: Seq<char>, now: int, lookup: SessionLookup) -> bool {
        match lookup {
            SessionLookup::Failed => false,
            SessionLookup::Missing => !self.sessions.contains_key(sid),
            SessionLookup::Found { session, now: at } => {
                &&& self.sessions.contains_key(sid)
                &&& session@ == self.sessions[sid]
                &&& at.since_epoch() == now
            },
        }
    }
}

/// A session takes a code exactly with the hashes that it holds, before it was validated and
/// before it expires.
pub proof fn law_sessions_take_their_code(
    session: SessionView,
    secret_hash: Seq<u8>,
    token_hash: Seq<u8>,
    now: int,
)
    ensures
        session.accepts(secret_hash, token_hash, now) <==> secret_hash == session.secret_hash
            && token_hash == session.token_hash && session.validated_at is None && now
            < session.expires_at,
        session.proves(secret_hash, now) <==> secret_hash == session.secret_hash
            && session.validated_at is Some && now < session.expires_at,
{
}

/// Once the code came back that is all that is new of the session: it takes no code any more,
/// and it proves its number, to who has the secret, until it expires.
pub proof fn law_validated_sessions_prove_their_number(
    session: SessionView,
    secret_hash: Seq<u8>,
    token_hash: Seq<u8>,
    now: int,
    later: int,
)
    ensures
        ({
            let after = session.validated(now);
            &&& after.secret_hash == session.secret_hash
            &&& after.token_hash == session.token_hash
            &&& after.phone_number == session.phone_number
            &&& after.next_link == session.next_link
            &&& after.expires_at == session.expires_at
            &&& after.validated_at == Some(now)
            &&& !after.accepts(secret_hash, token_hash, later)
            &&& after.proves(secret_hash, later) <==> secret_hash == session.secret_hash && later
                < session.expires_at
        }),
{
}

/// A code that comes back changes the session that takes it, and no other session and no
/// number; where no session takes it nothing changes.
pub proof fn law_submissions_change_one_session(
    kept: Kept,
    sid: Seq<char>,
    secret_hash: Seq<u8>,
    token_hash: Seq<u8>,
    now: int,
    other: Seq<char>,
)
    ensures
        ({
            let after = kept.after_submission(sid, secret_hash, token_hash, now);
            let taken = kept.sessions.contains_key(sid) && kept.sessions[sid].accepts(
                secret_hash,
                token_hash,
                now,
            );
            &&& kept.accepts(sid, secret_hash, token_hash, now) <==> taken
            &&& after.owners == kept.owners
            &&& after.sessions.contains_key(other) <==> kept.sessions.contains_key(other)
            &&& other != sid && kept.sessions.contains_key(other) ==> after.sessions[other]
                == kept.sessions[other]
            &&& !taken ==> after == kept
            &&& taken ==> after.sessions[sid] == kept.sessions[sid].validated(now)
        }),
{
}

/// A claim gets the number of a session that proves it, while no account has it. Then the
/// number belongs to the user, and of the sessions just this one is gone. No other session
/// and no other number changes, and a claim that gets nothing changes nothing.
pub proof fn law_claims_move_one_number(
    kept: Kept,
    user_id: Seq<char>,
    sid: Seq<char>,
    secret_hash: Seq<u8>,
    now: int,
    other: Seq<char>,
)
    ensures
        ({
            let after = kept.after_claim(user_id, sid, secret_hash, now);
            let number = kept.sessions[sid].phone_number;
            let given = kept.sessions.contains_key(sid) && kept.sessions[sid].proves(
                secret_hash,
                now,
            ) && !kept.owners.contains_key(number);
            &&& kept.proves(sid, secret_hash, now) <==> kept.sessions.contains_key(sid)
                && kept.sessions[sid].proves(secret_hash, now)
            &&& kept.claimable(sid, secret_hash, now) == if given {
                Some(number)
            } else {
                None
            }
            &&& !given ==> after == kept
            &&& given ==> {
                &&& !after.sessions.contains_key(sid)
                &&& other != sid ==> (after.sessions.contains_key(other)
                    <==> kept.sessions.contains_key(other))
                &&& other != sid && kept.sessions.contains_key(other) ==> after.sessions[other]
                    == kept.sessions[other]
                &&& after.owners.contains_key(number) && after.owners[number] == user_id
                &&& other != number ==> (after.owners.contains_key(other)
                    <==> kept.owners.contains_key(other))
                &&& other != number && kept.owners.contains_key(other) ==> after.owners[other]
                    == kept.owners[other]
            }
        }),
{
}

/// A session that is looked for is found as it is kept, at the time at which it is read, and
/// missing exactly where none is kept.
pub proof fn law_lookups_find_what_is_kept(
    kept: Kept,
    sid: Seq<char>,
    now: int,
    lookup: SessionLookup,
)
    requires
        kept.finds(sid, now, lookup),
    ensures
        lookup is Missing <==> !kept.sessions.contains_key(sid),
        lookup is Found <==> kept.sessions.contains_key(sid),
        lookup matches SessionLookup::Found { session, now: at } ==> {
            let found = kept.sessions[sid];
            &&& at.since_epoch() == now
            &&& session.secret_hash@ == found.secret_hash
            &&& session.token_hash@ == found.token_hash
            &&& session.phone_number@ == found.phone_number
            &&& session.expires_at.since_epoch() == found.expires_at
            &&& session.validated_at is Some <==> found.validated_at is Some
            &&& session.validated_at matches Some(t) ==> found.validated_at == Some(
                t.since_epoch(),
            )
            &&& session.next_link is Some <==> found.next_link is Some
            &&& session.next_link matches Some(link) ==> found.next_link == Some(link@)
        },
{
}

} // verus!
