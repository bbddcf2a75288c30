//! Account recovery for the app.
//!
//! Someone asks for a code against an e-mail address, has it checked, and then
//! chooses a new password. The code is stored as a recovery ticket, together with
//! the session it belongs to.

use crate::email::parses_as_email_address;
use crate::ids::encode_ulid;
use crate::ids::parse_ulid;
use crate::reply::error;
use crate::reply::ErrorResponse;
use crate::reply::Flow;
use crate::text::byte_len;
use crate::text::chars_of;
use crate::users::model::HashedPassword;
use crate::users::model::RecoverySession;
use crate::users::model::RecoveryTicket;
use crate::users::model::User;
use crate::users::model::UserEmail;
use vstd::prelude::*;

verus! {

/// The user agent recorded on sessions started from the app, which has no
/// browser to report one.
pub const APP_USER_AGENT: &'static str = "TweenApp";

/// The most bytes that an e-mail address may take.
pub const EMAIL_MAX_BYTES: usize = 254;

/// The number of digits of a recovery code.
pub const CODE_LEN: usize = 6;

/// A request for a recovery code.
#[derive(Debug)]
pub struct RequestPayload {
    pub email: String,
}

/// The answer to a request for a recovery code.
#[derive(Debug, PartialEq, Eq)]
pub struct RequestResponse {
    pub session_id: String,
}

/// A recovery code to check.
#[derive(Debug)]
pub struct CodePayload {
    pub session_id: String,
    pub code: String,
}

/// A new password, with the recovery code that allows it.
#[derive(Debug)]
pub struct ResetPayload {
    pub session_id: String,
    pub code: String,
    pub new_password: String,
}

/// The answer to a recovery step that succeeded.
#[derive(Debug, Clone, Copy, PartialEq, Eq, Structural)]
pub struct SuccessResponse {
    pub success: bool,
}

/// The recovery is switched off.
pub open spec fn recovery_disabled() -> ErrorResponse {
    ErrorResponse { status: 503, errcode: "M_UNKNOWN", error: "Account recovery is disabled" }
}

/// Too many attempts were made.
pub open spec fn limit_exceeded() -> ErrorResponse {
    ErrorResponse {
        status: 429,
        errcode: "M_LIMIT_EXCEEDED",
        error: "Too many attempts, please wait a while",
    }
}

/// What a request for a recovery code asks for, or has done.
#[derive(Debug, PartialEq, Eq)]
pub enum RequestAsk<'a, C> {
    /// Whether the requester may try to recover this address now.
    CheckLimit(C),
    AddSession { email: C, user_agent: &'static str },
    /// Have a code for the session sent to its address.
    ScheduleCodeEmail(&'a RecoverySession),
    Save,
}

/// The answers that a request for a recovery code has had so far.
#[derive(Debug)]
pub struct RequestAnswers {
    pub within_limit: Option<bool>,
    pub session: Option<RecoverySession>,
    pub email_scheduled: bool,
    pub saved: bool,
}

impl RequestAnswers {
    /// No answer yet.
    pub fn new() -> (r: Self)
        ensures
            r.within_limit is None,
            r.session is None,
            !r.email_scheduled,
            !r.saved,
    {
        RequestAnswers { within_limit: None, session: None, email_scheduled: false, saved: false }
    }
}

/// The address that recovery goes by: without white space around it, in lower case.
pub open spec fn recovery_address(email: Seq<char>) -> Seq<char> {
    crate::text::lowercase(crate::text::trimmed(email))
}

/// Whether recovery takes the text for an e-mail address, given whether it reads as
/// one.
pub open spec fn takes_address(email: Seq<char>, reads_as_address: bool) -> bool {
    0 < email.len() && crate::text::utf8_len(email) <= EMAIL_MAX_BYTES && reads_as_address
}

/// The next thing that a request for a recovery code asks for, or the answer, once
/// the address is known.
pub open spec fn address_request_next<'a>(
    email: Seq<char>,
    reads_as_address: bool,
    known: &'a RequestAnswers,
) -> Flow<RequestAsk<'a, Seq<char>>, Seq<char>> {
    if !takes_address(email, reads_as_address) {
        Flow::Refuse(
            ErrorResponse {
                status: 400,
                errcode: "M_INVALID_PARAM",
                error: "That does not look like an e-mail address",
            },
        )
    } else if known.within_limit is None {
        Flow::Ask(RequestAsk::CheckLimit(email))
    } else if known.within_limit == Some(false) {
        Flow::Refuse(limit_exceeded())
    } else if known.session is None {
        Flow::Ask(RequestAsk::AddSession { email, user_agent: APP_USER_AGENT })
    } else if !known.email_scheduled {
        Flow::Ask(RequestAsk::ScheduleCodeEmail(&known.session->0))
    } else if !known.saved {
        Flow::Ask(RequestAsk::Save)
    } else {
        Flow::Reply(crate::ids::ulid_text(known.session->0.id))
    }
}

/// The next thing that a request for a recovery code asks for, or the answer.
pub open spec fn request_next<'a>(
    recovery_allowed: bool,
    email: Seq<char>,
    known: &'a RequestAnswers,
) -> Flow<RequestAsk<'a, Seq<char>>, Seq<char>> {
    if !recovery_allowed {
        Flow::Refuse(recovery_disabled())
    } else {
        let address = recovery_address(email);
        address_request_next(address, crate::email::is_email_address(address), known)
    }
}

/// A step of a request, with its texts taken as sequences of characters.
pub open spec fn request_view<'a>(
    flow: Flow<RequestAsk<'a, String>, RequestResponse>,
) -> Flow<RequestAsk<'a, Seq<char>>, Seq<char>> {
    match flow {
        Flow::Ask(RequestAsk::CheckLimit(email)) => Flow::Ask(RequestAsk::CheckLimit(email@)),
        Flow::Ask(RequestAsk::AddSession { email, user_agent }) => Flow::Ask(
            RequestAsk::AddSession { email: email@, user_agent },
        ),
        Flow::Ask(RequestAsk::ScheduleCodeEmail(session)) => Flow::Ask(
            RequestAsk::ScheduleCodeEmail(session),
        ),
        Flow::Ask(RequestAsk::Save) => Flow::Ask(RequestAsk::Save),
        Flow::Reply(response) => Flow::Reply(response.session_id@),
        Flow::Refuse(e) => Flow::Refuse(e),
        Flow::Fail(reason) => Flow::Fail(reason),
    }
}

/// Ask for a recovery code to be sent to an address, given whether the text reads as
/// one.
pub fn request_for_address<'a>(
    email: String,
    reads_as_address: bool,
    known: &'a RequestAnswers,
) -> (r: Flow<RequestAsk<'a, String>, RequestResponse>)
    ensures
        request_view(r) == address_request_next(email@, reads_as_address, known),
{
    if email.as_str().is_empty() || byte_len(email.as_str()) > EMAIL_MAX_BYTES
        || !reads_as_address {
        return Flow::Refuse(
            error(400, "M_INVALID_PARAM", "That does not look like an e-mail address"),
        );
    }
    match known.within_limit {
        None => {
            return Flow::Ask(RequestAsk::CheckLimit(email));
        },
        Some(false) => {
            return Flow::Refuse(
                error(429, "M_LIMIT_EXCEEDED", "Too many attempts, please wait a while"),
            );
        },
        Some(true) => {},
    }
    match &known.session {
        None => Flow::Ask(RequestAsk::AddSession { email, user_agent: APP_USER_AGENT }),
        Some(session) => {
            if !known.email_scheduled {
                return Flow::Ask(RequestAsk::ScheduleCodeEmail(session));
            }
            if !known.saved {
                return Flow::Ask(RequestAsk::Save);
            }
            Flow::Reply(RequestResponse { session_id: encode_ulid(session.id) })
        },
    }
}

/// Ask for a recovery code to be sent to an e-mail address.
///
/// The answer is the same whether or not the address has an account, so this
/// cannot be used to find out who has one.
pub fn request<'a>(
    recovery_allowed: bool,
    payload: &RequestPayload,
    known: &'a RequestAnswers,
) -> (r: Flow<RequestAsk<'a, String>, RequestResponse>)
    ensures
        request_view(r) == request_next(recovery_allowed, payload.email@, known),
{
    if !recovery_allowed {
        return Flow::Refuse(error(503, "M_UNKNOWN", "Account recovery is disabled"));
    }
    let email = payload.email.as_str().trim().to_lowercase();
    let reads_as_address = parses_as_email_address(email.as_str());
    request_for_address(email, reads_as_address, known)
}

/// The session that a text names, white space around it aside.
pub open spec fn session_id_of(raw: Seq<char>) -> Option<u128> {
    crate::ids::ulid_of(crate::text::trimmed(raw))
}

/// The session that a text names: a ULID, white space around it aside.
pub fn parse_session_id(raw: &str) -> (r: Option<u128>)
    ensures
        r == session_id_of(raw@),
{
    parse_ulid(raw.trim())
}

/// What came of checking a recovery code.
#[derive(Debug, Clone, Copy, PartialEq, Eq, Structural)]
pub enum CodeCheck {
    Valid,
    Expired,
    Wrong,
}

/// What the check of a code asks for.
#[derive(Debug, PartialEq, Eq)]
pub enum CodeAsk<'a, C> {
    /// The ticket that stands for this code of this session.
    FindTicket { session_id: u128, code: C },
    /// Whether the ticket has not expired.
    IsTicketActive(&'a RecoveryTicket),
}

/// What the check of a code needs next, or what came of it.
#[derive(Debug, PartialEq, Eq)]
pub enum CodeNext<'a, C> {
    Ask(CodeAsk<'a, C>),
    Checked(CodeCheck),
}

/// The answers that the check of a code has had so far.
#[derive(Debug)]
pub struct CodeAnswers {
    pub ticket: Option<Option<RecoveryTicket>>,
    pub ticket_active: Option<bool>,
}

/// Whether `s` is six digits.
pub open spec fn is_code(s: Seq<char>) -> bool {
    s.len() == CODE_LEN && forall|i: int| 0 <= i < s.len() ==> crate::text::is_digit(#[trigger] s[i])
}

/// The next thing that the check of a code asks for, or what came of it.
pub open spec fn check_code_next<'a>(
    session_id: u128,
    code: Seq<char>,
    known: &'a CodeAnswers,
) -> CodeNext<'a, Seq<char>> {
    let code = crate::text::trimmed(code);
    if !is_code(code) {
        CodeNext::Checked(CodeCheck::Wrong)
    } else if known.ticket is None {
        CodeNext::Ask(CodeAsk::FindTicket { session_id, code })
    } else if known.ticket->0 is None {
        CodeNext::Checked(CodeCheck::Wrong)
    } else if known.ticket->0->0.user_recovery_session_id != session_id {
        CodeNext::Checked(CodeCheck::Wrong)
    } else if known.ticket_active is None {
        CodeNext::Ask(CodeAsk::IsTicketActive(&known.ticket->0->0))
    } else if known.ticket_active == Some(false) {
        CodeNext::Checked(CodeCheck::Expired)
    } else {
        CodeNext::Checked(CodeCheck::Valid)
    }
}

/// What the check of a code asks for, with the code taken as a sequence of
/// characters.
pub open spec fn code_ask_view<'a>(ask: CodeAsk<'a, &'a str>) -> CodeAsk<'a, Seq<char>> {
    match ask {
        CodeAsk::FindTicket { session_id, code } => CodeAsk::FindTicket { session_id, code: code@ },
        CodeAsk::IsTicketActive(ticket) => CodeAsk::IsTicketActive(ticket),
    }
}

/// A step of the check of a code, with the code taken as a sequence of characters.
pub open spec fn code_view<'a>(next: CodeNext<'a, &'a str>) -> CodeNext<'a, Seq<char>> {
    match next {
        CodeNext::Ask(ask) => CodeNext::Ask(code_ask_view(ask)),
        CodeNext::Checked(check) => CodeNext::Checked(check),
    }
}

fn six_digits(s: &str) -> (r: bool)
    ensures
        r == is_code(s@),
{
    let chars = chars_of(s);
    if chars.len() != CODE_LEN {
        return false;
    }
    let mut i: usize = 0;
    while i < chars.len()
        invariant
            0 <= i <= chars@.len(),
            chars@ == s@,
            chars@.len() == CODE_LEN,
            forall|j: int| 0 <= j < i ==> crate::text::is_digit(#[trigger] chars@[j]),
        decreases chars@.len() - i,
    {
        if !('0' <= chars[i] && chars[i] <= '9') {
            return false;
        }
        i = i + 1;
    }
    true
}

/// Look the code up as a ticket belonging to `session_id`.
///
/// Scoping by session means a code cannot be replayed against another account
/// that happens to draw the same six digits.
pub fn check_code<'a>(session_id: u128, code: &'a str, known: &'a CodeAnswers) -> (r: CodeNext<
    'a,
    &'a str,
>)
    ensures
        code_view(r) == check_code_next(session_id, code@, known),
{
    let code = code.trim();
    if !six_digits(code) {
        return CodeNext::Checked(CodeCheck::Wrong);
    }
    let ticket = match &known.ticket {
        None => {
            return CodeNext::Ask(CodeAsk::FindTicket { session_id, code });
        },
        Some(None) => {
            return CodeNext::Checked(CodeCheck::Wrong);
        },
        Some(Some(ticket)) => ticket,
    };
    if ticket.user_recovery_session_id != session_id {
        return CodeNext::Checked(CodeCheck::Wrong);
    }
    match known.ticket_active {
        None => CodeNext::Ask(CodeAsk::IsTicketActive(ticket)),
        Some(false) => CodeNext::Checked(CodeCheck::Expired),
        Some(true) => CodeNext::Checked(CodeCheck::Valid),
    }
}

/// The answers that opening a recovery session has had so far.
#[derive(Debug)]
pub struct SessionAnswers {
    pub session: Option<Option<RecoverySession>>,
    pub within_limit: Option<bool>,
}

/// What opening a recovery session asks for.
#[derive(Debug, PartialEq, Eq)]
pub enum SessionAsk<'a> {
    LookupSession(u128),
    /// Whether the requester may try to recover this address now.
    CheckLimit(&'a String),
}

/// The next thing that opening a recovery session asks for, or the session.
pub open spec fn session_next<'a>(
    enabled: bool,
    session_id: Seq<char>,
    known: &'a SessionAnswers,
) -> Flow<SessionAsk<'a>, (u128, &'a RecoverySession)> {
    if !enabled {
        Flow::Refuse(recovery_disabled())
    } else {
        match session_id_of(session_id) {
            None => Flow::Refuse(
                ErrorResponse {
                    status: 400,
                    errcode: "M_INVALID_PARAM",
                    error: "Unknown recovery session",
                },
            ),
            Some(id) => match &known.session {
                None => Flow::Ask(SessionAsk::LookupSession(id)),
                Some(None) => Flow::Refuse(
                    ErrorResponse {
                        status: 404,
                        errcode: "M_NOT_FOUND",
                        error: "Unknown recovery session",
                    },
                ),
                Some(Some(session)) => match known.within_limit {
                    None => Flow::Ask(SessionAsk::CheckLimit(&session.email)),
                    Some(false) => Flow::Refuse(limit_exceeded()),
                    Some(true) => Flow::Reply((id, session)),
                },
            },
        }
    }
}

fn open_session<'a>(enabled: bool, session_id: &str, known: &'a SessionAnswers) -> (r: Flow<
    SessionAsk<'a>,
    (u128, &'a RecoverySession),
>)
    ensures
        r == session_next(enabled, session_id@, known),
{
    if !enabled {
        return Flow::Refuse(error(503, "M_UNKNOWN", "Account recovery is disabled"));
    }
    let id = match parse_session_id(session_id) {
        None => {
            return Flow::Refuse(error(400, "M_INVALID_PARAM", "Unknown recovery session"));
        },
        Some(id) => id,
    };
    let session = match &known.session {
        None => {
            return Flow::Ask(SessionAsk::LookupSession(id));
        },
        Some(None) => {
            return Flow::Refuse(error(404, "M_NOT_FOUND", "Unknown recovery session"));
        },
        Some(Some(session)) => session,
    };
    match known.within_limit {
        None => Flow::Ask(SessionAsk::CheckLimit(&session.email)),
        Some(false) => Flow::Refuse(
            error(429, "M_LIMIT_EXCEEDED", "Too many attempts, please wait a while"),
        ),
        Some(true) => Flow::Reply((id, session)),
    }
}

/// The error for a code that is not valid.
pub open spec fn code_error(check: CodeCheck) -> ErrorResponse {
    if check == CodeCheck::Expired {
        ErrorResponse {
            status: 410,
            errcode: "M_CODE_EXPIRED",
            error: "That code has expired, ask for a new one",
        }
    } else {
        ErrorResponse { status: 400, errcode: "M_INVALID_PARAM", error: "That code is not right" }
    }
}

fn refuse_code(check: CodeCheck) -> (r: ErrorResponse)
    ensures
        r == code_error(check),
{
    match check {
        CodeCheck::Expired => error(
            410,
            "M_CODE_EXPIRED",
            "That code has expired, ask for a new one",
        ),
        _ => error(400, "M_INVALID_PARAM", "That code is not right"),
    }
}

/// What the check of a recovery code asks for.
#[derive(Debug, PartialEq, Eq)]
pub enum VerifyAsk<'a, C> {
    Session(SessionAsk<'a>),
    Code(CodeAsk<'a, C>),
}

/// The next thing that the check of a recovery code asks for, or the answer.
pub open spec fn verify_next<'a>(
    recovery_allowed: bool,
    session_id: Seq<char>,
    code: Seq<char>,
    session: &'a SessionAnswers,
    checked: &'a CodeAnswers,
) -> Flow<VerifyAsk<'a, Seq<char>>, SuccessResponse> {
    match session_next(recovery_allowed, session_id, session) {
        Flow::Ask(ask) => Flow::Ask(VerifyAsk::Session(ask)),
        Flow::Refuse(e) => Flow::Refuse(e),
        Flow::Fail(reason) => Flow::Fail(reason),
        Flow::Reply((id, _)) => match check_code_next(id, code, checked) {
            CodeNext::Ask(ask) => Flow::Ask(VerifyAsk::Code(ask)),
            CodeNext::Checked(CodeCheck::Valid) => Flow::Reply(SuccessResponse { success: true }),
            CodeNext::Checked(check) => Flow::Refuse(code_error(check)),
        },
    }
}

/// A step of the check of a recovery code, with the code taken as a sequence of
/// characters.
pub open spec fn verify_view<'a>(
    flow: Flow<VerifyAsk<'a, &'a str>, SuccessResponse>,
) -> Flow<VerifyAsk<'a, Seq<char>>, SuccessResponse> {
    match flow {
        Flow::Ask(VerifyAsk::Session(ask)) => Flow::Ask(VerifyAsk::Session(ask)),
        Flow::Ask(VerifyAsk::Code(ask)) => Flow::Ask(VerifyAsk::Code(code_ask_view(ask))),
        Flow::Reply(response) => Flow::Reply(response),
        Flow::Refuse(e) => Flow::Refuse(e),
        Flow::Fail(reason) => Flow::Fail(reason),
    }
}

/// Check a recovery code before the person is asked to pick a new password.
pub fn verify<'a>(
    recovery_allowed: bool,
    payload: &'a CodePayload,
    session: &'a SessionAnswers,
    checked: &'a CodeAnswers,
) -> (r: Flow<VerifyAsk<'a, &'a str>, SuccessResponse>)
    ensures
        verify_view(r) == verify_next(
            recovery_allowed,
            payload.session_id@,
            payload.code@,
            session,
            checked,
        ),
{
    match open_session(recovery_allowed, payload.session_id.as_str(), session) {
        Flow::Ask(ask) => Flow::Ask(VerifyAsk::Session(ask)),
        Flow::Refuse(e) => Flow::Refuse(e),
        Flow::Fail(reason) => Flow::Fail(reason),
        Flow::Reply((id, _)) => match check_code(id, payload.code.as_str(), checked) {
            CodeNext::Ask(ask) => Flow::Ask(VerifyAsk::Code(ask)),
            CodeNext::Checked(CodeCheck::Valid) => Flow::Reply(SuccessResponse { success: true }),
            CodeNext::Checked(check) => Flow::Refuse(refuse_code(check)),
        },
    }
}

/// What a new password asks for, or has done.
#[derive(Debug, PartialEq, Eq)]
pub enum ResetAsk<'a, C> {
    Session(SessionAsk<'a>),
    /// Whether this password meets the requirements; no answer where passwords turn
    /// out to be disabled.
    IsComplexEnough(&'a String),
    Code(CodeAsk<'a, C>),
    /// The ticket to use, looked up once more.
    FindTicketToUse { session_id: u128, code: C },
    LookupEmail(u128),
    LookupUser(u128),
    HashPassword(&'a String),
    StorePassword { user: &'a User, password: &'a HashedPassword },
    /// Mark the ticket and its session as used.
    ConsumeTicket { ticket: &'a RecoveryTicket, session: &'a RecoverySession },
    Save,
}

/// The answers that a new password has had so far.
#[derive(Debug)]
pub struct ResetAnswers {
    pub session: SessionAnswers,
    /// Whether the password meets the requirements; inside, `None` where passwords
    /// turned out to be disabled.
    pub complex_enough: Option<Option<bool>>,
    pub code: CodeAnswers,
    pub ticket: Option<Option<RecoveryTicket>>,
    pub email: Option<Option<UserEmail>>,
    pub user: Option<Option<User>>,
    pub hashed: Option<HashedPassword>,
    pub stored: bool,
    pub consumed: bool,
    pub saved: bool,
}

impl ResetAnswers {
    /// No answer yet.
    pub fn new() -> (r: Self)
        ensures
            r.session.session is None,
            r.session.within_limit is None,
            r.complex_enough is None,
            r.code.ticket is None,
            r.code.ticket_active is None,
            r.ticket is None,
            r.email is None,
            r.user is None,
            r.hashed is None,
            !r.stored,
            !r.consumed,
            !r.saved,
    {
        ResetAnswers {
            session: SessionAnswers { session: None, within_limit: None },
            complex_enough: None,
            code: CodeAnswers { ticket: None, ticket_active: None },
            ticket: None,
            email: None,
            user: None,
            hashed: None,
            stored: false,
            consumed: false,
            saved: false,
        }
    }
}

/// What is done with a valid code.
pub open spec fn use_code_next<'a>(
    session_id: u128,
    session: &'a RecoverySession,
    code: Seq<char>,
    new_password: &'a String,
    known: &'a ResetAnswers,
) -> Flow<ResetAsk<'a, Seq<char>>, SuccessResponse> {
    if known.ticket is None {
        Flow::Ask(ResetAsk::FindTicketToUse { session_id, code: crate::text::trimmed(code) })
    } else if known.ticket->0 is None {
        Flow::Fail("Recovery ticket vanished between checks")
    } else if known.email is None {
        Flow::Ask(ResetAsk::LookupEmail(known.ticket->0->0.user_email_id))
    } else if known.email->0 is None {
        Flow::Fail("Unknown e-mail address")
    } else if known.user is None {
        Flow::Ask(ResetAsk::LookupUser(known.email->0->0.user_id))
    } else if known.user->0 is None {
        Flow::Fail("Unknown user")
    } else if !known.user->0->0.valid {
        Flow::Refuse(
            ErrorResponse { status: 403, errcode: "M_FORBIDDEN", error: "This account is locked" },
        )
    } else if known.hashed is None {
        Flow::Ask(ResetAsk::HashPassword(new_password))
    } else if !known.stored {
        Flow::Ask(
            ResetAsk::StorePassword { user: &known.user->0->0, password: &known.hashed->0 },
        )
    } else if !known.consumed {
        Flow::Ask(ResetAsk::ConsumeTicket { ticket: &known.ticket->0->0, session })
    } else if !known.saved {
        Flow::Ask(ResetAsk::Save)
    } else {
        Flow::Reply(SuccessResponse { success: true })
    }
}

/// The next thing that a new password asks for, or the answer.
pub open spec fn reset_next<'a>(
    recovery_allowed: bool,
    passwords_enabled: bool,
    session_id: Seq<char>,
    code: Seq<char>,
    new_password: &'a String,
    known: &'a ResetAnswers,
) -> Flow<ResetAsk<'a, Seq<char>>, SuccessResponse> {
    match session_next(recovery_allowed && passwords_enabled, session_id, &known.session) {
        Flow::Ask(ask) => Flow::Ask(ResetAsk::Session(ask)),
        Flow::Refuse(e) => Flow::Refuse(e),
        Flow::Fail(reason) => Flow::Fail(reason),
        Flow::Reply((id, session)) => match known.complex_enough {
            None => Flow::Ask(ResetAsk::IsComplexEnough(new_password)),
            Some(None) => Flow::Refuse(recovery_disabled()),
            Some(Some(false)) => Flow::Refuse(
                ErrorResponse {
                    status: 400,
                    errcode: "M_INVALID_PARAM",
                    error: "Please choose a stronger password",
                },
            ),
            Some(Some(true)) => match check_code_next(id, code, &known.code) {
                CodeNext::Ask(ask) => Flow::Ask(ResetAsk::Code(ask)),
                CodeNext::Checked(CodeCheck::Valid) => use_code_next(
                    id,
                    session,
                    code,
                    new_password,
                    known,
                ),
                CodeNext::Checked(check) => Flow::Refuse(code_error(check)),
            },
        },
    }
}

/// A step of a new password, with the code taken as a sequence of characters.
pub open spec fn reset_view<'a>(
    flow: Flow<ResetAsk<'a, &'a str>, SuccessResponse>,
) -> Flow<ResetAsk<'a, Seq<char>>, SuccessResponse> {
    match flow {
        Flow::Ask(ResetAsk::Session(ask)) => Flow::Ask(ResetAsk::Session(ask)),
        Flow::Ask(ResetAsk::IsComplexEnough(password)) => Flow::Ask(
            ResetAsk::IsComplexEnough(password),
        ),
        Flow::Ask(ResetAsk::Code(ask)) => Flow::Ask(ResetAsk::Code(code_ask_view(ask))),
        Flow::Ask(ResetAsk::FindTicketToUse { session_id, code }) => Flow::Ask(
            ResetAsk::FindTicketToUse { session_id, code: code@ },
        ),
        Flow::Ask(ResetAsk::LookupEmail(id)) => Flow::Ask(ResetAsk::LookupEmail(id)),
        Flow::Ask(ResetAsk::LookupUser(id)) => Flow::Ask(ResetAsk::LookupUser(id)),
        Flow::Ask(ResetAsk::HashPassword(password)) => Flow::Ask(ResetAsk::HashPassword(password)),
        Flow::Ask(ResetAsk::StorePassword { user, password }) => Flow::Ask(
            ResetAsk::StorePassword { user, password },
        ),
        Flow::Ask(ResetAsk::ConsumeTicket { ticket, session }) => Flow::Ask(
            ResetAsk::ConsumeTicket { ticket, session },
        ),
        Flow::Ask(ResetAsk::Save) => Flow::Ask(ResetAsk::Save),
        Flow::Reply(response) => Flow::Reply(response),
        Flow::Refuse(e) => Flow::Refuse(e),
        Flow::Fail(reason) => Flow::Fail(reason),
    }
}

fn use_code<'a>(
    session_id: u128,
    session: &'a RecoverySession,
    code: &'a str,
    new_password: &'a String,
    known: &'a ResetAnswers,
) -> (r: Flow<ResetAsk<'a, &'a str>, SuccessResponse>)
    ensures
        reset_view(r) == use_code_next(session_id, session, code@, new_password, known),
{
    let ticket = match &known.ticket {
        None => {
            return Flow::Ask(ResetAsk::FindTicketToUse { session_id, code: code.trim() });
        },
        Some(None) => {
            return Flow::Fail("Recovery ticket vanished between checks");
        },
        Some(Some(ticket)) => ticket,
    };
    let email = match &known.email {
        None => {
            return Flow::Ask(ResetAsk::LookupEmail(ticket.user_email_id));
        },
        Some(None) => {
            return Flow::Fail("Unknown e-mail address");
        },
        Some(Some(email)) => email,
    };
    let user = match &known.user {
        None => {
            return Flow::Ask(ResetAsk::LookupUser(email.user_id));
        },
        Some(None) => {
            return Flow::Fail("Unknown user");
        },
        Some(Some(user)) => user,
    };
    if !user.valid {
        return Flow::Refuse(error(403, "M_FORBIDDEN", "This account is locked"));
    }
    match &known.hashed {
        None => Flow::Ask(ResetAsk::HashPassword(new_password)),
        Some(password) => {
            if !known.stored {
                return Flow::Ask(ResetAsk::StorePassword { user, password });
            }
            if !known.consumed {
                return Flow::Ask(ResetAsk::ConsumeTicket { ticket, session });
            }
            if !known.saved {
                return Flow::Ask(ResetAsk::Save);
            }
            Flow::Reply(SuccessResponse { success: true })
        },
    }
}

/// Set a new password, using the code sent by e-mail.
///
/// It takes that account recovery is allowed, and that there are passwords.
pub fn reset<'a>(
    recovery_allowed: bool,
    passwords_enabled: bool,
    payload: &'a ResetPayload,
    known: &'a ResetAnswers,
) -> (r: Flow<
    ResetAsk<'a, &'a str>,
    SuccessResponse,
>)
    ensures
        reset_view(r) == reset_next(
            recovery_allowed,
            passwords_enabled,
            payload.session_id@,
            payload.code@,
            &payload.new_password,
            known,
        ),
{
    let (id, session) = match open_session(
        recovery_allowed && passwords_enabled,
        payload.session_id.as_str(),
        &known.session,
    ) {
        Flow::Ask(ask) => {
            return Flow::Ask(ResetAsk::Session(ask));
        },
        Flow::Refuse(e) => {
            return Flow::Refuse(e);
        },
        Flow::Fail(reason) => {
            return Flow::Fail(reason);
        },
        Flow::Reply(opened) => opened,
    };
    match known.complex_enough {
        None => {
            return Flow::Ask(ResetAsk::IsComplexEnough(&payload.new_password));
        },
        Some(None) => {
            return Flow::Refuse(error(503, "M_UNKNOWN", "Account recovery is disabled"));
        },
        Some(Some(false)) => {
            return Flow::Refuse(
                error(400, "M_INVALID_PARAM", "Please choose a stronger password"),
            );
        },
        Some(Some(true)) => {},
    }
    match check_code(id, payload.code.as_str(), &known.code) {
        CodeNext::Ask(ask) => Flow::Ask(ResetAsk::Code(ask)),
        CodeNext::Checked(CodeCheck::Valid) => use_code(
            id,
            session,
            payload.code.as_str(),
            &payload.new_password,
            known,
        ),
        CodeNext::Checked(check) => Flow::Refuse(refuse_code(check)),
    }
}

/// A session is started, and a code sent, only for an address within the limit, on a
/// site that allows recovery.
pub proof fn law_codes_are_sent_to_addresses_within_the_limit<'a>(
    recovery_allowed: bool,
    email: Seq<char>,
    known: &'a RequestAnswers,
)
    ensures
        request_next(recovery_allowed, email, known) matches Flow::Ask(
            RequestAsk::AddSession { email: address, user_agent },
        ) ==> {
            &&& recovery_allowed
            &&& known.within_limit == Some(true)
            &&& address == recovery_address(email)
            &&& crate::email::is_email_address(address)
            &&& crate::text::utf8_len(address) <= EMAIL_MAX_BYTES
            &&& user_agent@ == "TweenApp"@
        },
        request_next(recovery_allowed, email, known) matches Flow::Ask(
            RequestAsk::ScheduleCodeEmail(session),
        ) ==> recovery_allowed && known.within_limit == Some(true) && known.session == Some(
            *session,
        ),
        request_next(recovery_allowed, email, known) is Reply ==> known.email_scheduled
            && known.saved,
{
}

/// The answer is the same for every address that a session could be started for: it
/// is the session and nothing else, so it does not tell who has an account.
pub proof fn law_the_answer_does_not_depend_on_the_address<'a>(
    email: Seq<char>,
    other: Seq<char>,
    known: &'a RequestAnswers,
)
    requires
        request_next(true, email, known) is Reply,
        takes_address(
            recovery_address(other),
            crate::email::is_email_address(recovery_address(other)),
        ),
    ensures
        request_next(true, other, known) == request_next(true, email, known),
{
}

/// The session that a request answers with is one that the later steps accept.
pub proof fn law_issued_sessions_are_accepted<'a>(
    email: Seq<char>,
    known: &'a RequestAnswers,
    later: &'a SessionAnswers,
)
    requires
        request_next(true, email, known) is Reply,
        later.session is None,
    ensures
        session_id_of(request_next(true, email, known)->Reply_0) == Some(known.session->0.id),
        session_next(true, request_next(true, email, known)->Reply_0, later) == Flow::<
            SessionAsk<'a>,
            (u128, &'a RecoverySession),
        >::Ask(SessionAsk::LookupSession(known.session->0.id)),
{
    crate::ids::law_ulid_text_reads_back(known.session->0.id);
}

/// A code is valid only as six digits, for the session that its ticket belongs to,
/// and while that ticket is active.
pub proof fn law_codes_are_bound_to_their_session<'a>(
    session_id: u128,
    code: Seq<char>,
    known: &'a CodeAnswers,
)
    ensures
        (check_code_next(session_id, code, known) matches CodeNext::Checked(
            CodeCheck::Valid,
        )) <==> {
            &&& is_code(crate::text::trimmed(code))
            &&& (known.ticket matches Some(Some(ticket)) && ticket.user_recovery_session_id
                == session_id)
            &&& (known.ticket_active matches Some(true))
        },
        check_code_next(session_id, code, known) matches CodeNext::Ask(
            CodeAsk::FindTicket { session_id: asked, code: digits },
        ) ==> asked == session_id && digits == crate::text::trimmed(code) && is_code(digits),
{
}

/// A code that is valid for one session is wrong for every other.
pub proof fn law_codes_cannot_be_replayed<'a>(
    session_id: u128,
    other: u128,
    code: Seq<char>,
    known: &'a CodeAnswers,
)
    requires
        check_code_next(session_id, code, known) == CodeNext::<'a, Seq<char>>::Checked(
            CodeCheck::Valid,
        ),
        other != session_id,
    ensures
        check_code_next(other, code, known) == CodeNext::<'a, Seq<char>>::Checked(
            CodeCheck::Wrong,
        ),
{
}

/// A code that passed the check is not refused when the new password comes, as long
/// as the ticket is still as it was and the password is strong enough.
pub proof fn law_verified_codes_are_not_refused<'a>(
    session_id: Seq<char>,
    code: Seq<char>,
    new_password: &'a String,
    known: &'a ResetAnswers,
)
    requires
        verify_next(true, session_id, code, &known.session, &known.code) is Reply,
        known.complex_enough == Some(Some(true)),
        known.ticket is None,
    ensures
        reset_next(true, true, session_id, code, new_password, known) == Flow::<
            ResetAsk<'a, Seq<char>>,
            SuccessResponse,
        >::Ask(
            ResetAsk::FindTicketToUse {
                session_id: session_id_of(session_id)->0,
                code: crate::text::trimmed(code),
            },
        ),
{
}

/// Where account recovery is not allowed, or there are no passwords, nothing is asked for
/// and the answer is that recovery is disabled.
pub proof fn law_resets_take_recovery_and_passwords<'a>(
    recovery_allowed: bool,
    passwords_enabled: bool,
    session_id: Seq<char>,
    code: Seq<char>,
    new_password: &'a String,
    known: &'a ResetAnswers,
)
    requires
        !recovery_allowed || !passwords_enabled,
    ensures
        reset_next(
            recovery_allowed,
            passwords_enabled,
            session_id,
            code,
            new_password,
            known,
        ) == Flow::<ResetAsk<'a, Seq<char>>, SuccessResponse>::Refuse(recovery_disabled()),
{
}

/// Whether a new password may be set: with a valid code of a session within the limit,
/// for an account that is not locked, and only if it is strong enough.
pub open spec fn may_reset<'a>(
    recovery_allowed: bool,
    passwords_enabled: bool,
    session_id: Seq<char>,
    code: Seq<char>,
    known: &'a ResetAnswers,
) -> bool {
    &&& recovery_allowed && passwords_enabled
    &&& (known.session.within_limit matches Some(true))
    &&& (known.complex_enough matches Some(Some(true)))
    &&& session_id_of(session_id) is Some
    &&& check_code_next(session_id_of(session_id)->0, code, &known.code) == CodeNext::<
        'a,
        Seq<char>,
    >::Checked(CodeCheck::Valid)
    &&& (known.user matches Some(Some(user)) && user.valid)
}

/// A password is stored, and a ticket consumed, only where a new password may be set.
pub proof fn law_resets_need_a_valid_code<'a>(
    recovery_allowed: bool,
    passwords_enabled: bool,
    session_id: Seq<char>,
    code: Seq<char>,
    new_password: &'a String,
    known: &'a ResetAnswers,
)
    ensures
        reset_next(
            recovery_allowed,
            passwords_enabled,
            session_id,
            code,
            new_password,
            known,
        ) matches Flow::Ask(
            ResetAsk::StorePassword { user, password },
        ) ==> {
            &&& may_reset(recovery_allowed, passwords_enabled, session_id, code, known)
            &&& known.user == Some(Some(*user))
            &&& known.hashed == Some(*password)
        },
        reset_next(
            recovery_allowed,
            passwords_enabled,
            session_id,
            code,
            new_password,
            known,
        ) matches Flow::Ask(
            ResetAsk::ConsumeTicket { ticket, session },
        ) ==> {
            &&& may_reset(recovery_allowed, passwords_enabled, session_id, code, known)
            &&& known.ticket == Some(Some(*ticket))
            &&& known.session.session == Some(Some(*session))
        },
        reset_next(
            recovery_allowed,
            passwords_enabled,
            session_id,
            code,
            new_password,
            known,
        ) matches Flow::Ask(ResetAsk::Save) ==> may_reset(
            recovery_allowed,
            passwords_enabled,
            session_id,
            code,
            known,
        ),
{
}

/// A code sets one password: nothing is saved before the ticket is consumed, and
/// success is answered only once all is saved.
pub proof fn law_codes_are_used_once<'a>(
    recovery_allowed: bool,
    passwords_enabled: bool,
    session_id: Seq<char>,
    code: Seq<char>,
    new_password: &'a String,
    known: &'a ResetAnswers,
)
    ensures
        reset_next(
            recovery_allowed,
            passwords_enabled,
            session_id,
            code,
            new_password,
            known,
        ) == Flow::<
            ResetAsk<'a, Seq<char>>,
            SuccessResponse,
        >::Ask(ResetAsk::Save) ==> known.stored && known.consumed,
        reset_next(
            recovery_allowed,
            passwords_enabled,
            session_id,
            code,
            new_password,
            known,
        ) is Reply ==> known.stored && known.consumed && known.saved,
{
}

impl<'a> RequestAsk<'a, Seq<char>> {
    /// Whether the answers hold the answer to this.
    pub open spec fn answered_in(self, known: RequestAnswers) -> bool {
        match self {
            RequestAsk::CheckLimit(_) => known.within_limit is Some,
            RequestAsk::AddSession { .. } => known.session is Some,
            RequestAsk::ScheduleCodeEmail(_) => known.email_scheduled,
            RequestAsk::Save => known.saved,
        }
    }
}

/// Only what has no answer yet is asked for, so nothing is done twice.
pub proof fn law_requests_ask_for_the_missing<'a>(
    recovery_allowed: bool,
    email: Seq<char>,
    known: &'a RequestAnswers,
)
    ensures
        request_next(recovery_allowed, email, known) matches Flow::Ask(ask)
            ==> !ask.answered_in(*known),
{
}

impl<'a> ResetAsk<'a, Seq<char>> {
    /// Whether the answers hold the answer to this.
    pub open spec fn answered_in(self, known: ResetAnswers) -> bool {
        match self {
            ResetAsk::Session(SessionAsk::LookupSession(_)) => known.session.session is Some,
            ResetAsk::Session(SessionAsk::CheckLimit(_)) => known.session.within_limit is Some,
            ResetAsk::IsComplexEnough(_) => known.complex_enough is Some,
            ResetAsk::Code(CodeAsk::FindTicket { .. }) => known.code.ticket is Some,
            ResetAsk::Code(CodeAsk::IsTicketActive(_)) => known.code.ticket_active is Some,
            ResetAsk::FindTicketToUse { .. } => known.ticket is Some,
            ResetAsk::LookupEmail(_) => known.email is Some,
            ResetAsk::LookupUser(_) => known.user is Some,
            ResetAsk::HashPassword(_) => known.hashed is Some,
            ResetAsk::StorePassword { .. } => known.stored,
            ResetAsk::ConsumeTicket { .. } => known.consumed,
            ResetAsk::Save => known.saved,
        }
    }
}

/// Only what has no answer yet is asked for, so nothing is done twice.
pub proof fn law_resets_ask_for_the_missing<'a>(
    recovery_allowed: bool,
    passwords_enabled: bool,
    session_id: Seq<char>,
    code: Seq<char>,
    new_password: &'a String,
    known: &'a ResetAnswers,
)
    ensures
        reset_next(
            recovery_allowed,
            passwords_enabled,
            session_id,
            code,
            new_password,
            known,
        ) matches Flow::Ask(ask) ==> !ask.answered_in(*known),
{
}

/// Once a recovery session is saved, it is the answer.
pub proof fn law_saving_ends_the_request<'a>(
    recovery_allowed: bool,
    email: Seq<char>,
    known: &'a RequestAnswers,
    later: &'a RequestAnswers,
)
    requires
        request_next(recovery_allowed, email, known) == Flow::<
            RequestAsk<'a, Seq<char>>,
            Seq<char>,
        >::Ask(RequestAsk::Save),
        *later == (RequestAnswers { saved: true, ..*known }),
    ensures
        request_next(recovery_allowed, email, later) is Reply,
{
}

/// Once a new password is saved, the answer is success: nothing is saved for a refusal.
pub proof fn law_saving_ends_the_reset<'a>(
    recovery_allowed: bool,
    passwords_enabled: bool,
    session_id: Seq<char>,
    code: Seq<char>,
    new_password: &'a String,
    known: &'a ResetAnswers,
    later: &'a ResetAnswers,
)
    requires
        reset_next(
            recovery_allowed,
            passwords_enabled,
            session_id,
            code,
            new_password,
            known,
        ) == Flow::<
            ResetAsk<'a, Seq<char>>,
            SuccessResponse,
        >::Ask(ResetAsk::Save),
        *later == (ResetAnswers { saved: true, ..*known }),
    ensures
        reset_next(
            recovery_allowed,
            passwords_enabled,
            session_id,
            code,
            new_password,
            later,
        ) is Reply,
{
}

/// Every row of six digits is looked up as a code, whatever it starts with. It is wrong
/// where there is no such ticket or the ticket belongs to another session, and otherwise
/// valid exactly while the ticket is active.
pub proof fn law_every_row_of_six_digits_is_looked_up<'a>(
    session_id: u128,
    code: Seq<char>,
    known: &'a CodeAnswers,
)
    requires
        code.len() == 6,
        forall|i: int| 0 <= i < 6 ==> '0' <= #[trigger] code[i] <= '9',
    ensures
        ({
            let next = check_code_next(session_id, code, known);
            match known.ticket {
                None => next == CodeNext::<'a, Seq<char>>::Ask(
                    CodeAsk::FindTicket { session_id, code },
                ),
                Some(None) => next == CodeNext::<'a, Seq<char>>::Checked(CodeCheck::Wrong),
                Some(Some(ticket)) => if ticket.user_recovery_session_id == session_id {
                    match known.ticket_active {
                        None => next == CodeNext::<'a, Seq<char>>::Ask(
                            CodeAsk::IsTicketActive(&ticket),
                        ),
                        Some(true) => next == CodeNext::<'a, Seq<char>>::Checked(CodeCheck::Valid),
                        Some(false) => next == CodeNext::<'a, Seq<char>>::Checked(
                            CodeCheck::Expired,
                        ),
                    }
                } else {
                    next == CodeNext::<'a, Seq<char>>::Checked(CodeCheck::Wrong)
                },
            }
        }),
{
    assert('0' <= code[0] <= '9' && '0' <= code[5] <= '9');
    crate::text::law_trimmed_text_is_kept(code);
    assert forall|i: int| 0 <= i < code.len() implies crate::text::is_digit(#[trigger] code[i]) by {
        assert('0' <= code[i] <= '9');
    }
}

/// White space around a code makes no difference, and anything else than six digits is
/// wrong without being looked up.
pub proof fn law_other_texts_are_wrong_codes<'a>(
    session_id: u128,
    code: Seq<char>,
    known: &'a CodeAnswers,
)
    ensures
        check_code_next(session_id, code, known) == check_code_next(
            session_id,
            crate::text::trimmed(code),
            known,
        ),
        ({
            let digits = crate::text::trimmed(code);
            digits.len() != 6 || exists|i: int|
                0 <= i < digits.len() && !('0' <= #[trigger] digits[i] <= '9')
        }) ==> check_code_next(session_id, code, known) == CodeNext::<'a, Seq<char>>::Checked(
            CodeCheck::Wrong,
        ),
{
    crate::text::law_trimming_is_idempotent(code);
    let digits = crate::text::trimmed(code);
    if is_code(digits) {
        assert forall|i: int| 0 <= i < digits.len() implies '0' <= #[trigger] digits[i] <= '9' by {
            assert(crate::text::is_digit(digits[i]));
        }
    }
}

/// Recovery goes by the address in lower case and without white space around it. It is
/// refused where it is switched off, and otherwise for what does not read as an address, is
/// empty or takes more than 254 bytes, and for too many attempts.
pub proof fn law_requests_are_refused_for_a_reason<'a>(
    recovery_allowed: bool,
    email: Seq<char>,
    known: &'a RequestAnswers,
)
    ensures
        ({
            let next = request_next(recovery_allowed, email, known);
            let address = crate::text::lowercase(crate::text::trimmed(email));
            let good = address.len() > 0 && vstd::utf8::encode_utf8(address).len() <= 254
                && crate::email::is_email_address(address);
            &&& next.refuses(503, "M_UNKNOWN", "Account recovery is disabled") <==> !recovery_allowed
            &&& next.refuses(
                400,
                "M_INVALID_PARAM",
                "That does not look like an e-mail address",
            ) <==> recovery_allowed && !good
            &&& next.refuses(
                429,
                "M_LIMIT_EXCEEDED",
                "Too many attempts, please wait a while",
            ) <==> recovery_allowed && good && (known.within_limit matches Some(false))
            &&& next is Refuse <==> !recovery_allowed || !good || (
            known.within_limit matches Some(false))
            &&& !(next is Fail)
        }),
{
}

/// The limit is checked for the address, then a session is started for it from the app, a
/// code is sent for that session, all is saved, and the session is the answer.
pub proof fn law_requests_go_step_by_step<'a>(email: Seq<char>, known: &'a RequestAnswers)
    requires
        ({
            let address = crate::text::lowercase(crate::text::trimmed(email));
            address.len() > 0 && vstd::utf8::encode_utf8(address).len() <= 254
                && crate::email::is_email_address(address)
        }),
    ensures
        ({
            let next = request_next(true, email, known);
            let address = crate::text::lowercase(crate::text::trimmed(email));
            &&& known.within_limit is None ==> next.asks(RequestAsk::CheckLimit(address))
            &&& (known.within_limit matches Some(true)) ==> match &known.session {
                None => next.asks(
                    RequestAsk::AddSession { email: address, user_agent: "TweenApp" },
                ),
                Some(session) => if !known.email_scheduled {
                    next.asks(RequestAsk::ScheduleCodeEmail(session))
                } else if !known.saved {
                    next.asks(RequestAsk::Save)
                } else {
                    next.replies(crate::ids::ulid_text(session.id))
                },
            }
        }),
{
}

/// For an address that is known, whether the text reads as one is all that the request goes
/// by beside the address itself.
pub proof fn law_addresses_are_judged_by_how_they_read<'a>(
    email: Seq<char>,
    reads_as_address: bool,
    known: &'a RequestAnswers,
)
    ensures
        ({
            let next = address_request_next(email, reads_as_address, known);
            let good = email.len() > 0 && vstd::utf8::encode_utf8(email).len() <= 254
                && reads_as_address;
            &&& next.refuses(
                400,
                "M_INVALID_PARAM",
                "That does not look like an e-mail address",
            ) <==> !good
            &&& good && known.within_limit is None ==> next.asks(RequestAsk::CheckLimit(email))
            &&& good && (known.within_limit matches Some(false)) ==> next.refuses(
                429,
                "M_LIMIT_EXCEEDED",
                "Too many attempts, please wait a while",
            )
            &&& good && (known.within_limit matches Some(true)) ==> match &known.session {
                None => next.asks(RequestAsk::AddSession { email, user_agent: "TweenApp" }),
                Some(session) => if !known.email_scheduled {
                    next.asks(RequestAsk::ScheduleCodeEmail(session))
                } else if !known.saved {
                    next.asks(RequestAsk::Save)
                } else {
                    next.replies(crate::ids::ulid_text(session.id))
                },
            }
        }),
{
}

/// A session is opened by its ULID, white space around it aside: it is looked up, then the
/// limit is checked for its address. It is refused where recovery is switched off, for a
/// text that is no ULID, for a session that is not there, and for too many attempts.
pub proof fn law_sessions_are_opened_step_by_step<'a>(
    enabled: bool,
    session_id: Seq<char>,
    known: &'a SessionAnswers,
)
    ensures
        ({
            let next = session_next(enabled, session_id, known);
            let id = crate::ids::ulid_of(crate::text::trimmed(session_id));
            &&& next.refuses(503, "M_UNKNOWN", "Account recovery is disabled") <==> !enabled
            &&& next.refuses(400, "M_INVALID_PARAM", "Unknown recovery session") <==> enabled
                && id is None
            &&& enabled && id is Some ==> match &known.session {
                None => next.asks(SessionAsk::LookupSession(id->0)),
                Some(None) => next.refuses(404, "M_NOT_FOUND", "Unknown recovery session"),
                Some(Some(session)) => match known.within_limit {
                    None => next.asks(SessionAsk::CheckLimit(&session.email)),
                    Some(false) => next.refuses(
                        429,
                        "M_LIMIT_EXCEEDED",
                        "Too many attempts, please wait a while",
                    ),
                    Some(true) => next.replies((id->0, session)),
                },
            }
        }),
{
}

/// The check of a code opens the session first, whatever the code is. Then the code is
/// checked for that session: a valid one is answered with success, an expired one is told as
/// such, and any other is not right.
pub proof fn law_checks_answer_what_the_code_is<'a>(
    recovery_allowed: bool,
    session_id: Seq<char>,
    code: Seq<char>,
    session: &'a SessionAnswers,
    checked: &'a CodeAnswers,
)
    ensures
        ({
            let next = verify_next(recovery_allowed, session_id, code, session, checked);
            match session_next(recovery_allowed, session_id, session) {
                Flow::Ask(ask) => next.asks(VerifyAsk::Session(ask)),
                Flow::Refuse(e) => next == Flow::<
                    VerifyAsk<'a, Seq<char>>,
                    SuccessResponse,
                >::Refuse(e),
                Flow::Fail(_) => true,
                Flow::Reply((id, _)) => match check_code_next(id, code, checked) {
                    CodeNext::Ask(ask) => next.asks(VerifyAsk::Code(ask)),
                    CodeNext::Checked(CodeCheck::Valid) => next.replies(
                        SuccessResponse { success: true },
                    ),
                    CodeNext::Checked(CodeCheck::Expired) => next.refuses(
                        410,
                        "M_CODE_EXPIRED",
                        "That code has expired, ask for a new one",
                    ),
                    CodeNext::Checked(CodeCheck::Wrong) => next.refuses(
                        400,
                        "M_INVALID_PARAM",
                        "That code is not right",
                    ),
                },
            }
        }),
{
}

/// Before a code is used for a new password, the session is opened, the password has to be
/// strong enough, and the code has to be valid for the session.
pub proof fn law_resets_check_the_password_and_the_code<'a>(
    recovery_allowed: bool,
    passwords_enabled: bool,
    session_id: Seq<char>,
    code: Seq<char>,
    new_password: &'a String,
    known: &'a ResetAnswers,
)
    ensures
        ({
            let next = reset_next(
                recovery_allowed,
                passwords_enabled,
                session_id,
                code,
                new_password,
                known,
            );
            match session_next(
                recovery_allowed && passwords_enabled,
                session_id,
                &known.session,
            ) {
                Flow::Ask(ask) => next.asks(ResetAsk::Session(ask)),
                Flow::Refuse(e) => next == Flow::<
                    ResetAsk<'a, Seq<char>>,
                    SuccessResponse,
                >::Refuse(e),
                Flow::Fail(_) => true,
                Flow::Reply((id, _)) => {
                    let strong = known.complex_enough matches Some(Some(true));
                    let check = check_code_next(id, code, &known.code);
                    &&& known.complex_enough is None ==> next.asks(
                        ResetAsk::IsComplexEnough(new_password),
                    )
                    &&& (known.complex_enough matches Some(None)) ==> next.refuses(
                        503,
                        "M_UNKNOWN",
                        "Account recovery is disabled",
                    )
                    &&& (known.complex_enough matches Some(Some(false))) ==> next.refuses(
                        400,
                        "M_INVALID_PARAM",
                        "Please choose a stronger password",
                    )
                    &&& strong ==> (check matches CodeNext::Ask(ask) ==> next.asks(
                        ResetAsk::Code(ask),
                    ))
                    &&& strong && (check matches CodeNext::Checked(CodeCheck::Expired))
                        ==> next.refuses(
                        410,
                        "M_CODE_EXPIRED",
                        "That code has expired, ask for a new one",
                    )
                    &&& strong && (check matches CodeNext::Checked(CodeCheck::Wrong))
                        ==> next.refuses(400, "M_INVALID_PARAM", "That code is not right")
                },
            }
        }),
{
}

/// With a valid code and a password that is strong enough, the ticket is looked up once
/// more, then the address it was sent to and the user of that address. Nobody locked gets
/// further. For everyone else the password is hashed and stored for that user, the ticket
/// and its session are marked as used, all is saved, and the answer is success.
pub proof fn law_valid_codes_set_the_password<'a>(
    session_id: Seq<char>,
    code: Seq<char>,
    new_password: &'a String,
    known: &'a ResetAnswers,
)
    requires
        session_next(true, session_id, &known.session) is Reply,
        known.complex_enough == Some(Some(true)),
        check_code_next(
            session_next(true, session_id, &known.session)->Reply_0.0,
            code,
            &known.code,
        ) == CodeNext::<'a, Seq<char>>::Checked(CodeCheck::Valid),
    ensures
        ({
            let next = reset_next(true, true, session_id, code, new_password, known);
            let (id, session) = session_next(true, session_id, &known.session)->Reply_0;
            match (&known.ticket, &known.email, &known.user) {
                (None, _, _) => next.asks(
                    ResetAsk::FindTicketToUse { session_id: id, code: crate::text::trimmed(code) },
                ),
                (Some(None), _, _) => next.fails("Recovery ticket vanished between checks"),
                (Some(Some(ticket)), None, _) => next.asks(
                    ResetAsk::LookupEmail(ticket.user_email_id),
                ),
                (Some(Some(_)), Some(None), _) => next.fails("Unknown e-mail address"),
                (Some(Some(_)), Some(Some(email)), None) => next.asks(
                    ResetAsk::LookupUser(email.user_id),
                ),
                (Some(Some(_)), Some(Some(_)), Some(None)) => next.fails("Unknown user"),
                (Some(Some(ticket)), Some(Some(_)), Some(Some(user))) => {
                    &&& !user.valid ==> next.refuses(403, "M_FORBIDDEN", "This account is locked")
                    &&& user.valid && known.hashed is None ==> next.asks(
                        ResetAsk::HashPassword(new_password),
                    )
                    &&& user.valid && known.hashed is Some ==> if !known.stored {
                        next.asks(ResetAsk::StorePassword { user, password: &known.hashed->0 })
                    } else if !known.consumed {
                        next.asks(ResetAsk::ConsumeTicket { ticket, session })
                    } else if !known.saved {
                        next.asks(ResetAsk::Save)
                    } else {
                        next.replies(SuccessResponse { success: true })
                    }
                },
            }
        }),
{
}

/// Taken as sequences of characters, the texts of a step are those of the step itself, and
/// nothing else of it changes.
pub proof fn law_recovery_steps_are_viewed_as_they_are<'a>(
    request: Flow<RequestAsk<'a, String>, RequestResponse>,
    check: CodeNext<'a, &'a str>,
    verify: Flow<VerifyAsk<'a, &'a str>, SuccessResponse>,
    reset: Flow<ResetAsk<'a, &'a str>, SuccessResponse>,
)
    ensures
        request matches Flow::Ask(RequestAsk::CheckLimit(email)) ==> request_view(request).asks(
            RequestAsk::CheckLimit(email@),
        ),
        request matches Flow::Ask(RequestAsk::AddSession { email, user_agent }) ==> request_view(
            request,
        ).asks(RequestAsk::AddSession { email: email@, user_agent }),
        request matches Flow::Ask(RequestAsk::ScheduleCodeEmail(session)) ==> request_view(
            request,
        ).asks(RequestAsk::ScheduleCodeEmail(session)),
        request matches Flow::Ask(RequestAsk::Save) ==> request_view(request).asks(
            RequestAsk::Save,
        ),
        request matches Flow::Reply(response) ==> request_view(request).replies(
            response.session_id@,
        ),
        request matches Flow::Refuse(e) ==> request_view(request).refuses(
            e.status,
            e.errcode,
            e.error,
        ),
        request matches Flow::Fail(reason) ==> request_view(request).fails(reason),
        check matches CodeNext::Ask(CodeAsk::FindTicket { session_id, code }) ==> code_view(check)
            == CodeNext::<'a, Seq<char>>::Ask(CodeAsk::FindTicket { session_id, code: code@ }),
        check matches CodeNext::Ask(CodeAsk::IsTicketActive(ticket)) ==> code_view(check)
            == CodeNext::<'a, Seq<char>>::Ask(CodeAsk::IsTicketActive(ticket)),
        check matches CodeNext::Checked(what) ==> code_view(check) == CodeNext::<
            'a,
            Seq<char>,
        >::Checked(what),
        verify matches Flow::Ask(VerifyAsk::Session(ask)) ==> verify_view(verify).asks(
            VerifyAsk::Session(ask),
        ),
        verify matches Flow::Ask(VerifyAsk::Code(CodeAsk::FindTicket { session_id, code }))
            ==> verify_view(verify).asks(
            VerifyAsk::Code(CodeAsk::FindTicket { session_id, code: code@ }),
        ),
        verify matches Flow::Ask(VerifyAsk::Code(CodeAsk::IsTicketActive(ticket))) ==> verify_view(
            verify,
        ).asks(VerifyAsk::Code(CodeAsk::IsTicketActive(ticket))),
        verify matches Flow::Reply(response) ==> verify_view(verify).replies(response),
        verify matches Flow::Refuse(e) ==> verify_view(verify).refuses(
            e.status,
            e.errcode,
            e.error,
        ),
        verify matches Flow::Fail(reason) ==> verify_view(verify).fails(reason),
        reset matches Flow::Ask(ResetAsk::Session(ask)) ==> reset_view(reset).asks(
            ResetAsk::Session(ask),
        ),
        reset matches Flow::Ask(ResetAsk::IsComplexEnough(password)) ==> reset_view(reset).asks(
            ResetAsk::IsComplexEnough(password),
        ),
        reset matches Flow::Ask(ResetAsk::Code(CodeAsk::FindTicket { session_id, code }))
            ==> reset_view(reset).asks(
            ResetAsk::Code(CodeAsk::FindTicket { session_id, code: code@ }),
        ),
        reset matches Flow::Ask(ResetAsk::Code(CodeAsk::IsTicketActive(ticket))) ==> reset_view(
            reset,
        ).asks(ResetAsk::Code(CodeAsk::IsTicketActive(ticket))),
        reset matches Flow::Ask(ResetAsk::FindTicketToUse { session_id, code }) ==> reset_view(
            reset,
        ).asks(ResetAsk::FindTicketToUse { session_id, code: code@ }),
        reset matches Flow::Ask(ResetAsk::LookupEmail(id)) ==> reset_view(reset).asks(
            ResetAsk::LookupEmail(id),
        ),
        reset matches Flow::Ask(ResetAsk::LookupUser(id)) ==> reset_view(reset).asks(
            ResetAsk::LookupUser(id),
        ),
        reset matches Flow::Ask(ResetAsk::HashPassword(password)) ==> reset_view(reset).asks(
            ResetAsk::HashPassword(password),
        ),
        reset matches Flow::Ask(ResetAsk::StorePassword { user, password }) ==> reset_view(
            reset,
        ).asks(ResetAsk::StorePassword { user, password }),
        reset matches Flow::Ask(ResetAsk::ConsumeTicket { ticket, session }) ==> reset_view(
            reset,
        ).asks(ResetAsk::ConsumeTicket { ticket, session }),
        reset matches Flow::Ask(ResetAsk::Save) ==> reset_view(reset).asks(ResetAsk::Save),
        reset matches Flow::Reply(response) ==> reset_view(reset).replies(response),
        reset matches Flow::Refuse(e) ==> reset_view(reset).refuses(e.status, e.errcode, e.error),
        reset matches Flow::Fail(reason) ==> reset_view(reset).fails(reason),
{
}

} // verus!
