use tween_accounts::ids::parse_ulid;
use tween_accounts::recovery::check_code;
use tween_accounts::recovery::parse_session_id;
use tween_accounts::recovery::request;
use tween_accounts::recovery::request_for_address;
use tween_accounts::recovery::reset;
use tween_accounts::recovery::verify;
use tween_accounts::recovery::CodeAnswers;
use tween_accounts::recovery::CodeAsk;
use tween_accounts::recovery::CodeCheck;
use tween_accounts::recovery::CodeNext;
use tween_accounts::recovery::CodePayload;
use tween_accounts::recovery::RequestAnswers;
use tween_accounts::recovery::RequestAsk;
use tween_accounts::recovery::RequestPayload;
use tween_accounts::recovery::RequestResponse;
use tween_accounts::recovery::ResetAnswers;
use tween_accounts::recovery::ResetAsk;
use tween_accounts::recovery::ResetPayload;
use tween_accounts::recovery::SessionAnswers;
use tween_accounts::recovery::SessionAsk;
use tween_accounts::recovery::SuccessResponse;
use tween_accounts::recovery::VerifyAsk;
use tween_accounts::reply::error;
use tween_accounts::reply::Flow;
use tween_accounts::users::model::HashedPassword;
use tween_accounts::users::model::RecoverySession;
use tween_accounts::users::model::RecoveryTicket;
use tween_accounts::users::model::User;
use tween_accounts::users::model::UserEmail;

const SESSION: &str = "01J0RZ4N0P7E5A9F2C6B3D8H5K";

fn session_id() -> u128 {
    parse_ulid(SESSION).unwrap()
}

fn session() -> RecoverySession {
    RecoverySession { id: session_id(), email: "a@example.com".to_owned(), consumed_at: None }
}

fn ticket() -> RecoveryTicket {
    RecoveryTicket { id: 5, user_recovery_session_id: session_id(), user_email_id: 6 }
}

fn open() -> SessionAnswers {
    SessionAnswers { session: Some(Some(session())), within_limit: Some(true) }
}

fn checked() -> CodeAnswers {
    CodeAnswers { ticket: Some(Some(ticket())), ticket_active: Some(true) }
}

#[test]
fn a_recovery_session_id_must_be_a_ulid() {
    assert!(parse_session_id("01J0RZ4N0P7E5A9F2C6B3D8H5K").is_some());
    assert!(parse_session_id(" 01J0RZ4N0P7E5A9F2C6B3D8H5K ").is_some());
    assert!(parse_session_id("").is_none());
    assert!(parse_session_id("not-a-ulid").is_none());
    // Version 4 UUIDs, which a client may send by mistake, are ULID-sized
    // but not ULIDs.
    assert!(parse_session_id("9f1c2f38-46a1-4d3b-8f2e-3b1f0a52c0d9").is_none());
}

#[test]
fn a_code_is_requested_for_a_normalized_address() {
    let payload = RequestPayload { email: "  A@Example.COM\n".to_owned() };
    let mut known = RequestAnswers::new();
    assert_eq!(
        request(true, &payload, &known),
        Flow::Ask(RequestAsk::CheckLimit("a@example.com".to_owned()))
    );
    known.within_limit = Some(true);
    assert_eq!(
        request(true, &payload, &known),
        Flow::Ask(RequestAsk::AddSession {
            email: "a@example.com".to_owned(),
            user_agent: "TweenApp",
        })
    );
    known.session = Some(session());
    let expected = session();
    assert_eq!(
        request(true, &payload, &known),
        Flow::Ask(RequestAsk::ScheduleCodeEmail(&expected))
    );
    known.email_scheduled = true;
    assert_eq!(request(true, &payload, &known), Flow::Ask(RequestAsk::Save));
    known.saved = true;
    assert_eq!(
        request(true, &payload, &known),
        Flow::Reply(RequestResponse { session_id: SESSION.to_owned() })
    );
    // Another address gets the same answer, and the answer is a session.
    let other = RequestPayload { email: "nobody@example.com".to_owned() };
    assert_eq!(request(true, &other, &known), request(true, &payload, &known));
    assert_eq!(parse_session_id(SESSION), Some(session_id()));
}

#[test]
fn recovery_requests_are_refused() {
    let known = RequestAnswers::new();
    let ask = |email: &str| request(true, &RequestPayload { email: email.to_owned() }, &RequestAnswers::new()) == Flow::Refuse(error(
        400,
        "M_INVALID_PARAM",
        "That does not look like an e-mail address",
    ));
    assert!(ask(""));
    assert!(ask("   "));
    assert!(ask("no address"));
    assert!(ask(&format!("{}@example.com", "x".repeat(250))));
    assert!(!ask("a@example.com"));
    let payload = RequestPayload { email: "a@example.com".to_owned() };
    assert_eq!(
        request(false, &payload, &known),
        Flow::Refuse(error(503, "M_UNKNOWN", "Account recovery is disabled"))
    );
    let mut limited = RequestAnswers::new();
    limited.within_limit = Some(false);
    assert_eq!(
        request(true, &payload, &limited),
        Flow::Refuse(error(429, "M_LIMIT_EXCEEDED", "Too many attempts, please wait a while"))
    );
}

#[test]
fn addresses_are_at_most_254_bytes() {
    let known = RequestAnswers::new();
    let taken = |email: String| {
        matches!(request_for_address(email, true, &RequestAnswers::new()), Flow::Ask(_))
    };
    assert!(taken("x".repeat(254)));
    assert!(!taken("x".repeat(255)));
    assert!(!taken("é".repeat(128)));
    assert!(!taken(String::new()));
    assert_eq!(
        request_for_address("a@b".to_owned(), false, &known),
        Flow::Refuse(error(400, "M_INVALID_PARAM", "That does not look like an e-mail address"))
    );
}

#[test]
fn codes_are_six_digits_of_their_session() {
    let none = CodeAnswers { ticket: None, ticket_active: None };
    for code in ["", "12345", "1234567", "12345a", "١٢٣٤٥٦", "12 456"] {
        assert_eq!(check_code(1, code, &none), CodeNext::Checked(CodeCheck::Wrong));
    }
    assert_eq!(
        check_code(1, " 123456\n", &none),
        CodeNext::Ask(CodeAsk::FindTicket { session_id: 1, code: "123456" })
    );
    let missing = CodeAnswers { ticket: Some(None), ticket_active: None };
    assert_eq!(check_code(1, "123456", &missing), CodeNext::Checked(CodeCheck::Wrong));
    // The ticket of another session does not count.
    assert_eq!(check_code(1, "123456", &checked()), CodeNext::Checked(CodeCheck::Wrong));
    assert_eq!(
        check_code(session_id(), "123456", &checked()),
        CodeNext::Checked(CodeCheck::Valid)
    );
    let expired = CodeAnswers { ticket: Some(Some(ticket())), ticket_active: Some(false) };
    assert_eq!(
        check_code(session_id(), "123456", &expired),
        CodeNext::Checked(CodeCheck::Expired)
    );
    let unknown = CodeAnswers { ticket: Some(Some(ticket())), ticket_active: None };
    assert_eq!(
        check_code(session_id(), "123456", &unknown),
        CodeNext::Ask(CodeAsk::IsTicketActive(&ticket()))
    );
}

#[test]
fn verification_walks_through_session_and_code() {
    let payload = CodePayload { session_id: SESSION.to_lowercase(), code: "123456".to_owned() };
    let no_code = CodeAnswers { ticket: None, ticket_active: None };
    let mut opened = SessionAnswers { session: None, within_limit: None };
    assert_eq!(
        verify(true, &payload, &opened, &no_code),
        Flow::Ask(VerifyAsk::Session(SessionAsk::LookupSession(session_id())))
    );
    opened.session = Some(Some(session()));
    let email = "a@example.com".to_owned();
    assert_eq!(
        verify(true, &payload, &opened, &no_code),
        Flow::Ask(VerifyAsk::Session(SessionAsk::CheckLimit(&email)))
    );
    opened.within_limit = Some(true);
    assert_eq!(
        verify(true, &payload, &opened, &no_code),
        Flow::Ask(VerifyAsk::Code(CodeAsk::FindTicket {
            session_id: session_id(),
            code: "123456",
        }))
    );
    assert_eq!(
        verify(true, &payload, &opened, &checked()),
        Flow::Reply(SuccessResponse { success: true })
    );
    let expired = CodeAnswers { ticket: Some(Some(ticket())), ticket_active: Some(false) };
    assert_eq!(
        verify(true, &payload, &opened, &expired),
        Flow::Refuse(error(410, "M_CODE_EXPIRED", "That code has expired, ask for a new one"))
    );
    let wrong = CodeAnswers { ticket: Some(None), ticket_active: None };
    assert_eq!(
        verify(true, &payload, &opened, &wrong),
        Flow::Refuse(error(400, "M_INVALID_PARAM", "That code is not right"))
    );
}

#[test]
fn unknown_recovery_sessions_are_refused() {
    let mut payload = CodePayload { session_id: "nonsense".to_owned(), code: "123456".to_owned() };
    assert_eq!(
        verify(true, &payload, &open(), &checked()),
        Flow::Refuse(error(400, "M_INVALID_PARAM", "Unknown recovery session"))
    );
    payload.session_id = SESSION.to_owned();
    let gone = SessionAnswers { session: Some(None), within_limit: None };
    assert_eq!(
        verify(true, &payload, &gone, &checked()),
        Flow::Refuse(error(404, "M_NOT_FOUND", "Unknown recovery session"))
    );
    let limited = SessionAnswers { session: Some(Some(session())), within_limit: Some(false) };
    assert_eq!(
        verify(true, &payload, &limited, &checked()),
        Flow::Refuse(error(429, "M_LIMIT_EXCEEDED", "Too many attempts, please wait a while"))
    );
    assert_eq!(
        verify(false, &payload, &open(), &checked()),
        Flow::Refuse(error(503, "M_UNKNOWN", "Account recovery is disabled"))
    );
}

fn new_password() -> ResetPayload {
    ResetPayload {
        session_id: SESSION.to_owned(),
        code: " 123456 ".to_owned(),
        new_password: "correct horse".to_owned(),
    }
}

#[test]
fn a_reset_stores_the_password_and_uses_the_ticket_up() {
    let payload = new_password();
    let mut known = ResetAnswers::new();
    assert_eq!(
        reset(true, true, &payload, &known),
        Flow::Ask(ResetAsk::Session(SessionAsk::LookupSession(session_id())))
    );
    known.session = open();
    assert_eq!(
        reset(true, true, &payload, &known),
        Flow::Ask(ResetAsk::IsComplexEnough(&payload.new_password))
    );
    known.complex_enough = Some(Some(true));
    assert_eq!(
        reset(true, true, &payload, &known),
        Flow::Ask(ResetAsk::Code(CodeAsk::FindTicket {
            session_id: session_id(),
            code: "123456",
        }))
    );
    known.code = checked();
    assert_eq!(
        reset(true, true, &payload, &known),
        Flow::Ask(ResetAsk::FindTicketToUse { session_id: session_id(), code: "123456" })
    );
    known.ticket = Some(Some(ticket()));
    assert_eq!(reset(true, true, &payload, &known), Flow::Ask(ResetAsk::LookupEmail(6)));
    known.email = Some(Some(UserEmail { id: 6, user_id: 7 }));
    assert_eq!(reset(true, true, &payload, &known), Flow::Ask(ResetAsk::LookupUser(7)));
    let user = User { id: 7, username: "alice".to_owned(), valid: true };
    known.user = Some(Some(user.clone()));
    assert_eq!(
        reset(true, true, &payload, &known),
        Flow::Ask(ResetAsk::HashPassword(&payload.new_password))
    );
    known.hashed = Some(HashedPassword { version: 1, hash: "h".to_owned() });
    let hashed = HashedPassword { version: 1, hash: "h".to_owned() };
    assert_eq!(
        reset(true, true, &payload, &known),
        Flow::Ask(ResetAsk::StorePassword { user: &user, password: &hashed })
    );
    known.stored = true;
    assert_eq!(
        reset(true, true, &payload, &known),
        Flow::Ask(ResetAsk::ConsumeTicket { ticket: &ticket(), session: &session() })
    );
    known.consumed = true;
    assert_eq!(reset(true, true, &payload, &known), Flow::Ask(ResetAsk::Save));
    known.saved = true;
    assert_eq!(
        reset(true, true, &payload, &known),
        Flow::Reply(SuccessResponse { success: true })
    );
}

#[test]
fn resets_are_refused() {
    let payload = new_password();
    let mut known = ResetAnswers::new();
    let disabled = || Flow::Refuse(error(503, "M_UNKNOWN", "Account recovery is disabled"));
    // Without account recovery, or without passwords, there is no reset.
    assert_eq!(reset(false, true, &payload, &known), disabled());
    assert_eq!(reset(true, false, &payload, &known), disabled());
    assert_eq!(reset(false, false, &payload, &known), disabled());
    known.session = open();
    known.complex_enough = Some(None);
    assert_eq!(reset(true, true, &payload, &known), disabled());
    known.complex_enough = Some(Some(false));
    assert_eq!(
        reset(true, true, &payload, &known),
        Flow::Refuse(error(400, "M_INVALID_PARAM", "Please choose a stronger password"))
    );
    known.complex_enough = Some(Some(true));
    known.code = CodeAnswers { ticket: Some(None), ticket_active: None };
    assert_eq!(
        reset(true, true, &payload, &known),
        Flow::Refuse(error(400, "M_INVALID_PARAM", "That code is not right"))
    );
    known.code = CodeAnswers { ticket: Some(Some(ticket())), ticket_active: Some(false) };
    assert_eq!(
        reset(true, true, &payload, &known),
        Flow::Refuse(error(410, "M_CODE_EXPIRED", "That code has expired, ask for a new one"))
    );
    known.code = checked();
    known.ticket = Some(Some(ticket()));
    known.email = Some(Some(UserEmail { id: 6, user_id: 7 }));
    known.user = Some(Some(User { id: 7, username: "alice".to_owned(), valid: false }));
    assert_eq!(
        reset(true, true, &payload, &known),
        Flow::Refuse(error(403, "M_FORBIDDEN", "This account is locked"))
    );
}

#[test]
fn resets_fail_on_records_that_are_gone() {
    let payload = new_password();
    let mut known = ResetAnswers::new();
    known.session = open();
    known.complex_enough = Some(Some(true));
    known.code = checked();
    known.ticket = Some(None);
    assert_eq!(
        reset(true, true, &payload, &known),
        Flow::Fail("Recovery ticket vanished between checks")
    );
    known.ticket = Some(Some(ticket()));
    known.email = Some(None);
    assert_eq!(reset(true, true, &payload, &known), Flow::Fail("Unknown e-mail address"));
    known.email = Some(Some(UserEmail { id: 6, user_id: 7 }));
    known.user = Some(None);
    assert_eq!(reset(true, true, &payload, &known), Flow::Fail("Unknown user"));
}
