use tween_accounts::convert::client::DeliveryReceipt;
use tween_accounts::identity::claim;
use tween_accounts::identity::request_token;
use tween_accounts::identity::safe_next_link;
use tween_accounts::identity::sha256;
use tween_accounts::identity::submit_token;
use tween_accounts::identity::submit_token_get;
use tween_accounts::identity::Claim;
use tween_accounts::identity::ClaimResponse;
use tween_accounts::identity::Claimed;
use tween_accounts::identity::Drawn;
use tween_accounts::identity::RequestToken;
use tween_accounts::identity::SubmitAnswers;
use tween_accounts::identity::SubmitAsk;
use tween_accounts::identity::SubmitPage;
use tween_accounts::identity::SubmitResponse;
use tween_accounts::identity::SubmitToken;
use tween_accounts::identity::TokenAnswers;
use tween_accounts::identity::TokenAsk;
use tween_accounts::identity::TokenResponse;
use tween_accounts::identity::TOKEN_LEN;
use tween_accounts::identity::TOKEN_NUMBERS;
use tween_accounts::instant::Instant;
use tween_accounts::reply::ErrorResponse;
use tween_accounts::reply::Flow;
use tween_accounts::validations::SessionLookup;
use tween_accounts::validations::ValidationSession;

fn request() -> RequestToken {
    RequestToken {
        client_secret: "secret".to_owned(),
        country: "NG".to_owned(),
        phone_number: "08012345678".to_owned(),
        next_link: Some(" /home ".to_owned()),
    }
}

fn drawn() -> Drawn {
    Drawn {
        sid: ulid::Ulid::from_string("01J0RZ4N0P7E5A9F2C6B3D8H5K").unwrap().0,
        number: 4711,
    }
}

fn submission() -> SubmitToken {
    SubmitToken {
        sid: "01J0RZ4N0P7E5A9F2C6B3D8H5K".to_owned(),
        client_secret: "secret".to_owned(),
        token: "004711".to_owned(),
    }
}

fn at(seconds: i64) -> Instant {
    Instant { seconds, nanos: 0 }
}

/// The session of [`request`], made at second 1000.
fn session() -> ValidationSession {
    ValidationSession {
        secret_hash: sha256("secret"),
        token_hash: sha256("004711"),
        phone_number: "+2348012345678".to_owned(),
        next_link: Some("/home".to_owned()),
        expires_at: at(1300),
        validated_at: None,
    }
}

fn found(session: ValidationSession, now: Instant) -> SubmitAnswers {
    let mut known = SubmitAnswers::new();
    known.within_limit = Some(true);
    known.session = Some(SessionLookup::Found { session, now });
    known
}

/// Whether a session takes the code of [`submission`].
fn takes(session: ValidationSession, now: Instant) -> bool {
    let input = submission();
    match submit_token(&input, &found(session, now)) {
        Flow::Ask(SubmitAsk::MarkValidated(sid)) => {
            assert_eq!(sid, &input.sid);
            true
        }
        Flow::Reply(SubmitResponse { status: 400, success: false }) => false,
        other => panic!("neither taken nor refused: {other:?}"),
    }
}

fn refused<A: std::fmt::Debug, T: std::fmt::Debug>(flow: Flow<A, T>) -> ErrorResponse {
    match flow {
        Flow::Refuse(e) => e,
        other => panic!("not refused: {other:?}"),
    }
}

#[test]
fn hashes_are_deterministic_and_not_plaintext() {
    assert_eq!(sha256("secret"), sha256("secret"));
    assert_ne!(sha256("secret"), b"secret");
}

#[test]
fn hashes_are_sha256() {
    let hex: String = sha256("abc").iter().map(|b| format!("{b:02x}")).collect();
    assert_eq!(hex, "ba7816bf8f01cfea414140de5dae2223b00361a396177a9cb410ff61f20015ad");
    assert_ne!(sha256("a"), sha256("b"));
}

#[test]
fn only_relative_next_links_survive() {
    assert_eq!(safe_next_link(Some("/home")).as_deref(), Some("/home"));
    assert_eq!(
        safe_next_link(Some("  /settings  ")).as_deref(),
        Some("/settings")
    );
    assert_eq!(safe_next_link(None), None);
    // Absolute, protocol-relative and backslash tricks are all dropped.
    assert_eq!(safe_next_link(Some("https://evil.example/phish")), None);
    assert_eq!(safe_next_link(Some("//evil.example")), None);
    assert_eq!(safe_next_link(Some("/\\evil.example")), None);
    assert_eq!(safe_next_link(Some("javascript:alert(1)")), None);
}

#[test]
fn kept_links_are_kept_again() {
    assert_eq!(safe_next_link(Some("/")).as_deref(), Some("/"));
    assert_eq!(safe_next_link(Some("")), None);
    let once = safe_next_link(Some("\u{a0}/a//b\n")).unwrap();
    assert_eq!(once, "/a//b");
    assert_eq!(safe_next_link(Some(&once)), Some(once.clone()));
}

#[test]
fn links_to_other_hosts_do_not_hide_behind_breaks() {
    // A browser leaves tabs and line breaks out of a link.
    assert_eq!(safe_next_link(Some("/\t/evil.example")), None);
    assert_eq!(safe_next_link(Some("/\r\n\\evil.example")), None);
    assert_eq!(safe_next_link(Some("/\n\t\r//evil.example")), None);
    assert_eq!(safe_next_link(Some("/\thome")).as_deref(), Some("/\thome"));
    assert_eq!(safe_next_link(Some("/a\t/b")).as_deref(), Some("/a\t/b"));
}

#[test]
fn a_code_is_stored_sent_and_answered() {
    let input = request();
    let mut known = TokenAnswers::new();
    assert_eq!(request_token(&input, &known), Flow::Ask(TokenAsk::Draw));
    known.drawn = Some(drawn());
    assert_eq!(
        request_token(&input, &known),
        Flow::Ask(TokenAsk::CheckLimit("+2348012345678".to_owned()))
    );
    known.within_limit = Some(true);
    assert_eq!(
        request_token(&input, &known),
        Flow::Ask(TokenAsk::StoreValidation {
            sid: "01J0RZ4N0P7E5A9F2C6B3D8H5K".to_owned(),
            secret_hash: sha256("secret"),
            phone: "+2348012345678".to_owned(),
            token_hash: sha256("004711"),
            next_link: Some("/home".to_owned()),
            lifetime: 300,
        })
    );
    known.stored = Some(true);
    assert_eq!(
        request_token(&input, &known),
        Flow::Ask(TokenAsk::SendCode {
            to: "+2348012345678".to_owned(),
            token: "004711".to_owned(),
            key: "matrix-msisdn-01J0RZ4N0P7E5A9F2C6B3D8H5K".to_owned(),
        })
    );
    let answer = Flow::Reply(TokenResponse {
        sid: "01J0RZ4N0P7E5A9F2C6B3D8H5K".to_owned(),
        submit_url: "/_matrix/identity/api/v2/validate/msisdn/submitToken".to_owned(),
    });
    known.receipt =
        Some(Some(DeliveryReceipt { channel: "sms".to_owned(), message_id: None }));
    assert_eq!(request_token(&input, &known), answer);
    known.receipt = Some(Some(DeliveryReceipt {
        channel: "sms".to_owned(),
        message_id: Some("msg_1".to_owned()),
    }));
    assert_eq!(
        request_token(&input, &known),
        Flow::Ask(TokenAsk::RecordMessage {
            session: "01J0RZ4N0P7E5A9F2C6B3D8H5K".to_owned(),
            message_id: "msg_1".to_owned(),
            status: "accepted",
        })
    );
    known.message_recorded = true;
    assert_eq!(request_token(&input, &known), answer);
}

#[test]
fn malformed_token_requests_are_refused() {
    let broken = |change: fn(&mut RequestToken)| {
        let mut input = request();
        change(&mut input);
        refused(request_token(&input, &TokenAnswers::new()))
    };
    let expected = ErrorResponse {
        status: 400,
        errcode: "M_INVALID_PARAM",
        error: "Invalid phone verification parameters",
    };
    assert_eq!(broken(|i| i.client_secret.clear()), expected);
    assert_eq!(broken(|i| i.client_secret = "x".repeat(256)), expected);
    assert_eq!(broken(|i| i.country = "NGA".to_owned()), expected);
    assert_eq!(broken(|i| i.country = "N".to_owned()), expected);
    assert_eq!(broken(|i| i.phone_number = "  ".to_owned()), expected);
    assert_eq!(broken(|i| i.phone_number = "1".repeat(33)), expected);
    // Lengths are counted in bytes.
    assert_eq!(broken(|i| i.client_secret = "é".repeat(128)), expected);
    let mut longest = request();
    longest.client_secret = "x".repeat(255);
    longest.country = "é".to_owned();
    assert_eq!(request_token(&longest, &TokenAnswers::new()), Flow::Ask(TokenAsk::Draw));
}

#[test]
fn token_requests_fail_as_their_steps_do() {
    let mut input = request();
    let mut known = TokenAnswers::new();
    known.drawn = Some(drawn());
    input.phone_number = "12".to_owned();
    assert_eq!(
        refused(request_token(&input, &known)),
        ErrorResponse { status: 400, errcode: "M_INVALID_PARAM", error: "Invalid phone number" }
    );
    let input = request();
    known.within_limit = Some(false);
    assert_eq!(
        refused(request_token(&input, &known)),
        ErrorResponse {
            status: 429,
            errcode: "M_LIMIT_EXCEEDED",
            error: "Too many verification requests. Please try again later.",
        }
    );
    known.within_limit = Some(true);
    known.stored = Some(false);
    assert_eq!(
        refused(request_token(&input, &known)),
        ErrorResponse {
            status: 500,
            errcode: "M_UNKNOWN",
            error: "Could not create validation session",
        }
    );
    known.stored = Some(true);
    known.receipt = Some(None);
    assert_eq!(
        refused(request_token(&input, &known)),
        ErrorResponse {
            status: 502,
            errcode: "M_UNKNOWN",
            error: "Could not deliver validation code",
        }
    );
}

#[test]
fn codes_keep_their_leading_zeros() {
    let code = |number: u32| {
        let mut known = TokenAnswers::new();
        known.drawn = Some(Drawn { sid: 1, number });
        known.within_limit = Some(true);
        known.stored = Some(true);
        match request_token(&request(), &known) {
            Flow::Ask(TokenAsk::SendCode { token, .. }) => token,
            other => panic!("no code: {other:?}"),
        }
    };
    assert_eq!(code(0), "000000");
    assert_eq!(code(7), "000007");
    assert_eq!(code(123_456), "123456");
    assert_eq!(code(999_999), "999999");
    assert_eq!(TOKEN_NUMBERS, 1_000_000);
    assert_eq!(code(TOKEN_NUMBERS - 1).len(), TOKEN_LEN);
}

#[test]
fn submitted_codes_are_taken_step_by_step() {
    let input = submission();
    let mut known = SubmitAnswers::new();
    assert_eq!(submit_token(&input, &known), Flow::Ask(SubmitAsk::CheckAttempt(&input.sid)));
    assert_eq!(submit_token_get(&input, &known), Flow::Ask(SubmitAsk::CheckAttempt(&input.sid)));
    known.within_limit = Some(true);
    assert_eq!(submit_token(&input, &known), Flow::Ask(SubmitAsk::FindSession(&input.sid)));
    assert_eq!(submit_token_get(&input, &known), Flow::Ask(SubmitAsk::FindSession(&input.sid)));
    known.session = Some(SessionLookup::Found { session: session(), now: at(1299) });
    assert_eq!(submit_token(&input, &known), Flow::Ask(SubmitAsk::MarkValidated(&input.sid)));
    assert_eq!(submit_token_get(&input, &known), Flow::Ask(SubmitAsk::MarkValidated(&input.sid)));
    known.marked = Some(true);
    assert_eq!(
        submit_token(&input, &known),
        Flow::Reply(SubmitResponse { status: 200, success: true })
    );
    let refusal = || Flow::Reply(SubmitResponse { status: 400, success: false });
    known.marked = Some(false);
    assert_eq!(submit_token(&input, &known), refusal());
    known.marked = None;
    for session in [SessionLookup::Failed, SessionLookup::Missing] {
        known.session = Some(session);
        assert_eq!(submit_token(&input, &known), refusal());
    }
    known.within_limit = Some(false);
    assert_eq!(
        refused(submit_token(&input, &known)),
        ErrorResponse {
            status: 429,
            errcode: "M_LIMIT_EXCEEDED",
            error: "Too many attempts. Please request a new code.",
        }
    );
}

#[test]
fn codes_are_taken_where_they_match() {
    assert!(takes(session(), at(1000)));
    assert!(takes(session(), Instant { seconds: 1299, nanos: 999_999_999 }));
    // The session expires at that very instant.
    assert!(!takes(session(), at(1300)));
    assert!(!takes(session(), at(9000)));
    let mut other = session();
    other.secret_hash = sha256("another");
    assert!(!takes(other, at(1000)));
    let mut other = session();
    other.token_hash = sha256("004712");
    assert!(!takes(other, at(1000)));
    // A hash that is only the start of the right one is another one.
    let mut other = session();
    other.token_hash.pop();
    assert!(!takes(other, at(1000)));
}

#[test]
fn codes_are_taken_once() {
    let mut taken = session();
    assert!(takes(session(), at(1010)));
    taken.validated_at = Some(at(1010));
    assert!(!takes(taken, at(1011)));
    let mut taken = session();
    taken.validated_at = Some(at(1010));
    assert_eq!(
        submit_token_get(&submission(), &found(taken, at(1011))),
        Flow::Reply(SubmitPage::Text { status: 400, text: "Validation failed" })
    );
}

#[test]
fn stored_sessions_take_the_code_that_was_sent() {
    let mut known = TokenAnswers::new();
    known.drawn = Some(drawn());
    known.within_limit = Some(true);
    let Flow::Ask(TokenAsk::StoreValidation {
        sid,
        secret_hash,
        phone,
        token_hash,
        next_link,
        lifetime,
    }) = request_token(&request(), &known)
    else {
        panic!("nothing is stored");
    };
    assert_eq!(sid, submission().sid);
    let stored = ValidationSession {
        secret_hash,
        token_hash,
        phone_number: phone,
        next_link,
        expires_at: at(1000 + i64::from(lifetime)),
        validated_at: None,
    };
    assert_eq!(stored, session());
    assert!(takes(stored, at(1299)));
}

#[test]
fn submitted_links_redirect_or_say_what_happened() {
    let input = submission();
    let page = |known: &SubmitAnswers| match submit_token_get(&input, known) {
        Flow::Reply(SubmitPage::RedirectTo(link)) => format!("-> {link}"),
        Flow::Reply(SubmitPage::Text { status, text }) => format!("{status} {text}"),
        other => panic!("no page: {other:?}"),
    };
    let mut known = found(session(), at(1000));
    known.marked = Some(true);
    assert_eq!(page(&known), "-> /home");
    known.marked = Some(false);
    assert_eq!(page(&known), "400 Validation failed");
    let mut plain = session();
    plain.next_link = None;
    let mut known = found(plain, at(1000));
    known.marked = Some(true);
    assert_eq!(page(&known), "200 Phone number validated");
    known.session = Some(SessionLookup::Missing);
    assert_eq!(page(&known), "400 Validation failed");
    known.session = Some(SessionLookup::Failed);
    assert_eq!(page(&known), "400 Validation failed");
    known.within_limit = Some(false);
    assert_eq!(page(&known), "429 Too many attempts");
}

#[test]
fn claims_hand_the_number_over() {
    let input = Claim {
        sid: "01J0RZ4N0P7E5A9F2C6B3D8H5K".to_owned(),
        client_secret: "secret".to_owned(),
        user_id: "9f1c2f38-46a1-4d3b-8f2e-3b1f0a52c0d9".to_owned(),
    };
    let Flow::Ask(ask) = claim(&input, None) else {
        panic!("nothing asked");
    };
    assert_eq!(ask.user_id, &input.user_id);
    assert_eq!(ask.sid, &input.sid);
    assert_eq!(ask.secret_hash, sha256("secret"));
    let number = "+2348012345678".to_owned();
    assert_eq!(
        claim(&input, Some(&Claimed::Number(number.clone()))),
        Flow::Reply(ClaimResponse::Success { phone_number: &number })
    );
    assert_eq!(
        claim(&input, Some(&Claimed::Nothing)),
        Flow::Reply(ClaimResponse::Failure {
            status: 400,
            error: "The number was not verified, or another account already has it",
        })
    );
    assert_eq!(
        claim(&input, Some(&Claimed::Failed)),
        Flow::Reply(ClaimResponse::Failure { status: 500, error: "Internal error" })
    );
}
