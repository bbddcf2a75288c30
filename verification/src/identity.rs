//! Phone numbers as proof of who someone is: a code is sent to the number, and the
//! number can be claimed once the code came back.

use crate::convert::client::DeliveryReceipt;
use crate::ids::encode_ulid;
use crate::numerals::padded;
use crate::phone_number::normalize_phone;
use crate::reply::error;
use crate::reply::ErrorResponse;
use crate::reply::Flow;
use crate::text::byte_len;
use crate::text::chars_of;
use crate::validations::SessionLookup;
use crate::validations::ValidationSession;
use vstd::prelude::*;
use vstd::string::StringExecFns;

verus! {

/// The number of digits of a verification code.
pub const TOKEN_LEN: usize = 6;

/// The numbers that make a verification code are those below this one.
pub const TOKEN_NUMBERS: u32 = 1_000_000;

/// How long a verification code can be used, in seconds.
pub const TOKEN_LIFETIME: u32 = 300;

/// The delivery status of a message that Convert accepted.
pub const ACCEPTED: &'static str = "accepted";

/// Where codes are submitted.
pub const SUBMIT_URL: &'static str = "/_matrix/identity/api/v2/validate/msisdn/submitToken";

/// A request for a verification code.
#[derive(Debug)]
pub struct RequestToken {
    pub client_secret: String,
    pub country: String,
    pub phone_number: String,
    pub next_link: Option<String>,
}

/// The answer to a request for a verification code.
#[derive(Debug, PartialEq, Eq)]
pub struct TokenResponse {
    pub sid: String,
    pub submit_url: String,
}

/// A verification code that came back.
#[derive(Debug)]
pub struct SubmitToken {
    pub sid: String,
    pub client_secret: String,
    pub token: String,
}

/// Attach a proved number to the account that proved it.
///
/// The code is verified before the account exists, so the number is claimed
/// after: the validation is the proof, and this consumes it.
#[derive(Debug)]
pub struct Claim {
    pub sid: String,
    pub client_secret: String,
    pub user_id: String,
}

/// The SHA-256 digest of some bytes.
pub uninterp spec fn sha256_digest(bytes: Seq<u8>) -> Seq<u8>;

/// `sha2::Sha256::digest` hashes bytes to 32 bytes, which the name [`sha256_digest`]
/// stands for.
#[verifier::external_body]
fn digest(bytes: &[u8]) -> (r: Vec<u8>)
    ensures
        r@ == sha256_digest(bytes@),
        r@.len() == 32,
{
    <sha2::Sha256 as sha2::Digest>::digest(bytes).to_vec()
}

/// The hash that is kept of a text in its place.
pub open spec fn hash_of(text: Seq<char>) -> Seq<u8> {
    sha256_digest(vstd::utf8::encode_utf8(text))
}

/// The SHA-256 digest of a text.
pub fn sha256(value: &str) -> (r: Vec<u8>)
    ensures
        r@ == hash_of(value@),
        r@.len() == 32,
{
    digest(value.as_bytes())
}

/// The first character of `s`, from `from` on, that a browser does not leave out of a
/// link: it leaves tabs and line breaks out.
pub open spec fn first_kept(s: Seq<char>, from: int) -> Option<char>
    decreases s.len() - from,
{
    if 0 <= from < s.len() {
        if s[from] == '\t' || s[from] == '\n' || s[from] == '\r' {
            first_kept(s, from + 1)
        } else {
            Some(s[from])
        }
    } else {
        None
    }
}

/// Whether `s` is a path on the same origin: it starts with one slash, and not with
/// what a browser takes for the start of another host.
pub open spec fn is_relative_link(s: Seq<char>) -> bool {
    &&& s.len() > 0
    &&& s[0] == '/'
    &&& first_kept(s, 1) != Some('/')
    &&& first_kept(s, 1) != Some('\\')
}

fn is_relative(chars: &Vec<char>) -> (r: bool)
    ensures
        r == is_relative_link(chars@),
{
    if chars.len() == 0 || chars[0] != '/' {
        return false;
    }
    let mut i: usize = 1;
    while i < chars.len()
        invariant
            1 <= i <= chars@.len(),
            chars@[0] == '/',
            first_kept(chars@, 1) == first_kept(chars@, i as int),
        decreases chars@.len() - i,
    {
        let c = chars[i];
        if c != '\t' && c != '\n' && c != '\r' {
            return c != '/' && c != '\\';
        }
        i = i + 1;
    }
    true
}

/// What is kept of a link that a client sent.
pub open spec fn kept_link(link: Option<Seq<char>>) -> Option<Seq<char>> {
    match link {
        Some(text) => if is_relative_link(crate::text::trimmed(text)) {
            Some(crate::text::trimmed(text))
        } else {
            None
        },
        None => None,
    }
}

/// Only same-origin, relative `next_link` values are honoured.
///
/// `next_link` is client-supplied, so echoing an absolute URL back as a
/// redirect turns this endpoint into an open redirect: a phishing hop that
/// looks like it came from the homeserver. Anything that is not a plain
/// relative path is dropped, and the caller gets the normal success response
/// instead of a redirect.
#[must_use]
pub fn safe_next_link(next_link: Option<&str>) -> (r: Option<String>)
    ensures
        crate::text::contents(r) == kept_link(
            match next_link {
                Some(text) => Some(text@),
                None => None,
            },
        ),
{
    let link = match next_link {
        None => {
            return None;
        },
        Some(text) => text.trim(),
    };
    if is_relative(&chars_of(link)) {
        return Some(link.to_owned());
    }
    None
}

/// The code that a drawn number makes.
pub open spec fn token_of(number: u32) -> Seq<char> {
    crate::numerals::zero_padded(crate::numerals::decimal(number as nat), TOKEN_LEN as nat)
}

/// The key under which Convert delivers the code of a session once.
pub open spec fn delivery_key(sid: u128) -> Seq<char> {
    "matrix-msisdn-"@ + crate::ids::ulid_text(sid)
}

/// What was drawn for a session: its identifier and the number that makes the code.
#[derive(Debug, Clone, Copy, PartialEq, Eq, Structural)]
pub struct Drawn {
    pub sid: u128,
    /// A number below [`TOKEN_NUMBERS`].
    pub number: u32,
}

/// What a request for a verification code asks for, or has done.
#[derive(Debug, PartialEq, Eq)]
pub enum TokenAsk {
    /// Draw an identifier and a number at random.
    Draw,
    /// Whether the requester may have a code sent to this number now.
    CheckLimit(String),
    /// Keep the session, for so many seconds.
    StoreValidation {
        sid: String,
        secret_hash: Vec<u8>,
        phone: String,
        token_hash: Vec<u8>,
        next_link: Option<String>,
        lifetime: u32,
    },
    /// Send the code through Convert.
    SendCode { to: String, token: String, key: String },
    /// Note which message carries the code of the session and its delivery status, so
    /// that a later delivery webhook finds it.
    RecordMessage { session: String, message_id: String, status: &'static str },
}

/// The contents of a [`TokenAsk`].
pub enum TokenAskView {
    Draw,
    CheckLimit(Seq<char>),
    StoreValidation {
        sid: Seq<char>,
        secret_hash: Seq<u8>,
        phone: Seq<char>,
        token_hash: Seq<u8>,
        next_link: Option<Seq<char>>,
        lifetime: u32,
    },
    SendCode { to: Seq<char>, token: Seq<char>, key: Seq<char> },
    RecordMessage { session: Seq<char>, message_id: Seq<char>, status: Seq<char> },
}

impl View for TokenAsk {
    type V = TokenAskView;

    open spec fn view(&self) -> TokenAskView {
        match self {
            TokenAsk::Draw => TokenAskView::Draw,
            TokenAsk::CheckLimit(phone) => TokenAskView::CheckLimit(phone@),
            TokenAsk::StoreValidation {
                sid,
                secret_hash,
                phone,
                token_hash,
                next_link,
                lifetime,
            } => TokenAskView::StoreValidation {
                sid: sid@,
                secret_hash: secret_hash@,
                phone: phone@,
                token_hash: token_hash@,
                next_link: crate::text::contents(*next_link),
                lifetime: *lifetime,
            },
            TokenAsk::SendCode { to, token, key } => TokenAskView::SendCode {
                to: to@,
                token: token@,
                key: key@,
            },
            TokenAsk::RecordMessage { session, message_id, status } =>
            TokenAskView::RecordMessage {
                session: session@,
                message_id: message_id@,
                status: status@,
            },
        }
    }
}

/// The answers that a request for a verification code has had so far.
#[derive(Debug)]
pub struct TokenAnswers {
    pub drawn: Option<Drawn>,
    pub within_limit: Option<bool>,
    /// Whether the session could be kept.
    pub stored: Option<bool>,
    /// The receipt of the message, if it could be sent.
    pub receipt: Option<Option<DeliveryReceipt>>,
    /// Whether the message was noted, or tried to be.
    pub message_recorded: bool,
}

impl TokenAnswers {
    /// No answer yet.
    pub fn new() -> (r: Self)
        ensures
            r.drawn is None,
            r.within_limit is None,
            r.stored is None,
            r.receipt is None,
            !r.message_recorded,
    {
        TokenAnswers {
            drawn: None,
            within_limit: None,
            stored: None,
            receipt: None,
            message_recorded: false,
        }
    }
}

/// Whether a request for a verification code is of the right form.
pub open spec fn is_well_formed(input: RequestToken) -> bool {
    &&& input.client_secret@.len() > 0
    &&& crate::text::utf8_len(input.client_secret@) <= 255
    &&& crate::text::utf8_len(input.country@) == 2
    &&& crate::text::trimmed(input.phone_number@).len() > 0
    &&& crate::text::utf8_len(input.phone_number@) <= 32
}

/// What is done about a request for a code to a number in E.164.
pub open spec fn number_request_next(
    input: RequestToken,
    drawn: Drawn,
    phone: Seq<char>,
    known: TokenAnswers,
) -> Flow<TokenAskView, (Seq<char>, Seq<char>)> {
    let sid = crate::ids::ulid_text(drawn.sid);
    match known.within_limit {
        None => Flow::Ask(TokenAskView::CheckLimit(phone)),
        Some(false) => Flow::Refuse(
            ErrorResponse {
                status: 429,
                errcode: "M_LIMIT_EXCEEDED",
                error: "Too many verification requests. Please try again later.",
            },
        ),
        Some(true) => match known.stored {
            None => Flow::Ask(
                TokenAskView::StoreValidation {
                    sid,
                    secret_hash: hash_of(input.client_secret@),
                    phone,
                    token_hash: hash_of(token_of(drawn.number)),
                    next_link: kept_link(crate::text::contents(input.next_link)),
                    lifetime: TOKEN_LIFETIME,
                },
            ),
            Some(false) => Flow::Refuse(
                ErrorResponse {
                    status: 500,
                    errcode: "M_UNKNOWN",
                    error: "Could not create validation session",
                },
            ),
            Some(true) => match known.receipt {
                None => Flow::Ask(
                    TokenAskView::SendCode {
                        to: phone,
                        token: token_of(drawn.number),
                        key: delivery_key(drawn.sid),
                    },
                ),
                Some(None) => Flow::Refuse(
                    ErrorResponse {
                        status: 502,
                        errcode: "M_UNKNOWN",
                        error: "Could not deliver validation code",
                    },
                ),
                Some(Some(receipt)) => if receipt.message_id is Some && !known.message_recorded {
                    Flow::Ask(
                        TokenAskView::RecordMessage {
                            session: sid,
                            message_id: receipt.message_id->0@,
                            status: ACCEPTED@,
                        },
                    )
                } else {
                    Flow::Reply((sid, SUBMIT_URL@))
                },
            },
        },
    }
}

/// The next thing that a request for a verification code asks for, or the answer: the
/// session and where its code is submitted.
pub open spec fn request_token_next(input: RequestToken, known: TokenAnswers) -> Flow<
    TokenAskView,
    (Seq<char>, Seq<char>),
> {
    if !is_well_formed(input) {
        Flow::Refuse(
            ErrorResponse {
                status: 400,
                errcode: "M_INVALID_PARAM",
                error: "Invalid phone verification parameters",
            },
        )
    } else {
        match known.drawn {
            None => Flow::Ask(TokenAskView::Draw),
            Some(drawn) => match crate::phone_number::e164(input.country@, input.phone_number@) {
                None => Flow::Refuse(
                    ErrorResponse {
                        status: 400,
                        errcode: "M_INVALID_PARAM",
                        error: "Invalid phone number",
                    },
                ),
                Some(phone) => number_request_next(input, drawn, phone, known),
            },
        }
    }
}

/// A step of a request for a verification code, with its texts taken as sequences of
/// characters.
pub open spec fn token_view(flow: Flow<TokenAsk, TokenResponse>) -> Flow<
    TokenAskView,
    (Seq<char>, Seq<char>),
> {
    match flow {
        Flow::Ask(ask) => Flow::Ask(ask@),
        Flow::Reply(response) => Flow::Reply((response.sid@, response.submit_url@)),
        Flow::Refuse(e) => Flow::Refuse(e),
        Flow::Fail(reason) => Flow::Fail(reason),
    }
}

fn send_to_number(
    input: &RequestToken,
    drawn: Drawn,
    phone: String,
    known: &TokenAnswers,
) -> (r: Flow<TokenAsk, TokenResponse>)
    ensures
        token_view(r) == number_request_next(*input, drawn, phone@, *known),
{
    // Every accepted request sends a real message on our Convert account, so
    // the limits are checked before anything is stored or sent.
    match known.within_limit {
        None => {
            return Flow::Ask(TokenAsk::CheckLimit(phone));
        },
        Some(false) => {
            return Flow::Refuse(
                error(
                    429,
                    "M_LIMIT_EXCEEDED",
                    "Too many verification requests. Please try again later.",
                ),
            );
        },
        Some(true) => {},
    }
    let sid = encode_ulid(drawn.sid);
    let token = padded(drawn.number, TOKEN_LEN);
    match known.stored {
        None => {
            return Flow::Ask(
                TokenAsk::StoreValidation {
                    sid,
                    secret_hash: sha256(input.client_secret.as_str()),
                    phone,
                    token_hash: sha256(token.as_str()),
                    next_link: safe_next_link(
                        match &input.next_link {
                            Some(link) => Some(link.as_str()),
                            None => None,
                        },
                    ),
                    lifetime: TOKEN_LIFETIME,
                },
            );
        },
        Some(false) => {
            return Flow::Refuse(error(500, "M_UNKNOWN", "Could not create validation session"));
        },
        Some(true) => {},
    }
    match &known.receipt {
        None => {
            let mut key = "matrix-msisdn-".to_owned();
            key.append(sid.as_str());
            Flow::Ask(TokenAsk::SendCode { to: phone, token, key })
        },
        Some(None) => Flow::Refuse(error(502, "M_UNKNOWN", "Could not deliver validation code")),
        Some(Some(receipt)) => {
            // Convert's message_id is acceptance, not delivery — recording it is what
            // lets a later delivery webhook find this session. Best effort: the message
            // is already sent, so a bookkeeping failure must not become a client retry
            // (which would send a second code).
            if let Some(id) = &receipt.message_id {
                if !known.message_recorded {
                    return Flow::Ask(
                        TokenAsk::RecordMessage {
                            session: sid,
                            message_id: id.clone(),
                            status: ACCEPTED,
                        },
                    );
                }
            }
            Flow::Reply(TokenResponse { sid, submit_url: SUBMIT_URL.to_owned() })
        },
    }
}

/// Send a verification code to a phone number.
pub fn request_token(input: &RequestToken, known: &TokenAnswers) -> (r: Flow<
    TokenAsk,
    TokenResponse,
>)
    ensures
        token_view(r) == request_token_next(*input, *known),
{
    if input.client_secret.as_str().is_empty() || byte_len(input.client_secret.as_str()) > 255
        || byte_len(input.country.as_str()) != 2 || input.phone_number.as_str().trim().is_empty()
        || byte_len(input.phone_number.as_str()) > 32 {
        return Flow::Refuse(
            error(400, "M_INVALID_PARAM", "Invalid phone verification parameters"),
        );
    }
    let drawn = match known.drawn {
        None => {
            return Flow::Ask(TokenAsk::Draw);
        },
        Some(drawn) => drawn,
    };
    // Convert only accepts E.164 for WhatsApp and SMS, so a national number has
    // to be composed with the country the client sent.
    match normalize_phone(input.country.as_str(), input.phone_number.as_str()) {
        None => Flow::Refuse(error(400, "M_INVALID_PARAM", "Invalid phone number")),
        Some(phone) => send_to_number(input, drawn, phone, known),
    }
}

/// What the handling of a submitted code asks for, or has done.
#[derive(Debug, PartialEq, Eq)]
pub enum SubmitAsk<'a> {
    /// Whether another attempt at this session is allowed now.
    CheckAttempt(&'a String),
    /// Find the session, and hold it until the answer is given: two submissions of one
    /// code wait for each other.
    FindSession(&'a String),
    /// Note that the code came back, at the time at which the session was found.
    MarkValidated(&'a String),
}

/// The contents of a [`SubmitAsk`].
pub enum SubmitAskView {
    CheckAttempt(Seq<char>),
    FindSession(Seq<char>),
    MarkValidated(Seq<char>),
}

impl<'a> View for SubmitAsk<'a> {
    type V = SubmitAskView;

    open spec fn view(&self) -> SubmitAskView {
        match self {
            SubmitAsk::CheckAttempt(sid) => SubmitAskView::CheckAttempt(sid@),
            SubmitAsk::FindSession(sid) => SubmitAskView::FindSession(sid@),
            SubmitAsk::MarkValidated(sid) => SubmitAskView::MarkValidated(sid@),
        }
    }
}

/// The answers that a submitted code has had so far.
#[derive(Debug)]
pub struct SubmitAnswers {
    pub within_limit: Option<bool>,
    pub session: Option<SessionLookup>,
    /// Whether it could be noted that the code came back.
    pub marked: Option<bool>,
}

impl SubmitAnswers {
    /// No answer yet.
    pub fn new() -> (r: Self)
        ensures
            r.within_limit is None,
            r.session is None,
            r.marked is None,
    {
        SubmitAnswers { within_limit: None, session: None, marked: None }
    }
}

/// The next thing that an allowed attempt asks for, or what came of it: the session, if
/// the code was taken.
pub open spec fn attempt_next<'a>(input: SubmitToken, known: &'a SubmitAnswers) -> Flow<
    SubmitAskView,
    Option<&'a ValidationSession>,
> {
    match &known.session {
        None => Flow::Ask(SubmitAskView::FindSession(input.sid@)),
        Some(SessionLookup::Found { session, now }) => if session@.accepts(
            hash_of(input.client_secret@),
            hash_of(input.token@),
            now.since_epoch(),
        ) {
            match known.marked {
                None => Flow::Ask(SubmitAskView::MarkValidated(input.sid@)),
                Some(false) => Flow::Reply(None),
                Some(true) => Flow::Reply(Some(session)),
            }
        } else {
            Flow::Reply(None)
        },
        Some(_) => Flow::Reply(None),
    }
}

fn attempt<'a, 'b>(input: &'a SubmitToken, known: &'b SubmitAnswers) -> (r: Flow<
    SubmitAsk<'a>,
    Option<&'b ValidationSession>,
>)
    ensures
        submit_view(r) == attempt_next(*input, known),
{
    match &known.session {
        None => Flow::Ask(SubmitAsk::FindSession(&input.sid)),
        Some(SessionLookup::Found { session, now }) => {
            let secret_hash = sha256(input.client_secret.as_str());
            let token_hash = sha256(input.token.as_str());
            if !session.accepts(&secret_hash, &token_hash, now) {
                return Flow::Reply(None);
            }
            match known.marked {
                None => Flow::Ask(SubmitAsk::MarkValidated(&input.sid)),
                Some(false) => Flow::Reply(None),
                Some(true) => Flow::Reply(Some(session)),
            }
        },
        Some(_) => Flow::Reply(None),
    }
}

/// The answer to a submitted code.
#[derive(Debug, Clone, Copy, PartialEq, Eq, Structural)]
pub struct SubmitResponse {
    pub status: u16,
    pub success: bool,
}

/// The next thing that a submitted code asks for, or the answer.
pub open spec fn submit_token_next<'a>(input: SubmitToken, known: &'a SubmitAnswers) -> Flow<
    SubmitAskView,
    SubmitResponse,
> {
    match known.within_limit {
        None => Flow::Ask(SubmitAskView::CheckAttempt(input.sid@)),
        Some(false) => Flow::Refuse(
            ErrorResponse {
                status: 429,
                errcode: "M_LIMIT_EXCEEDED",
                error: "Too many attempts. Please request a new code.",
            },
        ),
        Some(true) => match attempt_next(input, known) {
            Flow::Ask(ask) => Flow::Ask(ask),
            Flow::Reply(Some(_)) => Flow::Reply(SubmitResponse { status: 200, success: true }),
            Flow::Reply(None) => Flow::Reply(SubmitResponse { status: 400, success: false }),
            Flow::Refuse(e) => Flow::Refuse(e),
            Flow::Fail(reason) => Flow::Fail(reason),
        },
    }
}

/// A step of a submitted code, with its texts taken as sequences of characters.
pub open spec fn submit_view<'a, T>(flow: Flow<SubmitAsk<'a>, T>) -> Flow<SubmitAskView, T> {
    match flow {
        Flow::Ask(ask) => Flow::Ask(ask@),
        Flow::Reply(response) => Flow::Reply(response),
        Flow::Refuse(e) => Flow::Refuse(e),
        Flow::Fail(reason) => Flow::Fail(reason),
    }
}

/// Take a verification code back.
pub fn submit_token<'a>(input: &'a SubmitToken, known: &SubmitAnswers) -> (r: Flow<
    SubmitAsk<'a>,
    SubmitResponse,
>)
    ensures
        submit_view(r) == submit_token_next(*input, known),
{
    match known.within_limit {
        None => {
            return Flow::Ask(SubmitAsk::CheckAttempt(&input.sid));
        },
        Some(false) => {
            return Flow::Refuse(
                error(429, "M_LIMIT_EXCEEDED", "Too many attempts. Please request a new code."),
            );
        },
        Some(true) => {},
    }
    match attempt(input, known) {
        Flow::Ask(ask) => Flow::Ask(ask),
        Flow::Reply(Some(_)) => Flow::Reply(SubmitResponse { status: 200, success: true }),
        Flow::Reply(None) => Flow::Reply(SubmitResponse { status: 400, success: false }),
        Flow::Refuse(e) => Flow::Refuse(e),
        Flow::Fail(reason) => Flow::Fail(reason),
    }
}

/// The page that answers a submitted code.
#[derive(Debug, PartialEq, Eq)]
pub enum SubmitPage<'a> {
    RedirectTo(&'a String),
    Text { status: u16, text: &'static str },
}

/// The page for what came of an attempt.
pub open spec fn page_of<'a>(taken: Option<&'a ValidationSession>) -> SubmitPage<'a> {
    match taken {
        Some(session) => match &session.next_link {
            Some(link) => SubmitPage::RedirectTo(link),
            None => SubmitPage::Text { status: 200, text: "Phone number validated" },
        },
        None => SubmitPage::Text { status: 400, text: "Validation failed" },
    }
}

/// The next thing that a code submitted by a link asks for, or the page.
pub open spec fn submit_token_get_next<'a>(input: SubmitToken, known: &'a SubmitAnswers) -> Flow<
    SubmitAskView,
    SubmitPage<'a>,
> {
    match known.within_limit {
        None => Flow::Ask(SubmitAskView::CheckAttempt(input.sid@)),
        Some(false) => Flow::Reply(SubmitPage::Text { status: 429, text: "Too many attempts" }),
        Some(true) => match attempt_next(input, known) {
            Flow::Ask(ask) => Flow::Ask(ask),
            Flow::Reply(taken) => Flow::Reply(page_of(taken)),
            Flow::Refuse(e) => Flow::Refuse(e),
            Flow::Fail(reason) => Flow::Fail(reason),
        },
    }
}

/// Take a verification code back that was submitted by a link.
pub fn submit_token_get<'a, 'b>(input: &'a SubmitToken, known: &'b SubmitAnswers) -> (r: Flow<
    SubmitAsk<'a>,
    SubmitPage<'b>,
>)
    ensures
        submit_view(r) == submit_token_get_next(*input, known),
{
    match known.within_limit {
        None => {
            return Flow::Ask(SubmitAsk::CheckAttempt(&input.sid));
        },
        Some(false) => {
            return Flow::Reply(SubmitPage::Text { status: 429, text: "Too many attempts" });
        },
        Some(true) => {},
    }
    match attempt(input, known) {
        Flow::Ask(ask) => Flow::Ask(ask),
        Flow::Reply(Some(session)) => match &session.next_link {
            Some(link) => Flow::Reply(SubmitPage::RedirectTo(link)),
            None => Flow::Reply(SubmitPage::Text { status: 200, text: "Phone number validated" }),
        },
        Flow::Reply(None) => Flow::Reply(
            SubmitPage::Text { status: 400, text: "Validation failed" },
        ),
        Flow::Refuse(e) => Flow::Refuse(e),
        Flow::Fail(reason) => Flow::Fail(reason),
    }
}

/// What a claim asks for: give the number of the session to the user and use the session
/// up, if the session has this hash, was validated and has not expired, and no account
/// has the number. It is one statement, whose effect is
/// [`Kept::after_claim`](crate::validations::Kept::after_claim).
#[derive(Debug, PartialEq, Eq)]
pub struct ClaimAsk<'a> {
    pub user_id: &'a String,
    pub sid: &'a String,
    pub secret_hash: Vec<u8>,
}

/// The contents of a [`ClaimAsk`].
pub struct ClaimAskView {
    pub user_id: Seq<char>,
    pub sid: Seq<char>,
    pub secret_hash: Seq<u8>,
}

impl<'a> View for ClaimAsk<'a> {
    type V = ClaimAskView;

    open spec fn view(&self) -> ClaimAskView {
        ClaimAskView {
            user_id: self.user_id@,
            sid: self.sid@,
            secret_hash: self.secret_hash@,
        }
    }
}

/// What came of giving a number to a user.
#[derive(Debug, PartialEq, Eq)]
pub enum Claimed {
    /// It could not be tried.
    Failed,
    /// No number was given.
    Nothing,
    /// This number was given.
    Number(String),
}

/// The answer to a claim.
#[derive(Debug, PartialEq, Eq)]
pub enum ClaimResponse<'a> {
    Success { phone_number: &'a String },
    Failure { status: u16, error: &'static str },
}

/// The next thing that a claim asks for, or the answer.
pub open spec fn claim_next<'a>(input: Claim, claimed: Option<&'a Claimed>) -> Flow<
    ClaimAskView,
    ClaimResponse<'a>,
> {
    match claimed {
        None => Flow::Ask(
            ClaimAskView {
                user_id: input.user_id@,
                sid: input.sid@,
                secret_hash: hash_of(input.client_secret@),
            },
        ),
        Some(Claimed::Number(phone_number)) => Flow::Reply(
            ClaimResponse::Success { phone_number },
        ),
        Some(Claimed::Nothing) => Flow::Reply(
            ClaimResponse::Failure {
                status: 400,
                error: "The number was not verified, or another account already has it",
            },
        ),
        Some(Claimed::Failed) => Flow::Reply(
            ClaimResponse::Failure { status: 500, error: "Internal error" },
        ),
    }
}

/// A step of a claim, with its texts taken as sequences of characters.
pub open spec fn claim_view<'a>(flow: Flow<ClaimAsk<'a>, ClaimResponse<'a>>) -> Flow<
    ClaimAskView,
    ClaimResponse<'a>,
> {
    match flow {
        Flow::Ask(ask) => Flow::Ask(ask@),
        Flow::Reply(response) => Flow::Reply(response),
        Flow::Refuse(e) => Flow::Refuse(e),
        Flow::Fail(reason) => Flow::Fail(reason),
    }
}

/// Claim the number validated in `sid` for `user_id`
pub fn claim<'a>(input: &'a Claim, claimed: Option<&'a Claimed>) -> (r: Flow<
    ClaimAsk<'a>,
    ClaimResponse<'a>,
>)
    ensures
        claim_view(r) == claim_next(*input, claimed),
{
    match claimed {
        None => Flow::Ask(
            ClaimAsk {
                user_id: &input.user_id,
                sid: &input.sid,
                secret_hash: sha256(input.client_secret.as_str()),
            },
        ),
        Some(Claimed::Number(phone_number)) => Flow::Reply(
            ClaimResponse::Success { phone_number },
        ),
        Some(Claimed::Nothing) => Flow::Reply(
            ClaimResponse::Failure {
                status: 400,
                error: "The number was not verified, or another account already has it",
            },
        ),
        Some(Claimed::Failed) => Flow::Reply(
            ClaimResponse::Failure { status: 500, error: "Internal error" },
        ),
    }
}

/// Nothing is stored or sent before the limits were found to allow it, and then only
/// for a number in E.164.
pub proof fn law_limits_come_first(input: RequestToken, known: TokenAnswers)
    ensures
        request_token_next(input, known) matches Flow::Ask(
            TokenAskView::StoreValidation { phone, .. },
        ) ==> known.within_limit == Some(true) && crate::phone_number::is_e164(phone)
            && crate::phone_number::e164(input.country@, input.phone_number@) == Some(phone),
        request_token_next(input, known) matches Flow::Ask(
            TokenAskView::SendCode { to, .. },
        ) ==> known.within_limit == Some(true) && crate::phone_number::is_e164(to)
            && crate::phone_number::e164(input.country@, input.phone_number@) == Some(to),
{
    crate::phone_number::law_normalized_numbers_are_e164(input.country@, input.phone_number@);
}

/// A code is sent only for a session that was kept, and the session holds the hash of
/// just that code, and the number that it goes to.
pub proof fn law_sent_codes_were_stored(
    input: RequestToken,
    earlier: TokenAnswers,
    later: TokenAnswers,
)
    requires
        earlier.drawn == later.drawn,
        request_token_next(input, earlier) is Ask,
        request_token_next(input, earlier)->Ask_0 is StoreValidation,
        request_token_next(input, later) is Ask,
        request_token_next(input, later)->Ask_0 is SendCode,
    ensures
        later.stored == Some(true),
        ({
            let stored = request_token_next(input, earlier)->Ask_0;
            let sent = request_token_next(input, later)->Ask_0;
            &&& stored->phone == sent->to
            &&& stored->token_hash == hash_of(sent->token)
        }),
{
}

/// A submitted code is answered with 200 where the session is there, holds the hashes of
/// the secret and the code, was not validated before and has not expired, and with 400
/// otherwise. Only in the first case is the session marked.
pub proof fn law_codes_are_taken_where_they_match<'a>(
    kept: crate::validations::Kept,
    now: int,
    input: SubmitToken,
    known: &'a SubmitAnswers,
)
    requires
        known.within_limit == Some(true),
        known.session is Some,
        kept.finds(input.sid@, now, known.session->0),
    ensures
        ({
            let taken = kept.accepts(
                input.sid@,
                hash_of(input.client_secret@),
                hash_of(input.token@),
                now,
            );
            let next = submit_token_next(input, known);
            let page = submit_token_get_next(input, known);
            &&& taken && known.marked is None ==> {
                &&& next == Flow::<SubmitAskView, SubmitResponse>::Ask(
                    SubmitAskView::MarkValidated(input.sid@),
                )
                &&& page == Flow::<SubmitAskView, SubmitPage<'a>>::Ask(
                    SubmitAskView::MarkValidated(input.sid@),
                )
            }
            &&& taken && (known.marked matches Some(true)) ==> {
                &&& next == Flow::<SubmitAskView, SubmitResponse>::Reply(
                    SubmitResponse { status: 200, success: true },
                )
                &&& page is Reply
                &&& page->Reply_0 matches SubmitPage::Text { status, .. } ==> status == 200
            }
            &&& !taken ==> answers_failure(input, known)
        }),
{
}

/// Whether a submitted code is answered with 400, in both ways of submitting one.
pub open spec fn answers_failure<'a>(input: SubmitToken, known: &'a SubmitAnswers) -> bool {
    &&& submit_token_next(input, known) == Flow::<SubmitAskView, SubmitResponse>::Reply(
        SubmitResponse { status: 400, success: false },
    )
    &&& submit_token_get_next(input, known) == Flow::<SubmitAskView, SubmitPage<'a>>::Reply(
        SubmitPage::Text { status: 400, text: "Validation failed" },
    )
}

/// A code is taken once: after a submission that was taken, every other one to that
/// session is answered with 400, whatever it holds, and leaves what is kept as it is.
pub proof fn law_codes_are_taken_once<'a>(
    kept: crate::validations::Kept,
    now: int,
    first: SubmitToken,
    later: int,
    second: SubmitToken,
    known: &'a SubmitAnswers,
)
    requires
        kept.accepts(first.sid@, hash_of(first.client_secret@), hash_of(first.token@), now),
        second.sid@ == first.sid@,
        known.within_limit == Some(true),
        known.session is Some,
        kept.after_submission(
            first.sid@,
            hash_of(first.client_secret@),
            hash_of(first.token@),
            now,
        ).finds(second.sid@, later, known.session->0),
    ensures
        answers_failure(second, known),
        ({
            let after = kept.after_submission(
                first.sid@,
                hash_of(first.client_secret@),
                hash_of(first.token@),
                now,
            );
            after.after_submission(
                second.sid@,
                hash_of(second.client_secret@),
                hash_of(second.token@),
                later,
            ) == after
        }),
{
}

/// The session that a request keeps, made at this time.
pub open spec fn kept_session(ask: TokenAskView, now: int) -> crate::validations::SessionView
    recommends
        ask is StoreValidation,
{
    crate::validations::SessionView {
        secret_hash: ask->secret_hash,
        token_hash: ask->token_hash,
        phone_number: ask->phone,
        next_link: ask->next_link,
        expires_at: now + ask->lifetime * 1_000_000_000,
        validated_at: None,
    }
}

/// Whoever submits the secret of the request and the code that was sent, before the
/// session expires, is answered with success.
pub proof fn law_sent_codes_are_accepted<'a>(
    input: RequestToken,
    requested: TokenAnswers,
    made: int,
    submitted: SubmitToken,
    kept: crate::validations::Kept,
    now: int,
    known: &'a SubmitAnswers,
)
    requires
        request_token_next(input, requested) is Ask,
        request_token_next(input, requested)->Ask_0 is StoreValidation,
        kept.sessions.contains_pair(
            request_token_next(input, requested)->Ask_0->sid,
            kept_session(request_token_next(input, requested)->Ask_0, made),
        ),
        submitted.sid@ == crate::ids::ulid_text(requested.drawn->0.sid),
        submitted.client_secret@ == input.client_secret@,
        submitted.token@ == token_of(requested.drawn->0.number),
        now < made + TOKEN_LIFETIME * 1_000_000_000,
        known.within_limit == Some(true),
        known.session is Some,
        kept.finds(submitted.sid@, now, known.session->0),
        known.marked == Some(true),
    ensures
        submit_token_next(submitted, known) == Flow::<SubmitAskView, SubmitResponse>::Reply(
            SubmitResponse { status: 200, success: true },
        ),
        match kept_link(crate::text::contents(input.next_link)) {
            Some(link) => submit_token_get_next(submitted, known) matches Flow::Reply(
                SubmitPage::RedirectTo(to),
            ) && to@ == link,
            None => submit_token_get_next(submitted, known) == Flow::<
                SubmitAskView,
                SubmitPage<'a>,
            >::Reply(SubmitPage::Text { status: 200, text: "Phone number validated" }),
        },
{
}

/// Once a session expired, no code is taken in it.
pub proof fn law_expired_sessions_take_no_code<'a>(
    kept: crate::validations::Kept,
    now: int,
    input: SubmitToken,
    known: &'a SubmitAnswers,
)
    requires
        kept.sessions.contains_key(input.sid@),
        kept.sessions[input.sid@].expires_at <= now,
        known.within_limit == Some(true),
        known.session is Some,
        kept.finds(input.sid@, now, known.session->0),
    ensures
        answers_failure(input, known),
{
}

/// Whether this is what came of giving a number to a user.
pub open spec fn reports(claimed: Claimed, number: Option<Seq<char>>) -> bool {
    match claimed {
        Claimed::Failed => false,
        Claimed::Nothing => number is None,
        Claimed::Number(text) => number == Some(text@),
    }
}

/// Whether a claim is answered with 400.
pub open spec fn answers_refusal<'a>(input: Claim, claimed: &'a Claimed) -> bool {
    claim_next(input, Some(claimed)) == Flow::<ClaimAskView, ClaimResponse<'a>>::Reply(
        ClaimResponse::Failure {
            status: 400,
            error: "The number was not verified, or another account already has it",
        },
    )
}

/// A claim succeeds, with the number of the session, where the session proves it to who
/// has the secret and no account has the number. It is answered with 400 otherwise.
pub proof fn law_claims_take_a_proof_and_a_free_number<'a>(
    kept: crate::validations::Kept,
    now: int,
    input: Claim,
    claimed: &'a Claimed,
)
    requires
        reports(*claimed, kept.claimable(input.sid@, hash_of(input.client_secret@), now)),
    ensures
        ({
            let sid = input.sid@;
            let given = kept.proves(sid, hash_of(input.client_secret@), now)
                && !kept.owners.contains_key(kept.sessions[sid].phone_number);
            &&& given ==> (claim_next(input, Some(claimed)) matches Flow::Reply(
                ClaimResponse::Success { phone_number },
            ) && phone_number@ == kept.sessions[sid].phone_number)
            &&& !given ==> answers_refusal(input, claimed)
        }),
{
}

/// Once an account has a number, every claim of it is answered with 400 and changes
/// nothing: the number stays where it is, and the session can be claimed with again.
pub proof fn law_a_number_has_one_owner<'a>(
    kept: crate::validations::Kept,
    now: int,
    input: Claim,
    claimed: &'a Claimed,
)
    requires
        kept.sessions.contains_key(input.sid@),
        kept.owners.contains_key(kept.sessions[input.sid@].phone_number),
        reports(*claimed, kept.claimable(input.sid@, hash_of(input.client_secret@), now)),
    ensures
        answers_refusal(input, claimed),
        kept.after_claim(
            input.user_id@,
            input.sid@,
            hash_of(input.client_secret@),
            now,
        ) == kept,
{
}

/// Two claims of one number never both succeed: after the first one got it, the second
/// one is answered with 400, and the number stays with the user of the first.
pub proof fn law_two_claims_of_a_number_never_both_succeed<'a>(
    kept: crate::validations::Kept,
    now: int,
    first: Claim,
    later: int,
    second: Claim,
    claimed: &'a Claimed,
)
    requires
        kept.claimable(first.sid@, hash_of(first.client_secret@), now) is Some,
        ({
            let after = kept.after_claim(
                first.user_id@,
                first.sid@,
                hash_of(first.client_secret@),
                now,
            );
            let hash = hash_of(second.client_secret@);
            &&& after.proves(second.sid@, hash, later) ==> after.sessions[second.sid@].phone_number
                == kept.sessions[first.sid@].phone_number
            &&& reports(*claimed, after.claimable(second.sid@, hash, later))
        }),
    ensures
        answers_refusal(second, claimed),
        kept.after_claim(
            first.user_id@,
            first.sid@,
            hash_of(first.client_secret@),
            now,
        ).after_claim(
            second.user_id@,
            second.sid@,
            hash_of(second.client_secret@),
            later,
        ).owners.contains_pair(kept.sessions[first.sid@].phone_number, first.user_id@),
{
}

/// Whoever claims a number that nobody has gets it, and no claim takes a number away
/// from whoever has it.
pub proof fn law_claims_keep_the_owners(
    kept: crate::validations::Kept,
    now: int,
    input: Claim,
    number: Seq<char>,
)
    ensures
        ({
            let hash = hash_of(input.client_secret@);
            let after = kept.after_claim(input.user_id@, input.sid@, hash, now);
            &&& kept.claimable(input.sid@, hash, now) == Some(number)
                ==> after.owners.contains_pair(number, input.user_id@)
            &&& kept.owners.contains_key(number) ==> after.owners.contains_pair(
                number,
                kept.owners[number],
            )
        }),
{
}

/// A refused claim keeps its session: once the number is free again, a claim with the
/// session gets it, as long as the session has not expired.
pub proof fn law_refused_claims_keep_their_session<'a>(
    kept: crate::validations::Kept,
    now: int,
    first: Claim,
    after: crate::validations::Kept,
    later: int,
    second: Claim,
    claimed: &'a Claimed,
)
    requires
        kept.proves(first.sid@, hash_of(first.client_secret@), now),
        kept.claimable(first.sid@, hash_of(first.client_secret@), now) is None,
        after.sessions == kept.after_claim(
            first.user_id@,
            first.sid@,
            hash_of(first.client_secret@),
            now,
        ).sessions,
        !after.owners.contains_key(kept.sessions[first.sid@].phone_number),
        second.sid@ == first.sid@,
        second.client_secret@ == first.client_secret@,
        later < kept.sessions[first.sid@].expires_at,
        reports(*claimed, after.claimable(second.sid@, hash_of(second.client_secret@), later)),
    ensures
        claim_next(second, Some(claimed)) matches Flow::Reply(
            ClaimResponse::Success { phone_number },
        ) && phone_number@ == kept.sessions[first.sid@].phone_number,
{
}

/// A claim that gets a number uses its session up: whatever becomes of the number,
/// claiming with the same session again is answered with 400.
pub proof fn law_claimed_sessions_are_used_up<'a>(
    kept: crate::validations::Kept,
    now: int,
    first: Claim,
    after: crate::validations::Kept,
    later: int,
    second: Claim,
    claimed: &'a Claimed,
)
    requires
        kept.claimable(first.sid@, hash_of(first.client_secret@), now) is Some,
        after.sessions == kept.after_claim(
            first.user_id@,
            first.sid@,
            hash_of(first.client_secret@),
            now,
        ).sessions,
        second.sid@ == first.sid@,
        reports(*claimed, after.claimable(second.sid@, hash_of(second.client_secret@), later)),
    ensures
        answers_refusal(second, claimed),
{
}

/// Whoever claims with the secret of the request presents the hash that the session
/// holds, under its identifier.
pub proof fn law_claims_present_the_secret(
    input: RequestToken,
    known: TokenAnswers,
    claim: Claim,
)
    requires
        request_token_next(input, known) is Ask,
        request_token_next(input, known)->Ask_0 is StoreValidation,
        claim.sid@ == crate::ids::ulid_text(known.drawn->0.sid),
        claim.client_secret@ == input.client_secret@,
    ensures
        claim_next(claim, None) is Ask,
        claim_next(claim, None)->Ask_0.sid == request_token_next(input, known)->Ask_0->sid,
        claim_next(claim, None)->Ask_0.secret_hash == request_token_next(
            input,
            known,
        )->Ask_0->secret_hash,
{
}

/// Once the code is sent the request succeeds, whether or not the message could be
/// noted, so that no client asks for a second code.
pub proof fn law_bookkeeping_does_not_fail_the_request(input: RequestToken, known: TokenAnswers)
    requires
        is_well_formed(input),
        known.drawn is Some,
        crate::phone_number::e164(input.country@, input.phone_number@) is Some,
        known.within_limit == Some(true),
        known.stored == Some(true),
        known.receipt matches Some(Some(_)),
        known.message_recorded,
    ensures
        request_token_next(input, known) == Flow::<TokenAskView, (Seq<char>, Seq<char>)>::Reply(
            (crate::ids::ulid_text(known.drawn->0.sid), SUBMIT_URL@),
        ),
{
}

/// A code is six digits, and each number that may be drawn makes a code of its own.
pub proof fn law_codes_are_six_digits(number: u32, other: u32)
    requires
        number < TOKEN_NUMBERS,
        other < TOKEN_NUMBERS,
    ensures
        token_of(number).len() == TOKEN_LEN,
        forall|i: int|
            0 <= i < TOKEN_LEN ==> crate::text::is_digit(#[trigger] token_of(number)[i]),
        token_of(number) == token_of(other) ==> number == other,
{
    assert(vstd::arithmetic::power::pow(10, 6) == TOKEN_NUMBERS) by {
        reveal(vstd::arithmetic::power::pow);
        reveal_with_fuel(vstd::arithmetic::power::pow, 7);
    }
    crate::numerals::law_padded_numbers_have_their_width(number as nat, 6);
    crate::numerals::law_padded_numbers_have_their_width(other as nat, 6);
}

/// Each session has a delivery key of its own.
pub proof fn law_delivery_keys_are_distinct(a: u128, b: u128)
    requires
        delivery_key(a) == delivery_key(b),
    ensures
        a == b,
{
    let prefix = "matrix-msisdn-"@;
    assert(delivery_key(a).skip(prefix.len() as int) =~= crate::ids::ulid_text(a));
    assert(delivery_key(b).skip(prefix.len() as int) =~= crate::ids::ulid_text(b));
    crate::ids::law_ulid_text_is_injective(a, b);
}

/// Every link that a session keeps is a path on the same origin.
pub proof fn law_stored_links_are_relative(input: RequestToken, known: TokenAnswers)
    ensures
        request_token_next(input, known) matches Flow::Ask(
            TokenAskView::StoreValidation { next_link: Some(link), .. },
        ) ==> is_relative_link(link),
{
}

/// A link that was kept is kept as it is.
pub proof fn law_kept_links_are_kept(link: Option<Seq<char>>)
    ensures
        kept_link(kept_link(link)) == kept_link(link),
{
    if let Some(text) = link {
        crate::text::law_trimming_is_idempotent(text);
    }
}

impl TokenAskView {
    /// Whether the answers hold the answer to this.
    pub open spec fn answered_in(self, known: TokenAnswers) -> bool {
        match self {
            TokenAskView::Draw => known.drawn is Some,
            TokenAskView::CheckLimit(_) => known.within_limit is Some,
            TokenAskView::StoreValidation { .. } => known.stored is Some,
            TokenAskView::SendCode { .. } => known.receipt is Some,
            TokenAskView::RecordMessage { .. } => known.message_recorded,
        }
    }
}

/// Only what has no answer yet is asked for, so no code is sent twice.
pub proof fn law_token_requests_ask_for_the_missing(input: RequestToken, known: TokenAnswers)
    ensures
        request_token_next(input, known) matches Flow::Ask(ask) ==> !ask.answered_in(known),
{
}

/// A request for a code is refused for its form exactly where the secret is empty or takes
/// more than 255 bytes, where the country does not take two, or where the number is blank or
/// takes more than 32 bytes.
pub proof fn law_requests_are_judged_by_their_form(input: RequestToken, known: TokenAnswers)
    ensures
        ({
            let secret = vstd::utf8::encode_utf8(input.client_secret@).len();
            let country = vstd::utf8::encode_utf8(input.country@).len();
            let number = vstd::utf8::encode_utf8(input.phone_number@).len();
            let good = input.client_secret@.len() > 0 && secret <= 255 && country == 2
                && crate::text::trimmed(input.phone_number@).len() > 0 && number <= 32;
            &&& is_well_formed(input) <==> good
            &&& request_token_next(input, known).refuses(
                400,
                "M_INVALID_PARAM",
                "Invalid phone verification parameters",
            ) <==> !good
        }),
{
}

/// A request of the right form draws a session and a code, needs a number in E.164, and then
/// goes step by step: the limit is checked for that number, the session is kept for five
/// minutes with the hashes of the secret and of the code, the code is sent to the number, the
/// message that carries it is noted as accepted, and the answer is the session and where its
/// code is submitted.
pub proof fn law_codes_are_sent_step_by_step(input: RequestToken, known: TokenAnswers)
    requires
        is_well_formed(input),
    ensures
        ({
            let next = request_token_next(input, known);
            let phone = crate::phone_number::e164(input.country@, input.phone_number@);
            let drawn = known.drawn->0;
            let sid = crate::ids::ulid_text(drawn.sid);
            let going = known.drawn is Some && phone is Some;
            let allowed = going && (known.within_limit matches Some(true));
            let stored = allowed && (known.stored matches Some(true));
            &&& known.drawn is None ==> next.asks(TokenAskView::Draw)
            &&& known.drawn is Some && phone is None ==> next.refuses(
                400,
                "M_INVALID_PARAM",
                "Invalid phone number",
            )
            &&& going && known.within_limit is None ==> next.asks(
                TokenAskView::CheckLimit(phone->0),
            )
            &&& going && (known.within_limit matches Some(false)) ==> next.refuses(
                429,
                "M_LIMIT_EXCEEDED",
                "Too many verification requests. Please try again later.",
            )
            &&& allowed && known.stored is None ==> next.asks(
                TokenAskView::StoreValidation {
                    sid,
                    secret_hash: sha256_digest(vstd::utf8::encode_utf8(input.client_secret@)),
                    phone: phone->0,
                    token_hash: sha256_digest(vstd::utf8::encode_utf8(token_of(drawn.number))),
                    next_link: match input.next_link {
                        Some(link) => kept_link(Some(link@)),
                        None => None,
                    },
                    lifetime: 300,
                },
            )
            &&& allowed && (known.stored matches Some(false)) ==> next.refuses(
                500,
                "M_UNKNOWN",
                "Could not create validation session",
            )
            &&& stored && known.receipt is None ==> next.asks(
                TokenAskView::SendCode {
                    to: phone->0,
                    token: token_of(drawn.number),
                    key: "matrix-msisdn-"@ + sid,
                },
            )
            &&& stored && (known.receipt matches Some(None)) ==> next.refuses(
                502,
                "M_UNKNOWN",
                "Could not deliver validation code",
            )
            &&& stored && (known.receipt matches Some(Some(_))) ==> match known.receipt->0->0.message_id {
                Some(id) => if known.message_recorded {
                    next.replies(
                        (sid, "/_matrix/identity/api/v2/validate/msisdn/submitToken"@),
                    )
                } else {
                    next.asks(
                        TokenAskView::RecordMessage {
                            session: sid,
                            message_id: id@,
                            status: "accepted"@,
                        },
                    )
                },
                None => next.replies(
                    (sid, "/_matrix/identity/api/v2/validate/msisdn/submitToken"@),
                ),
            }
        }),
{
}

/// The code is the drawn number, written with six digits.
pub proof fn law_codes_write_the_drawn_number(number: u32)
    requires
        number < 1_000_000,
    ensures
        token_of(number).len() == 6,
        forall|i: int| 0 <= i < 6 ==> '0' <= #[trigger] token_of(number)[i] <= '9',
        crate::numerals::value_of(token_of(number)) == number,
{
    assert(vstd::arithmetic::power::pow(10, 6) == 1_000_000) by {
        reveal(vstd::arithmetic::power::pow);
        reveal_with_fuel(vstd::arithmetic::power::pow, 7);
    }
    crate::numerals::law_padded_numbers_have_their_width(number as nat, 6);
    assert forall|i: int| 0 <= i < 6 implies '0' <= #[trigger] token_of(number)[i] <= '9' by {
        assert(crate::text::is_digit(token_of(number)[i]));
    }
}

/// What is kept in place of a text is the SHA-256 digest of its UTF-8 form.
pub proof fn law_hashes_are_of_utf8(text: Seq<char>)
    ensures
        hash_of(text) == sha256_digest(vstd::utf8::encode_utf8(text)),
{
}

proof fn first_kept_is_first(s: Seq<char>, from: int, at: int)
    requires
        0 <= from <= at <= s.len(),
        forall|i: int|
            from <= i < at ==> #[trigger] s[i] == '\t' || s[i] == '\n' || s[i] == '\r',
        at < s.len() ==> s[at] != '\t' && s[at] != '\n' && s[at] != '\r',
    ensures
        first_kept(s, from) == if at < s.len() {
            Some(s[at])
        } else {
            None
        },
    decreases at - from,
{
    if from < at {
        first_kept_is_first(s, from + 1, at);
    }
}

/// A link is a path on the same origin exactly where it starts with a slash and the next
/// character, tabs and line breaks aside, is neither a slash nor a backslash.
pub proof fn law_relative_links_start_with_one_slash(s: Seq<char>, at: int)
    requires
        1 <= at <= s.len() || s.len() == 0,
        forall|i: int| 1 <= i < at ==> #[trigger] s[i] == '\t' || s[i] == '\n' || s[i] == '\r',
        at < s.len() ==> s[at] != '\t' && s[at] != '\n' && s[at] != '\r',
    ensures
        is_relative_link(s) <==> s.len() > 0 && s[0] == '/' && (at < s.len() ==> s[at] != '/'
            && s[at] != '\\'),
{
    if s.len() > 0 {
        first_kept_is_first(s, 1, at);
    }
}

/// A link is kept without the white space around it, exactly where it then is a path on the
/// same origin.
pub proof fn law_links_are_kept_trimmed(link: Option<Seq<char>>)
    ensures
        link is None ==> kept_link(link) is None,
        link matches Some(text) ==> if is_relative_link(crate::text::trimmed(text)) {
            kept_link(link) == Some(crate::text::trimmed(text))
        } else {
            kept_link(link) is None
        },
{
}

/// A code that was submitted counts only within the limit. Its session is looked up by the
/// identifier that came with it. Where that takes the secret and the code it is marked, and
/// the answer is success once that is done; otherwise the answer is failure.
pub proof fn law_submitted_codes_go_step_by_step<'a>(input: SubmitToken, known: &'a SubmitAnswers)
    ensures
        ({
            let next = submit_token_next(input, known);
            let allowed = known.within_limit matches Some(true);
            &&& known.within_limit is None ==> next.asks(SubmitAskView::CheckAttempt(input.sid@))
            &&& (known.within_limit matches Some(false)) ==> next.refuses(
                429,
                "M_LIMIT_EXCEEDED",
                "Too many attempts. Please request a new code.",
            )
            &&& allowed ==> match &known.session {
                None => next.asks(SubmitAskView::FindSession(input.sid@)),
                Some(SessionLookup::Found { session, now }) => if session@.accepts(
                    hash_of(input.client_secret@),
                    hash_of(input.token@),
                    now.since_epoch(),
                ) {
                    match known.marked {
                        None => next.asks(SubmitAskView::MarkValidated(input.sid@)),
                        Some(true) => next.replies(SubmitResponse { status: 200, success: true }),
                        Some(false) => next.replies(
                            SubmitResponse { status: 400, success: false },
                        ),
                    }
                } else {
                    next.replies(SubmitResponse { status: 400, success: false })
                },
                Some(_) => next.replies(SubmitResponse { status: 400, success: false }),
            }
        }),
{
}

/// By a link, a code is submitted just as otherwise: the same is asked for at the same time,
/// and the page tells the same. Where the code is taken the page leads to the link that the
/// session kept, if it kept one.
pub proof fn law_links_submit_codes_all_the_same<'a>(input: SubmitToken, known: &'a SubmitAnswers)
    ensures
        ({
            let next = submit_token_next(input, known);
            let page = submit_token_get_next(input, known);
            &&& next matches Flow::Ask(ask) ==> page.asks(ask)
            &&& page matches Flow::Ask(ask) ==> next.asks(ask)
            &&& next is Refuse ==> page.replies(
                SubmitPage::Text { status: 429, text: "Too many attempts" },
            )
            &&& next.replies(SubmitResponse { status: 400, success: false }) ==> page.replies(
                SubmitPage::Text { status: 400, text: "Validation failed" },
            )
            &&& next.replies(SubmitResponse { status: 200, success: true }) ==> {
                &&& (known.session matches Some(SessionLookup::Found { .. }))
                &&& match &known.session->0->session.next_link {
                    Some(link) => page.replies(SubmitPage::RedirectTo(link)),
                    None => page.replies(
                        SubmitPage::Text { status: 200, text: "Phone number validated" },
                    ),
                }
            }
        }),
{
}

/// A claim names the user and the session that came with it and presents the hash of the
/// secret. The number that it got is the answer; where it got none, or could not be tried,
/// the answer says so.
pub proof fn law_claims_answer_what_they_got<'a>(input: Claim, claimed: Option<&'a Claimed>)
    ensures
        ({
            let next = claim_next(input, claimed);
            match claimed {
                None => next.asks(
                    ClaimAskView {
                        user_id: input.user_id@,
                        sid: input.sid@,
                        secret_hash: sha256_digest(vstd::utf8::encode_utf8(input.client_secret@)),
                    },
                ),
                Some(Claimed::Number(phone_number)) => next.replies(
                    ClaimResponse::Success { phone_number },
                ),
                Some(Claimed::Nothing) => next.replies(
                    ClaimResponse::Failure {
                        status: 400,
                        error: "The number was not verified, or another account already has it",
                    },
                ),
                Some(Claimed::Failed) => next.replies(
                    ClaimResponse::Failure { status: 500, error: "Internal error" },
                ),
            }
        }),
{
}

/// Taken as sequences, the texts and hashes of a step are those of the step itself, and
/// nothing else of it changes.
pub proof fn law_identity_steps_are_viewed_as_they_are<'a>(
    token: Flow<TokenAsk, TokenResponse>,
    ask: TokenAsk,
    submit: SubmitAsk<'a>,
    claim: ClaimAsk<'a>,
)
    ensures
        token matches Flow::Ask(asked) ==> token_view(token).asks(asked@),
        token matches Flow::Reply(response) ==> token_view(token).replies(
            (response.sid@, response.submit_url@),
        ),
        token matches Flow::Refuse(e) ==> token_view(token).refuses(e.status, e.errcode, e.error),
        token matches Flow::Fail(reason) ==> token_view(token).fails(reason),
        ask is Draw ==> ask@ == TokenAskView::Draw,
        ask matches TokenAsk::CheckLimit(phone) ==> ask@ == TokenAskView::CheckLimit(phone@),
        ask matches TokenAsk::StoreValidation {
            sid,
            secret_hash,
            phone,
            token_hash,
            next_link,
            lifetime,
        } ==> ask@ == (TokenAskView::StoreValidation {
            sid: sid@,
            secret_hash: secret_hash@,
            phone: phone@,
            token_hash: token_hash@,
            next_link: crate::text::contents(next_link),
            lifetime,
        }),
        ask matches TokenAsk::SendCode { to, token, key } ==> ask@ == (TokenAskView::SendCode {
            to: to@,
            token: token@,
            key: key@,
        }),
        ask matches TokenAsk::RecordMessage { session, message_id, status } ==> ask@ == (
        TokenAskView::RecordMessage { session: session@, message_id: message_id@, status: status@ }),
        submit matches SubmitAsk::CheckAttempt(sid) ==> submit@ == SubmitAskView::CheckAttempt(
            sid@,
        ),
        submit matches SubmitAsk::FindSession(sid) ==> submit@ == SubmitAskView::FindSession(sid@),
        submit matches SubmitAsk::MarkValidated(sid) ==> submit@ == SubmitAskView::MarkValidated(
            sid@,
        ),
        claim@.user_id == claim.user_id@,
        claim@.sid == claim.sid@,
        claim@.secret_hash == claim.secret_hash@,
{
}

/// A session is kept as it was asked for: with its hashes, number and link, for as many
/// seconds, and not yet validated.
pub proof fn law_sessions_are_kept_as_asked_for(ask: TokenAskView, now: int)
    ensures
        ask matches TokenAskView::StoreValidation {
            secret_hash,
            phone,
            token_hash,
            next_link,
            lifetime,
            ..
        } ==> {
            let kept = kept_session(ask, now);
            &&& kept.secret_hash == secret_hash
            &&& kept.token_hash == token_hash
            &&& kept.phone_number == phone
            &&& kept.next_link == next_link
            &&& kept.expires_at == now + lifetime * 1_000_000_000
            &&& kept.validated_at is None
        },
{
}

/// A step of a submission or a claim keeps what it answers when its texts are taken as
/// sequences.
pub proof fn law_answers_are_viewed_as_they_are<'a, T>(
    submit: Flow<SubmitAsk<'a>, T>,
    claim: Flow<ClaimAsk<'a>, ClaimResponse<'a>>,
)
    ensures
        submit matches Flow::Ask(ask) ==> submit_view(submit).asks(ask@),
        submit matches Flow::Reply(response) ==> submit_view(submit).replies(response),
        submit matches Flow::Refuse(e) ==> submit_view(submit).refuses(
            e.status,
            e.errcode,
            e.error,
        ),
        submit matches Flow::Fail(reason) ==> submit_view(submit).fails(reason),
        claim matches Flow::Ask(ask) ==> claim_view(claim).asks(ask@),
        claim matches Flow::Reply(response) ==> claim_view(claim).replies(response),
        claim matches Flow::Refuse(e) ==> claim_view(claim).refuses(e.status, e.errcode, e.error),
        claim matches Flow::Fail(reason) ==> claim_view(claim).fails(reason),
{
}

} // verus!
