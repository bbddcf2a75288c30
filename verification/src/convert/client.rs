//! A small client of the Convert API.

use crate::convert::config::configured;
use crate::convert::config::ConvertChannel;
use crate::convert::config::ConvertConfig;
use crate::ids::encode_ulid;
use crate::text::chars_of;
use crate::text::same_if_any;
use crate::text::string_up_to;
use vstd::prelude::*;
use vstd::string::StringExecFns;

verus! {

/// How often a message is tried to be sent.
pub const MAX_ATTEMPTS: usize = 3;

/// How long to wait after the first attempt, in milliseconds.
pub const FIRST_DELAY: u64 = 250;

/// Errors returned while delivering a phone verification message.
#[derive(Debug, PartialEq, Eq)]
pub enum ConvertError {
    /// Convert is not configured.
    NotConfigured,
    /// The request was rejected by Convert.
    Rejected { status: u16, body: String },
    /// A network or serialization error occurred.
    Request,
}

/// Acceptance information returned by Convert after submitting a message.
#[derive(Debug, PartialEq, Eq)]
pub struct DeliveryReceipt {
    /// Channel accepted by Convert.
    pub channel: String,
    /// Convert message identifier.
    pub message_id: Option<String>,
}

impl Clone for DeliveryReceipt {
    fn clone(&self) -> (r: Self)
        ensures
            r == *self,
    {
        DeliveryReceipt {
            channel: self.channel.clone(),
            message_id: same_if_any(&self.message_id),
        }
    }
}

/// What Convert says about a message that it was given.
#[derive(Debug, PartialEq, Eq)]
pub struct MessageResponse {
    pub success: bool,
    pub channel: Option<String>,
    pub message_id: Option<String>,
    pub error: Option<String>,
}

/// The request that hands a message to Convert.
#[derive(Debug, PartialEq, Eq)]
pub struct MessageRequest {
    pub url: String,
    /// The value of the `Authorization` header.
    pub authorization: String,
    /// The value of the `Idempotency-Key` header.
    pub idempotency_key: String,
    pub to: String,
    pub channel: &'static str,
    pub message: String,
    pub test: bool,
}

/// The contents of a [`MessageRequest`].
pub struct RequestView {
    pub url: Seq<char>,
    pub authorization: Seq<char>,
    pub idempotency_key: Seq<char>,
    pub to: Seq<char>,
    pub channel: Seq<char>,
    pub message: Seq<char>,
    pub test: bool,
}

impl View for MessageRequest {
    type V = RequestView;

    open spec fn view(&self) -> RequestView {
        RequestView {
            url: self.url@,
            authorization: self.authorization@,
            idempotency_key: self.idempotency_key@,
            to: self.to@,
            channel: self.channel@,
            message: self.message@,
            test: self.test,
        }
    }
}

/// The settings of a client.
pub struct ClientSettings {
    pub base_url: Seq<char>,
    pub api_key: Option<Seq<char>>,
    pub channel: ConvertChannel,
    pub test: bool,
}

/// Small Convert API client used by the phone verification worker.
#[derive(Debug)]
pub struct ConvertClient {
    base_url: String,
    api_key: Option<String>,
    channel: ConvertChannel,
    test: bool,
}

impl Clone for ConvertClient {
    fn clone(&self) -> (r: Self)
        ensures
            r == *self,
    {
        ConvertClient {
            base_url: self.base_url.clone(),
            api_key: same_if_any(&self.api_key),
            channel: self.channel,
            test: self.test,
        }
    }
}

impl View for ConvertClient {
    type V = ClientSettings;

    closed spec fn view(&self) -> ClientSettings {
        ClientSettings {
            base_url: self.base_url@,
            api_key: crate::text::contents(self.api_key),
            channel: self.channel,
            test: self.test,
        }
    }
}

/// `s` without the slashes it ends with.
pub open spec fn without_trailing_slashes(s: Seq<char>) -> Seq<char>
    decreases s.len(),
{
    if s.len() > 0 && s.last() == '/' {
        without_trailing_slashes(s.drop_last())
    } else {
        s
    }
}

fn trim_slashes(s: &str) -> (r: String)
    ensures
        r@ == without_trailing_slashes(s@),
{
    let chars = chars_of(s);
    let mut n: usize = chars.len();
    assert(chars@.take(n as int) =~= s@);
    while n > 0 && chars[n - 1] == '/'
        invariant
            0 <= n <= chars@.len(),
            without_trailing_slashes(chars@.take(n as int)) == without_trailing_slashes(s@),
        decreases n,
    {
        proof {
            assert(chars@.take(n as int).last() == '/');
            assert(chars@.take(n as int).drop_last() =~= chars@.take(n - 1));
        }
        n = n - 1;
    }
    proof {
        assert(n > 0 ==> chars@.take(n as int).last() == chars@[n - 1]);
    }
    string_up_to(&chars, n)
}

/// The text that a verification code is sent in.
pub open spec fn otp_message(code: Seq<char>) -> Seq<char> {
    "Your Tween verification code is "@ + code + ". It expires in 5 minutes."@
}

/// The request that sends a verification code.
pub open spec fn otp_request(
    settings: ClientSettings,
    api_key: Seq<char>,
    phone_number: Seq<char>,
    code: Seq<char>,
    idempotency_key: Seq<char>,
) -> RequestView {
    RequestView {
        url: settings.base_url + "/messages"@,
        authorization: "Bearer "@ + api_key,
        idempotency_key,
        to: phone_number,
        channel: settings.channel.spec_name()@,
        message: otp_message(code),
        test: settings.test,
    }
}

/// What was read of the body of an answer.
#[derive(Debug, PartialEq, Eq)]
pub enum AnswerBody {
    /// Nothing yet.
    Unread,
    /// What Convert says; `None` where the body does not say it.
    Response(Option<MessageResponse>),
    /// The text as it came.
    Text(String),
}

/// What came of an attempt to hand a message to Convert.
#[derive(Debug, PartialEq, Eq)]
pub enum Attempt {
    /// No answer came.
    Unreachable,
    /// An answer with this HTTP status came.
    Answered { status: u16, body: AnswerBody },
}

/// What sending a message needs next, or what came of it.
#[derive(Debug, PartialEq, Eq)]
pub enum SendNext {
    /// Wait so many milliseconds, then make an attempt with this request.
    Post { delay: u64, request: MessageRequest },
    /// Read the body of the last answer as what Convert says.
    ReadResponse,
    /// Read the body of the last answer as text.
    ReadText,
    Done(Result<DeliveryReceipt, ConvertError>),
}

/// The contents of a [`DeliveryReceipt`].
pub struct ReceiptView {
    pub channel: Seq<char>,
    pub message_id: Option<Seq<char>>,
}

/// The contents of a [`ConvertError`].
pub enum ErrorView {
    NotConfigured,
    Rejected { status: u16, body: Seq<char> },
    Request,
}

/// The contents of a [`SendNext`].
pub enum SendView {
    Post { delay: u64, request: RequestView },
    ReadResponse,
    ReadText,
    Done(Result<ReceiptView, ErrorView>),
}

impl View for DeliveryReceipt {
    type V = ReceiptView;

    open spec fn view(&self) -> ReceiptView {
        ReceiptView {
            channel: self.channel@,
            message_id: crate::text::contents(self.message_id),
        }
    }
}

impl View for ConvertError {
    type V = ErrorView;

    open spec fn view(&self) -> ErrorView {
        match self {
            ConvertError::NotConfigured => ErrorView::NotConfigured,
            ConvertError::Rejected { status, body } => ErrorView::Rejected {
                status: *status,
                body: body@,
            },
            ConvertError::Request => ErrorView::Request,
        }
    }
}

impl View for SendNext {
    type V = SendView;

    open spec fn view(&self) -> SendView {
        match self {
            SendNext::Post { delay, request } => SendView::Post {
                delay: *delay,
                request: request@,
            },
            SendNext::ReadResponse => SendView::ReadResponse,
            SendNext::ReadText => SendView::ReadText,
            SendNext::Done(Ok(receipt)) => SendView::Done(Ok(receipt@)),
            SendNext::Done(Err(e)) => SendView::Done(Err(e@)),
        }
    }
}

/// Whether an HTTP status tells of success.
pub open spec fn is_success(status: u16) -> bool {
    200 <= status < 300
}

/// Whether an HTTP status tells of an error of the server.
pub open spec fn is_server_error(status: u16) -> bool {
    500 <= status < 600
}

/// How long to wait after so many attempts, in milliseconds: twice as long after
/// each.
pub open spec fn retry_delay(attempts: int) -> int
    decreases attempts,
{
    if attempts <= 1 {
        FIRST_DELAY as int
    } else {
        2 * retry_delay(attempts - 1)
    }
}

/// What Convert's word on a message comes to.
pub open spec fn response_result(
    channel: ConvertChannel,
    response: MessageResponse,
) -> Result<ReceiptView, ErrorView> {
    if response.success {
        Ok(
            ReceiptView {
                channel: match response.channel {
                    Some(name) => name@,
                    None => channel.spec_name()@,
                },
                message_id: crate::text::contents(response.message_id),
            },
        )
    } else {
        Err(
            ErrorView::Rejected {
                status: 200,
                body: match response.error {
                    Some(text) => text@,
                    None => "message rejected"@,
                },
            },
        )
    }
}

/// What the last attempt, the one with this number, leads to; `None` to try again.
pub open spec fn attempt_next(channel: ConvertChannel, attempt: Attempt, number: int) -> Option<
    SendView,
> {
    match attempt {
        Attempt::Unreachable => if number >= MAX_ATTEMPTS {
            Some(SendView::Done(Err(ErrorView::Request)))
        } else {
            None
        },
        Attempt::Answered { status, body } => if is_success(status) {
            match body {
                AnswerBody::Response(Some(response)) => Some(
                    SendView::Done(response_result(channel, response)),
                ),
                AnswerBody::Response(None) => Some(SendView::Done(Err(ErrorView::Request))),
                _ => Some(SendView::ReadResponse),
            }
        } else {
            match body {
                AnswerBody::Text(text) => if !is_server_error(status) || number >= MAX_ATTEMPTS {
                    Some(SendView::Done(Err(ErrorView::Rejected { status, body: text@ })))
                } else {
                    None
                },
                _ => Some(SendView::ReadText),
            }
        },
    }
}

/// The next thing that sending a code needs, or what came of it, after these
/// attempts.
pub open spec fn send_next(
    settings: ClientSettings,
    phone_number: Seq<char>,
    code: Seq<char>,
    idempotency_key: Seq<char>,
    attempts: Seq<Attempt>,
) -> SendView {
    if !crate::convert::config::is_configured(settings.api_key) {
        SendView::Done(Err(ErrorView::NotConfigured))
    } else {
        let request = otp_request(
            settings,
            settings.api_key->0,
            phone_number,
            code,
            idempotency_key,
        );
        if attempts.len() == 0 {
            SendView::Post { delay: 0, request }
        } else {
            match attempt_next(settings.channel, attempts.last(), attempts.len() as int) {
                Some(next) => next,
                None => SendView::Post {
                    delay: retry_delay(attempts.len() as int) as u64,
                    request,
                },
            }
        }
    }
}

fn judge_response(channel: ConvertChannel, response: &MessageResponse) -> (r: Result<
    DeliveryReceipt,
    ConvertError,
>)
    ensures
        SendNext::Done(r)@ == SendView::Done(response_result(channel, *response)),
{
    if !response.success {
        return Err(
            ConvertError::Rejected {
                status: 200,
                body: match &response.error {
                    Some(text) => text.clone(),
                    None => "message rejected".to_owned(),
                },
            },
        );
    }
    Ok(
        DeliveryReceipt {
            channel: match &response.channel {
                Some(name) => name.clone(),
                None => channel.name().to_owned(),
            },
            message_id: same_if_any(&response.message_id),
        },
    )
}

fn judge_attempt(channel: ConvertChannel, attempt: &Attempt, number: usize) -> (r: Option<SendNext>)
    ensures
        match r {
            Some(next) => attempt_next(channel, *attempt, number as int) == Some(next@),
            None => attempt_next(channel, *attempt, number as int) is None,
        },
{
    match attempt {
        Attempt::Unreachable => {
            if number >= MAX_ATTEMPTS {
                Some(SendNext::Done(Err(ConvertError::Request)))
            } else {
                None
            }
        },
        Attempt::Answered { status, body } => {
            if 200 <= *status && *status < 300 {
                match body {
                    AnswerBody::Response(Some(response)) => Some(
                        SendNext::Done(judge_response(channel, response)),
                    ),
                    AnswerBody::Response(None) => Some(SendNext::Done(Err(ConvertError::Request))),
                    _ => Some(SendNext::ReadResponse),
                }
            } else {
                match body {
                    AnswerBody::Text(text) => {
                        if !(500 <= *status && *status < 600) || number >= MAX_ATTEMPTS {
                            Some(
                                SendNext::Done(
                                    Err(
                                        ConvertError::Rejected {
                                            status: *status,
                                            body: text.clone(),
                                        },
                                    ),
                                ),
                            )
                        } else {
                            None
                        }
                    },
                    _ => Some(SendNext::ReadText),
                }
            }
        },
    }
}

fn delay_after(attempts: usize) -> (r: u64)
    requires
        1 <= attempts < MAX_ATTEMPTS,
    ensures
        r == retry_delay(attempts as int),
{
    let mut delay: u64 = FIRST_DELAY;
    let mut i: usize = 1;
    while i < attempts
        invariant
            1 <= i <= attempts < MAX_ATTEMPTS,
            delay == retry_delay(i as int),
            i == 1 ==> delay == FIRST_DELAY,
        decreases attempts - i,
    {
        delay = 2 * delay;
        i = i + 1;
    }
    delay
}

impl ConvertClient {
    /// Build a client from application configuration.
    #[must_use]
    pub fn new(config: &ConvertConfig) -> (r: Self)
        ensures
            r@ == (ClientSettings {
                base_url: without_trailing_slashes(config.base_url@),
                api_key: crate::text::contents(config.api_key),
                channel: config.channel,
                test: config.test,
            }),
    {
        ConvertClient {
            base_url: trim_slashes(config.base_url.as_str()),
            api_key: same_if_any(&config.api_key),
            channel: config.channel,
            test: config.test,
        }
    }

    /// Send a phone verification OTP through the configured Convert channel.
    ///
    /// `attempts` are those that were made so far.
    pub fn send_phone_otp(
        &self,
        phone_number: &str,
        code: &str,
        idempotency_key: &str,
        attempts: &Vec<Attempt>,
    ) -> (r: SendNext)
        ensures
            r@ == send_next(self@, phone_number@, code@, idempotency_key@, attempts@),
    {
        let api_key = match &self.api_key {
            Some(key) if configured(&self.api_key) => key,
            _ => {
                return SendNext::Done(Err(ConvertError::NotConfigured));
            },
        };
        let made: usize = attempts.len();
        let delay: u64 = if made == 0 {
            0
        } else {
            match judge_attempt(self.channel, &attempts[made - 1], made) {
                Some(next) => {
                    return next;
                },
                None => delay_after(made),
            }
        };
        let mut url = self.base_url.clone();
        url.append("/messages");
        let mut authorization = "Bearer ".to_owned();
        authorization.append(api_key.as_str());
        let mut message = "Your Tween verification code is ".to_owned();
        message.append(code);
        message.append(". It expires in 5 minutes.");
        SendNext::Post {
            delay,
            request: MessageRequest {
                url,
                authorization,
                idempotency_key: idempotency_key.to_owned(),
                to: phone_number.to_owned(),
                channel: self.channel.name(),
                message,
                test: self.test,
            },
        }
    }

    /// Generate a stable key for one OTP delivery attempt.
    #[must_use]
    pub fn idempotency_key(authentication_id: u128) -> (r: String)
        ensures
            r@ == otp_key(authentication_id),
    {
        let mut key = "tween-phone-otp-".to_owned();
        let id = encode_ulid(authentication_id);
        key.append(id.as_str());
        key
    }
}

/// The key of an OTP delivery.
pub open spec fn otp_key(authentication_id: u128) -> Seq<char> {
    "tween-phone-otp-"@ + crate::ids::ulid_text(authentication_id)
}

/// Whether everything that an attempt needs read has been read.
pub open spec fn fully_read(attempt: Attempt) -> bool {
    match attempt {
        Attempt::Unreachable => true,
        Attempt::Answered { status, body } => if is_success(status) {
            body is Response
        } else {
            body is Text
        },
    }
}

/// Where delivery is not enabled, because there is no key or a blank one, no request
/// is made. The sending ends at once, as not configured.
pub proof fn law_nothing_is_sent_without_a_key(
    settings: ClientSettings,
    phone_number: Seq<char>,
    code: Seq<char>,
    idempotency_key: Seq<char>,
    attempts: Seq<Attempt>,
)
    ensures
        send_next(settings, phone_number, code, idempotency_key, attempts) == SendView::Done(
            Err(ErrorView::NotConfigured),
        ) <==> !crate::convert::config::is_configured(settings.api_key),
{
}

/// Every attempt sends the same request, with the same idempotency key, so that
/// Convert delivers the code once.
pub proof fn law_retries_repeat_the_request(
    settings: ClientSettings,
    phone_number: Seq<char>,
    code: Seq<char>,
    idempotency_key: Seq<char>,
    attempts: Seq<Attempt>,
    later: Seq<Attempt>,
)
    ensures
        ({
            let first = send_next(settings, phone_number, code, idempotency_key, attempts);
            let second = send_next(settings, phone_number, code, idempotency_key, later);
            first is Post && second is Post ==> {
                &&& first->request == second->request
                &&& first->request.idempotency_key == idempotency_key
            }
        }),
{
}

/// No more attempts are made than allowed, and only after no answer, or the answer
/// that the server is at fault, is there another one.
pub proof fn law_only_server_failures_are_retried(
    settings: ClientSettings,
    phone_number: Seq<char>,
    code: Seq<char>,
    idempotency_key: Seq<char>,
    attempts: Seq<Attempt>,
)
    requires
        send_next(settings, phone_number, code, idempotency_key, attempts) is Post,
        attempts.len() > 0,
    ensures
        attempts.len() < MAX_ATTEMPTS,
        match attempts.last() {
            Attempt::Unreachable => true,
            Attempt::Answered { status, .. } => is_server_error(status),
        },
{
}

/// An answer that is neither success nor an error of the server ends the sending at
/// once, with that answer.
pub proof fn law_client_errors_are_not_retried(
    settings: ClientSettings,
    phone_number: Seq<char>,
    code: Seq<char>,
    idempotency_key: Seq<char>,
    attempts: Seq<Attempt>,
    status: u16,
    text: String,
)
    requires
        crate::convert::config::is_configured(settings.api_key),
        attempts.len() > 0,
        attempts.last() == (Attempt::Answered { status, body: AnswerBody::Text(text) }),
        !is_success(status),
        !is_server_error(status),
    ensures
        send_next(settings, phone_number, code, idempotency_key, attempts) == SendView::Done(
            Err(ErrorView::Rejected { status, body: text@ }),
        ),
{
}

/// The sending always ends: once as many attempts as allowed were made and the last
/// one was read, nothing is left to do.
pub proof fn law_sending_ends(
    settings: ClientSettings,
    phone_number: Seq<char>,
    code: Seq<char>,
    idempotency_key: Seq<char>,
    attempts: Seq<Attempt>,
)
    requires
        attempts.len() >= MAX_ATTEMPTS,
        fully_read(attempts.last()),
    ensures
        send_next(settings, phone_number, code, idempotency_key, attempts) is Done,
{
}

/// A receipt comes only for a message that Convert said it accepted.
pub proof fn law_receipts_are_for_accepted_messages(
    settings: ClientSettings,
    phone_number: Seq<char>,
    code: Seq<char>,
    idempotency_key: Seq<char>,
    attempts: Seq<Attempt>,
)
    ensures
        send_next(settings, phone_number, code, idempotency_key, attempts) matches SendView::Done(
            Ok(receipt),
        ) ==> attempts.len() > 0 && (attempts.last() matches Attempt::Answered {
            status,
            body: AnswerBody::Response(Some(response)),
        } && is_success(status) && response.success && receipt.message_id
            == crate::text::contents(response.message_id)),
{
}

/// The address that messages are posted to never has two slashes before its last
/// part.
pub proof fn law_base_urls_end_without_slashes(base_url: Seq<char>)
    ensures
        without_trailing_slashes(base_url).len() > 0 ==> without_trailing_slashes(base_url).last()
            != '/',
    decreases base_url.len(),
{
    if base_url.len() > 0 {
        law_base_urls_end_without_slashes(base_url.drop_last());
    }
}

/// Each OTP delivery has a key of its own.
pub proof fn law_otp_keys_are_distinct(a: u128, b: u128)
    requires
        otp_key(a) == otp_key(b),
    ensures
        a == b,
{
    let prefix = "tween-phone-otp-"@;
    assert(otp_key(a).skip(prefix.len() as int) =~= crate::ids::ulid_text(a));
    assert(otp_key(b).skip(prefix.len() as int) =~= crate::ids::ulid_text(b));
    crate::ids::law_ulid_text_is_injective(a, b);
}

/// What is posted is the message with the code, to the phone number, through the channel
/// of the settings and under the key of the settings.
pub proof fn law_requests_carry_the_code(
    settings: ClientSettings,
    phone_number: Seq<char>,
    code: Seq<char>,
    idempotency_key: Seq<char>,
    attempts: Seq<Attempt>,
)
    ensures
        send_next(settings, phone_number, code, idempotency_key, attempts) matches SendView::Post {
            request,
            ..
        } ==> {
            &&& request.url == settings.base_url + "/messages"@
            &&& settings.api_key is Some
            &&& request.authorization == "Bearer "@ + settings.api_key->0
            &&& request.idempotency_key == idempotency_key
            &&& request.to == phone_number
            &&& request.channel == match settings.channel {
                ConvertChannel::Smart => "smart"@,
                ConvertChannel::Whatsapp => "whatsapp"@,
                ConvertChannel::Sms => "sms"@,
            }
            &&& request.message == "Your Tween verification code is "@ + code
                + ". It expires in 5 minutes."@
            &&& request.test == settings.test
        },
{
}

/// The first attempt is made without delay, wherever there is a key.
pub proof fn law_the_first_attempt_is_made_at_once(
    settings: ClientSettings,
    phone_number: Seq<char>,
    code: Seq<char>,
    idempotency_key: Seq<char>,
)
    requires
        crate::convert::config::is_configured(settings.api_key),
    ensures
        send_next(
            settings,
            phone_number,
            code,
            idempotency_key,
            Seq::empty(),
        ) matches SendView::Post { delay: 0, .. },
{
}

/// Where no answer came, or one that the server is at fault, of whatever status from 500 to
/// 599, the same request is posted again as long as there were fewer than three attempts:
/// a quarter of a second after the first, and half a second after the second.
pub proof fn law_server_failures_are_retried(
    settings: ClientSettings,
    phone_number: Seq<char>,
    code: Seq<char>,
    idempotency_key: Seq<char>,
    attempts: Seq<Attempt>,
)
    requires
        crate::convert::config::is_configured(settings.api_key),
        0 < attempts.len() < 3,
        match attempts.last() {
            Attempt::Unreachable => true,
            Attempt::Answered { status, body } => 500 <= status <= 599 && body is Text,
        },
    ensures
        ({
            let first = send_next(settings, phone_number, code, idempotency_key, Seq::empty());
            let again = send_next(settings, phone_number, code, idempotency_key, attempts);
            &&& again is Post && first is Post
            &&& again->request == first->request
            &&& attempts.len() == 1 ==> again->delay == 250
            &&& attempts.len() == 2 ==> again->delay == 500
        }),
{
    reveal_with_fuel(retry_delay, 3);
}

/// With the third attempt the sending ends: without an answer it failed, and an answer that
/// the server is at fault is told as it came.
pub proof fn law_the_third_attempt_is_the_last(
    settings: ClientSettings,
    phone_number: Seq<char>,
    code: Seq<char>,
    idempotency_key: Seq<char>,
    attempts: Seq<Attempt>,
)
    requires
        crate::convert::config::is_configured(settings.api_key),
        attempts.len() >= 3,
    ensures
        ({
            let next = send_next(settings, phone_number, code, idempotency_key, attempts);
            &&& attempts.last() is Unreachable ==> next == SendView::Done(Err(ErrorView::Request))
            &&& attempts.last() matches Attempt::Answered { status, body: AnswerBody::Text(text) }
                ==> (500 <= status <= 599 ==> next == SendView::Done(
                Err(ErrorView::Rejected { status, body: text@ }),
            ))
        }),
{
}

/// An answer with a status below 200, from 300 to 499, or from 600 on ends the sending at
/// once, after however many attempts, and is told as it came.
pub proof fn law_other_answers_are_told_as_they_came(
    settings: ClientSettings,
    phone_number: Seq<char>,
    code: Seq<char>,
    idempotency_key: Seq<char>,
    attempts: Seq<Attempt>,
    status: u16,
    text: String,
)
    requires
        crate::convert::config::is_configured(settings.api_key),
        attempts.len() > 0,
        attempts.last() == (Attempt::Answered { status, body: AnswerBody::Text(text) }),
        status <= 199 || 300 <= status <= 499 || 600 <= status,
    ensures
        send_next(settings, phone_number, code, idempotency_key, attempts) == SendView::Done(
            Err(ErrorView::Rejected { status, body: text@ }),
        ),
{
}

/// What Convert says with a status from 200 to 299 ends the sending, after however many
/// attempts. A message that it accepted has a receipt, with the channel that it tells, or
/// else the configured one, and with the identifier that it tells. One that it did not
/// accept is rejected with the error that it tells.
pub proof fn law_responses_are_believed(
    settings: ClientSettings,
    phone_number: Seq<char>,
    code: Seq<char>,
    idempotency_key: Seq<char>,
    attempts: Seq<Attempt>,
    status: u16,
    response: Option<MessageResponse>,
)
    requires
        crate::convert::config::is_configured(settings.api_key),
        attempts.len() > 0,
        attempts.last() == (Attempt::Answered { status, body: AnswerBody::Response(response) }),
        200 <= status <= 299,
    ensures
        ({
            let next = send_next(settings, phone_number, code, idempotency_key, attempts);
            &&& response is None ==> next == SendView::Done(Err(ErrorView::Request))
            &&& response matches Some(said) ==> if said.success {
                &&& next is Done && next->Done_0 is Ok
                &&& said.channel matches Some(name) ==> next->Done_0->Ok_0.channel == name@
                &&& said.channel is None ==> next->Done_0->Ok_0.channel == match settings.channel {
                    ConvertChannel::Smart => "smart"@,
                    ConvertChannel::Whatsapp => "whatsapp"@,
                    ConvertChannel::Sms => "sms"@,
                }
                &&& said.message_id matches Some(id) ==> next->Done_0->Ok_0.message_id == Some(id@)
                &&& said.message_id is None ==> next->Done_0->Ok_0.message_id is None
            } else {
                &&& said.error matches Some(text) ==> next == SendView::Done(
                    Err(ErrorView::Rejected { status: 200, body: text@ }),
                )
                &&& said.error is None ==> next == SendView::Done(
                    Err(ErrorView::Rejected { status: 200, body: "message rejected"@ }),
                )
            }
        }),
{
}

/// Of an answer with a status from 200 to 299, what Convert says is read, and of every other
/// answer the text; nothing else is done before.
pub proof fn law_answers_are_read_first(
    settings: ClientSettings,
    phone_number: Seq<char>,
    code: Seq<char>,
    idempotency_key: Seq<char>,
    attempts: Seq<Attempt>,
    status: u16,
    body: AnswerBody,
)
    requires
        crate::convert::config::is_configured(settings.api_key),
        attempts.len() > 0,
        attempts.last() == (Attempt::Answered { status, body }),
    ensures
        ({
            let next = send_next(settings, phone_number, code, idempotency_key, attempts);
            &&& 200 <= status <= 299 && !(body is Response) ==> next == SendView::ReadResponse
            &&& !(200 <= status <= 299) && !(body is Text) ==> next == SendView::ReadText
        }),
{
}

/// Slashes at the end are all that a base URL loses.
pub proof fn law_base_urls_lose_slashes_alone(base_url: Seq<char>)
    ensures
        ({
            let kept = without_trailing_slashes(base_url);
            &&& kept.len() <= base_url.len()
            &&& kept == base_url.take(kept.len() as int)
            &&& forall|i: int| kept.len() <= i < base_url.len() ==> #[trigger] base_url[i] == '/'
        }),
    decreases base_url.len(),
{
    let kept = without_trailing_slashes(base_url);
    if base_url.len() > 0 && base_url.last() == '/' {
        let shorter = base_url.drop_last();
        law_base_urls_lose_slashes_alone(shorter);
        assert(base_url.take(kept.len() as int) =~= shorter.take(kept.len() as int));
        assert forall|i: int| kept.len() <= i < base_url.len() implies #[trigger] base_url[i]
            == '/' by {
            if i < shorter.len() {
                assert(base_url[i] == shorter[i]);
            }
        }
    } else {
        assert(base_url.take(kept.len() as int) =~= base_url);
    }
}

/// The key of an OTP delivery is the identifier after a fixed text.
pub proof fn law_otp_keys_name_the_delivery(id: u128)
    ensures
        otp_key(id) == "tween-phone-otp-"@ + crate::ids::ulid_text(id),
{
}

/// The contents of a step are those of the step itself.
pub proof fn law_send_steps_are_viewed_as_they_are(next: SendNext)
    ensures
        next matches SendNext::Post { delay, request } ==> {
            &&& next@ is Post
            &&& next@->delay == delay
            &&& next@->request.url == request.url@
            &&& next@->request.authorization == request.authorization@
            &&& next@->request.idempotency_key == request.idempotency_key@
            &&& next@->request.to == request.to@
            &&& next@->request.channel == request.channel@
            &&& next@->request.message == request.message@
            &&& next@->request.test == request.test
        },
        next is ReadResponse <==> next@ is ReadResponse,
        next is ReadText <==> next@ is ReadText,
        next matches SendNext::Done(Ok(receipt)) ==> {
            &&& (next@ matches SendView::Done(Ok(_)))
            &&& next@->Done_0->Ok_0.channel == receipt.channel@
            &&& receipt.message_id matches Some(id) ==> next@->Done_0->Ok_0.message_id == Some(id@)
            &&& receipt.message_id is None ==> next@->Done_0->Ok_0.message_id is None
        },
        next matches SendNext::Done(Err(e)) ==> {
            &&& (next@ matches SendView::Done(Err(_)))
            &&& e is NotConfigured ==> next@->Done_0->Err_0 is NotConfigured
            &&& e is Request ==> next@->Done_0->Err_0 is Request
            &&& e matches ConvertError::Rejected { status, body } ==> next@->Done_0->Err_0 == (
            ErrorView::Rejected { status, body: body@ })
        },
{
}

} // verus!
