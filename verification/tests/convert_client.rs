use tween_accounts::convert::client::AnswerBody;
use tween_accounts::convert::client::Attempt;
use tween_accounts::convert::client::ConvertClient;
use tween_accounts::convert::client::ConvertError;
use tween_accounts::convert::client::DeliveryReceipt;
use tween_accounts::convert::client::MessageRequest;
use tween_accounts::convert::client::MessageResponse;
use tween_accounts::convert::client::SendNext;
use tween_accounts::convert::config::ConvertChannel;
use tween_accounts::convert::config::ConvertConfig;

fn config(base_url: &str) -> ConvertConfig {
    ConvertConfig {
        base_url: base_url.to_owned(),
        api_key: Some("rk_test".to_owned()),
        ..Default::default()
    }
}

fn answered(status: u16, body: AnswerBody) -> Attempt {
    Attempt::Answered { status, body }
}

fn accepted(channel: Option<&str>, message_id: Option<&str>) -> AnswerBody {
    AnswerBody::Response(Some(MessageResponse {
        success: true,
        channel: channel.map(str::to_owned),
        message_id: message_id.map(str::to_owned),
        error: None,
    }))
}

fn posted(next: SendNext) -> (u64, MessageRequest) {
    match next {
        SendNext::Post { delay, request } => (delay, request),
        other => panic!("no request: {other:?}"),
    }
}

#[test]
fn sends_expected_request_and_parses_receipt() {
    let client = ConvertClient::new(&config("http://convert.test"));
    let mut attempts = Vec::new();
    let next = client.send_phone_otp("+2348012345678", "123456", "key-1", &attempts);
    let (delay, request) = posted(next);
    assert_eq!(delay, 0);
    assert_eq!(
        request,
        MessageRequest {
            url: "http://convert.test/messages".to_owned(),
            authorization: "Bearer rk_test".to_owned(),
            idempotency_key: "key-1".to_owned(),
            to: "+2348012345678".to_owned(),
            channel: "smart",
            message: "Your Tween verification code is 123456. It expires in 5 minutes.".to_owned(),
            test: false,
        }
    );
    attempts.push(answered(201, AnswerBody::Unread));
    assert_eq!(
        client.send_phone_otp("+2348012345678", "123456", "key-1", &attempts),
        SendNext::ReadResponse
    );
    attempts[0] = answered(201, accepted(Some("whatsapp"), Some("msg_1")));
    let SendNext::Done(Ok(receipt)) =
        client.send_phone_otp("+2348012345678", "123456", "key-1", &attempts)
    else {
        panic!("no receipt");
    };
    assert_eq!(receipt.channel, "whatsapp");
    assert_eq!(receipt.message_id.as_deref(), Some("msg_1"));
}

#[test]
fn retries_server_errors_with_the_same_idempotency_key() {
    let client = ConvertClient::new(&config("http://convert.test"));
    let mut attempts = Vec::new();
    let (first_delay, first) =
        posted(client.send_phone_otp("+2348012345678", "123456", "key-2", &attempts));
    assert_eq!(first_delay, 0);
    assert_eq!(first.idempotency_key, "key-2");
    for delay in [250, 500] {
        attempts.push(answered(503, AnswerBody::Unread));
        assert_eq!(
            client.send_phone_otp("+2348012345678", "123456", "key-2", &attempts),
            SendNext::ReadText
        );
        *attempts.last_mut().unwrap() = answered(503, AnswerBody::Text(String::new()));
        let (waited, again) =
            posted(client.send_phone_otp("+2348012345678", "123456", "key-2", &attempts));
        assert_eq!(waited, delay);
        assert_eq!(again, first);
    }
    attempts.push(answered(201, accepted(Some("sms"), None)));
    assert_eq!(
        client.send_phone_otp("+2348012345678", "123456", "key-2", &attempts),
        SendNext::Done(Ok(DeliveryReceipt { channel: "sms".to_owned(), message_id: None }))
    );
}

#[test]
fn does_not_retry_client_errors() {
    let client = ConvertClient::new(&config("http://convert.test"));
    let attempts = vec![answered(400, AnswerBody::Text("invalid".to_owned()))];
    let next = client.send_phone_otp("+1", "123456", "key-3", &attempts);
    assert!(matches!(next, SendNext::Done(Err(ConvertError::Rejected { status: 400, .. }))));
    assert_eq!(
        next,
        SendNext::Done(Err(ConvertError::Rejected { status: 400, body: "invalid".to_owned() }))
    );
}

#[test]
fn gives_up_after_the_last_attempt() {
    let client = ConvertClient::new(&config("http://convert.test"));
    let failed = || answered(502, AnswerBody::Text("down".to_owned()));
    assert_eq!(
        client.send_phone_otp("+1", "1", "k", &vec![failed(), failed(), failed()]),
        SendNext::Done(Err(ConvertError::Rejected { status: 502, body: "down".to_owned() }))
    );
    let lost = || Attempt::Unreachable;
    let (delay, _) = posted(client.send_phone_otp("+1", "1", "k", &vec![lost(), lost()]));
    assert_eq!(delay, 500);
    assert_eq!(
        client.send_phone_otp("+1", "1", "k", &vec![lost(), lost(), lost()]),
        SendNext::Done(Err(ConvertError::Request))
    );
}

#[test]
fn a_client_without_a_key_sends_nothing() {
    for api_key in [None, Some(""), Some("   "), Some("\t\n")] {
        let config = ConvertConfig {
            api_key: api_key.map(str::to_owned),
            ..Default::default()
        };
        assert!(!config.enabled());
        let client = ConvertClient::new(&config);
        for attempts in [Vec::new(), vec![Attempt::Unreachable]] {
            assert_eq!(
                client.send_phone_otp("+1", "1", "k", &attempts),
                SendNext::Done(Err(ConvertError::NotConfigured))
            );
        }
    }
}

#[test]
fn rejected_messages_carry_the_reason() {
    let client = ConvertClient::new(&config("http://convert.test"));
    let rejected = |error: Option<&str>| {
        vec![answered(
            200,
            AnswerBody::Response(Some(MessageResponse {
                success: false,
                channel: None,
                message_id: None,
                error: error.map(str::to_owned),
            })),
        )]
    };
    assert_eq!(
        client.send_phone_otp("+1", "1", "k", &rejected(Some("no credit"))),
        SendNext::Done(Err(ConvertError::Rejected { status: 200, body: "no credit".to_owned() }))
    );
    assert_eq!(
        client.send_phone_otp("+1", "1", "k", &rejected(None)),
        SendNext::Done(Err(ConvertError::Rejected {
            status: 200,
            body: "message rejected".to_owned(),
        }))
    );
}

#[test]
fn unreadable_success_is_a_request_error() {
    let client = ConvertClient::new(&config("http://convert.test"));
    assert_eq!(
        client.send_phone_otp("+1", "1", "k", &vec![answered(200, AnswerBody::Response(None))]),
        SendNext::Done(Err(ConvertError::Request))
    );
}

#[test]
fn receipts_without_a_channel_name_the_configured_one() {
    let mut configuration = config("http://convert.test");
    configuration.channel = ConvertChannel::Sms;
    configuration.test = true;
    let client = ConvertClient::new(&configuration);
    let (_, request) = posted(client.send_phone_otp("+1", "1", "k", &Vec::new()));
    assert_eq!(request.channel, "sms");
    assert!(request.test);
    assert_eq!(
        client.send_phone_otp("+1", "1", "k", &vec![answered(204, accepted(None, Some("m")))]),
        SendNext::Done(Ok(DeliveryReceipt {
            channel: "sms".to_owned(),
            message_id: Some("m".to_owned()),
        }))
    );
}

#[test]
fn trailing_slashes_of_the_base_url_are_dropped() {
    let client = ConvertClient::new(&config("http://convert.test/api/v1///"));
    let (_, request) = posted(client.send_phone_otp("+1", "1", "k", &Vec::new()));
    assert_eq!(request.url, "http://convert.test/api/v1/messages");
    let empty = ConvertClient::new(&config("///"));
    let (_, request) = posted(empty.send_phone_otp("+1", "1", "k", &Vec::new()));
    assert_eq!(request.url, "/messages");
}

#[test]
fn idempotency_keys_are_stable_and_distinct() {
    let id = ulid::Ulid::from_string("01J0RZ4N0P7E5A9F2C6B3D8H5K").unwrap().0;
    assert_eq!(
        ConvertClient::idempotency_key(id),
        "tween-phone-otp-01J0RZ4N0P7E5A9F2C6B3D8H5K"
    );
    assert_ne!(ConvertClient::idempotency_key(id), ConvertClient::idempotency_key(id + 1));
    assert_eq!(
        ConvertClient::idempotency_key(0),
        "tween-phone-otp-00000000000000000000000000"
    );
}

#[test]
fn copies_send_the_same() {
    let client = ConvertClient::new(&config("http://convert.test").clone());
    let attempts = Vec::new();
    assert_eq!(
        client.clone().send_phone_otp("+1", "1", "k", &attempts),
        client.send_phone_otp("+1", "1", "k", &attempts)
    );
    let receipt = DeliveryReceipt { channel: "sms".to_owned(), message_id: Some("m".to_owned()) };
    assert_eq!(receipt.clone(), receipt);
}
