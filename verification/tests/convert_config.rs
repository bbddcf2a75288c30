use tween_accounts::convert::config::check_base_url;
use tween_accounts::convert::config::default_base_url;
use tween_accounts::convert::config::ConfigError;
use tween_accounts::convert::config::ConvertChannel;
use tween_accounts::convert::config::ConvertConfig;

#[test]
fn the_default_is_the_default() {
    let config = ConvertConfig::default();
    assert!(config.is_default());
    assert_eq!(config.base_url, "https://convert.ruut.chat/api/v1");
    assert_eq!(default_base_url(), config.base_url);
    assert_eq!(config.channel, ConvertChannel::default());
    assert_eq!(config.channel, ConvertChannel::Smart);
    assert!(!config.enabled());
    assert!(!config.webhooks_enabled());
    assert!(config.validate().is_ok());
}

#[test]
fn any_change_is_no_default() {
    let changed = |change: fn(&mut ConvertConfig)| {
        let mut config = ConvertConfig::default();
        change(&mut config);
        !config.is_default()
    };
    assert!(changed(|c| c.base_url.push('/')));
    assert!(changed(|c| c.api_key = Some(String::new())));
    assert!(changed(|c| c.channel = ConvertChannel::Sms));
    assert!(changed(|c| c.channel = ConvertChannel::Whatsapp));
    assert!(changed(|c| c.test = true));
    assert!(changed(|c| c.webhook_secret = Some("s".to_owned())));
}

#[test]
fn blank_secrets_are_none() {
    let mut config = ConvertConfig::default();
    config.api_key = Some(" \t".to_owned());
    config.webhook_secret = Some(String::new());
    assert!(!config.enabled());
    assert!(!config.webhooks_enabled());
    config.api_key = Some(" key ".to_owned());
    config.webhook_secret = Some("secret".to_owned());
    assert!(config.enabled());
    assert!(config.webhooks_enabled());
}

#[test]
fn the_base_url_must_be_a_url() {
    let wrong = ConfigError {
        message: "base_url must be a valid URL",
        section: "convert",
        key: "base_url",
    };
    let mut config = ConvertConfig::default();
    config.base_url = "not a url".to_owned();
    assert_eq!(config.validate(), Err(wrong));
    config.base_url = "http://localhost:8080".to_owned();
    assert_eq!(config.validate(), Ok(()));
    assert_eq!(check_base_url(false), Err(wrong));
    assert_eq!(check_base_url(true), Ok(()));
}

#[test]
fn channels_have_their_names() {
    assert_eq!(ConvertChannel::Smart.name(), "smart");
    assert_eq!(ConvertChannel::Whatsapp.name(), "whatsapp");
    assert_eq!(ConvertChannel::Sms.name(), "sms");
}
