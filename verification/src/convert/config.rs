//! The configuration of Convert.

use crate::text::same_if_any;
use crate::text::same_text;
use vstd::prelude::*;

verus! {

/// The section of the configuration.
pub const SECTION: &'static str = "convert";

/// Where Convert's API is.
pub const DEFAULT_BASE_URL: &'static str = "https://convert.ruut.chat/api/v1";

/// Convert delivery channel used for phone verification messages.
#[derive(Clone, Copy, Debug, PartialEq, Eq, Structural)]
pub enum ConvertChannel {
    /// Let Convert prefer `WhatsApp` and fall back to SMS.
    Smart,
    /// Deliver through `WhatsApp`.
    Whatsapp,
    /// Deliver through SMS.
    Sms,
}

impl Default for ConvertChannel {
    fn default() -> (r: Self)
        ensures
            r == ConvertChannel::Smart,
    {
        ConvertChannel::Smart
    }
}

impl ConvertChannel {
    /// The name that Convert has for the channel.
    pub open spec fn spec_name(self) -> &'static str {
        match self {
            ConvertChannel::Smart => "smart",
            ConvertChannel::Whatsapp => "whatsapp",
            ConvertChannel::Sms => "sms",
        }
    }

    /// The name that Convert has for the channel.
    pub fn name(&self) -> (r: &'static str)
        ensures
            r == self.spec_name(),
    {
        match self {
            ConvertChannel::Smart => "smart",
            ConvertChannel::Whatsapp => "whatsapp",
            ConvertChannel::Sms => "sms",
        }
    }
}

/// Configuration for Convert transactional messaging.
#[derive(Debug)]
pub struct ConvertConfig {
    /// Convert API base URL.
    pub base_url: String,
    /// Organisation-scoped Convert API key.
    pub api_key: Option<String>,
    /// Channel used for phone verification OTPs.
    pub channel: ConvertChannel,
    /// Validate requests without sending or charging.
    pub test: bool,
    /// Secret Convert signs webhook deliveries with (`X-Convert-Signature`).
    ///
    /// Without it the webhook endpoint stays disabled, and delivery state is
    /// never recorded — an accepted message would only ever read as accepted.
    pub webhook_secret: Option<String>,
}

impl Clone for ConvertConfig {
    fn clone(&self) -> (r: Self)
        ensures
            r == *self,
    {
        ConvertConfig {
            base_url: self.base_url.clone(),
            api_key: same_if_any(&self.api_key),
            channel: self.channel,
            test: self.test,
            webhook_secret: same_if_any(&self.webhook_secret),
        }
    }
}

/// A value that the configuration may not have.
#[derive(Debug, Clone, Copy, PartialEq, Eq)]
pub struct ConfigError {
    pub message: &'static str,
    /// Where the value stands.
    pub section: &'static str,
    pub key: &'static str,
}

/// Where Convert's API is unless something else is configured.
pub fn default_base_url() -> (r: String)
    ensures
        r@ == DEFAULT_BASE_URL@,
{
    DEFAULT_BASE_URL.to_owned()
}

impl Default for ConvertConfig {
    fn default() -> (r: Self)
        ensures
            r.has_only_defaults(),
    {
        ConvertConfig {
            base_url: default_base_url(),
            api_key: None,
            channel: ConvertChannel::Smart,
            test: false,
            webhook_secret: None,
        }
    }
}

/// Whether a secret is there: something other than white space is configured.
pub open spec fn is_configured(secret: Option<Seq<char>>) -> bool {
    secret matches Some(text) && crate::text::trimmed(text).len() > 0
}

pub(crate) fn configured(secret: &Option<String>) -> (r: bool)
    ensures
        r == is_configured(crate::text::contents(*secret)),
{
    match secret {
        Some(text) => !text.as_str().trim().is_empty(),
        None => false,
    }
}

/// Whether `url::Url` takes a string for an absolute URL.
pub uninterp spec fn is_url(s: Seq<char>) -> bool;

/// `url::Url::parse` takes an absolute URL and fails on any other string. Which strings
/// are URLs depends on the string alone; the name [`is_url`] stands for it.
#[verifier::external_body]
fn parses_as_url(s: &str) -> (r: bool)
    ensures
        r == is_url(s@),
{
    url::Url::parse(s).is_ok()
}

/// The verdict on a base URL, given whether it reads as a URL.
pub open spec fn base_url_verdict(reads_as_url: bool) -> Result<(), ConfigError> {
    if reads_as_url {
        Ok(())
    } else {
        Err(
            ConfigError {
                message: "base_url must be a valid URL",
                section: SECTION,
                key: "base_url",
            },
        )
    }
}

/// The verdict on a base URL, given whether it reads as a URL.
pub fn check_base_url(reads_as_url: bool) -> (r: Result<(), ConfigError>)
    ensures
        r == base_url_verdict(reads_as_url),
{
    if !reads_as_url {
        return Err(
            ConfigError {
                message: "base_url must be a valid URL",
                section: SECTION,
                key: "base_url",
            },
        );
    }
    Ok(())
}

impl ConvertConfig {
    /// Whether every value is the default.
    pub open spec fn has_only_defaults(self) -> bool {
        &&& self.base_url@ == DEFAULT_BASE_URL@
        &&& self.api_key is None
        &&& self.channel == ConvertChannel::Smart
        &&& !self.test
        &&& self.webhook_secret is None
    }

    /// Whether this section has only its defaults.
    #[must_use]
    pub fn is_default(&self) -> (r: bool)
        ensures
            r == self.has_only_defaults(),
    {
        self.api_key.is_none() && same_text(self.base_url.as_str(), DEFAULT_BASE_URL) && matches!(
            self.channel,
            ConvertChannel::Smart
        ) && !self.test && self.webhook_secret.is_none()
    }

    /// Whether Convert delivery is configured.
    #[must_use]
    pub fn enabled(&self) -> (r: bool)
        ensures
            r == is_configured(crate::text::contents(self.api_key)),
    {
        configured(&self.api_key)
    }

    /// Whether webhook deliveries can be verified.
    #[must_use]
    pub fn webhooks_enabled(&self) -> (r: bool)
        ensures
            r == is_configured(crate::text::contents(self.webhook_secret)),
    {
        configured(&self.webhook_secret)
    }

    /// Check the values that have to be of some form.
    pub fn validate(&self) -> (r: Result<(), ConfigError>)
        ensures
            r == base_url_verdict(is_url(self.base_url@)),
    {
        check_base_url(parses_as_url(self.base_url.as_str()))
    }
}

/// A configuration with only defaults sends nothing and takes no webhook deliveries.
pub proof fn law_defaults_are_disabled(config: ConvertConfig)
    requires
        config.has_only_defaults(),
    ensures
        !is_configured(crate::text::contents(config.api_key)),
        !is_configured(crate::text::contents(config.webhook_secret)),
{
}

/// A secret is there exactly where it holds a character that is no white space.
pub proof fn law_secrets_hold_more_than_white_space(secret: Option<Seq<char>>)
    ensures
        is_configured(secret) <==> (secret matches Some(text) && exists|i: int|
            0 <= i < text.len() && !crate::text::is_white_space(#[trigger] text[i])),
{
    if let Some(text) = secret {
        let inner = crate::text::trimmed(text);
        crate::text::law_trimmed_text_stands_between_white_space(text);
        let (before, after) = choose|before: Seq<char>, after: Seq<char>|
            {
                &&& text == #[trigger] (before + crate::text::trimmed(text) + after)
                &&& forall|i: int|
                    0 <= i < before.len() ==> crate::text::is_white_space(#[trigger] before[i])
                &&& forall|i: int|
                    0 <= i < after.len() ==> crate::text::is_white_space(#[trigger] after[i])
            };
        if inner.len() > 0 {
            assert(text[before.len() as int] == inner[0]);
        } else {
            assert forall|i: int| 0 <= i < text.len() implies crate::text::is_white_space(
                #[trigger] text[i],
            ) by {
                if i < before.len() {
                    assert(text[i] == before[i]);
                } else {
                    assert(text[i] == after[i - before.len()]);
                }
            }
        }
    }
}

/// The channels have these names, and messages go through the first unless something else
/// is configured.
pub proof fn law_channels_have_their_names()
    ensures
        ConvertChannel::Smart.spec_name()@ == "smart"@,
        ConvertChannel::Whatsapp.spec_name()@ == "whatsapp"@,
        ConvertChannel::Sms.spec_name()@ == "sms"@,
{
}

/// A configuration that differs from the default in any one value does not pass for it, and
/// all values of the default are these.
pub proof fn law_defaults_are_these(config: ConvertConfig)
    ensures
        config.has_only_defaults() <==> {
            &&& config.base_url@ == "https://convert.ruut.chat/api/v1"@
            &&& config.api_key is None
            &&& (config.channel matches ConvertChannel::Smart)
            &&& config.test == false
            &&& config.webhook_secret is None
        },
{
}

/// A base URL is taken exactly where it reads as a URL, and the error names its place in
/// the configuration.
pub proof fn law_base_urls_have_to_read_as_urls(reads_as_url: bool)
    ensures
        base_url_verdict(reads_as_url) is Ok <==> reads_as_url,
        base_url_verdict(reads_as_url) matches Err(e) ==> e.message@
            == "base_url must be a valid URL"@ && e.section@ == "convert"@ && e.key@
            == "base_url"@,
{
}

} // verus!
