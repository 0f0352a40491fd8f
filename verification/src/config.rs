//! Client configuration: credential validation, request parameter
//! validation, and the builder that assembles a validated configuration.

use vstd::prelude::*;
use vstd::utf8::encode_utf8;
use crate::chat::Message;
use crate::error::GrokError;
use crate::strutil::alnum_of;
use crate::strutil::contains_seq;
use crate::strutil::contains_str;
use crate::strutil::is_alnum;
use crate::strutil::lower_of;
use crate::strutil::lower_str;
use crate::strutil::str_eq;
use crate::strutil::trim_of;
use crate::strutil::trim_str;

verus! {

/// The lowercased key is a well-known placeholder rather than a credential.
pub open spec fn is_placeholder_key(low: Seq<char>) -> bool {
    ||| contains_seq(low, "your-api-key"@)
    ||| contains_seq(low, "your-xai-api-key"@)
    ||| contains_seq(low, "replace-me"@)
    ||| contains_seq(low, "placeholder"@)
    ||| low == "test"@
    ||| low == "dummy"@
}

/// Every character of the key is a letter, a digit, or one of `-`, `_`, `.`.
pub open spec fn valid_key_chars(t: Seq<char>) -> bool {
    forall|i: int|
        0 <= i < t.len() ==> alnum_of(#[trigger] t[i]) || t[i] == '-' || t[i] == '_' || t[i]
            == '.'
}

/// The reason the key is rejected, if any, as the error text; the checks
/// run on the whitespace-trimmed key, in this order: empty, too short
/// (fewer than ten bytes), placeholder, bad character.
pub open spec fn api_key_issue(k: Seq<char>) -> Option<Seq<char>> {
    let t = trim_of(k);
    if t.len() == 0 {
        Some("API key cannot be empty"@)
    } else if (encode_utf8(t).len() as usize) < 10 {
        Some("API key appears to be too short"@)
    } else if is_placeholder_key(lower_of(t)) {
        Some("API key appears to be a placeholder value"@)
    } else if !valid_key_chars(t) {
        Some("API key contains invalid characters"@)
    } else {
        None
    }
}

/// Whether every character of `s` is acceptable in an API key.
fn all_valid_key_chars(s: &str) -> (r: bool)
    ensures
        r == valid_key_chars(s@),
{
    let sl = s.unicode_len();
    let mut i: usize = 0;
    while i < sl
        invariant
            sl == s@.len(),
            0 <= i <= sl,
            forall|j: int|
                0 <= j < i ==> alnum_of(#[trigger] s@[j]) || s@[j] == '-' || s@[j] == '_'
                    || s@[j] == '.',
        decreases sl - i,
    {
        let c = s.get_char(i);
        if !(is_alnum(c) || c == '-' || c == '_' || c == '.') {
            assert(!(alnum_of(s@[i as int]) || s@[i as int] == '-' || s@[i as int] == '_'
                || s@[i as int] == '.'));
            return false;
        }
        i = i + 1;
    }
    true
}

/// Validate and sanitize an API key: the trimmed key is returned when it
/// passes every check, and the first failing check names the error.
pub fn validate_api_key(api_key: &str) -> (r: Result<String, GrokError>)
    ensures
        match api_key_issue(api_key@) {
            Some(m) => r matches Err(GrokError::InvalidApiKey(e)) && e@ == m,
            None => r matches Ok(s) && s@ == trim_of(api_key@),
        },
{
    let trimmed = trim_str(api_key);
    if trimmed.unicode_len() == 0 {
        return Err(GrokError::InvalidApiKey(String::from_str("API key cannot be empty")));
    }
    if trimmed.len() < 10 {
        return Err(
            GrokError::InvalidApiKey(String::from_str("API key appears to be too short")),
        );
    }
    let low = lower_str(trimmed);
    if contains_str(low.as_str(), "your-api-key") || contains_str(low.as_str(), "your-xai-api-key")
        || contains_str(low.as_str(), "replace-me") || contains_str(low.as_str(), "placeholder")
        || str_eq(low.as_str(), "test") || str_eq(low.as_str(), "dummy") {
        return Err(
            GrokError::InvalidApiKey(
                String::from_str("API key appears to be a placeholder value"),
            ),
        );
    }
    if !all_valid_key_chars(trimmed) {
        return Err(
            GrokError::InvalidApiKey(String::from_str("API key contains invalid characters")),
        );
    }
    Ok(trimmed.to_owned())
}

/// Reject an empty message history.
pub fn validate_messages(messages: &Vec<Message>) -> (r: Result<(), GrokError>)
    ensures
        messages@.len() == 0 ==> (r matches Err(GrokError::InvalidConfig(m)) && m@
            == "At least one message is required"@),
        messages@.len() > 0 ==> r is Ok,
{
    if messages.len() == 0 {
        Err(GrokError::InvalidConfig(String::from_str("At least one message is required")))
    } else {
        Ok(())
    }
}

/// Reject an output-length limit of zero or above the service maximum.
pub fn validate_max_tokens(max_tokens: Option<u32>) -> (r: Result<(), GrokError>)
    ensures
        match max_tokens {
            Some(mt) => {
                if mt == 0 {
                    r matches Err(GrokError::InvalidConfig(m)) && m@
                        == "max_tokens must be greater than 0"@
                } else if mt > 131072 {
                    r matches Err(GrokError::InvalidConfig(m)) && m@
                        == "max_tokens cannot exceed 131,072 (128k tokens)"@
                } else {
                    r is Ok
                }
            },
            None => r is Ok,
        },
{
    match max_tokens {
        Some(mt) => {
            if mt == 0 {
                Err(
                    GrokError::InvalidConfig(
                        String::from_str("max_tokens must be greater than 0"),
                    ),
                )
            } else if mt > 131072 {
                Err(
                    GrokError::InvalidConfig(
                        String::from_str("max_tokens cannot exceed 131,072 (128k tokens)"),
                    ),
                )
            } else {
                Ok(())
            }
        },
        None => Ok(()),
    }
}

/// Reject more stop sequences than the service accepts.
pub fn validate_stop(stop: &Option<Vec<String>>) -> (r: Result<(), GrokError>)
    ensures
        match stop {
            Some(s) => {
                if s@.len() > 4 {
                    r matches Err(GrokError::InvalidConfig(m)) && m@
                        == "maximum of 4 stop sequences allowed"@
                } else {
                    r is Ok
                }
            },
            None => r is Ok,
        },
{
    match stop {
        Some(s) => {
            if s.len() > 4 {
                Err(
                    GrokError::InvalidConfig(
                        String::from_str("maximum of 4 stop sequences allowed"),
                    ),
                )
            } else {
                Ok(())
            }
        },
        None => Ok(()),
    }
}

/// A validated client configuration: the plain values a transport needs.
#[derive(Debug, Clone)]
pub struct ClientConfig {
    /// The validated credential.
    pub api_key: String,
    /// Base URL of the service.
    pub base_url: String,
    /// Overall request timeout in milliseconds, if configured.
    pub timeout_ms: Option<u64>,
    /// User agent header value, if configured.
    pub user_agent: Option<String>,
    /// Trace identifier header value, if configured.
    pub request_id: Option<String>,
    /// Retry budget for transient failures.
    pub max_retries: u32,
    /// Base backoff delay in milliseconds.
    pub retry_delay_ms: u64,
}

/// Builder for creating a client configuration.
#[derive(Debug, Clone)]
pub struct ClientBuilder {
    /// The credential to validate.
    pub api_key: Option<String>,
    /// Base URL override.
    pub base_url: Option<String>,
    /// Overall request timeout in milliseconds.
    pub timeout_ms: Option<u64>,
    /// User agent header value.
    pub user_agent: Option<String>,
    /// Trace identifier header value.
    pub request_id: Option<String>,
    /// Retry budget override.
    pub max_retries: Option<u32>,
    /// Base backoff delay override, in milliseconds.
    pub retry_delay_ms: Option<u64>,
}

impl ClientBuilder {
    /// Create a new builder.
    pub fn new() -> (b: ClientBuilder)
        ensures
            b.api_key is None,
            b.base_url is None,
            b.timeout_ms is None,
            b.user_agent is None,
            b.request_id is None,
            b.max_retries is None,
            b.retry_delay_ms is None,
    {
        ClientBuilder {
            api_key: None,
            base_url: None,
            timeout_ms: None,
            user_agent: None,
            request_id: None,
            max_retries: None,
            retry_delay_ms: None,
        }
    }

    /// Set the API key.
    pub fn api_key(self, api_key: &str) -> (b: ClientBuilder)
        ensures
            b.api_key matches Some(k) && k@ == api_key@,
            b.base_url == self.base_url,
            b.timeout_ms == self.timeout_ms,
            b.user_agent == self.user_agent,
            b.request_id == self.request_id,
            b.max_retries == self.max_retries,
            b.retry_delay_ms == self.retry_delay_ms,
    {
        ClientBuilder { api_key: Some(api_key.to_owned()), ..self }
    }

    /// Set the base URL.
    pub fn base_url(self, base_url: &str) -> (b: ClientBuilder)
        ensures
            b.base_url matches Some(u) && u@ == base_url@,
            b.api_key == self.api_key,
            b.timeout_ms == self.timeout_ms,
            b.user_agent == self.user_agent,
            b.request_id == self.request_id,
            b.max_retries == self.max_retries,
            b.retry_delay_ms == self.retry_delay_ms,
    {
        ClientBuilder { base_url: Some(base_url.to_owned()), ..self }
    }

    /// Set the overall request timeout, in milliseconds.
    pub fn timeout(self, timeout_ms: u64) -> (b: ClientBuilder)
        ensures
            b == (ClientBuilder { timeout_ms: Some(timeout_ms), ..self }),
    {
        ClientBuilder { timeout_ms: Some(timeout_ms), ..self }
    }

    /// Set the user agent.
    pub fn user_agent(self, user_agent: &str) -> (b: ClientBuilder)
        ensures
            b.user_agent matches Some(u) && u@ == user_agent@,
            b.api_key == self.api_key,
            b.base_url == self.base_url,
            b.timeout_ms == self.timeout_ms,
            b.request_id == self.request_id,
            b.max_retries == self.max_retries,
            b.retry_delay_ms == self.retry_delay_ms,
    {
        ClientBuilder { user_agent: Some(user_agent.to_owned()), ..self }
    }

    /// Set a custom request ID.
    pub fn request_id(self, request_id: &str) -> (b: ClientBuilder)
        ensures
            b.request_id matches Some(i) && i@ == request_id@,
            b.api_key == self.api_key,
            b.base_url == self.base_url,
            b.timeout_ms == self.timeout_ms,
            b.user_agent == self.user_agent,
            b.max_retries == self.max_retries,
            b.retry_delay_ms == self.retry_delay_ms,
    {
        ClientBuilder { request_id: Some(request_id.to_owned()), ..self }
    }

    /// Set the maximum number of retries for failed requests.
    pub fn max_retries(self, max_retries: u32) -> (b: ClientBuilder)
        ensures
            b == (ClientBuilder { max_retries: Some(max_retries), ..self }),
    {
        ClientBuilder { max_retries: Some(max_retries), ..self }
    }

    /// Set the base delay between retries, in milliseconds.
    pub fn retry_delay(self, retry_delay_ms: u64) -> (b: ClientBuilder)
        ensures
            b == (ClientBuilder { retry_delay_ms: Some(retry_delay_ms), ..self }),
    {
        ClientBuilder { retry_delay_ms: Some(retry_delay_ms), ..self }
    }

    /// Build the configuration: the API key is required and validated, and
    /// absent settings take their default values.
    pub fn build(self) -> (r: Result<ClientConfig, GrokError>)
        ensures
            self.api_key is None ==> (r matches Err(GrokError::InvalidConfig(m)) && m@
                == "API key is required"@),
            self.api_key matches Some(k) ==> match api_key_issue(k@) {
                Some(m) => r matches Err(GrokError::InvalidApiKey(e)) && e@ == m,
                None => r matches Ok(c) && {
                    &&& c.api_key@ == trim_of(k@)
                    &&& match self.base_url {
                        Some(u) => c.base_url@ == u@,
                        None => c.base_url@ == "https://api.x.ai/v1"@,
                    }
                    &&& c.timeout_ms == self.timeout_ms
                    &&& c.user_agent == self.user_agent
                    &&& c.request_id == self.request_id
                    &&& c.max_retries == if self.max_retries is Some {
                        self.max_retries->0
                    } else {
                        3u32
                    }
                    &&& c.retry_delay_ms == if self.retry_delay_ms is Some {
                        self.retry_delay_ms->0
                    } else {
                        1000u64
                    }
                },
            },
    {
        let key = match self.api_key {
            Some(k) => k,
            None => {
                return Err(GrokError::InvalidConfig(String::from_str("API key is required")));
            },
        };
        let api_key = match validate_api_key(key.as_str()) {
            Ok(k) => k,
            Err(e) => {
                return Err(e);
            },
        };
        let base_url = match self.base_url {
            Some(u) => u,
            None => String::from_str("https://api.x.ai/v1"),
        };
        let max_retries = match self.max_retries {
            Some(n) => n,
            None => 3,
        };
        let retry_delay_ms = match self.retry_delay_ms {
            Some(n) => n,
            None => 1000,
        };
        Ok(
            ClientConfig {
                api_key,
                base_url,
                timeout_ms: self.timeout_ms,
                user_agent: self.user_agent,
                request_id: self.request_id,
                max_retries,
                retry_delay_ms,
            },
        )
    }
}

} // verus!
