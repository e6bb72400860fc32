use vstd::prelude::*;
use vstd::string::*;

use crate::error::SdkError;

verus! {

/// The name the library sends in its `User-Agent` header.
pub open spec fn sdk_name() -> Seq<char> {
    "mochow-sdk-rust"@
}

/// The `User-Agent` value for a configured user agent (empty when none is set).
pub open spec fn user_agent_value(user_agent: Seq<char>) -> Seq<char> {
    if user_agent.len() == 0 {
        sdk_name()
    } else {
        sdk_name() + "/"@ + user_agent
    }
}

/// Whether an endpoint already names its scheme.
pub open spec fn has_scheme(endpoint: Seq<char>) -> bool {
    "http://"@.is_prefix_of(endpoint) || "https://"@.is_prefix_of(endpoint)
}

/// An endpoint with `http://` put in front when it names no scheme.
pub open spec fn normalized_endpoint(endpoint: Seq<char>) -> Seq<char> {
    if has_scheme(endpoint) {
        endpoint
    } else {
        "http://"@ + endpoint
    }
}

/// Whether `p` is a prefix of `s`.
pub fn has_prefix(s: &str, p: &str) -> (r: bool)
    ensures
        r == p@.is_prefix_of(s@),
{
    let n = s.unicode_len();
    let m = p.unicode_len();
    if m > n {
        return false;
    }
    let mut i: usize = 0;
    while i < m
        invariant
            m <= n,
            n == s@.len(),
            m == p@.len(),
            i <= m,
            forall|k: int| 0 <= k < i ==> s@[k] == p@[k],
        decreases m - i,
    {
        if s.get_char(i) != p.get_char(i) {
            assert(p@ != s@.subrange(0, m as int));
            return false;
        }
        i = i + 1;
    }
    assert(p@ =~= s@.subrange(0, m as int));
    true
}

/// Puts `http://` in front of an endpoint that names no scheme.
pub fn normalize_endpoint(endpoint: &str) -> (r: String)
    ensures
        r@ == normalized_endpoint(endpoint@),
{
    if has_prefix(endpoint, "http://") || has_prefix(endpoint, "https://") {
        String::from_str(endpoint)
    } else {
        String::from_str("http://").concat(endpoint)
    }
}

/// Settings of a client. Account, key and endpoint are required; the API
/// version is fixed at `v1`.
#[derive(Debug, Clone)]
pub struct ClientConfiguration {
    pub account: String,
    pub api_key: String,
    pub endpoint: String,
    /// Version of the API; only `v1` exists.
    pub version: String,
    /// Time out of a request in seconds.
    pub time_out_seconds: u64,
    /// How many times a transient failure is retried.
    pub max_retries: u32,
    /// Appended to the SDK name in the `User-Agent` header when not empty.
    pub user_agent: String,
}

impl ClientConfiguration {
    /// The headers sent with every request: the `User-Agent`.
    pub fn get_request_headers(&self) -> (r: Vec<(String, String)>)
        ensures
            r@.len() == 1,
            r@[0].0@ == "user-agent"@,
            r@[0].1@ == user_agent_value(self.user_agent@),
    {
        let value = if self.user_agent.as_str().is_empty() {
            String::from_str("mochow-sdk-rust")
        } else {
            String::from_str("mochow-sdk-rust/").concat(self.user_agent.as_str())
        };
        proof {
            reveal_strlit("mochow-sdk-rust/");
            reveal_strlit("mochow-sdk-rust");
            reveal_strlit("/");
            assert("mochow-sdk-rust/"@ =~= sdk_name() + "/"@);
        }
        let mut headers: Vec<(String, String)> = Vec::new();
        headers.push((String::from_str("user-agent"), value));
        headers
    }
}

/// Collects the settings of a [`ClientConfiguration`]; `build` fails with a
/// `ParamsError` while a required one is missing.
#[derive(Debug, Clone)]
pub struct ClientConfigurationBuilder {
    pub account: Option<String>,
    pub api_key: Option<String>,
    pub endpoint: Option<String>,
    pub time_out_seconds: Option<u64>,
    pub max_retries: Option<u32>,
    pub user_agent: Option<String>,
}

impl Default for ClientConfigurationBuilder {
    fn default() -> (r: ClientConfigurationBuilder)
        ensures
            r.account is None,
            r.api_key is None,
            r.endpoint is None,
            r.time_out_seconds is None,
            r.max_retries is None,
            r.user_agent is None,
    {
        ClientConfigurationBuilder {
            account: None,
            api_key: None,
            endpoint: None,
            time_out_seconds: None,
            max_retries: None,
            user_agent: None,
        }
    }
}

/// A copy of an optional text.
fn copy_text(t: &Option<String>) -> (r: Option<String>)
    ensures
        r == *t,
{
    match t {
        Some(s) => Some(s.clone()),
        None => None,
    }
}

impl ClientConfigurationBuilder {
    pub fn account(self, account: &str) -> (r: ClientConfigurationBuilder)
        ensures
            r.account matches Some(a) && a@ == account@,
            r.api_key == self.api_key && r.endpoint == self.endpoint,
            r.time_out_seconds == self.time_out_seconds && r.max_retries == self.max_retries,
            r.user_agent == self.user_agent,
    {
        ClientConfigurationBuilder { account: Some(String::from_str(account)), ..self }
    }

    pub fn api_key(self, api_key: &str) -> (r: ClientConfigurationBuilder)
        ensures
            r.api_key matches Some(a) && a@ == api_key@,
            r.account == self.account && r.endpoint == self.endpoint,
            r.time_out_seconds == self.time_out_seconds && r.max_retries == self.max_retries,
            r.user_agent == self.user_agent,
    {
        ClientConfigurationBuilder { api_key: Some(String::from_str(api_key)), ..self }
    }

    pub fn endpoint(self, endpoint: &str) -> (r: ClientConfigurationBuilder)
        ensures
            r.endpoint matches Some(a) && a@ == endpoint@,
            r.account == self.account && r.api_key == self.api_key,
            r.time_out_seconds == self.time_out_seconds && r.max_retries == self.max_retries,
            r.user_agent == self.user_agent,
    {
        ClientConfigurationBuilder { endpoint: Some(String::from_str(endpoint)), ..self }
    }

    pub fn time_out_seconds(self, seconds: u64) -> (r: ClientConfigurationBuilder)
        ensures
            r.time_out_seconds == Some(seconds),
            r.account == self.account && r.api_key == self.api_key && r.endpoint == self.endpoint,
            r.max_retries == self.max_retries && r.user_agent == self.user_agent,
    {
        ClientConfigurationBuilder { time_out_seconds: Some(seconds), ..self }
    }

    pub fn max_retries(self, retries: u32) -> (r: ClientConfigurationBuilder)
        ensures
            r.max_retries == Some(retries),
            r.account == self.account && r.api_key == self.api_key && r.endpoint == self.endpoint,
            r.time_out_seconds == self.time_out_seconds && r.user_agent == self.user_agent,
    {
        ClientConfigurationBuilder { max_retries: Some(retries), ..self }
    }

    pub fn user_agent(self, user_agent: &str) -> (r: ClientConfigurationBuilder)
        ensures
            r.user_agent matches Some(a) && a@ == user_agent@,
            r.account == self.account && r.api_key == self.api_key && r.endpoint == self.endpoint,
            r.time_out_seconds == self.time_out_seconds && r.max_retries == self.max_retries,
    {
        ClientConfigurationBuilder { user_agent: Some(String::from_str(user_agent)), ..self }
    }

    /// The configuration, with a time out of 30 s, 3 retries, no user agent
    /// and version `v1` where nothing else was set.
    pub fn build(&self) -> (r: Result<ClientConfiguration, SdkError>)
        ensures
            r is Ok <==> self.account is Some && self.api_key is Some && self.endpoint is Some,
            r matches Ok(c) ==> {
                &&& self.account == Some(c.account)
                &&& self.api_key == Some(c.api_key)
                &&& self.endpoint == Some(c.endpoint)
                &&& c.version@ == "v1"@
                &&& c.time_out_seconds == (match self.time_out_seconds {
                    Some(t) => t,
                    None => 30,
                })
                &&& c.max_retries == (match self.max_retries {
                    Some(n) => n,
                    None => 3,
                })
                &&& c.user_agent@ == (match self.user_agent {
                    Some(u) => u@,
                    None => Seq::<char>::empty(),
                })
            },
            self.account is None ==> (r matches Err(SdkError::ParamsError(m))
                && m@ == "`account` must be initialized"@),
            self.account is Some && self.api_key is None ==> (r matches Err(
                SdkError::ParamsError(m),
            ) && m@ == "`api_key` must be initialized"@),
            self.account is Some && self.api_key is Some && self.endpoint is None ==> (r matches Err(
                SdkError::ParamsError(m),
            ) && m@ == "`endpoint` must be initialized"@),
    {
        let account = match copy_text(&self.account) {
            Some(a) => a,
            None => {
                return Err(SdkError::ParamsError(String::from_str("`account` must be initialized")));
            },
        };
        let api_key = match copy_text(&self.api_key) {
            Some(a) => a,
            None => {
                return Err(SdkError::ParamsError(String::from_str("`api_key` must be initialized")));
            },
        };
        let endpoint = match copy_text(&self.endpoint) {
            Some(a) => a,
            None => {
                return Err(
                    SdkError::ParamsError(String::from_str("`endpoint` must be initialized")),
                );
            },
        };
        let time_out_seconds = match self.time_out_seconds {
            Some(t) => t,
            None => 30,
        };
        let max_retries = match self.max_retries {
            Some(n) => n,
            None => 3,
        };
        let user_agent = match copy_text(&self.user_agent) {
            Some(u) => u,
            None => String::new(),
        };
        Ok(ClientConfiguration {
            account,
            api_key,
            endpoint,
            version: String::from_str("v1"),
            time_out_seconds,
            max_retries,
            user_agent,
        })
    }
}

} // verus!
