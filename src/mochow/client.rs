use vstd::prelude::*;
use vstd::string::*;

use crate::auth::credentials::Credentials;
use crate::error::SdkError;
use crate::mochow::api::common::{CommonResponse, ServiceError};
use crate::mochow::api::enums::server_code_of;
use crate::mochow::config::{ClientConfiguration, normalize_endpoint, normalized_endpoint, has_scheme};
use crate::mochow::json::{JsonValue, int_at, str_at, read_int, read_str};

verus! {

/// The HTTP method of a request.
#[derive(Debug, Clone, Copy, PartialEq, Eq, Structural)]
pub enum HttpMethod {
    Post,
    Delete,
}

/// A request ready to be sent: method, full URL and JSON body, if any.
#[derive(Debug)]
pub struct HttpRequest {
    pub method: HttpMethod,
    pub url: String,
    pub body: Option<JsonValue>,
}

/// `<endpoint>/<version>/<segment>`, followed by `?<action>` when there is one.
pub open spec fn url_of(
    endpoint: Seq<char>,
    version: Seq<char>,
    segment: Seq<char>,
    action: Seq<char>,
) -> Seq<char> {
    let base = endpoint + "/"@ + version + "/"@ + segment;
    if action.len() == 0 {
        base
    } else {
        base + "?"@ + action
    }
}

/// The URL of an operation: `segment` is the resource (`database`, `table`,
/// `index`, `row`), `action` the query that selects the operation.
pub fn request_url(config: &ClientConfiguration, segment: &str, action: &str) -> (r: String)
    ensures
        r@ == url_of(config.endpoint@, config.version@, segment@, action@),
{
    let base = config.endpoint.clone().concat("/").concat(config.version.as_str()).concat(
        "/",
    ).concat(segment);
    if action.is_empty() {
        base
    } else {
        base.concat("?").concat(action)
    }
}

/// What a client is made of, once its configuration was checked.
#[derive(Debug)]
pub struct ClientParts {
    pub credential: Credentials,
    pub configuration: ClientConfiguration,
}

/// Checks a configuration and derives the credentials of a client from it.
/// Account, key and endpoint must be non-empty; the endpoint gains `http://`
/// when it names no scheme.
pub fn prepare_client(config: &ClientConfiguration) -> (r: Result<ClientParts, SdkError>)
    ensures
        r is Ok <==> config.account@.len() > 0 && config.api_key@.len() > 0
            && config.endpoint@.len() > 0,
        r matches Err(e) ==> (e matches SdkError::ParamsError(m)
            && m@ == "account, apiKey and endpoint missing for creating mochow client"@),
        r matches Ok(p) ==> {
            &&& p.credential.wf()
            &&& p.credential.account_view() == config.account@
            &&& p.credential.api_key_view() == config.api_key@
            &&& p.configuration.endpoint@ == normalized_endpoint(config.endpoint@)
            &&& p.configuration.account == config.account
            &&& p.configuration.api_key == config.api_key
            &&& p.configuration.version == config.version
            &&& p.configuration.time_out_seconds == config.time_out_seconds
            &&& p.configuration.max_retries == config.max_retries
            &&& p.configuration.user_agent == config.user_agent
        },
{
    if config.account.as_str().is_empty() || config.api_key.as_str().is_empty()
        || config.endpoint.as_str().is_empty() {
        return Err(
            SdkError::ParamsError(
                String::from_str("account, apiKey and endpoint missing for creating mochow client"),
            ),
        );
    }
    let credential = match Credentials::new(config.account.as_str(), config.api_key.as_str()) {
        Ok(c) => c,
        Err(e) => {
            return Err(e);
        },
    };
    let configuration = ClientConfiguration {
        account: config.account.clone(),
        api_key: config.api_key.clone(),
        endpoint: normalize_endpoint(config.endpoint.as_str()),
        version: config.version.clone(),
        time_out_seconds: config.time_out_seconds,
        max_retries: config.max_retries,
        user_agent: config.user_agent.clone(),
    };
    Ok(ClientParts { credential, configuration })
}

/// An endpoint that names its scheme is kept; any other gains `http://`.
/// Normalizing twice changes nothing more.
pub proof fn lemma_endpoint_normalization(endpoint: Seq<char>)
    ensures
        has_scheme(endpoint) ==> normalized_endpoint(endpoint) == endpoint,
        !has_scheme(endpoint) ==> normalized_endpoint(endpoint) == "http://"@ + endpoint,
        has_scheme(normalized_endpoint(endpoint)),
        normalized_endpoint(normalized_endpoint(endpoint)) == normalized_endpoint(endpoint),
{
    if !has_scheme(endpoint) {
        let n = "http://"@ + endpoint;
        assert(n.subrange(0, "http://"@.len() as int) =~= "http://"@);
    }
}

/// The bearer value of a request: the token when it is not empty.
pub fn bearer_token(credential: &Credentials) -> (r: Option<&str>)
    ensures
        credential.token_view().len() == 0 <==> r is None,
        r matches Some(t) ==> t@ == credential.token_view(),
{
    let t = credential.token();
    if t.is_empty() {
        None
    } else {
        Some(t)
    }
}

/// Whether a status is a client (4xx) or server (5xx) error.
pub open spec fn is_error_status_spec(status: u16) -> bool {
    400 <= status <= 599
}

pub fn is_error_status(status: u16) -> (r: bool)
    ensures
        r == is_error_status_spec(status),
{
    400 <= status && status <= 599
}

/// The body of an error answer: `code` an integer of 32 bits and `msg` a string.
pub open spec fn common_response_decodes(j: JsonValue) -> bool {
    &&& int_at(j, "code"@) matches Some(c) && i32::MIN <= c <= i32::MAX
    &&& str_at(j, "msg"@) is Some
}

impl CommonResponse {
    /// Decodes `{"code": <int>, "msg": <string>}`; other members are ignored.
    pub fn from_json(j: &JsonValue) -> (r: Option<CommonResponse>)
        ensures
            r is Some <==> common_response_decodes(*j),
            r matches Some(c) ==> int_at(*j, "code"@) == Some(c.code as int) && str_at(
                *j,
                "msg"@,
            ) == Some(c.msg@),
    {
        let code = match read_int(j, "code") {
            Some(c) => c,
            None => {
                return None;
            },
        };
        if code < i32::MIN as i128 || code > i32::MAX as i128 {
            return None;
        }
        let msg = match read_str(j, "msg") {
            Some(m) => m,
            None => {
                return None;
            },
        };
        Some(CommonResponse { code: code as i32, msg })
    }
}

/// The prefix of the message that stands in for an error body that does not decode.
pub open spec fn undecodable_prefix() -> Seq<char> {
    "Service json error message decode failed: "@
}

/// The error for an answer with a 4xx or 5xx status. `request_id` is the
/// `Request-ID` header, `body` the parsed body or the reason it did not parse.
/// A body that does not decode stands as code -1 with a message that says why.
pub fn service_error(status: u16, request_id: Option<String>, body: Result<JsonValue, String>) -> (r:
    ServiceError)
    requires
        is_error_status_spec(status),
    ensures
        r.status_code == status as i32,
        r.request_id@ == (match request_id {
            Some(id) => id@,
            None => Seq::<char>::empty(),
        }),
        r.server_code == server_code_of(r.resp.code),
        match body {
            Ok(j) => if common_response_decodes(j) {
                int_at(j, "code"@) == Some(r.resp.code as int) && str_at(j, "msg"@) == Some(
                    r.resp.msg@,
                )
            } else {
                r.resp.code == -1 && r.resp.msg@ == undecodable_prefix()
                    + "missing or mistyped `code` or `msg`"@
            },
            Err(reason) => r.resp.code == -1 && r.resp.msg@ == undecodable_prefix() + reason@,
        },
{
    let request_id = match request_id {
        Some(id) => id,
        None => String::new(),
    };
    let prefix = String::from_str("Service json error message decode failed: ");
    let resp = match body {
        Ok(j) => match CommonResponse::from_json(&j) {
            Some(c) => c,
            None => {
                CommonResponse { code: -1, msg: prefix.concat("missing or mistyped `code` or `msg`") }
            },
        },
        Err(reason) => CommonResponse { code: -1, msg: prefix.concat(reason.as_str()) },
    };
    let server_code = crate::mochow::api::enums::ServerErrorCode::from(resp.code);
    ServiceError { status_code: status as i32, request_id, resp, server_code }
}

/// Whether `name` is among `names`.
pub fn contains_name(names: &Vec<String>, name: &str) -> (r: bool)
    ensures
        r == exists|i: int| 0 <= i < names@.len() && names@[i]@ == name@,
{
    let mut i: usize = 0;
    while i < names.len()
        invariant
            i <= names@.len(),
            forall|k: int| 0 <= k < i ==> names@[k]@ != name@,
        decreases names@.len() - i,
    {
        if same_name(&names[i], name) {
            return true;
        }
        i = i + 1;
    }
    false
}

fn same_name(a: &String, b: &str) -> (r: bool)
    ensures
        r == (a@ == b@),
{
    crate::mochow::json::same_text(a.as_str(), b)
}

} // verus!
