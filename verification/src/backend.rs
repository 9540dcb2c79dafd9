//! The model invoker, as far as it computes: the request that goes to the
//! completion backend, and what is made of its response.

use vstd::prelude::*;
use vstd::string::StrSliceExecFns;
use vstd::string::StringExecFns;
use crate::config::{Config, ConfigView};
use crate::sanitize::{clean, clean_command_output};

verus! {

#[verifier::external_type_specification]
#[verifier::external_body]
pub struct ExJsonError(serde_json::Error);

/// Why no command came back from the backend. Each of these ends the run.
#[derive(Debug, Clone, Copy, PartialEq, Eq, Structural)]
pub enum BackendError {
    /// The endpoint, the credential or the model is not set.
    MissingConfig,
    /// The call did not complete.
    Transport,
    /// The backend answered with a status that is no success.
    HttpStatus(u16),
    /// The response is not JSON.
    BadResponse,
    /// The response holds no text where the reply is expected.
    MissingContent,
}

/// One call of the backend, ready to be sent.
#[derive(Debug, Clone, PartialEq, Eq)]
pub struct Request {
    pub url: String,
    pub authorization: String,
    pub body: String,
}

/// A text as a JSON string literal, quoted and escaped as `serde_json` writes it.
pub uninterp spec fn json_string(text: Seq<char>) -> Seq<char>;

/// Calls `serde_json::Value::to_string` on a `Value::String` made of the text:
/// the compact JSON form of one string. The contract only gives it its name.
#[verifier::external_body]
fn quote_json(text: &str) -> (literal: String)
    ensures
        literal@ == json_string(text@),
{
    serde_json::Value::String(text.to_string()).to_string()
}

/// What `serde_json` reads in a body at `[first][index][second][third]`:
/// `None` where the body is no JSON, `Some(None)` where it is and no string
/// stands at that place, else the string.
pub uninterp spec fn json_text_at(
    body: Seq<char>,
    first: Seq<char>,
    index: nat,
    second: Seq<char>,
    third: Seq<char>,
) -> Option<Option<Seq<char>>>;

/// Calls `serde_json::from_str` for a `Value`, indexes it by a key, a
/// position in an array and two more keys (`Value`'s `Index`, which gives
/// `Null` for whatever is absent), and copies out the string found there
/// (`Value::as_str`). An error is a body that `from_str` refused.
#[verifier::external_body]
fn lookup_text(body: &str, first: &str, index: usize, second: &str, third: &str) -> (found: Result<
    Option<String>,
    serde_json::Error,
>)
    ensures
        match found {
            Ok(Some(text)) => json_text_at(body@, first@, index as nat, second@, third@) == Some(
                Some(text@),
            ),
            Ok(None) => json_text_at(body@, first@, index as nat, second@, third@) == Some(
                None::<Seq<char>>,
            ),
            Err(_) => json_text_at(body@, first@, index as nat, second@, third@) is None,
        },
{
    let value: serde_json::Value = serde_json::from_str(body)?;
    Ok(value[first][index][second][third].as_str().map(|text| text.to_string()))
}

/// Whether the settings name an endpoint, a credential and a model.
pub open spec fn is_complete(config: ConfigView) -> bool {
    config.base_url.len() > 0 && config.api_key.len() > 0 && config.model.len() > 0
}

/// The address of the completion call.
pub open spec fn request_url(config: ConfigView) -> Seq<char> {
    config.base_url + "/chat/completions"@
}

/// The header that carries the credential.
pub open spec fn request_authorization(config: ConfigView) -> Seq<char> {
    "Bearer "@ + config.api_key
}

/// The JSON body: the model, then a system message and a user message.
pub open spec fn request_body(model: Seq<char>, system_text: Seq<char>, user_text: Seq<char>) -> Seq<
    char,
> {
    "{\"model\":"@ + json_string(model) + ",\"messages\":[{\"role\":\"system\",\"content\":"@
        + json_string(system_text) + "},{\"role\":\"user\",\"content\":"@ + json_string(user_text)
        + "}]}"@
}

/// Whether a status code reports success.
pub open spec fn is_success(status: u16) -> bool {
    200 <= status < 300
}

/// What a string found or not found in the response amounts to.
pub open spec fn content_or_error(found: Option<Option<Seq<char>>>) -> Result<
    Seq<char>,
    BackendError,
> {
    match found {
        None => Err(BackendError::BadResponse),
        Some(None) => Err(BackendError::MissingContent),
        Some(Some(text)) => Ok(text),
    }
}

/// The raw reply in a response, or the error that the response amounts to.
pub open spec fn reply_of(status: u16, body: Seq<char>) -> Result<Seq<char>, BackendError> {
    if !is_success(status) {
        Err(BackendError::HttpStatus(status))
    } else {
        content_or_error(json_text_at(body, "choices"@, 0, "message"@, "content"@))
    }
}

/// The command in a response, or the error that the response amounts to.
pub open spec fn command_of(status: u16, body: Seq<char>) -> Result<Seq<char>, BackendError> {
    match reply_of(status, body) {
        Ok(raw) => Ok(clean(raw)),
        Err(e) => Err(e),
    }
}

/// Whether an exec result and a result over plain values say the same.
pub open spec fn same_result(got: Result<String, BackendError>, want: Result<Seq<char>, BackendError>) -> bool {
    match got {
        Ok(text) => want == Ok::<Seq<char>, BackendError>(text@),
        Err(e) => want == Err::<Seq<char>, BackendError>(e),
    }
}

/// Builds the call of the backend. It is refused, before anything is sent,
/// where the endpoint, the credential or the model is empty.
pub fn build_request(config: &Config, system_text: &str, user_text: &str) -> (request: Result<
    Request,
    BackendError,
>)
    ensures
        match request {
            Ok(r) => {
                &&& is_complete(config@)
                &&& r.url@ == request_url(config@)
                &&& r.authorization@ == request_authorization(config@)
                &&& r.body@ == request_body(config@.model, system_text@, user_text@)
            },
            Err(e) => !is_complete(config@) && e == BackendError::MissingConfig,
        },
{
    if config.api.base_url.as_str().is_empty() || config.api.api_key.as_str().is_empty()
        || config.api.model.as_str().is_empty() {
        return Err(BackendError::MissingConfig);
    }
    let mut url = String::from_str(config.api.base_url.as_str());
    url.append("/chat/completions");
    let mut authorization = String::from_str("Bearer ");
    authorization.append(config.api.api_key.as_str());
    let model = quote_json(config.api.model.as_str());
    let system = quote_json(system_text);
    let user = quote_json(user_text);
    let mut body = String::from_str("{\"model\":");
    body.append(model.as_str());
    body.append(",\"messages\":[{\"role\":\"system\",\"content\":");
    body.append(system.as_str());
    body.append("},{\"role\":\"user\",\"content\":");
    body.append(user.as_str());
    body.append("}]}");
    Ok(Request { url, authorization, body })
}

/// Turns what was found in a response into the raw reply or an error: a body
/// that is no JSON, or one without the text, is an error of its own.
pub fn content_of(found: Result<Option<String>, serde_json::Error>) -> (reply: Result<
    String,
    BackendError,
>)
    ensures
        match found {
            Ok(Some(text)) => reply == Ok::<String, BackendError>(text),
            Ok(None) => reply == Err::<String, BackendError>(BackendError::MissingContent),
            Err(_) => reply == Err::<String, BackendError>(BackendError::BadResponse),
        },
{
    match found {
        Ok(Some(text)) => Ok(text),
        Ok(None) => Err(BackendError::MissingContent),
        Err(_) => Err(BackendError::BadResponse),
    }
}

/// Reads the raw reply out of a response: the string at
/// `choices[0].message.content` of a body that came with a success status.
pub fn read_response(status: u16, body: &str) -> (reply: Result<String, BackendError>)
    ensures
        same_result(reply, reply_of(status, body@)),
{
    if status < 200 || status >= 300 {
        return Err(BackendError::HttpStatus(status));
    }
    content_of(lookup_text(body, "choices", 0, "message", "content"))
}

/// Reads the command out of a response: the raw reply, sanitized.
pub fn command_from_response(status: u16, body: &str) -> (command: Result<String, BackendError>)
    ensures
        same_result(command, command_of(status, body@)),
{
    match read_response(status, body) {
        Ok(raw) => Ok(clean_command_output(raw.as_str())),
        Err(e) => Err(e),
    }
}

} // verus!
