//! What the search backend answered, and how the answer is classified.
//!
//! The gateway sends one search per request and receives either a reply
//! (a status and a body) or no reply at all. A reply with a status from 200
//! to 299 is a success and its body is read as JSON; any other reply is a
//! rejection that carries the backend's status.

use crate::codec::parsed_json;
use crate::json::{optional_value, Json, JsonValue};
use vstd::prelude::*;
use vstd::string::StringExecFns;

verus! {

/// The outcome of the one call to the backend, as the transport saw it.
#[derive(Clone, Debug, PartialEq, Eq)]
pub enum Outcome {
    /// The backend replied. The body matters only for a successful status.
    Replied { status: u16, body: String },
    /// The call failed before any reply came; `detail` describes the failure.
    Failed { detail: String },
}

/// Why a search gave no result.
#[derive(Clone, Debug, PartialEq, Eq)]
pub enum BackendError {
    /// The backend replied with a status that is no success.
    Rejected { status: u16 },
    /// The backend could not be reached.
    Unreachable { detail: String },
}

/// What a backend error says.
pub enum BackendErrorView {
    Rejected { status: u16 },
    Unreachable { detail: Seq<char> },
}

impl View for BackendError {
    type V = BackendErrorView;

    open spec fn view(&self) -> BackendErrorView {
        match self {
            BackendError::Rejected { status } => BackendErrorView::Rejected { status: *status },
            BackendError::Unreachable { detail } => BackendErrorView::Unreachable {
                detail: detail@,
            },
        }
    }
}

/// What an outcome says.
pub enum OutcomeView {
    Replied { status: u16, body: Seq<char> },
    Failed { detail: Seq<char> },
}

impl View for Outcome {
    type V = OutcomeView;

    open spec fn view(&self) -> OutcomeView {
        match self {
            Outcome::Replied { status, body } => OutcomeView::Replied {
                status: *status,
                body: body@,
            },
            Outcome::Failed { detail } => OutcomeView::Failed { detail: detail@ },
        }
    }
}

/// Whether a status reports success.
pub open spec fn is_success(status: u16) -> bool {
    200 <= status <= 299
}

/// The result of a reply, given what its body is as JSON. There is none
/// where a successful reply carries a body that is not JSON; the body of
/// any other reply is not looked at.
pub open spec fn reply_result(status: u16, parsed: Option<JsonValue>) -> Option<
    Result<JsonValue, BackendErrorView>,
> {
    if is_success(status) {
        match parsed {
            Some(document) => Some(Ok(document)),
            None => None,
        }
    } else {
        Some(Err(BackendErrorView::Rejected { status }))
    }
}

/// The result of a search as the outcome gives it.
pub open spec fn classified(outcome: OutcomeView) -> Option<Result<JsonValue, BackendErrorView>> {
    match outcome {
        OutcomeView::Failed { detail } => Some(Err(BackendErrorView::Unreachable { detail })),
        OutcomeView::Replied { status, body } => reply_result(status, parsed_json(body)),
    }
}

/// What a search result says.
pub open spec fn result_view(result: Result<Json, BackendError>) -> Result<
    JsonValue,
    BackendErrorView,
> {
    match result {
        Ok(document) => Ok(document@),
        Err(error) => Err(error@),
    }
}

/// What a search result says, where there is one.
pub open spec fn optional_result(result: Option<Result<Json, BackendError>>) -> Option<
    Result<JsonValue, BackendErrorView>,
> {
    match result {
        Some(r) => Some(result_view(r)),
        None => None,
    }
}

/// The path of the search endpoint of a collection.
pub open spec fn search_path(collection: Seq<char>) -> Seq<char> {
    "/"@ + collection + "/_search"@
}

/// Where the backend is and how the gateway identifies itself to it.
#[derive(Clone, Debug, PartialEq, Eq)]
pub struct BackendConfig {
    pub host: String,
    pub username: String,
    pub password: String,
}

/// A setting, or its default where it is not set.
pub open spec fn setting(value: Option<String>, default: Seq<char>) -> Seq<char> {
    match value {
        Some(text) => text@,
        None => default,
    }
}

/// A setting, or its default where it is not set.
fn setting_or(value: Option<String>, default: &str) -> (text: String)
    ensures
        text@ == setting(value, default@),
{
    match value {
        Some(text) => text,
        None => default.to_owned(),
    }
}

impl BackendConfig {
    /// The configuration for the given settings. A setting that is not
    /// given has the value that suits a backend on the same machine.
    pub fn new(host: Option<String>, username: Option<String>, password: Option<String>) -> (config:
        BackendConfig)
        ensures
            config.host@ == setting(host, "http://localhost:9200"@),
            config.username@ == setting(username, "elastic"@),
            config.password@ == setting(password, "password"@),
    {
        BackendConfig {
            host: setting_or(host, "http://localhost:9200"),
            username: setting_or(username, "elastic"),
            password: setting_or(password, "password"),
        }
    }

    /// The address to which the search of a collection is sent.
    pub fn search_url(&self, collection: &str) -> (url: String)
        ensures
            url@ == self.host@ + search_path(collection@),
    {
        let path = search_path_of(collection);
        self.host.clone().concat(path.as_str())
    }
}

/// Whether a status reports success.
pub fn status_is_success(status: u16) -> (b: bool)
    ensures
        b == is_success(status),
{
    200 <= status && status <= 299
}

/// The result of a reply, given what the JSON reader made of its body.
pub fn classify_reply(status: u16, parsed: Option<Json>) -> (result: Option<
    Result<Json, BackendError>,
>)
    ensures
        optional_result(result) == reply_result(status, optional_value(parsed)),
{
    if status_is_success(status) {
        match parsed {
            Some(document) => Some(Ok(document)),
            None => None,
        }
    } else {
        Some(Err(BackendError::Rejected { status }))
    }
}

/// Classifies the outcome of the call to the backend. `None` exactly where
/// a successful reply carries a body that is not JSON.
pub fn classify(outcome: &Outcome) -> (result: Option<Result<Json, BackendError>>)
    ensures
        optional_result(result) == classified(outcome@),
{
    match outcome {
        Outcome::Failed { detail } => Some(
            Err(BackendError::Unreachable { detail: detail.clone() }),
        ),
        Outcome::Replied { status, body } => {
            let parsed = if status_is_success(*status) {
                Json::parse(body.as_str())
            } else {
                None
            };
            classify_reply(*status, parsed)
        },
    }
}

/// The path under the backend's address to which the search of a
/// collection is sent.
pub fn search_path_of(collection: &str) -> (path: String)
    ensures
        path@ == search_path(collection@),
{
    "/".to_owned().concat(collection).concat("/_search")
}

} // verus!
