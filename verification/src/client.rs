//! The call to the provider, as far as it is decided before and after the wire:
//! where the request goes, how it is authorized, which answers count as answers,
//! and what a failed request tells the caller.

use vstd::prelude::*;
use vstd::string::StringExecFns;

verus! {

/// Where the provider listens; the path of the completion route is appended to it.
pub const PROVIDER_BASE: &'static str = "https://api.groq.com/openai";

/// The route of chat completions, below the provider's base and on the proxy alike.
pub const COMPLETIONS_PATH: &'static str = "/v1/chat/completions";

/// Seconds after which a call that got no answer counts as failed.
pub const UPSTREAM_TIMEOUT_SECONDS: u64 = 60;

/// The status that a failed request is answered with.
pub const FAILURE_STATUS: u16 = 500;

/// The address that a completion request is posted to.
pub fn completions_url() -> (url: String)
    ensures
        url@ == PROVIDER_BASE@ + COMPLETIONS_PATH@,
{
    let mut url = String::from_str(PROVIDER_BASE);
    url.append(COMPLETIONS_PATH);
    url
}

/// The value of the `Authorization` header: `Bearer`, a space, and the key.
pub fn bearer_authorization(api_key: &str) -> (value: String)
    ensures
        value@ == "Bearer "@ + api_key@,
{
    let mut value = String::from_str("Bearer ");
    value.append(api_key);
    value
}

/// An HTTP status is an answer when it lies in 200..=299.
pub open spec fn is_success(status: u16) -> bool {
    200 <= status <= 299
}

/// Whether the provider's status lets its body count as a completion; any other
/// status is a failed call.
pub fn status_is_success(status: u16) -> (ok: bool)
    ensures
        ok == is_success(status),
{
    200 <= status && status <= 299
}

/// Why a request could not be answered.
#[derive(Debug, PartialEq, Eq)]
pub enum Failure {
    /// The provider could not be reached, timed out, or answered outside 200..=299.
    /// The text is the cause.
    Upstream(String),
    /// The provider's answer could not be serialized for the cache. The text is the cause.
    Serialization(String),
    /// The pipeline was handed an event that answers none of its pending actions.
    UnexpectedEvent,
}

/// A failure as plain mathematical values.
pub ghost enum FailureView {
    Upstream(Seq<char>),
    Serialization(Seq<char>),
    UnexpectedEvent,
}

impl View for Failure {
    type V = FailureView;

    open spec fn view(&self) -> FailureView {
        match self {
            Failure::Upstream(cause) => FailureView::Upstream(cause@),
            Failure::Serialization(cause) => FailureView::Serialization(cause@),
            Failure::UnexpectedEvent => FailureView::UnexpectedEvent,
        }
    }
}

/// The message that goes to the caller with a failure: what failed, then the cause.
pub open spec fn failure_message(failure: FailureView) -> Seq<char> {
    match failure {
        FailureView::Upstream(cause) => "LLM API error: "@ + cause,
        FailureView::Serialization(cause) => "Serialization error: "@ + cause,
        FailureView::UnexpectedEvent => "Pipeline error: unexpected event"@,
    }
}

impl Failure {
    /// The HTTP status of the answer: every failure is a 500.
    pub fn status(&self) -> (status: u16)
        ensures
            status == FAILURE_STATUS,
            !is_success(status),
    {
        FAILURE_STATUS
    }

    /// The message that goes to the caller.
    pub fn message(&self) -> (message: String)
        ensures
            message@ == failure_message(self@),
    {
        match self {
            Failure::Upstream(cause) => {
                let mut message = String::from_str("LLM API error: ");
                message.append(cause.as_str());
                message
            },
            Failure::Serialization(cause) => {
                let mut message = String::from_str("Serialization error: ");
                message.append(cause.as_str());
                message
            },
            Failure::UnexpectedEvent => String::from_str("Pipeline error: unexpected event"),
        }
    }
}

} // verus!
