//! How a call of the backend can fail, and what the caller is told.
//!
//! Every failure is final for the session: nothing here retries.

use crate::agent::agent_loop::AgentConfig;
use crate::text::push_decimal;
use crate::text::decimal;
use vstd::prelude::*;

verus! {

/// A failed call of the backend.
#[derive(Debug, PartialEq, Eq)]
pub enum TransportError {
    /// No connection to the backend at this address.
    Unreachable { url: String },
    /// No answer within the deadline, given in seconds.
    TimedOut { seconds: u64 },
    /// The request could not be sent for another reason.
    SendFailed { detail: String },
    /// The backend answered with a status that is not a success.
    Rejected { status: u16, status_line: String, body: String },
    /// The body of the answer is not what the protocol prescribes.
    ParseFailure { detail: String },
}

/// A `TransportError` with its strings as character sequences.
pub enum TransportErrorView {
    Unreachable { url: Seq<char> },
    TimedOut { seconds: u64 },
    SendFailed { detail: Seq<char> },
    Rejected { status: u16, status_line: Seq<char>, body: Seq<char> },
    ParseFailure { detail: Seq<char> },
}

impl View for TransportError {
    type V = TransportErrorView;

    open spec fn view(&self) -> TransportErrorView {
        match self {
            TransportError::Unreachable { url } => TransportErrorView::Unreachable { url: url@ },
            TransportError::TimedOut { seconds } => TransportErrorView::TimedOut {
                seconds: *seconds,
            },
            TransportError::SendFailed { detail } => TransportErrorView::SendFailed {
                detail: detail@,
            },
            TransportError::Rejected { status, status_line, body } => TransportErrorView::Rejected {
                status: *status,
                status_line: status_line@,
                body: body@,
            },
            TransportError::ParseFailure { detail } => TransportErrorView::ParseFailure {
                detail: detail@,
            },
        }
    }
}

/// The address that chat requests go to.
pub fn chat_endpoint(config: &AgentConfig) -> (url: String)
    ensures
        url@ == config.ollama_url@ + "/api/chat"@,
{
    let mut url = config.ollama_url.clone();
    url.append("/api/chat");
    url
}

/// The failure that a request which was not answered stands for: a timeout
/// before all, then a failed connection, then anything else.
pub open spec fn send_failure(
    timed_out: bool,
    connect_failed: bool,
    detail: Seq<char>,
    config: AgentConfig,
) -> TransportErrorView {
    if timed_out {
        TransportErrorView::TimedOut { seconds: config.timeout_seconds }
    } else if connect_failed {
        TransportErrorView::Unreachable { url: config.ollama_url@ }
    } else {
        TransportErrorView::SendFailed { detail }
    }
}

/// Classifies a request that was not answered.
pub fn classify_send_failure(
    timed_out: bool,
    connect_failed: bool,
    detail: String,
    config: &AgentConfig,
) -> (error: TransportError)
    ensures
        error@ == send_failure(timed_out, connect_failed, detail@, *config),
{
    if timed_out {
        TransportError::TimedOut { seconds: config.timeout_seconds }
    } else if connect_failed {
        TransportError::Unreachable { url: config.ollama_url.clone() }
    } else {
        TransportError::SendFailed { detail }
    }
}

/// Whether an HTTP status stands for success.
pub open spec fn is_success(status: u16) -> bool {
    200 <= status <= 299
}

/// Accepts an answer with a success status and rejects every other, with
/// status and body.
pub fn check_status(status: u16, status_line: String, body: String) -> (checked: Result<
    (),
    TransportError,
>)
    ensures
        match checked {
            Ok(_) => is_success(status),
            Err(error) => !is_success(status) && error@ == (TransportErrorView::Rejected {
                status,
                status_line: status_line@,
                body: body@,
            }),
        },
{
    if 200 <= status && status <= 299 {
        Ok(())
    } else {
        Err(TransportError::Rejected { status, status_line, body })
    }
}

/// What the caller is told of a failure. With `with_hint`, a timeout and a
/// failed connection come with advice.
pub open spec fn failure_text(error: TransportErrorView, with_hint: bool) -> Seq<char> {
    match error {
        TransportErrorView::TimedOut { seconds } => "Request timed out after "@ + decimal(
            seconds as nat,
        ) + if with_hint {
            "s. Try a different model."@
        } else {
            "s"@
        },
        TransportErrorView::Unreachable { url } => "Cannot connect to Ollama at "@ + url
            + if with_hint {
            ". Is Ollama running?"@
        } else {
            Seq::<char>::empty()
        },
        TransportErrorView::SendFailed { detail } => "Failed to send request: "@ + detail,
        TransportErrorView::Rejected { status, status_line, body } => "Ollama API error "@
            + status_line + ": "@ + body,
        TransportErrorView::ParseFailure { detail } => "Failed to parse Ollama response"@,
    }
}

impl TransportError {
    /// What the caller is told of the failure.
    pub fn message(&self, with_hint: bool) -> (text: String)
        ensures
            text@ == failure_text(self@, with_hint),
    {
        match self {
            TransportError::TimedOut { seconds } => {
                let mut text = String::from_str("Request timed out after ");
                push_decimal(&mut text, *seconds);
                if with_hint {
                    text.append("s. Try a different model.");
                } else {
                    text.append("s");
                }
                text
            },
            TransportError::Unreachable { url } => {
                let mut text = String::from_str("Cannot connect to Ollama at ");
                text.append(url.as_str());
                if with_hint {
                    text.append(". Is Ollama running?");
                } else {
                    assert(text@ + Seq::<char>::empty() =~= text@);
                }
                text
            },
            TransportError::SendFailed { detail } => {
                let mut text = String::from_str("Failed to send request: ");
                text.append(detail.as_str());
                text
            },
            TransportError::Rejected { status, status_line, body } => {
                let mut text = String::from_str("Ollama API error ");
                text.append(status_line.as_str());
                text.append(": ");
                text.append(body.as_str());
                text
            },
            TransportError::ParseFailure { detail } => String::from_str(
                "Failed to parse Ollama response",
            ),
        }
    }
}

} // verus!
