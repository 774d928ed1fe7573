//! The chat status publisher's decisions: which label each status kind shows,
//! the request that sets the chat title, and the classification of what the
//! chat API answered. The HTTP send itself is the surrounding program's; it is
//! best-effort, never retried, and its failure surfaces to no caller.

use vstd::prelude::*;
use vstd::string::StringExecFns;

verus! {

/// The named statuses the chat title can show.
#[derive(Debug, Clone, Copy, PartialEq, Eq)]
pub enum StatusKind {
    /// Work is in progress.
    Busy,
    /// A break has begun.
    OnBreak,
    /// A break outlived the away threshold.
    Away,
}

/// The configured display strings and chat, immutable for the process
/// lifetime.
#[derive(Debug, Clone)]
pub struct PublisherConfig {
    pub chat_id: String,
    pub busy_chat_status: String,
    pub break_chat_status: String,
    pub not_working_status: String,
}

/// The configured label each status kind shows.
pub open spec fn spec_label_for(c: PublisherConfig, kind: StatusKind) -> Seq<char> {
    match kind {
        StatusKind::Busy => c.busy_chat_status@,
        StatusKind::OnBreak => c.break_chat_status@,
        StatusKind::Away => c.not_working_status@,
    }
}

/// The request that sets the chat title: the configured chat and the label of
/// one status kind.
#[derive(Debug, Clone, PartialEq, Eq)]
pub struct SetChatTitleRequest {
    pub chat_id: String,
    pub title: String,
}

/// Build the title-set request for one status kind.
pub fn title_request(c: &PublisherConfig, kind: StatusKind) -> (r: SetChatTitleRequest)
    ensures
        r.chat_id@ == c.chat_id@,
        r.title@ == spec_label_for(*c, kind),
{
    let title = match kind {
        StatusKind::Busy => c.busy_chat_status.clone(),
        StatusKind::OnBreak => c.break_chat_status.clone(),
        StatusKind::Away => c.not_working_status.clone(),
    };
    SetChatTitleRequest { chat_id: c.chat_id.clone(), title }
}

/// The URL of the chat API's title-set method for one bot token.
pub fn set_chat_title_url(bot_token: &str) -> (r: String)
    ensures
        r@ == "https://api.telegram.org/bot"@ + bot_token@ + "/setChatTitle"@,
{
    let mut url: String = "https://api.telegram.org/bot".to_owned();
    url.append(bot_token);
    url.append("/setChatTitle");
    url
}

/// What one publish attempt came to.
#[derive(Debug, Clone, PartialEq, Eq)]
pub enum PublishOutcome {
    /// The chat API answered with a success status.
    Success,
    /// The chat API answered, but not with a success status.
    RemoteRejected { status: u16 },
    /// The request never got an answer.
    TransportError { detail: String },
}

/// A status code the chat API counts as success: any 2xx.
pub open spec fn spec_is_success_status(status: u16) -> bool {
    200 <= status < 300
}

/// Classify what came back from one title-set request: a 2xx answer is
/// success, any other answer a rejection, no answer a transport error.
pub fn classify_publish(result: Result<u16, String>) -> (r: PublishOutcome)
    ensures
        match result {
            Result::Ok(status) => if spec_is_success_status(status) {
                r == PublishOutcome::Success
            } else {
                r == (PublishOutcome::RemoteRejected { status })
            },
            Result::Err(detail) => r == (PublishOutcome::TransportError { detail }),
        },
{
    match result {
        Result::Ok(status) => if 200 <= status && status < 300 {
            PublishOutcome::Success
        } else {
            PublishOutcome::RemoteRejected { status }
        },
        Result::Err(detail) => PublishOutcome::TransportError { detail },
    }
}

} // verus!
