//! Failures of turns, in words.

use vstd::prelude::*;

use crate::json::{opt_chars, Json, JsonTree};
use crate::number::{i64_text, signed_decimal};
use crate::protocol::{CodexErrorInfo, Notification, TurnError};
use crate::text::{concat3, contains, occurs_in, trim, trimmed};

verus! {

/// The tag of a value: the text itself, or the first name of an object.
pub open spec fn label_chars(wire: Option<JsonTree>) -> Seq<char> {
    match wire {
        Some(JsonTree::Text(text)) => text,
        Some(JsonTree::Object(entries)) => if entries.len() > 0 {
            entries[0].0
        } else {
            "error"@
        },
        _ => "error"@,
    }
}

/// The tag of a value.
pub fn enum_label(wire: &Option<Json>) -> (label: String)
    ensures
        label@ == label_chars(crate::items::opt_tree(*wire)),
{
    match wire {
        Some(Json::Text(text)) => text.clone(),
        Some(Json::Object(entries)) => {
            proof {
                crate::json::lemma_entries_tree(entries@);
            }
            if entries.len() > 0 {
                entries[0].0.clone()
            } else {
                "error".to_owned()
            }
        },
        _ => "error".to_owned(),
    }
}

/// The kind of a failure in words, with the HTTP status where the connection failed.
pub open spec fn info_chars(info: CodexErrorInfo) -> Seq<char> {
    let label = label_chars(crate::items::opt_tree(info.wire));
    match info.http_status_code {
        Some(code) if info.connection => label + " (HTTP "@ + signed_decimal(code as int) + ")"@,
        _ => label,
    }
}

/// The kind of a failure in words.
pub fn describe_codex_error_info(info: &CodexErrorInfo) -> (text: String)
    ensures
        text@ == info_chars(*info),
{
    let label = enum_label(&info.wire);
    match info.http_status_code {
        Some(code) => if info.connection {
            let mut text = concat3(label.as_str(), " (HTTP ", i64_text(code).as_str());
            text.append(")");
            text
        } else {
            label
        },
        None => label,
    }
}

/// What a failure says: its message and its details, without the details where the message holds
/// them.
pub open spec fn body_chars(error: TurnError) -> Seq<char> {
    let message = trimmed(error.message@);
    let details = match error.additional_details {
        Some(text) => trimmed(text@),
        None => Seq::empty(),
    };
    if details.len() > 0 && !occurs_in(message, details) {
        if message.len() > 0 {
            message + ": "@ + details
        } else {
            details
        }
    } else if message.len() > 0 {
        message
    } else {
        "Codex reported an unspecified error"@
    }
}

/// A failure in words: its kind, what it says, and whether it is tried again.
pub open spec fn error_chars(error: TurnError, will_retry: bool) -> Seq<char> {
    let told = match error.codex_error_info {
        Some(info) => info_chars(info) + ": "@ + body_chars(error),
        None => body_chars(error),
    };
    if will_retry {
        told + " (retrying)"@
    } else {
        told
    }
}

fn error_body(error: &TurnError) -> (body: String)
    ensures
        body@ == body_chars(*error),
{
    let message = trim(error.message.as_str());
    let mut body = message.to_owned();
    match &error.additional_details {
        Some(text) => {
            let details = trim(text.as_str());
            if !details.is_empty() && !contains(message, details) {
                if !message.is_empty() {
                    body.append(": ");
                    body.append(details);
                } else {
                    body = details.to_owned();
                }
                return body;
            }
        },
        None => {},
    }
    if message.is_empty() {
        "Codex reported an unspecified error".to_owned()
    } else {
        body
    }
}

/// A failure in words.
pub fn compose_turn_error(error: &TurnError, will_retry: bool) -> (text: String)
    ensures
        text@ == error_chars(*error, will_retry),
{
    let body = error_body(error);
    let mut text = match &error.codex_error_info {
        Some(info) => concat3(describe_codex_error_info(info).as_str(), ": ", body.as_str()),
        None => body,
    };
    if will_retry {
        text.append(" (retrying)");
    }
    text
}

/// A failure that ends its turn, in words: one that the app-server does not try again.
pub open spec fn fatal_chars(notification: Notification) -> Option<Seq<char>> {
    match notification {
        Notification::Error { error, will_retry: false, .. } => Some(error_chars(error, false)),
        _ => None,
    }
}

/// A failure that ends its turn, in words. After it no end of the turn is told.
pub fn fatal_turn_error(notification: &Notification) -> (text: Option<String>)
    ensures
        opt_chars(text) == fatal_chars(*notification),
{
    match notification {
        Notification::Error { error, will_retry, .. } => if *will_retry {
            None
        } else {
            Some(compose_turn_error(error, false))
        },
        _ => None,
    }
}

/// A failure is never told without words.
pub proof fn law_failure_is_never_wordless(error: TurnError, will_retry: bool)
    ensures
        error_chars(error, will_retry).len() > 0,
{
    reveal_strlit("Codex reported an unspecified error");
    reveal_strlit(": ");
    assert(body_chars(error).len() > 0);
}

} // verus!
