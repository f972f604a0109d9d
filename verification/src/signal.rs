//! The error signal detector.
//!
//! A raw response is classified as healthy or failed before anything is
//! extracted from it. Each detector is a predicate over the response tree:
//! it reads, and never changes or retries.

use crate::error::{QueryError, QueryErrorView};
use crate::json::{as_str, is_null, json_text, member, to_text, tree_of, Tree};
use crate::path::{find_key, hops, Hop, Segment};
use serde_json::Value;
use vstd::prelude::*;
use vstd::string::StringExecFns;

verus! {

/// The message of a platform error node: its `message` member when that is a
/// string, the JSON text of that member when it is anything else but null,
/// and the JSON text of the whole node when it has no message.
pub open spec fn api_message(error: Tree) -> Seq<char> {
    match error.member("message"@) {
        Tree::Text(message) => message,
        Tree::Null => json_text(error),
        other => json_text(other),
    }
}

/// The API-level failure that a response signals: present exactly when the
/// response has a top-level `error` member that is not null.
pub open spec fn api_error(response: Tree) -> Option<QueryErrorView> {
    let error = response.member("error"@);
    if error is Null {
        None
    } else {
        Some(QueryErrorView::ApiError(api_message(error)))
    }
}

/// Looks for a platform-level error in `response`.
pub fn detect_api_error(response: &Value) -> (signal: Option<QueryError>)
    ensures
        match signal {
            Some(error) => api_error(tree_of(*response)) == Some(error@),
            None => api_error(tree_of(*response)) is None,
        },
{
    let error = match find_key(response, "error") {
        Some(error) => error,
        None => {
            return None;
        },
    };
    let message = member(error, "message");
    let text = match as_str(message) {
        Some(chars) => String::from_str(chars),
        None => if is_null(message) {
            to_text(error)
        } else {
            to_text(message)
        },
    };
    Some(QueryError::ApiError(text))
}

/// The path of the player's status.
pub open spec fn status_path() -> Seq<Hop> {
    seq![Hop::Key("playabilityStatus"@), Hop::Key("status"@)]
}

/// The path of the player's reason for a status.
pub open spec fn reason_path() -> Seq<Hop> {
    seq![Hop::Key("playabilityStatus"@), Hop::Key("reason"@)]
}

/// The failure that a player response signals through its playability
/// status. A status of `ERROR` is unplayable content, reported with the
/// platform's reason; a player response without a status string, or an
/// `ERROR` without a reason string, is a malformed response.
pub open spec fn unplayable(player: Tree) -> Option<QueryErrorView> {
    let playability = player.member("playabilityStatus"@);
    match playability.member("status"@) {
        Tree::Text(status) => if status == "ERROR"@ {
            match playability.member("reason"@) {
                Tree::Text(reason) => Some(QueryErrorView::UnplayableContent(reason)),
                _ => Some(QueryErrorView::ExtractionFailure(reason_path())),
            }
        } else {
            None
        },
        _ => Some(QueryErrorView::ExtractionFailure(status_path())),
    }
}

/// Whether two strings hold the same characters.
pub(crate) fn same_text(left: &str, right: &str) -> (same: bool)
    ensures
        same == (left@ == right@),
{
    left.to_owned() == right.to_owned()
}

/// Looks at the playability status of a player response.
pub fn detect_unplayable(player: &Value) -> (signal: Option<QueryError>)
    ensures
        match signal {
            Some(error) => unplayable(tree_of(*player)) == Some(error@),
            None => unplayable(tree_of(*player)) is None,
        },
{
    let playability = member(player, "playabilityStatus");
    match as_str(member(playability, "status")) {
        Some(status) => if same_text(status, "ERROR") {
            match as_str(member(playability, "reason")) {
                Some(reason) => Some(QueryError::UnplayableContent(String::from_str(reason))),
                None => {
                    let path = vec![Segment::Key("playabilityStatus"), Segment::Key("reason")];
                    assert(hops(path@) =~= reason_path());
                    Some(QueryError::ExtractionFailure(path))
                },
            }
        } else {
            None
        },
        None => {
            let path = vec![Segment::Key("playabilityStatus"), Segment::Key("status")];
            assert(hops(path@) =~= status_path());
            Some(QueryError::ExtractionFailure(path))
        },
    }
}

/// The failure that a continuation response signals by lacking the
/// top-level container it must hold.
pub open spec fn missing_container(response: Tree, container: Seq<char>) -> Option<
    QueryErrorView,
> {
    if response.member(container) is Null {
        Some(QueryErrorView::InvalidContinuation(seq![Hop::Key(container)]))
    } else {
        None
    }
}

/// Looks for the top-level `container` that a continuation response must
/// hold.
pub fn detect_missing_container(response: &Value, container: &'static str) -> (signal: Option<
    QueryError,
>)
    ensures
        match signal {
            Some(error) => missing_container(tree_of(*response), container@) == Some(error@),
            None => missing_container(tree_of(*response), container@) is None,
        },
{
    match find_key(response, container) {
        Some(_) => None,
        None => {
            let path = vec![Segment::Key(container)];
            assert(hops(path@) =~= seq![Hop::Key(container@)]);
            Some(QueryError::InvalidContinuation(path))
        },
    }
}

} // verus!
