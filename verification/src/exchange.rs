//! The conversation with the endpoint gateway.
//!
//! An operation never talks to the network. It is a function from the
//! answers received so far to the next [`Step`]: a request for the caller to
//! send, a page of a healthy response that is ready for field extraction, or
//! a failure. The caller sends each request, appends the gateway's [`Reply`]
//! to the answers and asks again, until the step is no longer a request.

use crate::error::{QueryError, QueryErrorView};
use crate::json::{tree_of, Tree};
use serde_json::Value;
use vstd::prelude::*;

verus! {

/// A request to one of the gateway's endpoints.
#[derive(Debug, PartialEq, Eq)]
pub enum Request {
    /// A fresh search, or its continuation when `continuation` is not empty.
    Search { query: String, continuation: String },
    /// The next page of a search.
    SearchContinuation { token: String },
    /// The page that follows `continuation` in a video's watch data.
    Next { continuation: String },
    /// The watch data of a video.
    NextWithData { video_id: String, params: String },
    /// The player data of a video.
    Player { video_id: String, params: String },
    /// The browse endpoint behind a human-facing URL.
    ResolveUrl { url: String },
    /// The page behind a browse identifier.
    BrowseId { browse_id: String, params: String },
    /// The page that follows `token` in a browse list.
    BrowseContinuation { token: String },
}

/// The content of a [`Request`].
pub enum RequestView {
    Search { query: Seq<char>, continuation: Seq<char> },
    SearchContinuation { token: Seq<char> },
    Next { continuation: Seq<char> },
    NextWithData { video_id: Seq<char>, params: Seq<char> },
    Player { video_id: Seq<char>, params: Seq<char> },
    ResolveUrl { url: Seq<char> },
    BrowseId { browse_id: Seq<char>, params: Seq<char> },
    BrowseContinuation { token: Seq<char> },
}

impl View for Request {
    type V = RequestView;

    open spec fn view(&self) -> RequestView {
        match self {
            Request::Search { query, continuation } => RequestView::Search {
                query: query@,
                continuation: continuation@,
            },
            Request::SearchContinuation { token } => RequestView::SearchContinuation {
                token: token@,
            },
            Request::Next { continuation } => RequestView::Next { continuation: continuation@ },
            Request::NextWithData { video_id, params } => RequestView::NextWithData {
                video_id: video_id@,
                params: params@,
            },
            Request::Player { video_id, params } => RequestView::Player {
                video_id: video_id@,
                params: params@,
            },
            Request::ResolveUrl { url } => RequestView::ResolveUrl { url: url@ },
            Request::BrowseId { browse_id, params } => RequestView::BrowseId {
                browse_id: browse_id@,
                params: params@,
            },
            Request::BrowseContinuation { token } => RequestView::BrowseContinuation {
                token: token@,
            },
        }
    }
}

/// What the gateway handed back for one request.
#[derive(Debug, PartialEq, Eq)]
pub enum Reply {
    /// The raw response.
    Body(Value),
    /// The request could not be completed; carries the gateway's reason.
    Failed(String),
}

/// The content of a [`Reply`].
pub enum ReplyView {
    Body(Tree),
    Failed(Seq<char>),
}

impl View for Reply {
    type V = ReplyView;

    open spec fn view(&self) -> ReplyView {
        match self {
            Reply::Body(response) => ReplyView::Body(tree_of(*response)),
            Reply::Failed(reason) => ReplyView::Failed(reason@),
        }
    }
}

/// The contents of the replies received so far, oldest first.
pub open spec fn answers(replies: Seq<Reply>) -> Seq<ReplyView> {
    replies.map_values(|reply: Reply| reply@)
}

/// What an operation does next.
#[derive(Debug, PartialEq, Eq)]
pub enum Step<T> {
    /// Send this request and come back with the gateway's reply.
    Call(Request),
    /// Every response is healthy: hand this page to field extraction.
    Extract(T),
    /// The operation is over and has failed.
    Fail(QueryError),
}

/// The content of a [`Step`].
pub enum StepView<T> {
    Call(RequestView),
    Extract(T),
    Fail(QueryErrorView),
}

impl<T: View> View for Step<T> {
    type V = StepView<T::V>;

    open spec fn view(&self) -> StepView<T::V> {
        match self {
            Step::Call(request) => StepView::Call(request@),
            Step::Extract(page) => StepView::Extract(page@),
            Step::Fail(error) => StepView::Fail(error@),
        }
    }
}

} // verus!
