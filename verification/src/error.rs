//! The failures that an operation can end in.

use crate::path::{hops, Hop, Segment};
use vstd::prelude::*;

verus! {

/// Why an operation failed. A failed operation yields nothing else: no
/// partly filled result accompanies any of these.
#[derive(Debug, PartialEq, Eq)]
pub enum QueryError {
    /// The gateway could not complete a request; carries its reason.
    TransportFailure(String),
    /// The response holds a platform-level error; carries the platform's
    /// message.
    ApiError(String),
    /// The player reports that the video cannot be played; carries the
    /// platform's reason.
    UnplayableContent(String),
    /// A continuation fetch came back without the container it must hold;
    /// carries the path of that container.
    InvalidContinuation(Vec<Segment<'static>>),
    /// A required node is absent or has an unexpected shape; carries the
    /// path of that node.
    ExtractionFailure(Vec<Segment<'static>>),
}

/// The content of a [`QueryError`].
pub enum QueryErrorView {
    TransportFailure(Seq<char>),
    ApiError(Seq<char>),
    UnplayableContent(Seq<char>),
    InvalidContinuation(Seq<Hop>),
    ExtractionFailure(Seq<Hop>),
}

impl View for QueryError {
    type V = QueryErrorView;

    open spec fn view(&self) -> QueryErrorView {
        match self {
            QueryError::TransportFailure(reason) => QueryErrorView::TransportFailure(reason@),
            QueryError::ApiError(message) => QueryErrorView::ApiError(message@),
            QueryError::UnplayableContent(reason) => QueryErrorView::UnplayableContent(reason@),
            QueryError::InvalidContinuation(path) => QueryErrorView::InvalidContinuation(
                hops(path@),
            ),
            QueryError::ExtractionFailure(path) => QueryErrorView::ExtractionFailure(hops(path@)),
        }
    }
}

} // verus!
