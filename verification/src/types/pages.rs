//! The pages that the operations end in.
//!
//! A page names the subtrees of healthy responses from which one result is
//! extracted, together with what the operation itself contributes to the
//! result: a flag, an index, a token. It borrows from the replies that the
//! caller holds; nothing is copied.

use crate::json::{tree_of, Tree};
use serde_json::Value;
use vstd::prelude::*;

verus! {

/// A page of search results.
#[derive(Debug, PartialEq, Eq)]
pub struct SearchPage<'a> {
    pub response: &'a Value,
    /// Whether the page continues an earlier one (an appended page) or
    /// opens a search (a first page).
    pub continued: bool,
}

/// The content of a [`SearchPage`].
pub struct SearchPageView {
    pub response: Tree,
    pub continued: bool,
}

impl<'a> View for SearchPage<'a> {
    type V = SearchPageView;

    open spec fn view(&self) -> SearchPageView {
        SearchPageView { response: tree_of(*self.response), continued: self.continued }
    }
}

/// One more page of a video's related videos.
#[derive(Debug, PartialEq, Eq)]
pub struct RelatedPage<'a> {
    pub response: &'a Value,
}

/// The content of a [`RelatedPage`].
pub struct RelatedPageView {
    pub response: Tree,
}

impl<'a> View for RelatedPage<'a> {
    type V = RelatedPageView;

    open spec fn view(&self) -> RelatedPageView {
        RelatedPageView { response: tree_of(*self.response) }
    }
}

/// A page of comments.
#[derive(Debug, PartialEq, Eq)]
pub struct CommentsPage<'a> {
    pub response: &'a Value,
}

/// The content of a [`CommentsPage`].
pub struct CommentsPageView {
    pub response: Tree,
}

impl<'a> View for CommentsPage<'a> {
    type V = CommentsPageView;

    open spec fn view(&self) -> CommentsPageView {
        CommentsPageView { response: tree_of(*self.response) }
    }
}

/// The two sources of one video: the player response, which holds the stream
/// formats, and the watch response, which holds description, engagement data
/// and related videos.
#[derive(Debug, PartialEq, Eq)]
pub struct WatchPage<'a> {
    pub player: &'a Value,
    /// The stream formats, a subtree of `player`.
    pub streaming_data: &'a Value,
    pub next: &'a Value,
    /// The description and engagement data, a subtree of `next`.
    pub contents: &'a Value,
    /// The JSON text of the node that holds the token for the next page of
    /// related videos: a string token stands in quotes, and an absent node
    /// reads `null`.
    pub continuation_related: String,
}

/// The content of a [`WatchPage`].
pub struct WatchPageView {
    pub player: Tree,
    pub streaming_data: Tree,
    pub next: Tree,
    pub contents: Tree,
    pub continuation_related: Seq<char>,
}

impl<'a> View for WatchPage<'a> {
    type V = WatchPageView;

    open spec fn view(&self) -> WatchPageView {
        WatchPageView {
            player: tree_of(*self.player),
            streaming_data: tree_of(*self.streaming_data),
            next: tree_of(*self.next),
            contents: tree_of(*self.contents),
            continuation_related: self.continuation_related@,
        }
    }
}

/// The page that describes a channel.
#[derive(Debug, PartialEq, Eq)]
pub struct ChannelPage<'a> {
    pub browse: &'a Value,
}

/// The content of a [`ChannelPage`].
pub struct ChannelPageView {
    pub browse: Tree,
}

impl<'a> View for ChannelPage<'a> {
    type V = ChannelPageView;

    open spec fn view(&self) -> ChannelPageView {
        ChannelPageView { browse: tree_of(*self.browse) }
    }
}

/// One tab of a channel: the browse data and the index of the tab's list in
/// it.
#[derive(Debug, PartialEq, Eq)]
pub struct ChannelTabPage<'a> {
    pub browse: &'a Value,
    pub index: usize,
}

/// The content of a [`ChannelTabPage`].
pub struct ChannelTabPageView {
    pub browse: Tree,
    pub index: nat,
}

impl<'a> View for ChannelTabPage<'a> {
    type V = ChannelTabPageView;

    open spec fn view(&self) -> ChannelTabPageView {
        ChannelTabPageView { browse: tree_of(*self.browse), index: self.index as nat }
    }
}

/// The page that lists a playlist.
#[derive(Debug, PartialEq, Eq)]
pub struct PlaylistPage<'a> {
    pub browse: &'a Value,
}

/// The content of a [`PlaylistPage`].
pub struct PlaylistPageView {
    pub browse: Tree,
}

impl<'a> View for PlaylistPage<'a> {
    type V = PlaylistPageView;

    open spec fn view(&self) -> PlaylistPageView {
        PlaylistPageView { browse: tree_of(*self.browse) }
    }
}

} // verus!
