//! The results that an operation assembles itself once the extracted records
//! are there. The records are of the caller's types.

use vstd::prelude::*;

verus! {

/// A video with the first page of its related videos and the tokens for what
/// follows.
#[derive(Debug, PartialEq, Eq)]
pub struct VideoQuery<V, S> {
    /// The token for the first page of comments.
    pub continuation_comments: String,
    /// The token for the next page of related videos.
    pub continuation_related: String,
    pub video: V,
    pub related_videos: Vec<S>,
}

impl<V, S> VideoQuery<V, S> {
    /// The result of a video as far as player data and the page of the watch
    /// data give it: the merged video and the token for more related videos.
    /// The related videos and the token for the comments are still to be
    /// read from the watch data: the list is empty and that token is empty.
    pub fn new(video: V, continuation_related: String) -> (query: Self)
        ensures
            query.video == video,
            query.continuation_related@ == continuation_related@,
            query.continuation_comments@ == Seq::<char>::empty(),
            query.related_videos@ == Seq::<S>::empty(),
    {
        VideoQuery {
            continuation_comments: String::new(),
            continuation_related,
            video,
            related_videos: Vec::new(),
        }
    }
}

/// What describes a channel.
#[derive(Debug, PartialEq, Eq)]
pub struct ChannelQuery<C> {
    pub channel: C,
}

impl<C> ChannelQuery<C> {
    pub fn new(channel: C) -> (query: Self)
        ensures
            query.channel == channel,
    {
        ChannelQuery { channel }
    }
}

} // verus!
