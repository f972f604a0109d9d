//! What holds of every operation.
//!
//! [`progress`] gathers the nine operations into one function of the
//! operation and of the replies received so far. The proof functions of this
//! module state over it, and over the step functions of the single
//! operations, what a caller can rely on.

use crate::error::QueryErrorView;
use crate::exchange::{ReplyView, RequestView, StepView};
use crate::json::Tree;
use crate::path::Hop;
use crate::query::{
    body, comments_container, get_channel_info_step, get_channel_tab_continuation_step,
    get_channel_tab_url_step, get_comments_step, get_playlist_step, get_video_step,
    load_related_videos_step, load_search_step, playlist_url, resolution, search_step,
    watch_contents_path,
};
use crate::signal::api_message;
use crate::types::channel::Tab;
use crate::types::pages::{
    ChannelPageView, ChannelTabPageView, CommentsPageView, PlaylistPageView, RelatedPageView,
    SearchPageView, WatchPageView,
};
use vstd::prelude::*;

verus! {

/// An operation with its arguments.
pub enum Operation {
    Search { query: Seq<char> },
    LoadSearch { continuation: Seq<char> },
    LoadRelatedVideos { continuation: Seq<char> },
    GetComments { continuation: Seq<char> },
    GetVideo { video_id: Seq<char>, params: Seq<char> },
    GetChannelInfo { url: Seq<char> },
    GetChannelTabUrl { url: Seq<char>, tab: Tab },
    GetChannelTabContinuation { continuation: Seq<char>, tab: Tab },
    GetPlaylist { playlist_id: Seq<char> },
}

/// The page of any operation.
pub enum PageView {
    Search(SearchPageView),
    Related(RelatedPageView),
    Comments(CommentsPageView),
    Watch(WatchPageView),
    Channel(ChannelPageView),
    ChannelTab(ChannelTabPageView),
    Playlist(PlaylistPageView),
}

/// The same step with its page made a page of any operation.
pub open spec fn with_page<P>(step: StepView<P>, any: spec_fn(P) -> PageView) -> StepView<
    PageView,
> {
    match step {
        StepView::Call(request) => StepView::Call(request),
        StepView::Extract(page) => StepView::Extract(any(page)),
        StepView::Fail(error) => StepView::Fail(error),
    }
}

/// What `operation` does next after `replies`.
pub open spec fn progress(operation: Operation, replies: Seq<ReplyView>) -> StepView<PageView> {
    match operation {
        Operation::Search { query } => with_page(
            search_step(query, replies),
            |page: SearchPageView| PageView::Search(page),
        ),
        Operation::LoadSearch { continuation } => with_page(
            load_search_step(continuation, replies),
            |page: SearchPageView| PageView::Search(page),
        ),
        Operation::LoadRelatedVideos { continuation } => with_page(
            load_related_videos_step(continuation, replies),
            |page: RelatedPageView| PageView::Related(page),
        ),
        Operation::GetComments { continuation } => with_page(
            get_comments_step(continuation, replies),
            |page: CommentsPageView| PageView::Comments(page),
        ),
        Operation::GetVideo { video_id, params } => with_page(
            get_video_step(video_id, params, replies),
            |page: WatchPageView| PageView::Watch(page),
        ),
        Operation::GetChannelInfo { url } => with_page(
            get_channel_info_step(url, replies),
            |page: ChannelPageView| PageView::Channel(page),
        ),
        Operation::GetChannelTabUrl { url, tab } => with_page(
            get_channel_tab_url_step(url, tab, replies),
            |page: ChannelTabPageView| PageView::ChannelTab(page),
        ),
        Operation::GetChannelTabContinuation { continuation, tab } => with_page(
            get_channel_tab_continuation_step(continuation, tab, replies),
            |page: ChannelTabPageView| PageView::ChannelTab(page),
        ),
        Operation::GetPlaylist { playlist_id } => with_page(
            get_playlist_step(playlist_id, replies),
            |page: PlaylistPageView| PageView::Playlist(page),
        ),
    }
}

/// The request that an operation opens with. A continuation token, a query
/// and the identifiers of a video go into it as they were given; a channel
/// is resolved by the URL of its `about` page or of the tab, a playlist by
/// the URL of its page.
pub open spec fn first_request(operation: Operation) -> RequestView {
    match operation {
        Operation::Search { query } => RequestView::Search { query, continuation: Seq::empty() },
        Operation::LoadSearch { continuation } => RequestView::SearchContinuation {
            token: continuation,
        },
        Operation::LoadRelatedVideos { continuation } => RequestView::Next { continuation },
        Operation::GetComments { continuation } => RequestView::Next { continuation },
        Operation::GetVideo { video_id, params } => RequestView::Player { video_id, params },
        Operation::GetChannelInfo { url } => RequestView::ResolveUrl { url: url + "/about"@ },
        Operation::GetChannelTabUrl { url, tab } => RequestView::ResolveUrl {
            url: url + "/"@ + tab.name(),
        },
        Operation::GetChannelTabContinuation { continuation, tab } => {
            RequestView::BrowseContinuation { token: continuation }
        },
        Operation::GetPlaylist { playlist_id } => RequestView::ResolveUrl {
            url: playlist_url(playlist_id),
        },
    }
}

/// With no reply yet, every operation asks for its first request.
pub proof fn operation_opens_with_its_first_request(operation: Operation)
    ensures
        progress(operation, Seq::empty()) == StepView::<PageView>::Call(
            first_request(operation),
        ),
{
}

/// A response with an `error` member that is not null ends every operation
/// in an API error that carries the platform's message, whichever request
/// the response answers. Nothing is extracted from such a response.
pub proof fn error_node_ends_in_api_error(
    operation: Operation,
    replies: Seq<ReplyView>,
    response: Tree,
)
    requires
        progress(operation, replies) is Call,
        !(response.member("error"@) is Null),
    ensures
        progress(operation, replies.push(ReplyView::Body(response))) == StepView::<
            PageView,
        >::Fail(QueryErrorView::ApiError(api_message(response.member("error"@)))),
{
    let longer = replies.push(ReplyView::Body(response));
    if replies.len() == 0 {
        assert(longer[0] == ReplyView::Body(response));
    } else {
        assert(longer[0] == replies[0]);
        assert(replies.len() == 1);
        assert(longer[1] == ReplyView::Body(response));
    }
}

/// An operation that has ended stays as it ended: later replies change
/// neither a failure nor a page, and no request follows either. So a
/// failed resolution or an unplayable video is never followed by a second
/// request.
pub proof fn ended_operation_stays_ended(
    operation: Operation,
    replies: Seq<ReplyView>,
    later: Seq<ReplyView>,
)
    requires
        !(progress(operation, replies) is Call),
    ensures
        progress(operation, replies + later) == progress(operation, replies),
{
    let longer = replies + later;
    assert(replies.len() >= 1);
    assert(longer[0] == replies[0]);
    if replies.len() >= 2 {
        assert(longer[1] == replies[1]);
    }
}

/// No operation sends more than two requests.
pub proof fn at_most_two_requests(operation: Operation, replies: Seq<ReplyView>)
    requires
        progress(operation, replies) is Call,
    ensures
        replies.len() <= 1,
{
}

/// A player response that reports the status `ERROR` with a reason ends
/// `get_video` in unplayable content with that reason. The watch data is
/// never asked for, whatever replies follow.
pub proof fn unplayable_video_is_never_watched(
    video_id: Seq<char>,
    params: Seq<char>,
    player: Tree,
    reason: Seq<char>,
    later: Seq<ReplyView>,
)
    requires
        player.member("error"@) is Null,
        player.member("playabilityStatus"@).member("status"@) == Tree::Text("ERROR"@),
        player.member("playabilityStatus"@).member("reason"@) == Tree::Text(reason),
    ensures
        get_video_step(video_id, params, seq![ReplyView::Body(player)] + later) == StepView::<
            WatchPageView,
        >::Fail(QueryErrorView::UnplayableContent(reason)),
{
    let replies = seq![ReplyView::Body(player)] + later;
    assert(replies[0] == ReplyView::Body(player));
}

/// A response to `get_comments` that is free of errors and lacks the
/// container of the comments ends the operation in an invalid continuation.
pub proof fn comments_without_container_are_an_invalid_continuation(
    continuation: Seq<char>,
    response: Tree,
    later: Seq<ReplyView>,
)
    requires
        response.member("error"@) is Null,
        response.member(comments_container()) is Null,
    ensures
        get_comments_step(continuation, seq![ReplyView::Body(response)] + later) == StepView::<
            CommentsPageView,
        >::Fail(QueryErrorView::InvalidContinuation(seq![Hop::Key(comments_container())])),
{
    let replies = seq![ReplyView::Body(response)] + later;
    assert(replies[0] == ReplyView::Body(response));
}

/// A page of `search` is a first page and a page of `load_search` is a
/// continuation page, whatever the response holds.
pub proof fn search_pages_carry_their_mark(
    query: Seq<char>,
    continuation: Seq<char>,
    replies: Seq<ReplyView>,
)
    ensures
        search_step(query, replies) matches StepView::Extract(page) ==> !page.continued,
        load_search_step(continuation, replies) matches StepView::Extract(page)
            ==> page.continued,
{
}

/// Both sources of a video come from requests for the same video. Every
/// request of `get_video` carries the identifier and the parameters that the
/// operation was called with, and a page is made of the replies to these two
/// requests: the stream formats from the player response, description and
/// related data from the watch response.
pub proof fn video_sources_share_the_identifier(
    video_id: Seq<char>,
    params: Seq<char>,
    replies: Seq<ReplyView>,
)
    ensures
        get_video_step(video_id, params, replies) matches StepView::Call(request) ==> request
            == (RequestView::Player { video_id, params }) || request
            == (RequestView::NextWithData { video_id, params }),
        get_video_step(video_id, params, replies) matches StepView::Extract(page) ==> {
            &&& replies.len() >= 2
            &&& get_video_step(video_id, params, replies.take(0)) == StepView::<
                WatchPageView,
            >::Call(RequestView::Player { video_id, params })
            &&& get_video_step(video_id, params, replies.take(1)) == StepView::<
                WatchPageView,
            >::Call(RequestView::NextWithData { video_id, params })
            &&& page.player == body(replies[0])
            &&& page.streaming_data == body(replies[0]).member("streamingData"@)
            &&& page.next == body(replies[1])
            &&& page.contents == body(replies[1]).at(watch_contents_path())
        },
{
    if replies.len() >= 2 {
        assert(replies.take(1)[0] == replies[0]);
    }
}

/// A tab reached by the channel's URL and the same tab reached by a
/// continuation token end alike on the same browse reply: in the same
/// failure, or in the same page, which selects the tab's list by the same
/// index.
pub proof fn channel_tab_pages_agree(
    url: Seq<char>,
    continuation: Seq<char>,
    tab: Tab,
    resolved: ReplyView,
    browse: ReplyView,
)
    requires
        resolution(resolved, true) is Ok,
    ensures
        get_channel_tab_url_step(url, tab, seq![resolved, browse])
            == get_channel_tab_continuation_step(continuation, tab, seq![browse]),
{
}

} // verus!
