//! The query operations.
//!
//! Every operation is a function of its arguments and of the replies that
//! the gateway has given so far, oldest first. With no reply it asks for its
//! first request. With the replies it needs, and every one of them healthy,
//! it ends in the page to extract from. A reply that carries an error signal
//! ends it in that failure, whatever follows: no later request is asked for
//! and nothing is extracted. Replies beyond those an operation needs are not
//! read.

use crate::error::{QueryError, QueryErrorView};
use crate::exchange::{answers, Reply, ReplyView, Request, RequestView, Step, StepView};
use crate::json::{as_str, json_text, member, to_text, tree_of, Tree};
use crate::path::{hops, lemma_three_keys, lookup, Hop, Segment};
use crate::signal::{
    api_error, detect_api_error, detect_missing_container, detect_unplayable, missing_container,
    unplayable,
};
use crate::types::channel::Tab;
use crate::types::pages::{
    ChannelPage, ChannelPageView, ChannelTabPage, ChannelTabPageView, CommentsPage,
    CommentsPageView, PlaylistPage, PlaylistPageView, RelatedPage, RelatedPageView, SearchPage,
    SearchPageView, WatchPage, WatchPageView,
};
use serde_json::Value;
use vstd::prelude::*;
use vstd::slice::slice_to_vec;
use vstd::string::StringExecFns;

verus! {

/// The response that a reply carries; a failed reply carries none.
pub open spec fn body(reply: ReplyView) -> Tree {
    match reply {
        ReplyView::Body(response) => response,
        ReplyView::Failed(_) => Tree::Null,
    }
}

/// The failure that a reply signals by itself: the gateway's own failure, or
/// a platform-level error in the response.
pub open spec fn reply_failure(reply: ReplyView) -> Option<QueryErrorView> {
    match reply {
        ReplyView::Body(response) => api_error(response),
        ReplyView::Failed(reason) => Some(QueryErrorView::TransportFailure(reason)),
    }
}

/// The response of a reply that signals no failure by itself.
pub fn healthy_body<'a>(reply: &'a Reply) -> (outcome: Result<&'a Value, QueryError>)
    ensures
        match outcome {
            Ok(response) => reply_failure(reply@) is None && tree_of(*response) == body(reply@),
            Err(error) => reply_failure(reply@) == Some(error@),
        },
{
    match reply {
        Reply::Body(response) => match detect_api_error(response) {
            Some(error) => Err(error),
            None => Ok(response),
        },
        Reply::Failed(reason) => Err(QueryError::TransportFailure(reason.clone())),
    }
}

/// The failure that the reply to a player request signals.
pub open spec fn player_failure(reply: ReplyView) -> Option<QueryErrorView> {
    match reply_failure(reply) {
        Some(error) => Some(error),
        None => unplayable(body(reply)),
    }
}

/// Where a watch response keeps the description and engagement data.
pub open spec fn watch_contents_path() -> Seq<Hop> {
    seq![
        Hop::Key("contents"@),
        Hop::Key("twoColumnWatchNextResults"@),
        Hop::Key("results"@),
        Hop::Key("results"@),
        Hop::Key("contents"@),
    ]
}

/// Where a watch response keeps the token for the next page of related
/// videos: behind the twenty related videos of the first page.
pub open spec fn related_token_path() -> Seq<Hop> {
    seq![
        Hop::Key("contents"@),
        Hop::Key("twoColumnWatchNextResults"@),
        Hop::Key("secondaryResults"@),
        Hop::Key("secondaryResults"@),
        Hop::Key("results"@),
        Hop::Index(20),
        Hop::Key("continuationItemRenderer"@),
        Hop::Key("continuationEndpoint"@),
        Hop::Key("continuationCommand"@),
        Hop::Key("token"@),
    ]
}

/// The page of a video, from a healthy player response and a healthy watch
/// response.
pub open spec fn watch_page(player: Tree, next: Tree) -> WatchPageView {
    WatchPageView {
        player,
        streaming_data: player.member("streamingData"@),
        next,
        contents: next.at(watch_contents_path()),
        continuation_related: json_text(next.at(related_token_path())),
    }
}

/// What [`get_video`] does next.
pub open spec fn get_video_step(
    video_id: Seq<char>,
    params: Seq<char>,
    replies: Seq<ReplyView>,
) -> StepView<WatchPageView> {
    if replies.len() == 0 {
        StepView::Call(RequestView::Player { video_id, params })
    } else {
        match player_failure(replies[0]) {
            Some(error) => StepView::Fail(error),
            None => if replies.len() == 1 {
                StepView::Call(RequestView::NextWithData { video_id, params })
            } else {
                match reply_failure(replies[1]) {
                    Some(error) => StepView::Fail(error),
                    None => StepView::Extract(watch_page(body(replies[0]), body(replies[1]))),
                }
            },
        }
    }
}

/// Fetches a video in two requests: the player data, then the watch data of
/// the same video. The watch data is asked for only after the player
/// response has been found free of error signals and playable.
pub fn get_video<'a>(video_id: &str, params: &str, replies: &'a [Reply]) -> (step: Step<
    WatchPage<'a>,
>)
    ensures
        step@ == get_video_step(video_id@, params@, answers(replies@)),
{
    if replies.len() == 0 {
        return Step::Call(
            Request::Player {
                video_id: String::from_str(video_id),
                params: String::from_str(params),
            },
        );
    }
    let player = match healthy_body(&replies[0]) {
        Ok(response) => response,
        Err(error) => {
            return Step::Fail(error);
        },
    };
    match detect_unplayable(player) {
        Some(error) => {
            return Step::Fail(error);
        },
        None => {},
    }
    if replies.len() == 1 {
        return Step::Call(
            Request::NextWithData {
                video_id: String::from_str(video_id),
                params: String::from_str(params),
            },
        );
    }
    let next = match healthy_body(&replies[1]) {
        Ok(response) => response,
        Err(error) => {
            return Step::Fail(error);
        },
    };
    let contents_path = [
        Segment::Key("contents"),
        Segment::Key("twoColumnWatchNextResults"),
        Segment::Key("results"),
        Segment::Key("results"),
        Segment::Key("contents"),
    ];
    let token_path = [
        Segment::Key("contents"),
        Segment::Key("twoColumnWatchNextResults"),
        Segment::Key("secondaryResults"),
        Segment::Key("secondaryResults"),
        Segment::Key("results"),
        Segment::Index(20),
        Segment::Key("continuationItemRenderer"),
        Segment::Key("continuationEndpoint"),
        Segment::Key("continuationCommand"),
        Segment::Key("token"),
    ];
    proof {
        assert(hops(contents_path@) =~= watch_contents_path());
        assert(hops(token_path@) =~= related_token_path());
    }
    Step::Extract(
        WatchPage {
            player,
            streaming_data: member(player, "streamingData"),
            next,
            contents: lookup(next, &contents_path),
            continuation_related: to_text(lookup(next, &token_path)),
        },
    )
}

/// Where a resolution response keeps the browse identifier.
pub open spec fn browse_id_path() -> Seq<Hop> {
    seq![Hop::Key("endpoint"@), Hop::Key("browseEndpoint"@), Hop::Key("browseId"@)]
}

/// Where a resolution response keeps the parameters of the browse request.
pub open spec fn browse_params_path() -> Seq<Hop> {
    seq![Hop::Key("endpoint"@), Hop::Key("browseEndpoint"@), Hop::Key("params"@)]
}

/// The browse request that the reply to a resolution leads to, or the
/// failure that the reply signals. The browse identifier must be a string;
/// so must the parameters where the operation sends them on.
pub open spec fn resolution(reply: ReplyView, with_params: bool) -> Result<
    RequestView,
    QueryErrorView,
> {
    match reply_failure(reply) {
        Some(error) => Err(error),
        None => {
            let browse = body(reply).member("endpoint"@).member("browseEndpoint"@);
            match browse.member("browseId"@) {
                Tree::Text(browse_id) => if with_params {
                    match browse.member("params"@) {
                        Tree::Text(params) => Ok(RequestView::BrowseId { browse_id, params }),
                        _ => Err(QueryErrorView::ExtractionFailure(browse_params_path())),
                    }
                } else {
                    Ok(RequestView::BrowseId { browse_id, params: Seq::empty() })
                },
                _ => Err(QueryErrorView::ExtractionFailure(browse_id_path())),
            }
        },
    }
}

/// Reads the reply to a resolution.
pub fn resolve(reply: &Reply, with_params: bool) -> (outcome: Result<Request, QueryError>)
    ensures
        match outcome {
            Ok(request) => resolution(reply@, with_params) == Ok::<RequestView, QueryErrorView>(
                request@,
            ),
            Err(error) => resolution(reply@, with_params) == Err::<RequestView, QueryErrorView>(
                error@,
            ),
        },
{
    let response = match healthy_body(reply) {
        Ok(response) => response,
        Err(error) => {
            return Err(error);
        },
    };
    let id_path = [
        Segment::Key("endpoint"),
        Segment::Key("browseEndpoint"),
        Segment::Key("browseId"),
    ];
    let params_path = [
        Segment::Key("endpoint"),
        Segment::Key("browseEndpoint"),
        Segment::Key("params"),
    ];
    proof {
        assert(hops(id_path@) =~= browse_id_path());
        assert(hops(params_path@) =~= browse_params_path());
        lemma_three_keys(tree_of(*response), "endpoint"@, "browseEndpoint"@, "browseId"@);
        lemma_three_keys(tree_of(*response), "endpoint"@, "browseEndpoint"@, "params"@);
    }
    let browse_id = match as_str(lookup(response, &id_path)) {
        Some(browse_id) => String::from_str(browse_id),
        None => {
            return Err(QueryError::ExtractionFailure(slice_to_vec(&id_path)));
        },
    };
    let params = if with_params {
        match as_str(lookup(response, &params_path)) {
            Some(params) => String::from_str(params),
            None => {
                return Err(QueryError::ExtractionFailure(slice_to_vec(&params_path)));
            },
        }
    } else {
        String::new()
    };
    Ok(Request::BrowseId { browse_id, params })
}

/// What an operation of one resolution and one browse request does next,
/// given the URL to resolve and the page that the browse response makes.
pub open spec fn browse_step<P>(
    url: Seq<char>,
    with_params: bool,
    replies: Seq<ReplyView>,
    page: spec_fn(Tree) -> P,
) -> StepView<P> {
    if replies.len() == 0 {
        StepView::Call(RequestView::ResolveUrl { url })
    } else {
        match resolution(replies[0], with_params) {
            Err(error) => StepView::Fail(error),
            Ok(request) => if replies.len() == 1 {
                StepView::Call(request)
            } else {
                match reply_failure(replies[1]) {
                    Some(error) => StepView::Fail(error),
                    None => StepView::Extract(page(body(replies[1]))),
                }
            },
        }
    }
}

/// What [`get_channel_info`] does next.
pub open spec fn get_channel_info_step(url: Seq<char>, replies: Seq<ReplyView>) -> StepView<
    ChannelPageView,
> {
    browse_step(url + "/about"@, true, replies, |browse: Tree| ChannelPageView { browse })
}

/// Fetches what describes a channel: resolves the channel's `about` URL to a
/// browse identifier, then browses it. The browse request is asked for only
/// after the resolution has been found free of error signals.
pub fn get_channel_info<'a>(url: &str, replies: &'a [Reply]) -> (step: Step<ChannelPage<'a>>)
    ensures
        step@ == get_channel_info_step(url@, answers(replies@)),
{
    if replies.len() == 0 {
        return Step::Call(Request::ResolveUrl { url: String::from_str(url).concat("/about") });
    }
    let browse = match resolve(&replies[0], true) {
        Ok(request) => request,
        Err(error) => {
            return Step::Fail(error);
        },
    };
    if replies.len() == 1 {
        return Step::Call(browse);
    }
    match healthy_body(&replies[1]) {
        Ok(response) => Step::Extract(ChannelPage { browse: response }),
        Err(error) => Step::Fail(error),
    }
}

/// What [`get_channel_tab_url`] does next.
pub open spec fn get_channel_tab_url_step(
    url: Seq<char>,
    tab: Tab,
    replies: Seq<ReplyView>,
) -> StepView<ChannelTabPageView> {
    browse_step(
        url + "/"@ + tab.name(),
        true,
        replies,
        |browse: Tree| ChannelTabPageView { browse, index: tab.index() },
    )
}

/// Fetches one tab of a channel by the channel's URL: resolves the URL of
/// the tab to a browse identifier, then browses it. The page selects the
/// tab's list by the tab's index.
pub fn get_channel_tab_url<'a>(url: &str, tab: Tab, replies: &'a [Reply]) -> (step: Step<
    ChannelTabPage<'a>,
>)
    ensures
        step@ == get_channel_tab_url_step(url@, tab, answers(replies@)),
{
    if replies.len() == 0 {
        let tab_url = String::from_str(url).concat("/").concat(tab.get_name());
        return Step::Call(Request::ResolveUrl { url: tab_url });
    }
    let browse = match resolve(&replies[0], true) {
        Ok(request) => request,
        Err(error) => {
            return Step::Fail(error);
        },
    };
    if replies.len() == 1 {
        return Step::Call(browse);
    }
    match healthy_body(&replies[1]) {
        Ok(response) => Step::Extract(ChannelTabPage { browse: response, index: tab.get_index() }),
        Err(error) => Step::Fail(error),
    }
}

/// The URL of a playlist.
pub open spec fn playlist_url(playlist_id: Seq<char>) -> Seq<char> {
    "https://www.youtube.com/playlist?list="@ + playlist_id
}

/// What [`get_playlist`] does next.
pub open spec fn get_playlist_step(playlist_id: Seq<char>, replies: Seq<ReplyView>) -> StepView<
    PlaylistPageView,
> {
    browse_step(
        playlist_url(playlist_id),
        false,
        replies,
        |browse: Tree| PlaylistPageView { browse },
    )
}

/// Fetches a playlist: resolves the playlist's URL to a browse identifier,
/// then browses it without parameters.
pub fn get_playlist<'a>(playlist_id: &str, replies: &'a [Reply]) -> (step: Step<PlaylistPage<'a>>)
    ensures
        step@ == get_playlist_step(playlist_id@, answers(replies@)),
{
    if replies.len() == 0 {
        let url = String::from_str("https://www.youtube.com/playlist?list=").concat(playlist_id);
        return Step::Call(Request::ResolveUrl { url });
    }
    let browse = match resolve(&replies[0], false) {
        Ok(request) => request,
        Err(error) => {
            return Step::Fail(error);
        },
    };
    if replies.len() == 1 {
        return Step::Call(browse);
    }
    match healthy_body(&replies[1]) {
        Ok(response) => Step::Extract(PlaylistPage { browse: response }),
        Err(error) => Step::Fail(error),
    }
}

/// What an operation of a single request does next, given the request and
/// the page that the response makes.
pub open spec fn single_step<P>(
    request: RequestView,
    replies: Seq<ReplyView>,
    page: spec_fn(Tree) -> P,
) -> StepView<P> {
    if replies.len() == 0 {
        StepView::Call(request)
    } else {
        match reply_failure(replies[0]) {
            Some(error) => StepView::Fail(error),
            None => StepView::Extract(page(body(replies[0]))),
        }
    }
}

/// What [`search`] does next.
pub open spec fn search_step(query: Seq<char>, replies: Seq<ReplyView>) -> StepView<
    SearchPageView,
> {
    single_step(
        RequestView::Search { query, continuation: Seq::empty() },
        replies,
        |response: Tree| SearchPageView { response, continued: false },
    )
}

/// Opens a search. Its page is a first page.
pub fn search<'a>(query: &str, replies: &'a [Reply]) -> (step: Step<SearchPage<'a>>)
    ensures
        step@ == search_step(query@, answers(replies@)),
{
    if replies.len() == 0 {
        return Step::Call(
            Request::Search { query: String::from_str(query), continuation: String::new() },
        );
    }
    match healthy_body(&replies[0]) {
        Ok(response) => Step::Extract(SearchPage { response, continued: false }),
        Err(error) => Step::Fail(error),
    }
}

/// What [`load_search`] does next.
pub open spec fn load_search_step(continuation: Seq<char>, replies: Seq<ReplyView>) -> StepView<
    SearchPageView,
> {
    single_step(
        RequestView::SearchContinuation { token: continuation },
        replies,
        |response: Tree| SearchPageView { response, continued: true },
    )
}

/// Continues a search. Its page is a continuation page.
pub fn load_search<'a>(continuation: &str, replies: &'a [Reply]) -> (step: Step<SearchPage<'a>>)
    ensures
        step@ == load_search_step(continuation@, answers(replies@)),
{
    if replies.len() == 0 {
        return Step::Call(Request::SearchContinuation { token: String::from_str(continuation) });
    }
    match healthy_body(&replies[0]) {
        Ok(response) => Step::Extract(SearchPage { response, continued: true }),
        Err(error) => Step::Fail(error),
    }
}

/// What [`load_related_videos`] does next.
pub open spec fn load_related_videos_step(
    continuation: Seq<char>,
    replies: Seq<ReplyView>,
) -> StepView<RelatedPageView> {
    single_step(
        RequestView::Next { continuation },
        replies,
        |response: Tree| RelatedPageView { response },
    )
}

/// Fetches one more page of a video's related videos.
pub fn load_related_videos<'a>(continuation: &str, replies: &'a [Reply]) -> (step: Step<
    RelatedPage<'a>,
>)
    ensures
        step@ == load_related_videos_step(continuation@, answers(replies@)),
{
    if replies.len() == 0 {
        return Step::Call(Request::Next { continuation: String::from_str(continuation) });
    }
    match healthy_body(&replies[0]) {
        Ok(response) => Step::Extract(RelatedPage { response }),
        Err(error) => Step::Fail(error),
    }
}

/// The container that a page of comments must hold.
pub open spec fn comments_container() -> Seq<char> {
    "onResponseReceivedEndpoints"@
}

/// What [`get_comments`] does next.
pub open spec fn get_comments_step(continuation: Seq<char>, replies: Seq<ReplyView>) -> StepView<
    CommentsPageView,
> {
    if replies.len() == 0 {
        StepView::Call(RequestView::Next { continuation })
    } else {
        match reply_failure(replies[0]) {
            Some(error) => StepView::Fail(error),
            None => match missing_container(body(replies[0]), comments_container()) {
                Some(error) => StepView::Fail(error),
                None => StepView::Extract(CommentsPageView { response: body(replies[0]) }),
            },
        }
    }
}

/// Fetches a page of comments. A response without the container of the
/// comments means that the token was invalid or has expired.
pub fn get_comments<'a>(continuation: &str, replies: &'a [Reply]) -> (step: Step<
    CommentsPage<'a>,
>)
    ensures
        step@ == get_comments_step(continuation@, answers(replies@)),
{
    if replies.len() == 0 {
        return Step::Call(Request::Next { continuation: String::from_str(continuation) });
    }
    let response = match healthy_body(&replies[0]) {
        Ok(response) => response,
        Err(error) => {
            return Step::Fail(error);
        },
    };
    match detect_missing_container(response, "onResponseReceivedEndpoints") {
        Some(error) => Step::Fail(error),
        None => Step::Extract(CommentsPage { response }),
    }
}

/// What [`get_channel_tab_continuation`] does next.
pub open spec fn get_channel_tab_continuation_step(
    continuation: Seq<char>,
    tab: Tab,
    replies: Seq<ReplyView>,
) -> StepView<ChannelTabPageView> {
    single_step(
        RequestView::BrowseContinuation { token: continuation },
        replies,
        |browse: Tree| ChannelTabPageView { browse, index: tab.index() },
    )
}

/// Fetches the next page of one tab of a channel. No URL is resolved; the
/// page selects the tab's list by the tab's index.
pub fn get_channel_tab_continuation<'a>(
    continuation: &str,
    tab: Tab,
    replies: &'a [Reply],
) -> (step: Step<ChannelTabPage<'a>>)
    ensures
        step@ == get_channel_tab_continuation_step(continuation@, tab, answers(replies@)),
{
    if replies.len() == 0 {
        return Step::Call(Request::BrowseContinuation { token: String::from_str(continuation) });
    }
    match healthy_body(&replies[0]) {
        Ok(response) => Step::Extract(ChannelTabPage { browse: response, index: tab.get_index() }),
        Err(error) => Step::Fail(error),
    }
}

} // verus!
