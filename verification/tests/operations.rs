use serde_json::Value;
use tube_query::error::QueryError;
use tube_query::exchange::{Reply, Request, Step};
use tube_query::path::Segment;
use tube_query::query::{
    get_channel_info, get_channel_tab_continuation, get_channel_tab_url, get_comments,
    get_playlist, get_video, healthy_body, load_related_videos, load_search, resolve, search,
};
use tube_query::types::channel::Tab;
use tube_query::types::query_results::{ChannelQuery, VideoQuery};
use tube_query::types::pages::{
    ChannelPage, ChannelTabPage, CommentsPage, PlaylistPage, RelatedPage, SearchPage, WatchPage,
};

fn parse(text: &str) -> Value {
    serde_json::from_str(text).unwrap()
}

fn body(text: &str) -> Reply {
    Reply::Body(parse(text))
}

fn failed(reason: &str) -> Reply {
    Reply::Failed(reason.to_string())
}

fn api_error<T>(message: &str) -> Step<T> {
    Step::Fail(QueryError::ApiError(message.to_string()))
}

const ERROR: &str = r#"{"error": {"code": 400, "message": "Precondition check failed."}}"#;
const MESSAGE: &str = "Precondition check failed.";
const RESOLVED: &str =
    r#"{"endpoint": {"browseEndpoint": {"browseId": "UCabc", "params": "EgVhYm91dA"}}}"#;
const PLAYABLE: &str =
    r#"{"playabilityStatus": {"status": "OK"}, "streamingData": {"formats": [{"itag": 18}]}}"#;

#[test]
fn search_asks_for_a_fresh_search() {
    assert_eq!(
        search("rust verification", &[]),
        Step::Call(Request::Search {
            query: "rust verification".to_string(),
            continuation: String::new()
        })
    );
}

#[test]
fn search_yields_a_first_page() {
    let replies = [body(r#"{"contents": {"items": [1, 2]}}"#)];
    let response = parse(r#"{"contents": {"items": [1, 2]}}"#);
    assert_eq!(
        search("q", &replies),
        Step::Extract(SearchPage { response: &response, continued: false })
    );
}

#[test]
fn load_search_asks_for_the_continuation() {
    assert_eq!(
        load_search("TOKEN", &[]),
        Step::Call(Request::SearchContinuation { token: "TOKEN".to_string() })
    );
}

#[test]
fn load_search_yields_a_continuation_page() {
    let replies = [body(r#"{"onResponseReceivedCommands": []}"#)];
    let response = parse(r#"{"onResponseReceivedCommands": []}"#);
    assert_eq!(
        load_search("TOKEN", &replies),
        Step::Extract(SearchPage { response: &response, continued: true })
    );
}

#[test]
fn the_page_mark_does_not_depend_on_the_payload() {
    for payload in ["{}", "[]", "null", r#"{"continued": true}"#, r#"{"continued": false}"#, "7"] {
        let replies = [body(payload)];
        match search("q", &replies) {
            Step::Extract(page) => assert!(!page.continued),
            other => panic!("search ended in {:?}", other),
        }
        match load_search("t", &replies) {
            Step::Extract(page) => assert!(page.continued),
            other => panic!("load_search ended in {:?}", other),
        }
    }
}

#[test]
fn load_related_videos_asks_for_the_next_page() {
    assert_eq!(
        load_related_videos("REL", &[]),
        Step::Call(Request::Next { continuation: "REL".to_string() })
    );
    let replies = [body(r#"{"onResponseReceivedEndpoints": [1]}"#)];
    let response = parse(r#"{"onResponseReceivedEndpoints": [1]}"#);
    assert_eq!(
        load_related_videos("REL", &replies),
        Step::Extract(RelatedPage { response: &response })
    );
}

#[test]
fn get_comments_asks_for_the_next_page() {
    assert_eq!(
        get_comments("COM", &[]),
        Step::Call(Request::Next { continuation: "COM".to_string() })
    );
    let replies = [body(r#"{"onResponseReceivedEndpoints": [{"x": 1}]}"#)];
    let response = parse(r#"{"onResponseReceivedEndpoints": [{"x": 1}]}"#);
    assert_eq!(get_comments("COM", &replies), Step::Extract(CommentsPage { response: &response }));
}

#[test]
fn get_comments_without_container_is_an_invalid_continuation() {
    let replies = [body(r#"{"responseContext": {"visitorData": "x"}}"#)];
    assert_eq!(
        get_comments("expired", &replies),
        Step::Fail(QueryError::InvalidContinuation(vec![Segment::Key(
            "onResponseReceivedEndpoints"
        )]))
    );
}

#[test]
fn get_comments_reports_an_error_node_before_the_container() {
    let replies = [body(ERROR)];
    assert_eq!(get_comments("COM", &replies), api_error(MESSAGE));
}

#[test]
fn get_video_asks_for_the_player_first() {
    assert_eq!(
        get_video("dQw4w9WgXcQ", "8AEB", &[]),
        Step::Call(Request::Player { video_id: "dQw4w9WgXcQ".to_string(), params: "8AEB".to_string() })
    );
}

#[test]
fn get_video_asks_for_the_watch_data_of_the_same_video() {
    let replies = [body(PLAYABLE)];
    assert_eq!(
        get_video("dQw4w9WgXcQ", "8AEB", &replies),
        Step::Call(Request::NextWithData {
            video_id: "dQw4w9WgXcQ".to_string(),
            params: "8AEB".to_string()
        })
    );
}

#[test]
fn get_video_of_an_unavailable_video_fails_without_a_second_request() {
    let player =
        r#"{"playabilityStatus": {"status": "ERROR", "reason": "Video unavailable"}}"#;
    let expected = Step::Fail(QueryError::UnplayableContent("Video unavailable".to_string()));
    assert_eq!(get_video("gone", "", &[body(player)]), expected);
    assert_eq!(get_video("gone", "", &[body(player), body("{}")]), expected);
    assert_eq!(get_video("gone", "", &[body(player), body(ERROR)]), expected);
}

#[test]
fn get_video_merges_player_and_watch_data() {
    let next = r#"{"contents": {"twoColumnWatchNextResults": {
        "results": {"results": {"contents": [{"videoPrimaryInfoRenderer": {"title": "t"}}]}},
        "secondaryResults": {"secondaryResults": {"results": [
            0, 1, 2, 3, 4, 5, 6, 7, 8, 9, 10, 11, 12, 13, 14, 15, 16, 17, 18, 19,
            {"continuationItemRenderer": {"continuationEndpoint": {"continuationCommand": {"token": "REL\"2"}}}}
        ]}}
    }}}"#;
    let replies = [body(PLAYABLE), body(next)];
    let player_tree = parse(PLAYABLE);
    let next_tree = parse(next);
    assert_eq!(
        get_video("vid", "", &replies),
        Step::Extract(WatchPage {
            player: &player_tree,
            streaming_data: &parse(r#"{"formats": [{"itag": 18}]}"#),
            next: &next_tree,
            contents: &parse(r#"[{"videoPrimaryInfoRenderer": {"title": "t"}}]"#),
            continuation_related: r#""REL\"2""#.to_string(),
        })
    );
}

#[test]
fn get_video_without_a_token_reads_null() {
    let replies = [body(PLAYABLE), body(r#"{"contents": {}}"#)];
    match get_video("vid", "", &replies) {
        Step::Extract(page) => {
            assert_eq!(page.continuation_related, "null");
            assert!(page.contents.is_null());
            assert_eq!(page.next, &parse(r#"{"contents": {}}"#));
        }
        other => panic!("get_video ended in {:?}", other),
    }
}

#[test]
fn get_video_without_stream_formats_still_has_a_page() {
    let replies = [body(r#"{"playabilityStatus": {"status": "LOGIN_REQUIRED"}}"#), body("{}")];
    match get_video("vid", "", &replies) {
        Step::Extract(page) => assert!(page.streaming_data.is_null()),
        other => panic!("get_video ended in {:?}", other),
    }
}

#[test]
fn get_video_with_a_malformed_player_fails() {
    assert_eq!(
        get_video("vid", "", &[body(r#"{"streamingData": {}}"#)]),
        Step::Fail(QueryError::ExtractionFailure(vec![
            Segment::Key("playabilityStatus"),
            Segment::Key("status")
        ]))
    );
}

#[test]
fn get_video_reports_an_error_node_before_the_status() {
    let player = r#"{"error": {"message": "blocked"}, "playabilityStatus": {"status": "ERROR", "reason": "r"}}"#;
    assert_eq!(get_video("vid", "", &[body(player)]), api_error("blocked"));
}

#[test]
fn get_channel_info_resolves_the_about_url() {
    assert_eq!(
        get_channel_info("https://x/channel/abc", &[]),
        Step::Call(Request::ResolveUrl { url: "https://x/channel/abc/about".to_string() })
    );
}

#[test]
fn get_channel_info_with_a_failed_resolution_never_browses() {
    let resolution = r#"{"error": {"code": 404, "message": "This channel does not exist."}}"#;
    let expected = api_error("This channel does not exist.");
    assert_eq!(get_channel_info("https://x/channel/abc", &[body(resolution)]), expected);
    assert_eq!(
        get_channel_info("https://x/channel/abc", &[body(resolution), body("{}")]),
        expected
    );
}

#[test]
fn get_channel_info_browses_what_was_resolved() {
    assert_eq!(
        get_channel_info("https://x/channel/abc", &[body(RESOLVED)]),
        Step::Call(Request::BrowseId {
            browse_id: "UCabc".to_string(),
            params: "EgVhYm91dA".to_string()
        })
    );
    let replies = [body(RESOLVED), body(r#"{"header": {"title": "abc"}}"#)];
    let browse = parse(r#"{"header": {"title": "abc"}}"#);
    assert_eq!(
        get_channel_info("https://x/channel/abc", &replies),
        Step::Extract(ChannelPage { browse: &browse })
    );
}

#[test]
fn a_resolution_without_browse_identifier_is_malformed() {
    let no_id = r#"{"endpoint": {"urlEndpoint": {"url": "https://elsewhere"}}}"#;
    assert_eq!(
        get_channel_info("https://x/c/abc", &[body(no_id)]),
        Step::Fail(QueryError::ExtractionFailure(vec![
            Segment::Key("endpoint"),
            Segment::Key("browseEndpoint"),
            Segment::Key("browseId")
        ]))
    );
}

#[test]
fn a_resolution_without_parameters_is_malformed_where_they_are_sent_on() {
    let no_params = r#"{"endpoint": {"browseEndpoint": {"browseId": "UCabc"}}}"#;
    let missing = QueryError::ExtractionFailure(vec![
        Segment::Key("endpoint"),
        Segment::Key("browseEndpoint"),
        Segment::Key("params"),
    ]);
    assert_eq!(resolve(&body(no_params), true), Err(missing));
    assert_eq!(
        resolve(&body(no_params), false),
        Ok(Request::BrowseId { browse_id: "UCabc".to_string(), params: String::new() })
    );
    assert_eq!(
        resolve(&body(RESOLVED), false),
        Ok(Request::BrowseId { browse_id: "UCabc".to_string(), params: String::new() })
    );
}

#[test]
fn get_channel_tab_url_resolves_the_url_of_the_tab() {
    assert_eq!(
        get_channel_tab_url("https://x/channel/abc", Tab::Playlists, &[]),
        Step::Call(Request::ResolveUrl { url: "https://x/channel/abc/playlists".to_string() })
    );
    assert_eq!(
        get_channel_tab_url("https://x/channel/abc", Tab::Home, &[]),
        Step::Call(Request::ResolveUrl { url: "https://x/channel/abc/featured".to_string() })
    );
}

#[test]
fn get_channel_tab_url_selects_the_list_by_the_index_of_the_tab() {
    let replies = [body(RESOLVED), body(r#"{"contents": {"tabs": [0, 1, 2]}}"#)];
    let browse = parse(r#"{"contents": {"tabs": [0, 1, 2]}}"#);
    assert_eq!(
        get_channel_tab_url("https://x/channel/abc", Tab::Playlists, &replies),
        Step::Extract(ChannelTabPage { browse: &browse, index: 2 })
    );
    assert_eq!(
        get_channel_tab_url("https://x/channel/abc", Tab::Playlists, &replies[..1]),
        Step::Call(Request::BrowseId {
            browse_id: "UCabc".to_string(),
            params: "EgVhYm91dA".to_string()
        })
    );
}

#[test]
fn get_channel_tab_continuation_browses_the_token() {
    assert_eq!(
        get_channel_tab_continuation("TAB", Tab::Videos, &[]),
        Step::Call(Request::BrowseContinuation { token: "TAB".to_string() })
    );
    let replies = [body(r#"{"onResponseReceivedActions": []}"#)];
    let browse = parse(r#"{"onResponseReceivedActions": []}"#);
    assert_eq!(
        get_channel_tab_continuation("TAB", Tab::Videos, &replies),
        Step::Extract(ChannelTabPage { browse: &browse, index: 1 })
    );
}

#[test]
fn both_ways_to_a_tab_end_alike_on_the_same_browse_data() {
    let tabs = [Tab::Home, Tab::Videos, Tab::Playlists, Tab::Community, Tab::Channels, Tab::About];
    for browse in [r#"{"contents": {"tabs": [[], [1], [2, 3]]}}"#, ERROR, "null"] {
        for tab in tabs {
            let by_url = [body(RESOLVED), body(browse)];
            let by_token = [body(browse)];
            assert_eq!(
                get_channel_tab_url("https://x/c/abc", tab, &by_url),
                get_channel_tab_continuation("TOKEN", tab, &by_token)
            );
        }
    }
    let by_url = [body(RESOLVED), failed("timeout")];
    let by_token = [failed("timeout")];
    assert_eq!(
        get_channel_tab_url("https://x/c/abc", Tab::About, &by_url),
        get_channel_tab_continuation("TOKEN", Tab::About, &by_token)
    );
}

#[test]
fn get_playlist_resolves_the_url_of_the_playlist() {
    assert_eq!(
        get_playlist("PL123", &[]),
        Step::Call(Request::ResolveUrl {
            url: "https://www.youtube.com/playlist?list=PL123".to_string()
        })
    );
}

#[test]
fn get_playlist_browses_without_parameters_and_hands_out_the_browse_data() {
    let resolved = r#"{"endpoint": {"browseEndpoint": {"browseId": "VLPL123"}}}"#;
    let browse = r#"{"contents": {"playlistVideoListRenderer": {"contents": [
        {"playlistVideoRenderer": {"videoId": "a"}},
        {"playlistVideoRenderer": {"videoId": "b"}},
        {"playlistVideoRenderer": {"videoId": "c"}}
    ]}}}"#;
    assert_eq!(
        get_playlist("PL123", &[body(resolved)]),
        Step::Call(Request::BrowseId { browse_id: "VLPL123".to_string(), params: String::new() })
    );
    let replies = [body(resolved), body(browse)];
    let tree = parse(browse);
    assert_eq!(get_playlist("PL123", &replies), Step::Extract(PlaylistPage { browse: &tree }));
    match get_playlist("PL123", &replies) {
        Step::Extract(page) => {
            let items = &page.browse["contents"]["playlistVideoListRenderer"]["contents"];
            assert_eq!(items.as_array().unwrap().len(), 3);
        }
        other => panic!("get_playlist ended in {:?}", other),
    }
}

#[test]
fn an_error_node_in_the_first_response_ends_every_operation() {
    let one = [body(ERROR)];
    let two = [body(ERROR), body("{}")];
    assert_eq!(search("q", &one), api_error(MESSAGE));
    assert_eq!(load_search("t", &one), api_error(MESSAGE));
    assert_eq!(load_related_videos("t", &one), api_error(MESSAGE));
    assert_eq!(get_comments("t", &one), api_error(MESSAGE));
    assert_eq!(get_video("v", "p", &one), api_error(MESSAGE));
    assert_eq!(get_video("v", "p", &two), api_error(MESSAGE));
    assert_eq!(get_channel_info("u", &one), api_error(MESSAGE));
    assert_eq!(get_channel_info("u", &two), api_error(MESSAGE));
    assert_eq!(get_channel_tab_url("u", Tab::Videos, &one), api_error(MESSAGE));
    assert_eq!(get_channel_tab_url("u", Tab::Videos, &two), api_error(MESSAGE));
    assert_eq!(get_channel_tab_continuation("t", Tab::Videos, &one), api_error(MESSAGE));
    assert_eq!(get_playlist("p", &one), api_error(MESSAGE));
    assert_eq!(get_playlist("p", &two), api_error(MESSAGE));
}

#[test]
fn an_error_node_in_the_second_response_ends_the_operation() {
    assert_eq!(get_video("v", "p", &[body(PLAYABLE), body(ERROR)]), api_error(MESSAGE));
    assert_eq!(get_channel_info("u", &[body(RESOLVED), body(ERROR)]), api_error(MESSAGE));
    assert_eq!(
        get_channel_tab_url("u", Tab::About, &[body(RESOLVED), body(ERROR)]),
        api_error(MESSAGE)
    );
    assert_eq!(get_playlist("p", &[body(RESOLVED), body(ERROR)]), api_error(MESSAGE));
}

#[test]
fn a_failed_request_ends_every_operation_in_a_transport_failure() {
    let one = [failed("connection reset")];
    let transport =
        || QueryError::TransportFailure("connection reset".to_string());
    assert_eq!(search("q", &one), Step::Fail(transport()));
    assert_eq!(load_search("t", &one), Step::Fail(transport()));
    assert_eq!(load_related_videos("t", &one), Step::Fail(transport()));
    assert_eq!(get_comments("t", &one), Step::Fail(transport()));
    assert_eq!(get_video("v", "p", &one), Step::Fail(transport()));
    assert_eq!(get_channel_info("u", &one), Step::Fail(transport()));
    assert_eq!(get_channel_tab_url("u", Tab::Videos, &one), Step::Fail(transport()));
    assert_eq!(get_channel_tab_continuation("t", Tab::Videos, &one), Step::Fail(transport()));
    assert_eq!(get_playlist("p", &one), Step::Fail(transport()));
    let second = [body(RESOLVED), failed("connection reset")];
    assert_eq!(get_playlist("p", &second), Step::Fail(transport()));
    assert_eq!(
        get_video("v", "p", &[body(PLAYABLE), failed("connection reset")]),
        Step::Fail(transport())
    );
}

#[test]
fn later_replies_do_not_change_how_an_operation_ended() {
    let page = [body("{}"), body(ERROR), failed("x")];
    assert_eq!(search("q", &page), search("q", &page[..1]));
    let video = [body(PLAYABLE), body("{}"), body(ERROR)];
    assert_eq!(get_video("v", "", &video), get_video("v", "", &video[..2]));
    let channel = [body(RESOLVED), body(ERROR), body("{}")];
    assert_eq!(get_channel_info("u", &channel), get_channel_info("u", &channel[..2]));
}

#[test]
fn healthy_body_hands_out_the_response() {
    let reply = body(r#"{"a": 1}"#);
    assert_eq!(healthy_body(&reply), Ok(&parse(r#"{"a": 1}"#)));
    assert_eq!(healthy_body(&body(ERROR)), Err(QueryError::ApiError(MESSAGE.to_string())));
    assert_eq!(
        healthy_body(&failed("dns")),
        Err(QueryError::TransportFailure("dns".to_string()))
    );
}

#[test]
fn a_video_query_starts_without_related_videos_and_comments_token() {
    let query: VideoQuery<&str, u8> = VideoQuery::new("the video", "\"REL\"".to_string());
    assert_eq!(query.video, "the video");
    assert_eq!(query.continuation_related, "\"REL\"");
    assert_eq!(query.continuation_comments, "");
    assert!(query.related_videos.is_empty());
}

#[test]
fn a_channel_query_holds_the_channel() {
    assert_eq!(ChannelQuery::new(7u8), ChannelQuery { channel: 7u8 });
}
