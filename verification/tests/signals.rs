use serde_json::Value;
use tube_query::error::QueryError;
use tube_query::path::Segment;
use tube_query::signal::{detect_api_error, detect_missing_container, detect_unplayable};

fn parse(text: &str) -> Value {
    serde_json::from_str(text).unwrap()
}

#[test]
fn a_response_without_error_is_healthy() {
    assert_eq!(detect_api_error(&parse(r#"{"contents": {}}"#)), None);
    assert_eq!(detect_api_error(&parse(r#"{"error": null}"#)), None);
    assert_eq!(detect_api_error(&parse(r#"[]"#)), None);
}

#[test]
fn an_error_with_a_message_reports_the_message() {
    let response = parse(r#"{"error": {"code": 404, "message": "Requested entity was not found."}}"#);
    assert_eq!(
        detect_api_error(&response),
        Some(QueryError::ApiError("Requested entity was not found.".to_string()))
    );
}

#[test]
fn an_error_without_a_message_reports_its_json_text() {
    let response = parse(r#"{"error": {"code": 404, "status": "NOT_FOUND"}}"#);
    assert_eq!(
        detect_api_error(&response),
        Some(QueryError::ApiError(r#"{"code":404,"status":"NOT_FOUND"}"#.to_string()))
    );
    assert_eq!(
        detect_api_error(&parse(r#"{"error": "quota"}"#)),
        Some(QueryError::ApiError(r#""quota""#.to_string()))
    );
    assert_eq!(
        detect_api_error(&parse(r#"{"error": false}"#)),
        Some(QueryError::ApiError("false".to_string()))
    );
}

#[test]
fn a_message_that_is_no_string_is_reported_by_its_json_text() {
    let response = parse(r#"{"error": {"message": ["a", 1]}}"#);
    assert_eq!(detect_api_error(&response), Some(QueryError::ApiError(r#"["a",1]"#.to_string())));
}

#[test]
fn an_empty_message_is_still_the_message() {
    let response = parse(r#"{"error": {"message": ""}}"#);
    assert_eq!(detect_api_error(&response), Some(QueryError::ApiError(String::new())));
}

#[test]
fn a_playable_video_signals_nothing() {
    let player = parse(r#"{"playabilityStatus": {"status": "OK"}}"#);
    assert_eq!(detect_unplayable(&player), None);
    let lower = parse(r#"{"playabilityStatus": {"status": "error", "reason": "x"}}"#);
    assert_eq!(detect_unplayable(&lower), None);
}

#[test]
fn an_error_status_reports_the_reason() {
    let player = parse(r#"{"playabilityStatus": {"status": "ERROR", "reason": "Video unavailable"}}"#);
    assert_eq!(
        detect_unplayable(&player),
        Some(QueryError::UnplayableContent("Video unavailable".to_string()))
    );
}

#[test]
fn an_error_status_without_reason_is_malformed() {
    let player = parse(r#"{"playabilityStatus": {"status": "ERROR"}}"#);
    assert_eq!(
        detect_unplayable(&player),
        Some(QueryError::ExtractionFailure(vec![
            Segment::Key("playabilityStatus"),
            Segment::Key("reason")
        ]))
    );
}

#[test]
fn a_player_without_status_is_malformed() {
    let expected = Some(QueryError::ExtractionFailure(vec![
        Segment::Key("playabilityStatus"),
        Segment::Key("status"),
    ]));
    assert_eq!(detect_unplayable(&parse(r#"{}"#)), expected);
    assert_eq!(detect_unplayable(&parse(r#"{"playabilityStatus": {"status": 3}}"#)), expected);
    assert_eq!(detect_unplayable(&parse(r#"{"playabilityStatus": "ERROR"}"#)), expected);
}

#[test]
fn a_present_container_signals_nothing() {
    let response = parse(r#"{"onResponseReceivedEndpoints": []}"#);
    assert_eq!(detect_missing_container(&response, "onResponseReceivedEndpoints"), None);
}

#[test]
fn a_missing_container_is_an_invalid_continuation() {
    let expected = Some(QueryError::InvalidContinuation(vec![Segment::Key(
        "onResponseReceivedEndpoints",
    )]));
    assert_eq!(
        detect_missing_container(&parse(r#"{"responseContext": {}}"#), "onResponseReceivedEndpoints"),
        expected
    );
    assert_eq!(
        detect_missing_container(
            &parse(r#"{"onResponseReceivedEndpoints": null}"#),
            "onResponseReceivedEndpoints"
        ),
        expected
    );
}
