use timetrack::api::{
    error_response, CreateDailyTrackResponse, CreateTopicResponse, GetDailyTrackByIdResponse,
    GetDailyTracksResponse, GetTopicByIdResponse, GetTopicsResponse, Response, ResponseBody,
};
use timetrack::error::ApiError;
use timetrack::models::{DailyTrack, Topic};
use timetrack::time::{Date, UtcDateTime};

fn when() -> UtcDateTime {
    UtcDateTime::from_naive_utc(
        &Date::from_ymd_opt(2024, 1, 1).unwrap().and_hms_opt(9, 0, 0).unwrap(),
    )
}

fn topic() -> Topic {
    Topic::new(3, "t".to_string(), when(), when())
}

fn track() -> DailyTrack {
    DailyTrack::new(4, when(), when(), when(), 3)
}

fn errors() -> Vec<(ApiError, u16, &'static str)> {
    vec![
        (ApiError::BadRequest("m".to_string()), 400, "VALIDATION_ERROR"),
        (ApiError::NotFound("m".to_string()), 404, "NOT_FOUND"),
        (ApiError::Conflict("m".to_string()), 409, "CONFLICT"),
        (ApiError::InternalServerError("m".to_string()), 500, "INTERNAL_ERROR"),
    ]
}

fn sent(response: Response) -> (u16, String) {
    match response.body {
        ResponseBody::Error(e) => {
            assert_eq!(e.message, "m");
            (response.status, e.error)
        }
        other => panic!("{other:?}"),
    }
}

#[test]
fn error_response_sends_every_kind_as_it_is() {
    for (error, status, code) in errors() {
        assert_eq!(sent(error_response(error)), (status, code.to_string()));
    }
}

#[test]
fn create_daily_track_has_an_answer_of_every_kind() {
    let response = CreateDailyTrackResponse::from_answer(Ok((201, track()))).into_response();
    assert_eq!(response.status, 201);
    assert!(matches!(response.body, ResponseBody::DailyTrack(t) if t.id == 4));
    for (error, status, code) in errors() {
        let response = CreateDailyTrackResponse::from_answer(Err(error));
        assert_eq!(sent(response.into_response()), (status, code.to_string()));
    }
    assert!(matches!(
        CreateDailyTrackResponse::from_answer(Err(ApiError::NotFound("m".to_string()))),
        CreateDailyTrackResponse::ReferencedTopicNotFound(_)
    ));
    assert!(matches!(
        CreateDailyTrackResponse::from_answer(Err(ApiError::Conflict("m".to_string()))),
        CreateDailyTrackResponse::ARecordAlreadyExistsForThisTimePeriod(_)
    ));
}

#[test]
fn create_topic_sends_a_kind_it_does_not_have_as_internal() {
    let response = CreateTopicResponse::from_answer(Ok((201, topic()))).into_response();
    assert_eq!(response.status, 201);
    assert!(matches!(response.body, ResponseBody::Topic(t) if t.id == 3));
    let expected = [
        (400, "VALIDATION_ERROR"),
        (500, "INTERNAL_ERROR"),
        (409, "CONFLICT"),
        (500, "INTERNAL_ERROR"),
    ];
    for ((error, _, _), (status, code)) in errors().into_iter().zip(expected) {
        let response = CreateTopicResponse::from_answer(Err(error));
        assert_eq!(sent(response.into_response()), (status, code.to_string()));
    }
}

#[test]
fn listings_have_few_kinds_of_failure() {
    let response = GetTopicsResponse::from_answer(Ok(vec![topic()])).into_response();
    assert_eq!(response.status, 200);
    assert!(matches!(response.body, ResponseBody::Topics(v) if v.len() == 1));
    for (error, _, _) in errors() {
        let response = GetTopicsResponse::from_answer(Err(error));
        assert_eq!(sent(response.into_response()), (500, "INTERNAL_ERROR".to_string()));
    }

    let response = GetDailyTracksResponse::from_answer(Ok(vec![track(), track()])).into_response();
    assert_eq!(response.status, 200);
    assert!(matches!(response.body, ResponseBody::DailyTracks(v) if v.len() == 2));
    let expected = [
        (400, "VALIDATION_ERROR"),
        (500, "INTERNAL_ERROR"),
        (500, "INTERNAL_ERROR"),
        (500, "INTERNAL_ERROR"),
    ];
    for ((error, _, _), (status, code)) in errors().into_iter().zip(expected) {
        let response = GetDailyTracksResponse::from_answer(Err(error));
        assert_eq!(sent(response.into_response()), (status, code.to_string()));
    }
}

#[test]
fn item_requests_are_found_or_not() {
    let response = GetTopicByIdResponse::from_answer(Ok(topic())).into_response();
    assert_eq!(response.status, 200);
    assert!(matches!(response.body, ResponseBody::Topic(t) if t.topic_name == "t"));
    let response = GetDailyTrackByIdResponse::from_answer(Ok(track())).into_response();
    assert_eq!(response.status, 200);
    assert!(matches!(response.body, ResponseBody::DailyTrack(t) if t.topic_id == Some(3)));
    let expected = [
        (500, "INTERNAL_ERROR"),
        (404, "NOT_FOUND"),
        (500, "INTERNAL_ERROR"),
        (500, "INTERNAL_ERROR"),
    ];
    for ((error, _, _), (status, code)) in errors().into_iter().zip(expected) {
        let response = GetTopicByIdResponse::from_answer(Err(error));
        assert_eq!(sent(response.into_response()), (status, code.to_string()));
    }
    for ((error, _, _), (status, code)) in errors().into_iter().zip(expected) {
        let response = GetDailyTrackByIdResponse::from_answer(Err(error));
        assert_eq!(sent(response.into_response()), (status, code.to_string()));
    }
}
