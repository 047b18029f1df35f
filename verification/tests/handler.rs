use timetrack::db;
use timetrack::db::{StorageError, Store};
use timetrack::db_model;
use timetrack::error::{ApiError, ErrorKind, ErrorResponse};
use timetrack::handler;
use timetrack::models::{
    BaseResponse, CreateDailyTrackRequest, CreateTopicRequest, DailyTrack, GetDailyTracksParams,
    GetTopicsParams, Topic,
};
use timetrack::time::{Date, DateTime, UtcDateTime};

fn at(year: i32, month: u32, day: u32, hour: u32, minute: u32, second: u32) -> DateTime {
    Date::from_ymd_opt(year, month, day).unwrap().and_hms_opt(hour, minute, second).unwrap()
}

fn utc(year: i32, month: u32, day: u32, hour: u32, minute: u32, second: u32) -> UtcDateTime {
    UtcDateTime::from_naive_utc(&at(year, month, day, hour, minute, second))
}

fn id(number: i64, tail: u8) -> Vec<u8> {
    let mut bytes = number.to_be_bytes().to_vec();
    bytes.extend_from_slice(&[tail; 8]);
    bytes
}

fn parts(e: ApiError) -> (ErrorKind, String) {
    let kind = e.kind();
    let message = match e {
        ApiError::BadRequest(m) => m,
        ApiError::NotFound(m) => m,
        ApiError::Conflict(m) => m,
        ApiError::InternalServerError(m) => m,
    };
    (kind, message)
}

fn topic_request(name: &str, parent: Option<i64>) -> CreateTopicRequest {
    CreateTopicRequest { topic_name: name.to_string(), parent_topic_id: parent }
}

fn track_request(start: UtcDateTime, topic: i64, comment: Option<&str>) -> CreateDailyTrackRequest {
    CreateDailyTrackRequest { start_time: start, topic_id: topic, comment: comment.map(String::from) }
}

fn store_with_topic(number: i64) -> Store {
    let mut store = Store::new();
    let now = at(2024, 5, 5, 12, 0, 0);
    handler::create_topic_with(&mut store, topic_request("working", None), id(number, 0), now)
        .unwrap();
    store
}

#[test]
fn builders_set_the_given_fields() {
    let request = CreateTopicRequest::new("working".to_string());
    assert_eq!(request.topic_name, "working");
    assert_eq!(request.parent_topic_id, None);

    let request = CreateDailyTrackRequest::new(utc(2024, 1, 1, 9, 30, 0), 4);
    assert_eq!(request.start_time, utc(2024, 1, 1, 9, 30, 0));
    assert_eq!(request.topic_id, 4);
    assert_eq!(request.comment, None);

    let body = ErrorResponse::new("CONFLICT".to_string(), "taken".to_string());
    assert_eq!(body.error, "CONFLICT");
    assert_eq!(body.message, "taken");

    let base = BaseResponse::new();
    assert_eq!(base.status_code, 0);
    assert_eq!(base.status_message, "success");

    let topic = Topic::new(3, "t".to_string(), utc(2024, 1, 1, 0, 0, 0), utc(2024, 1, 2, 0, 0, 0));
    assert_eq!(topic.id, 3);
    assert_eq!(topic.topic_name, "t");
    assert_eq!(topic.created_at, utc(2024, 1, 1, 0, 0, 0));
    assert_eq!(topic.updated_at, utc(2024, 1, 2, 0, 0, 0));
    assert_eq!(topic.parent_topic_id, None);

    let track = DailyTrack::new(
        5,
        utc(2024, 1, 1, 9, 0, 0),
        utc(2024, 1, 1, 9, 1, 0),
        utc(2024, 1, 1, 9, 2, 0),
        8,
    );
    assert_eq!(track.id, 5);
    assert_eq!(track.start_time, utc(2024, 1, 1, 9, 0, 0));
    assert_eq!(track.created_at, utc(2024, 1, 1, 9, 1, 0));
    assert_eq!(track.updated_at, utc(2024, 1, 1, 9, 2, 0));
    assert_eq!(track.topic_id, Some(8));
    assert_eq!(track.comment, None);
}

#[test]
fn into_response_gives_each_kind_its_status_and_code() {
    let cases = [
        (ApiError::BadRequest("a".to_string()), 400, "VALIDATION_ERROR", "a"),
        (ApiError::NotFound("b".to_string()), 404, "NOT_FOUND", "b"),
        (ApiError::Conflict("c".to_string()), 409, "CONFLICT", "c"),
        (ApiError::InternalServerError("d".to_string()), 500, "INTERNAL_ERROR", "d"),
    ];
    for (error, status, code, message) in cases {
        let (got_status, body) = error.into_response();
        assert_eq!(got_status, status);
        assert_eq!(body.error, code);
        assert_eq!(body.message, message);
    }
}

#[test]
fn created_topic_is_returned_by_get_topic_by_id() {
    let mut store = Store::new();
    let now = at(2024, 5, 5, 12, 0, 0);
    let (status, created) =
        handler::create_topic_with(&mut store, topic_request("working", Some(-9)), id(77, 3), now)
            .unwrap();
    assert_eq!(status, 201);
    assert_eq!(created.id, 77);
    assert_eq!(created.topic_name, "working");
    assert_eq!(created.parent_topic_id, Some(-9));
    assert_eq!(created.created_at, UtcDateTime::from_naive_utc(&now));
    assert_eq!(created.updated_at, created.created_at);

    let found = handler::get_topic_by_id(&store, created.id).unwrap();
    assert_eq!(found.id, 77);
    assert_eq!(found.topic_name, "working");
    assert_eq!(found.topic_name.as_bytes(), "working".as_bytes());
    assert_eq!(found.parent_topic_id, Some(-9));
    assert_eq!(found.updated_at, found.created_at);
}

#[test]
fn create_topic_with_a_drawn_identifier_round_trips() {
    let mut store = Store::new();
    let (status, created) =
        handler::create_topic(&mut store, topic_request("żółw 🐢", Some(12))).unwrap();
    assert_eq!(status, 201);
    let found = handler::get_topic_by_id(&store, created.id).unwrap();
    assert_eq!(found.topic_name.as_bytes(), "żółw 🐢".as_bytes());
    assert_eq!(found.parent_topic_id, Some(12));
    assert_eq!(found.updated_at, found.created_at);
    assert_eq!(found.created_at, created.created_at);
}

#[test]
fn second_topic_of_a_name_is_a_conflict() {
    let mut store = Store::new();
    let now = at(2024, 5, 5, 12, 0, 0);
    handler::create_topic_with(&mut store, topic_request("working", None), id(1, 0), now).unwrap();
    let second =
        handler::create_topic_with(&mut store, topic_request("working", Some(1)), id(2, 0), now);
    assert_eq!(
        parts(second.unwrap_err()),
        (ErrorKind::Conflict, "Topic name already exists".to_string())
    );
    assert_eq!(store.topic_count(), 1);

    let third = handler::create_topic(&mut store, topic_request("working", None));
    assert_eq!(parts(third.unwrap_err()).0, ErrorKind::Conflict);
    assert_eq!(store.topic_count(), 1);
}

#[test]
fn blank_topic_name_is_a_bad_request() {
    let mut store = Store::new();
    let now = at(2024, 5, 5, 12, 0, 0);
    for name in ["", "   ", "\t\n", "\u{3000}"] {
        let answer =
            handler::create_topic_with(&mut store, topic_request(name, None), id(1, 0), now);
        assert_eq!(
            parts(answer.unwrap_err()),
            (ErrorKind::BadRequest, "topic_name is required and cannot be empty".to_string())
        );
        let answer = handler::create_topic(&mut store, topic_request(name, None));
        assert_eq!(parts(answer.unwrap_err()).0, ErrorKind::BadRequest);
    }
    assert_eq!(store.topic_count(), 0);
    assert!(handler::validate_topic_name(" x ").is_ok());
}

#[test]
fn get_topic_by_id_of_a_missing_topic_is_not_found() {
    let store = store_with_topic(5);
    assert_eq!(
        parts(handler::get_topic_by_id(&store, 6).unwrap_err()),
        (ErrorKind::NotFound, "Topic with id 6 not found".to_string())
    );
    assert_eq!(
        parts(handler::get_topic_by_id(&store, -6).unwrap_err()),
        (ErrorKind::NotFound, "Topic with id -6 not found".to_string())
    );
}

#[test]
fn get_topics_lists_what_clients_see() {
    let mut store = Store::new();
    let now = at(2024, 5, 5, 12, 0, 0);
    handler::create_topic_with(&mut store, topic_request("root", None), id(1, 0), now).unwrap();
    handler::create_topic_with(&mut store, topic_request("child", Some(1)), id(2, 0), now).unwrap();
    let all = handler::get_topics(&store, GetTopicsParams { parent_topic_id: None }).unwrap();
    assert_eq!(all.iter().map(|t| t.id).collect::<Vec<_>>(), vec![1, 2]);
    assert_eq!(all[1].topic_name, "child");
    assert_eq!(all[1].parent_topic_id, Some(1));
    let children = handler::get_topics(&store, GetTopicsParams { parent_topic_id: Some(1) }).unwrap();
    assert_eq!(children.iter().map(|t| t.id).collect::<Vec<_>>(), vec![2]);
}

#[test]
fn start_time_off_the_half_hour_is_a_bad_request_and_stores_nothing() {
    let mut store = store_with_topic(5);
    let now = at(2024, 5, 5, 12, 0, 0);
    for minute in (0..60).filter(|m| *m != 0 && *m != 30) {
        let request = track_request(utc(2024, 1, 1, 9, minute, 0), 5, None);
        let answer = handler::create_daily_track_with(&mut store, request, id(9, 0), now);
        assert_eq!(
            parts(answer.unwrap_err()),
            (ErrorKind::BadRequest, "start_time must be at :00 or :30 minutes".to_string())
        );
        let request = track_request(utc(2024, 1, 1, 9, minute, 0), 5, None);
        let answer = handler::create_daily_track(&mut store, request);
        assert_eq!(parts(answer.unwrap_err()).0, ErrorKind::BadRequest);
    }
    assert_eq!(store.daily_track_count(), 0);
    assert!(handler::validate_start_time(&at(2024, 1, 1, 9, 0, 59)).is_ok());
    assert!(handler::validate_start_time(&at(2024, 1, 1, 9, 30, 0)).is_ok());
    assert!(handler::validate_start_time(&at(2024, 1, 1, 9, 29, 0)).is_err());
}

#[test]
fn daily_track_of_a_missing_topic_is_not_found_and_stores_nothing() {
    let mut store = store_with_topic(5);
    let now = at(2024, 5, 5, 12, 0, 0);
    let request = track_request(utc(2024, 1, 1, 9, 30, 0), 6, None);
    let answer = handler::create_daily_track_with(&mut store, request, id(9, 0), now);
    assert_eq!(
        parts(answer.unwrap_err()),
        (ErrorKind::NotFound, "Topic with id 6 not found".to_string())
    );
    let request = track_request(utc(2024, 1, 1, 9, 30, 0), 6, None);
    let answer = handler::create_daily_track(&mut store, request);
    assert_eq!(parts(answer.unwrap_err()).0, ErrorKind::NotFound);
    assert_eq!(store.daily_track_count(), 0);
}

#[test]
fn second_daily_track_of_a_start_time_is_a_conflict_and_the_first_stays() {
    let mut store = store_with_topic(5);
    let now = at(2024, 5, 5, 12, 0, 0);
    let request = track_request(utc(2024, 1, 1, 9, 30, 0), 5, Some("first"));
    let (status, first) =
        handler::create_daily_track_with(&mut store, request, id(20, 0), now).unwrap();
    assert_eq!(status, 201);
    assert_eq!(first.id, 20);
    assert_eq!(first.start_time, utc(2024, 1, 1, 9, 30, 0));
    assert_eq!(first.topic_id, Some(5));
    assert_eq!(first.comment.as_deref(), Some("first"));
    assert_eq!(first.updated_at, first.created_at);

    let request = track_request(utc(2024, 1, 1, 9, 30, 0), 5, Some("second"));
    let second = handler::create_daily_track_with(&mut store, request, id(21, 0), now);
    assert_eq!(
        parts(second.unwrap_err()),
        (ErrorKind::Conflict, "A record already exists for this time period".to_string())
    );
    let request = track_request(utc(2024, 1, 1, 9, 30, 0), 5, None);
    let third = handler::create_daily_track(&mut store, request);
    assert_eq!(parts(third.unwrap_err()).0, ErrorKind::Conflict);
    assert_eq!(store.daily_track_count(), 1);

    let found = handler::get_daily_track_by_id(&store, 20).unwrap();
    assert_eq!(found.id, first.id);
    assert_eq!(found.start_time, first.start_time);
    assert_eq!(found.created_at, first.created_at);
    assert_eq!(found.updated_at, first.updated_at);
    assert_eq!(found.topic_id, first.topic_id);
    assert_eq!(found.comment, first.comment);
}

#[test]
fn create_daily_track_with_a_drawn_identifier_round_trips() {
    let mut store = store_with_topic(5);
    let request = track_request(utc(2024, 1, 1, 10, 0, 0), 5, Some("note"));
    let (status, created) = handler::create_daily_track(&mut store, request).unwrap();
    assert_eq!(status, 201);
    let found = handler::get_daily_track_by_id(&store, created.id).unwrap();
    assert_eq!(found.start_time, utc(2024, 1, 1, 10, 0, 0));
    assert_eq!(found.topic_id, Some(5));
    assert_eq!(found.comment.as_deref(), Some("note"));
}

#[test]
fn get_daily_track_by_id_of_a_missing_record_is_not_found() {
    let store = Store::new();
    assert_eq!(
        parts(handler::get_daily_track_by_id(&store, 12).unwrap_err()),
        (ErrorKind::NotFound, "Daily track with id 12 not found".to_string())
    );
}

fn store_with_three_days() -> Store {
    let mut store = store_with_topic(5);
    let now = at(2024, 5, 5, 12, 0, 0);
    handler::create_topic_with(&mut store, topic_request("playing", None), id(6, 0), now).unwrap();
    let slots = [
        (utc(2023, 12, 31, 23, 30, 0), 5, 31),
        (utc(2024, 1, 1, 0, 0, 0), 5, 32),
        (utc(2024, 1, 1, 23, 30, 0), 6, 33),
        (utc(2024, 1, 2, 0, 0, 0), 5, 34),
    ];
    for (start, topic, number) in slots {
        handler::create_daily_track_with(
            &mut store,
            track_request(start, topic, None),
            id(number, 0),
            now,
        )
        .unwrap();
    }
    store
}

fn params(start: Option<&str>, end: Option<&str>, topic: Option<i64>) -> GetDailyTracksParams {
    GetDailyTracksParams {
        start_date: start.map(String::from),
        end_date: end.map(String::from),
        topic_id: topic,
    }
}

#[test]
fn get_daily_tracks_of_one_day_lists_only_that_day() {
    let store = store_with_three_days();
    let tracks =
        handler::get_daily_tracks(&store, params(Some("2024-01-01"), Some("2024-01-01"), None))
            .unwrap();
    assert_eq!(tracks.iter().map(|t| t.id).collect::<Vec<_>>(), vec![32, 33]);
    for track in &tracks {
        assert!(track.start_time.naive_utc().ge(&at(2024, 1, 1, 0, 0, 0)));
        assert!(track.start_time.naive_utc().le(&at(2024, 1, 1, 23, 59, 59)));
    }
}

#[test]
fn get_daily_tracks_filters_by_dates_and_topic() {
    let store = store_with_three_days();
    let ids = |p: GetDailyTracksParams| -> Vec<i64> {
        handler::get_daily_tracks(&store, p).unwrap().iter().map(|t| t.id).collect()
    };
    assert_eq!(ids(params(None, None, None)), vec![31, 32, 33, 34]);
    assert_eq!(ids(params(Some("2024-01-01"), None, None)), vec![32, 33, 34]);
    assert_eq!(ids(params(None, Some("2023-12-31"), None)), vec![31]);
    assert_eq!(ids(params(None, None, Some(6))), vec![33]);
    assert_eq!(ids(params(Some("2024-01-01"), Some("2024-01-02"), Some(5))), vec![32, 34]);
    assert_eq!(ids(params(None, None, Some(7))), Vec::<i64>::new());
}

#[test]
fn a_date_that_does_not_parse_is_a_bad_request_that_repeats_it() {
    let store = store_with_three_days();
    let answer = handler::get_daily_tracks(&store, params(Some("01/02/2024"), None, None));
    assert_eq!(
        parts(answer.unwrap_err()),
        (
            ErrorKind::BadRequest,
            "Invalid start_date format '01/02/2024'. Expected YYYY-MM-DD".to_string()
        )
    );
    let answer = handler::get_daily_tracks(&store, params(Some("2024-01-01"), Some("soon"), None));
    assert_eq!(
        parts(answer.unwrap_err()),
        (ErrorKind::BadRequest, "Invalid end_date format 'soon'. Expected YYYY-MM-DD".to_string())
    );
    let answer = handler::get_daily_tracks(&store, params(Some("x"), Some("y"), None));
    assert_eq!(
        parts(answer.unwrap_err()).1,
        "Invalid start_date format 'x'. Expected YYYY-MM-DD"
    );
    let answer = handler::get_daily_tracks(&store, params(Some("2024-02-30"), None, None));
    assert_eq!(parts(answer.unwrap_err()).0, ErrorKind::BadRequest);
}

#[test]
fn parse_date_bound_reads_dates_as_chrono_does() {
    let texts = [
        "2024-01-01",
        "2024-1-1",
        "2024-02-29",
        "2023-02-29",
        "2024-13-01",
        " 2024-01-01",
        "2024-01-01 ",
        "24-01-01",
        "+2024-01-01",
        "-0001-01-01",
        "2024/01/01",
        "",
        "2024-01-01T00:00:00",
    ];
    for text in texts {
        let ours = handler::parse_date_bound("start_date", &Some(text.to_string()));
        let theirs = chrono::NaiveDate::parse_from_str(text, "%Y-%m-%d").ok();
        match (ours, theirs) {
            (Ok(Some(d)), Some(c)) => {
                assert_eq!(
                    (d.year, d.month, d.day),
                    (
                        chrono::Datelike::year(&c),
                        chrono::Datelike::month(&c),
                        chrono::Datelike::day(&c)
                    )
                );
            }
            (Err(e), None) => {
                assert_eq!(
                    parts(e),
                    (
                        ErrorKind::BadRequest,
                        format!("Invalid start_date format '{text}'. Expected YYYY-MM-DD")
                    )
                );
            }
            (ours, theirs) => panic!("{text:?}: {ours:?} against {theirs:?}"),
        }
    }
    assert_eq!(handler::parse_date_bound("end_date", &None).unwrap(), None);
    let day = handler::parse_date_bound("end_date", &Some("2024-03-09".to_string())).unwrap();
    assert_eq!(day, Date::from_ymd_opt(2024, 3, 9));
}

#[test]
fn check_date_bound_decides_on_what_the_parser_returned() {
    let day = Date::from_ymd_opt(2024, 3, 9);
    assert_eq!(handler::check_date_bound("start_date", &None, None).unwrap(), None);
    assert_eq!(handler::check_date_bound("start_date", &None, day).unwrap(), None);
    assert_eq!(
        handler::check_date_bound("start_date", &Some("2024-03-09".to_string()), day).unwrap(),
        day
    );
    let refused = handler::check_date_bound("end_date", &Some("tomorrow".to_string()), None);
    assert_eq!(
        parts(refused.unwrap_err()),
        (
            ErrorKind::BadRequest,
            "Invalid end_date format 'tomorrow'. Expected YYYY-MM-DD".to_string()
        )
    );
}

#[test]
fn list_daily_tracks_takes_days_as_they_are() {
    let store = store_with_three_days();
    let day = Date::from_ymd_opt(2024, 1, 2);
    let tracks = handler::list_daily_tracks(&store, day, day, None).unwrap();
    assert_eq!(tracks.iter().map(|t| t.id).collect::<Vec<_>>(), vec![34]);
}

fn row(number: i64) -> db_model::Topic {
    db_model::Topic::with_id(id(number, 0), at(2024, 1, 1, 0, 0, 0), "t".to_string(), None)
}

fn track_row(number: i64) -> db_model::DailyTrack {
    db_model::DailyTrack::with_id(
        id(number, 0),
        at(2024, 1, 1, 0, 0, 0),
        at(2024, 1, 1, 9, 0, 0),
        None,
        None,
    )
}

#[test]
fn a_unique_violation_is_a_conflict_and_any_other_failure_is_internal() {
    let unique = || StorageError::UniqueViolation("Duplicate entry".to_string());
    let backend = || StorageError::Backend("connection lost".to_string());

    assert_eq!(
        parts(handler::create_topic_response(Err(unique())).unwrap_err()),
        (ErrorKind::Conflict, "Topic name already exists".to_string())
    );
    assert_eq!(
        parts(handler::create_topic_response(Err(backend())).unwrap_err()),
        (ErrorKind::InternalServerError, "Failed to create topic: connection lost".to_string())
    );
    assert_eq!(
        parts(handler::create_daily_track_response(Err(unique())).unwrap_err()),
        (ErrorKind::Conflict, "A record already exists for this time period".to_string())
    );
    assert_eq!(
        parts(handler::create_daily_track_response(Err(backend())).unwrap_err()),
        (
            ErrorKind::InternalServerError,
            "Failed to create daily track: connection lost".to_string()
        )
    );
    assert_eq!(
        parts(handler::get_topics_response(Err(backend())).unwrap_err()),
        (ErrorKind::InternalServerError, "Failed to retrieve topics: connection lost".to_string())
    );
    assert_eq!(
        parts(handler::get_topics_response(Err(unique())).unwrap_err()),
        (ErrorKind::InternalServerError, "Failed to retrieve topics: Duplicate entry".to_string())
    );
    assert_eq!(
        parts(handler::get_topic_by_id_response(3, Err(backend())).unwrap_err()),
        (ErrorKind::InternalServerError, "Failed to retrieve topic: connection lost".to_string())
    );
    assert_eq!(
        parts(handler::get_daily_tracks_response(Err(backend())).unwrap_err()),
        (
            ErrorKind::InternalServerError,
            "Failed to retrieve daily tracks: connection lost".to_string()
        )
    );
    assert_eq!(
        parts(handler::get_daily_track_by_id_response(3, Err(backend())).unwrap_err()),
        (
            ErrorKind::InternalServerError,
            "Failed to retrieve daily track: connection lost".to_string()
        )
    );
    assert_eq!(
        parts(handler::verify_topic(3, Err(backend())).unwrap_err()),
        (ErrorKind::InternalServerError, "Failed to verify topic: connection lost".to_string())
    );
}

#[test]
fn responses_show_what_the_store_returned() {
    let (status, topic) = handler::create_topic_response(Ok(row(4))).unwrap();
    assert_eq!((status, topic.id), (201, 4));
    let (status, track) = handler::create_daily_track_response(Ok(track_row(5))).unwrap();
    assert_eq!((status, track.id), (201, 5));
    assert_eq!(handler::get_topic_by_id_response(4, Ok(Some(row(4)))).unwrap().id, 4);
    assert_eq!(
        parts(handler::get_topic_by_id_response(4, Ok(None)).unwrap_err()),
        (ErrorKind::NotFound, "Topic with id 4 not found".to_string())
    );
    assert_eq!(handler::get_daily_track_by_id_response(5, Ok(Some(track_row(5)))).unwrap().id, 5);
    assert_eq!(
        parts(handler::get_daily_track_by_id_response(5, Ok(None)).unwrap_err()),
        (ErrorKind::NotFound, "Daily track with id 5 not found".to_string())
    );
    let topics = handler::get_topics_response(Ok(vec![row(1), row(2)])).unwrap();
    assert_eq!(topics.iter().map(|t| t.id).collect::<Vec<_>>(), vec![1, 2]);
    let tracks = handler::get_daily_tracks_response(Ok(vec![track_row(3)])).unwrap();
    assert_eq!(tracks.iter().map(|t| t.id).collect::<Vec<_>>(), vec![3]);
    assert!(handler::verify_topic(4, Ok(Some(row(4)))).is_ok());
    assert_eq!(
        parts(handler::verify_topic(4, Ok(None)).unwrap_err()),
        (ErrorKind::NotFound, "Topic with id 4 not found".to_string())
    );
}

#[test]
fn handlers_and_storage_agree() {
    let mut store = store_with_topic(5);
    let request = track_request(utc(2024, 1, 1, 9, 30, 0), 5, None);
    handler::create_daily_track(&mut store, request).unwrap();
    let rows = db::get_daily_tracks(&store, None, None, Some(5));
    assert_eq!(rows.len(), 1);
    assert_eq!(rows[0].topic_id, Some(5i64.to_be_bytes().to_vec()));
    assert_eq!(rows[0].start_time, at(2024, 1, 1, 9, 30, 0));
}
