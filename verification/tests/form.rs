use timetrack::error::ErrorResponse;
use timetrack::form::{parse_form, Field, FieldKind, Value};
use timetrack::models::{CreateDailyTrackRequest, CreateTopicRequest, DailyTrack, Topic};
use timetrack::text::{i64_from_str, split_on, IntErrorKind};
use timetrack::time::{Date, UtcDateTime};

fn utc(year: i32, month: u32, day: u32, hour: u32, minute: u32, second: u32) -> UtcDateTime {
    UtcDateTime::from_naive_utc(
        &Date::from_ymd_opt(year, month, day).unwrap().and_hms_opt(hour, minute, second).unwrap(),
    )
}

#[test]
fn split_on_agrees_with_std() {
    for s in ["", ",", "a", "a,b", "a,", ",a", "a,,b", ",,", "topic_name,x,parent_topic_id,3", "ż,ó"]
    {
        let expected: Vec<String> = s.split(',').map(String::from).collect();
        assert_eq!(split_on(s, ','), expected, "{s:?}");
    }
    assert_eq!(split_on("a-b", '-'), vec!["a", "b"]);
    assert_eq!(split_on("", ','), vec![""]);
}

#[test]
fn i64_from_str_fails_as_std_does() {
    let cases = [
        "",
        "-",
        "+",
        "0",
        "-0",
        "+7",
        "12",
        "-12",
        "1a",
        "a1",
        " 1",
        "--1",
        "9223372036854775807",
        "9223372036854775808",
        "-9223372036854775808",
        "-9223372036854775809",
        "99999999999999999999",
        "-99999999999999999999",
        "99999999999999999999x",
        "9223372036854775808x",
        "922337203685477580x",
        "-99999999999999999999x",
        "0000000000000000000000009",
    ];
    for s in cases {
        let ours = i64_from_str(s).map_err(|k| k.message().to_string());
        let theirs = s.parse::<i64>().map_err(|e| e.to_string());
        assert_eq!(ours, theirs, "{s:?}");
    }
    assert_eq!(i64_from_str(""), Err(IntErrorKind::Empty));
    assert_eq!(i64_from_str("-"), Err(IntErrorKind::InvalidDigit));
    assert_eq!(i64_from_str("9223372036854775808"), Err(IntErrorKind::PosOverflow));
    assert_eq!(i64_from_str("-9223372036854775809"), Err(IntErrorKind::NegOverflow));
    assert_eq!(i64_from_str("-9223372036854775808"), Ok(i64::MIN));
    assert_eq!(IntErrorKind::Empty.message(), "cannot parse integer from empty string");
    assert_eq!(IntErrorKind::InvalidDigit.message(), "invalid digit found in string");
    assert_eq!(IntErrorKind::PosOverflow.message(), "number too large to fit in target type");
    assert_eq!(IntErrorKind::NegOverflow.message(), "number too small to fit in target type");
}

#[test]
fn create_topic_request_is_written_in_one_line() {
    let root = CreateTopicRequest { topic_name: "working".to_string(), parent_topic_id: None };
    assert_eq!(root.to_string(), "topic_name,working");
    let child = CreateTopicRequest { topic_name: "deep".to_string(), parent_topic_id: Some(-4) };
    assert_eq!(child.to_string(), "topic_name,deep,parent_topic_id,-4");
}

#[test]
fn create_topic_request_is_read_from_one_line() {
    let r = CreateTopicRequest::from_str("topic_name,working").unwrap();
    assert_eq!((r.topic_name.as_str(), r.parent_topic_id), ("working", None));
    let r = CreateTopicRequest::from_str("parent_topic_id,12,topic_name,deep").unwrap();
    assert_eq!((r.topic_name.as_str(), r.parent_topic_id), ("deep", Some(12)));
    let r = CreateTopicRequest::from_str("topic_name,a,topic_name,b,parent_topic_id,1,parent_topic_id,2")
        .unwrap();
    assert_eq!((r.topic_name.as_str(), r.parent_topic_id), ("a", Some(1)));
    let r = CreateTopicRequest::from_str("topic_name,").unwrap();
    assert_eq!(r.topic_name, "");

    let written = CreateTopicRequest { topic_name: "x".to_string(), parent_topic_id: Some(9) };
    let read = CreateTopicRequest::from_str(&written.to_string()).unwrap();
    assert_eq!((read.topic_name, read.parent_topic_id), (written.topic_name, Some(9)));
}

#[test]
fn create_topic_request_reports_the_first_thing_that_goes_wrong() {
    let refused = |s: &str| CreateTopicRequest::from_str(s).unwrap_err();
    assert_eq!(refused(""), "Missing value while parsing CreateTopicRequest");
    assert_eq!(refused("topic_name"), "Missing value while parsing CreateTopicRequest");
    assert_eq!(
        refused("topic_name,a,parent_topic_id"),
        "Missing value while parsing CreateTopicRequest"
    );
    assert_eq!(refused("name,a"), "Unexpected key while parsing CreateTopicRequest");
    assert_eq!(refused(",a"), "Unexpected key while parsing CreateTopicRequest");
    assert_eq!(refused("parent_topic_id,3"), "topic_name missing in CreateTopicRequest");
    assert_eq!(refused("parent_topic_id,three"), "invalid digit found in string");
    assert_eq!(refused("parent_topic_id,"), "cannot parse integer from empty string");
    assert_eq!(
        refused("parent_topic_id,99999999999999999999"),
        "number too large to fit in target type"
    );
    assert_eq!(
        refused("parent_topic_id,-99999999999999999999"),
        "number too small to fit in target type"
    );
    assert_eq!(refused("parent_topic_id,x,other,1"), "invalid digit found in string");
    assert_eq!(refused("other,1,parent_topic_id,x"), "Unexpected key while parsing CreateTopicRequest");
    assert_eq!(
        refused("topic_name,a,parent_topic_id,1,parent_topic_id,x"),
        "invalid digit found in string"
    );
    assert_eq!(refused("topic_name,a,b"), "Missing value while parsing CreateTopicRequest");
    assert_eq!(refused("topic_name,a,b,c"), "Unexpected key while parsing CreateTopicRequest");
}

#[test]
fn error_response_is_written_and_read() {
    let body = ErrorResponse::new("NOT_FOUND".to_string(), "Topic with id 3 not found".to_string());
    assert_eq!(body.to_string(), "error,NOT_FOUND,message,Topic with id 3 not found");
    let read = ErrorResponse::from_str("error,NOT_FOUND,message,Topic with id 3 not found").unwrap();
    assert_eq!((read.error.as_str(), read.message.as_str()), ("NOT_FOUND", "Topic with id 3 not found"));
    let read = ErrorResponse::from_str("message,m,error,e").unwrap();
    assert_eq!((read.error.as_str(), read.message.as_str()), ("e", "m"));
    assert_eq!(ErrorResponse::from_str("message,m").unwrap_err(), "error missing in ErrorResponse");
    assert_eq!(ErrorResponse::from_str("error,e").unwrap_err(), "message missing in ErrorResponse");
    assert_eq!(
        ErrorResponse::from_str("error,e,code,1").unwrap_err(),
        "Unexpected key while parsing ErrorResponse"
    );
    assert_eq!(
        ErrorResponse::from_str("error").unwrap_err(),
        "Missing value while parsing ErrorResponse"
    );
}

#[test]
fn create_daily_track_request_is_written_without_its_time() {
    let request = CreateDailyTrackRequest {
        start_time: utc(2024, 1, 1, 9, 30, 0),
        topic_id: 4,
        comment: Some("deep work".to_string()),
    };
    assert_eq!(request.to_string(), "topic_id,4,comment,deep work");
    let request = CreateDailyTrackRequest::new(utc(2024, 1, 1, 9, 30, 0), -4);
    assert_eq!(request.to_string(), "topic_id,-4");
}

#[test]
fn create_daily_track_request_is_read_from_one_line() {
    let r = CreateDailyTrackRequest::from_str("start_time,2024-01-01T09:30:00Z,topic_id,4").unwrap();
    assert_eq!(r.start_time, utc(2024, 1, 1, 9, 30, 0));
    assert_eq!(r.topic_id, 4);
    assert_eq!(r.comment, None);
    let r = CreateDailyTrackRequest::from_str(
        "comment,note,topic_id,4,start_time,2024-01-01 11:30:00+02:00",
    )
    .unwrap();
    assert_eq!(r.start_time, utc(2024, 1, 1, 9, 30, 0));
    assert_eq!(r.comment.as_deref(), Some("note"));

    let refused = |s: &str| CreateDailyTrackRequest::from_str(s).unwrap_err();
    assert_eq!(refused("topic_id,4"), "start_time missing in CreateDailyTrackRequest");
    assert_eq!(
        refused("start_time,2024-01-01T09:30:00Z"),
        "topic_id missing in CreateDailyTrackRequest"
    );
    assert_eq!(refused("comment,x"), "start_time missing in CreateDailyTrackRequest");
    for text in ["", "yesterday", "2024-01-01", "2024-13-01T00:00:00Z", "2024-01-01T09:30:00Z trailing"] {
        let expected = text.parse::<chrono::DateTime<chrono::Utc>>().unwrap_err().to_string();
        assert_eq!(refused(&format!("start_time,{text}")), expected, "{text:?}");
    }
    assert_eq!(refused("start_time,2024-01-01"), "premature end of input");
}

#[test]
fn topic_is_written_and_read() {
    let mut topic = Topic::new(7, "working".to_string(), utc(2024, 1, 1, 0, 0, 0), utc(2024, 1, 2, 0, 0, 0));
    assert_eq!(topic.to_string(), "id,7,topic_name,working");
    topic.parent_topic_id = Some(3);
    assert_eq!(topic.to_string(), "id,7,topic_name,working,parent_topic_id,3");

    let read = Topic::from_str(
        "id,7,topic_name,working,created_at,2024-01-01T00:00:00Z,updated_at,2024-01-02T00:00:00Z,parent_topic_id,3",
    )
    .unwrap();
    assert_eq!(read.id, 7);
    assert_eq!(read.topic_name, "working");
    assert_eq!(read.created_at, utc(2024, 1, 1, 0, 0, 0));
    assert_eq!(read.updated_at, utc(2024, 1, 2, 0, 0, 0));
    assert_eq!(read.parent_topic_id, Some(3));

    let refused = |s: &str| Topic::from_str(s).unwrap_err();
    assert_eq!(refused("id,7,topic_name,working"), "created_at missing in Topic");
    assert_eq!(refused("topic_name,working"), "id missing in Topic");
    assert_eq!(
        refused("id,7,topic_name,working,created_at,2024-01-01T00:00:00Z"),
        "updated_at missing in Topic"
    );
    assert_eq!(refused("id,7,name,x"), "Unexpected key while parsing Topic");
    assert_eq!(refused("id"), "Missing value while parsing Topic");
    assert_eq!(refused("id,x"), "invalid digit found in string");
}

#[test]
fn daily_track_is_written_and_read() {
    let mut track = DailyTrack::new(
        5,
        utc(2024, 1, 1, 9, 0, 0),
        utc(2024, 1, 1, 9, 1, 0),
        utc(2024, 1, 1, 9, 2, 0),
        8,
    );
    assert_eq!(track.to_string(), "id,5,topic_id,8");
    track.comment = Some("note".to_string());
    assert_eq!(track.to_string(), "id,5,topic_id,8,comment,note");
    track.topic_id = None;
    assert_eq!(track.to_string(), "id,5,comment,note");

    let line = "id,5,start_time,2024-01-01T09:00:00Z,created_at,2024-01-01T09:01:00Z,updated_at,2024-01-01T09:02:00.5Z,topic_id,8,comment,note";
    let read = DailyTrack::from_str(line).unwrap();
    assert_eq!(read.id, 5);
    assert_eq!(read.start_time, utc(2024, 1, 1, 9, 0, 0));
    assert_eq!(read.created_at, utc(2024, 1, 1, 9, 1, 0));
    let mut updated = utc(2024, 1, 1, 9, 2, 0);
    updated.utc.nanosecond = 500_000_000;
    assert_eq!(read.updated_at, updated);
    assert_eq!(read.topic_id, Some(8));
    assert_eq!(read.comment.as_deref(), Some("note"));

    let refused = |s: &str| DailyTrack::from_str(s).unwrap_err();
    assert_eq!(refused("id,5"), "start_time missing in DailyTrack");
    assert_eq!(refused("topic_id,8"), "id missing in DailyTrack");
    assert_eq!(refused("id,5,start_time,now"), "input contains invalid characters");
    assert_eq!(refused("id,5,slot,1"), "Unexpected key while parsing DailyTrack");
}

#[test]
fn parse_form_reads_the_fields_of_any_table() {
    let fields = vec![
        Field { name: "a", kind: FieldKind::Int, required: true },
        Field { name: "b", kind: FieldKind::Text, required: false },
        Field { name: "a", kind: FieldKind::Text, required: false },
    ];
    let found = parse_form("b,x,a,3", "T", &fields).unwrap();
    assert_eq!(found.len(), 3);
    assert!(matches!(found[0], Some(Value::Int(3))));
    assert!(matches!(&found[1], Some(Value::Text(t)) if t == "x"));
    assert!(found[2].is_none());
    assert_eq!(parse_form("b,x", "T", &fields).unwrap_err(), "a missing in T");
    assert_eq!(parse_form("c,x", "T", &fields).unwrap_err(), "Unexpected key while parsing T");
    assert!(parse_form("", "T", &Vec::new()).is_err());
}
