use chrono::NaiveDate;
use timetrack::db;
use timetrack::db::{StorageError, Store};
use timetrack::db_model::{DailyTrack, Topic};
use timetrack::ident::{i64_to_binary, vec_u8_to_i64};
use timetrack::time::{Date, DateTime};

fn at(year: i32, month: u32, day: u32, hour: u32, minute: u32, second: u32) -> DateTime {
    Date::from_ymd_opt(year, month, day).unwrap().and_hms_opt(hour, minute, second).unwrap()
}

fn id(number: i64, tail: u8) -> Vec<u8> {
    let mut bytes = number.to_be_bytes().to_vec();
    bytes.extend_from_slice(&[tail; 8]);
    bytes
}

fn unique_violation(e: &StorageError) -> Option<&str> {
    match e {
        StorageError::UniqueViolation(m) => Some(m.as_str()),
        StorageError::Backend(_) => None,
    }
}

#[test]
fn daily_track_new_sets_expected_fields() {
    let start_time = DateTime::now();
    let topic_id = Some(vec![1, 2, 3, 4, 5, 6, 7, 8, 9, 10, 11, 12, 13, 14, 15, 16]);
    let comment = Some("test comment".to_string());

    let track = DailyTrack::new(start_time, topic_id.clone(), comment.clone());

    assert_eq!(track.id.len(), 16);

    assert_eq!(track.start_time, start_time);
    assert_eq!(track.topic_id, topic_id);
    assert_eq!(track.comment, comment);

    assert!(track.created_at.ge(&start_time));
    assert!(track.updated_at.is_none());
}

#[test]
fn daily_track_display_includes_id_and_comment() {
    let start_time = DateTime::now();
    let comment = Some("display test".to_string());
    let track = DailyTrack::new(start_time, None, comment.clone());

    let rendered = track.to_string();

    let chrono_start = NaiveDate::from_ymd_opt(
        start_time.date.year,
        start_time.date.month,
        start_time.date.day,
    )
    .unwrap()
    .and_hms_nano_opt(
        start_time.hour,
        start_time.minute,
        start_time.second,
        start_time.nanosecond,
    )
    .unwrap();
    assert!(rendered.contains(&chrono_start.to_string()));
    assert!(rendered.contains(comment.as_ref().unwrap()));

    assert!(rendered.contains("id:"));
}

#[test]
fn daily_track_text_is_exact() {
    let mut start = at(2024, 1, 1, 9, 30, 0);
    let track = DailyTrack::with_id(
        vec![
            0x00, 0x11, 0x22, 0x33, 0x44, 0x55, 0x66, 0x77, 0x88, 0x99, 0xaa, 0xbb, 0xcc, 0xdd,
            0xee, 0xff,
        ],
        at(2024, 1, 1, 9, 31, 0),
        start,
        None,
        Some("deep work".to_string()),
    );
    assert_eq!(
        track.to_string(),
        "id: 00112233-4455-6677-8899-aabbccddeeff, start_time: 2024-01-01 09:30:00, comment: deep work"
    );

    start.nanosecond = 250_000_000;
    let short = DailyTrack::with_id(vec![1, 2, 3], at(2024, 1, 1, 9, 31, 0), start, None, None);
    assert_eq!(
        short.to_string(),
        "id: 00000000-0000-0000-0000-000000000000, start_time: 2024-01-01 09:30:00.250, comment: "
    );
}

#[test]
fn new_rows_get_different_identifiers() {
    let a = DailyTrack::new(at(2024, 1, 1, 9, 0, 0), None, None);
    let b = DailyTrack::new(at(2024, 1, 1, 9, 0, 0), None, None);
    assert_ne!(a.id, b.id);
    assert_eq!(a.id[6] >> 4, 4);
}

#[test]
fn a_new_store_is_empty() {
    let store = Store::new();
    assert_eq!(store.topic_count(), 0);
    assert_eq!(store.daily_track_count(), 0);
    assert!(db::get_topics(&store, None).is_empty());
    assert!(db::get_daily_tracks(&store, None, None, None).is_empty());
    assert!(db::get_topic_by_id(&store, 1).is_none());
    assert!(db::get_daily_track_by_id(&store, 1).is_none());
}

#[test]
fn create_topic_then_get_topic_by_id_returns_it() {
    let mut store = Store::new();
    let now = at(2024, 5, 5, 12, 0, 0);
    let created =
        db::create_topic_with(&mut store, "working".to_string(), Some(7), id(41, 1), now).unwrap();
    assert_eq!(created.id, id(41, 1));
    assert_eq!(created.topic_name, "working");
    assert_eq!(created.created_at, now);
    assert_eq!(created.updated_at, None);
    assert_eq!(created.parent_topic_id, Some(i64_to_binary(7)));

    let found = db::get_topic_by_id(&store, 41).unwrap();
    assert_eq!(found.id, created.id);
    assert_eq!(found.topic_name, "working");
    assert_eq!(found.parent_topic_id, Some(i64_to_binary(7)));
    assert_eq!(found.created_at, now);
    assert!(db::get_topic_by_id(&store, 42).is_none());
    assert_eq!(store.topic_count(), 1);
}

#[test]
fn create_topic_draws_an_identifier_and_reads_the_clock() {
    let mut store = Store::new();
    let created = db::create_topic(&mut store, "playing".to_string(), None).unwrap();
    assert_eq!(created.id.len(), 16);
    assert!(created.created_at.is_valid());
    assert_eq!(created.updated_at, None);
    assert_eq!(created.parent_topic_id, None);
    let found = db::get_topic_by_id(&store, vec_u8_to_i64(&created.id)).unwrap();
    assert_eq!(found.topic_name, "playing");
    assert_eq!(found.id, created.id);
}

#[test]
fn second_topic_of_a_name_is_a_unique_violation() {
    let mut store = Store::new();
    let now = at(2024, 5, 5, 12, 0, 0);
    db::create_topic_with(&mut store, "working".to_string(), None, id(1, 0), now).unwrap();
    let second = db::create_topic_with(&mut store, "working".to_string(), Some(1), id(2, 0), now);
    let error = second.unwrap_err();
    assert_eq!(unique_violation(&error), Some("Topic with name 'working' already exists"));
    assert_eq!(error.to_string(), "Topic with name 'working' already exists");
    assert!(error.is_unique_violation());
    assert_eq!(store.topic_count(), 1);

    let random = db::create_topic(&mut store, "working".to_string(), None);
    assert!(random.unwrap_err().is_unique_violation());
    assert_eq!(store.topic_count(), 1);
}

#[test]
fn a_taken_number_is_a_unique_violation() {
    let mut store = Store::new();
    let now = at(2024, 5, 5, 12, 0, 0);
    db::create_topic_with(&mut store, "a".to_string(), None, id(1, 0), now).unwrap();
    let second = db::create_topic_with(&mut store, "b".to_string(), None, id(1, 9), now);
    assert_eq!(
        unique_violation(&second.unwrap_err()),
        Some("Duplicate entry for key 'PRIMARY'")
    );
    assert_eq!(store.topic_count(), 1);

    db::create_daily_track_with(&mut store, at(2024, 1, 1, 9, 0, 0), None, None, id(5, 0), now)
        .unwrap();
    let clash =
        db::create_daily_track_with(&mut store, at(2024, 1, 1, 9, 30, 0), None, None, id(5, 1), now);
    assert_eq!(unique_violation(&clash.unwrap_err()), Some("Duplicate entry for key 'PRIMARY'"));
    assert_eq!(store.daily_track_count(), 1);
}

#[test]
fn get_topics_filters_by_parent_in_table_order() {
    let mut store = Store::new();
    let now = at(2024, 5, 5, 12, 0, 0);
    db::create_topic_with(&mut store, "root".to_string(), None, id(1, 0), now).unwrap();
    db::create_topic_with(&mut store, "child a".to_string(), Some(1), id(2, 0), now).unwrap();
    db::create_topic_with(&mut store, "other root".to_string(), None, id(3, 0), now).unwrap();
    db::create_topic_with(&mut store, "child b".to_string(), Some(1), id(4, 0), now).unwrap();
    db::create_topic_with(&mut store, "grandchild".to_string(), Some(2), id(5, 0), now).unwrap();

    let all: Vec<String> =
        db::get_topics(&store, None).into_iter().map(|t| t.topic_name).collect();
    assert_eq!(all, vec!["root", "child a", "other root", "child b", "grandchild"]);

    let children: Vec<String> =
        db::get_topics(&store, Some(1)).into_iter().map(|t| t.topic_name).collect();
    assert_eq!(children, vec!["child a", "child b"]);

    let grandchildren: Vec<String> =
        db::get_topics(&store, Some(2)).into_iter().map(|t| t.topic_name).collect();
    assert_eq!(grandchildren, vec!["grandchild"]);

    assert!(db::get_topics(&store, Some(99)).is_empty());
}

#[test]
fn second_daily_track_of_a_start_time_is_a_unique_violation() {
    let mut store = Store::new();
    let now = at(2024, 5, 5, 12, 0, 0);
    let start = at(2024, 1, 1, 9, 30, 0);
    let first = db::create_daily_track_with(
        &mut store,
        start,
        Some(i64_to_binary(3)),
        Some("first".to_string()),
        id(10, 0),
        now,
    )
    .unwrap();
    let second = db::create_daily_track_with(
        &mut store,
        start,
        None,
        Some("second".to_string()),
        id(11, 0),
        now,
    );
    assert_eq!(
        unique_violation(&second.unwrap_err()),
        Some("A record already exists for time period 2024-01-01 09:30:00")
    );
    assert_eq!(store.daily_track_count(), 1);

    let found = db::get_daily_track_by_id(&store, 10).unwrap();
    assert_eq!(found.id, first.id);
    assert_eq!(found.start_time, start);
    assert_eq!(found.created_at, now);
    assert_eq!(found.updated_at, None);
    assert_eq!(found.topic_id, Some(i64_to_binary(3)));
    assert_eq!(found.comment.as_deref(), Some("first"));

    let random = db::create_daily_track(&mut store, start, None, None);
    assert!(random.unwrap_err().is_unique_violation());
    assert_eq!(store.daily_track_count(), 1);
}

#[test]
fn create_daily_track_draws_an_identifier_and_reads_the_clock() {
    let mut store = Store::new();
    let start = at(2024, 1, 1, 9, 30, 0);
    let created = db::create_daily_track(
        &mut store,
        start,
        Some(i64_to_binary(3)),
        Some("note".to_string()),
    )
    .unwrap();
    assert_eq!(created.id.len(), 16);
    assert_eq!(created.start_time, start);
    assert!(created.created_at.is_valid());
    let found = db::get_daily_track_by_id(&store, vec_u8_to_i64(&created.id)).unwrap();
    assert_eq!(found.id, created.id);
    assert_eq!(found.comment.as_deref(), Some("note"));
}

fn store_with_tracks() -> Store {
    let mut store = Store::new();
    let now = at(2024, 5, 5, 12, 0, 0);
    let mut number = 100;
    let mut last_second = at(2024, 1, 1, 23, 59, 59);
    last_second.nanosecond = 1;
    let rows = [
        (at(2023, 12, 31, 23, 59, 59), Some(1)),
        (at(2024, 1, 1, 0, 0, 0), Some(1)),
        (at(2024, 1, 1, 12, 30, 0), Some(2)),
        (at(2024, 1, 1, 23, 59, 59), None),
        (last_second, Some(1)),
        (at(2024, 1, 2, 0, 0, 0), Some(2)),
        (at(2024, 1, 3, 8, 0, 0), Some(1)),
    ];
    for (start, topic) in rows {
        number += 1;
        db::create_daily_track_with(
            &mut store,
            start,
            topic.map(i64_to_binary),
            None,
            id(number, 0),
            now,
        )
        .unwrap();
    }
    store
}

fn numbers(rows: Vec<DailyTrack>) -> Vec<i64> {
    rows.iter().map(|r| vec_u8_to_i64(&r.id)).collect()
}

#[test]
fn get_daily_tracks_of_one_day_returns_only_that_day() {
    let store = store_with_tracks();
    let day = Date::from_ymd_opt(2024, 1, 1).unwrap();
    let rows = db::get_daily_tracks(&store, Some(day), Some(day), None);
    for row in &rows {
        assert!(row.start_time.ge(&at(2024, 1, 1, 0, 0, 0)));
        assert!(row.start_time.le(&at(2024, 1, 1, 23, 59, 59)));
    }
    assert_eq!(numbers(rows), vec![102, 103, 104]);
}

#[test]
fn get_daily_tracks_applies_each_filter_alone_and_together() {
    let store = store_with_tracks();
    let first = Date::from_ymd_opt(2024, 1, 1).unwrap();
    let second = Date::from_ymd_opt(2024, 1, 2).unwrap();

    assert_eq!(
        numbers(db::get_daily_tracks(&store, None, None, None)),
        vec![101, 102, 103, 104, 105, 106, 107]
    );
    assert_eq!(
        numbers(db::get_daily_tracks(&store, Some(first), None, None)),
        vec![102, 103, 104, 105, 106, 107]
    );
    assert_eq!(
        numbers(db::get_daily_tracks(&store, None, Some(first), None)),
        vec![101, 102, 103, 104]
    );
    assert_eq!(
        numbers(db::get_daily_tracks(&store, Some(second), Some(second), None)),
        vec![106]
    );
    assert_eq!(
        numbers(db::get_daily_tracks(&store, None, None, Some(1))),
        vec![101, 102, 105, 107]
    );
    assert_eq!(
        numbers(db::get_daily_tracks(&store, Some(first), Some(second), Some(2))),
        vec![103, 106]
    );
    assert!(db::get_daily_tracks(&store, Some(second), Some(first), None).is_empty());
    assert!(db::get_daily_tracks(&store, None, None, Some(9)).is_empty());
}

#[test]
fn lookup_goes_by_the_first_eight_bytes() {
    let mut store = Store::new();
    let now = at(2024, 5, 5, 12, 0, 0);
    db::create_topic_with(&mut store, "a".to_string(), None, id(-3, 7), now).unwrap();
    let found = db::get_topic_by_id(&store, -3).unwrap();
    assert_eq!(found.id, id(-3, 7));
    assert!(db::get_topic_by_id(&store, 3).is_none());
}

#[test]
fn from_rows_accepts_well_formed_tables_only() {
    let now = at(2024, 5, 5, 12, 0, 0);
    let topic = |number: i64, name: &str| Topic::with_id(id(number, 0), now, name.to_string(), None);
    let track =
        |number: i64, start: DateTime| DailyTrack::with_id(id(number, 0), now, start, None, None);

    let store = Store::from_rows(
        vec![topic(1, "a"), topic(2, "b")],
        vec![track(1, at(2024, 1, 1, 9, 0, 0)), track(2, at(2024, 1, 1, 9, 30, 0))],
    )
    .unwrap();
    assert_eq!(store.topic_count(), 2);
    assert_eq!(store.daily_track_count(), 2);
    assert_eq!(db::get_topic_by_id(&store, 2).unwrap().topic_name, "b");
    assert_eq!(
        db::get_daily_track_by_id(&store, 2).unwrap().start_time,
        at(2024, 1, 1, 9, 30, 0)
    );

    assert!(Store::from_rows(vec![], vec![]).is_some());
    assert!(Store::from_rows(vec![topic(1, "a"), topic(2, "a")], vec![]).is_none());
    assert!(Store::from_rows(vec![topic(1, "a"), topic(1, "b")], vec![]).is_none());
    assert!(Store::from_rows(
        vec![],
        vec![track(1, at(2024, 1, 1, 9, 0, 0)), track(2, at(2024, 1, 1, 9, 0, 0))]
    )
    .is_none());
    assert!(Store::from_rows(
        vec![],
        vec![track(1, at(2024, 1, 1, 9, 0, 0)), track(1, at(2024, 1, 1, 9, 30, 0))]
    )
    .is_none());
    let short = Topic::with_id(vec![1, 2, 3], now, "short".to_string(), None);
    assert!(Store::from_rows(vec![short], vec![]).is_none());
    let short_parent =
        Topic::with_id(id(1, 0), now, "child".to_string(), Some(vec![0, 1]));
    assert!(Store::from_rows(vec![short_parent], vec![]).is_none());
    let short_topic =
        DailyTrack::with_id(id(1, 0), now, at(2024, 1, 1, 9, 0, 0), Some(vec![1]), None);
    assert!(Store::from_rows(vec![], vec![short_topic]).is_none());
}
