//! The request handlers: validation, storage, and the answer.
//!
//! A request is validated first, so that what is rejected never reaches the
//! tables. A unique violation of the store is answered as a conflict, any
//! other failure of the store as an internal server error.

use crate::convert::{
    db_daily_track_to_daily_track, db_topic_to_topic, external_daily_track, external_topic,
};
use crate::db;
use crate::db::{
    daily_track_created, daily_track_result_view, find_daily_track, find_topic,
    selected_daily_tracks, selected_topics, topic_created, topic_result_view, StorageError,
    StorageErrorKind, Store, StoreView,
};
use crate::db_model;
use crate::db_model::opt_text_view;
use crate::error::{ApiError, ErrorKind};
use crate::ident::{i64_be_bytes, i64_to_binary, lemma_i64_round_trip};
use crate::models::{
    CreateDailyTrackRequest, CreateTopicRequest, DailyTrack, DailyTrackView, GetDailyTracksParams,
    GetTopicsParams, Topic, TopicView,
};
use crate::text::{concat2, concat3, decimal, i64_to_string, is_blank, str_is_blank};
use crate::time::{parse_ymd, parsed_date, Date, DateTime};
use vstd::prelude::*;

verus! {

/// The status of an answer that reports a new row.
pub const CREATED: u16 = 201;

/// A failure as the handlers describe it: its kind and its message.
pub type Failure = (ErrorKind, Seq<char>);

/// A failure of the store as the handlers receive it.
pub type StorageFailure = (StorageErrorKind, Seq<char>);

/// The message for a topic name that is empty once trimmed.
pub open spec fn blank_name_message() -> Seq<char> {
    "topic_name is required and cannot be empty"@
}

/// The message for a topic name that exists.
pub open spec fn topic_conflict_message() -> Seq<char> {
    "Topic name already exists"@
}

/// The message for a start time off the half hour.
pub open spec fn off_slot_message() -> Seq<char> {
    "start_time must be at :00 or :30 minutes"@
}

/// The message for a start time that exists.
pub open spec fn slot_conflict_message() -> Seq<char> {
    "A record already exists for this time period"@
}

/// The message for a topic number that names no topic.
pub open spec fn topic_not_found_message(id: i64) -> Seq<char> {
    "Topic with id "@ + decimal(id as int) + " not found"@
}

/// The message for a daily track number that names no daily track.
pub open spec fn daily_track_not_found_message(id: i64) -> Seq<char> {
    "Daily track with id "@ + decimal(id as int) + " not found"@
}

/// The message for a date that does not parse; it repeats the text.
pub open spec fn invalid_date_message(field: Seq<char>, text: Seq<char>) -> Seq<char> {
    "Invalid "@ + field + " format '"@ + text + "'. Expected YYYY-MM-DD"@
}

/// The internal server error for a failure of the store: `doing`, which says
/// what was being done, then the message of the store.
pub open spec fn storage_failure(doing: Seq<char>, e: StorageFailure) -> Failure {
    (ErrorKind::InternalServerError, doing + e.1)
}

/// A start time is on a slot where its minute is 0 or 30.
pub open spec fn on_slot(start_time: DateTime) -> bool {
    start_time.minute == 0 || start_time.minute == 30
}

/// What clients see of a list of topic rows.
pub open spec fn external_topics(rows: Seq<db_model::TopicView>) -> Seq<TopicView> {
    rows.map_values(|r: db_model::TopicView| external_topic(r))
}

/// What clients see of a list of daily track rows.
pub open spec fn external_daily_tracks(rows: Seq<db_model::DailyTrackView>) -> Seq<
    DailyTrackView,
> {
    rows.map_values(|r: db_model::DailyTrackView| external_daily_track(r))
}

/// What a list of topics holds.
pub open spec fn shown_topics(topics: Seq<Topic>) -> Seq<TopicView> {
    topics.map_values(|t: Topic| t@)
}

/// What a list of daily tracks holds.
pub open spec fn shown_daily_tracks(tracks: Seq<DailyTrack>) -> Seq<DailyTrackView> {
    tracks.map_values(|t: DailyTrack| t@)
}

/// What the answer to a request for one topic holds.
pub open spec fn topic_answer(r: Result<Topic, ApiError>) -> Result<TopicView, Failure> {
    match r {
        Ok(t) => Ok(t@),
        Err(e) => Err(e@),
    }
}

/// What the answer to a request for topics holds.
pub open spec fn topics_answer(r: Result<Vec<Topic>, ApiError>) -> Result<Seq<TopicView>, Failure> {
    match r {
        Ok(v) => Ok(shown_topics(v@)),
        Err(e) => Err(e@),
    }
}

/// What the answer to the creation of a topic holds.
pub open spec fn created_topic_answer(r: Result<(u16, Topic), ApiError>) -> Result<
    (u16, TopicView),
    Failure,
> {
    match r {
        Ok(p) => Ok((p.0, p.1@)),
        Err(e) => Err(e@),
    }
}

/// What the answer to a request for one daily track holds.
pub open spec fn daily_track_answer(r: Result<DailyTrack, ApiError>) -> Result<
    DailyTrackView,
    Failure,
> {
    match r {
        Ok(t) => Ok(t@),
        Err(e) => Err(e@),
    }
}

/// What the answer to a request for daily tracks holds.
pub open spec fn daily_tracks_answer(r: Result<Vec<DailyTrack>, ApiError>) -> Result<
    Seq<DailyTrackView>,
    Failure,
> {
    match r {
        Ok(v) => Ok(shown_daily_tracks(v@)),
        Err(e) => Err(e@),
    }
}

/// What the answer to the creation of a daily track holds.
pub open spec fn created_daily_track_answer(r: Result<(u16, DailyTrack), ApiError>) -> Result<
    (u16, DailyTrackView),
    Failure,
> {
    match r {
        Ok(p) => Ok((p.0, p.1@)),
        Err(e) => Err(e@),
    }
}

/// What a validation answers.
pub open spec fn validation_answer(r: Result<(), ApiError>) -> Result<(), Failure> {
    match r {
        Ok(_) => Ok(()),
        Err(e) => Err(e@),
    }
}

/// What a parsed date bound holds.
pub open spec fn date_answer(r: Result<Option<Date>, ApiError>) -> Result<Option<Date>, Failure> {
    match r {
        Ok(d) => Ok(d),
        Err(e) => Err(e@),
    }
}

/// The answer to a request for topics, given what the store returned.
pub open spec fn topics_response(outcome: Result<Seq<db_model::TopicView>, StorageFailure>) -> Result<
    Seq<TopicView>,
    Failure,
> {
    match outcome {
        Ok(rows) => Ok(external_topics(rows)),
        Err(e) => Err(storage_failure("Failed to retrieve topics: "@, e)),
    }
}

/// The answer to the creation of a topic, given what the store returned.
pub open spec fn created_topic_response(outcome: Result<db_model::TopicView, StorageFailure>) -> Result<
    (u16, TopicView),
    Failure,
> {
    match outcome {
        Ok(row) => Ok((CREATED, external_topic(row))),
        Err(e) => if e.0 == StorageErrorKind::UniqueViolation {
            Err((ErrorKind::Conflict, topic_conflict_message()))
        } else {
            Err(storage_failure("Failed to create topic: "@, e))
        },
    }
}

/// The answer to a request for the topic `id`, given what the store returned.
pub open spec fn topic_response(
    id: i64,
    outcome: Result<Option<db_model::TopicView>, StorageFailure>,
) -> Result<TopicView, Failure> {
    match outcome {
        Ok(Some(row)) => Ok(external_topic(row)),
        Ok(None) => Err((ErrorKind::NotFound, topic_not_found_message(id))),
        Err(e) => Err(storage_failure("Failed to retrieve topic: "@, e)),
    }
}

/// The answer to a request for daily tracks, given what the store returned.
pub open spec fn daily_tracks_response(
    outcome: Result<Seq<db_model::DailyTrackView>, StorageFailure>,
) -> Result<Seq<DailyTrackView>, Failure> {
    match outcome {
        Ok(rows) => Ok(external_daily_tracks(rows)),
        Err(e) => Err(storage_failure("Failed to retrieve daily tracks: "@, e)),
    }
}

/// The answer to the creation of a daily track, given what the store
/// returned.
pub open spec fn created_daily_track_response(
    outcome: Result<db_model::DailyTrackView, StorageFailure>,
) -> Result<(u16, DailyTrackView), Failure> {
    match outcome {
        Ok(row) => Ok((CREATED, external_daily_track(row))),
        Err(e) => if e.0 == StorageErrorKind::UniqueViolation {
            Err((ErrorKind::Conflict, slot_conflict_message()))
        } else {
            Err(storage_failure("Failed to create daily track: "@, e))
        },
    }
}

/// The answer to a request for the daily track `id`, given what the store
/// returned.
pub open spec fn daily_track_response(
    id: i64,
    outcome: Result<Option<db_model::DailyTrackView>, StorageFailure>,
) -> Result<DailyTrackView, Failure> {
    match outcome {
        Ok(Some(row)) => Ok(external_daily_track(row)),
        Ok(None) => Err((ErrorKind::NotFound, daily_track_not_found_message(id))),
        Err(e) => Err(storage_failure("Failed to retrieve daily track: "@, e)),
    }
}

/// Whether the topic of a new daily track may be used, given what the store
/// returned for it.
pub open spec fn topic_check(
    id: i64,
    outcome: Result<Option<db_model::TopicView>, StorageFailure>,
) -> Result<(), Failure> {
    match outcome {
        Ok(Some(_)) => Ok(()),
        Ok(None) => Err((ErrorKind::NotFound, topic_not_found_message(id))),
        Err(e) => Err(storage_failure("Failed to verify topic: "@, e)),
    }
}

/// The day that the text names, if the outside parser accepts it.
pub open spec fn date_of_text(text: Seq<char>) -> Option<Date> {
    match parsed_date(text) {
        Some((y, m, d)) => Some(Date { year: y as i32, month: m as u32, day: d as u32 }),
        None => None,
    }
}

/// The bound that a date parameter gives: none where the parameter is
/// absent, the day where its text parses, a bad request where it does not.
pub open spec fn date_bound(field: Seq<char>, text: Option<Seq<char>>, parsed: Option<Date>) -> Result<
    Option<Date>,
    Failure,
> {
    match text {
        None => Ok(None),
        Some(t) => match parsed {
            Some(d) => Ok(Some(d)),
            None => Err((ErrorKind::BadRequest, invalid_date_message(field, t))),
        },
    }
}

/// The internal server error for a failure of the store.
fn internal_error(doing: &str, e: &StorageError) -> (error: ApiError)
    ensures
        error@ == storage_failure(doing@, e@),
{
    let message = e.to_string();
    ApiError::InternalServerError(concat2(doing, message.as_str()))
}

/// The message that a number names nothing of the kind `what`.
fn not_found(what: &str, id: i64) -> (error: ApiError)
    ensures
        error@ == (ErrorKind::NotFound, what@ + decimal(id as int) + " not found"@),
{
    let number = i64_to_string(id);
    ApiError::NotFound(concat3(what, number.as_str(), " not found"))
}

/// What clients see of the rows.
fn topics_to_external(rows: Vec<db_model::Topic>) -> (shown: Vec<Topic>)
    requires
        forall|i: int| 0 <= i < rows@.len() ==> (#[trigger] rows@[i])@.wf(),
    ensures
        shown_topics(shown@) == external_topics(db::topics_view(rows@)),
{
    let mut shown: Vec<Topic> = Vec::new();
    let mut i: usize = 0;
    while i < rows.len()
        invariant
            i <= rows@.len(),
            shown@.len() == i,
            forall|k: int| 0 <= k < rows@.len() ==> (#[trigger] rows@[k])@.wf(),
            forall|k: int| 0 <= k < i ==> (#[trigger] shown@[k])@ == external_topic(rows@[k]@),
        decreases rows@.len() - i,
    {
        assert(rows@[i as int]@.wf());
        shown.push(db_topic_to_topic(rows[i].clone()));
        i = i + 1;
    }
    proof {
        assert(shown_topics(shown@) =~= external_topics(db::topics_view(rows@)));
    }
    shown
}

/// What clients see of the rows.
fn daily_tracks_to_external(rows: Vec<db_model::DailyTrack>) -> (shown: Vec<DailyTrack>)
    requires
        forall|i: int| 0 <= i < rows@.len() ==> (#[trigger] rows@[i])@.wf(),
    ensures
        shown_daily_tracks(shown@) == external_daily_tracks(db::daily_tracks_view(rows@)),
{
    let mut shown: Vec<DailyTrack> = Vec::new();
    let mut i: usize = 0;
    while i < rows.len()
        invariant
            i <= rows@.len(),
            shown@.len() == i,
            forall|k: int| 0 <= k < rows@.len() ==> (#[trigger] rows@[k])@.wf(),
            forall|k: int|
                0 <= k < i ==> (#[trigger] shown@[k])@ == external_daily_track(rows@[k]@),
        decreases rows@.len() - i,
    {
        assert(rows@[i as int]@.wf());
        shown.push(db_daily_track_to_daily_track(rows[i].clone()));
        i = i + 1;
    }
    proof {
        assert(shown_daily_tracks(shown@) =~= external_daily_tracks(db::daily_tracks_view(rows@)));
    }
    shown
}

/// What the store returned for a request for topic rows.
pub open spec fn topic_rows_outcome(outcome: Result<Vec<db_model::Topic>, StorageError>) -> Result<
    Seq<db_model::TopicView>,
    StorageFailure,
> {
    match outcome {
        Ok(rows) => Ok(db::topics_view(rows@)),
        Err(e) => Err(e@),
    }
}

/// What the store returned for a request for one topic row.
pub open spec fn topic_row_outcome(outcome: Result<Option<db_model::Topic>, StorageError>) -> Result<
    Option<db_model::TopicView>,
    StorageFailure,
> {
    match outcome {
        Ok(row) => Ok(db::opt_topic_view(row)),
        Err(e) => Err(e@),
    }
}

/// What the store returned for a request for daily track rows.
pub open spec fn daily_track_rows_outcome(
    outcome: Result<Vec<db_model::DailyTrack>, StorageError>,
) -> Result<Seq<db_model::DailyTrackView>, StorageFailure> {
    match outcome {
        Ok(rows) => Ok(db::daily_tracks_view(rows@)),
        Err(e) => Err(e@),
    }
}

/// What the store returned for a request for one daily track row.
pub open spec fn daily_track_row_outcome(
    outcome: Result<Option<db_model::DailyTrack>, StorageError>,
) -> Result<Option<db_model::DailyTrackView>, StorageFailure> {
    match outcome {
        Ok(row) => Ok(db::opt_daily_track_view(row)),
        Err(e) => Err(e@),
    }
}

/// Answers a request for topics with what the store returned.
pub fn get_topics_response(outcome: Result<Vec<db_model::Topic>, StorageError>) -> (answer: Result<
    Vec<Topic>,
    ApiError,
>)
    requires
        outcome matches Ok(rows) ==> forall|i: int|
            0 <= i < rows@.len() ==> (#[trigger] rows@[i])@.wf(),
    ensures
        topics_answer(answer) == topics_response(topic_rows_outcome(outcome)),
{
    match outcome {
        Ok(rows) => Ok(topics_to_external(rows)),
        Err(e) => Err(internal_error("Failed to retrieve topics: ", &e)),
    }
}

/// Answers the creation of a topic with what the store returned: the new
/// topic with the status 201, a conflict for a unique violation, an internal
/// server error for any other failure.
pub fn create_topic_response(outcome: Result<db_model::Topic, StorageError>) -> (answer: Result<
    (u16, Topic),
    ApiError,
>)
    requires
        outcome matches Ok(row) ==> row@.wf(),
    ensures
        created_topic_answer(answer) == created_topic_response(topic_result_view(outcome)),
{
    match outcome {
        Ok(row) => Ok((CREATED, db_topic_to_topic(row))),
        Err(e) => {
            if e.is_unique_violation() {
                Err(ApiError::Conflict(String::from_str("Topic name already exists")))
            } else {
                Err(internal_error("Failed to create topic: ", &e))
            }
        },
    }
}

/// Answers a request for the topic `id` with what the store returned: the
/// topic, not found where there is none, an internal server error for a
/// failure.
pub fn get_topic_by_id_response(
    id: i64,
    outcome: Result<Option<db_model::Topic>, StorageError>,
) -> (answer: Result<Topic, ApiError>)
    requires
        outcome matches Ok(Some(row)) ==> row@.wf(),
    ensures
        topic_answer(answer) == topic_response(id, topic_row_outcome(outcome)),
{
    match outcome {
        Ok(Some(row)) => Ok(db_topic_to_topic(row)),
        Ok(None) => Err(not_found("Topic with id ", id)),
        Err(e) => Err(internal_error("Failed to retrieve topic: ", &e)),
    }
}

/// Answers a request for daily tracks with what the store returned.
pub fn get_daily_tracks_response(
    outcome: Result<Vec<db_model::DailyTrack>, StorageError>,
) -> (answer: Result<Vec<DailyTrack>, ApiError>)
    requires
        outcome matches Ok(rows) ==> forall|i: int|
            0 <= i < rows@.len() ==> (#[trigger] rows@[i])@.wf(),
    ensures
        daily_tracks_answer(answer) == daily_tracks_response(daily_track_rows_outcome(outcome)),
{
    match outcome {
        Ok(rows) => Ok(daily_tracks_to_external(rows)),
        Err(e) => Err(internal_error("Failed to retrieve daily tracks: ", &e)),
    }
}

/// Answers the creation of a daily track with what the store returned: the
/// new daily track with the status 201, a conflict for a unique violation, an
/// internal server error for any other failure.
pub fn create_daily_track_response(
    outcome: Result<db_model::DailyTrack, StorageError>,
) -> (answer: Result<(u16, DailyTrack), ApiError>)
    requires
        outcome matches Ok(row) ==> row@.wf(),
    ensures
        created_daily_track_answer(answer) == created_daily_track_response(
            daily_track_result_view(outcome),
        ),
{
    match outcome {
        Ok(row) => Ok((CREATED, db_daily_track_to_daily_track(row))),
        Err(e) => {
            if e.is_unique_violation() {
                Err(
                    ApiError::Conflict(
                        String::from_str("A record already exists for this time period"),
                    ),
                )
            } else {
                Err(internal_error("Failed to create daily track: ", &e))
            }
        },
    }
}

/// Answers a request for the daily track `id` with what the store returned:
/// the daily track, not found where there is none, an internal server error
/// for a failure.
pub fn get_daily_track_by_id_response(
    id: i64,
    outcome: Result<Option<db_model::DailyTrack>, StorageError>,
) -> (answer: Result<DailyTrack, ApiError>)
    requires
        outcome matches Ok(Some(row)) ==> row@.wf(),
    ensures
        daily_track_answer(answer) == daily_track_response(id, daily_track_row_outcome(outcome)),
{
    match outcome {
        Ok(Some(row)) => Ok(db_daily_track_to_daily_track(row)),
        Ok(None) => Err(not_found("Daily track with id ", id)),
        Err(e) => Err(internal_error("Failed to retrieve daily track: ", &e)),
    }
}

/// Decides whether the topic `id` of a new daily track may be used, given
/// what the store returned for it: not found where there is none, an internal
/// server error for a failure.
pub fn verify_topic(id: i64, outcome: Result<Option<db_model::Topic>, StorageError>) -> (answer:
    Result<(), ApiError>)
    ensures
        validation_answer(answer) == topic_check(id, topic_row_outcome(outcome)),
{
    match outcome {
        Ok(Some(_)) => Ok(()),
        Ok(None) => Err(not_found("Topic with id ", id)),
        Err(e) => Err(internal_error("Failed to verify topic: ", &e)),
    }
}

/// Accepts a topic name unless it is empty once trimmed.
pub fn validate_topic_name(topic_name: &str) -> (answer: Result<(), ApiError>)
    ensures
        validation_answer(answer) == if is_blank(topic_name@) {
            Err::<(), Failure>((ErrorKind::BadRequest, blank_name_message()))
        } else {
            Ok(())
        },
{
    if str_is_blank(topic_name) {
        Err(ApiError::BadRequest(String::from_str("topic_name is required and cannot be empty")))
    } else {
        Ok(())
    }
}

/// Accepts a start time on the hour or thirty minutes past it.
pub fn validate_start_time(start_time: &DateTime) -> (answer: Result<(), ApiError>)
    ensures
        validation_answer(answer) == if on_slot(*start_time) {
            Ok::<(), Failure>(())
        } else {
            Err((ErrorKind::BadRequest, off_slot_message()))
        },
{
    if start_time.minute == 0 || start_time.minute == 30 {
        Ok(())
    } else {
        Err(ApiError::BadRequest(String::from_str("start_time must be at :00 or :30 minutes")))
    }
}

/// The bound that a date parameter gives, once the outside parser has read
/// its text: none where the parameter is absent, the day where the parser
/// accepted the text, a bad request that repeats the text where it did not.
pub fn check_date_bound(field: &str, text: &Option<String>, parsed: Option<Date>) -> (answer: Result<
    Option<Date>,
    ApiError,
>)
    ensures
        date_answer(answer) == date_bound(field@, opt_text_view(*text), parsed),
{
    match text {
        None => Ok(None),
        Some(t) => match parsed {
            Some(d) => Ok(Some(d)),
            None => {
                let mut message = String::from_str("Invalid ");
                message.append(field);
                message.append(" format '");
                message.append(t.as_str());
                message.append("'. Expected YYYY-MM-DD");
                proof {
                    assert(message@ =~= invalid_date_message(field@, t@));
                }
                Err(ApiError::BadRequest(message))
            },
        },
    }
}

/// What the outside parser makes of an optional text.
pub open spec fn opt_date_of_text(text: Option<Seq<char>>) -> Option<Date> {
    match text {
        Some(t) => date_of_text(t),
        None => None,
    }
}

/// The bound that a date parameter gives: its text is handed to the outside
/// parser, and `check_date_bound` decides on what comes back.
pub fn parse_date_bound(field: &str, text: &Option<String>) -> (answer: Result<
    Option<Date>,
    ApiError,
>)
    ensures
        date_answer(answer) == date_bound(
            field@,
            opt_text_view(*text),
            opt_date_of_text(opt_text_view(*text)),
        ),
{
    let parsed = match text {
        Some(t) => parse_ymd(t.as_str()),
        None => None,
    };
    check_date_bound(field, text, parsed)
}

/// The answer to the creation of the topic `name`, drawn under the
/// identifier `id` at the time `now`: a bad request where the name is blank,
/// else what the store's outcome is answered with.
pub open spec fn topic_request_handled(
    s: StoreView,
    name: Seq<char>,
    parent: Option<i64>,
    id: Seq<u8>,
    now: DateTime,
) -> Result<(u16, TopicView), Failure> {
    if is_blank(name) {
        Err((ErrorKind::BadRequest, blank_name_message()))
    } else {
        created_topic_response(db::topic_creation(s, name, parent, id, now))
    }
}

/// The tables after the request: a request that validation rejects leaves
/// them as they are.
pub open spec fn after_topic_request(
    s: StoreView,
    name: Seq<char>,
    parent: Option<i64>,
    id: Seq<u8>,
    now: DateTime,
) -> StoreView {
    if is_blank(name) {
        s
    } else {
        db::after_topic_creation(s, name, parent, id, now)
    }
}

/// The answer to the creation of a daily track, drawn under the identifier
/// `id` at the time `now`: a bad request where the start time is off the half
/// hour, else not found where no topic has the number `topic_id`, else what
/// the store's outcome is answered with.
pub open spec fn daily_track_request_handled(
    s: StoreView,
    start_time: DateTime,
    topic_id: i64,
    comment: Option<Seq<char>>,
    id: Seq<u8>,
    now: DateTime,
) -> Result<(u16, DailyTrackView), Failure> {
    if !on_slot(start_time) {
        Err((ErrorKind::BadRequest, off_slot_message()))
    } else if find_topic(s.topics, topic_id) is None {
        Err((ErrorKind::NotFound, topic_not_found_message(topic_id)))
    } else {
        created_daily_track_response(
            db::daily_track_creation(
                s,
                start_time,
                Some(i64_be_bytes(topic_id)),
                comment,
                id,
                now,
            ),
        )
    }
}

/// The tables after the request: a request that is rejected before it
/// reaches the store leaves them as they are.
pub open spec fn after_daily_track_request(
    s: StoreView,
    start_time: DateTime,
    topic_id: i64,
    comment: Option<Seq<char>>,
    id: Seq<u8>,
    now: DateTime,
) -> StoreView {
    if !on_slot(start_time) || find_topic(s.topics, topic_id) is None {
        s
    } else {
        db::after_daily_track_creation(
            s,
            start_time,
            Some(i64_be_bytes(topic_id)),
            comment,
            id,
            now,
        )
    }
}

/// The request to create a topic was handled under the identifier `id` at
/// the time `now`: it took the tables from `s` to `after` and was answered
/// with `answer`.
pub open spec fn topic_request_done(
    s: StoreView,
    name: Seq<char>,
    parent: Option<i64>,
    id: Seq<u8>,
    now: DateTime,
    answer: Result<(u16, TopicView), Failure>,
    after: StoreView,
) -> bool {
    &&& id.len() == crate::ident::ID_LEN
    &&& now.wf()
    &&& answer == topic_request_handled(s, name, parent, id, now)
    &&& after == after_topic_request(s, name, parent, id, now)
}

/// The request to create a daily track was handled under the identifier
/// `id` at the time `now`: it took the tables from `s` to `after` and was
/// answered with `answer`.
pub open spec fn daily_track_request_done(
    s: StoreView,
    start_time: DateTime,
    topic_id: i64,
    comment: Option<Seq<char>>,
    id: Seq<u8>,
    now: DateTime,
    answer: Result<(u16, DailyTrackView), Failure>,
    after: StoreView,
) -> bool {
    &&& id.len() == crate::ident::ID_LEN
    &&& now.wf()
    &&& answer == daily_track_request_handled(s, start_time, topic_id, comment, id, now)
    &&& after == after_daily_track_request(s, start_time, topic_id, comment, id, now)
}

/// The answer to a request for daily tracks: a bad request where the start
/// date does not parse, else where the end date does not, else the daily
/// tracks that pass the filters.
pub open spec fn daily_tracks_listing(
    s: StoreView,
    start_text: Option<Seq<char>>,
    end_text: Option<Seq<char>>,
    topic_id: Option<i64>,
) -> Result<Seq<DailyTrackView>, Failure> {
    match date_bound("start_date"@, start_text, opt_date_of_text(start_text)) {
        Err(e) => Err(e),
        Ok(start) => match date_bound("end_date"@, end_text, opt_date_of_text(end_text)) {
            Err(e) => Err(e),
            Ok(end) => Ok(
                external_daily_tracks(selected_daily_tracks(s.daily_tracks, start, end, topic_id)),
            ),
        },
    }
}

/// Lists all topics, or the children of one topic.
pub fn get_topics(store: &Store, params: GetTopicsParams) -> (answer: Result<Vec<Topic>, ApiError>)
    requires
        store@.wf(),
    ensures
        topics_answer(answer) == Ok::<Seq<TopicView>, Failure>(
            external_topics(selected_topics(store@.topics, params.parent_topic_id)),
        ),
{
    let rows = db::get_topics(store, params.parent_topic_id);
    get_topics_response(Ok(rows))
}

/// What holds of a topic that a request has created: it has the status 201,
/// the name and the parent of the request, and the creation time as the time
/// of its last update, and a request for the topic with its number returns
/// it.
pub open spec fn topic_was_created(
    created: (u16, Topic),
    req: CreateTopicRequest,
    after: StoreView,
) -> bool {
    &&& created.0 == CREATED
    &&& created.1.topic_name@ == req.topic_name@
    &&& created.1.parent_topic_id == req.parent_topic_id
    &&& created.1.updated_at == created.1.created_at
    &&& topic_response(
        created.1.id,
        Ok::<Option<db_model::TopicView>, StorageFailure>(find_topic(after.topics, created.1.id)),
    ) == Ok::<TopicView, Failure>(created.1@)
}

/// What holds of a daily track that a request has created: it has the status
/// 201, the start time, the topic and the comment of the request, and the
/// creation time as the time of its last update, and a request for the daily
/// track with its number returns it.
pub open spec fn daily_track_was_created(
    created: (u16, DailyTrack),
    req: CreateDailyTrackRequest,
    after: StoreView,
) -> bool {
    &&& created.0 == CREATED
    &&& created.1.start_time == req.start_time
    &&& created.1.topic_id == Some(req.topic_id)
    &&& opt_text_view(created.1.comment) == opt_text_view(req.comment)
    &&& created.1.updated_at == created.1.created_at
    &&& daily_track_response(
        created.1.id,
        Ok::<Option<db_model::DailyTrackView>, StorageFailure>(
            find_daily_track(after.daily_tracks, created.1.id),
        ),
    ) == Ok::<DailyTrackView, Failure>(created.1@)
}

/// Creates a topic under the identifier `id` at the time `now`.
///
/// A name that is empty once trimmed is a bad request and leaves the tables
/// as they are. A name that exists is a conflict. Otherwise the topic is
/// stored and returned with the status 201.
pub fn create_topic_with(store: &mut Store, req: CreateTopicRequest, id: Vec<u8>, now: DateTime) -> (answer:
    Result<(u16, Topic), ApiError>)
    requires
        old(store)@.wf(),
        id@.len() == crate::ident::ID_LEN,
    ensures
        created_topic_answer(answer) == topic_request_handled(
            old(store)@,
            req.topic_name@,
            req.parent_topic_id,
            id@,
            now,
        ),
        final(store)@ == after_topic_request(
            old(store)@,
            req.topic_name@,
            req.parent_topic_id,
            id@,
            now,
        ),
        answer matches Ok(created) ==> topic_was_created(created, req, final(store)@),
        final(store)@.wf(),
{
    proof {
        law_created_topic_is_retrievable(
            old(store)@,
            req.topic_name@,
            req.parent_topic_id,
            id@,
            now,
        );
    }
    match validate_topic_name(req.topic_name.as_str()) {
        Err(e) => Err(e),
        Ok(_) => {
            let outcome = db::create_topic_with(
                store,
                req.topic_name,
                req.parent_topic_id,
                id,
                now,
            );
            create_topic_response(outcome)
        },
    }
}

/// Creates a topic under a newly drawn identifier, at the current time.
///
/// A name that is empty once trimmed is a bad request and leaves the tables
/// as they are. Otherwise, for some identifier and some time, the call did
/// what `create_topic_with` does with them.
pub fn create_topic(store: &mut Store, req: CreateTopicRequest) -> (answer: Result<
    (u16, Topic),
    ApiError,
>)
    requires
        old(store)@.wf(),
    ensures
        exists|id: Seq<u8>, now: DateTime| #[trigger]
            topic_request_done(
                old(store)@,
                req.topic_name@,
                req.parent_topic_id,
                id,
                now,
                created_topic_answer(answer),
                final(store)@,
            ),
        is_blank(req.topic_name@) ==> final(store)@ == old(store)@ && created_topic_answer(answer)
            == Err::<(u16, TopicView), Failure>((ErrorKind::BadRequest, blank_name_message())),
        !is_blank(req.topic_name@) && db::name_taken(old(store)@.topics, req.topic_name@)
            ==> final(store)@ == old(store)@ && created_topic_answer(answer) == Err::<
            (u16, TopicView),
            Failure,
        >((ErrorKind::Conflict, topic_conflict_message())),
        answer matches Ok(created) ==> topic_was_created(created, req, final(store)@),
        final(store)@.wf(),
{
    let ghost name = req.topic_name@;
    let ghost parent = req.parent_topic_id;
    match validate_topic_name(req.topic_name.as_str()) {
        Err(e) => {
            proof {
                let id = Seq::new(16, |i: int| 0u8);
                let now = epoch();
                assert(topic_request_done(
                    store@,
                    name,
                    parent,
                    id,
                    now,
                    Err((ErrorKind::BadRequest, blank_name_message())),
                    store@,
                ));
            }
            Err(e)
        },
        Ok(_) => {
            let outcome = db::create_topic(store, req.topic_name, req.parent_topic_id);
            let answer = create_topic_response(outcome);
            proof {
                let (id, now) = choose|id: Seq<u8>, now: DateTime| #[trigger]
                    topic_created(
                        old(store)@,
                        name,
                        parent,
                        id,
                        now,
                        topic_result_view(outcome),
                        store@,
                    );
                assert(topic_request_done(
                    old(store)@,
                    name,
                    parent,
                    id,
                    now,
                    created_topic_answer(answer),
                    store@,
                ));
                law_created_topic_is_retrievable(old(store)@, name, parent, id, now);
            }
            answer
        },
    }
}

/// Midnight on the first day of 1970.
pub open spec fn epoch() -> DateTime {
    DateTime {
        date: Date { year: 1970, month: 1, day: 1 },
        hour: 0,
        minute: 0,
        second: 0,
        nanosecond: 0,
    }
}

/// Returns the topic with the number `id`, or not found.
pub fn get_topic_by_id(store: &Store, id: i64) -> (answer: Result<Topic, ApiError>)
    requires
        store@.wf(),
    ensures
        topic_answer(answer) == topic_response(
            id,
            Ok::<Option<db_model::TopicView>, StorageFailure>(find_topic(store@.topics, id)),
        ),
{
    let row = db::get_topic_by_id(store, id);
    get_topic_by_id_response(id, Ok(row))
}

/// Lists the daily tracks between two days, of one topic; each of the three
/// filters is optional.
pub fn list_daily_tracks(
    store: &Store,
    start_date: Option<Date>,
    end_date: Option<Date>,
    topic_id: Option<i64>,
) -> (answer: Result<Vec<DailyTrack>, ApiError>)
    requires
        store@.wf(),
    ensures
        daily_tracks_answer(answer) == Ok::<Seq<DailyTrackView>, Failure>(
            external_daily_tracks(
                selected_daily_tracks(store@.daily_tracks, start_date, end_date, topic_id),
            ),
        ),
{
    let rows = db::get_daily_tracks(store, start_date, end_date, topic_id);
    get_daily_tracks_response(Ok(rows))
}

/// Lists the daily tracks that the query selects.
///
/// A start date that does not parse is a bad request, and so is, after it, an
/// end date that does not parse; the message repeats the text. Otherwise the
/// daily tracks that pass the filters are listed in table order.
pub fn get_daily_tracks(store: &Store, params: GetDailyTracksParams) -> (answer: Result<
    Vec<DailyTrack>,
    ApiError,
>)
    requires
        store@.wf(),
    ensures
        daily_tracks_answer(answer) == daily_tracks_listing(
            store@,
            opt_text_view(params.start_date),
            opt_text_view(params.end_date),
            params.topic_id,
        ),
{
    let start_date = match parse_date_bound("start_date", &params.start_date) {
        Ok(d) => d,
        Err(e) => {
            return Err(e);
        },
    };
    let end_date = match parse_date_bound("end_date", &params.end_date) {
        Ok(d) => d,
        Err(e) => {
            return Err(e);
        },
    };
    list_daily_tracks(store, start_date, end_date, params.topic_id)
}

/// Creates a daily track under the identifier `id` at the time `now`.
///
/// A start time off the half hour is a bad request, a topic number that
/// names no topic is not found, and both leave the tables as they are. A
/// start time that exists is a conflict. Otherwise the daily track is stored
/// and returned with the status 201.
pub fn create_daily_track_with(
    store: &mut Store,
    req: CreateDailyTrackRequest,
    id: Vec<u8>,
    now: DateTime,
) -> (answer: Result<(u16, DailyTrack), ApiError>)
    requires
        old(store)@.wf(),
        req.start_time.utc.wf(),
        id@.len() == crate::ident::ID_LEN,
    ensures
        created_daily_track_answer(answer) == daily_track_request_handled(
            old(store)@,
            req.start_time.utc,
            req.topic_id,
            opt_text_view(req.comment),
            id@,
            now,
        ),
        final(store)@ == after_daily_track_request(
            old(store)@,
            req.start_time.utc,
            req.topic_id,
            opt_text_view(req.comment),
            id@,
            now,
        ),
        answer matches Ok(created) ==> daily_track_was_created(created, req, final(store)@),
        final(store)@.wf(),
{
    proof {
        law_created_daily_track_is_retrievable(
            old(store)@,
            req.start_time.utc,
            req.topic_id,
            opt_text_view(req.comment),
            id@,
            now,
        );
    }
    let start_time_naive = req.start_time.naive_utc();
    if let Err(e) = validate_start_time(&start_time_naive) {
        return Err(e);
    }
    let topic = db::get_topic_by_id(store, req.topic_id);
    if let Err(e) = verify_topic(req.topic_id, Ok(topic)) {
        return Err(e);
    }
    let topic_id_binary = Some(i64_to_binary(req.topic_id));
    let outcome = db::create_daily_track_with(
        store,
        start_time_naive,
        topic_id_binary,
        req.comment,
        id,
        now,
    );
    create_daily_track_response(outcome)
}

/// Creates a daily track under a newly drawn identifier, at the current
/// time.
///
/// A start time off the half hour is a bad request, a topic number that
/// names no topic is not found, and both leave the tables as they are.
/// Otherwise, for some identifier and some time, the call did what
/// `create_daily_track_with` does with them.
pub fn create_daily_track(store: &mut Store, req: CreateDailyTrackRequest) -> (answer: Result<
    (u16, DailyTrack),
    ApiError,
>)
    requires
        old(store)@.wf(),
        req.start_time.utc.wf(),
    ensures
        exists|id: Seq<u8>, now: DateTime| #[trigger]
            daily_track_request_done(
                old(store)@,
                req.start_time.utc,
                req.topic_id,
                opt_text_view(req.comment),
                id,
                now,
                created_daily_track_answer(answer),
                final(store)@,
            ),
        !on_slot(req.start_time.utc) ==> final(store)@ == old(store)@
            && created_daily_track_answer(answer) == Err::<(u16, DailyTrackView), Failure>(
            (ErrorKind::BadRequest, off_slot_message()),
        ),
        on_slot(req.start_time.utc) && find_topic(old(store)@.topics, req.topic_id) is None
            ==> final(store)@ == old(store)@ && created_daily_track_answer(answer) == Err::<
            (u16, DailyTrackView),
            Failure,
        >((ErrorKind::NotFound, topic_not_found_message(req.topic_id))),
        on_slot(req.start_time.utc) && find_topic(old(store)@.topics, req.topic_id) is Some
            && db::slot_taken(old(store)@.daily_tracks, req.start_time.utc) ==> final(store)@
            == old(store)@ && created_daily_track_answer(answer) == Err::<
            (u16, DailyTrackView),
            Failure,
        >((ErrorKind::Conflict, slot_conflict_message())),
        answer matches Ok(created) ==> daily_track_was_created(created, req, final(store)@),
        final(store)@.wf(),
{
    let ghost start = req.start_time.utc;
    let ghost topic_number = req.topic_id;
    let ghost note = opt_text_view(req.comment);
    let start_time_naive = req.start_time.naive_utc();
    if let Err(e) = validate_start_time(&start_time_naive) {
        proof {
            assert(daily_track_request_done(
                store@,
                start,
                topic_number,
                note,
                Seq::new(16, |i: int| 0u8),
                epoch(),
                Err((ErrorKind::BadRequest, off_slot_message())),
                store@,
            ));
        }
        return Err(e);
    }
    let topic = db::get_topic_by_id(store, req.topic_id);
    if let Err(e) = verify_topic(req.topic_id, Ok(topic)) {
        proof {
            assert(daily_track_request_done(
                store@,
                start,
                topic_number,
                note,
                Seq::new(16, |i: int| 0u8),
                epoch(),
                Err((ErrorKind::NotFound, topic_not_found_message(topic_number))),
                store@,
            ));
        }
        return Err(e);
    }
    let topic_id_binary = Some(i64_to_binary(req.topic_id));
    let outcome = db::create_daily_track(store, start_time_naive, topic_id_binary, req.comment);
    let answer = create_daily_track_response(outcome);
    proof {
        let (id, now) = choose|id: Seq<u8>, now: DateTime| #[trigger]
            daily_track_created(
                old(store)@,
                start,
                Some(i64_be_bytes(topic_number)),
                note,
                id,
                now,
                daily_track_result_view(outcome),
                store@,
            );
        assert(daily_track_request_done(
            old(store)@,
            start,
            topic_number,
            note,
            id,
            now,
            created_daily_track_answer(answer),
            store@,
        ));
        law_created_daily_track_is_retrievable(old(store)@, start, topic_number, note, id, now);
    }
    answer
}

/// Returns the daily track with the number `id`, or not found.
pub fn get_daily_track_by_id(store: &Store, id: i64) -> (answer: Result<DailyTrack, ApiError>)
    requires
        store@.wf(),
    ensures
        daily_track_answer(answer) == daily_track_response(
            id,
            Ok::<Option<db_model::DailyTrackView>, StorageFailure>(
                find_daily_track(store@.daily_tracks, id),
            ),
        ),
{
    let row = db::get_daily_track_by_id(store, id);
    get_daily_track_by_id_response(id, Ok(row))
}

/// Every daily track of the tables starts on the hour or thirty minutes
/// past it.
pub open spec fn all_on_slot(s: StoreView) -> bool {
    forall|i: int| 0 <= i < s.daily_tracks.len() ==> on_slot((#[trigger] s.daily_tracks[i]).start_time)
}

/// A request to create a topic succeeds exactly where the name is not blank,
/// no topic has the name, and no topic has the number of the new
/// identifier. The topic it returns is then found under its number, with the
/// name and the parent that were given, and with the creation time as the
/// time of its last update.
pub proof fn law_created_topic_is_retrievable(
    s: StoreView,
    name: Seq<char>,
    parent: Option<i64>,
    id: Seq<u8>,
    now: DateTime,
)
    requires
        s.wf(),
        id.len() == crate::ident::ID_LEN,
    ensures
        topic_request_handled(s, name, parent, id, now) is Ok <==> !is_blank(name)
            && !db::name_taken(s.topics, name) && !db::topic_number_taken(
            s.topics,
            crate::ident::external_id(id) as i64,
        ),
        after_topic_request(s, name, parent, id, now).wf(),
        topic_request_handled(s, name, parent, id, now) matches Ok(created) ==> {
            let after = after_topic_request(s, name, parent, id, now);
            let topic = created.1;
            &&& created.0 == CREATED
            &&& topic_response(
                topic.id,
                Ok::<Option<db_model::TopicView>, StorageFailure>(find_topic(after.topics, topic.id)),
            ) == Ok::<TopicView, Failure>(topic)
            &&& topic.topic_name == name
            &&& topic.parent_topic_id == parent
            &&& topic.updated_at == topic.created_at
        },
{
    db::lemma_topic_creation_keeps_wf(s, name, parent, id, now);
    if topic_request_handled(s, name, parent, id, now) is Ok {
        db::law_created_topic_is_found(s, name, parent, id, now);
        if let Some(p) = parent {
            lemma_i64_round_trip(p);
        }
    }
}

/// A request to create a daily track succeeds exactly where the start time
/// is on the half hour, the topic exists, no daily track has the start time,
/// and no daily track has the number of the new identifier. The daily track
/// it returns is then found under its number, with the start time, the topic
/// and the comment that were given, and with the creation time as the time of
/// its last update.
pub proof fn law_created_daily_track_is_retrievable(
    s: StoreView,
    start_time: DateTime,
    topic_id: i64,
    comment: Option<Seq<char>>,
    id: Seq<u8>,
    now: DateTime,
)
    requires
        s.wf(),
        id.len() == crate::ident::ID_LEN,
    ensures
        daily_track_request_handled(s, start_time, topic_id, comment, id, now) is Ok <==> on_slot(
            start_time,
        ) && find_topic(s.topics, topic_id) is Some && !db::slot_taken(s.daily_tracks, start_time)
            && !db::track_number_taken(s.daily_tracks, crate::ident::external_id(id) as i64),
        daily_track_request_handled(s, start_time, topic_id, comment, id, now) matches Ok(
            created,
        ) ==> {
            let after = after_daily_track_request(s, start_time, topic_id, comment, id, now);
            let track = created.1;
            &&& created.0 == CREATED
            &&& daily_track_response(
                track.id,
                Ok::<Option<db_model::DailyTrackView>, StorageFailure>(
                    find_daily_track(after.daily_tracks, track.id),
                ),
            ) == Ok::<DailyTrackView, Failure>(track)
            &&& track.start_time.utc == start_time
            &&& track.topic_id == Some(topic_id)
            &&& track.comment == comment
            &&& track.updated_at == track.created_at
        },
{
    if daily_track_request_handled(s, start_time, topic_id, comment, id, now) is Ok {
        db::law_created_daily_track_is_found(
            s,
            start_time,
            Some(i64_be_bytes(topic_id)),
            comment,
            id,
            now,
        );
        lemma_i64_round_trip(topic_id);
    }
}

/// Where a request has created a topic, a second request for a topic of the
/// same name is answered with a conflict and changes nothing.
pub proof fn law_second_topic_of_a_name_conflicts(
    s: StoreView,
    name: Seq<char>,
    parent: Option<i64>,
    id: Seq<u8>,
    now: DateTime,
    parent2: Option<i64>,
    id2: Seq<u8>,
    now2: DateTime,
)
    requires
        topic_request_handled(s, name, parent, id, now) is Ok,
    ensures
        ({
            let after = after_topic_request(s, name, parent, id, now);
            &&& topic_request_handled(after, name, parent2, id2, now2) == Err::<
                (u16, TopicView),
                Failure,
            >((ErrorKind::Conflict, topic_conflict_message()))
            &&& after_topic_request(after, name, parent2, id2, now2) == after
        }),
{
    db::law_second_topic_of_a_name_is_refused(s, name, parent, id, now, parent2, id2, now2);
}

/// A request to create a daily track whose start time is off the half hour
/// is a bad request, and one whose topic does not exist is not found; neither
/// adds a row.
pub proof fn law_rejected_track_is_not_stored(
    s: StoreView,
    start_time: DateTime,
    topic_id: i64,
    comment: Option<Seq<char>>,
    id: Seq<u8>,
    now: DateTime,
)
    ensures
        !on_slot(start_time) ==> daily_track_request_handled(
            s,
            start_time,
            topic_id,
            comment,
            id,
            now,
        ) == Err::<(u16, DailyTrackView), Failure>((ErrorKind::BadRequest, off_slot_message()))
            && after_daily_track_request(s, start_time, topic_id, comment, id, now) == s,
        on_slot(start_time) && find_topic(s.topics, topic_id) is None
            ==> daily_track_request_handled(s, start_time, topic_id, comment, id, now) == Err::<
            (u16, DailyTrackView),
            Failure,
        >((ErrorKind::NotFound, topic_not_found_message(topic_id))) && after_daily_track_request(
            s,
            start_time,
            topic_id,
            comment,
            id,
            now,
        ) == s,
        daily_track_request_handled(s, start_time, topic_id, comment, id, now) is Err
            ==> after_daily_track_request(s, start_time, topic_id, comment, id, now) == s,
{
}

/// Where a request has created a daily track, a second request with the same
/// start time, for a topic that exists, is answered with a conflict and
/// changes nothing; the first daily track is still returned under its
/// number, as it was.
pub proof fn law_second_track_of_a_slot_conflicts(
    s: StoreView,
    start_time: DateTime,
    topic_id: i64,
    comment: Option<Seq<char>>,
    id: Seq<u8>,
    now: DateTime,
    topic_id2: i64,
    comment2: Option<Seq<char>>,
    id2: Seq<u8>,
    now2: DateTime,
)
    requires
        s.wf(),
        id.len() == crate::ident::ID_LEN,
        daily_track_request_handled(s, start_time, topic_id, comment, id, now) is Ok,
        find_topic(s.topics, topic_id2) is Some,
    ensures
        ({
            let first = daily_track_request_handled(s, start_time, topic_id, comment, id, now)->Ok_0.1;
            let after = after_daily_track_request(s, start_time, topic_id, comment, id, now);
            let end = after_daily_track_request(after, start_time, topic_id2, comment2, id2, now2);
            &&& daily_track_request_handled(after, start_time, topic_id2, comment2, id2, now2)
                == Err::<(u16, DailyTrackView), Failure>(
                (ErrorKind::Conflict, slot_conflict_message()),
            )
            &&& end == after
            &&& daily_track_response(
                first.id,
                Ok::<Option<db_model::DailyTrackView>, StorageFailure>(
                    find_daily_track(end.daily_tracks, first.id),
                ),
            ) == Ok::<DailyTrackView, Failure>(first)
        }),
{
    db::law_second_track_of_a_slot_is_refused(
        s,
        start_time,
        Some(i64_be_bytes(topic_id)),
        comment,
        id,
        now,
        Some(i64_be_bytes(topic_id2)),
        comment2,
        id2,
        now2,
    );
}

/// Well-formed tables stay well formed through a request to create a topic
/// and through a request to create a daily track, however it ends: no topic
/// name, no start time and no number comes to stand twice in its table.
pub proof fn law_requests_keep_the_tables_well_formed(
    s: StoreView,
    name: Seq<char>,
    parent: Option<i64>,
    start_time: DateTime,
    topic_id: i64,
    comment: Option<Seq<char>>,
    id: Seq<u8>,
    now: DateTime,
)
    requires
        s.wf(),
        id.len() == crate::ident::ID_LEN,
    ensures
        after_topic_request(s, name, parent, id, now).wf(),
        after_daily_track_request(s, start_time, topic_id, comment, id, now).wf(),
{
    db::lemma_topic_creation_keeps_wf(s, name, parent, id, now);
    lemma_i64_round_trip(topic_id);
    db::lemma_daily_track_creation_keeps_wf(
        s,
        start_time,
        Some(i64_be_bytes(topic_id)),
        comment,
        id,
        now,
    );
}

/// The handlers keep every daily track on the half hour: tables in which
/// all start times are on a slot stay so through a request to create a daily
/// track, however it ends.
pub proof fn law_tracks_stay_on_slot(
    s: StoreView,
    start_time: DateTime,
    topic_id: i64,
    comment: Option<Seq<char>>,
    id: Seq<u8>,
    now: DateTime,
)
    requires
        all_on_slot(s),
    ensures
        all_on_slot(after_daily_track_request(s, start_time, topic_id, comment, id, now)),
{
}

} // verus!
