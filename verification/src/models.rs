//! What clients send and receive.

use crate::time::UtcDateTime;
use std::collections::HashMap;
use vstd::prelude::*;

verus! {

/// A topic as a client sees it.
#[derive(Debug)]
pub struct Topic {
    /// The number of the topic's identifier.
    pub id: i64,
    /// The name of the topic.
    pub topic_name: String,
    /// When the topic was created.
    pub created_at: UtcDateTime,
    /// When the topic was last updated; the creation time if it never was.
    pub updated_at: UtcDateTime,
    /// The number of the parent topic; none for a root.
    pub parent_topic_id: Option<i64>,
}

/// A daily track as a client sees it.
#[derive(Debug)]
pub struct DailyTrack {
    /// The number of the record's identifier.
    pub id: i64,
    /// The start of the half hour.
    pub start_time: UtcDateTime,
    /// When the record was created.
    pub created_at: UtcDateTime,
    /// When the record was last updated; the creation time if it never was.
    pub updated_at: UtcDateTime,
    /// The number of the topic of the half hour.
    pub topic_id: Option<i64>,
    /// Notes on the half hour.
    pub comment: Option<String>,
}

/// What a client's topic holds.
pub struct TopicView {
    pub id: i64,
    pub topic_name: Seq<char>,
    pub created_at: UtcDateTime,
    pub updated_at: UtcDateTime,
    pub parent_topic_id: Option<i64>,
}

/// What a client's daily track holds.
pub struct DailyTrackView {
    pub id: i64,
    pub start_time: UtcDateTime,
    pub created_at: UtcDateTime,
    pub updated_at: UtcDateTime,
    pub topic_id: Option<i64>,
    pub comment: Option<Seq<char>>,
}

impl View for Topic {
    type V = TopicView;

    open spec fn view(&self) -> TopicView {
        TopicView {
            id: self.id,
            topic_name: self.topic_name@,
            created_at: self.created_at,
            updated_at: self.updated_at,
            parent_topic_id: self.parent_topic_id,
        }
    }
}

impl View for DailyTrack {
    type V = DailyTrackView;

    open spec fn view(&self) -> DailyTrackView {
        DailyTrackView {
            id: self.id,
            start_time: self.start_time,
            created_at: self.created_at,
            updated_at: self.updated_at,
            topic_id: self.topic_id,
            comment: crate::db_model::opt_text_view(self.comment),
        }
    }
}

impl Topic {
    /// A root topic.
    pub fn new(id: i64, topic_name: String, created_at: UtcDateTime, updated_at: UtcDateTime) -> (topic:
        Topic)
        ensures
            topic@ == (TopicView {
                id,
                topic_name: topic_name@,
                created_at,
                updated_at,
                parent_topic_id: None,
            }),
    {
        Topic { id, topic_name, created_at, updated_at, parent_topic_id: None }
    }
}

impl DailyTrack {
    /// A daily track of the topic `topic_id`, without a comment.
    pub fn new(
        id: i64,
        start_time: UtcDateTime,
        created_at: UtcDateTime,
        updated_at: UtcDateTime,
        topic_id: i64,
    ) -> (track: DailyTrack)
        ensures
            track@ == (DailyTrackView {
                id,
                start_time,
                created_at,
                updated_at,
                topic_id: Some(topic_id),
                comment: None,
            }),
    {
        DailyTrack { id, start_time, created_at, updated_at, topic_id: Some(topic_id), comment: None }
    }
}

/// The body of a request that creates a topic.
#[derive(Debug)]
pub struct CreateTopicRequest {
    /// The name of the topic to create.
    pub topic_name: String,
    /// The number of the parent topic, if the topic has one.
    pub parent_topic_id: Option<i64>,
}

impl CreateTopicRequest {
    /// A request for a root topic.
    pub fn new(topic_name: String) -> (request: CreateTopicRequest)
        ensures
            request.topic_name@ == topic_name@,
            request.parent_topic_id is None,
    {
        CreateTopicRequest { topic_name, parent_topic_id: None }
    }
}

/// The body of a request that creates a daily track.
#[derive(Debug)]
pub struct CreateDailyTrackRequest {
    /// The start of the half hour: on the hour or thirty minutes past it.
    pub start_time: UtcDateTime,
    /// The number of the topic of the half hour.
    pub topic_id: i64,
    /// Notes on the half hour.
    pub comment: Option<String>,
}

impl CreateDailyTrackRequest {
    /// A request without a comment.
    pub fn new(start_time: UtcDateTime, topic_id: i64) -> (request: CreateDailyTrackRequest)
        ensures
            request.start_time == start_time,
            request.topic_id == topic_id,
            request.comment is None,
    {
        CreateDailyTrackRequest { start_time, topic_id, comment: None }
    }
}

/// The query of a request that lists topics.
#[derive(Debug)]
pub struct GetTopicsParams {
    /// Where given, only the children of this topic are listed.
    pub parent_topic_id: Option<i64>,
}

/// The query of a request that lists daily tracks.
#[derive(Debug)]
pub struct GetDailyTracksParams {
    /// The first day to list, as year, month and day with hyphens between.
    pub start_date: Option<String>,
    /// The last day to list, written likewise.
    pub end_date: Option<String>,
    /// Where given, only the records of this topic are listed.
    pub topic_id: Option<i64>,
}

/// How a call ended, as a number and a word.
#[derive(Debug)]
pub struct BaseResponse {
    pub status_code: i32,
    pub status_message: String,
}

impl BaseResponse {
    /// The response of a call that succeeded.
    pub fn new() -> (response: BaseResponse)
        ensures
            response.status_code == 0,
            response.status_message@ == "success"@,
    {
        BaseResponse { status_code: 0, status_message: String::from_str("success") }
    }
}

/// What every request carries.
#[derive(Debug)]
pub struct BaseRequest {
    pub headers: HashMap<String, String>,
}

/// A request that lists topics, with what every request carries.
#[derive(Debug)]
pub struct GetTopicsRequest {
    pub parent_topic_id: Option<i64>,
    pub base_request: BaseRequest,
}

/// The topics listed, with how the call ended.
#[derive(Debug)]
pub struct GetTopicsResponse {
    pub topics: Option<Vec<Topic>>,
    pub base_response: BaseResponse,
}

} // verus!
