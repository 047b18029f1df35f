//! The answers of the six operations, each with the statuses it can have.

use crate::error::{code_of, status_of, ApiError, ErrorKind, ErrorResponse};
use crate::handler::{shown_daily_tracks, shown_topics, Failure, CREATED};
use crate::models::{DailyTrack, DailyTrackView, Topic, TopicView};
use vstd::prelude::*;

verus! {

/// What a response carries.
#[derive(Debug)]
pub enum ResponseBody {
    Empty,
    Topic(Topic),
    Topics(Vec<Topic>),
    DailyTrack(DailyTrack),
    DailyTracks(Vec<DailyTrack>),
    Error(ErrorResponse),
}

/// What a response body holds.
pub enum BodyView {
    Empty,
    Topic(TopicView),
    Topics(Seq<TopicView>),
    DailyTrack(DailyTrackView),
    DailyTracks(Seq<DailyTrackView>),
    Error((Seq<char>, Seq<char>)),
}

/// A status and a body.
#[derive(Debug)]
pub struct Response {
    pub status: u16,
    pub body: ResponseBody,
}

impl View for ResponseBody {
    type V = BodyView;

    open spec fn view(&self) -> BodyView {
        match self {
            ResponseBody::Empty => BodyView::Empty,
            ResponseBody::Topic(t) => BodyView::Topic(t@),
            ResponseBody::Topics(v) => BodyView::Topics(shown_topics(v@)),
            ResponseBody::DailyTrack(t) => BodyView::DailyTrack(t@),
            ResponseBody::DailyTracks(v) => BodyView::DailyTracks(shown_daily_tracks(v@)),
            ResponseBody::Error(e) => BodyView::Error(e@),
        }
    }
}

impl View for Response {
    type V = (u16, BodyView);

    open spec fn view(&self) -> (u16, BodyView) {
        (self.status, self.body@)
    }
}

/// The status of an answer that carries what was asked for.
pub const OK: u16 = 200;

/// The status of an answer to a method that the path does not take.
pub const METHOD_NOT_ALLOWED: u16 = 405;

/// The status of an answer to a path that is no route.
pub const NOT_FOUND: u16 = 404;

/// How a failure is sent: with the status and the code of its kind, unless
/// the operation has no answer of that kind; then as an internal server
/// error. The message stays.
pub open spec fn failure_sent(has_kind: bool, e: Failure) -> (u16, BodyView) {
    let kind = if has_kind {
        e.0
    } else {
        ErrorKind::InternalServerError
    };
    (status_of(kind), BodyView::Error((code_of(kind), e.1)))
}

/// How any failure is sent: with the status and the code of its kind.
pub open spec fn error_sent(e: Failure) -> (u16, BodyView) {
    failure_sent(true, e)
}

/// The response that answers a failure.
pub fn error_response(error: ApiError) -> (response: Response)
    ensures
        response@ == error_sent(error@),
{
    let (status, body) = error.into_response();
    Response { status, body: ResponseBody::Error(body) }
}

/// The body of an internal server error with the message of `error`.
fn as_internal(error: ApiError) -> (body: ErrorResponse)
    ensures
        body@ == (code_of(ErrorKind::InternalServerError), error@.1),
{
    let message = match error {
        ApiError::BadRequest(m) => m,
        ApiError::NotFound(m) => m,
        ApiError::Conflict(m) => m,
        ApiError::InternalServerError(m) => m,
    };
    ErrorResponse { error: String::from_str("INTERNAL_ERROR"), message }
}

/// The body that names the kind of `error`.
fn as_body(error: ApiError) -> (body: ErrorResponse)
    ensures
        body@ == (code_of(error@.0), error@.1),
{
    error.into_response().1
}

/// Answers to the creation of a daily track.
#[derive(Debug)]
#[must_use]
pub enum CreateDailyTrackResponse {
    /// Daily track record created successfully
    DailyTrackRecordCreatedSuccessfully(DailyTrack),
    /// Invalid input (e.g., start_time not at :00 or :30)
    InvalidInput(ErrorResponse),
    /// Referenced topic not found
    ReferencedTopicNotFound(ErrorResponse),
    /// A record already exists for this time period
    ARecordAlreadyExistsForThisTimePeriod(ErrorResponse),
    /// Internal server error
    InternalServerError(ErrorResponse),
}

/// Answers to a request for daily tracks.
#[derive(Debug)]
#[must_use]
pub enum GetDailyTracksResponse {
    /// Successful operation
    SuccessfulOperation(Vec<DailyTrack>),
    /// Invalid date format or parameters
    InvalidDateFormatOrParameters(ErrorResponse),
    /// Internal server error
    InternalServerError(ErrorResponse),
}

/// Answers to a request for one daily track.
#[derive(Debug)]
#[must_use]
pub enum GetDailyTrackByIdResponse {
    /// Successful operation
    SuccessfulOperation(DailyTrack),
    /// Daily track record not found
    DailyTrackRecordNotFound(ErrorResponse),
    /// Internal server error
    InternalServerError(ErrorResponse),
}

/// Answers to the creation of a topic.
#[derive(Debug)]
#[must_use]
pub enum CreateTopicResponse {
    /// Topic created successfully
    TopicCreatedSuccessfully(Topic),
    /// Invalid input
    InvalidInput(ErrorResponse),
    /// Topic name already exists
    TopicNameAlreadyExists(ErrorResponse),
    /// Internal server error
    InternalServerError(ErrorResponse),
}

/// Answers to a request for topics.
#[derive(Debug)]
#[must_use]
pub enum GetTopicsResponse {
    /// Successful operation
    SuccessfulOperation(Vec<Topic>),
    /// Internal server error
    InternalServerError(ErrorResponse),
}

/// Answers to a request for one topic.
#[derive(Debug)]
#[must_use]
pub enum GetTopicByIdResponse {
    /// Successful operation
    SuccessfulOperation(Topic),
    /// Topic not found
    TopicNotFound(ErrorResponse),
    /// Internal server error
    InternalServerError(ErrorResponse),
}

impl View for CreateDailyTrackResponse {
    type V = (u16, BodyView);

    open spec fn view(&self) -> (u16, BodyView) {
        match self {
            CreateDailyTrackResponse::DailyTrackRecordCreatedSuccessfully(t) => (
                CREATED,
                BodyView::DailyTrack(t@),
            ),
            CreateDailyTrackResponse::InvalidInput(e) => (400, BodyView::Error(e@)),
            CreateDailyTrackResponse::ReferencedTopicNotFound(e) => (404, BodyView::Error(e@)),
            CreateDailyTrackResponse::ARecordAlreadyExistsForThisTimePeriod(e) => (
                409,
                BodyView::Error(e@),
            ),
            CreateDailyTrackResponse::InternalServerError(e) => (500, BodyView::Error(e@)),
        }
    }
}

impl View for GetDailyTracksResponse {
    type V = (u16, BodyView);

    open spec fn view(&self) -> (u16, BodyView) {
        match self {
            GetDailyTracksResponse::SuccessfulOperation(v) => (
                OK,
                BodyView::DailyTracks(shown_daily_tracks(v@)),
            ),
            GetDailyTracksResponse::InvalidDateFormatOrParameters(e) => (400, BodyView::Error(e@)),
            GetDailyTracksResponse::InternalServerError(e) => (500, BodyView::Error(e@)),
        }
    }
}

impl View for GetDailyTrackByIdResponse {
    type V = (u16, BodyView);

    open spec fn view(&self) -> (u16, BodyView) {
        match self {
            GetDailyTrackByIdResponse::SuccessfulOperation(t) => (OK, BodyView::DailyTrack(t@)),
            GetDailyTrackByIdResponse::DailyTrackRecordNotFound(e) => (404, BodyView::Error(e@)),
            GetDailyTrackByIdResponse::InternalServerError(e) => (500, BodyView::Error(e@)),
        }
    }
}

impl View for CreateTopicResponse {
    type V = (u16, BodyView);

    open spec fn view(&self) -> (u16, BodyView) {
        match self {
            CreateTopicResponse::TopicCreatedSuccessfully(t) => (CREATED, BodyView::Topic(t@)),
            CreateTopicResponse::InvalidInput(e) => (400, BodyView::Error(e@)),
            CreateTopicResponse::TopicNameAlreadyExists(e) => (409, BodyView::Error(e@)),
            CreateTopicResponse::InternalServerError(e) => (500, BodyView::Error(e@)),
        }
    }
}

impl View for GetTopicsResponse {
    type V = (u16, BodyView);

    open spec fn view(&self) -> (u16, BodyView) {
        match self {
            GetTopicsResponse::SuccessfulOperation(v) => (OK, BodyView::Topics(shown_topics(v@))),
            GetTopicsResponse::InternalServerError(e) => (500, BodyView::Error(e@)),
        }
    }
}

impl View for GetTopicByIdResponse {
    type V = (u16, BodyView);

    open spec fn view(&self) -> (u16, BodyView) {
        match self {
            GetTopicByIdResponse::SuccessfulOperation(t) => (OK, BodyView::Topic(t@)),
            GetTopicByIdResponse::TopicNotFound(e) => (404, BodyView::Error(e@)),
            GetTopicByIdResponse::InternalServerError(e) => (500, BodyView::Error(e@)),
        }
    }
}

/// What is sent for the answer of the handler that creates a daily track.
pub open spec fn created_daily_track_sent(answer: Result<(u16, DailyTrackView), Failure>) -> (
    u16,
    BodyView,
) {
    match answer {
        Ok(created) => (CREATED, BodyView::DailyTrack(created.1)),
        Err(e) => failure_sent(true, e),
    }
}

/// What is sent for the answer of the handler that lists daily tracks.
pub open spec fn daily_tracks_sent(answer: Result<Seq<DailyTrackView>, Failure>) -> (u16, BodyView) {
    match answer {
        Ok(tracks) => (OK, BodyView::DailyTracks(tracks)),
        Err(e) => failure_sent(e.0 == ErrorKind::BadRequest || e.0 == ErrorKind::InternalServerError, e),
    }
}

/// What is sent for the answer of the handler that returns one daily track.
pub open spec fn daily_track_sent(answer: Result<DailyTrackView, Failure>) -> (u16, BodyView) {
    match answer {
        Ok(track) => (OK, BodyView::DailyTrack(track)),
        Err(e) => failure_sent(e.0 == ErrorKind::NotFound || e.0 == ErrorKind::InternalServerError, e),
    }
}

/// What is sent for the answer of the handler that creates a topic.
pub open spec fn created_topic_sent(answer: Result<(u16, TopicView), Failure>) -> (u16, BodyView) {
    match answer {
        Ok(created) => (CREATED, BodyView::Topic(created.1)),
        Err(e) => failure_sent(e.0 != ErrorKind::NotFound, e),
    }
}

/// What is sent for the answer of the handler that lists topics.
pub open spec fn topics_sent(answer: Result<Seq<TopicView>, Failure>) -> (u16, BodyView) {
    match answer {
        Ok(topics) => (OK, BodyView::Topics(topics)),
        Err(e) => failure_sent(e.0 == ErrorKind::InternalServerError, e),
    }
}

/// What is sent for the answer of the handler that returns one topic.
pub open spec fn topic_sent(answer: Result<TopicView, Failure>) -> (u16, BodyView) {
    match answer {
        Ok(topic) => (OK, BodyView::Topic(topic)),
        Err(e) => failure_sent(e.0 == ErrorKind::NotFound || e.0 == ErrorKind::InternalServerError, e),
    }
}

impl CreateDailyTrackResponse {
    /// The answer of the handler as one of the answers of the operation.
    pub fn from_answer(answer: Result<(u16, DailyTrack), ApiError>) -> (response: Self)
        ensures
            response@ == created_daily_track_sent(crate::handler::created_daily_track_answer(answer)),
    {
        match answer {
            Ok((_, track)) => CreateDailyTrackResponse::DailyTrackRecordCreatedSuccessfully(track),
            Err(e) => match e.kind() {
                ErrorKind::BadRequest => CreateDailyTrackResponse::InvalidInput(as_body(e)),
                ErrorKind::NotFound => CreateDailyTrackResponse::ReferencedTopicNotFound(as_body(e)),
                ErrorKind::Conflict => CreateDailyTrackResponse::ARecordAlreadyExistsForThisTimePeriod(
                    as_body(e),
                ),
                ErrorKind::InternalServerError => CreateDailyTrackResponse::InternalServerError(
                    as_body(e),
                ),
            },
        }
    }

    /// The status and the body that are sent.
    pub fn into_response(self) -> (response: Response)
        ensures
            response@ == self@,
    {
        match self {
            CreateDailyTrackResponse::DailyTrackRecordCreatedSuccessfully(t) => Response {
                status: 201,
                body: ResponseBody::DailyTrack(t),
            },
            CreateDailyTrackResponse::InvalidInput(e) => Response {
                status: 400,
                body: ResponseBody::Error(e),
            },
            CreateDailyTrackResponse::ReferencedTopicNotFound(e) => Response {
                status: 404,
                body: ResponseBody::Error(e),
            },
            CreateDailyTrackResponse::ARecordAlreadyExistsForThisTimePeriod(e) => Response {
                status: 409,
                body: ResponseBody::Error(e),
            },
            CreateDailyTrackResponse::InternalServerError(e) => Response {
                status: 500,
                body: ResponseBody::Error(e),
            },
        }
    }
}

impl GetDailyTracksResponse {
    /// The answer of the handler as one of the answers of the operation.
    pub fn from_answer(answer: Result<Vec<DailyTrack>, ApiError>) -> (response: Self)
        ensures
            response@ == daily_tracks_sent(crate::handler::daily_tracks_answer(answer)),
    {
        match answer {
            Ok(tracks) => GetDailyTracksResponse::SuccessfulOperation(tracks),
            Err(e) => match e.kind() {
                ErrorKind::BadRequest => GetDailyTracksResponse::InvalidDateFormatOrParameters(
                    as_body(e),
                ),
                ErrorKind::InternalServerError => GetDailyTracksResponse::InternalServerError(
                    as_body(e),
                ),
                _ => GetDailyTracksResponse::InternalServerError(as_internal(e)),
            },
        }
    }

    /// The status and the body that are sent.
    pub fn into_response(self) -> (response: Response)
        ensures
            response@ == self@,
    {
        match self {
            GetDailyTracksResponse::SuccessfulOperation(v) => Response {
                status: 200,
                body: ResponseBody::DailyTracks(v),
            },
            GetDailyTracksResponse::InvalidDateFormatOrParameters(e) => Response {
                status: 400,
                body: ResponseBody::Error(e),
            },
            GetDailyTracksResponse::InternalServerError(e) => Response {
                status: 500,
                body: ResponseBody::Error(e),
            },
        }
    }
}

impl GetDailyTrackByIdResponse {
    /// The answer of the handler as one of the answers of the operation.
    pub fn from_answer(answer: Result<DailyTrack, ApiError>) -> (response: Self)
        ensures
            response@ == daily_track_sent(crate::handler::daily_track_answer(answer)),
    {
        match answer {
            Ok(track) => GetDailyTrackByIdResponse::SuccessfulOperation(track),
            Err(e) => match e.kind() {
                ErrorKind::NotFound => GetDailyTrackByIdResponse::DailyTrackRecordNotFound(
                    as_body(e),
                ),
                ErrorKind::InternalServerError => GetDailyTrackByIdResponse::InternalServerError(
                    as_body(e),
                ),
                _ => GetDailyTrackByIdResponse::InternalServerError(as_internal(e)),
            },
        }
    }

    /// The status and the body that are sent.
    pub fn into_response(self) -> (response: Response)
        ensures
            response@ == self@,
    {
        match self {
            GetDailyTrackByIdResponse::SuccessfulOperation(t) => Response {
                status: 200,
                body: ResponseBody::DailyTrack(t),
            },
            GetDailyTrackByIdResponse::DailyTrackRecordNotFound(e) => Response {
                status: 404,
                body: ResponseBody::Error(e),
            },
            GetDailyTrackByIdResponse::InternalServerError(e) => Response {
                status: 500,
                body: ResponseBody::Error(e),
            },
        }
    }
}

impl CreateTopicResponse {
    /// The answer of the handler as one of the answers of the operation.
    pub fn from_answer(answer: Result<(u16, Topic), ApiError>) -> (response: Self)
        ensures
            response@ == created_topic_sent(crate::handler::created_topic_answer(answer)),
    {
        match answer {
            Ok((_, topic)) => CreateTopicResponse::TopicCreatedSuccessfully(topic),
            Err(e) => match e.kind() {
                ErrorKind::BadRequest => CreateTopicResponse::InvalidInput(as_body(e)),
                ErrorKind::Conflict => CreateTopicResponse::TopicNameAlreadyExists(as_body(e)),
                ErrorKind::InternalServerError => CreateTopicResponse::InternalServerError(
                    as_body(e),
                ),
                ErrorKind::NotFound => CreateTopicResponse::InternalServerError(as_internal(e)),
            },
        }
    }

    /// The status and the body that are sent.
    pub fn into_response(self) -> (response: Response)
        ensures
            response@ == self@,
    {
        match self {
            CreateTopicResponse::TopicCreatedSuccessfully(t) => Response {
                status: 201,
                body: ResponseBody::Topic(t),
            },
            CreateTopicResponse::InvalidInput(e) => Response {
                status: 400,
                body: ResponseBody::Error(e),
            },
            CreateTopicResponse::TopicNameAlreadyExists(e) => Response {
                status: 409,
                body: ResponseBody::Error(e),
            },
            CreateTopicResponse::InternalServerError(e) => Response {
                status: 500,
                body: ResponseBody::Error(e),
            },
        }
    }
}

impl GetTopicsResponse {
    /// The answer of the handler as one of the answers of the operation.
    pub fn from_answer(answer: Result<Vec<Topic>, ApiError>) -> (response: Self)
        ensures
            response@ == topics_sent(crate::handler::topics_answer(answer)),
    {
        match answer {
            Ok(topics) => GetTopicsResponse::SuccessfulOperation(topics),
            Err(e) => match e.kind() {
                ErrorKind::InternalServerError => GetTopicsResponse::InternalServerError(as_body(e)),
                _ => GetTopicsResponse::InternalServerError(as_internal(e)),
            },
        }
    }

    /// The status and the body that are sent.
    pub fn into_response(self) -> (response: Response)
        ensures
            response@ == self@,
    {
        match self {
            GetTopicsResponse::SuccessfulOperation(v) => Response {
                status: 200,
                body: ResponseBody::Topics(v),
            },
            GetTopicsResponse::InternalServerError(e) => Response {
                status: 500,
                body: ResponseBody::Error(e),
            },
        }
    }
}

impl GetTopicByIdResponse {
    /// The answer of the handler as one of the answers of the operation.
    pub fn from_answer(answer: Result<Topic, ApiError>) -> (response: Self)
        ensures
            response@ == topic_sent(crate::handler::topic_answer(answer)),
    {
        match answer {
            Ok(topic) => GetTopicByIdResponse::SuccessfulOperation(topic),
            Err(e) => match e.kind() {
                ErrorKind::NotFound => GetTopicByIdResponse::TopicNotFound(as_body(e)),
                ErrorKind::InternalServerError => GetTopicByIdResponse::InternalServerError(
                    as_body(e),
                ),
                _ => GetTopicByIdResponse::InternalServerError(as_internal(e)),
            },
        }
    }

    /// The status and the body that are sent.
    pub fn into_response(self) -> (response: Response)
        ensures
            response@ == self@,
    {
        match self {
            GetTopicByIdResponse::SuccessfulOperation(t) => Response {
                status: 200,
                body: ResponseBody::Topic(t),
            },
            GetTopicByIdResponse::TopicNotFound(e) => Response {
                status: 404,
                body: ResponseBody::Error(e),
            },
            GetTopicByIdResponse::InternalServerError(e) => Response {
                status: 500,
                body: ResponseBody::Error(e),
            },
        }
    }
}

} // verus!
