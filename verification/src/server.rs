//! The router: from a method, a path, a query and a body to a response.
//!
//! The four routes are the two collections, `/api/v1/daily-tracks` and
//! `/api/v1/topics`, and one item route under each: the collection's path, a
//! slash, and an identifier without `/`, `?` or `#`. A collection takes GET
//! and POST, an item takes GET.

use crate::api::{
    created_daily_track_sent, created_topic_sent, daily_track_sent, daily_tracks_sent,
    error_response, error_sent, topic_sent, topics_sent, BodyView, CreateDailyTrackResponse,
    CreateTopicResponse, GetDailyTrackByIdResponse, GetDailyTracksResponse, GetTopicByIdResponse,
    GetTopicsResponse, Response, ResponseBody, METHOD_NOT_ALLOWED, NOT_FOUND,
};
use crate::db::{find_first, Store, StoreView};
use crate::db_model::{fresh_id, opt_text_view};
use crate::error::{ApiError, ErrorKind};
use crate::handler;
use crate::handler::Failure;
use crate::ident::ID_LEN;
use crate::models::{
    CreateDailyTrackRequest, CreateTopicRequest, GetDailyTracksParams, GetTopicsParams,
};
use crate::text::{concat2, is_prefix, parse_i64, parsed_i64, str_equal, str_starts_with};
use crate::time::DateTime;
use vstd::prelude::*;

verus! {

/// The method of a request, as far as the router tells methods apart.
#[derive(Clone, Copy, Debug, PartialEq, Eq, Structural)]
pub enum Method {
    Get,
    Post,
    Other,
}

/// The route that a path takes.
#[derive(Debug)]
pub enum Route {
    DailyTracks,
    DailyTrackById(String),
    Topics,
    TopicById(String),
}

/// What a route holds.
pub enum RouteView {
    DailyTracks,
    DailyTrackById(Seq<char>),
    Topics,
    TopicById(Seq<char>),
}

impl View for Route {
    type V = RouteView;

    open spec fn view(&self) -> RouteView {
        match self {
            Route::DailyTracks => RouteView::DailyTracks,
            Route::DailyTrackById(id) => RouteView::DailyTrackById(id@),
            Route::Topics => RouteView::Topics,
            Route::TopicById(id) => RouteView::TopicById(id@),
        }
    }
}

/// The six operations.
#[derive(Clone, Copy, Debug, PartialEq, Eq, Structural)]
pub enum Operation {
    CreateDailyTrack,
    GetDailyTracks,
    GetDailyTrackById,
    CreateTopic,
    GetTopics,
    GetTopicById,
}

/// The path of the daily track collection.
pub open spec fn daily_tracks_path() -> Seq<char> {
    "/api/v1/daily-tracks"@
}

/// The path of the topic collection.
pub open spec fn topics_path() -> Seq<char> {
    "/api/v1/topics"@
}

/// The text can be the identifier of an item route: it holds no `/`, no `?`
/// and no `#`. It may be empty.
pub open spec fn is_id_segment(s: Seq<char>) -> bool {
    forall|i: int| 0 <= i < s.len() ==> (#[trigger] s[i]) != '/' && s[i] != '?' && s[i] != '#'
}

/// The identifier of the item route under the collection `base` that `path`
/// takes, if it takes one.
pub open spec fn item_of(base: Seq<char>, path: Seq<char>) -> Option<Seq<char>> {
    if is_prefix(base.push('/'), path) && is_id_segment(path.skip(base.len() as int + 1)) {
        Some(path.skip(base.len() as int + 1))
    } else {
        None
    }
}

/// The route that `path` takes, if it takes one.
pub open spec fn route_of(path: Seq<char>) -> Option<RouteView> {
    if path == daily_tracks_path() {
        Some(RouteView::DailyTracks)
    } else if item_of(daily_tracks_path(), path) is Some {
        Some(RouteView::DailyTrackById(item_of(daily_tracks_path(), path)->0))
    } else if path == topics_path() {
        Some(RouteView::Topics)
    } else if item_of(topics_path(), path) is Some {
        Some(RouteView::TopicById(item_of(topics_path(), path)->0))
    } else {
        None
    }
}

/// The operation that a method asks for on a route, if the route takes the
/// method.
pub open spec fn operation_of(method: Method, route: RouteView) -> Option<Operation> {
    match (method, route) {
        (Method::Post, RouteView::DailyTracks) => Some(Operation::CreateDailyTrack),
        (Method::Get, RouteView::DailyTracks) => Some(Operation::GetDailyTracks),
        (Method::Get, RouteView::DailyTrackById(_)) => Some(Operation::GetDailyTrackById),
        (Method::Post, RouteView::Topics) => Some(Operation::CreateTopic),
        (Method::Get, RouteView::Topics) => Some(Operation::GetTopics),
        (Method::Get, RouteView::TopicById(_)) => Some(Operation::GetTopicById),
        _ => None,
    }
}

/// The name of an operation.
pub open spec fn operation_name(operation: Operation) -> Seq<char> {
    match operation {
        Operation::CreateDailyTrack => "CreateDailyTrack"@,
        Operation::GetDailyTracks => "GetDailyTracks"@,
        Operation::GetDailyTrackById => "GetDailyTrackById"@,
        Operation::CreateTopic => "CreateTopic"@,
        Operation::GetTopics => "GetTopics"@,
        Operation::GetTopicById => "GetTopicById"@,
    }
}

/// The operation that a request asks for, if its path is a route that takes
/// its method.
pub open spec fn requested_operation(method: Method, path: Seq<char>) -> Option<Operation> {
    match route_of(path) {
        Some(route) => operation_of(method, route),
        None => None,
    }
}

/// The identifier of the item route under `base` that `path` takes.
fn match_item(path: &str, base: &str) -> (id: Option<String>)
    ensures
        opt_text_view(id) == item_of(base@, path@),
{
    let n = path.unicode_len();
    let m = base.unicode_len();
    if !str_starts_with(path, base) || n == m {
        proof {
            if is_prefix(base@.push('/'), path@) {
                assert(path@.subrange(0, m as int) =~= path@.subrange(0, m + 1).subrange(
                    0,
                    m as int,
                ));
                assert(base@.push('/').subrange(0, m as int) =~= base@);
            }
        }
        return None;
    }
    if path.get_char(m) != '/' {
        proof {
            if is_prefix(base@.push('/'), path@) {
                assert(path@.subrange(0, m + 1)[m as int] == path@[m as int]);
            }
        }
        return None;
    }
    proof {
        assert(path@.subrange(0, m + 1) =~= base@.push('/')) by {
            assert forall|k: int| 0 <= k < m + 1 implies path@.subrange(0, m + 1)[k]
                == base@.push('/')[k] by {
                if k < m {
                    assert(path@.subrange(0, m as int)[k] == path@[k]);
                }
            }
        }
    }
    let ghost rest = path@.skip(m + 1);
    let mut i: usize = m + 1;
    while i < n
        invariant
            m + 1 <= i <= n,
            n == path@.len(),
            m == base@.len(),
            rest == path@.skip(m + 1),
            forall|k: int|
                0 <= k < i - (m + 1) ==> (#[trigger] rest[k]) != '/' && rest[k] != '?' && rest[k]
                    != '#',
        decreases n - i,
    {
        let c = path.get_char(i);
        proof {
            assert(rest[i - (m + 1)] == path@[i as int]);
        }
        if c == '/' || c == '?' || c == '#' {
            proof {
                let k = i - (m + 1);
                assert(rest[k] == '/' || rest[k] == '?' || rest[k] == '#');
                assert(!is_id_segment(rest));
            }
            return None;
        }
        i = i + 1;
    }
    let id = path.substring_char(m + 1, n);
    proof {
        assert(id@ =~= rest);
    }
    Some(String::from_str(id))
}

/// The route that a path takes.
pub fn match_route(path: &str) -> (route: Option<Route>)
    ensures
        match route {
            Some(r) => route_of(path@) == Some(r@),
            None => route_of(path@) is None,
        },
{
    if str_equal(path, "/api/v1/daily-tracks") {
        return Some(Route::DailyTracks);
    }
    if let Some(id) = match_item(path, "/api/v1/daily-tracks") {
        return Some(Route::DailyTrackById(id));
    }
    if str_equal(path, "/api/v1/topics") {
        return Some(Route::Topics);
    }
    if let Some(id) = match_item(path, "/api/v1/topics") {
        return Some(Route::TopicById(id));
    }
    None
}

/// The operation that a method asks for on a route.
pub fn operation_for(method: Method, route: &Route) -> (operation: Option<Operation>)
    ensures
        operation == operation_of(method, route@),
{
    match (method, route) {
        (Method::Post, Route::DailyTracks) => Some(Operation::CreateDailyTrack),
        (Method::Get, Route::DailyTracks) => Some(Operation::GetDailyTracks),
        (Method::Get, Route::DailyTrackById(_)) => Some(Operation::GetDailyTrackById),
        (Method::Post, Route::Topics) => Some(Operation::CreateTopic),
        (Method::Get, Route::Topics) => Some(Operation::GetTopics),
        (Method::Get, Route::TopicById(_)) => Some(Operation::GetTopicById),
        _ => None,
    }
}

impl Operation {
    /// The name of the operation.
    pub fn name(&self) -> (name: &'static str)
        ensures
            name@ == operation_name(*self),
    {
        match self {
            Operation::CreateDailyTrack => "CreateDailyTrack",
            Operation::GetDailyTracks => "GetDailyTracks",
            Operation::GetDailyTrackById => "GetDailyTrackById",
            Operation::CreateTopic => "CreateTopic",
            Operation::GetTopics => "GetTopics",
            Operation::GetTopicById => "GetTopicById",
        }
    }
}

/// The operation that a request asks for.
pub fn operation(method: Method, path: &str) -> (operation: Option<Operation>)
    ensures
        operation == requested_operation(method, path@),
{
    match match_route(path) {
        Some(route) => operation_for(method, &route),
        None => None,
    }
}

/// Names the operation that a request asks for.
pub struct ApiRequestParser;

impl ApiRequestParser {
    /// The name of the operation that the method asks for on the path; none
    /// where the path is no route or the route does not take the method.
    pub fn parse_operation_id(method: Method, path: &str) -> (name: Option<&'static str>)
        ensures
            match name {
                Some(n) => requested_operation(method, path@) is Some && n@ == operation_name(
                    requested_operation(method, path@)->0,
                ),
                None => requested_operation(method, path@) is None,
            },
    {
        match operation(method, path) {
            Some(operation) => Some(operation.name()),
            None => None,
        }
    }
}

/// What the outside decoder makes of a text in which `%` and two hexadecimal
/// digits stand for a byte: the decoded text, or nothing where the decoded
/// bytes are not UTF-8.
pub uninterp spec fn percent_decoded(text: Seq<char>) -> Option<Seq<char>>;

/// The pairs of name and value that the outside parser finds in a query
/// string, in their order.
pub uninterp spec fn query_pairs(query: Seq<char>) -> Seq<(Seq<char>, Seq<char>)>;

/// What a list of pairs holds.
pub open spec fn pairs_view(pairs: Seq<(String, String)>) -> Seq<(Seq<char>, Seq<char>)> {
    pairs.map_values(|p: (String, String)| (p.0@, p.1@))
}

/// The value of the first pair with the name `name`.
pub open spec fn first_value(pairs: Seq<(Seq<char>, Seq<char>)>, name: Seq<char>) -> Option<
    Seq<char>,
> {
    match find_first(pairs, |p: (Seq<char>, Seq<char>)| p.0 == name) {
        Some(p) => Some(p.1),
        None => None,
    }
}

/// The message for a path identifier that is no number.
pub open spec fn bad_path_id_message(text: Seq<char>) -> Seq<char> {
    "Couldn't parse path parameter id: "@ + text
}

/// The message for a path identifier that does not decode.
pub open spec fn undecodable_path_id_message(segment: Seq<char>) -> Seq<char> {
    "Couldn't percent-decode path parameter as UTF-8: "@ + segment
}

/// The message for a query parameter that is no number.
pub open spec fn bad_query_number_message(name: Seq<char>, text: Seq<char>) -> Seq<char> {
    "Couldn't parse query parameter "@ + name + ": "@ + text
}

/// The message for a request that should have a body and has none.
pub open spec fn missing_body_message() -> Seq<char> {
    "Missing required body parameter body"@
}

/// The message for a body that cannot be read as what the operation takes;
/// `why` says what the reader found.
pub open spec fn unreadable_body_message(why: Seq<char>) -> Seq<char> {
    "Couldn't parse body parameter body - doesn't match schema: "@ + why
}

/// The number that the identifier of an item route names, given what the
/// outside decoder made of it: a bad request where it did not decode, or
/// where the decoded text is no 64-bit signed number in decimal.
pub open spec fn path_id_of(segment: Seq<char>, decoded: Option<Seq<char>>) -> Result<i64, Failure> {
    match decoded {
        None => Err((ErrorKind::BadRequest, undecodable_path_id_message(segment))),
        Some(text) => match parsed_i64(text) {
            Some(n) => Ok(n),
            None => Err((ErrorKind::BadRequest, bad_path_id_message(text))),
        },
    }
}

/// The number that an optional query parameter gives: none where it is
/// absent, a bad request where it is no 64-bit signed number in decimal.
pub open spec fn number_param(name: Seq<char>, value: Option<Seq<char>>) -> Result<
    Option<i64>,
    Failure,
> {
    match value {
        None => Ok(None),
        Some(text) => match parsed_i64(text) {
            Some(n) => Ok(Some(n)),
            None => Err((ErrorKind::BadRequest, bad_query_number_message(name, text))),
        },
    }
}

/// What a number holds, or a failure.
pub open spec fn number_answer(r: Result<i64, ApiError>) -> Result<i64, Failure> {
    match r {
        Ok(n) => Ok(n),
        Err(e) => Err(e@),
    }
}

/// What the parameters of a request for topics hold, or a failure.
pub open spec fn topics_params_answer(r: Result<GetTopicsParams, ApiError>) -> Result<
    Option<i64>,
    Failure,
> {
    match r {
        Ok(p) => Ok(p.parent_topic_id),
        Err(e) => Err(e@),
    }
}

/// What the parameters of a request for daily tracks hold, or a failure.
pub open spec fn daily_tracks_params_answer(r: Result<GetDailyTracksParams, ApiError>) -> Result<
    (Option<Seq<char>>, Option<Seq<char>>, Option<i64>),
    Failure,
> {
    match r {
        Ok(p) => Ok((opt_text_view(p.start_date), opt_text_view(p.end_date), p.topic_id)),
        Err(e) => Err(e@),
    }
}

/// The parameters of a request for topics that the pairs of a query give.
pub open spec fn topics_params_of(pairs: Seq<(Seq<char>, Seq<char>)>) -> Result<
    Option<i64>,
    Failure,
> {
    number_param("parent_topic_id"@, first_value(pairs, "parent_topic_id"@))
}

/// The parameters of a request for daily tracks that the pairs of a query
/// give: the two dates as they are written, and the number of the topic.
pub open spec fn daily_tracks_params_of(pairs: Seq<(Seq<char>, Seq<char>)>) -> Result<
    (Option<Seq<char>>, Option<Seq<char>>, Option<i64>),
    Failure,
> {
    match number_param("topic_id"@, first_value(pairs, "topic_id"@)) {
        Err(e) => Err(e),
        Ok(topic_id) => Ok(
            (first_value(pairs, "start_date"@), first_value(pairs, "end_date"@), topic_id),
        ),
    }
}

/// The number that the identifier of an item route names, once the outside
/// decoder has read it.
pub fn path_id(segment: &str, decoded: Option<String>) -> (id: Result<i64, ApiError>)
    ensures
        number_answer(id) == path_id_of(segment@, opt_text_view(decoded)),
{
    match decoded {
        None => Err(
            ApiError::BadRequest(
                concat2("Couldn't percent-decode path parameter as UTF-8: ", segment),
            ),
        ),
        Some(text) => match parse_i64(text.as_str()) {
            Some(n) => Ok(n),
            None => Err(
                ApiError::BadRequest(concat2("Couldn't parse path parameter id: ", text.as_str())),
            ),
        },
    }
}

/// The value of the first pair with the name `name`.
pub fn query_value(pairs: &Vec<(String, String)>, name: &str) -> (value: Option<String>)
    ensures
        opt_text_view(value) == first_value(pairs_view(pairs@), name@),
{
    let ghost all = pairs_view(pairs@);
    let ghost p = |p: (Seq<char>, Seq<char>)| p.0 == name@;
    let mut found: Option<String> = None;
    let mut i: usize = 0;
    proof {
        assert(all.take(0) =~= Seq::<(Seq<char>, Seq<char>)>::empty());
    }
    while i < pairs.len()
        invariant
            i <= pairs@.len(),
            all == pairs_view(pairs@),
            p == (|p: (Seq<char>, Seq<char>)| p.0 == name@),
            opt_text_view(found) == first_value(all.take(i as int), name@),
            (found is None) == (find_first(all.take(i as int), p) is None),
        decreases pairs@.len() - i,
    {
        proof {
            let next = all.take(i + 1);
            assert(next.drop_last() =~= all.take(i as int));
            assert(next.last() == all[i as int]);
            assert(all[i as int] == (pairs@[i as int].0@, pairs@[i as int].1@));
        }
        if found.is_none() && str_equal(pairs[i].0.as_str(), name) {
            found = Some(pairs[i].1.clone());
        }
        i = i + 1;
    }
    proof {
        assert(all.take(i as int) =~= all);
    }
    found
}

/// The number that an optional query parameter gives.
pub fn query_number(name: &str, value: Option<String>) -> (number: Result<Option<i64>, ApiError>)
    ensures
        match number {
            Ok(n) => number_param(name@, opt_text_view(value)) == Ok::<Option<i64>, Failure>(n),
            Err(e) => number_param(name@, opt_text_view(value)) == Err::<Option<i64>, Failure>(e@),
        },
{
    match value {
        None => Ok(None),
        Some(text) => match parse_i64(text.as_str()) {
            Some(n) => Ok(Some(n)),
            None => {
                let mut message = String::from_str("Couldn't parse query parameter ");
                message.append(name);
                message.append(": ");
                message.append(text.as_str());
                proof {
                    assert(message@ =~= bad_query_number_message(name@, text@));
                }
                Err(ApiError::BadRequest(message))
            },
        },
    }
}

/// The parameters of a request for topics that the pairs of a query give.
pub fn topics_params(pairs: &Vec<(String, String)>) -> (params: Result<GetTopicsParams, ApiError>)
    ensures
        topics_params_answer(params) == topics_params_of(pairs_view(pairs@)),
{
    match query_number("parent_topic_id", query_value(pairs, "parent_topic_id")) {
        Ok(parent_topic_id) => Ok(GetTopicsParams { parent_topic_id }),
        Err(e) => Err(e),
    }
}

/// The parameters of a request for daily tracks that the pairs of a query
/// give.
pub fn daily_tracks_params(pairs: &Vec<(String, String)>) -> (params: Result<
    GetDailyTracksParams,
    ApiError,
>)
    ensures
        daily_tracks_params_answer(params) == daily_tracks_params_of(pairs_view(pairs@)),
{
    match query_number("topic_id", query_value(pairs, "topic_id")) {
        Ok(topic_id) => Ok(
            GetDailyTracksParams {
                start_date: query_value(pairs, "start_date"),
                end_date: query_value(pairs, "end_date"),
                topic_id,
            },
        ),
        Err(e) => Err(e),
    }
}

/// `percent_encoding::percent_decode` on the bytes of the text, then
/// `decode_utf8`. The contract gives the decoded text a name,
/// `percent_decoded`, and claims nothing else of it.
#[verifier::external_body]
fn percent_decode_utf8(text: &str) -> (decoded: Option<String>)
    ensures
        opt_text_view(decoded) == percent_decoded(text@),
{
    match percent_encoding::percent_decode(text.as_bytes()).decode_utf8() {
        Ok(s) => Some(s.into_owned()),
        Err(_) => None,
    }
}

/// `url::form_urlencoded::parse` on the bytes of the query, and each pair
/// that it yields copied into owned strings. The contract gives the pairs a
/// name, `query_pairs`, and claims nothing else of them.
#[verifier::external_body]
fn parse_query(query: &str) -> (pairs: Vec<(String, String)>)
    ensures
        pairs_view(pairs@) == query_pairs(query@),
{
    let mut pairs = Vec::new();
    for (name, value) in url::form_urlencoded::parse(query.as_bytes()) {
        pairs.push((name.into_owned(), value.into_owned()));
    }
    pairs
}

/// The body of a request, as far as it was read before the router sees it.
#[derive(Debug)]
pub enum RequestBody {
    /// The request has no body.
    Missing,
    /// The body is not what the operation takes; the text says why.
    Unreadable(String),
    /// The body of a request to create a topic.
    Topic(CreateTopicRequest),
    /// The body of a request to create a daily track.
    DailyTrack(CreateDailyTrackRequest),
}

/// A request.
#[derive(Debug)]
pub struct Request {
    pub method: Method,
    /// The path of the request, without the query.
    pub path: String,
    /// The query of the request as it was sent, without the question mark.
    pub query: String,
    pub body: RequestBody,
}

/// What the body of a request holds.
pub enum RequestBodyView {
    Missing,
    Unreadable(Seq<char>),
    Topic { topic_name: Seq<char>, parent_topic_id: Option<i64> },
    DailyTrack { start_time: DateTime, topic_id: i64, comment: Option<Seq<char>> },
}

impl View for RequestBody {
    type V = RequestBodyView;

    open spec fn view(&self) -> RequestBodyView {
        match self {
            RequestBody::Missing => RequestBodyView::Missing,
            RequestBody::Unreadable(why) => RequestBodyView::Unreadable(why@),
            RequestBody::Topic(r) => RequestBodyView::Topic {
                topic_name: r.topic_name@,
                parent_topic_id: r.parent_topic_id,
            },
            RequestBody::DailyTrack(r) => RequestBodyView::DailyTrack {
                start_time: r.start_time.utc,
                topic_id: r.topic_id,
                comment: opt_text_view(r.comment),
            },
        }
    }
}

/// The message for a body of the wrong kind.
pub open spec fn wrong_body_message() -> Seq<char> {
    unreadable_body_message("the body is of another operation"@)
}

/// The message for a start time that is no day of the calendar or no time
/// of day.
pub open spec fn invalid_start_time_message() -> Seq<char> {
    unreadable_body_message("start_time is out of range"@)
}

/// Why a body cannot be used to create a topic, if it cannot.
pub open spec fn topic_body_refused(body: RequestBodyView) -> Option<Failure> {
    match body {
        RequestBodyView::Topic { .. } => None,
        RequestBodyView::Missing => Some((ErrorKind::BadRequest, missing_body_message())),
        RequestBodyView::Unreadable(why) => Some(
            (ErrorKind::BadRequest, unreadable_body_message(why)),
        ),
        RequestBodyView::DailyTrack { .. } => Some((ErrorKind::BadRequest, wrong_body_message())),
    }
}

/// Why a body cannot be used to create a daily track, if it cannot.
pub open spec fn daily_track_body_refused(body: RequestBodyView) -> Option<Failure> {
    match body {
        RequestBodyView::DailyTrack { start_time, .. } => if start_time.wf() {
            None
        } else {
            Some((ErrorKind::BadRequest, invalid_start_time_message()))
        },
        RequestBodyView::Missing => Some((ErrorKind::BadRequest, missing_body_message())),
        RequestBodyView::Unreadable(why) => Some(
            (ErrorKind::BadRequest, unreadable_body_message(why)),
        ),
        RequestBodyView::Topic { .. } => Some((ErrorKind::BadRequest, wrong_body_message())),
    }
}

/// What is sent for an operation on the tables `s`, given the pairs of the
/// query and what the identifier of the path decodes to. A creation is made
/// under the identifier `id` at the time `now`.
pub open spec fn operation_sent(
    s: StoreView,
    operation: Operation,
    route: RouteView,
    pairs: Seq<(Seq<char>, Seq<char>)>,
    body: RequestBodyView,
    id: Seq<u8>,
    now: DateTime,
) -> (u16, BodyView) {
    match operation {
        Operation::CreateDailyTrack => match daily_track_body_refused(body) {
            Some(e) => error_sent(e),
            None => created_daily_track_sent(
                handler::daily_track_request_handled(
                    s,
                    body->DailyTrack_start_time,
                    body->DailyTrack_topic_id,
                    body->DailyTrack_comment,
                    id,
                    now,
                ),
            ),
        },
        Operation::GetDailyTracks => match daily_tracks_params_of(pairs) {
            Err(e) => error_sent(e),
            Ok(params) => daily_tracks_sent(
                handler::daily_tracks_listing(s, params.0, params.1, params.2),
            ),
        },
        Operation::GetDailyTrackById => match path_id_of(
            route->DailyTrackById_0,
            percent_decoded(route->DailyTrackById_0),
        ) {
            Err(e) => error_sent(e),
            Ok(number) => daily_track_sent(
                handler::daily_track_response(
                    number,
                    Ok(crate::db::find_daily_track(s.daily_tracks, number)),
                ),
            ),
        },
        Operation::CreateTopic => match topic_body_refused(body) {
            Some(e) => error_sent(e),
            None => created_topic_sent(
                handler::topic_request_handled(
                    s,
                    body->Topic_topic_name,
                    body->Topic_parent_topic_id,
                    id,
                    now,
                ),
            ),
        },
        Operation::GetTopics => match topics_params_of(pairs) {
            Err(e) => error_sent(e),
            Ok(parent) => topics_sent(
                Ok(handler::external_topics(crate::db::selected_topics(s.topics, parent))),
            ),
        },
        Operation::GetTopicById => match path_id_of(
            route->TopicById_0,
            percent_decoded(route->TopicById_0),
        ) {
            Err(e) => error_sent(e),
            Ok(number) => topic_sent(
                handler::topic_response(number, Ok(crate::db::find_topic(s.topics, number))),
            ),
        },
    }
}

/// The tables after an operation: only a creation whose body can be used
/// may change them.
pub open spec fn after_operation(
    s: StoreView,
    operation: Operation,
    body: RequestBodyView,
    id: Seq<u8>,
    now: DateTime,
) -> StoreView {
    match operation {
        Operation::CreateDailyTrack => if daily_track_body_refused(body) is None {
            handler::after_daily_track_request(
                s,
                body->DailyTrack_start_time,
                body->DailyTrack_topic_id,
                body->DailyTrack_comment,
                id,
                now,
            )
        } else {
            s
        },
        Operation::CreateTopic => if topic_body_refused(body) is None {
            handler::after_topic_request(
                s,
                body->Topic_topic_name,
                body->Topic_parent_topic_id,
                id,
                now,
            )
        } else {
            s
        },
        _ => s,
    }
}

/// What is sent for a request: not found, with an empty body, where the path
/// is no route; method not allowed, with an empty body, where the route
/// does not take the method; else what the operation sends.
pub open spec fn dispatched(
    s: StoreView,
    method: Method,
    path: Seq<char>,
    query: Seq<char>,
    body: RequestBodyView,
    id: Seq<u8>,
    now: DateTime,
) -> (u16, BodyView) {
    match route_of(path) {
        None => (NOT_FOUND, BodyView::Empty),
        Some(route) => match operation_of(method, route) {
            None => (METHOD_NOT_ALLOWED, BodyView::Empty),
            Some(operation) => operation_sent(
                s,
                operation,
                route,
                query_pairs(query),
                body,
                id,
                now,
            ),
        },
    }
}

/// The tables after a request.
pub open spec fn after_dispatch(
    s: StoreView,
    method: Method,
    path: Seq<char>,
    body: RequestBodyView,
    id: Seq<u8>,
    now: DateTime,
) -> StoreView {
    match requested_operation(method, path) {
        Some(operation) => after_operation(s, operation, body, id, now),
        None => s,
    }
}

/// A bad request with the given message.
fn bad_request(message: String) -> (response: Response)
    ensures
        response@ == error_sent((ErrorKind::BadRequest, message@)),
{
    error_response(ApiError::BadRequest(message))
}

/// Answers a request to create a topic.
fn serve_create_topic(store: &mut Store, body: RequestBody, id: Vec<u8>, now: DateTime) -> (response:
    Response)
    requires
        old(store)@.wf(),
        id@.len() == ID_LEN,
    ensures
        response@ == operation_sent(
            old(store)@,
            Operation::CreateTopic,
            RouteView::Topics,
            Seq::empty(),
            body@,
            id@,
            now,
        ),
        final(store)@ == after_operation(old(store)@, Operation::CreateTopic, body@, id@, now),
        final(store)@.wf(),
{
    match body {
        RequestBody::Topic(req) => {
            let answer = handler::create_topic_with(store, req, id, now);
            CreateTopicResponse::from_answer(answer).into_response()
        },
        RequestBody::Missing => bad_request(String::from_str("Missing required body parameter body")),
        RequestBody::Unreadable(why) => bad_request(
            concat2("Couldn't parse body parameter body - doesn't match schema: ", why.as_str()),
        ),
        RequestBody::DailyTrack(_) => bad_request(
            concat2(
                "Couldn't parse body parameter body - doesn't match schema: ",
                "the body is of another operation",
            ),
        ),
    }
}

/// Answers a request to create a daily track.
fn serve_create_daily_track(
    store: &mut Store,
    body: RequestBody,
    id: Vec<u8>,
    now: DateTime,
) -> (response: Response)
    requires
        old(store)@.wf(),
        id@.len() == ID_LEN,
    ensures
        response@ == operation_sent(
            old(store)@,
            Operation::CreateDailyTrack,
            RouteView::DailyTracks,
            Seq::empty(),
            body@,
            id@,
            now,
        ),
        final(store)@ == after_operation(
            old(store)@,
            Operation::CreateDailyTrack,
            body@,
            id@,
            now,
        ),
        final(store)@.wf(),
{
    match body {
        RequestBody::DailyTrack(req) => {
            if !req.start_time.utc.is_valid() {
                return bad_request(
                    concat2(
                        "Couldn't parse body parameter body - doesn't match schema: ",
                        "start_time is out of range",
                    ),
                );
            }
            let answer = handler::create_daily_track_with(store, req, id, now);
            CreateDailyTrackResponse::from_answer(answer).into_response()
        },
        RequestBody::Missing => bad_request(String::from_str("Missing required body parameter body")),
        RequestBody::Unreadable(why) => bad_request(
            concat2("Couldn't parse body parameter body - doesn't match schema: ", why.as_str()),
        ),
        RequestBody::Topic(_) => bad_request(
            concat2(
                "Couldn't parse body parameter body - doesn't match schema: ",
                "the body is of another operation",
            ),
        ),
    }
}

/// Answers a request under the identifier `id` at the time `now`, which a
/// creation uses.
///
/// A path that is no route is not found, and a route that does not take the
/// method answers that the method is not allowed, both with an empty body.
/// An identifier in the path or a number in the query that does not parse, a
/// date that does not parse, and a creation without a usable body are bad
/// requests. Otherwise the handler of the operation decides.
pub fn dispatch_with(store: &mut Store, request: Request, id: Vec<u8>, now: DateTime) -> (response:
    Response)
    requires
        old(store)@.wf(),
        id@.len() == ID_LEN,
    ensures
        response@ == dispatched(
            old(store)@,
            request.method,
            request.path@,
            request.query@,
            request.body@,
            id@,
            now,
        ),
        final(store)@ == after_dispatch(
            old(store)@,
            request.method,
            request.path@,
            request.body@,
            id@,
            now,
        ),
        final(store)@.wf(),
{
    let route = match match_route(request.path.as_str()) {
        Some(route) => route,
        None => {
            return Response { status: NOT_FOUND, body: ResponseBody::Empty };
        },
    };
    let operation = match operation_for(request.method, &route) {
        Some(operation) => operation,
        None => {
            return Response { status: METHOD_NOT_ALLOWED, body: ResponseBody::Empty };
        },
    };
    match operation {
        Operation::CreateDailyTrack => serve_create_daily_track(store, request.body, id, now),
        Operation::CreateTopic => serve_create_topic(store, request.body, id, now),
        Operation::GetDailyTracks => {
            let pairs = parse_query(request.query.as_str());
            match daily_tracks_params(&pairs) {
                Err(e) => error_response(e),
                Ok(params) => GetDailyTracksResponse::from_answer(
                    handler::get_daily_tracks(store, params),
                ).into_response(),
            }
        },
        Operation::GetTopics => {
            let pairs = parse_query(request.query.as_str());
            match topics_params(&pairs) {
                Err(e) => error_response(e),
                Ok(params) => GetTopicsResponse::from_answer(
                    handler::get_topics(store, params),
                ).into_response(),
            }
        },
        Operation::GetDailyTrackById => {
            let segment = match route {
                Route::DailyTrackById(segment) => segment,
                _ => String::new(),
            };
            let decoded = percent_decode_utf8(segment.as_str());
            match path_id(segment.as_str(), decoded) {
                Err(e) => error_response(e),
                Ok(number) => GetDailyTrackByIdResponse::from_answer(
                    handler::get_daily_track_by_id(store, number),
                ).into_response(),
            }
        },
        Operation::GetTopicById => {
            let segment = match route {
                Route::TopicById(segment) => segment,
                _ => String::new(),
            };
            let decoded = percent_decode_utf8(segment.as_str());
            match path_id(segment.as_str(), decoded) {
                Err(e) => error_response(e),
                Ok(number) => GetTopicByIdResponse::from_answer(
                    handler::get_topic_by_id(store, number),
                ).into_response(),
            }
        },
    }
}

/// A request was answered under the identifier `id` at the time `now`: it
/// took the tables from `s` to `after` and `sent` was sent.
pub open spec fn dispatch_done(
    s: StoreView,
    method: Method,
    path: Seq<char>,
    query: Seq<char>,
    body: RequestBodyView,
    id: Seq<u8>,
    now: DateTime,
    sent: (u16, BodyView),
    after: StoreView,
) -> bool {
    &&& id.len() == ID_LEN
    &&& now.wf()
    &&& sent == dispatched(s, method, path, query, body, id, now)
    &&& after == after_dispatch(s, method, path, body, id, now)
}

/// Answers a request. A creation is made under a newly drawn identifier, at
/// the current time: for some identifier and some time, the call did what
/// `dispatch_with` does with them.
pub fn dispatch(store: &mut Store, request: Request) -> (response: Response)
    requires
        old(store)@.wf(),
    ensures
        exists|id: Seq<u8>, now: DateTime| #[trigger]
            dispatch_done(
                old(store)@,
                request.method,
                request.path@,
                request.query@,
                request.body@,
                id,
                now,
                response@,
                final(store)@,
            ),
        final(store)@.wf(),
{
    let id = fresh_id();
    let now = DateTime::now();
    let ghost id_view = id@;
    let ghost method = request.method;
    let ghost path = request.path@;
    let ghost query = request.query@;
    let ghost body = request.body@;
    let response = dispatch_with(store, request, id, now);
    proof {
        assert(dispatch_done(
            old(store)@,
            method,
            path,
            query,
            body,
            id_view,
            now,
            response@,
            store@,
        ));
    }
    response
}

/// What is sent where the store fails while an operation is served: a
/// conflict where a creation meets a unique violation, else an internal
/// server error that says what was being done.
pub open spec fn storage_failure_sent(
    operation: Operation,
    e: (crate::db::StorageErrorKind, Seq<char>),
) -> (u16, BodyView) {
    match operation {
        Operation::CreateDailyTrack => created_daily_track_sent(
            handler::created_daily_track_response(Err(e)),
        ),
        Operation::GetDailyTracks => daily_tracks_sent(handler::daily_tracks_response(Err(e))),
        Operation::GetDailyTrackById => daily_track_sent(handler::daily_track_response(0, Err(e))),
        Operation::CreateTopic => created_topic_sent(handler::created_topic_response(Err(e))),
        Operation::GetTopics => topics_sent(handler::topics_response(Err(e))),
        Operation::GetTopicById => topic_sent(handler::topic_response(0, Err(e))),
    }
}

/// The response to a failure of the store while an operation is served.
pub fn storage_failure_response(operation: Operation, e: crate::db::StorageError) -> (response:
    Response)
    ensures
        response@ == storage_failure_sent(operation, e@),
{
    match operation {
        Operation::CreateDailyTrack => CreateDailyTrackResponse::from_answer(
            handler::create_daily_track_response(Err(e)),
        ).into_response(),
        Operation::GetDailyTracks => GetDailyTracksResponse::from_answer(
            handler::get_daily_tracks_response(Err(e)),
        ).into_response(),
        Operation::GetDailyTrackById => GetDailyTrackByIdResponse::from_answer(
            handler::get_daily_track_by_id_response(0, Err(e)),
        ).into_response(),
        Operation::CreateTopic => CreateTopicResponse::from_answer(
            handler::create_topic_response(Err(e)),
        ).into_response(),
        Operation::GetTopics => GetTopicsResponse::from_answer(
            handler::get_topics_response(Err(e)),
        ).into_response(),
        Operation::GetTopicById => GetTopicByIdResponse::from_answer(
            handler::get_topic_by_id_response(0, Err(e)),
        ).into_response(),
    }
}

/// The row that a request has added to the tables.
#[derive(Debug)]
pub enum Created {
    Nothing,
    Topic(crate::db_model::Topic),
    DailyTrack(crate::db_model::DailyTrack),
}

/// What a created row holds.
pub enum CreatedView {
    Nothing,
    Topic(crate::db_model::TopicView),
    DailyTrack(crate::db_model::DailyTrackView),
}

impl View for Created {
    type V = CreatedView;

    open spec fn view(&self) -> CreatedView {
        match self {
            Created::Nothing => CreatedView::Nothing,
            Created::Topic(row) => CreatedView::Topic(row@),
            Created::DailyTrack(row) => CreatedView::DailyTrack(row@),
        }
    }
}

/// The row behind a response that reports a creation: the row of the tables
/// with the number of the topic or of the daily track that the response
/// carries. Nothing for any other response.
pub open spec fn row_behind(s: StoreView, sent: (u16, BodyView)) -> CreatedView {
    if sent.0 != handler::CREATED {
        CreatedView::Nothing
    } else {
        match sent.1 {
            BodyView::Topic(topic) => match crate::db::find_topic(s.topics, topic.id) {
                Some(row) => CreatedView::Topic(row),
                None => CreatedView::Nothing,
            },
            BodyView::DailyTrack(track) => match crate::db::find_daily_track(
                s.daily_tracks,
                track.id,
            ) {
                Some(row) => CreatedView::DailyTrack(row),
                None => CreatedView::Nothing,
            },
            _ => CreatedView::Nothing,
        }
    }
}

/// The row that the request behind a response has added to the tables, for
/// a caller that keeps the tables elsewhere too.
pub fn created_row(store: &Store, response: &Response) -> (created: Created)
    requires
        store@.wf(),
    ensures
        created@ == row_behind(store@, response@),
{
    if response.status != handler::CREATED {
        return Created::Nothing;
    }
    match &response.body {
        ResponseBody::Topic(topic) => match crate::db::get_topic_by_id(store, topic.id) {
            Some(row) => Created::Topic(row),
            None => Created::Nothing,
        },
        ResponseBody::DailyTrack(track) => match crate::db::get_daily_track_by_id(store, track.id) {
            Some(row) => Created::DailyTrack(row),
            None => Created::Nothing,
        },
        _ => Created::Nothing,
    }
}

} // verus!
