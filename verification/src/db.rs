//! The storage layer: the two tables, and the six operations on them.
//!
//! A table is a sequence of rows in the order in which they were inserted.
//! No two topics share a name, no two daily tracks share a start time, and
//! within a table no two rows share the number of their identifier, so that a
//! number names at most one row.

use crate::db_model::{
    fresh_id, opt_bytes_view, opt_text_view, reference_has_number, DailyTrack,
    DailyTrackView, Topic, TopicView,
};
use crate::ident::{external_id, i64_be_bytes, i64_to_binary, vec_u8_to_i64, ID_LEN, PREFIX_LEN};
use crate::text::concat3;
use crate::time::{format_datetime, Date, DateTime};
use vstd::prelude::*;

verus! {

/// The two kinds of storage failure that the handlers tell apart.
#[derive(Clone, Copy, Debug, PartialEq, Eq, Structural)]
pub enum StorageErrorKind {
    UniqueViolation,
    Backend,
}

/// A failed storage operation, with the message of the store.
#[derive(Debug)]
pub enum StorageError {
    /// A row with the same unique value is already there.
    UniqueViolation(String),
    /// Any other failure of the store or of the connection to it.
    Backend(String),
}

impl View for StorageError {
    type V = (StorageErrorKind, Seq<char>);

    open spec fn view(&self) -> (StorageErrorKind, Seq<char>) {
        match self {
            StorageError::UniqueViolation(m) => (StorageErrorKind::UniqueViolation, m@),
            StorageError::Backend(m) => (StorageErrorKind::Backend, m@),
        }
    }
}

impl StorageError {
    /// The message of the store.
    pub fn to_string(&self) -> (message: String)
        ensures
            message@ == self@.1,
    {
        match self {
            StorageError::UniqueViolation(m) => m.clone(),
            StorageError::Backend(m) => m.clone(),
        }
    }

    /// Whether a unique value was already there.
    pub fn is_unique_violation(&self) -> (b: bool)
        ensures
            b == (self@.0 == StorageErrorKind::UniqueViolation),
    {
        match self {
            StorageError::UniqueViolation(_) => true,
            StorageError::Backend(_) => false,
        }
    }
}

/// The identifier `id` is shown under the number `number`.
pub open spec fn has_number(id: Seq<u8>, number: i64) -> bool {
    id.len() >= PREFIX_LEN && external_id(id) == number
}

/// There is a reference, and it is to the row with the number `number`.
pub open spec fn refers_to(reference: Option<Seq<u8>>, number: i64) -> bool {
    reference matches Some(b) && has_number(b, number)
}

/// The reference under which the number `number` is stored, where there is one.
pub open spec fn stored_reference(number: Option<i64>) -> Option<Seq<u8>> {
    match number {
        Some(n) => Some(i64_be_bytes(n)),
        None => None,
    }
}

/// The topic row passes the filter: there is none, or the row is a child of
/// the topic with the number `parent`.
pub open spec fn topic_selected(row: TopicView, parent: Option<i64>) -> bool {
    parent matches Some(p) ==> refers_to(row.parent_topic_id, p)
}

/// The daily track row passes the three filters, each of which is optional:
/// it starts on the day `start` or later, on the day `end` or earlier (up to
/// that day's last whole second), and it belongs to the topic `topic`.
pub open spec fn track_selected(
    row: DailyTrackView,
    start: Option<Date>,
    end: Option<Date>,
    topic: Option<i64>,
) -> bool {
    &&& start matches Some(d) ==> d.start_of_day().is_at_or_before(row.start_time)
    &&& end matches Some(d) ==> row.start_time.is_at_or_before(d.end_of_day())
    &&& topic matches Some(t) ==> refers_to(row.topic_id, t)
}

/// The first element of `s` for which `p` holds.
pub open spec fn find_first<T>(s: Seq<T>, p: spec_fn(T) -> bool) -> Option<T>
    decreases s.len(),
{
    if s.len() == 0 {
        None
    } else {
        match find_first(s.drop_last(), p) {
            Some(x) => Some(x),
            None => if p(s.last()) {
                Some(s.last())
            } else {
                None
            },
        }
    }
}

/// The topic row with the number `number`.
pub open spec fn find_topic(rows: Seq<TopicView>, number: i64) -> Option<TopicView> {
    find_first(rows, |r: TopicView| has_number(r.id, number))
}

/// The daily track row with the number `number`.
pub open spec fn find_daily_track(rows: Seq<DailyTrackView>, number: i64) -> Option<
    DailyTrackView,
> {
    find_first(rows, |r: DailyTrackView| has_number(r.id, number))
}

/// Some topic row has the name `name`.
pub open spec fn name_taken(rows: Seq<TopicView>, name: Seq<char>) -> bool {
    exists|i: int| 0 <= i < rows.len() && (#[trigger] rows[i]).topic_name == name
}

/// Some daily track row starts at `start_time`.
pub open spec fn slot_taken(rows: Seq<DailyTrackView>, start_time: DateTime) -> bool {
    exists|i: int| 0 <= i < rows.len() && (#[trigger] rows[i]).start_time == start_time
}

/// Some topic row has the number `number`.
pub open spec fn topic_number_taken(rows: Seq<TopicView>, number: i64) -> bool {
    exists|i: int| 0 <= i < rows.len() && has_number((#[trigger] rows[i]).id, number)
}

/// Some daily track row has the number `number`.
pub open spec fn track_number_taken(rows: Seq<DailyTrackView>, number: i64) -> bool {
    exists|i: int| 0 <= i < rows.len() && has_number((#[trigger] rows[i]).id, number)
}

/// The message of the store when a topic name is already there.
pub open spec fn name_taken_message(name: Seq<char>) -> Seq<char> {
    "Topic with name '"@ + name + "' already exists"@
}

/// The message of the store when a start time is already there.
pub open spec fn slot_taken_message(start_time: DateTime) -> Seq<char> {
    "A record already exists for time period "@ + start_time.text()
}

/// The message of the store when the number of a new identifier is already
/// there.
pub open spec fn duplicate_key_message() -> Seq<char> {
    "Duplicate entry for key 'PRIMARY'"@
}

/// What the two tables hold.
pub struct StoreView {
    pub topics: Seq<TopicView>,
    pub daily_tracks: Seq<DailyTrackView>,
}

impl StoreView {
    /// Every row is one that the store writes, and within a table the
    /// numbers, the topic names and the start times are each unique.
    pub open spec fn wf(&self) -> bool {
        &&& forall|i: int| 0 <= i < self.topics.len() ==> (#[trigger] self.topics[i]).wf()
        &&& forall|i: int, j: int|
            0 <= i < j < self.topics.len() ==> external_id((#[trigger] self.topics[i]).id)
                != external_id((#[trigger] self.topics[j]).id)
        &&& forall|i: int, j: int|
            0 <= i < j < self.topics.len() ==> (#[trigger] self.topics[i]).topic_name != (
            #[trigger] self.topics[j]).topic_name
        &&& forall|i: int|
            0 <= i < self.daily_tracks.len() ==> (#[trigger] self.daily_tracks[i]).wf()
        &&& forall|i: int, j: int|
            0 <= i < j < self.daily_tracks.len() ==> external_id(
                (#[trigger] self.daily_tracks[i]).id,
            ) != external_id((#[trigger] self.daily_tracks[j]).id)
        &&& forall|i: int, j: int|
            0 <= i < j < self.daily_tracks.len() ==> (#[trigger] self.daily_tracks[i]).start_time
                != (#[trigger] self.daily_tracks[j]).start_time
    }

    /// The tables with one more topic.
    pub open spec fn with_topic(&self, row: TopicView) -> StoreView {
        StoreView { topics: self.topics.push(row), daily_tracks: self.daily_tracks }
    }

    /// The tables with one more daily track.
    pub open spec fn with_daily_track(&self, row: DailyTrackView) -> StoreView {
        StoreView { topics: self.topics, daily_tracks: self.daily_tracks.push(row) }
    }
}

/// What a list of topic rows holds.
pub open spec fn topics_view(rows: Seq<Topic>) -> Seq<TopicView> {
    rows.map_values(|r: Topic| r@)
}

/// What a list of daily track rows holds.
pub open spec fn daily_tracks_view(rows: Seq<DailyTrack>) -> Seq<DailyTrackView> {
    rows.map_values(|r: DailyTrack| r@)
}

/// What an optional topic row holds.
pub open spec fn opt_topic_view(row: Option<Topic>) -> Option<TopicView> {
    match row {
        Some(r) => Some(r@),
        None => None,
    }
}

/// What an optional daily track row holds.
pub open spec fn opt_daily_track_view(row: Option<DailyTrack>) -> Option<DailyTrackView> {
    match row {
        Some(r) => Some(r@),
        None => None,
    }
}

/// The topic table and the daily track table.
pub struct Store {
    topics: Vec<Topic>,
    daily_tracks: Vec<DailyTrack>,
}

impl View for Store {
    type V = StoreView;

    closed spec fn view(&self) -> StoreView {
        StoreView {
            topics: topics_view(self.topics@),
            daily_tracks: daily_tracks_view(self.daily_tracks@),
        }
    }
}

impl Store {
    /// Two empty tables.
    pub fn new() -> (store: Store)
        ensures
            store@.topics.len() == 0,
            store@.daily_tracks.len() == 0,
            store@.wf(),
    {
        Store { topics: Vec::new(), daily_tracks: Vec::new() }
    }

    /// The number of topics.
    pub fn topic_count(&self) -> (n: usize)
        ensures
            n == self@.topics.len(),
    {
        self.topics.len()
    }

    /// The number of daily tracks.
    pub fn daily_track_count(&self) -> (n: usize)
        ensures
            n == self@.daily_tracks.len(),
    {
        self.daily_tracks.len()
    }
}

/// The topic rows that pass the filter, in table order.
pub open spec fn selected_topics(rows: Seq<TopicView>, parent: Option<i64>) -> Seq<TopicView> {
    rows.filter(|r: TopicView| topic_selected(r, parent))
}

/// The daily track rows that pass the filters, in table order.
pub open spec fn selected_daily_tracks(
    rows: Seq<DailyTrackView>,
    start: Option<Date>,
    end: Option<Date>,
    topic: Option<i64>,
) -> Seq<DailyTrackView> {
    rows.filter(|r: DailyTrackView| track_selected(r, start, end, topic))
}

/// The row that a new topic gets.
pub open spec fn new_topic_row(
    name: Seq<char>,
    parent: Option<i64>,
    id: Seq<u8>,
    now: DateTime,
) -> TopicView {
    TopicView {
        id,
        topic_name: name,
        created_at: now,
        updated_at: None,
        parent_topic_id: stored_reference(parent),
    }
}

/// The row that a new daily track gets.
pub open spec fn new_daily_track_row(
    start_time: DateTime,
    topic_id: Option<Seq<u8>>,
    comment: Option<Seq<char>>,
    id: Seq<u8>,
    now: DateTime,
) -> DailyTrackView {
    DailyTrackView { id, start_time, created_at: now, updated_at: None, topic_id, comment }
}

/// How the creation of a topic ends: with the new row, or with the unique
/// value that was already there. The name is looked at first.
pub open spec fn topic_creation(
    s: StoreView,
    name: Seq<char>,
    parent: Option<i64>,
    id: Seq<u8>,
    now: DateTime,
) -> Result<TopicView, (StorageErrorKind, Seq<char>)> {
    if name_taken(s.topics, name) {
        Err((StorageErrorKind::UniqueViolation, name_taken_message(name)))
    } else if topic_number_taken(s.topics, external_id(id) as i64) {
        Err((StorageErrorKind::UniqueViolation, duplicate_key_message()))
    } else {
        Ok(new_topic_row(name, parent, id, now))
    }
}

/// The tables after the creation of a topic: one more row where it
/// succeeded, the same tables where it did not.
pub open spec fn after_topic_creation(
    s: StoreView,
    name: Seq<char>,
    parent: Option<i64>,
    id: Seq<u8>,
    now: DateTime,
) -> StoreView {
    match topic_creation(s, name, parent, id, now) {
        Ok(row) => s.with_topic(row),
        Err(_) => s,
    }
}

/// How the creation of a daily track ends: with the new row, or with the
/// unique value that was already there. The start time is looked at first.
pub open spec fn daily_track_creation(
    s: StoreView,
    start_time: DateTime,
    topic_id: Option<Seq<u8>>,
    comment: Option<Seq<char>>,
    id: Seq<u8>,
    now: DateTime,
) -> Result<DailyTrackView, (StorageErrorKind, Seq<char>)> {
    if slot_taken(s.daily_tracks, start_time) {
        Err((StorageErrorKind::UniqueViolation, slot_taken_message(start_time)))
    } else if track_number_taken(s.daily_tracks, external_id(id) as i64) {
        Err((StorageErrorKind::UniqueViolation, duplicate_key_message()))
    } else {
        Ok(new_daily_track_row(start_time, topic_id, comment, id, now))
    }
}

/// The tables after the creation of a daily track.
pub open spec fn after_daily_track_creation(
    s: StoreView,
    start_time: DateTime,
    topic_id: Option<Seq<u8>>,
    comment: Option<Seq<char>>,
    id: Seq<u8>,
    now: DateTime,
) -> StoreView {
    match daily_track_creation(s, start_time, topic_id, comment, id, now) {
        Ok(row) => s.with_daily_track(row),
        Err(_) => s,
    }
}

/// What the result of a topic creation holds.
pub open spec fn topic_result_view(r: Result<Topic, StorageError>) -> Result<
    TopicView,
    (StorageErrorKind, Seq<char>),
> {
    match r {
        Ok(row) => Ok(row@),
        Err(e) => Err(e@),
    }
}

/// What the result of a daily track creation holds.
pub open spec fn daily_track_result_view(r: Result<DailyTrack, StorageError>) -> Result<
    DailyTrackView,
    (StorageErrorKind, Seq<char>),
> {
    match r {
        Ok(row) => Ok(row@),
        Err(e) => Err(e@),
    }
}

/// The creation of a topic under the identifier `id` at the time `now` took
/// the tables from `s` to `after` and ended in `result`.
pub open spec fn topic_created(
    s: StoreView,
    name: Seq<char>,
    parent: Option<i64>,
    id: Seq<u8>,
    now: DateTime,
    result: Result<TopicView, (StorageErrorKind, Seq<char>)>,
    after: StoreView,
) -> bool {
    &&& id.len() == ID_LEN
    &&& now.wf()
    &&& result == topic_creation(s, name, parent, id, now)
    &&& after == after_topic_creation(s, name, parent, id, now)
}

/// The creation of a daily track under the identifier `id` at the time `now`
/// took the tables from `s` to `after` and ended in `result`.
pub open spec fn daily_track_created(
    s: StoreView,
    start_time: DateTime,
    topic_id: Option<Seq<u8>>,
    comment: Option<Seq<char>>,
    id: Seq<u8>,
    now: DateTime,
    result: Result<DailyTrackView, (StorageErrorKind, Seq<char>)>,
    after: StoreView,
) -> bool {
    &&& id.len() == ID_LEN
    &&& now.wf()
    &&& result == daily_track_creation(s, start_time, topic_id, comment, id, now)
    &&& after == after_daily_track_creation(s, start_time, topic_id, comment, id, now)
}

/// Whether the identifier has the number.
fn id_has_number(id: &Vec<u8>, number: i64) -> (b: bool)
    requires
        id@.len() >= PREFIX_LEN,
    ensures
        b == has_number(id@, number),
{
    vec_u8_to_i64(id.as_slice()) == number
}

/// Whether there is a reference to the row with the number.
fn reference_is(reference: &Option<Vec<u8>>, number: i64) -> (b: bool)
    requires
        reference_has_number(opt_bytes_view(*reference)),
    ensures
        b == refers_to(opt_bytes_view(*reference), number),
{
    match reference {
        Some(bytes) => id_has_number(bytes, number),
        None => false,
    }
}

/// Whether the topic row passes the filter.
fn topic_row_selected(row: &Topic, parent: Option<i64>) -> (b: bool)
    requires
        row@.wf(),
    ensures
        b == topic_selected(row@, parent),
{
    match parent {
        Some(p) => reference_is(&row.parent_topic_id, p),
        None => true,
    }
}

/// Whether the daily track row passes the filters.
fn track_row_selected(
    row: &DailyTrack,
    start: Option<Date>,
    end: Option<Date>,
    topic: Option<i64>,
) -> (b: bool)
    requires
        row@.wf(),
    ensures
        b == track_selected(row@, start, end, topic),
{
    if let Some(d) = start {
        let from = d.and_hms_opt(0, 0, 0).unwrap();
        if !row.start_time.ge(&from) {
            return false;
        }
    }
    if let Some(d) = end {
        let to = d.and_hms_opt(23, 59, 59).unwrap();
        if !row.start_time.le(&to) {
            return false;
        }
    }
    match topic {
        Some(t) => reference_is(&row.topic_id, t),
        None => true,
    }
}

/// All topics, or the children of one topic, in table order.
pub fn get_topics(store: &Store, parent_topic_id: Option<i64>) -> (rows: Vec<Topic>)
    requires
        store@.wf(),
    ensures
        topics_view(rows@) == selected_topics(store@.topics, parent_topic_id),
        forall|i: int| 0 <= i < rows@.len() ==> (#[trigger] rows@[i])@.wf(),
{
    let ghost all = store@.topics;
    let mut rows: Vec<Topic> = Vec::new();
    let mut i: usize = 0;
    proof {
        reveal(Seq::filter);
        assert(all.take(0) =~= Seq::<TopicView>::empty());
        assert(topics_view(rows@) =~= selected_topics(all.take(0), parent_topic_id));
    }
    while i < store.topics.len()
        invariant
            i <= store.topics@.len(),
            all == topics_view(store.topics@),
            store@.wf(),
            all == store@.topics,
            topics_view(rows@) == selected_topics(all.take(i as int), parent_topic_id),
            forall|k: int| 0 <= k < rows@.len() ==> (#[trigger] rows@[k])@.wf(),
        decreases store.topics@.len() - i,
    {
        let row = &store.topics[i];
        let ghost before = rows@;
        proof {
            assert(all[i as int] == row@);
            assert(all[i as int].wf());
        }
        let keep = topic_row_selected(row, parent_topic_id);
        if keep {
            rows.push(row.clone());
        }
        proof {
            reveal(Seq::filter);
            let next = all.take(i + 1);
            assert(next.drop_last() =~= all.take(i as int));
            assert(next.last() == all[i as int]);
            if keep {
                assert(topics_view(rows@) =~= topics_view(before).push(row@));
            }
        }
        i = i + 1;
    }
    proof {
        assert(all.take(i as int) =~= all);
    }
    rows
}

/// The topic with the number `id`, if there is one.
pub fn get_topic_by_id(store: &Store, id: i64) -> (row: Option<Topic>)
    requires
        store@.wf(),
    ensures
        opt_topic_view(row) == find_topic(store@.topics, id),
        row matches Some(r) ==> r@.wf(),
{
    let ghost all = store@.topics;
    let mut found: Option<Topic> = None;
    let mut i: usize = 0;
    proof {
        assert(all.take(0) =~= Seq::<TopicView>::empty());
    }
    while i < store.topics.len()
        invariant
            i <= store.topics@.len(),
            all == topics_view(store.topics@),
            all == store@.topics,
            store@.wf(),
            opt_topic_view(found) == find_topic(all.take(i as int), id),
            found matches Some(r) ==> r@.wf(),
        decreases store.topics@.len() - i,
    {
        let row = &store.topics[i];
        proof {
            assert(all[i as int] == row@);
            assert(all[i as int].wf());
            let next = all.take(i + 1);
            assert(next.drop_last() =~= all.take(i as int));
            assert(next.last() == all[i as int]);
        }
        if found.is_none() && id_has_number(&row.id, id) {
            found = Some(row.clone());
        }
        i = i + 1;
    }
    proof {
        assert(all.take(i as int) =~= all);
    }
    found
}

/// The daily tracks that pass the filters, in table order. Each filter is
/// optional: from the first instant of `start_date`, up to the last whole
/// second of `end_date`, and of the topic with the number `topic_id`.
pub fn get_daily_tracks(
    store: &Store,
    start_date: Option<Date>,
    end_date: Option<Date>,
    topic_id: Option<i64>,
) -> (rows: Vec<DailyTrack>)
    requires
        store@.wf(),
    ensures
        daily_tracks_view(rows@) == selected_daily_tracks(
            store@.daily_tracks,
            start_date,
            end_date,
            topic_id,
        ),
        forall|i: int| 0 <= i < rows@.len() ==> (#[trigger] rows@[i])@.wf(),
{
    let ghost all = store@.daily_tracks;
    let mut rows: Vec<DailyTrack> = Vec::new();
    let mut i: usize = 0;
    proof {
        reveal(Seq::filter);
        assert(all.take(0) =~= Seq::<DailyTrackView>::empty());
        assert(daily_tracks_view(rows@) =~= selected_daily_tracks(
            all.take(0),
            start_date,
            end_date,
            topic_id,
        ));
    }
    while i < store.daily_tracks.len()
        invariant
            i <= store.daily_tracks@.len(),
            all == daily_tracks_view(store.daily_tracks@),
            all == store@.daily_tracks,
            store@.wf(),
            daily_tracks_view(rows@) == selected_daily_tracks(
                all.take(i as int),
                start_date,
                end_date,
                topic_id,
            ),
            forall|k: int| 0 <= k < rows@.len() ==> (#[trigger] rows@[k])@.wf(),
        decreases store.daily_tracks@.len() - i,
    {
        let row = &store.daily_tracks[i];
        let ghost before = rows@;
        proof {
            assert(all[i as int] == row@);
            assert(all[i as int].wf());
        }
        let keep = track_row_selected(row, start_date, end_date, topic_id);
        if keep {
            rows.push(row.clone());
        }
        proof {
            reveal(Seq::filter);
            let next = all.take(i + 1);
            assert(next.drop_last() =~= all.take(i as int));
            assert(next.last() == all[i as int]);
            if keep {
                assert(daily_tracks_view(rows@) =~= daily_tracks_view(before).push(row@));
            }
        }
        i = i + 1;
    }
    proof {
        assert(all.take(i as int) =~= all);
    }
    rows
}

/// The daily track with the number `id`, if there is one.
pub fn get_daily_track_by_id(store: &Store, id: i64) -> (row: Option<DailyTrack>)
    requires
        store@.wf(),
    ensures
        opt_daily_track_view(row) == find_daily_track(store@.daily_tracks, id),
        row matches Some(r) ==> r@.wf(),
{
    let ghost all = store@.daily_tracks;
    let mut found: Option<DailyTrack> = None;
    let mut i: usize = 0;
    proof {
        assert(all.take(0) =~= Seq::<DailyTrackView>::empty());
    }
    while i < store.daily_tracks.len()
        invariant
            i <= store.daily_tracks@.len(),
            all == daily_tracks_view(store.daily_tracks@),
            all == store@.daily_tracks,
            store@.wf(),
            opt_daily_track_view(found) == find_daily_track(all.take(i as int), id),
            found matches Some(r) ==> r@.wf(),
        decreases store.daily_tracks@.len() - i,
    {
        let row = &store.daily_tracks[i];
        proof {
            assert(all[i as int] == row@);
            assert(all[i as int].wf());
            let next = all.take(i + 1);
            assert(next.drop_last() =~= all.take(i as int));
            assert(next.last() == all[i as int]);
        }
        if found.is_none() && id_has_number(&row.id, id) {
            found = Some(row.clone());
        }
        i = i + 1;
    }
    proof {
        assert(all.take(i as int) =~= all);
    }
    found
}

/// Whether a topic has the name.
fn topic_name_exists(store: &Store, name: &String) -> (b: bool)
    requires
        store@.wf(),
    ensures
        b == name_taken(store@.topics, name@),
{
    let mut i: usize = 0;
    while i < store.topics.len()
        invariant
            i <= store.topics@.len(),
            forall|k: int| 0 <= k < i ==> (#[trigger] store@.topics[k]).topic_name != name@,
        decreases store.topics@.len() - i,
    {
        proof {
            assert(store@.topics[i as int] == store.topics@[i as int]@);
        }
        if store.topics[i].topic_name == *name {
            return true;
        }
        i = i + 1;
    }
    false
}

/// Whether a topic has the number.
fn topic_number_exists(store: &Store, number: i64) -> (b: bool)
    requires
        store@.wf(),
    ensures
        b == topic_number_taken(store@.topics, number),
{
    let mut i: usize = 0;
    while i < store.topics.len()
        invariant
            i <= store.topics@.len(),
            store@.wf(),
            forall|k: int| 0 <= k < i ==> !has_number((#[trigger] store@.topics[k]).id, number),
        decreases store.topics@.len() - i,
    {
        proof {
            assert(store@.topics[i as int] == store.topics@[i as int]@);
            assert(store@.topics[i as int].wf());
        }
        if id_has_number(&store.topics[i].id, number) {
            return true;
        }
        i = i + 1;
    }
    false
}

/// Whether a daily track starts at the time.
fn slot_exists(store: &Store, start_time: &DateTime) -> (b: bool)
    requires
        store@.wf(),
    ensures
        b == slot_taken(store@.daily_tracks, *start_time),
{
    let mut i: usize = 0;
    while i < store.daily_tracks.len()
        invariant
            i <= store.daily_tracks@.len(),
            forall|k: int|
                0 <= k < i ==> (#[trigger] store@.daily_tracks[k]).start_time != *start_time,
        decreases store.daily_tracks@.len() - i,
    {
        proof {
            assert(store@.daily_tracks[i as int] == store.daily_tracks@[i as int]@);
        }
        if store.daily_tracks[i].start_time.same(start_time) {
            return true;
        }
        i = i + 1;
    }
    false
}

/// Whether a daily track has the number.
fn track_number_exists(store: &Store, number: i64) -> (b: bool)
    requires
        store@.wf(),
    ensures
        b == track_number_taken(store@.daily_tracks, number),
{
    let mut i: usize = 0;
    while i < store.daily_tracks.len()
        invariant
            i <= store.daily_tracks@.len(),
            store@.wf(),
            forall|k: int|
                0 <= k < i ==> !has_number((#[trigger] store@.daily_tracks[k]).id, number),
        decreases store.daily_tracks@.len() - i,
    {
        proof {
            assert(store@.daily_tracks[i as int] == store.daily_tracks@[i as int]@);
            assert(store@.daily_tracks[i as int].wf());
        }
        if id_has_number(&store.daily_tracks[i].id, number) {
            return true;
        }
        i = i + 1;
    }
    false
}

/// The reference under which a number is stored.
fn reference_to(number: Option<i64>) -> (reference: Option<Vec<u8>>)
    ensures
        opt_bytes_view(reference) == stored_reference(number),
        reference_has_number(opt_bytes_view(reference)),
{
    match number {
        Some(n) => Some(i64_to_binary(n)),
        None => None,
    }
}

/// Creates the topic `topic_name` under the identifier `id` at the time `now`.
///
/// Fails with a unique violation, and leaves the tables as they are, where a
/// topic of that name exists, or else where a topic has the number of `id`.
/// Otherwise the new row is appended to the topic table and returned.
pub fn create_topic_with(
    store: &mut Store,
    topic_name: String,
    parent_topic_id: Option<i64>,
    id: Vec<u8>,
    now: DateTime,
) -> (result: Result<Topic, StorageError>)
    requires
        old(store)@.wf(),
        id@.len() == ID_LEN,
    ensures
        topic_result_view(result) == topic_creation(
            old(store)@,
            topic_name@,
            parent_topic_id,
            id@,
            now,
        ),
        final(store)@ == after_topic_creation(old(store)@, topic_name@, parent_topic_id, id@, now),
        final(store)@.wf(),
{
    if topic_name_exists(store, &topic_name) {
        let message = concat3("Topic with name '", topic_name.as_str(), "' already exists");
        return Err(StorageError::UniqueViolation(message));
    }
    let number = vec_u8_to_i64(id.as_slice());
    if topic_number_exists(store, number) {
        return Err(
            StorageError::UniqueViolation(String::from_str("Duplicate entry for key 'PRIMARY'")),
        );
    }
    let row = Topic::with_id(id, now, topic_name, reference_to(parent_topic_id));
    let copy = row.clone();
    let ghost before = store.topics@;
    store.topics.push(row);
    proof {
        assert(topics_view(store.topics@) =~= topics_view(before).push(copy@));
    }
    Ok(copy)
}

/// Creates the topic `topic_name` under a newly drawn identifier, at the
/// current time.
///
/// For some identifier and some time the call did what `create_topic_with`
/// does with them. So it fails with a unique violation where a topic of that
/// name exists; where none does, it fails only if the number of the
/// identifier that was drawn is taken.
pub fn create_topic(store: &mut Store, topic_name: String, parent_topic_id: Option<i64>) -> (result:
    Result<Topic, StorageError>)
    requires
        old(store)@.wf(),
    ensures
        exists|id: Seq<u8>, now: DateTime| #[trigger]
            topic_created(
                old(store)@,
                topic_name@,
                parent_topic_id,
                id,
                now,
                topic_result_view(result),
                final(store)@,
            ),
        name_taken(old(store)@.topics, topic_name@) ==> final(store)@ == old(store)@
            && topic_result_view(result) == Err::<TopicView, (StorageErrorKind, Seq<char>)>(
            (StorageErrorKind::UniqueViolation, name_taken_message(topic_name@)),
        ),
        !name_taken(old(store)@.topics, topic_name@) ==> result is Ok || topic_result_view(result)
            == Err::<TopicView, (StorageErrorKind, Seq<char>)>(
            (StorageErrorKind::UniqueViolation, duplicate_key_message()),
        ),
        result matches Ok(row) ==> {
            &&& row@.id.len() == ID_LEN
            &&& row@.topic_name == topic_name@
            &&& row@.created_at.wf()
            &&& row@.updated_at is None
            &&& row@.parent_topic_id == stored_reference(parent_topic_id)
            &&& final(store)@ == old(store)@.with_topic(row@)
        },
        result is Err ==> final(store)@ == old(store)@,
        final(store)@.wf(),
{
    let id = fresh_id();
    let now = DateTime::now();
    let ghost name = topic_name@;
    let ghost id_view = id@;
    let result = create_topic_with(store, topic_name, parent_topic_id, id, now);
    proof {
        assert(topic_created(
            old(store)@,
            name,
            parent_topic_id,
            id_view,
            now,
            topic_result_view(result),
            store@,
        ));
    }
    result
}

/// Creates the daily track that starts at `start_time`, under the identifier
/// `id` at the time `now`.
///
/// Fails with a unique violation, and leaves the tables as they are, where a
/// daily track with that start time exists, or else where a daily track has
/// the number of `id`. Otherwise the new row is appended to the daily track
/// table and returned.
pub fn create_daily_track_with(
    store: &mut Store,
    start_time: DateTime,
    topic_id: Option<Vec<u8>>,
    comment: Option<String>,
    id: Vec<u8>,
    now: DateTime,
) -> (result: Result<DailyTrack, StorageError>)
    requires
        old(store)@.wf(),
        id@.len() == ID_LEN,
        start_time.wf(),
        reference_has_number(opt_bytes_view(topic_id)),
    ensures
        daily_track_result_view(result) == daily_track_creation(
            old(store)@,
            start_time,
            opt_bytes_view(topic_id),
            opt_text_view(comment),
            id@,
            now,
        ),
        final(store)@ == after_daily_track_creation(
            old(store)@,
            start_time,
            opt_bytes_view(topic_id),
            opt_text_view(comment),
            id@,
            now,
        ),
        final(store)@.wf(),
{
    if slot_exists(store, &start_time) {
        let when = format_datetime(&start_time);
        let mut message = String::from_str("A record already exists for time period ");
        message.append(when.as_str());
        return Err(StorageError::UniqueViolation(message));
    }
    let number = vec_u8_to_i64(id.as_slice());
    if track_number_exists(store, number) {
        return Err(
            StorageError::UniqueViolation(String::from_str("Duplicate entry for key 'PRIMARY'")),
        );
    }
    let row = DailyTrack::with_id(id, now, start_time, topic_id, comment);
    let copy = row.clone();
    let ghost before = store.daily_tracks@;
    store.daily_tracks.push(row);
    proof {
        assert(daily_tracks_view(store.daily_tracks@) =~= daily_tracks_view(before).push(copy@));
    }
    Ok(copy)
}

/// Creates the daily track that starts at `start_time`, under a newly drawn
/// identifier, at the current time.
///
/// For some identifier and some time the call did what
/// `create_daily_track_with` does with them. So it fails with a unique
/// violation where a daily track with that start time exists; where none
/// does, it fails only if the number of the identifier that was drawn is
/// taken.
pub fn create_daily_track(
    store: &mut Store,
    start_time: DateTime,
    topic_id: Option<Vec<u8>>,
    comment: Option<String>,
) -> (result: Result<DailyTrack, StorageError>)
    requires
        old(store)@.wf(),
        start_time.wf(),
        reference_has_number(opt_bytes_view(topic_id)),
    ensures
        exists|id: Seq<u8>, now: DateTime| #[trigger]
            daily_track_created(
                old(store)@,
                start_time,
                opt_bytes_view(topic_id),
                opt_text_view(comment),
                id,
                now,
                daily_track_result_view(result),
                final(store)@,
            ),
        slot_taken(old(store)@.daily_tracks, start_time) ==> final(store)@ == old(store)@
            && daily_track_result_view(result) == Err::<
            DailyTrackView,
            (StorageErrorKind, Seq<char>),
        >((StorageErrorKind::UniqueViolation, slot_taken_message(start_time))),
        !slot_taken(old(store)@.daily_tracks, start_time) ==> result is Ok
            || daily_track_result_view(result) == Err::<
            DailyTrackView,
            (StorageErrorKind, Seq<char>),
        >((StorageErrorKind::UniqueViolation, duplicate_key_message())),
        result matches Ok(row) ==> {
            &&& row@.id.len() == ID_LEN
            &&& row@.start_time == start_time
            &&& row@.created_at.wf()
            &&& row@.updated_at is None
            &&& row@.topic_id == opt_bytes_view(topic_id)
            &&& row@.comment == opt_text_view(comment)
            &&& final(store)@ == old(store)@.with_daily_track(row@)
        },
        result is Err ==> final(store)@ == old(store)@,
        final(store)@.wf(),
{
    let id = fresh_id();
    let now = DateTime::now();
    let ghost topic = opt_bytes_view(topic_id);
    let ghost note = opt_text_view(comment);
    let ghost id_view = id@;
    let result = create_daily_track_with(store, start_time, topic_id, comment, id, now);
    proof {
        assert(daily_track_created(
            old(store)@,
            start_time,
            topic,
            note,
            id_view,
            now,
            daily_track_result_view(result),
            store@,
        ));
    }
    result
}

/// Nothing is found exactly where `p` holds of no element; what is found
/// is an element of which `p` holds, and `p` holds of none before it.
pub proof fn lemma_find_first<T>(s: Seq<T>, p: spec_fn(T) -> bool)
    ensures
        find_first(s, p) is None <==> forall|i: int| 0 <= i < s.len() ==> !p(#[trigger] s[i]),
        find_first(s, p) matches Some(x) ==> exists|i: int|
            0 <= i < s.len() && #[trigger] s[i] == x && p(x) && forall|j: int|
                0 <= j < i ==> !p(#[trigger] s[j]),
    decreases s.len(),
{
    if s.len() > 0 {
        let front = s.drop_last();
        lemma_find_first(front, p);
        assert forall|i: int| 0 <= i < front.len() implies front[i] == s[i] by {}
        match find_first(front, p) {
            Some(x) => {
                let i = choose|i: int|
                    0 <= i < front.len() && #[trigger] front[i] == x && p(x) && forall|j: int|
                        0 <= j < i ==> !p(#[trigger] front[j]);
                assert(s[i] == x);
                assert forall|j: int| 0 <= j < i implies !p(#[trigger] s[j]) by {
                    assert(front[j] == s[j]);
                }
            },
            None => {
                assert forall|j: int| 0 <= j < s.len() - 1 implies !p(#[trigger] s[j]) by {
                    assert(front[j] == s[j]);
                }
                if p(s.last()) {
                    assert(s[s.len() - 1] == s.last());
                } else {
                    assert forall|i: int| 0 <= i < s.len() implies !p(#[trigger] s[i]) by {
                        if i < s.len() - 1 {
                            assert(front[i] == s[i]);
                        }
                    }
                }
            },
        }
    }
}

/// A successful creation keeps the tables well formed, and so does a failed
/// one, which changes nothing.
pub proof fn lemma_topic_creation_keeps_wf(
    s: StoreView,
    name: Seq<char>,
    parent: Option<i64>,
    id: Seq<u8>,
    now: DateTime,
)
    requires
        s.wf(),
        id.len() == ID_LEN,
    ensures
        after_topic_creation(s, name, parent, id, now).wf(),
{
    lemma_number_in_range(id);
    if let Some(p) = parent {
        crate::ident::lemma_i64_round_trip(p);
    }
}

/// A successful creation keeps the tables well formed, and so does a failed
/// one, which changes nothing.
pub proof fn lemma_daily_track_creation_keeps_wf(
    s: StoreView,
    start_time: DateTime,
    topic_id: Option<Seq<u8>>,
    comment: Option<Seq<char>>,
    id: Seq<u8>,
    now: DateTime,
)
    requires
        s.wf(),
        id.len() == ID_LEN,
        reference_has_number(topic_id),
    ensures
        after_daily_track_creation(s, start_time, topic_id, comment, id, now).wf(),
{
    lemma_number_in_range(id);
}

/// A topic that was created is found under its number, as the row that the
/// creation returned: with the name and the parent that were given.
pub proof fn law_created_topic_is_found(
    s: StoreView,
    name: Seq<char>,
    parent: Option<i64>,
    id: Seq<u8>,
    now: DateTime,
)
    requires
        s.wf(),
        id.len() == ID_LEN,
        topic_creation(s, name, parent, id, now) is Ok,
    ensures
        ({
            let row = topic_creation(s, name, parent, id, now)->Ok_0;
            let after = after_topic_creation(s, name, parent, id, now);
            &&& find_topic(after.topics, external_id(row.id) as i64) == Some(row)
            &&& row.topic_name == name
            &&& row.parent_topic_id == stored_reference(parent)
        }),
{
    let row = topic_creation(s, name, parent, id, now)->Ok_0;
    let after = after_topic_creation(s, name, parent, id, now);
    let number = external_id(row.id) as i64;
    let p = |r: TopicView| has_number(r.id, number);
    lemma_find_first(s.topics, p);
    assert(after.topics.drop_last() =~= s.topics);
    assert(after.topics.last() == row);
    crate::ident::lemma_be_nat_bound(row.id.subrange(0, PREFIX_LEN as int));
    lemma_number_in_range(row.id);
}

/// The number of an identifier is a 64-bit signed number.
pub proof fn lemma_number_in_range(id: Seq<u8>)
    requires
        id.len() >= PREFIX_LEN,
    ensures
        i64::MIN <= external_id(id) <= i64::MAX,
{
    crate::ident::lemma_bytes_round_trip(id.subrange(0, PREFIX_LEN as int));
}

/// After a topic was created, no second topic of the same name can be: the
/// creation fails with a unique violation and changes nothing.
pub proof fn law_second_topic_of_a_name_is_refused(
    s: StoreView,
    name: Seq<char>,
    parent: Option<i64>,
    id: Seq<u8>,
    now: DateTime,
    parent2: Option<i64>,
    id2: Seq<u8>,
    now2: DateTime,
)
    requires
        topic_creation(s, name, parent, id, now) is Ok,
    ensures
        ({
            let after = after_topic_creation(s, name, parent, id, now);
            &&& topic_creation(after, name, parent2, id2, now2) == Err::<
                TopicView,
                (StorageErrorKind, Seq<char>),
            >((StorageErrorKind::UniqueViolation, name_taken_message(name)))
            &&& after_topic_creation(after, name, parent2, id2, now2) == after
        }),
{
    let after = after_topic_creation(s, name, parent, id, now);
    assert(after.topics[after.topics.len() - 1].topic_name == name);
}

/// A daily track that was created is found under its number, as the row
/// that the creation returned: with the start time, the topic and the comment
/// that were given.
pub proof fn law_created_daily_track_is_found(
    s: StoreView,
    start_time: DateTime,
    topic_id: Option<Seq<u8>>,
    comment: Option<Seq<char>>,
    id: Seq<u8>,
    now: DateTime,
)
    requires
        s.wf(),
        id.len() == ID_LEN,
        daily_track_creation(s, start_time, topic_id, comment, id, now) is Ok,
    ensures
        ({
            let row = daily_track_creation(s, start_time, topic_id, comment, id, now)->Ok_0;
            let after = after_daily_track_creation(s, start_time, topic_id, comment, id, now);
            &&& find_daily_track(after.daily_tracks, external_id(row.id) as i64) == Some(row)
            &&& row.start_time == start_time
            &&& row.topic_id == topic_id
            &&& row.comment == comment
        }),
{
    let row = daily_track_creation(s, start_time, topic_id, comment, id, now)->Ok_0;
    let after = after_daily_track_creation(s, start_time, topic_id, comment, id, now);
    let number = external_id(row.id) as i64;
    let p = |r: DailyTrackView| has_number(r.id, number);
    lemma_find_first(s.daily_tracks, p);
    assert(after.daily_tracks.drop_last() =~= s.daily_tracks);
    assert(after.daily_tracks.last() == row);
    lemma_number_in_range(row.id);
}

/// After a daily track was created, no second one with the same start time
/// can be: the creation fails with a unique violation and changes nothing,
/// and the first is still found under its number, as it was created.
pub proof fn law_second_track_of_a_slot_is_refused(
    s: StoreView,
    start_time: DateTime,
    topic_id: Option<Seq<u8>>,
    comment: Option<Seq<char>>,
    id: Seq<u8>,
    now: DateTime,
    topic_id2: Option<Seq<u8>>,
    comment2: Option<Seq<char>>,
    id2: Seq<u8>,
    now2: DateTime,
)
    requires
        s.wf(),
        id.len() == ID_LEN,
        daily_track_creation(s, start_time, topic_id, comment, id, now) is Ok,
    ensures
        ({
            let first = daily_track_creation(s, start_time, topic_id, comment, id, now)->Ok_0;
            let after = after_daily_track_creation(s, start_time, topic_id, comment, id, now);
            let end = after_daily_track_creation(after, start_time, topic_id2, comment2, id2, now2);
            &&& daily_track_creation(after, start_time, topic_id2, comment2, id2, now2) == Err::<
                DailyTrackView,
                (StorageErrorKind, Seq<char>),
            >((StorageErrorKind::UniqueViolation, slot_taken_message(start_time)))
            &&& end == after
            &&& find_daily_track(end.daily_tracks, external_id(first.id) as i64) == Some(first)
        }),
{
    let after = after_daily_track_creation(s, start_time, topic_id, comment, id, now);
    assert(after.daily_tracks[after.daily_tracks.len() - 1].start_time == start_time);
    law_created_daily_track_is_found(s, start_time, topic_id, comment, id, now);
}

/// A daily track is listed exactly where it passes the filters: with a first
/// and a last day given, every listed row starts within those days, from the
/// first instant of the first to the last whole second of the last, and every
/// row of the table that passes is listed.
pub proof fn law_listing_is_the_selection(
    rows: Seq<DailyTrackView>,
    start: Option<Date>,
    end: Option<Date>,
    topic: Option<i64>,
)
    ensures
        forall|i: int|
            #![trigger selected_daily_tracks(rows, start, end, topic)[i]]
            0 <= i < selected_daily_tracks(rows, start, end, topic).len() ==> {
                let row = selected_daily_tracks(rows, start, end, topic)[i];
                &&& rows.contains(row)
                &&& track_selected(row, start, end, topic)
                &&& start matches Some(d) ==> d.start_of_day().is_at_or_before(row.start_time)
                &&& end matches Some(d) ==> row.start_time.is_at_or_before(d.end_of_day())
            },
        forall|i: int|
            0 <= i < rows.len() && track_selected(#[trigger] rows[i], start, end, topic)
                ==> selected_daily_tracks(rows, start, end, topic).contains(rows[i]),
{
    let p = |r: DailyTrackView| track_selected(r, start, end, topic);
    let listed = rows.filter(p);
    assert forall|i: int| 0 <= i < listed.len() implies {
        let row = #[trigger] listed[i];
        &&& rows.contains(row)
        &&& track_selected(row, start, end, topic)
    } by {
        rows.lemma_filter_pred(p, i);
        assert(listed.contains(listed[i]));
        rows.lemma_filter_contains_rev(p, listed[i]);
    }
    assert forall|i: int|
        0 <= i < rows.len() && track_selected(#[trigger] rows[i], start, end, topic) implies listed.contains(
        rows[i],
    ) by {
        rows.lemma_filter_contains(p, i);
    }
}

/// Appends a topic row if the tables stay well formed with it.
fn insert_topic(store: &mut Store, row: Topic) -> (ok: bool)
    requires
        old(store)@.wf(),
    ensures
        ok == (row@.wf() && !name_taken(old(store)@.topics, row@.topic_name)
            && !topic_number_taken(old(store)@.topics, external_id(row@.id) as i64)),
        ok ==> final(store)@ == old(store)@.with_topic(row@),
        !ok ==> final(store)@ == old(store)@,
        final(store)@.wf(),
{
    if row.id.len() != ID_LEN {
        return false;
    }
    if let Some(parent) = &row.parent_topic_id {
        if parent.len() < PREFIX_LEN {
            return false;
        }
    }
    if topic_name_exists(store, &row.topic_name) {
        return false;
    }
    let number = vec_u8_to_i64(row.id.as_slice());
    if topic_number_exists(store, number) {
        return false;
    }
    let ghost before = store.topics@;
    let ghost added = row@;
    store.topics.push(row);
    proof {
        assert(topics_view(store.topics@) =~= topics_view(before).push(added));
    }
    true
}

/// Appends a daily track row if the tables stay well formed with it.
fn insert_daily_track(store: &mut Store, row: DailyTrack) -> (ok: bool)
    requires
        old(store)@.wf(),
    ensures
        ok == (row@.wf() && !slot_taken(old(store)@.daily_tracks, row@.start_time)
            && !track_number_taken(old(store)@.daily_tracks, external_id(row@.id) as i64)),
        ok ==> final(store)@ == old(store)@.with_daily_track(row@),
        !ok ==> final(store)@ == old(store)@,
        final(store)@.wf(),
{
    if row.id.len() != ID_LEN {
        return false;
    }
    if let Some(topic) = &row.topic_id {
        if topic.len() < PREFIX_LEN {
            return false;
        }
    }
    if slot_exists(store, &row.start_time) {
        return false;
    }
    let number = vec_u8_to_i64(row.id.as_slice());
    if track_number_exists(store, number) {
        return false;
    }
    let ghost before = store.daily_tracks@;
    let ghost added = row@;
    store.daily_tracks.push(row);
    proof {
        assert(daily_tracks_view(store.daily_tracks@) =~= daily_tracks_view(before).push(added));
    }
    true
}

impl Store {
    /// The tables with the given rows, in the given order, if they are well
    /// formed: every identifier has sixteen bytes, every reference at least
    /// eight, and no number, no topic name and no start time occurs twice in
    /// its table.
    pub fn from_rows(topics: Vec<Topic>, daily_tracks: Vec<DailyTrack>) -> (store: Option<Store>)
        ensures
            store is Some <==> (StoreView {
                topics: topics_view(topics@),
                daily_tracks: daily_tracks_view(daily_tracks@),
            }).wf(),
            store matches Some(s) ==> s@ == (StoreView {
                topics: topics_view(topics@),
                daily_tracks: daily_tracks_view(daily_tracks@),
            }),
    {
        let ghost all_topics = topics_view(topics@);
        let ghost all_tracks = daily_tracks_view(daily_tracks@);
        let ghost full = StoreView { topics: all_topics, daily_tracks: all_tracks };
        let mut store = Store::new();
        let mut i: usize = 0;
        proof {
            assert(store@.topics =~= all_topics.take(0));
        }
        while i < topics.len()
            invariant
                i <= topics@.len(),
                all_topics == topics_view(topics@),
                store@.wf(),
                store@.topics == all_topics.take(i as int),
                store@.daily_tracks.len() == 0,
                full == (StoreView { topics: all_topics, daily_tracks: all_tracks }),
            decreases topics@.len() - i,
        {
            let row = topics[i].clone();
            let ghost before = store@;
            let ok = insert_topic(&mut store, row);
            proof {
                assert(all_topics[i as int] == row@);
                lemma_number_in_range_or_short(row@.id);
                if ok {
                    assert(store@.topics =~= all_topics.take(i + 1));
                } else if row@.wf() {
                    if name_taken(before.topics, row@.topic_name) {
                        let k = choose|k: int|
                            0 <= k < before.topics.len() && (#[trigger] before.topics[k]).topic_name
                                == row@.topic_name;
                        assert(all_topics[k] == before.topics[k]);
                    } else {
                        let k = choose|k: int|
                            0 <= k < before.topics.len() && has_number(
                                (#[trigger] before.topics[k]).id,
                                external_id(row@.id) as i64,
                            );
                        assert(all_topics[k] == before.topics[k]);
                    }
                    assert(!full.wf());
                } else {
                    assert(!full.wf());
                }
            }
            if !ok {
                return None;
            }
            i = i + 1;
        }
        proof {
            assert(all_topics.take(i as int) =~= all_topics);
            assert(store@.daily_tracks =~= all_tracks.take(0));
        }
        let mut j: usize = 0;
        while j < daily_tracks.len()
            invariant
                j <= daily_tracks@.len(),
                all_tracks == daily_tracks_view(daily_tracks@),
                store@.wf(),
                store@.topics == all_topics,
                store@.daily_tracks == all_tracks.take(j as int),
                full == (StoreView { topics: all_topics, daily_tracks: all_tracks }),
            decreases daily_tracks@.len() - j,
        {
            let row = daily_tracks[j].clone();
            let ghost before = store@;
            let ok = insert_daily_track(&mut store, row);
            proof {
                assert(all_tracks[j as int] == row@);
                lemma_number_in_range_or_short(row@.id);
                if ok {
                    assert(store@.daily_tracks =~= all_tracks.take(j + 1));
                } else if row@.wf() {
                    if slot_taken(before.daily_tracks, row@.start_time) {
                        let k = choose|k: int|
                            0 <= k < before.daily_tracks.len() && (
                            #[trigger] before.daily_tracks[k]).start_time == row@.start_time;
                        assert(all_tracks[k] == before.daily_tracks[k]);
                    } else {
                        let k = choose|k: int|
                            0 <= k < before.daily_tracks.len() && has_number(
                                (#[trigger] before.daily_tracks[k]).id,
                                external_id(row@.id) as i64,
                            );
                        assert(all_tracks[k] == before.daily_tracks[k]);
                    }
                    assert(!full.wf());
                } else {
                    assert(!full.wf());
                }
            }
            if !ok {
                return None;
            }
            j = j + 1;
        }
        proof {
            assert(all_tracks.take(j as int) =~= all_tracks);
            assert(store@ == full);
        }
        Some(store)
    }
}

/// The number of an identifier that is long enough is a 64-bit signed
/// number.
proof fn lemma_number_in_range_or_short(id: Seq<u8>)
    ensures
        id.len() >= PREFIX_LEN ==> i64::MIN <= external_id(id) <= i64::MAX,
{
    if id.len() >= PREFIX_LEN {
        lemma_number_in_range(id);
    }
}

} // verus!
