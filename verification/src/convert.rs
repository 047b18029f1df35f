//! From rows to what clients see.
//!
//! An identifier is shown as its number, a naive time as the same reading in
//! UTC, and a row that was never updated shows its creation time as the time
//! of its last update.

use crate::db_model;
use crate::db_model::reference_has_number;
use crate::ident::{external_id, vec_u8_to_i64, PREFIX_LEN};
use crate::models::{DailyTrack, DailyTrackView, Topic, TopicView};
use crate::time::{DateTime, UtcDateTime};
use vstd::prelude::*;

verus! {

/// The number of a reference, where there is one.
pub open spec fn reference_number(r: Option<Seq<u8>>) -> Option<i64> {
    match r {
        Some(b) => Some(external_id(b) as i64),
        None => None,
    }
}

/// The time of the last update as a client sees it.
pub open spec fn shown_update(created_at: DateTime, updated_at: Option<DateTime>) -> UtcDateTime {
    UtcDateTime {
        utc: match updated_at {
            Some(t) => t,
            None => created_at,
        },
    }
}

/// The topic that a client sees for the row `row`.
pub open spec fn external_topic(row: db_model::TopicView) -> TopicView {
    TopicView {
        id: external_id(row.id) as i64,
        topic_name: row.topic_name,
        created_at: UtcDateTime { utc: row.created_at },
        updated_at: shown_update(row.created_at, row.updated_at),
        parent_topic_id: reference_number(row.parent_topic_id),
    }
}

/// The daily track that a client sees for the row `row`.
pub open spec fn external_daily_track(row: db_model::DailyTrackView) -> DailyTrackView {
    DailyTrackView {
        id: external_id(row.id) as i64,
        start_time: UtcDateTime { utc: row.start_time },
        created_at: UtcDateTime { utc: row.created_at },
        updated_at: shown_update(row.created_at, row.updated_at),
        topic_id: reference_number(row.topic_id),
        comment: row.comment,
    }
}

/// The number of an optional reference.
fn reference_to_i64(reference: &Option<Vec<u8>>) -> (number: Option<i64>)
    requires
        reference_has_number(db_model::opt_bytes_view(*reference)),
    ensures
        number == reference_number(db_model::opt_bytes_view(*reference)),
{
    match reference {
        Some(bytes) => Some(vec_u8_to_i64(bytes.as_slice())),
        None => None,
    }
}

/// The time of the last update to show.
fn update_to_utc(created_at: &DateTime, updated_at: &Option<DateTime>) -> (shown: UtcDateTime)
    ensures
        shown == shown_update(*created_at, *updated_at),
{
    match updated_at {
        Some(t) => UtcDateTime::from_naive_utc(t),
        None => UtcDateTime::from_naive_utc(created_at),
    }
}

/// The topic that a client sees for a row.
pub fn db_topic_to_topic(topic: db_model::Topic) -> (shown: Topic)
    requires
        topic@.id.len() >= PREFIX_LEN,
        reference_has_number(topic@.parent_topic_id),
    ensures
        shown@ == external_topic(topic@),
{
    let id = vec_u8_to_i64(topic.id.as_slice());
    let created_at = UtcDateTime::from_naive_utc(&topic.created_at);
    let updated_at = update_to_utc(&topic.created_at, &topic.updated_at);
    let parent_topic_id = reference_to_i64(&topic.parent_topic_id);
    Topic { id, topic_name: topic.topic_name, created_at, updated_at, parent_topic_id }
}

/// The daily track that a client sees for a row.
pub fn db_daily_track_to_daily_track(track: db_model::DailyTrack) -> (shown: DailyTrack)
    requires
        track@.id.len() >= PREFIX_LEN,
        reference_has_number(track@.topic_id),
    ensures
        shown@ == external_daily_track(track@),
{
    let id = vec_u8_to_i64(track.id.as_slice());
    let start_time = UtcDateTime::from_naive_utc(&track.start_time);
    let created_at = UtcDateTime::from_naive_utc(&track.created_at);
    let updated_at = update_to_utc(&track.created_at, &track.updated_at);
    let topic_id = reference_to_i64(&track.topic_id);
    DailyTrack { id, start_time, created_at, updated_at, topic_id, comment: track.comment }
}

} // verus!
