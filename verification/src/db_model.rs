//! The rows of the two tables.

use crate::ident::{ID_LEN, PREFIX_LEN};
use crate::time::{format_datetime, DateTime};
use vstd::prelude::*;

verus! {

/// A row of the topic table.
#[derive(Debug)]
pub struct Topic {
    pub id: Vec<u8>,
    pub topic_name: String,
    pub created_at: DateTime,
    pub updated_at: Option<DateTime>,
    pub parent_topic_id: Option<Vec<u8>>,
}

/// A row of the daily track table: one half-hour slot.
#[derive(Debug)]
pub struct DailyTrack {
    pub id: Vec<u8>,
    pub start_time: DateTime,
    pub created_at: DateTime,
    pub updated_at: Option<DateTime>,
    pub topic_id: Option<Vec<u8>>,
    pub comment: Option<String>,
}

/// What a topic row holds.
pub struct TopicView {
    pub id: Seq<u8>,
    pub topic_name: Seq<char>,
    pub created_at: DateTime,
    pub updated_at: Option<DateTime>,
    pub parent_topic_id: Option<Seq<u8>>,
}

/// What a daily track row holds.
pub struct DailyTrackView {
    pub id: Seq<u8>,
    pub start_time: DateTime,
    pub created_at: DateTime,
    pub updated_at: Option<DateTime>,
    pub topic_id: Option<Seq<u8>>,
    pub comment: Option<Seq<char>>,
}

/// What an optional byte string holds.
pub open spec fn opt_bytes_view(v: Option<Vec<u8>>) -> Option<Seq<u8>> {
    match v {
        Some(b) => Some(b@),
        None => None,
    }
}

/// What an optional text holds.
pub open spec fn opt_text_view(v: Option<String>) -> Option<Seq<char>> {
    match v {
        Some(s) => Some(s@),
        None => None,
    }
}

/// A reference to another row, where there is one, is long enough to have a
/// number.
pub open spec fn reference_has_number(r: Option<Seq<u8>>) -> bool {
    r matches Some(b) ==> b.len() >= PREFIX_LEN
}

impl View for Topic {
    type V = TopicView;

    open spec fn view(&self) -> TopicView {
        TopicView {
            id: self.id@,
            topic_name: self.topic_name@,
            created_at: self.created_at,
            updated_at: self.updated_at,
            parent_topic_id: opt_bytes_view(self.parent_topic_id),
        }
    }
}

impl View for DailyTrack {
    type V = DailyTrackView;

    open spec fn view(&self) -> DailyTrackView {
        DailyTrackView {
            id: self.id@,
            start_time: self.start_time,
            created_at: self.created_at,
            updated_at: self.updated_at,
            topic_id: opt_bytes_view(self.topic_id),
            comment: opt_text_view(self.comment),
        }
    }
}

impl TopicView {
    /// The row is one that the store writes: a full-length identifier, and a
    /// parent reference that has a number.
    pub open spec fn wf(&self) -> bool {
        &&& self.id.len() == ID_LEN
        &&& reference_has_number(self.parent_topic_id)
    }
}

impl DailyTrackView {
    /// The row is one that the store writes: a full-length identifier, and a
    /// topic reference that has a number.
    pub open spec fn wf(&self) -> bool {
        &&& self.id.len() == ID_LEN
        &&& reference_has_number(self.topic_id)
    }
}

/// A copy of `bytes`.
pub(crate) fn clone_bytes(bytes: &Vec<u8>) -> (copy: Vec<u8>)
    ensures
        copy@ == bytes@,
{
    let copy = bytes.clone();
    assert(copy@ =~= bytes@);
    copy
}

/// A copy of an optional byte string.
pub(crate) fn clone_opt_bytes(bytes: &Option<Vec<u8>>) -> (copy: Option<Vec<u8>>)
    ensures
        opt_bytes_view(copy) == opt_bytes_view(*bytes),
{
    match bytes {
        Some(b) => Some(clone_bytes(b)),
        None => None,
    }
}

/// A copy of an optional text.
pub(crate) fn clone_opt_text(text: &Option<String>) -> (copy: Option<String>)
    ensures
        opt_text_view(copy) == opt_text_view(*text),
{
    match text {
        Some(s) => Some(s.clone()),
        None => None,
    }
}

impl Clone for Topic {
    fn clone(&self) -> (copy: Topic)
        ensures
            copy@ == self@,
    {
        Topic {
            id: clone_bytes(&self.id),
            topic_name: self.topic_name.clone(),
            created_at: self.created_at,
            updated_at: self.updated_at,
            parent_topic_id: clone_opt_bytes(&self.parent_topic_id),
        }
    }
}

impl Clone for DailyTrack {
    fn clone(&self) -> (copy: DailyTrack)
        ensures
            copy@ == self@,
    {
        DailyTrack {
            id: clone_bytes(&self.id),
            start_time: self.start_time,
            created_at: self.created_at,
            updated_at: self.updated_at,
            topic_id: clone_opt_bytes(&self.topic_id),
            comment: clone_opt_text(&self.comment),
        }
    }
}

impl DailyTrack {
    /// A row for the slot that starts at `start_time`, with a newly drawn
    /// identifier and the current time as its creation time.
    pub fn new(start_time: DateTime, topic_id: Option<Vec<u8>>, comment: Option<String>) -> (row:
        DailyTrack)
        ensures
            row@.id.len() == ID_LEN,
            row@.start_time == start_time,
            row@.created_at.wf(),
            row@.updated_at is None,
            row@.topic_id == opt_bytes_view(topic_id),
            row@.comment == opt_text_view(comment),
    {
        let id = fresh_id();
        let now = DateTime::now();
        DailyTrack::with_id(id, now, start_time, topic_id, comment)
    }

    /// The row for the slot that starts at `start_time`, created at `now`
    /// under the identifier `id`, and never updated.
    pub fn with_id(
        id: Vec<u8>,
        now: DateTime,
        start_time: DateTime,
        topic_id: Option<Vec<u8>>,
        comment: Option<String>,
    ) -> (row: DailyTrack)
        ensures
            row@ == (DailyTrackView {
                id: id@,
                start_time,
                created_at: now,
                updated_at: None,
                topic_id: opt_bytes_view(topic_id),
                comment: opt_text_view(comment),
            }),
    {
        DailyTrack { id, start_time, created_at: now, updated_at: None, topic_id, comment }
    }
}

/// The two lower-case hexadecimal digits of a byte.
pub open spec fn hex_pair(b: u8) -> Seq<char> {
    seq!["0123456789abcdef"@[b as int / 16], "0123456789abcdef"@[b as int % 16]]
}

/// The bytes in lower-case hexadecimal, two digits each.
pub open spec fn hex(bytes: Seq<u8>) -> Seq<char>
    decreases bytes.len(),
{
    if bytes.len() == 0 {
        Seq::empty()
    } else {
        hex(bytes.drop_last()) + hex_pair(bytes.last())
    }
}

/// Sixteen bytes written as a UUID: in hexadecimal, in groups of four, two,
/// two, two and six bytes with hyphens between.
pub open spec fn uuid_text(bytes: Seq<u8>) -> Seq<char> {
    hex(bytes.subrange(0, 4)) + seq!['-'] + hex(bytes.subrange(4, 6)) + seq!['-'] + hex(
        bytes.subrange(6, 8),
    ) + seq!['-'] + hex(bytes.subrange(8, 10)) + seq!['-'] + hex(bytes.subrange(10, 16))
}

/// The sixteen bytes that an identifier is written from: its own where it
/// has sixteen, else sixteen zeros.
pub open spec fn uuid_bytes(id: Seq<u8>) -> Seq<u8> {
    if id.len() == ID_LEN {
        id
    } else {
        Seq::new(ID_LEN as nat, |i: int| 0u8)
    }
}

/// The text of an optional text: empty where there is none.
pub open spec fn text_or_empty(text: Option<Seq<char>>) -> Seq<char> {
    match text {
        Some(t) => t,
        None => Seq::empty(),
    }
}

impl DailyTrackView {
    /// The row in one line: its identifier as a UUID, its start time and its
    /// comment.
    pub open spec fn text(&self) -> Seq<char> {
        "id: "@ + uuid_text(uuid_bytes(self.id)) + ", start_time: "@ + self.start_time.text()
            + ", comment: "@ + text_or_empty(self.comment)
    }
}

impl DailyTrack {
    /// The row in one line: its identifier as a UUID, its start time and its
    /// comment. An identifier that has not sixteen bytes is written as
    /// sixteen zeros, a missing comment as nothing.
    pub fn to_string(&self) -> (line: String)
        requires
            self.start_time.wf(),
        ensures
            line@ == self@.text(),
    {
        let id_text = if self.id.len() == ID_LEN {
            format_uuid(&self.id)
        } else {
            let mut zeros: Vec<u8> = Vec::new();
            while zeros.len() < ID_LEN
                invariant
                    zeros@.len() <= ID_LEN,
                    forall|i: int| 0 <= i < zeros@.len() ==> zeros@[i] == 0u8,
                decreases ID_LEN - zeros@.len(),
            {
                zeros.push(0u8);
            }
            proof {
                assert(zeros@ =~= uuid_bytes(self@.id));
            }
            format_uuid(&zeros)
        };
        let when = format_datetime(&self.start_time);
        let mut line = String::from_str("id: ");
        line.append(id_text.as_str());
        line.append(", start_time: ");
        line.append(when.as_str());
        line.append(", comment: ");
        if let Some(comment) = &self.comment {
            line.append(comment.as_str());
        }
        proof {
            assert(line@ =~= self@.text());
        }
        line
    }
}

impl Topic {
    /// The row of the topic `topic_name`, created at `now` under the
    /// identifier `id`, and never updated.
    pub fn with_id(
        id: Vec<u8>,
        now: DateTime,
        topic_name: String,
        parent_topic_id: Option<Vec<u8>>,
    ) -> (row: Topic)
        ensures
            row@ == (TopicView {
                id: id@,
                topic_name: topic_name@,
                created_at: now,
                updated_at: None,
                parent_topic_id: opt_bytes_view(parent_topic_id),
            }),
    {
        Topic { id, topic_name, created_at: now, updated_at: None, parent_topic_id }
    }
}

/// `uuid::Uuid::from_slice` on sixteen bytes, which cannot fail, and
/// `to_string` on the `Uuid`. The contract claims the hyphenated lower-case
/// form that the outside crate's `Display` writes.
#[verifier::external_body]
fn format_uuid(bytes: &Vec<u8>) -> (text: String)
    requires
        bytes@.len() == ID_LEN,
    ensures
        text@ == uuid_text(bytes@),
{
    uuid::Uuid::from_slice(bytes.as_slice()).unwrap().to_string()
}

/// `uuid::Uuid::new_v4`, then `as_bytes` and a copy into a vector. The
/// contract claims the length, sixteen bytes, and nothing of the bytes:
/// they are drawn at random. The outside function panics where the system
/// gives it no random bytes.
#[verifier::external_body]
pub(crate) fn fresh_id() -> (id: Vec<u8>)
    ensures
        id@.len() == ID_LEN,
{
    uuid::Uuid::new_v4().as_bytes().to_vec()
}

} // verus!
