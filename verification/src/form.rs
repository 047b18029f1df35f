//! Values written as one line of names and values with commas between, the
//! form in which a value travels in a query or a header, and read back from
//! it.
//!
//! A line is read pair by pair, from the left. The first thing that goes
//! wrong ends the reading: a name without a value, a name that the type does
//! not have, a value that does not parse. Of a name that occurs more than
//! once the first value counts. A field that must be there and is not is
//! reported last, the first of them in the order of the type's fields.

use crate::db_model::opt_text_view;
use crate::error::ErrorResponse;
use crate::models::{CreateDailyTrackRequest, CreateTopicRequest, DailyTrack, Topic};
use crate::text::{
    concat2, concat3, decimal, i64_from_str, i64_to_string, int_error_message, int_from_text,
    split, split_on, str_equal, texts_view,
};
use crate::time::{parse_utc, utc_from_text, DateTime, Date, UtcDateTime};
use vstd::prelude::*;

verus! {

/// What a field holds.
#[derive(Clone, Copy, Debug, PartialEq, Eq, Structural)]
pub enum FieldKind {
    Text,
    Int,
    Time,
}

/// A field of a type: its name, what it holds, and whether it must be there.
#[derive(Clone, Copy, Debug)]
pub struct Field {
    pub name: &'static str,
    pub kind: FieldKind,
    pub required: bool,
}

/// What the description of a field holds.
pub struct FieldView {
    pub name: Seq<char>,
    pub kind: FieldKind,
    pub required: bool,
}

impl View for Field {
    type V = FieldView;

    open spec fn view(&self) -> FieldView {
        FieldView { name: self.name@, kind: self.kind, required: self.required }
    }
}

/// The value of a field.
#[derive(Debug)]
pub enum Value {
    Text(String),
    Int(i64),
    Time(UtcDateTime),
}

/// What the value of a field holds.
pub enum ValueView {
    Text(Seq<char>),
    Int(i64),
    Time(UtcDateTime),
}

impl View for Value {
    type V = ValueView;

    open spec fn view(&self) -> ValueView {
        match self {
            Value::Text(t) => ValueView::Text(t@),
            Value::Int(n) => ValueView::Int(*n),
            Value::Time(t) => ValueView::Time(*t),
        }
    }
}

impl Clone for Value {
    fn clone(&self) -> (copy: Value)
        ensures
            copy@ == self@,
    {
        match self {
            Value::Text(t) => Value::Text(t.clone()),
            Value::Int(n) => Value::Int(*n),
            Value::Time(t) => Value::Time(*t),
        }
    }
}

/// What kind of field the value is of.
pub open spec fn kind_of(v: ValueView) -> FieldKind {
    match v {
        ValueView::Text(_) => FieldKind::Text,
        ValueView::Int(_) => FieldKind::Int,
        ValueView::Time(_) => FieldKind::Time,
    }
}

/// What a list of field descriptions holds.
pub open spec fn fields_view(fields: Seq<Field>) -> Seq<FieldView> {
    fields.map_values(|f: Field| f@)
}

/// What an optional value holds.
pub open spec fn opt_value_view(v: Option<Value>) -> Option<ValueView> {
    match v {
        Some(v) => Some(v@),
        None => None,
    }
}

/// What a list of optional values holds.
pub open spec fn values_view(values: Seq<Option<Value>>) -> Seq<Option<ValueView>> {
    values.map_values(|v: Option<Value>| opt_value_view(v))
}

/// The reading in UTC with the given numbers.
pub open spec fn utc_of_numbers(n: (int, int, int, int, int, int, int)) -> UtcDateTime {
    UtcDateTime {
        utc: DateTime {
            date: Date { year: n.0 as i32, month: n.1 as u32, day: n.2 as u32 },
            hour: n.3 as u32,
            minute: n.4 as u32,
            second: n.5 as u32,
            nanosecond: n.6 as u32,
        },
    }
}

/// The value that a text gives to a field of the kind, or the words of the
/// parser that refuses it. Every text is a text; a number is read in
/// decimal; a time is read by the outside parser.
pub open spec fn read_value(kind: FieldKind, text: Seq<char>) -> Result<ValueView, Seq<char>> {
    match kind {
        FieldKind::Text => Ok(ValueView::Text(text)),
        FieldKind::Int => match int_from_text(text) {
            Ok(n) => Ok(ValueView::Int(n)),
            Err(k) => Err(int_error_message(k)),
        },
        FieldKind::Time => match utc_from_text(text) {
            Ok(n) => Ok(ValueView::Time(utc_of_numbers(n))),
            Err(e) => Err(e),
        },
    }
}

/// The place of the first field with the name, among the first `upto`
/// fields.
pub open spec fn field_index(fields: Seq<FieldView>, name: Seq<char>, upto: int) -> Option<int>
    decreases upto,
{
    if upto <= 0 {
        None
    } else {
        match field_index(fields, name, upto - 1) {
            Some(i) => Some(i),
            None => if fields[upto - 1].name == name {
                Some(upto - 1)
            } else {
                None
            },
        }
    }
}

/// The message for a name without a value.
pub open spec fn missing_value_message(of_type: Seq<char>) -> Seq<char> {
    "Missing value while parsing "@ + of_type
}

/// The message for a name that the type does not have.
pub open spec fn unexpected_key_message(of_type: Seq<char>) -> Seq<char> {
    "Unexpected key while parsing "@ + of_type
}

/// The message for a field that must be there and is not.
pub open spec fn missing_field_message(field: Seq<char>, of_type: Seq<char>) -> Seq<char> {
    field + " missing in "@ + of_type
}

/// The values with the value `v` for the field `i`, unless the field has
/// one.
pub open spec fn with_value(found: Seq<Option<ValueView>>, i: int, v: ValueView) -> Seq<
    Option<ValueView>,
> {
    if found[i] is None {
        found.update(i, Some(v))
    } else {
        found
    }
}

/// What reading the pairs from the pair `from` on gives, `found` being the
/// values read so far: the values of the fields, or the first message.
pub open spec fn scan_pairs(
    parts: Seq<Seq<char>>,
    fields: Seq<FieldView>,
    of_type: Seq<char>,
    from: int,
    found: Seq<Option<ValueView>>,
) -> Result<Seq<Option<ValueView>>, Seq<char>>
    decreases parts.len() - 2 * from,
{
    if from < 0 || 2 * from >= parts.len() {
        Ok(found)
    } else if 2 * from + 1 >= parts.len() {
        Err(missing_value_message(of_type))
    } else {
        match field_index(fields, parts[2 * from], fields.len() as int) {
            None => Err(unexpected_key_message(of_type)),
            Some(i) => match read_value(fields[i].kind, parts[2 * from + 1]) {
                Err(e) => Err(e),
                Ok(v) => scan_pairs(parts, fields, of_type, from + 1, with_value(found, i, v)),
            },
        }
    }
}

/// The place of the first field, among the first `upto`, that must be there
/// and has no value.
pub open spec fn first_missing(fields: Seq<FieldView>, found: Seq<Option<ValueView>>, upto: int) -> Option<
    int,
>
    decreases upto,
{
    if upto <= 0 {
        None
    } else {
        match first_missing(fields, found, upto - 1) {
            Some(i) => Some(i),
            None => if fields[upto - 1].required && found[upto - 1] is None {
                Some(upto - 1)
            } else {
                None
            },
        }
    }
}

/// No value for any of `n` fields.
pub open spec fn no_values(n: nat) -> Seq<Option<ValueView>> {
    Seq::new(n, |i: int| None)
}

/// The values of the fields that a line gives, one for each field and none
/// for a field that the line does not name; or the message for the line.
pub open spec fn parsed_form(s: Seq<char>, of_type: Seq<char>, fields: Seq<FieldView>) -> Result<
    Seq<Option<ValueView>>,
    Seq<char>,
> {
    match scan_pairs(split(s, ','), fields, of_type, 0, no_values(fields.len())) {
        Err(e) => Err(e),
        Ok(found) => match first_missing(fields, found, fields.len() as int) {
            Some(i) => Err(missing_field_message(fields[i].name, of_type)),
            None => Ok(found),
        },
    }
}

/// Every value is of the kind of its field.
pub open spec fn values_fit(fields: Seq<FieldView>, found: Seq<Option<ValueView>>) -> bool {
    &&& found.len() == fields.len()
    &&& forall|i: int|
        0 <= i < found.len() ==> ((#[trigger] found[i]) matches Some(v) ==> kind_of(v)
            == fields[i].kind)
}

/// Every field that must be there has a value.
pub open spec fn values_complete(fields: Seq<FieldView>, found: Seq<Option<ValueView>>) -> bool {
    forall|i: int|
        0 <= i < fields.len() && (#[trigger] fields[i]).required ==> found[i] is Some
}

/// The place of the first field with the name.
fn find_field(fields: &Vec<Field>, name: &str) -> (place: Option<usize>)
    ensures
        match place {
            Some(i) => i < fields@.len() && field_index(
                fields_view(fields@),
                name@,
                fields@.len() as int,
            ) == Some(i as int),
            None => field_index(fields_view(fields@), name@, fields@.len() as int) is None,
        },
{
    let mut i: usize = 0;
    while i < fields.len()
        invariant
            i <= fields@.len(),
            field_index(fields_view(fields@), name@, i as int) is None,
        decreases fields@.len() - i,
    {
        proof {
            assert(fields_view(fields@)[i as int] == fields@[i as int]@);
        }
        if str_equal(fields[i].name, name) {
            proof {
                lemma_field_index_stays(fields_view(fields@), name@, i + 1, fields@.len() as int);
            }
            return Some(i);
        }
        i = i + 1;
    }
    None
}

/// A field that is found among the first fields is found among more.
proof fn lemma_field_index_stays(fields: Seq<FieldView>, name: Seq<char>, k: int, upto: int)
    requires
        0 <= k <= upto,
        field_index(fields, name, k) is Some,
    ensures
        field_index(fields, name, upto) == field_index(fields, name, k),
    decreases upto - k,
{
    if k < upto {
        lemma_field_index_stays(fields, name, k, upto - 1);
    }
}

/// A missing field that is found among the first fields is found among more.
proof fn lemma_first_missing_stays(
    fields: Seq<FieldView>,
    found: Seq<Option<ValueView>>,
    k: int,
    upto: int,
)
    requires
        0 <= k <= upto,
        first_missing(fields, found, k) is Some,
    ensures
        first_missing(fields, found, upto) == first_missing(fields, found, k),
    decreases upto - k,
{
    if k < upto {
        lemma_first_missing_stays(fields, found, k, upto - 1);
    }
}

/// Where no field is missing among all of them, every field that must be
/// there has a value.
proof fn lemma_none_missing(fields: Seq<FieldView>, found: Seq<Option<ValueView>>, upto: int)
    requires
        0 <= upto <= fields.len(),
        first_missing(fields, found, upto) is None,
    ensures
        forall|i: int| 0 <= i < upto && (#[trigger] fields[i]).required ==> found[i] is Some,
    decreases upto,
{
    if upto > 0 {
        lemma_none_missing(fields, found, upto - 1);
    }
}

/// The value that a text gives to a field of the kind.
fn read_field(kind: FieldKind, text: &str) -> (value: Result<Value, String>)
    ensures
        match value {
            Ok(v) => read_value(kind, text@) == Ok::<ValueView, Seq<char>>(v@) && kind_of(v@)
                == kind,
            Err(e) => read_value(kind, text@) == Err::<ValueView, Seq<char>>(e@),
        },
{
    match kind {
        FieldKind::Text => Ok(Value::Text(String::from_str(text))),
        FieldKind::Int => match i64_from_str(text) {
            Ok(n) => Ok(Value::Int(n)),
            Err(k) => Err(String::from_str(k.message())),
        },
        FieldKind::Time => match parse_utc(text) {
            Ok(t) => Ok(Value::Time(t)),
            Err(e) => Err(e),
        },
    }
}

/// Reads a line of names and values with commas between as the fields of a
/// type.
pub fn parse_form(s: &str, of_type: &str, fields: &Vec<Field>) -> (values: Result<
    Vec<Option<Value>>,
    String,
>)
    ensures
        match values {
            Ok(found) => parsed_form(s@, of_type@, fields_view(fields@)) == Ok::<
                Seq<Option<ValueView>>,
                Seq<char>,
            >(values_view(found@)) && values_fit(fields_view(fields@), values_view(found@))
                && values_complete(fields_view(fields@), values_view(found@)),
            Err(e) => parsed_form(s@, of_type@, fields_view(fields@)) == Err::<
                Seq<Option<ValueView>>,
                Seq<char>,
            >(e@),
        },
{
    let parts = split_on(s, ',');
    let ghost all = texts_view(parts@);
    let ghost described = fields_view(fields@);
    let mut found: Vec<Option<Value>> = Vec::new();
    while found.len() < fields.len()
        invariant
            found@.len() <= fields@.len(),
            forall|i: int| 0 <= i < found@.len() ==> found@[i] is None,
        decreases fields@.len() - found@.len(),
    {
        found.push(None);
    }
    proof {
        assert(values_view(found@) =~= no_values(described.len()));
    }
    let mut pair: usize = 0;
    while pair < parts.len() / 2
        invariant
            all == texts_view(parts@),
            all == split(s@, ','),
            described == fields_view(fields@),
            pair <= parts@.len() / 2,
            values_fit(described, values_view(found@)),
            scan_pairs(all, described, of_type@, pair as int, values_view(found@)) == scan_pairs(
                all,
                described,
                of_type@,
                0,
                no_values(described.len()),
            ),
        decreases parts@.len() / 2 - pair,
    {
        proof {
            assert(all[2 * pair] == parts@[2 * pair]@);
            assert(all[2 * pair + 1] == parts@[2 * pair + 1]@);
        }
        let place = match find_field(fields, parts[2 * pair].as_str()) {
            Some(place) => place,
            None => {
                return Err(concat2("Unexpected key while parsing ", of_type));
            },
        };
        proof {
            assert(described[place as int] == fields@[place as int]@);
        }
        let value = match read_field(fields[place].kind, parts[2 * pair + 1].as_str()) {
            Ok(value) => value,
            Err(e) => {
                return Err(e);
            },
        };
        let ghost before = values_view(found@);
        if found[place].is_none() {
            found.set(place, Some(value));
            proof {
                assert(values_view(found@) =~= before.update(place as int, Some(value@)));
            }
        }
        proof {
            assert(values_view(found@) == with_value(before, place as int, value@));
        }
        pair = pair + 1;
    }
    if parts.len() % 2 == 1 {
        return Err(concat2("Missing value while parsing ", of_type));
    }
    let mut i: usize = 0;
    while i < fields.len()
        invariant
            i <= fields@.len(),
            described == fields_view(fields@),
            all == split(s@, ','),
            values_fit(described, values_view(found@)),
            scan_pairs(all, described, of_type@, 0, no_values(described.len())) == Ok::<
                Seq<Option<ValueView>>,
                Seq<char>,
            >(values_view(found@)),
            first_missing(described, values_view(found@), i as int) is None,
        decreases fields@.len() - i,
    {
        proof {
            assert(described[i as int] == fields@[i as int]@);
            assert(values_view(found@)[i as int] == opt_value_view(found@[i as int]));
        }
        if fields[i].required && found[i].is_none() {
            proof {
                lemma_first_missing_stays(
                    described,
                    values_view(found@),
                    i + 1,
                    fields@.len() as int,
                );
            }
            return Err(concat3(fields[i].name, " missing in ", of_type));
        }
        i = i + 1;
    }
    proof {
        lemma_none_missing(described, values_view(found@), fields@.len() as int);
    }
    Ok(found)
}

/// The text of a text field that has a value.
pub open spec fn text_of(v: Option<ValueView>) -> Seq<char> {
    v->Some_0->Text_0
}

/// The number of a number field that has a value.
pub open spec fn int_of(v: Option<ValueView>) -> i64 {
    v->Some_0->Int_0
}

/// The time of a time field that has a value.
pub open spec fn time_of(v: Option<ValueView>) -> UtcDateTime {
    v->Some_0->Time_0
}

/// The text of a text field, where it has a value.
pub open spec fn opt_text_of(v: Option<ValueView>) -> Option<Seq<char>> {
    match v {
        Some(v) => Some(v->Text_0),
        None => None,
    }
}

/// The number of a number field, where it has a value.
pub open spec fn opt_int_of(v: Option<ValueView>) -> Option<i64> {
    match v {
        Some(v) => Some(v->Int_0),
        None => None,
    }
}

/// The text of a text field, where it has a value.
fn take_opt_text(found: &Vec<Option<Value>>, i: usize) -> (text: Option<String>)
    requires
        i < found@.len(),
        found@[i as int] matches Some(v) ==> kind_of(v@) == FieldKind::Text,
    ensures
        opt_text_view(text) == opt_text_of(values_view(found@)[i as int]),
{
    match &found[i] {
        Some(Value::Text(t)) => Some(t.clone()),
        _ => None,
    }
}

/// The text of a text field that has a value.
fn take_text(found: &Vec<Option<Value>>, i: usize) -> (text: String)
    requires
        i < found@.len(),
        found@[i as int] matches Some(v) && kind_of(v@) == FieldKind::Text,
    ensures
        text@ == text_of(values_view(found@)[i as int]),
{
    match &found[i] {
        Some(Value::Text(t)) => t.clone(),
        _ => String::new(),
    }
}

/// The number of a number field, where it has a value.
fn take_opt_int(found: &Vec<Option<Value>>, i: usize) -> (number: Option<i64>)
    requires
        i < found@.len(),
        found@[i as int] matches Some(v) ==> kind_of(v@) == FieldKind::Int,
    ensures
        number == opt_int_of(values_view(found@)[i as int]),
{
    match &found[i] {
        Some(Value::Int(n)) => Some(*n),
        _ => None,
    }
}

/// The number of a number field that has a value.
fn take_int(found: &Vec<Option<Value>>, i: usize) -> (number: i64)
    requires
        i < found@.len(),
        found@[i as int] matches Some(v) && kind_of(v@) == FieldKind::Int,
    ensures
        number == int_of(values_view(found@)[i as int]),
{
    match &found[i] {
        Some(Value::Int(n)) => *n,
        _ => 0,
    }
}

/// The time of a time field that has a value.
fn take_time(found: &Vec<Option<Value>>, i: usize, otherwise: UtcDateTime) -> (time: UtcDateTime)
    requires
        i < found@.len(),
        found@[i as int] matches Some(v) && kind_of(v@) == FieldKind::Time,
    ensures
        time == time_of(values_view(found@)[i as int]),
{
    match &found[i] {
        Some(Value::Time(t)) => *t,
        _ => otherwise,
    }
}

/// A field that must be there.
fn required(name: &'static str, kind: FieldKind) -> (field: Field)
    ensures
        field@ == (FieldView { name: name@, kind, required: true }),
{
    Field { name, kind, required: true }
}

/// A field that may be missing.
fn optional(name: &'static str, kind: FieldKind) -> (field: Field)
    ensures
        field@ == (FieldView { name: name@, kind, required: false }),
{
    Field { name, kind, required: false }
}

/// The description of a field.
pub open spec fn field(name: Seq<char>, kind: FieldKind, required: bool) -> FieldView {
    FieldView { name, kind, required }
}

/// A name, a comma and a number behind a comma, where there is a number.
pub open spec fn optional_number(name: Seq<char>, number: Option<i64>) -> Seq<char> {
    match number {
        Some(n) => seq![','] + name + seq![','] + decimal(n as int),
        None => Seq::empty(),
    }
}

/// A name, a comma and a text behind a comma, where there is a text.
pub open spec fn optional_text(name: Seq<char>, text: Option<Seq<char>>) -> Seq<char> {
    match text {
        Some(t) => seq![','] + name + seq![','] + t,
        None => Seq::empty(),
    }
}

/// Appends a comma, the name, a comma and the number, where there is a
/// number.
fn push_optional_number(line: &mut String, name: &str, number: Option<i64>)
    ensures
        final(line)@ == old(line)@ + optional_number(name@, number),
{
    match number {
        Some(n) => {
            proof {
                reveal_strlit(",");
            }
            let digits = i64_to_string(n);
            line.append(",");
            line.append(name);
            line.append(",");
            line.append(digits.as_str());
            proof {
                assert(line@ =~= old(line)@ + optional_number(name@, number));
            }
        },
        None => {
            proof {
                assert(line@ =~= old(line)@ + optional_number(name@, number));
            }
        },
    }
}

/// Appends a comma, the name, a comma and the text, where there is a text.
fn push_optional_text(line: &mut String, name: &str, text: &Option<String>)
    ensures
        final(line)@ == old(line)@ + optional_text(name@, opt_text_view(*text)),
{
    match text {
        Some(t) => {
            proof {
                reveal_strlit(",");
            }
            line.append(",");
            line.append(name);
            line.append(",");
            line.append(t.as_str());
            proof {
                assert(line@ =~= old(line)@ + optional_text(name@, opt_text_view(*text)));
            }
        },
        None => {
            proof {
                assert(line@ =~= old(line)@ + optional_text(name@, opt_text_view(*text)));
            }
        },
    }
}

/// The fields of a request to create a topic.
pub open spec fn create_topic_request_fields() -> Seq<FieldView> {
    seq![
        field("topic_name"@, FieldKind::Text, true),
        field("parent_topic_id"@, FieldKind::Int, false),
    ]
}

/// The fields of the body of an error response.
pub open spec fn error_response_fields() -> Seq<FieldView> {
    seq![field("error"@, FieldKind::Text, true), field("message"@, FieldKind::Text, true)]
}

/// The fields of a request to create a daily track.
pub open spec fn create_daily_track_request_fields() -> Seq<FieldView> {
    seq![
        field("start_time"@, FieldKind::Time, true),
        field("topic_id"@, FieldKind::Int, true),
        field("comment"@, FieldKind::Text, false),
    ]
}

/// The fields of a topic.
pub open spec fn topic_fields() -> Seq<FieldView> {
    seq![
        field("id"@, FieldKind::Int, true),
        field("topic_name"@, FieldKind::Text, true),
        field("created_at"@, FieldKind::Time, true),
        field("updated_at"@, FieldKind::Time, true),
        field("parent_topic_id"@, FieldKind::Int, false),
    ]
}

/// The fields of a daily track.
pub open spec fn daily_track_fields() -> Seq<FieldView> {
    seq![
        field("id"@, FieldKind::Int, true),
        field("start_time"@, FieldKind::Time, true),
        field("created_at"@, FieldKind::Time, true),
        field("updated_at"@, FieldKind::Time, true),
        field("topic_id"@, FieldKind::Int, false),
        field("comment"@, FieldKind::Text, false),
    ]
}

impl CreateTopicRequest {
    /// The request in one line: the name, and the parent where there is one.
    pub fn to_string(&self) -> (line: String)
        ensures
            line@ == "topic_name,"@ + self.topic_name@ + optional_number(
                "parent_topic_id"@,
                self.parent_topic_id,
            ),
    {
        let mut line = concat2("topic_name,", self.topic_name.as_str());
        push_optional_number(&mut line, "parent_topic_id", self.parent_topic_id);
        line
    }

    /// Reads a request from one line.
    pub fn from_str(s: &str) -> (request: Result<CreateTopicRequest, String>)
        ensures
            match parsed_form(s@, "CreateTopicRequest"@, create_topic_request_fields()) {
                Ok(found) => request matches Ok(r) && r.topic_name@ == text_of(found[0])
                    && r.parent_topic_id == opt_int_of(found[1]),
                Err(e) => request matches Err(m) && m@ == e,
            },
    {
        let fields = vec![
            required("topic_name", FieldKind::Text),
            optional("parent_topic_id", FieldKind::Int),
        ];
        proof {
            assert(fields_view(fields@) =~= create_topic_request_fields());
        }
        match parse_form(s, "CreateTopicRequest", &fields) {
            Err(e) => Err(e),
            Ok(found) => {
                proof {
                    let values = values_view(found@);
                    assert(values[0] == opt_value_view(found@[0]));
                    assert(values[1] == opt_value_view(found@[1]));
                    assert(fields_view(fields@)[0].required);
                }
                Ok(
                    CreateTopicRequest {
                        topic_name: take_text(&found, 0),
                        parent_topic_id: take_opt_int(&found, 1),
                    },
                )
            },
        }
    }
}

impl ErrorResponse {
    /// The body in one line: the code and the message.
    pub fn to_string(&self) -> (line: String)
        ensures
            line@ == "error,"@ + self.error@ + ",message,"@ + self.message@,
    {
        let mut line = concat3("error,", self.error.as_str(), ",message,");
        line.append(self.message.as_str());
        line
    }

    /// Reads a body from one line.
    pub fn from_str(s: &str) -> (body: Result<ErrorResponse, String>)
        ensures
            match parsed_form(s@, "ErrorResponse"@, error_response_fields()) {
                Ok(found) => body matches Ok(b) && b.error@ == text_of(found[0]) && b.message@
                    == text_of(found[1]),
                Err(e) => body matches Err(m) && m@ == e,
            },
    {
        let fields = vec![required("error", FieldKind::Text), required("message", FieldKind::Text)];
        proof {
            assert(fields_view(fields@) =~= error_response_fields());
        }
        match parse_form(s, "ErrorResponse", &fields) {
            Err(e) => Err(e),
            Ok(found) => {
                proof {
                    let values = values_view(found@);
                    assert(values[0] == opt_value_view(found@[0]));
                    assert(values[1] == opt_value_view(found@[1]));
                    assert(fields_view(fields@)[0].required);
                    assert(fields_view(fields@)[1].required);
                }
                Ok(ErrorResponse { error: take_text(&found, 0), message: take_text(&found, 1) })
            },
        }
    }
}

impl CreateDailyTrackRequest {
    /// The request in one line: the topic, and the comment where there is
    /// one. The start time is left out.
    pub fn to_string(&self) -> (line: String)
        ensures
            line@ == "topic_id,"@ + decimal(self.topic_id as int) + optional_text(
                "comment"@,
                opt_text_view(self.comment),
            ),
    {
        let number = i64_to_string(self.topic_id);
        let mut line = concat2("topic_id,", number.as_str());
        push_optional_text(&mut line, "comment", &self.comment);
        line
    }

    /// Reads a request from one line.
    pub fn from_str(s: &str) -> (request: Result<CreateDailyTrackRequest, String>)
        ensures
            match parsed_form(s@, "CreateDailyTrackRequest"@, create_daily_track_request_fields()) {
                Ok(found) => request matches Ok(r) && r.start_time == time_of(found[0])
                    && r.topic_id == int_of(found[1]) && opt_text_view(r.comment) == opt_text_of(
                    found[2],
                ),
                Err(e) => request matches Err(m) && m@ == e,
            },
    {
        let fields = vec![
            required("start_time", FieldKind::Time),
            required("topic_id", FieldKind::Int),
            optional("comment", FieldKind::Text),
        ];
        proof {
            assert(fields_view(fields@) =~= create_daily_track_request_fields());
        }
        match parse_form(s, "CreateDailyTrackRequest", &fields) {
            Err(e) => Err(e),
            Ok(found) => {
                proof {
                    let values = values_view(found@);
                    assert(values[0] == opt_value_view(found@[0]));
                    assert(values[1] == opt_value_view(found@[1]));
                    assert(values[2] == opt_value_view(found@[2]));
                    assert(fields_view(fields@)[0].required);
                    assert(fields_view(fields@)[1].required);
                }
                Ok(
                    CreateDailyTrackRequest {
                        start_time: take_time(&found, 0, unix_epoch()),
                        topic_id: take_int(&found, 1),
                        comment: take_opt_text(&found, 2),
                    },
                )
            },
        }
    }
}

/// Midnight in UTC on the first day of 1970.
fn unix_epoch() -> (epoch: UtcDateTime)
    ensures
        epoch == (UtcDateTime {
            utc: DateTime {
                date: Date { year: 1970, month: 1, day: 1 },
                hour: 0,
                minute: 0,
                second: 0,
                nanosecond: 0,
            },
        }),
        epoch.utc.wf(),
{
    UtcDateTime {
        utc: DateTime {
            date: Date { year: 1970, month: 1, day: 1 },
            hour: 0,
            minute: 0,
            second: 0,
            nanosecond: 0,
        },
    }
}

impl Topic {
    /// The topic in one line: its number, its name, and its parent where it
    /// has one. The times are left out.
    pub fn to_string(&self) -> (line: String)
        ensures
            line@ == "id,"@ + decimal(self.id as int) + ",topic_name,"@ + self.topic_name@
                + optional_number("parent_topic_id"@, self.parent_topic_id),
    {
        let number = i64_to_string(self.id);
        let mut line = concat3("id,", number.as_str(), ",topic_name,");
        line.append(self.topic_name.as_str());
        push_optional_number(&mut line, "parent_topic_id", self.parent_topic_id);
        line
    }

    /// Reads a topic from one line.
    pub fn from_str(s: &str) -> (topic: Result<Topic, String>)
        ensures
            match parsed_form(s@, "Topic"@, topic_fields()) {
                Ok(found) => topic matches Ok(t) && t.id == int_of(found[0]) && t.topic_name@
                    == text_of(found[1]) && t.created_at == time_of(found[2]) && t.updated_at
                    == time_of(found[3]) && t.parent_topic_id == opt_int_of(found[4]),
                Err(e) => topic matches Err(m) && m@ == e,
            },
    {
        let fields = vec![
            required("id", FieldKind::Int),
            required("topic_name", FieldKind::Text),
            required("created_at", FieldKind::Time),
            required("updated_at", FieldKind::Time),
            optional("parent_topic_id", FieldKind::Int),
        ];
        proof {
            assert(fields_view(fields@) =~= topic_fields());
        }
        match parse_form(s, "Topic", &fields) {
            Err(e) => Err(e),
            Ok(found) => {
                proof {
                    let values = values_view(found@);
                    assert(values[0] == opt_value_view(found@[0]));
                    assert(values[1] == opt_value_view(found@[1]));
                    assert(values[2] == opt_value_view(found@[2]));
                    assert(values[3] == opt_value_view(found@[3]));
                    assert(values[4] == opt_value_view(found@[4]));
                    assert(fields_view(fields@)[0].required);
                    assert(fields_view(fields@)[1].required);
                    assert(fields_view(fields@)[2].required);
                    assert(fields_view(fields@)[3].required);
                }
                Ok(
                    Topic {
                        id: take_int(&found, 0),
                        topic_name: take_text(&found, 1),
                        created_at: take_time(&found, 2, unix_epoch()),
                        updated_at: take_time(&found, 3, unix_epoch()),
                        parent_topic_id: take_opt_int(&found, 4),
                    },
                )
            },
        }
    }
}

impl DailyTrack {
    /// The daily track in one line: its number, its topic where it has one,
    /// and its comment where it has one. The times are left out.
    pub fn to_string(&self) -> (line: String)
        ensures
            line@ == "id,"@ + decimal(self.id as int) + optional_number("topic_id"@, self.topic_id)
                + optional_text("comment"@, opt_text_view(self.comment)),
    {
        let number = i64_to_string(self.id);
        let mut line = concat2("id,", number.as_str());
        push_optional_number(&mut line, "topic_id", self.topic_id);
        push_optional_text(&mut line, "comment", &self.comment);
        line
    }

    /// Reads a daily track from one line.
    pub fn from_str(s: &str) -> (track: Result<DailyTrack, String>)
        ensures
            match parsed_form(s@, "DailyTrack"@, daily_track_fields()) {
                Ok(found) => track matches Ok(t) && t.id == int_of(found[0]) && t.start_time
                    == time_of(found[1]) && t.created_at == time_of(found[2]) && t.updated_at
                    == time_of(found[3]) && t.topic_id == opt_int_of(found[4]) && opt_text_view(
                    t.comment,
                ) == opt_text_of(found[5]),
                Err(e) => track matches Err(m) && m@ == e,
            },
    {
        let fields = vec![
            required("id", FieldKind::Int),
            required("start_time", FieldKind::Time),
            required("created_at", FieldKind::Time),
            required("updated_at", FieldKind::Time),
            optional("topic_id", FieldKind::Int),
            optional("comment", FieldKind::Text),
        ];
        proof {
            assert(fields_view(fields@) =~= daily_track_fields());
        }
        match parse_form(s, "DailyTrack", &fields) {
            Err(e) => Err(e),
            Ok(found) => {
                proof {
                    let values = values_view(found@);
                    assert(values[0] == opt_value_view(found@[0]));
                    assert(values[1] == opt_value_view(found@[1]));
                    assert(values[2] == opt_value_view(found@[2]));
                    assert(values[3] == opt_value_view(found@[3]));
                    assert(values[4] == opt_value_view(found@[4]));
                    assert(values[5] == opt_value_view(found@[5]));
                    assert(fields_view(fields@)[0].required);
                    assert(fields_view(fields@)[1].required);
                    assert(fields_view(fields@)[2].required);
                    assert(fields_view(fields@)[3].required);
                }
                Ok(
                    DailyTrack {
                        id: take_int(&found, 0),
                        start_time: take_time(&found, 1, unix_epoch()),
                        created_at: take_time(&found, 2, unix_epoch()),
                        updated_at: take_time(&found, 3, unix_epoch()),
                        topic_id: take_opt_int(&found, 4),
                        comment: take_opt_text(&found, 5),
                    },
                )
            },
        }
    }
}

} // verus!
