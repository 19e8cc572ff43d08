//! Line-protocol records: a measurement, tags, fields and an optional
//! timestamp, and the text that the metrics database reads.

use vstd::prelude::*;
use vstd::string::*;
use crate::decimal::{push_signed_decimal, signed_decimal};

verus! {

/// The value of one field.
#[derive(Debug, Clone, PartialEq, Eq)]
pub enum FieldValue {
    /// A floating-point reading, held as its decimal text and written as it is.
    Number(String),
    /// An integer, written in decimal with the suffix `i`.
    Integer(i64),
    /// A string, written between double quotes. Quotes inside it are not escaped.
    Text(String),
}

pub enum FieldValueView {
    Number(Seq<char>),
    Integer(int),
    Text(Seq<char>),
}

impl View for FieldValue {
    type V = FieldValueView;

    open spec fn view(&self) -> FieldValueView {
        match *self {
            FieldValue::Number(text) => FieldValueView::Number(text@),
            FieldValue::Integer(i) => FieldValueView::Integer(i as int),
            FieldValue::Text(text) => FieldValueView::Text(text@),
        }
    }
}

/// One field of a record: a name and a value.
#[derive(Debug, Clone, PartialEq, Eq)]
pub struct Entry {
    pub name: String,
    pub value: FieldValue,
}

pub struct EntryView {
    pub name: Seq<char>,
    pub value: FieldValueView,
}

impl View for Entry {
    type V = EntryView;

    open spec fn view(&self) -> EntryView {
        EntryView { name: self.name@, value: self.value@ }
    }
}

/// One tag of a record: a name and a value, both written as they are.
#[derive(Debug, Clone, PartialEq, Eq)]
pub struct Tag {
    pub name: String,
    pub value: String,
}

pub struct TagView {
    pub name: Seq<char>,
    pub value: Seq<char>,
}

impl View for Tag {
    type V = TagView;

    open spec fn view(&self) -> TagView {
        TagView { name: self.name@, value: self.value@ }
    }
}

/// A line-protocol record.
#[derive(Debug, Clone, PartialEq, Eq)]
pub struct Record {
    pub measurement: String,
    pub tags: Vec<Tag>,
    pub fields: Vec<Entry>,
    /// Nanoseconds since the epoch, where the record carries a time.
    pub timestamp: Option<i128>,
}

pub struct RecordView {
    pub measurement: Seq<char>,
    pub tags: Seq<TagView>,
    pub fields: Seq<EntryView>,
    pub timestamp: Option<int>,
}

/// The views of a sequence of tags, in order.
pub open spec fn tag_views(tags: Seq<Tag>) -> Seq<TagView> {
    Seq::new(tags.len(), |i: int| tags[i]@)
}

/// The views of a sequence of fields, in order.
pub open spec fn entry_views(fields: Seq<Entry>) -> Seq<EntryView> {
    Seq::new(fields.len(), |i: int| fields[i]@)
}

impl View for Record {
    type V = RecordView;

    open spec fn view(&self) -> RecordView {
        RecordView {
            measurement: self.measurement@,
            tags: tag_views(self.tags@),
            fields: entry_views(self.fields@),
            timestamp: match self.timestamp {
                Some(t) => Some(t as int),
                None => None,
            },
        }
    }
}

/// The text of a tag set: each tag as `,name=value`, in order.
pub open spec fn tags_text(tags: Seq<TagView>) -> Seq<char>
    decreases tags.len(),
{
    if tags.len() == 0 {
        Seq::empty()
    } else {
        tags_text(tags.drop_last()) + seq![','] + tags.last().name + seq!['='] + tags.last().value
    }
}

/// The text of a field value.
pub open spec fn value_text(value: FieldValueView) -> Seq<char> {
    match value {
        FieldValueView::Number(text) => text,
        FieldValueView::Integer(i) => signed_decimal(i) + seq!['i'],
        FieldValueView::Text(text) => seq!['"'] + text + seq!['"'],
    }
}

/// The text of one field: `name=value`.
pub open spec fn entry_text(entry: EntryView) -> Seq<char> {
    entry.name + seq!['='] + value_text(entry.value)
}

/// The text of a field set: the fields in order, with a comma between two.
pub open spec fn fields_text(fields: Seq<EntryView>) -> Seq<char>
    decreases fields.len(),
{
    if fields.len() == 0 {
        Seq::empty()
    } else if fields.len() == 1 {
        entry_text(fields[0])
    } else {
        fields_text(fields.drop_last()) + seq![','] + entry_text(fields.last())
    }
}

/// The text of a timestamp: a space and the decimal number, or nothing.
pub open spec fn timestamp_text(timestamp: Option<int>) -> Seq<char> {
    match timestamp {
        Some(t) => seq![' '] + signed_decimal(t),
        None => Seq::empty(),
    }
}

/// The text of a record: the measurement, the tags, a space, the fields and
/// the timestamp.
pub open spec fn record_text(record: RecordView) -> Seq<char> {
    record.measurement + tags_text(record.tags) + seq![' '] + fields_text(record.fields)
        + timestamp_text(record.timestamp)
}

/// Appends the text of a field value to `out`.
fn push_value(out: &mut String, value: &FieldValue)
    ensures
        final(out)@ == old(out)@ + value_text(value@),
{
    proof {
        reveal_strlit("i");
        reveal_strlit("\"");
    }
    match value {
        FieldValue::Number(text) => {
            out.append(text.as_str());
        },
        FieldValue::Integer(i) => {
            push_signed_decimal(out, *i as i128);
            out.append("i");
            assert(out@ =~= old(out)@ + value_text(value@));
        },
        FieldValue::Text(text) => {
            out.append("\"");
            out.append(text.as_str());
            out.append("\"");
            assert(out@ =~= old(out)@ + value_text(value@));
        },
    }
}

impl Record {
    /// The record as one line of text.
    pub fn render(&self) -> (line: String)
        ensures
            line@ == record_text(self@),
    {
        proof {
            reveal_strlit(",");
            reveal_strlit("=");
            reveal_strlit(" ");
        }
        let mut line: String = self.measurement.clone();
        let ghost tags = tag_views(self.tags@);
        let mut t: usize = 0;
        while t < self.tags.len()
            invariant
                t <= self.tags.len(),
                tags == tag_views(self.tags@),
                line@ == self.measurement@ + tags_text(tags.take(t as int)),
                ","@ == seq![','],
                "="@ == seq!['='],
            decreases self.tags.len() - t,
        {
            line.append(",");
            line.append(self.tags[t].name.as_str());
            line.append("=");
            line.append(self.tags[t].value.as_str());
            proof {
                let next = tags.take(t + 1);
                assert(next.drop_last() =~= tags.take(t as int));
                assert(line@ =~= self.measurement@ + tags_text(next));
            }
            t = t + 1;
        }
        assert(tags.take(t as int) =~= tags);
        line.append(" ");
        let ghost head = line@;
        let ghost fields = entry_views(self.fields@);
        let mut f: usize = 0;
        while f < self.fields.len()
            invariant
                f <= self.fields.len(),
                fields == entry_views(self.fields@),
                line@ == head + fields_text(fields.take(f as int)),
                ","@ == seq![','],
                "="@ == seq!['='],
            decreases self.fields.len() - f,
        {
            if f > 0 {
                line.append(",");
            }
            line.append(self.fields[f].name.as_str());
            line.append("=");
            push_value(&mut line, &self.fields[f].value);
            proof {
                let next = fields.take(f + 1);
                assert(next.drop_last() =~= fields.take(f as int));
                assert(line@ =~= head + fields_text(next));
            }
            f = f + 1;
        }
        assert(fields.take(f as int) =~= fields);
        match self.timestamp {
            Some(stamp) => {
                line.append(" ");
                push_signed_decimal(&mut line, stamp);
            },
            None => {},
        }
        line
    }
}

} // verus!
