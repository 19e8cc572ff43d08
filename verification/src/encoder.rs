//! From an envelope and its packet to a line-protocol record.
//!
//! The record has the measurement `packet`, the tags `gateway`, `node` and
//! `pathend`, and one field for each value that the packet carries. A field
//! is named after the kind of its data field, the index of that data field
//! among those of its kind, and the part of it that the value is.

use vstd::prelude::*;
use vstd::string::*;
use crate::decimal::{decimal, lemma_decimal_injective, lemma_decimal_is_digits, signed_decimal};
use crate::envelope::{Envelope, EnvelopeView};
use crate::names::{
    field_name, indexed_name, lemma_names_one_field, lemma_names_own_field,
    lemma_part_names_differ, lemma_stems, names_field, part_field_name, part_name,
    reading_field_name, stem,
};
use crate::packet::{
    field_views, kind_index, kind_indices, kind_of, lemma_kind_index_ascends, text_views,
    DataField, DataFieldView, Kind, Packet, PacketView,
};
use crate::record::{
    entry_views, fields_text, record_text, tag_views, tags_text, Entry, EntryView, FieldValue,
    FieldValueView, Record, RecordView, Tag, TagView,
};
use crate::schema::Schema;
use crate::timestamp::{epoch_nanos, parse_timestamp, strptime_timespec, timestamp_format, UtcTime};

verus! {

/// Why a packet has no record.
#[derive(Debug, Clone, Copy, PartialEq, Eq, Structural)]
pub enum EncodeError {
    /// The path is empty: there is no origin and no path end to tag with.
    MissingPath,
    /// The timestamp of the envelope cannot be read.
    BadTimestamp,
}

/// A field that holds a reading.
pub open spec fn number_entry(name: Seq<char>, text: Seq<char>) -> EntryView {
    EntryView { name, value: FieldValueView::Number(text) }
}

/// The fields of a data field with readings: one for each reading, numbered
/// from 1 in the order of the readings.
pub open spec fn reading_entries(
    kind: Kind,
    index: nat,
    readings: Seq<Seq<char>>,
) -> Seq<EntryView> {
    Seq::new(
        readings.len(),
        |j: int| number_entry(part_name(kind, index, decimal((j + 1) as nat)), readings[j]),
    )
}

/// The fields of a position: latitude and longitude where both are there,
/// then the altitude where it is there.
pub open spec fn location_entries(
    index: nat,
    latlng: Option<(Seq<char>, Seq<char>)>,
    alt: Option<Seq<char>>,
) -> Seq<EntryView> {
    (match latlng {
        Some((lat, lng)) => seq![
            number_entry(part_name(Kind::Location, index, "latitude"@), lat),
            number_entry(part_name(Kind::Location, index, "longitude"@), lng),
        ],
        None => Seq::empty(),
    }) + (match alt {
        Some(a) => seq![number_entry(part_name(Kind::Location, index, "altitude"@), a)],
        None => Seq::empty(),
    })
}

/// The fields of a wind reading: the speed where it is there, then the
/// bearing where it is there.
pub open spec fn wind_entries(
    index: nat,
    speed: Option<Seq<char>>,
    bearing: Option<Seq<char>>,
) -> Seq<EntryView> {
    (match speed {
        Some(s) => seq![number_entry(part_name(Kind::WindSpeed, index, "speed"@), s)],
        None => Seq::empty(),
    }) + (match bearing {
        Some(b) => seq![number_entry(part_name(Kind::WindSpeed, index, "bearing"@), b)],
        None => Seq::empty(),
    })
}

/// The fields of one data field that has the index `index` among those of
/// its kind.
pub open spec fn field_entries(field: DataFieldView, index: nat) -> Seq<EntryView> {
    match field {
        DataFieldView::Readings(kind, readings) => reading_entries(kind, index, readings),
        DataFieldView::Location { latlng, alt } => location_entries(index, latlng, alt),
        DataFieldView::WindSpeed { speed, bearing } => wind_entries(index, speed, bearing),
        DataFieldView::Zombie(z) => seq![
            EntryView {
                name: indexed_name(Kind::Zombie, index),
                value: FieldValueView::Integer(z),
            },
        ],
        DataFieldView::Comment(c) => seq![
            EntryView {
                name: indexed_name(Kind::Comment, index),
                value: FieldValueView::Text(c),
            },
        ],
    }
}

/// The fields of the first `n` data fields, in the order of the data fields.
pub open spec fn data_entries(data: Seq<DataFieldView>, n: int) -> Seq<EntryView>
    decreases n,
{
    if n <= 0 {
        Seq::empty()
    } else {
        data_entries(data, n - 1) + field_entries(data[n - 1], kind_index(data, n - 1))
    }
}

/// The age to write: that of the envelope, where the protocol version
/// carries one.
pub open spec fn carried_age(schema: Schema, envelope: EnvelopeView) -> Option<int> {
    if schema.carries_age {
        envelope.age
    } else {
        None
    }
}

/// The fields that stand before those of the data: the signal strength, and
/// the age where the protocol version carries it.
pub open spec fn link_entries(schema: Schema, envelope: EnvelopeView) -> Seq<EntryView> {
    seq![EntryView { name: "gw_rssi"@, value: FieldValueView::Integer(envelope.rssi) }] + (
    match carried_age(schema, envelope) {
        Some(a) => seq![EntryView { name: "gw_age"@, value: FieldValueView::Integer(a) }],
        None => Seq::empty(),
    })
}

/// The fields that stand after those of the data: the comment of the packet
/// where it has one, and the sentence where the protocol version includes it.
pub open spec fn closing_entries(
    schema: Schema,
    envelope: EnvelopeView,
    packet: PacketView,
) -> Seq<EntryView> {
    (match packet.comment {
        Some(c) => seq![EntryView { name: "message"@, value: FieldValueView::Text(c) }],
        None => Seq::empty(),
    }) + (if schema.includes_sentence {
        seq![EntryView { name: "sentence"@, value: FieldValueView::Text(envelope.sentence) }]
    } else {
        Seq::empty()
    })
}

/// The tags of a packet with a path: the gateway, the first node of the path
/// and the last.
pub open spec fn packet_tags(envelope: EnvelopeView, packet: PacketView) -> Seq<TagView> {
    seq![
        TagView { name: "gateway"@, value: envelope.gateway },
        TagView { name: "node"@, value: packet.path[0] },
        TagView { name: "pathend"@, value: packet.path.last() },
    ]
}

/// The record of a packet with a path, received at `nanos` nanoseconds since
/// the epoch.
pub open spec fn record_of(
    schema: Schema,
    envelope: EnvelopeView,
    packet: PacketView,
    nanos: int,
) -> RecordView {
    RecordView {
        measurement: "packet"@,
        tags: packet_tags(envelope, packet),
        fields: link_entries(schema, envelope)
            + data_entries(packet.data, packet.data.len() as int)
            + closing_entries(schema, envelope, packet),
        timestamp: Some(nanos),
    }
}

/// What encoding gives: `MissingPath` for an empty path, else `BadTimestamp`
/// where the time of reception was not read, else the record.
pub open spec fn encoded(
    schema: Schema,
    envelope: EnvelopeView,
    packet: PacketView,
    stamp: Option<UtcTime>,
) -> Result<RecordView, EncodeError> {
    if packet.path.len() == 0 {
        Err(EncodeError::MissingPath)
    } else {
        match stamp {
            None => Err(EncodeError::BadTimestamp),
            Some(at) => Ok(record_of(schema, envelope, packet, epoch_nanos(at))),
        }
    }
}

/// What encoding to text gives: the text of the record, or the failure.
pub open spec fn encoded_line(
    schema: Schema,
    envelope: EnvelopeView,
    packet: PacketView,
    stamp: Option<UtcTime>,
) -> Result<Seq<char>, EncodeError> {
    match encoded(schema, envelope, packet, stamp) {
        Ok(record) => Ok(record_text(record)),
        Err(e) => Err(e),
    }
}

/// A packet with a path that was received at a known time has a record, and
/// the tags of the record are the gateway, the first node of the path and
/// the last, in that order, and no others.
pub proof fn lemma_tags_of_record(
    schema: Schema,
    envelope: EnvelopeView,
    packet: PacketView,
    at: UtcTime,
)
    requires
        packet.path.len() > 0,
    ensures
        encoded(schema, envelope, packet, Some(at)) matches Ok(record) && record.tags == seq![
            TagView { name: "gateway"@, value: envelope.gateway },
            TagView { name: "node"@, value: packet.path[0] },
            TagView { name: "pathend"@, value: packet.path[packet.path.len() - 1] },
        ],
{
}

/// The text of a packet's record starts with the measurement and the three
/// tags: `packet,gateway=G,node=N,pathend=P`, then a space.
pub proof fn lemma_line_starts_with_tags(
    schema: Schema,
    envelope: EnvelopeView,
    packet: PacketView,
    at: UtcTime,
)
    requires
        packet.path.len() > 0,
    ensures
        encoded_line(schema, envelope, packet, Some(at)) matches Ok(line) && line == "packet"@
            + seq![','] + "gateway"@ + seq!['='] + envelope.gateway + seq![','] + "node"@
            + seq!['='] + packet.path[0] + seq![','] + "pathend"@ + seq!['=']
            + packet.path[packet.path.len() - 1] + seq![' '] + fields_text(
            record_of(schema, envelope, packet, epoch_nanos(at)).fields,
        ) + seq![' '] + signed_decimal(epoch_nanos(at)),
{
    let record = record_of(schema, envelope, packet, epoch_nanos(at));
    let tags = record.tags;
    assert(tags.drop_last().drop_last().drop_last() =~= Seq::<TagView>::empty());
    assert(tags_text(tags.drop_last().drop_last().drop_last()) =~= Seq::<char>::empty());
    assert(tags_text(tags.drop_last().drop_last()) =~= seq![','] + "gateway"@ + seq!['=']
        + envelope.gateway);
    assert(tags_text(tags.drop_last()) =~= seq![','] + "gateway"@ + seq!['='] + envelope.gateway
        + seq![','] + "node"@ + seq!['='] + packet.path[0]);
    assert(tags_text(tags) =~= seq![','] + "gateway"@ + seq!['='] + envelope.gateway + seq![',']
        + "node"@ + seq!['='] + packet.path[0] + seq![','] + "pathend"@ + seq!['=']
        + packet.path[packet.path.len() - 1]);
    assert(record_text(record) =~= "packet"@ + seq![','] + "gateway"@ + seq!['=']
        + envelope.gateway + seq![','] + "node"@ + seq!['='] + packet.path[0] + seq![',']
        + "pathend"@ + seq!['='] + packet.path[packet.path.len() - 1] + seq![' '] + fields_text(
        record.fields,
    ) + seq![' '] + signed_decimal(epoch_nanos(at)));
}

/// Whether the name is that of a field of the data field at position `i`.
pub open spec fn owned_by(data: Seq<DataFieldView>, i: int, name: Seq<char>) -> bool {
    names_field(name, kind_of(data[i]), kind_index(data, i))
}

/// Whether the name is that of a field of one of the first `n` data fields.
pub open spec fn has_owner(data: Seq<DataFieldView>, n: int, name: Seq<char>) -> bool {
    exists|i: int| 0 <= i < n && #[trigger] owned_by(data, i, name)
}

/// Whether no two of the fields have the same name.
pub open spec fn names_distinct(fields: Seq<EntryView>) -> bool {
    forall|a: int, b: int| 0 <= a < b < fields.len() ==> fields[a].name != fields[b].name
}

/// The fields of one data field are named after it, and no two of them have
/// the same name.
pub proof fn lemma_field_entries_named(field: DataFieldView, index: nat)
    ensures
        forall|e: int|
            0 <= e < field_entries(field, index).len() ==> names_field(
                #[trigger] field_entries(field, index)[e].name,
                kind_of(field),
                index,
            ),
        names_distinct(field_entries(field, index)),
{
    let entries = field_entries(field, index);
    let kind = kind_of(field);
    assert forall|e: int| 0 <= e < entries.len() implies names_field(
        #[trigger] entries[e].name,
        kind,
        index,
    ) by {
        lemma_names_own_field(kind, index, decimal((e + 1) as nat));
        lemma_names_own_field(kind, index, "latitude"@);
        lemma_names_own_field(kind, index, "longitude"@);
        lemma_names_own_field(kind, index, "altitude"@);
        lemma_names_own_field(kind, index, "speed"@);
        lemma_names_own_field(kind, index, "bearing"@);
    }
    assert forall|a: int, b: int| 0 <= a < b < entries.len() implies entries[a].name
        != entries[b].name by {
        match field {
            DataFieldView::Readings(_, _) => {
                lemma_part_names_differ(
                    kind,
                    index,
                    decimal((a + 1) as nat),
                    decimal((b + 1) as nat),
                );
                if decimal((a + 1) as nat) == decimal((b + 1) as nat) {
                    lemma_decimal_injective((a + 1) as nat, (b + 1) as nat);
                }
            },
            DataFieldView::Location { .. } => {
                reveal_strlit("latitude");
                reveal_strlit("longitude");
                reveal_strlit("altitude");
                assert("latitude"@[0] != "altitude"@[0]);
                lemma_part_names_differ(kind, index, "latitude"@, "altitude"@);
            },
            DataFieldView::WindSpeed { .. } => {
                reveal_strlit("speed");
                reveal_strlit("bearing");
                lemma_part_names_differ(kind, index, "speed"@, "bearing"@);
            },
            DataFieldView::Zombie(_) => {},
            DataFieldView::Comment(_) => {},
        }
    }
}

/// Each field of the data is named after its data field, and no two fields
/// of the data have the same name.
pub proof fn lemma_data_entries_distinct(data: Seq<DataFieldView>, n: int)
    requires
        0 <= n <= data.len(),
    ensures
        forall|e: int|
            0 <= e < data_entries(data, n).len() ==> has_owner(
                data,
                n,
                #[trigger] data_entries(data, n)[e].name,
            ),
        names_distinct(data_entries(data, n)),
    decreases n,
{
    if n > 0 {
        let before = data_entries(data, n - 1);
        let last = field_entries(data[n - 1], kind_index(data, n - 1));
        let all = data_entries(data, n);
        lemma_data_entries_distinct(data, n - 1);
        lemma_field_entries_named(data[n - 1], kind_index(data, n - 1));
        assert forall|e: int| 0 <= e < all.len() implies has_owner(
            data,
            n,
            #[trigger] all[e].name,
        ) by {
            if e < before.len() {
                let i = choose|i: int|
                    0 <= i < n - 1 && #[trigger] owned_by(data, i, before[e].name);
                assert(owned_by(data, i, all[e].name));
            } else {
                assert(all[e] == last[e - before.len()]);
                assert(owned_by(data, n - 1, all[e].name));
            }
        }
        assert forall|a: int, b: int| 0 <= a < b < all.len() implies all[a].name
            != all[b].name by {
            if a < before.len() <= b && all[a].name == all[b].name {
                let i = choose|i: int|
                    0 <= i < n - 1 && #[trigger] owned_by(data, i, before[a].name);
                lemma_names_one_field(
                    all[a].name,
                    kind_of(data[i]),
                    kind_index(data, i),
                    kind_of(data[n - 1]),
                    kind_index(data, n - 1),
                );
                lemma_kind_index_ascends(data, i, n - 1);
            }
        }
    }
}

/// The names of the fields that do not come from the data are names of no
/// data field.
pub proof fn lemma_plain_names_unowned(kind: Kind, index: nat)
    ensures
        !names_field("gw_rssi"@, kind, index),
        !names_field("gw_age"@, kind, index),
        !names_field("message"@, kind, index),
        !names_field("sentence"@, kind, index),
{
    reveal_strlit("gw_rssi");
    reveal_strlit("gw_age");
    reveal_strlit("message");
    reveal_strlit("sentence");
    lemma_stems(kind, kind);
    lemma_decimal_is_digits(index);
    let whole = indexed_name(kind, index);
    let l = stem(kind).len() as int;
    assert forall|name: Seq<char>| #[trigger] names_field(name, kind, index) implies name[2]
        != '_' && name[l] == '_' by {
        assert(name.take(whole.len() as int)[2] == whole[2]);
        assert(name.take(whole.len() as int)[l] == whole[l]);
    }
}

/// No two fields of a packet's record have the same name.
pub proof fn lemma_field_names_distinct(
    schema: Schema,
    envelope: EnvelopeView,
    packet: PacketView,
    nanos: int,
)
    ensures
        names_distinct(record_of(schema, envelope, packet, nanos).fields),
{
    let link = link_entries(schema, envelope);
    let data = data_entries(packet.data, packet.data.len() as int);
    let closing = closing_entries(schema, envelope, packet);
    let fields = record_of(schema, envelope, packet, nanos).fields;
    let n = packet.data.len() as int;
    reveal_strlit("gw_rssi");
    reveal_strlit("gw_age");
    reveal_strlit("message");
    reveal_strlit("sentence");
    lemma_data_entries_distinct(packet.data, n);
    assert forall|e: int| 0 <= e < data.len() implies data[e].name != "gw_rssi"@ && data[e].name
        != "gw_age"@ && data[e].name != "message"@ && data[e].name != "sentence"@ by {
        let i = choose|i: int| 0 <= i < n && #[trigger] owned_by(packet.data, i, data[e].name);
        lemma_plain_names_unowned(kind_of(packet.data[i]), kind_index(packet.data, i));
    }
    assert("gw_rssi"@[0] != "message"@[0]);
    assert(link.len() == 1 || (link.len() == 2 && link[1].name == "gw_age"@));
    assert(link[0].name == "gw_rssi"@);
    assert forall|a: int, b: int| 0 <= a < b < fields.len() implies fields[a].name
        != fields[b].name by {
        let first = link.len() as int;
        let second = first + data.len();
        assert(fields[a] == if a < first {
            link[a]
        } else if a < second {
            data[a - first]
        } else {
            closing[a - second]
        });
        assert(fields[b] == if b < first {
            link[b]
        } else if b < second {
            data[b - first]
        } else {
            closing[b - second]
        });
    }
}

/// The view of a record or a failure.
pub open spec fn record_result(r: Result<Record, EncodeError>) -> Result<RecordView, EncodeError> {
    match r {
        Ok(record) => Ok(record@),
        Err(e) => Err(e),
    }
}

/// The view of a line or a failure.
pub open spec fn line_result(r: Result<String, EncodeError>) -> Result<Seq<char>, EncodeError> {
    match r {
        Ok(line) => Ok(line@),
        Err(e) => Err(e),
    }
}

fn push_entry(out: &mut Vec<Entry>, name: String, value: FieldValue)
    ensures
        entry_views(final(out)@) == entry_views(old(out)@).push(
            EntryView { name: name@, value: value@ },
        ),
{
    out.push(Entry { name, value });
    assert(entry_views(out@) =~= entry_views(old(out)@).push(
        EntryView { name: name@, value: value@ },
    ));
}

fn push_number(out: &mut Vec<Entry>, name: String, text: &String)
    ensures
        entry_views(final(out)@) == entry_views(old(out)@).push(number_entry(name@, text@)),
{
    push_entry(out, name, FieldValue::Number(text.clone()));
}

fn push_readings(out: &mut Vec<Entry>, kind: Kind, index: usize, readings: &Vec<String>)
    ensures
        entry_views(final(out)@) == entry_views(old(out)@) + reading_entries(
            kind,
            index as nat,
            text_views(readings@),
        ),
{
    let ghost before = entry_views(out@);
    let ghost all = reading_entries(kind, index as nat, text_views(readings@));
    let mut j: usize = 0;
    while j < readings.len()
        invariant
            j <= readings.len(),
            all == reading_entries(kind, index as nat, text_views(readings@)),
            entry_views(out@) == before + all.take(j as int),
        decreases readings.len() - j,
    {
        let name: String = reading_field_name(kind, index, j + 1);
        push_number(out, name, &readings[j]);
        assert(entry_views(out@) =~= before + all.take(j + 1));
        j = j + 1;
    }
}

fn push_field_entries(out: &mut Vec<Entry>, field: &DataField, index: usize)
    ensures
        entry_views(final(out)@) == entry_views(old(out)@) + field_entries(field@, index as nat),
{
    let ghost before = entry_views(out@);
    match field {
        DataField::Temperature(r) => push_readings(out, Kind::Temperature, index, r),
        DataField::Voltage(r) => push_readings(out, Kind::Voltage, index, r),
        DataField::Current(r) => push_readings(out, Kind::Current, index, r),
        DataField::Humidity(r) => push_readings(out, Kind::Humidity, index, r),
        DataField::Pressure(r) => push_readings(out, Kind::Pressure, index, r),
        DataField::Sun(r) => push_readings(out, Kind::Sun, index, r),
        DataField::Rssi(r) => push_readings(out, Kind::Rssi, index, r),
        DataField::Count(r) => push_readings(out, Kind::Count, index, r),
        DataField::Custom(r) => push_readings(out, Kind::Custom, index, r),
        DataField::Location(l) => {
            match &l.latlng {
                Some((lat, lng)) => {
                    push_number(out, part_field_name(Kind::Location, index, "latitude"), lat);
                    push_number(out, part_field_name(Kind::Location, index, "longitude"), lng);
                },
                None => {},
            }
            match &l.alt {
                Some(a) => {
                    push_number(out, part_field_name(Kind::Location, index, "altitude"), a);
                },
                None => {},
            }
            assert(entry_views(out@) =~= before + field_entries(field@, index as nat));
        },
        DataField::WindSpeed(w) => {
            match &w.speed {
                Some(s) => {
                    push_number(out, part_field_name(Kind::WindSpeed, index, "speed"), s);
                },
                None => {},
            }
            match &w.bearing {
                Some(b) => {
                    push_number(out, part_field_name(Kind::WindSpeed, index, "bearing"), b);
                },
                None => {},
            }
            assert(entry_views(out@) =~= before + field_entries(field@, index as nat));
        },
        DataField::Zombie(z) => {
            let name: String = field_name(Kind::Zombie, index);
            push_entry(out, name, FieldValue::Integer(*z as i64));
            assert(entry_views(out@) =~= before + field_entries(field@, index as nat));
        },
        DataField::Comment(c) => {
            let name: String = field_name(Kind::Comment, index);
            push_entry(out, name, FieldValue::Text(c.clone()));
            assert(entry_views(out@) =~= before + field_entries(field@, index as nat));
        },
    }
}

fn push_data_entries(out: &mut Vec<Entry>, data: &Vec<DataField>)
    ensures
        entry_views(final(out)@) == entry_views(old(out)@) + data_entries(
            field_views(data@),
            data@.len() as int,
        ),
{
    let ghost before = entry_views(out@);
    let ghost views = field_views(data@);
    let indices: Vec<usize> = kind_indices(data);
    let mut i: usize = 0;
    while i < data.len()
        invariant
            i <= data.len(),
            views == field_views(data@),
            indices@.len() == data@.len(),
            forall|k: int| 0 <= k < data@.len() ==> #[trigger] indices@[k] == kind_index(views, k),
            entry_views(out@) == before + data_entries(views, i as int),
        decreases data.len() - i,
    {
        push_field_entries(out, &data[i], indices[i]);
        assert(entry_views(out@) =~= before + data_entries(views, i + 1));
        i = i + 1;
    }
}

/// The fields of a packet's data, in the order of the data fields.
pub fn packet_entries(data: &Vec<DataField>) -> (entries: Vec<Entry>)
    ensures
        entry_views(entries@) == data_entries(field_views(data@), data@.len() as int),
{
    let mut entries: Vec<Entry> = Vec::new();
    push_data_entries(&mut entries, data);
    entries
}

/// Builds the record of a packet from its envelope and the time of reception
/// as it was read from the envelope, `None` where it could not be read.
pub fn build_record(
    schema: &Schema,
    envelope: &Envelope,
    packet: &Packet,
    stamp: Option<UtcTime>,
) -> (r: Result<Record, EncodeError>)
    ensures
        record_result(r) == encoded(*schema, envelope@, packet@, stamp),
{
    if packet.path.len() == 0 {
        return Err(EncodeError::MissingPath);
    }
    let mut tags: Vec<Tag> = Vec::new();
    tags.push(Tag { name: "gateway".to_owned(), value: envelope.gateway.clone() });
    tags.push(Tag { name: "node".to_owned(), value: packet.path[0].clone() });
    tags.push(Tag { name: "pathend".to_owned(), value: packet.path[packet.path.len() - 1].clone() });
    assert(tag_views(tags@) =~= packet_tags(envelope@, packet@));

    let mut fields: Vec<Entry> = Vec::new();
    push_entry(&mut fields, "gw_rssi".to_owned(), FieldValue::Integer(envelope.rssi as i64));
    if schema.carries_age {
        match envelope.age {
            Some(age) => {
                push_entry(&mut fields, "gw_age".to_owned(), FieldValue::Integer(age as i64));
            },
            None => {},
        }
    }
    assert(entry_views(fields@) =~= link_entries(*schema, envelope@));
    push_data_entries(&mut fields, &packet.data);
    let ghost middle = entry_views(fields@);
    match &packet.comment {
        Some(comment) => {
            push_entry(&mut fields, "message".to_owned(), FieldValue::Text(comment.clone()));
        },
        None => {},
    }
    if schema.includes_sentence {
        let sentence: String = envelope.sentence.clone();
        push_entry(&mut fields, "sentence".to_owned(), FieldValue::Text(sentence));
    }
    assert(entry_views(fields@) =~= middle + closing_entries(*schema, envelope@, packet@));

    match stamp {
        None => Err(EncodeError::BadTimestamp),
        Some(at) => {
            let nanos: i128 = at.to_epoch_nanos();
            Ok(Record { measurement: "packet".to_owned(), tags, fields, timestamp: Some(nanos) })
        },
    }
}

/// Encodes a packet as one line of text, given the time of reception as it
/// was read from the envelope.
pub fn encode_at(
    schema: &Schema,
    envelope: &Envelope,
    packet: &Packet,
    stamp: Option<UtcTime>,
) -> (r: Result<String, EncodeError>)
    ensures
        line_result(r) == encoded_line(*schema, envelope@, packet@, stamp),
{
    match build_record(schema, envelope, packet, stamp) {
        Ok(record) => Ok(record.render()),
        Err(e) => Err(e),
    }
}

/// Encodes a packet as one line of text. The time of reception is read from
/// the envelope's timestamp.
pub fn packet_to_influx(
    schema: &Schema,
    envelope: &Envelope,
    packet: &Packet,
) -> (r: Result<String, EncodeError>)
    ensures
        line_result(r) == encoded_line(
            *schema,
            envelope@,
            packet@,
            strptime_timespec(envelope.timestamp@, timestamp_format()),
        ),
{
    let stamp: Option<UtcTime> = parse_timestamp(envelope.timestamp.as_str());
    encode_at(schema, envelope, packet, stamp)
}

} // verus!
