//! The structured form of a sentence: a path of node names, data fields and
//! an optional comment.
//!
//! A floating-point reading is held as its decimal text, the way it is to
//! stand in a record.

use vstd::prelude::*;

verus! {

/// The kinds of data field.
#[derive(Debug, Clone, Copy, PartialEq, Eq, Structural)]
pub enum Kind {
    Temperature,
    Voltage,
    Current,
    Humidity,
    Pressure,
    Sun,
    Rssi,
    Count,
    Custom,
    Location,
    WindSpeed,
    Zombie,
    Comment,
}

/// A position: an optional pair of latitude and longitude, and an optional
/// altitude.
#[derive(Debug, Clone, PartialEq, Eq)]
pub struct Location {
    pub latlng: Option<(String, String)>,
    pub alt: Option<String>,
}

/// A wind reading: an optional speed and an optional bearing.
#[derive(Debug, Clone, PartialEq, Eq)]
pub struct WindSpeed {
    pub speed: Option<String>,
    pub bearing: Option<String>,
}

/// One data field of a packet.
#[derive(Debug, Clone, PartialEq, Eq)]
pub enum DataField {
    Temperature(Vec<String>),
    Voltage(Vec<String>),
    Current(Vec<String>),
    Humidity(Vec<String>),
    Pressure(Vec<String>),
    Sun(Vec<String>),
    Rssi(Vec<String>),
    Count(Vec<String>),
    Custom(Vec<String>),
    Location(Location),
    WindSpeed(WindSpeed),
    Zombie(u8),
    Comment(String),
}

/// A data field as a mathematical value. The nine kinds that carry readings
/// share one form.
pub enum DataFieldView {
    Readings(Kind, Seq<Seq<char>>),
    Location { latlng: Option<(Seq<char>, Seq<char>)>, alt: Option<Seq<char>> },
    WindSpeed { speed: Option<Seq<char>>, bearing: Option<Seq<char>> },
    Zombie(int),
    Comment(Seq<char>),
}

/// The views of a sequence of strings, in order.
pub open spec fn text_views(texts: Seq<String>) -> Seq<Seq<char>> {
    Seq::new(texts.len(), |i: int| texts[i]@)
}

/// The view of an optional string.
pub open spec fn optional_text(text: Option<String>) -> Option<Seq<char>> {
    match text {
        Some(t) => Some(t@),
        None => None,
    }
}

impl View for DataField {
    type V = DataFieldView;

    open spec fn view(&self) -> DataFieldView {
        match *self {
            DataField::Temperature(r) => DataFieldView::Readings(Kind::Temperature, text_views(r@)),
            DataField::Voltage(r) => DataFieldView::Readings(Kind::Voltage, text_views(r@)),
            DataField::Current(r) => DataFieldView::Readings(Kind::Current, text_views(r@)),
            DataField::Humidity(r) => DataFieldView::Readings(Kind::Humidity, text_views(r@)),
            DataField::Pressure(r) => DataFieldView::Readings(Kind::Pressure, text_views(r@)),
            DataField::Sun(r) => DataFieldView::Readings(Kind::Sun, text_views(r@)),
            DataField::Rssi(r) => DataFieldView::Readings(Kind::Rssi, text_views(r@)),
            DataField::Count(r) => DataFieldView::Readings(Kind::Count, text_views(r@)),
            DataField::Custom(r) => DataFieldView::Readings(Kind::Custom, text_views(r@)),
            DataField::Location(l) => DataFieldView::Location {
                latlng: match l.latlng {
                    Some((lat, lng)) => Some((lat@, lng@)),
                    None => None,
                },
                alt: optional_text(l.alt),
            },
            DataField::WindSpeed(w) => DataFieldView::WindSpeed {
                speed: optional_text(w.speed),
                bearing: optional_text(w.bearing),
            },
            DataField::Zombie(z) => DataFieldView::Zombie(z as int),
            DataField::Comment(c) => DataFieldView::Comment(c@),
        }
    }
}

/// The kind of a data field.
pub open spec fn kind_of(field: DataFieldView) -> Kind {
    match field {
        DataFieldView::Readings(kind, _) => kind,
        DataFieldView::Location { .. } => Kind::Location,
        DataFieldView::WindSpeed { .. } => Kind::WindSpeed,
        DataFieldView::Zombie(_) => Kind::Zombie,
        DataFieldView::Comment(_) => Kind::Comment,
    }
}

/// The views of a sequence of data fields, in order.
pub open spec fn field_views(data: Seq<DataField>) -> Seq<DataFieldView> {
    Seq::new(data.len(), |i: int| data[i]@)
}

/// A decoded sentence.
#[derive(Debug, Clone, PartialEq, Eq)]
pub struct Packet {
    /// The nodes that the packet went through: the origin first, the last
    /// relay at the end.
    pub path: Vec<String>,
    pub data: Vec<DataField>,
    pub comment: Option<String>,
}

pub struct PacketView {
    pub path: Seq<Seq<char>>,
    pub data: Seq<DataFieldView>,
    pub comment: Option<Seq<char>>,
}

impl View for Packet {
    type V = PacketView;

    open spec fn view(&self) -> PacketView {
        PacketView {
            path: text_views(self.path@),
            data: field_views(self.data@),
            comment: optional_text(self.comment),
        }
    }
}

/// Why a sentence gives no packet.
#[derive(Debug, Clone, Copy, PartialEq, Eq, Structural)]
pub enum ParseFailure {
    /// The sentence does not follow the grammar.
    Malformed,
    /// The sentence follows the grammar as far as it goes, and ends too early.
    Incomplete,
}

impl ParseFailure {
    /// The failure of a parse that got as far as `position` in a sentence of
    /// `length` bytes: incomplete where it reached the end, malformed where
    /// it stopped before.
    pub fn at(position: usize, length: usize) -> (failure: ParseFailure)
        ensures
            failure == (if position >= length {
                ParseFailure::Incomplete
            } else {
                ParseFailure::Malformed
            }),
    {
        if position >= length {
            ParseFailure::Incomplete
        } else {
            ParseFailure::Malformed
        }
    }
}

/// How many fields of `data` are of the kind `kind`.
pub open spec fn count_kind(data: Seq<DataFieldView>, kind: Kind) -> nat
    decreases data.len(),
{
    if data.len() == 0 {
        0
    } else {
        count_kind(data.drop_last(), kind) + if kind_of(data.last()) == kind {
            1nat
        } else {
            0nat
        }
    }
}

/// The index of the field at position `i` among the fields of its kind:
/// 1 for the first field of a kind, 2 for the second, and so on.
pub open spec fn kind_index(data: Seq<DataFieldView>, i: int) -> nat {
    count_kind(data.take(i + 1), kind_of(data[i]))
}

/// No kind occurs more often than there are fields.
pub proof fn lemma_count_kind_bounded(data: Seq<DataFieldView>, kind: Kind)
    ensures
        count_kind(data, kind) <= data.len(),
    decreases data.len(),
{
    if data.len() > 0 {
        lemma_count_kind_bounded(data.drop_last(), kind);
    }
}

/// The fields of one kind are numbered from 1 in the order in which they
/// appear: the index of a field is 1 more than the number of fields of its
/// kind that stand before it.
pub proof fn lemma_kind_index_counts_earlier(data: Seq<DataFieldView>, i: int)
    requires
        0 <= i < data.len(),
    ensures
        kind_index(data, i) == count_kind(data.take(i), kind_of(data[i])) + 1,
{
    assert(data.take(i + 1).drop_last() =~= data.take(i));
}

/// Of two fields of one kind, the later has the greater index.
pub proof fn lemma_kind_index_ascends(data: Seq<DataFieldView>, i: int, j: int)
    requires
        0 <= i < j < data.len(),
        kind_of(data[i]) == kind_of(data[j]),
    ensures
        1 <= kind_index(data, i) < kind_index(data, j),
{
    lemma_kind_index_counts_earlier(data, i);
    lemma_kind_index_counts_earlier(data, j);
    lemma_count_kind_grows(data.take(j), i + 1, kind_of(data[i]));
    assert(data.take(j).take(i + 1) =~= data.take(i + 1));
}

/// A sequence has at least as many fields of a kind as any of its prefixes.
proof fn lemma_count_kind_grows(data: Seq<DataFieldView>, n: int, kind: Kind)
    requires
        0 <= n <= data.len(),
    ensures
        count_kind(data.take(n), kind) <= count_kind(data, kind),
    decreases data.len() - n,
{
    if n < data.len() {
        lemma_count_kind_grows(data, n + 1, kind);
        assert(data.take(n + 1).drop_last() =~= data.take(n));
    } else {
        assert(data.take(n) =~= data);
    }
}

impl Kind {
    /// The position of the kind in the list of kinds.
    pub open spec fn ordinal(self) -> int {
        match self {
            Kind::Temperature => 0,
            Kind::Voltage => 1,
            Kind::Current => 2,
            Kind::Humidity => 3,
            Kind::Pressure => 4,
            Kind::Sun => 5,
            Kind::Rssi => 6,
            Kind::Count => 7,
            Kind::Custom => 8,
            Kind::Location => 9,
            Kind::WindSpeed => 10,
            Kind::Zombie => 11,
            Kind::Comment => 12,
        }
    }

    fn slot(self) -> (slot: usize)
        ensures
            slot == self.ordinal(),
    {
        match self {
            Kind::Temperature => 0,
            Kind::Voltage => 1,
            Kind::Current => 2,
            Kind::Humidity => 3,
            Kind::Pressure => 4,
            Kind::Sun => 5,
            Kind::Rssi => 6,
            Kind::Count => 7,
            Kind::Custom => 8,
            Kind::Location => 9,
            Kind::WindSpeed => 10,
            Kind::Zombie => 11,
            Kind::Comment => 12,
        }
    }
}

impl DataField {
    /// The kind of the field.
    pub fn kind(&self) -> (kind: Kind)
        ensures
            kind == kind_of(self@),
    {
        match self {
            DataField::Temperature(_) => Kind::Temperature,
            DataField::Voltage(_) => Kind::Voltage,
            DataField::Current(_) => Kind::Current,
            DataField::Humidity(_) => Kind::Humidity,
            DataField::Pressure(_) => Kind::Pressure,
            DataField::Sun(_) => Kind::Sun,
            DataField::Rssi(_) => Kind::Rssi,
            DataField::Count(_) => Kind::Count,
            DataField::Custom(_) => Kind::Custom,
            DataField::Location(_) => Kind::Location,
            DataField::WindSpeed(_) => Kind::WindSpeed,
            DataField::Zombie(_) => Kind::Zombie,
            DataField::Comment(_) => Kind::Comment,
        }
    }
}

/// The index of each field among the fields of its kind, in the order of
/// the fields.
pub fn kind_indices(data: &Vec<DataField>) -> (indices: Vec<usize>)
    ensures
        indices@.len() == data@.len(),
        forall|i: int|
            0 <= i < data@.len() ==> #[trigger] indices@[i] == kind_index(field_views(data@), i),
{
    let ghost views = field_views(data@);
    let mut counters: Vec<usize> = vec![0; 13];
    let mut indices: Vec<usize> = Vec::new();
    let mut i: usize = 0;
    while i < data.len()
        invariant
            i <= data.len(),
            views == field_views(data@),
            counters@.len() == 13,
            indices@.len() == i,
            forall|kind: Kind|
                counters@[kind.ordinal()] == #[trigger] count_kind(views.take(i as int), kind),
            forall|j: int| 0 <= j < i ==> #[trigger] indices@[j] == kind_index(views, j),
        decreases data.len() - i,
    {
        let kind: Kind = data[i].kind();
        let slot: usize = kind.slot();
        proof {
            lemma_count_kind_bounded(views.take(i as int), kind);
            assert(views.take(i + 1).drop_last() =~= views.take(i as int));
        }
        let index: usize = counters[slot] + 1;
        counters.set(slot, index);
        indices.push(index);
        proof {
            let next = views.take(i + 1);
            assert forall|other: Kind|
                counters@[other.ordinal()] == #[trigger] count_kind(next, other) by {
                assert(count_kind(next, other) == count_kind(views.take(i as int), other)
                    + if kind == other { 1nat } else { 0nat });
            }
        }
        i = i + 1;
    }
    indices
}

} // verus!
