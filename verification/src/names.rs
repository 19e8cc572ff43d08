//! The names of the fields of a packet's record.
//!
//! A field is named after the kind of its data field, the index of that data
//! field among those of its kind, and the part of the data field that the
//! value is: `temperature_2_1` is the first reading of the second
//! temperature field, `location_1_altitude` the altitude of the first
//! position, `zombie_1` the first zombie flag.

use vstd::prelude::*;
use vstd::string::*;
use crate::decimal::{
    decimal, is_digit_char, lemma_decimal_injective, lemma_decimal_is_digits, push_decimal,
};
use crate::packet::Kind;

verus! {

/// The word for a kind in a field name.
pub open spec fn stem(kind: Kind) -> Seq<char> {
    match kind {
        Kind::Temperature => "temperature"@,
        Kind::Voltage => "voltage"@,
        Kind::Current => "current"@,
        Kind::Humidity => "humidity"@,
        Kind::Pressure => "pressure"@,
        Kind::Sun => "sun"@,
        Kind::Rssi => "rssi"@,
        Kind::Count => "count"@,
        Kind::Custom => "custom"@,
        Kind::Location => "location"@,
        Kind::WindSpeed => "windspeed"@,
        Kind::Zombie => "zombie"@,
        Kind::Comment => "comment"@,
    }
}

/// The name of a field that is a whole data field: `kind_index`.
pub open spec fn indexed_name(kind: Kind, index: nat) -> Seq<char> {
    stem(kind) + seq!['_'] + decimal(index)
}

/// The name of a field that is one part of a data field: `kind_index_part`.
pub open spec fn part_name(kind: Kind, index: nat, part: Seq<char>) -> Seq<char> {
    indexed_name(kind, index) + seq!['_'] + part
}

/// Whether a name is that of a field of the data field of the kind `kind`
/// with the index `index`: the indexed name, alone or followed by an
/// underscore and a part.
pub open spec fn names_field(name: Seq<char>, kind: Kind, index: nat) -> bool {
    let whole = indexed_name(kind, index);
    &&& name.len() >= whole.len()
    &&& name.take(whole.len() as int) == whole
    &&& (name.len() == whole.len() || name[whole.len() as int] == '_')
}

/// The word for a kind has three letters or more and no underscore, and no
/// two kinds share a word.
pub proof fn lemma_stems(k1: Kind, k2: Kind)
    ensures
        stem(k1).len() >= 3,
        forall|i: int| 0 <= i < stem(k1).len() ==> #[trigger] stem(k1)[i] != '_',
        stem(k1) == stem(k2) ==> k1 == k2,
{
    reveal_strlit("temperature");
    reveal_strlit("voltage");
    reveal_strlit("current");
    reveal_strlit("humidity");
    reveal_strlit("pressure");
    reveal_strlit("sun");
    reveal_strlit("rssi");
    reveal_strlit("count");
    reveal_strlit("custom");
    reveal_strlit("location");
    reveal_strlit("windspeed");
    reveal_strlit("zombie");
    reveal_strlit("comment");
    if stem(k1) == stem(k2) {
        assert(stem(k1)[0] == stem(k2)[0]);
        assert(stem(k1)[1] == stem(k2)[1]);
        assert(stem(k1)[2] == stem(k2)[2]);
    }
}

/// The indexed name and every name with a part are names of their own data
/// field.
pub proof fn lemma_names_own_field(kind: Kind, index: nat, part: Seq<char>)
    ensures
        names_field(indexed_name(kind, index), kind, index),
        names_field(part_name(kind, index, part), kind, index),
{
    let whole = indexed_name(kind, index);
    assert(whole.take(whole.len() as int) =~= whole);
    assert(part_name(kind, index, part).take(whole.len() as int) =~= whole);
}

/// A name is that of a field of one data field only: it tells the kind and
/// the index.
pub proof fn lemma_names_one_field(name: Seq<char>, k1: Kind, x1: nat, k2: Kind, x2: nat)
    requires
        names_field(name, k1, x1),
        names_field(name, k2, x2),
    ensures
        k1 == k2,
        x1 == x2,
{
    let w1 = indexed_name(k1, x1);
    let w2 = indexed_name(k2, x2);
    let l1 = stem(k1).len() as int;
    let l2 = stem(k2).len() as int;
    let d1 = decimal(x1);
    let d2 = decimal(x2);
    lemma_stems(k1, k2);
    lemma_stems(k2, k1);
    lemma_decimal_is_digits(x1);
    lemma_decimal_is_digits(x2);
    assert forall|i: int| 0 <= i < w1.len() implies name[i] == w1[i] by {
        assert(name.take(w1.len() as int)[i] == w1[i]);
    }
    assert forall|i: int| 0 <= i < w2.len() implies name[i] == w2[i] by {
        assert(name.take(w2.len() as int)[i] == w2[i]);
    }
    if l1 < l2 {
        assert(w2[l1] == stem(k2)[l1]);
        assert(false);
    }
    if l2 < l1 {
        assert(w1[l2] == stem(k1)[l2]);
        assert(false);
    }
    assert(stem(k1) =~= stem(k2)) by {
        assert forall|i: int| 0 <= i < l1 implies stem(k1)[i] == stem(k2)[i] by {
            assert(w1[i] == stem(k1)[i]);
            assert(w2[i] == stem(k2)[i]);
        }
    }
    if d1.len() < d2.len() {
        let p = l1 + 1 + d1.len();
        assert(w2[p] == d2[d1.len() as int]);
        assert(false);
    }
    if d2.len() < d1.len() {
        let p = l1 + 1 + d2.len();
        assert(w1[p] == d1[d2.len() as int]);
        assert(false);
    }
    assert(d1 =~= d2) by {
        assert forall|i: int| 0 <= i < d1.len() implies d1[i] == d2[i] by {
            assert(w1[l1 + 1 + i] == d1[i]);
            assert(w2[l1 + 1 + i] == d2[i]);
        }
    }
    lemma_decimal_injective(x1, x2);
}

/// Two parts of one data field with the same name are the same part.
pub proof fn lemma_part_names_differ(kind: Kind, index: nat, one: Seq<char>, other: Seq<char>)
    ensures
        part_name(kind, index, one) == part_name(kind, index, other) ==> one == other,
{
    let cut = indexed_name(kind, index).len() + 1;
    assert(one =~= part_name(kind, index, one).skip(cut as int));
    assert(other =~= part_name(kind, index, other).skip(cut as int));
}

/// The word for a kind in a field name.
fn stem_str(kind: Kind) -> (word: &'static str)
    ensures
        word@ == stem(kind),
{
    match kind {
        Kind::Temperature => "temperature",
        Kind::Voltage => "voltage",
        Kind::Current => "current",
        Kind::Humidity => "humidity",
        Kind::Pressure => "pressure",
        Kind::Sun => "sun",
        Kind::Rssi => "rssi",
        Kind::Count => "count",
        Kind::Custom => "custom",
        Kind::Location => "location",
        Kind::WindSpeed => "windspeed",
        Kind::Zombie => "zombie",
        Kind::Comment => "comment",
    }
}

/// The name of the field that is the whole of a data field.
pub fn field_name(kind: Kind, index: usize) -> (name: String)
    ensures
        name@ == indexed_name(kind, index as nat),
{
    proof {
        reveal_strlit("_");
    }
    let mut name: String = stem_str(kind).to_owned();
    name.append("_");
    push_decimal(&mut name, index as u128);
    name
}

/// The name of the field that is the part `part` of a data field.
pub fn part_field_name(kind: Kind, index: usize, part: &str) -> (name: String)
    ensures
        name@ == part_name(kind, index as nat, part@),
{
    proof {
        reveal_strlit("_");
    }
    let mut name: String = field_name(kind, index);
    name.append("_");
    name.append(part);
    name
}

/// The name of the field that is the reading number `sub` of a data field.
pub fn reading_field_name(kind: Kind, index: usize, sub: usize) -> (name: String)
    ensures
        name@ == part_name(kind, index as nat, decimal(sub as nat)),
{
    proof {
        reveal_strlit("_");
    }
    let mut name: String = field_name(kind, index);
    name.append("_");
    push_decimal(&mut name, sub as u128);
    name
}

} // verus!
