//! From the bytes of a frame to an envelope.
//!
//! A frame is valid UTF-8 text that holds one JSON object. The object names
//! the gateway (`nn`), the sentence (`p`), the signal strength (`r`), the
//! timestamp (`t`) and, where the protocol version carries it, the age (`a`).
//! Other members are passed over.

use vstd::prelude::*;
use vstd::string::*;
use vstd::utf8::{decode_utf8, decode_utf8_encode_utf8, valid_utf8};
use crate::envelope::{Envelope, EnvelopeView};
use crate::json::{
    json_object, member_views, parse_object, JsonFault, JsonValue, JsonValueView, Member,
    MemberView,
};
use crate::limits::{check_json_limits, json_within_limits};
use crate::schema::Schema;

verus! {

/// The members of an envelope's object.
#[derive(Debug, Clone, Copy, PartialEq, Eq, Structural)]
pub enum EnvelopeField {
    Gateway,
    Sentence,
    Rssi,
    Timestamp,
    Age,
}

/// Why a frame gives no envelope.
#[derive(Debug, Clone, Copy, PartialEq, Eq, Structural)]
pub enum DecodeError {
    /// The bytes are not valid UTF-8.
    InvalidText,
    /// The text is longer, its arrays and objects stand deeper inside one
    /// another, or a number in it has a longer exponent than the reader of
    /// JSON is given.
    Excessive,
    /// The text is not JSON.
    Malformed,
    /// The text is JSON, but not an object.
    NotAnObject,
    /// The object has no member of that name.
    Missing(EnvelopeField),
    /// The member is not of the type that the envelope needs: not a string,
    /// or not an integer of 32 bits.
    Mismatched(EnvelopeField),
}

/// The name of a member in the object.
pub open spec fn key(field: EnvelopeField) -> Seq<char> {
    match field {
        EnvelopeField::Gateway => "nn"@,
        EnvelopeField::Sentence => "p"@,
        EnvelopeField::Rssi => "r"@,
        EnvelopeField::Timestamp => "t"@,
        EnvelopeField::Age => "a"@,
    }
}

/// The value of the first member named `name`.
pub open spec fn member(members: Seq<MemberView>, name: Seq<char>) -> Option<JsonValueView>
    decreases members.len(),
{
    if members.len() == 0 {
        None
    } else if members[0].name == name {
        Some(members[0].value)
    } else {
        member(members.skip(1), name)
    }
}

/// The string that a member holds.
pub open spec fn text_member(
    members: Seq<MemberView>,
    field: EnvelopeField,
) -> Result<Seq<char>, DecodeError> {
    match member(members, key(field)) {
        None => Err(DecodeError::Missing(field)),
        Some(JsonValueView::Text(text)) => Ok(text),
        Some(_) => Err(DecodeError::Mismatched(field)),
    }
}

/// The integer of 32 bits that a member holds.
pub open spec fn integer_member(
    members: Seq<MemberView>,
    field: EnvelopeField,
) -> Result<int, DecodeError> {
    match member(members, key(field)) {
        None => Err(DecodeError::Missing(field)),
        Some(JsonValueView::Integer(i)) => if i32::MIN <= i <= i32::MAX {
            Ok(i)
        } else {
            Err(DecodeError::Mismatched(field))
        },
        Some(_) => Err(DecodeError::Mismatched(field)),
    }
}

/// The age that the members give: none where the protocol version carries
/// none.
pub open spec fn age_member(
    schema: Schema,
    members: Seq<MemberView>,
) -> Result<Option<int>, DecodeError> {
    if schema.carries_age {
        match integer_member(members, EnvelopeField::Age) {
            Ok(age) => Ok(Some(age)),
            Err(e) => Err(e),
        }
    } else {
        Ok(None)
    }
}

/// The envelope that the members of an object give. The members are looked
/// at in the order gateway, sentence, signal strength, timestamp, age, and
/// the first that is missing or mismatched is the failure.
pub open spec fn envelope_of(
    schema: Schema,
    members: Seq<MemberView>,
) -> Result<EnvelopeView, DecodeError> {
    match text_member(members, EnvelopeField::Gateway) {
        Err(e) => Err(e),
        Ok(gateway) => match text_member(members, EnvelopeField::Sentence) {
            Err(e) => Err(e),
            Ok(sentence) => match integer_member(members, EnvelopeField::Rssi) {
                Err(e) => Err(e),
                Ok(rssi) => match text_member(members, EnvelopeField::Timestamp) {
                    Err(e) => Err(e),
                    Ok(timestamp) => match age_member(schema, members) {
                        Err(e) => Err(e),
                        Ok(age) => Ok(EnvelopeView { gateway, sentence, rssi, age, timestamp }),
                    },
                },
            },
        },
    }
}

/// The envelope that the bytes of a frame give.
pub open spec fn decoded(schema: Schema, frame: Seq<u8>) -> Result<EnvelopeView, DecodeError> {
    if !valid_utf8(frame) {
        Err(DecodeError::InvalidText)
    } else if !json_within_limits(frame) {
        Err(DecodeError::Excessive)
    } else {
        match json_object(decode_utf8(frame)) {
            Err(JsonFault::Malformed) => Err(DecodeError::Malformed),
            Err(JsonFault::NotAnObject) => Err(DecodeError::NotAnObject),
            Ok(members) => envelope_of(schema, members),
        }
    }
}

/// The view of an envelope or a failure.
pub open spec fn envelope_result(
    r: Result<Envelope, DecodeError>,
) -> Result<EnvelopeView, DecodeError> {
    match r {
        Ok(envelope) => Ok(envelope@),
        Err(e) => Err(e),
    }
}

/// Reads bytes as UTF-8 text with `core::str::from_utf8`.
///
/// Trusted: there is a text exactly where the bytes are valid UTF-8, and it
/// is made of the characters that the bytes encode.
#[verifier::external_body]
fn text_of(bytes: &[u8]) -> (text: Option<&str>)
    ensures
        text is Some <==> valid_utf8(bytes@),
        text matches Some(t) ==> t@ == decode_utf8(bytes@),
{
    core::str::from_utf8(bytes).ok()
}

impl EnvelopeField {
    /// The name of the member in the object.
    pub fn key(self) -> (name: &'static str)
        ensures
            name@ == key(self),
    {
        match self {
            EnvelopeField::Gateway => "nn",
            EnvelopeField::Sentence => "p",
            EnvelopeField::Rssi => "r",
            EnvelopeField::Timestamp => "t",
            EnvelopeField::Age => "a",
        }
    }
}

fn find_member<'a>(members: &'a Vec<Member>, name: &str) -> (value: Option<&'a JsonValue>)
    ensures
        match value {
            Some(v) => member(member_views(members@), name@) == Some(v@),
            None => member(member_views(members@), name@) is None,
        },
{
    let ghost views = member_views(members@);
    let wanted: String = name.to_owned();
    let mut i: usize = 0;
    assert(views.skip(0) =~= views);
    while i < members.len()
        invariant
            i <= members.len(),
            views == member_views(members@),
            wanted@ == name@,
            member(views, name@) == member(views.skip(i as int), name@),
        decreases members.len() - i,
    {
        if members[i].name == wanted {
            return Some(&members[i].value);
        }
        assert(views.skip(i as int).skip(1) =~= views.skip(i + 1));
        i = i + 1;
    }
    None
}

fn find_text(members: &Vec<Member>, field: EnvelopeField) -> (r: Result<String, DecodeError>)
    ensures
        match r {
            Ok(text) => text_member(member_views(members@), field) == Ok::<Seq<char>, DecodeError>(
                text@,
            ),
            Err(e) => text_member(member_views(members@), field) == Err::<Seq<char>, DecodeError>(
                e,
            ),
        },
{
    match find_member(members, field.key()) {
        None => Err(DecodeError::Missing(field)),
        Some(JsonValue::Text(text)) => Ok(text.clone()),
        Some(_) => Err(DecodeError::Mismatched(field)),
    }
}

fn find_integer(members: &Vec<Member>, field: EnvelopeField) -> (r: Result<i32, DecodeError>)
    ensures
        match r {
            Ok(i) => integer_member(member_views(members@), field) == Ok::<int, DecodeError>(
                i as int,
            ),
            Err(e) => integer_member(member_views(members@), field) == Err::<int, DecodeError>(e),
        },
{
    match find_member(members, field.key()) {
        None => Err(DecodeError::Missing(field)),
        Some(JsonValue::Signed(i)) => {
            if -2147483648i64 <= *i && *i <= 2147483647i64 {
                Ok(*i as i32)
            } else {
                Err(DecodeError::Mismatched(field))
            }
        },
        Some(JsonValue::Unsigned(u)) => {
            if *u <= 2147483647u64 {
                Ok(*u as i32)
            } else {
                Err(DecodeError::Mismatched(field))
            }
        },
        Some(_) => Err(DecodeError::Mismatched(field)),
    }
}

/// Builds an envelope from the members of a frame's object.
pub fn envelope_from_members(
    schema: &Schema,
    members: &Vec<Member>,
) -> (r: Result<Envelope, DecodeError>)
    ensures
        envelope_result(r) == envelope_of(*schema, member_views(members@)),
{
    let gateway: String = match find_text(members, EnvelopeField::Gateway) {
        Ok(text) => text,
        Err(e) => { return Err(e); },
    };
    let sentence: String = match find_text(members, EnvelopeField::Sentence) {
        Ok(text) => text,
        Err(e) => { return Err(e); },
    };
    let rssi: i32 = match find_integer(members, EnvelopeField::Rssi) {
        Ok(i) => i,
        Err(e) => { return Err(e); },
    };
    let timestamp: String = match find_text(members, EnvelopeField::Timestamp) {
        Ok(text) => text,
        Err(e) => { return Err(e); },
    };
    let age: Option<i32> = if schema.carries_age {
        match find_integer(members, EnvelopeField::Age) {
            Ok(i) => Some(i),
            Err(e) => { return Err(e); },
        }
    } else {
        None
    };
    Ok(Envelope { gateway, sentence, rssi, age, timestamp })
}

/// Decodes the bytes of one frame.
pub fn decode_frame(schema: &Schema, frame: &[u8]) -> (r: Result<Envelope, DecodeError>)
    ensures
        envelope_result(r) == decoded(*schema, frame@),
{
    let text: &str = match text_of(frame) {
        Some(text) => text,
        None => { return Err(DecodeError::InvalidText); },
    };
    if !check_json_limits(frame) {
        return Err(DecodeError::Excessive);
    }
    proof {
        decode_utf8_encode_utf8(frame@);
    }
    match parse_object(text) {
        Ok(members) => envelope_from_members(schema, &members),
        Err(JsonFault::Malformed) => Err(DecodeError::Malformed),
        Err(JsonFault::NotAnObject) => Err(DecodeError::NotAnObject),
    }
}

} // verus!
