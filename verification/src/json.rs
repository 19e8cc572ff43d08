//! The members of a JSON object, as far as an envelope needs them: strings
//! and integers. The text is read by the `rustc_serialize` crate.

use vstd::prelude::*;
use vstd::string::*;
use rustc_serialize::json::Json;
use crate::limits::json_within_limits;

verus! {

/// The value of a member of an object.
#[derive(Debug, Clone, PartialEq, Eq)]
pub enum JsonValue {
    Text(String),
    /// An integer that was written with a minus sign.
    Signed(i64),
    /// An integer that was written without a sign.
    Unsigned(u64),
    /// Anything else: a number with a fraction or an exponent, a truth
    /// value, an array, an object or `null`.
    Other,
}

pub enum JsonValueView {
    Text(Seq<char>),
    Integer(int),
    Other,
}

impl View for JsonValue {
    type V = JsonValueView;

    open spec fn view(&self) -> JsonValueView {
        match *self {
            JsonValue::Text(text) => JsonValueView::Text(text@),
            JsonValue::Signed(i) => JsonValueView::Integer(i as int),
            JsonValue::Unsigned(u) => JsonValueView::Integer(u as int),
            JsonValue::Other => JsonValueView::Other,
        }
    }
}

/// One member of an object.
#[derive(Debug, Clone, PartialEq, Eq)]
pub struct Member {
    pub name: String,
    pub value: JsonValue,
}

pub struct MemberView {
    pub name: Seq<char>,
    pub value: JsonValueView,
}

impl View for Member {
    type V = MemberView;

    open spec fn view(&self) -> MemberView {
        MemberView { name: self.name@, value: self.value@ }
    }
}

/// The views of a sequence of members, in order.
pub open spec fn member_views(members: Seq<Member>) -> Seq<MemberView> {
    Seq::new(members.len(), |i: int| members[i]@)
}

/// Why a text gives no members.
#[derive(Debug, Clone, Copy, PartialEq, Eq, Structural)]
pub enum JsonFault {
    /// The text is not JSON.
    Malformed,
    /// The text is JSON, but not an object.
    NotAnObject,
}

/// What `Json::from_str` of the `rustc_serialize` crate reads from a text:
/// the members of the object that the text holds, or why there are none.
pub uninterp spec fn json_object(text: Seq<char>) -> Result<Seq<MemberView>, JsonFault>;

/// The view of a list of members or a fault.
pub open spec fn members_result(
    r: Result<Vec<Member>, JsonFault>,
) -> Result<Seq<MemberView>, JsonFault> {
    match r {
        Ok(members) => Ok(member_views(members@)),
        Err(fault) => Err(fault),
    }
}

/// Reads `text` with `Json::from_str` and hands out the members of the object
/// that it holds, each value in the form that this library keeps.
///
/// Trusted: the result is a function of the text alone. Nothing is claimed of
/// which texts are objects or of what their members are. The text is held
/// within limits, because the outside code keeps the place and the length
/// of each key in 16 bits, calls itself for each array or object inside
/// another, and adds up the digits of an exponent without a check.
#[verifier::external_body]
pub(crate) fn parse_object(text: &str) -> (r: Result<Vec<Member>, JsonFault>)
    requires
        json_within_limits(text.spec_bytes()),
    ensures
        members_result(r) == json_object(text@),
{
    match Json::from_str(text) {
        Ok(Json::Object(map)) => Ok(map.into_iter().map(|(name, value)| Member {
            name,
            value: match value {
                Json::String(text) => JsonValue::Text(text),
                Json::I64(i) => JsonValue::Signed(i),
                Json::U64(u) => JsonValue::Unsigned(u),
                Json::F64(_) | Json::Boolean(_) | Json::Array(_) | Json::Object(_)
                | Json::Null => JsonValue::Other,
            },
        }).collect()),
        Ok(_) => Err(JsonFault::NotAnObject),
        Err(_) => Err(JsonFault::Malformed),
    }
}

} // verus!
