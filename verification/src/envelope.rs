//! The envelope of one received message: the raw sentence with what the
//! gateway says of the link.

use vstd::prelude::*;

verus! {

/// One received message.
#[derive(Debug, Clone, PartialEq, Eq)]
pub struct Envelope {
    /// The name of the gateway that heard the sentence.
    pub gateway: String,
    /// The sentence as it was heard.
    pub sentence: String,
    /// The received signal strength.
    pub rssi: i32,
    /// The age in hops, where the protocol version carries it.
    pub age: Option<i32>,
    /// The time of reception in UTC, with a fraction of a second and a
    /// trailing `Z`.
    pub timestamp: String,
}

pub struct EnvelopeView {
    pub gateway: Seq<char>,
    pub sentence: Seq<char>,
    pub rssi: int,
    pub age: Option<int>,
    pub timestamp: Seq<char>,
}

impl View for Envelope {
    type V = EnvelopeView;

    open spec fn view(&self) -> EnvelopeView {
        EnvelopeView {
            gateway: self.gateway@,
            sentence: self.sentence@,
            rssi: self.rssi as int,
            age: match self.age {
                Some(a) => Some(a as int),
                None => None,
            },
            timestamp: self.timestamp@,
        }
    }
}

} // verus!
