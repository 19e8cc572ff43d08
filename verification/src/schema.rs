//! The protocol version in use: what an envelope carries and how the byte
//! stream is cut into frames. It is set by configuration and never guessed
//! from the data.

use vstd::prelude::*;

verus! {

/// How the byte stream is cut into frames.
#[derive(Debug, Clone, Copy, PartialEq, Eq, Structural)]
pub enum Framing {
    /// A frame ends with a line feed.
    Newline,
    /// A frame ends with the closing brace of its object.
    ClosingBrace,
}

/// What a frame that is not valid text means for the connection.
#[derive(Debug, Clone, Copy, PartialEq, Eq, Structural)]
pub enum TextFault {
    /// The stream is unusable: the connection is given up.
    Transport,
    /// Only this frame is dropped.
    Message,
}

/// The protocol version.
#[derive(Debug, Clone, Copy, PartialEq, Eq, Structural)]
pub struct Schema {
    /// Whether an envelope carries an age in hops.
    pub carries_age: bool,
    /// Whether a record carries the raw sentence.
    pub includes_sentence: bool,
    pub framing: Framing,
    pub invalid_text: TextFault,
}

impl Default for Schema {
    /// The version with an age in the envelope, the sentence in the record,
    /// a frame on each line, and a stream that is given up when it is not
    /// valid text.
    fn default() -> (schema: Schema)
        ensures
            schema == (Schema {
                carries_age: true,
                includes_sentence: true,
                framing: Framing::Newline,
                invalid_text: TextFault::Transport,
            }),
    {
        Schema {
            carries_age: true,
            includes_sentence: true,
            framing: Framing::Newline,
            invalid_text: TextFault::Transport,
        }
    }
}

impl Framing {
    /// The byte that ends a frame.
    pub open spec fn delimiter_of(self) -> u8 {
        match self {
            Framing::Newline => 10u8,
            Framing::ClosingBrace => 125u8,
        }
    }

    /// The byte that ends a frame.
    pub fn delimiter(self) -> (byte: u8)
        ensures
            byte == self.delimiter_of(),
    {
        match self {
            Framing::Newline => 10u8,
            Framing::ClosingBrace => 125u8,
        }
    }
}

} // verus!
