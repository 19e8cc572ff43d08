//! Cutting the byte stream into frames. A frame is the shortest run of bytes
//! that ends with the delimiter; nothing else in the bytes decides where a
//! frame ends.

use vstd::prelude::*;

verus! {

/// The bytes that were received and not yet handed out as a frame.
#[derive(Debug, Clone, PartialEq, Eq)]
pub struct FrameBuffer {
    pub bytes: Vec<u8>,
}

impl View for FrameBuffer {
    type V = Seq<u8>;

    open spec fn view(&self) -> Seq<u8> {
        self.bytes@
    }
}

/// Whether `frame` is one frame: it ends with the delimiter and holds it
/// nowhere else.
pub open spec fn is_frame(frame: Seq<u8>, delimiter: u8) -> bool {
    &&& frame.len() > 0
    &&& frame.last() == delimiter
    &&& forall|i: int| 0 <= i < frame.len() - 1 ==> frame[i] != delimiter
}

/// Whether `bytes` holds the delimiter.
pub open spec fn holds_delimiter(bytes: Seq<u8>, delimiter: u8) -> bool {
    exists|i: int| 0 <= i < bytes.len() && bytes[i] == delimiter
}

/// A frame is cut from a byte sequence in one way only: two frames that both
/// start the same bytes are the same frame.
pub proof fn lemma_frame_unique(
    first: Seq<u8>,
    rest_first: Seq<u8>,
    second: Seq<u8>,
    rest_second: Seq<u8>,
    delimiter: u8,
)
    requires
        is_frame(first, delimiter),
        is_frame(second, delimiter),
        first + rest_first == second + rest_second,
    ensures
        first == second,
        rest_first == rest_second,
{
    let whole = first + rest_first;
    if first.len() < second.len() {
        assert(whole[first.len() - 1] == first[first.len() - 1]);
        assert(whole[first.len() - 1] == second[first.len() - 1]);
    } else if second.len() < first.len() {
        assert(whole[second.len() - 1] == second[second.len() - 1]);
        assert(whole[second.len() - 1] == first[second.len() - 1]);
    }
    assert(first =~= whole.take(first.len() as int));
    assert(second =~= whole.take(second.len() as int));
    assert(rest_first =~= whole.skip(first.len() as int));
    assert(rest_second =~= whole.skip(second.len() as int));
}

impl FrameBuffer {
    /// A buffer without bytes.
    pub fn new() -> (buffer: FrameBuffer)
        ensures
            buffer@ == Seq::<u8>::empty(),
    {
        FrameBuffer { bytes: Vec::new() }
    }

    /// Forgets the bytes of a connection that was given up.
    pub fn clear(&mut self)
        ensures
            final(self)@ == Seq::<u8>::empty(),
    {
        self.bytes.clear();
    }

    /// Adds bytes that were received.
    pub fn extend(&mut self, chunk: &[u8])
        ensures
            final(self)@ == old(self)@ + chunk@,
    {
        let mut i: usize = 0;
        while i < chunk.len()
            invariant
                i <= chunk@.len(),
                self@ == old(self)@ + chunk@.take(i as int),
            decreases chunk@.len() - i,
        {
            self.bytes.push(chunk[i]);
            assert(self@ =~= old(self)@ + chunk@.take(i + 1));
            i = i + 1;
        }
    }

    /// Takes the next frame out of the buffer: the bytes up to the first
    /// delimiter, with it. Where the buffer holds no delimiter, it is left as
    /// it is and more bytes are needed.
    pub fn next_frame(&mut self, delimiter: u8) -> (frame: Option<Vec<u8>>)
        ensures
            match frame {
                Some(f) => is_frame(f@, delimiter) && f@ + final(self)@ == old(self)@,
                None => !holds_delimiter(old(self)@, delimiter) && final(self)@ == old(self)@,
            },
    {
        let mut i: usize = 0;
        while i < self.bytes.len()
            invariant
                i <= self@.len(),
                self@ == old(self)@,
                forall|j: int| 0 <= j < i ==> self@[j] != delimiter,
            decreases self@.len() - i,
        {
            if self.bytes[i] == delimiter {
                let mut rest: Vec<u8> = self.bytes.split_off(i + 1);
                std::mem::swap(&mut self.bytes, &mut rest);
                return Some(rest);
            }
            i = i + 1;
        }
        None
    }
}

} // verus!
