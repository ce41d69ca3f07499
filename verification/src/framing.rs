//! Pipe-mode framing of protocol messages.
//!
//! Over the pipe pair each message travels as its UTF-8 bytes terminated by a
//! single NUL byte.  The encoder appends the terminator; the decoder
//! accumulates raw chunks and hands back one complete body at a time, with
//! the terminator stripped.  Bodies therefore must not contain NUL, and any
//! other byte passes through unchanged.

use vstd::prelude::*;

verus! {

/// A legal frame body: no NUL byte anywhere.
pub open spec fn is_frame_body(m: Seq<u8>) -> bool {
    forall|i: int| 0 <= i < m.len() ==> m[i] != 0u8
}

/// Whether the buffer already holds a complete frame.
pub open spec fn has_nul(b: Seq<u8>) -> bool {
    exists|i: int| 0 <= i < b.len() && b[i] == 0u8
}

/// Append the frame terminator to a message body.
pub fn encode_frame(body: &Vec<u8>) -> (r: Vec<u8>)
    ensures
        r@ == body@.push(0u8),
{
    let mut out: Vec<u8> = Vec::new();
    let mut i: usize = 0;
    while i < body.len()
        invariant
            i <= body.len(),
            out@ == body@.subrange(0, i as int),
        decreases body.len() - i,
    {
        out.push(body[i]);
        i = i + 1;
    }
    assert(out@ == body@);
    out.push(0u8);
    out
}

/// Turns the raw byte stream of the pipe back into delimited frame bodies.
pub struct FrameDecoder {
    buf: Vec<u8>,
}

impl View for FrameDecoder {
    type V = Seq<u8>;

    closed spec fn view(&self) -> Seq<u8> {
        self.buf@
    }
}

impl FrameDecoder {
    /// A decoder with an empty buffer.
    pub fn new() -> (r: FrameDecoder)
        ensures
            r@ == Seq::<u8>::empty(),
    {
        FrameDecoder { buf: Vec::new() }
    }

    /// Append a chunk read from the pipe to the buffer.
    pub fn feed(&mut self, chunk: &[u8])
        ensures
            final(self)@ == old(self)@ + chunk@,
    {
        let mut i: usize = 0;
        while i < chunk.len()
            invariant
                i <= chunk.len(),
                self@ == old(self)@ + chunk@.subrange(0, i as int),
            decreases chunk.len() - i,
        {
            self.buf.push(chunk[i]);
            i = i + 1;
        }
        assert(chunk@.subrange(0, chunk@.len() as int) == chunk@);
    }

    /// Hand back the first complete frame body, terminator stripped, or
    /// `None` while no terminator has arrived yet.
    pub fn next_frame(&mut self) -> (r: Option<Vec<u8>>)
        ensures
            r is Some <==> has_nul(old(self)@),
            r matches Some(f) ==> {
                let n = f@.len() as int;
                &&& n < old(self)@.len()
                &&& f@ == old(self)@.subrange(0, n)
                &&& old(self)@[n] == 0u8
                &&& is_frame_body(f@)
                &&& final(self)@ == old(self)@.subrange(n + 1, old(self)@.len() as int)
            },
            r is None ==> final(self)@ == old(self)@,
    {
        let mut i: usize = 0;
        let mut found: bool = false;
        while i < self.buf.len() && !found
            invariant
                i <= self.buf.len(),
                self == old(self),
                found ==> i < self.buf.len() && self.buf@[i as int] == 0u8,
                forall|j: int| 0 <= j < i ==> self.buf@[j] != 0u8,
            decreases self.buf.len() - i, (if found { 0int } else { 1int }),
        {
            if self.buf[i] == 0u8 {
                found = true;
            } else {
                i = i + 1;
            }
        }
        if !found {
            assert(!has_nul(self@));
            return None;
        }
        let mut frame: Vec<u8> = Vec::new();
        let mut k: usize = 0;
        while k < i
            invariant
                k <= i,
                i < self.buf.len(),
                self == old(self),
                frame@ == self.buf@.subrange(0, k as int),
            decreases i - k,
        {
            frame.push(self.buf[k]);
            k = k + 1;
        }
        let mut rest: Vec<u8> = Vec::new();
        let mut m: usize = i + 1;
        while m < self.buf.len()
            invariant
                i + 1 <= m <= self.buf.len(),
                self == old(self),
                rest@ == self.buf@.subrange(i + 1, m as int),
            decreases self.buf.len() - m,
        {
            rest.push(self.buf[m]);
            m = m + 1;
        }
        self.buf = rest;
        Some(frame)
    }
}

/// The framing round trip loses nothing: any body that the decoder hands out
/// of a buffer holding exactly one encoded frame is the original body.  The
/// prefix the decoder returns is NUL-free and ends at a NUL of the buffer, and
/// for `body.push(0)` the only such prefix is `body` itself.
pub proof fn lemma_frame_round_trip(body: Seq<u8>, out: Seq<u8>)
    requires
        is_frame_body(body),
        out.len() < body.push(0u8).len(),
        out == body.push(0u8).subrange(0, out.len() as int),
        body.push(0u8)[out.len() as int] == 0u8,
        is_frame_body(out),
    ensures
        out == body,
{
    if out.len() < body.len() {
        assert(body[out.len() as int] == 0u8);
        assert(false);
    }
    assert(out.len() == body.len());
    assert forall|i: int| 0 <= i < body.len() implies out[i] == body[i] by {
        assert(out[i] == body.push(0u8)[i]);
    }
    assert(out =~= body);
}

} // verus!
