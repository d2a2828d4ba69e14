//! Streaming sessions: an encoder that collects plaintext and frames it on
//! `finish`, and a decoder that collects frame bytes and decodes as soon as
//! a whole frame has arrived.
use vstd::prelude::*;
use crate::codec::{decompressed_frame, frame_compress, frame_decompress};
use crate::error::CodecError;
use crate::frame::{frame_extent, lemma_strict_prefix_is_open, FrameExtent};
use crate::lz4::{bytes_result, frame_of, unframe_of};

verus! {

/// The state of a session: the bytes collected so far, and whether it has
/// reached its terminal state.
pub struct SessionView {
    pub data: Seq<u8>,
    pub finished: bool,
}

/// What a decoder session does on `write(chunk)` from state `s`: the new
/// state and the reply.
pub open spec fn decoder_write_step(s: SessionView, chunk: Seq<u8>) -> (SessionView, Result<Seq<u8>, CodecError>) {
    if s.finished {
        (s, Err(CodecError::StreamClosed))
    } else {
        let data = s.data + chunk;
        match decompressed_frame(data) {
            Ok(out) => (SessionView { data, finished: true }, Ok(out)),
            Err(CodecError::Truncated) => (SessionView { data, finished: false }, Ok(Seq::empty())),
            Err(e) => (SessionView { data, finished: false }, Err(e)),
        }
    }
}

/// What a decoder session does on `finish()` from state `s`.
pub open spec fn decoder_finish_step(s: SessionView) -> (SessionView, Result<Seq<u8>, CodecError>) {
    if s.finished {
        (s, Ok(Seq::empty()))
    } else {
        match decompressed_frame(s.data) {
            Ok(out) => (SessionView { data: s.data, finished: true }, Ok(out)),
            Err(e) => (s, Err(e)),
        }
    }
}

/// What an encoder session does on `write(chunk)` from state `s`.
pub open spec fn encoder_write_step(s: SessionView, chunk: Seq<u8>) -> (SessionView, Result<(), CodecError>) {
    if s.finished {
        (s, Err(CodecError::StreamClosed))
    } else {
        (SessionView { data: s.data + chunk, finished: false }, Ok(()))
    }
}

/// What an encoder session does on `finish()` from state `s`.
pub open spec fn encoder_finish_step(s: SessionView) -> (SessionView, Result<Seq<u8>, CodecError>) {
    if s.finished {
        (s, Err(CodecError::StreamClosed))
    } else {
        (SessionView { data: s.data, finished: true }, Ok(frame_of(s.data)))
    }
}

/// The reply of a decoder `write` to one decode attempt of everything
/// collected, and whether the session is then finished: a whole frame
/// finishes it, an incomplete one asks for more with an empty reply, and
/// any other failure is passed on.
pub fn decode_attempt_reply(decoded: Result<Vec<u8>, CodecError>) -> (r: (Result<Vec<u8>, CodecError>, bool))
    ensures
        decoded is Ok ==> r.0 == decoded && r.1,
        decoded is Err && decoded->Err_0 is Truncated ==> r.0 is Ok && r.0->Ok_0@ == Seq::<u8>::empty() && !r.1,
        decoded is Err && !(decoded->Err_0 is Truncated) ==> r.0 == decoded && !r.1,
{
    match decoded {
        Ok(out) => (Ok(out), true),
        Err(CodecError::Truncated) => (Ok(Vec::new()), false),
        Err(e) => (Err(e), false),
    }
}

/// A session that collects plaintext and compresses it into one LZ4 frame
/// when finished.
pub struct LZ4EncoderStream {
    buffer: Vec<u8>,
    finished: bool,
}

impl View for LZ4EncoderStream {
    type V = SessionView;

    closed spec fn view(&self) -> SessionView {
        SessionView { data: self.buffer@, finished: self.finished }
    }
}

impl LZ4EncoderStream {
    /// An open session with nothing collected.
    pub fn new() -> (r: Self)
        ensures
            r@ == (SessionView { data: Seq::empty(), finished: false }),
    {
        LZ4EncoderStream { buffer: Vec::new(), finished: false }
    }

    /// Appends `data` to what is collected; nothing is compressed yet.
    pub fn write(&mut self, data: &[u8]) -> (r: Result<(), CodecError>)
        ensures
            (final(self)@, r) == encoder_write_step(old(self)@, data@),
    {
        if self.finished {
            return Err(CodecError::StreamClosed);
        }
        self.buffer.extend_from_slice(data);
        proof {
            assert(self.buffer@ =~= old(self).buffer@ + data@);
        }
        Ok(())
    }

    /// Compresses everything collected into one frame and closes the
    /// session. A second call fails with `StreamClosed`.
    pub fn finish(&mut self) -> (r: Result<Vec<u8>, CodecError>)
        ensures
            (final(self)@, bytes_result(r)) == encoder_finish_step(old(self)@),
            !old(self)@.finished ==> frame_extent(r->Ok_0@) == FrameExtent::Ends(r->Ok_0@.len() as int),
    {
        if self.finished {
            return Err(CodecError::StreamClosed);
        }
        let out = frame_compress(self.buffer.as_slice());
        self.finished = true;
        out
    }

    /// Whether the session has been finished.
    pub fn is_finished(&self) -> (r: bool)
        ensures
            r == self@.finished,
    {
        self.finished
    }
}

/// A session that collects the bytes of an LZ4 frame and decodes them once
/// the whole frame is there.
pub struct LZ4DecoderStream {
    buffer: Vec<u8>,
    finished: bool,
}

impl View for LZ4DecoderStream {
    type V = SessionView;

    closed spec fn view(&self) -> SessionView {
        SessionView { data: self.buffer@, finished: self.finished }
    }
}

impl LZ4DecoderStream {
    /// An open session with nothing collected.
    pub fn new() -> (r: Self)
        ensures
            r@ == (SessionView { data: Seq::empty(), finished: false }),
    {
        LZ4DecoderStream { buffer: Vec::new(), finished: false }
    }

    /// Appends `data` and tries to decode everything collected so far.
    /// Returns the decoded bytes once a whole frame is there, and an empty
    /// result while the frame is incomplete.
    pub fn write(&mut self, data: &[u8]) -> (r: Result<Vec<u8>, CodecError>)
        ensures
            (final(self)@, bytes_result(r)) == decoder_write_step(old(self)@, data@),
            !old(self)@.finished ==> forall|b: Seq<u8>| old(self)@.data + data@ == #[trigger] frame_of(b) && frame_extent(old(self)@.data + data@) is Ends ==> r is Ok && r->Ok_0@ == b && final(self)@.finished,
    {
        if self.finished {
            return Err(CodecError::StreamClosed);
        }
        self.buffer.extend_from_slice(data);
        proof {
            assert(self.buffer@ =~= old(self).buffer@ + data@);
        }
        let decoded = frame_decompress(self.buffer.as_slice());
        let (reply, done) = decode_attempt_reply(decoded);
        self.finished = done;
        reply
    }

    /// Makes a last decode attempt of everything collected. After the
    /// session has finished it returns an empty result.
    pub fn finish(&mut self) -> (r: Result<Vec<u8>, CodecError>)
        ensures
            (final(self)@, bytes_result(r)) == decoder_finish_step(old(self)@),
    {
        if self.finished {
            return Ok(Vec::new());
        }
        let decoded = frame_decompress(self.buffer.as_slice());
        if decoded.is_ok() {
            self.finished = true;
        }
        decoded
    }

    /// Whether the session has been finished.
    pub fn is_finished(&self) -> (r: bool)
        ensures
            r == self@.finished,
    {
        self.finished
    }
}

/// A decoder session fed a whole frame that decodes to `b`, in two writes
/// split at half its length, answers the first with an empty result and
/// stays open, and answers the second with `b` and finishes.
pub proof fn lemma_frame_in_two_halves(b: Seq<u8>, frame: Seq<u8>)
    requires
        frame_extent(frame) == FrameExtent::Ends(frame.len() as int),
        unframe_of(frame) == Ok::<Seq<u8>, CodecError>(b),
    ensures
        ({
            let start = SessionView { data: Seq::empty(), finished: false };
            let (half, first) = decoder_write_step(start, frame.take(frame.len() as int / 2));
            let (whole, second) = decoder_write_step(half, frame.skip(frame.len() as int / 2));
            &&& first == Ok::<Seq<u8>, CodecError>(Seq::empty())
            &&& !half.finished
            &&& second == Ok::<Seq<u8>, CodecError>(b)
            &&& whole.finished
        }),
{
    let k = frame.len() as int / 2;
    lemma_strict_prefix_is_open(frame, k);
    assert(Seq::<u8>::empty() + frame.take(k) =~= frame.take(k));
    assert(frame.take(k) + frame.skip(k) =~= frame);
}

/// While less than a whole frame has been written, every `write` to an open
/// decoder session answers with an empty result and leaves it open; the
/// `write` that completes a frame decoding to `b` answers with `b` and
/// finishes the session. So any chunking of a frame gives the same replies.
pub proof fn lemma_write_of_frame_prefix(b: Seq<u8>, frame: Seq<u8>, s: SessionView, chunk: Seq<u8>)
    requires
        frame_extent(frame) == FrameExtent::Ends(frame.len() as int),
        unframe_of(frame) == Ok::<Seq<u8>, CodecError>(b),
        !s.finished,
        frame.len() > 0,
        (s.data + chunk).len() <= frame.len(),
        s.data + chunk == frame.take((s.data + chunk).len() as int),
    ensures
        (s.data + chunk).len() < frame.len() ==> decoder_write_step(s, chunk) == (SessionView { data: s.data + chunk, finished: false }, Ok::<Seq<u8>, CodecError>(Seq::empty())),
        (s.data + chunk).len() == frame.len() ==> decoder_write_step(s, chunk) == (SessionView { data: frame, finished: true }, Ok::<Seq<u8>, CodecError>(b)),
{
    let n = (s.data + chunk).len() as int;
    if n < frame.len() {
        lemma_strict_prefix_is_open(frame, n);
    } else {
        assert(frame.take(n) =~= frame);
    }
}

/// Once a decoder session's `finish` has succeeded, every `write` fails with
/// `StreamClosed`.
pub proof fn lemma_decoder_closed_after_finish(s: SessionView, chunk: Seq<u8>)
    requires
        decoder_finish_step(s).1 is Ok,
    ensures
        decoder_write_step(decoder_finish_step(s).0, chunk).1 == Err::<Seq<u8>, CodecError>(CodecError::StreamClosed),
{
}

/// Once an encoder session has finished, every `write` fails with
/// `StreamClosed`, and so does a second `finish`.
pub proof fn lemma_encoder_closed_after_finish(s: SessionView, chunk: Seq<u8>)
    ensures
        encoder_write_step(encoder_finish_step(s).0, chunk).1 == Err::<(), CodecError>(CodecError::StreamClosed),
        encoder_finish_step(encoder_finish_step(s).0).1 == Err::<Seq<u8>, CodecError>(CodecError::StreamClosed),
{
}

} // verus!
