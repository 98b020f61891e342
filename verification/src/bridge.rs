//! Body bridging: adapts between the outer transport's chunked body and the
//! RPC stack's internal streaming body, preserving the total ordered byte
//! content exactly while chunk boundaries may change.
//!
//! The bridge is pull-based, so an unbounded stream never sits in memory: it
//! holds at most one inner frame's bytes, asks the inner producer for the
//! next frame only when that buffer is empty ([`BodyBridge::wants_pull`]),
//! and hands the outer consumer one bounded chunk at a time
//! ([`BodyBridge::next_chunk`]). Trailers and end markers pass through
//! unaltered, in their original position relative to the data. When the
//! outer transport reports the receiver gone ([`BodyBridge::outer_closed`]),
//! the bridge stops asking the inner producer for more work.
//!
//! The well-formedness invariant [`BodyBridge::wf`] carries the bridging
//! contract: at every state, the bytes delivered outward plus the bytes still
//! buffered are exactly the bytes consumed from the inner producer, and the
//! non-data skeleton is delivered unchanged.

use vstd::prelude::*;
use crate::envelope::{StreamFrame, frame_data, is_data_frame, stream_bytes, non_data_frames,
    spec_wf_stream, lemma_stream_bytes_push, lemma_non_data_frames_push};

verus! {

#[verifier::external_type_specification]
#[verifier::external_body]
pub struct ExBytes(bytes::Bytes);

/// The bytes a `bytes::Bytes` buffer holds.
pub uninterp spec fn bytes_view(b: bytes::Bytes) -> Seq<u8>;

/// Relies on bytes::Bytes::from for a vector: the buffer holds exactly the
/// vector's bytes.
#[verifier::external_body]
fn bytes_from_vec(v: Vec<u8>) -> (b: bytes::Bytes)
    ensures
        bytes_view(b) == v@,
{
    bytes::Bytes::from(v)
}

/// The bidirectional body adapter for one stream.
pub struct BodyBridge {
    /// The largest data chunk handed to the outer consumer.
    pub max_chunk: usize,
    /// Bytes of the current inner data frame not yet delivered outward.
    pub buf: Vec<u8>,
    /// Whether the inner producer has delivered its end marker.
    pub inner_done: bool,
    /// Whether the outer transport reported the receiver gone.
    pub outer_gone: bool,
    /// Every frame consumed from the inner producer, in order.
    pub consumed: Ghost<Seq<StreamFrame>>,
    /// Every frame delivered to the outer consumer, in order.
    pub emitted: Ghost<Seq<StreamFrame>>,
}

impl BodyBridge {
    /// The bridging invariant: delivered bytes plus buffered bytes are the
    /// consumed bytes, and trailers and end markers pass through unaltered.
    pub open spec fn wf(&self) -> bool {
        &&& self.max_chunk >= 1
        &&& stream_bytes(self.emitted@) + self.buf@ == stream_bytes(self.consumed@)
        &&& non_data_frames(self.emitted@) == non_data_frames(self.consumed@)
    }

    /// A fresh bridge for one stream, delivering chunks of at most
    /// `max_chunk` bytes.
    pub fn new(max_chunk: usize) -> (b: BodyBridge)
        requires
            max_chunk >= 1,
        ensures
            b.wf(),
            b.max_chunk == max_chunk,
            b.consumed@ == Seq::<StreamFrame>::empty(),
            b.emitted@ == Seq::<StreamFrame>::empty(),
            b.buf@.len() == 0,
            !b.inner_done,
            !b.outer_gone,
    {
        let b = BodyBridge {
            max_chunk,
            buf: Vec::new(),
            inner_done: false,
            outer_gone: false,
            consumed: Ghost(Seq::empty()),
            emitted: Ghost(Seq::empty()),
        };
        proof {
            assert(stream_bytes(b.emitted@) + b.buf@ =~= stream_bytes(b.consumed@));
        }
        b
    }

    /// Backpressure gate: the bridge asks the inner producer for its next
    /// frame only when nothing is buffered, the producer has more to give,
    /// and the receiver is still there.
    pub fn wants_pull(&self) -> (r: bool)
        ensures
            r == (self.buf@.len() == 0 && !self.inner_done && !self.outer_gone),
    {
        self.buf.len() == 0 && !self.inner_done && !self.outer_gone
    }

    /// Takes one frame pulled from the inner producer. A data frame is
    /// buffered for chunked delivery; a trailer or end marker is handed
    /// straight back for immediate delivery, unaltered.
    pub fn accept(&mut self, f: StreamFrame) -> (emit: Option<StreamFrame>)
        requires
            old(self).wf(),
            old(self).buf@.len() == 0,
            !old(self).inner_done,
            !old(self).outer_gone,
        ensures
            final(self).wf(),
            final(self).consumed@ == old(self).consumed@.push(f),
            final(self).emitted@ == if is_data_frame(f) {
                old(self).emitted@
            } else {
                old(self).emitted@.push(f)
            },
            final(self).max_chunk == old(self).max_chunk,
            !final(self).outer_gone,
            final(self).inner_done == (f is End),
            is_data_frame(f) ==> emit is None && final(self).buf@ == frame_data(f),
            !is_data_frame(f) ==> emit == Some(f) && final(self).buf@.len() == 0,
    {
        let ghost f0 = f;
        proof {
            lemma_stream_bytes_push(self.consumed@, f0);
            lemma_non_data_frames_push(self.consumed@, f0);
            lemma_non_data_frames_push(self.emitted@, f0);
            lemma_stream_bytes_push(self.emitted@, f0);
        }
        match f {
            StreamFrame::Data(d) => {
                self.buf = d;
                proof {
                    self.consumed@ = self.consumed@.push(f0);
                    assert(stream_bytes(self.emitted@) + self.buf@ =~= stream_bytes(
                        self.consumed@,
                    ));
                }
                None
            },
            StreamFrame::Trailer(st) => {
                let out = StreamFrame::Trailer(st);
                proof {
                    self.consumed@ = self.consumed@.push(f0);
                    self.emitted@ = self.emitted@.push(f0);
                    assert(stream_bytes(self.emitted@) + self.buf@ =~= stream_bytes(
                        self.consumed@,
                    ));
                }
                Some(out)
            },
            StreamFrame::End => {
                self.inner_done = true;
                proof {
                    self.consumed@ = self.consumed@.push(f0);
                    self.emitted@ = self.emitted@.push(f0);
                    assert(stream_bytes(self.emitted@) + self.buf@ =~= stream_bytes(
                        self.consumed@,
                    ));
                }
                Some(StreamFrame::End)
            },
        }
    }

    /// Hands the outer consumer its next data chunk: the longest prefix of
    /// the buffered bytes that fits the chunk bound, or nothing when the
    /// buffer is empty.
    pub fn next_chunk(&mut self) -> (c: Option<Vec<u8>>)
        requires
            old(self).wf(),
        ensures
            final(self).wf(),
            final(self).consumed@ == old(self).consumed@,
            final(self).max_chunk == old(self).max_chunk,
            final(self).inner_done == old(self).inner_done,
            final(self).outer_gone == old(self).outer_gone,
            old(self).buf@.len() == 0 ==> c is None && final(self).buf@ == old(self).buf@
                && final(self).emitted@ == old(self).emitted@,
            old(self).buf@.len() > 0 ==> (c matches Some(ch) && ch@.len() == (
            if old(self).buf@.len() <= old(self).max_chunk {
                old(self).buf@.len() as int
            } else {
                old(self).max_chunk as int
            }) && ch@ == old(self).buf@.take(ch@.len() as int) && final(self).buf@ == old(
                self,
            ).buf@.skip(ch@.len() as int) && final(self).emitted@ == old(self).emitted@.push(
                StreamFrame::Data(ch),
            )),
    {
        if self.buf.len() == 0 {
            return None;
        }
        let k: usize = if self.buf.len() <= self.max_chunk {
            self.buf.len()
        } else {
            self.max_chunk
        };
        let mut chunk: Vec<u8> = Vec::new();
        let mut i: usize = 0;
        while i < k
            invariant
                i <= k <= self.buf@.len(),
                chunk@ == self.buf@.take(i as int),
            decreases k - i,
        {
            chunk.push(self.buf[i]);
            proof {
                assert(self.buf@.take(i + 1) =~= self.buf@.take(i as int).push(
                    self.buf@[i as int],
                ));
            }
            i = i + 1;
        }
        let mut rest: Vec<u8> = Vec::new();
        let mut j: usize = k;
        while j < self.buf.len()
            invariant
                k <= j <= self.buf@.len(),
                rest@ == self.buf@.subrange(k as int, j as int),
            decreases self.buf@.len() - j,
        {
            rest.push(self.buf[j]);
            proof {
                assert(self.buf@.subrange(k as int, j + 1) =~= self.buf@.subrange(
                    k as int,
                    j as int,
                ).push(self.buf@[j as int]));
            }
            j = j + 1;
        }
        proof {
            lemma_stream_bytes_push(self.emitted@, StreamFrame::Data(chunk));
            lemma_non_data_frames_push(self.emitted@, StreamFrame::Data(chunk));
            assert(chunk@ + rest@ =~= self.buf@);
        }
        self.buf = rest;
        proof {
            self.emitted@ = self.emitted@.push(StreamFrame::Data(chunk));
            assert(stream_bytes(self.emitted@) + self.buf@ =~= stream_bytes(self.consumed@));
        }
        Some(chunk)
    }

    /// As [`BodyBridge::next_chunk`], but realized as the outer transport's
    /// own buffer type: the handed-out buffer holds exactly the chunk's
    /// bytes.
    pub fn next_chunk_bytes(&mut self) -> (c: Option<bytes::Bytes>)
        requires
            old(self).wf(),
        ensures
            final(self).wf(),
            final(self).consumed@ == old(self).consumed@,
            final(self).max_chunk == old(self).max_chunk,
            final(self).inner_done == old(self).inner_done,
            final(self).outer_gone == old(self).outer_gone,
            old(self).buf@.len() == 0 ==> c is None && final(self).buf@ == old(self).buf@
                && final(self).emitted@ == old(self).emitted@,
            old(self).buf@.len() > 0 ==> (c matches Some(ch) && bytes_view(ch).len() == (
            if old(self).buf@.len() <= old(self).max_chunk {
                old(self).buf@.len() as int
            } else {
                old(self).max_chunk as int
            }) && bytes_view(ch) == old(self).buf@.take(bytes_view(ch).len() as int)
                && final(self).buf@ == old(self).buf@.skip(bytes_view(ch).len() as int)),
    {
        match self.next_chunk() {
            Option::Some(chunk) => Some(bytes_from_vec(chunk)),
            Option::None => None,
        }
    }

    /// The outer transport reported the receiver gone: the bridge signals
    /// the inner producer to stop promptly by never asking for more.
    pub fn outer_closed(&mut self)
        ensures
            final(self).outer_gone,
            final(self).wf() == old(self).wf(),
            final(self).consumed@ == old(self).consumed@,
            final(self).emitted@ == old(self).emitted@,
            final(self).buf@ == old(self).buf@,
            final(self).max_chunk == old(self).max_chunk,
            final(self).inner_done == old(self).inner_done,
    {
        self.outer_gone = true;
    }

    /// Whether every consumed byte has been delivered outward.
    pub fn drained(&self) -> (r: bool)
        ensures
            r == (self.buf@.len() == 0),
    {
        self.buf.len() == 0
    }
}

/// Round trip at any rest point: whenever the bridge holds no byte back, the
/// concatenation of data chunks delivered to the outer transport equals the
/// concatenation of chunks consumed from the inner producer — whatever the
/// inner segmentation was — and the non-data frames went through unaltered.
pub proof fn lemma_bridge_round_trip(b: &BodyBridge)
    requires
        b.wf(),
        b.buf@.len() == 0,
    ensures
        stream_bytes(b.emitted@) == stream_bytes(b.consumed@),
        non_data_frames(b.emitted@) == non_data_frames(b.consumed@),
{
    assert(stream_bytes(b.emitted@) + b.buf@ =~= stream_bytes(b.emitted@));
}

/// Drives a whole inner stream through a fresh bridge, eagerly draining
/// after every frame: the result is what the outer transport observes. Its
/// byte content equals the inner stream's exactly, its trailers and end
/// markers are the inner stream's unaltered, and every data chunk in it is
/// non-empty and at most `max_chunk` long.
pub fn bridge_stream(frames: Vec<StreamFrame>, max_chunk: usize) -> (out: Vec<StreamFrame>)
    requires
        max_chunk >= 1,
        spec_wf_stream(frames@),
    ensures
        stream_bytes(out@) == stream_bytes(frames@),
        non_data_frames(out@) == non_data_frames(frames@),
        forall|j: int|
            0 <= j < out@.len() && is_data_frame(#[trigger] out@[j]) ==> 1 <= frame_data(
                out@[j],
            ).len() <= max_chunk,
{
    let mut bridge = BodyBridge::new(max_chunk);
    let mut out: Vec<StreamFrame> = Vec::new();
    let mut frames = frames;
    let ghost all = frames@;
    let n = frames.len();
    let mut i: usize = 0;
    proof {
        assert(all.take(0) =~= Seq::<StreamFrame>::empty());
        assert(all.skip(0) =~= all);
    }
    while i < n
        invariant
            i <= n == all.len(),
            spec_wf_stream(all),
            frames@ == all.skip(i as int),
            bridge.wf(),
            bridge.max_chunk == max_chunk,
            !bridge.outer_gone,
            bridge.inner_done ==> i == n,
            bridge.buf@.len() == 0,
            bridge.consumed@ == all.take(i as int),
            out@ == bridge.emitted@,
            forall|j: int|
                0 <= j < out@.len() && is_data_frame(#[trigger] out@[j]) ==> 1 <= frame_data(
                    out@[j],
                ).len() <= max_chunk,
        decreases n - i,
    {
        let f = frames.remove(0);
        proof {
            assert(all.skip(i as int)[0] == all[i as int]);
            assert(all.skip(i as int).remove(0) =~= all.skip(i + 1));
        }
        let emit = bridge.accept(f);
        if let Some(e) = emit {
            out.push(e);
        }
        proof {
            assert(all.take(i + 1) =~= all.take(i as int).push(all[i as int]));
        }
        loop
            invariant
                bridge.wf(),
                bridge.max_chunk == max_chunk,
                !bridge.outer_gone,
                bridge.inner_done == (all[i as int] is End),
                bridge.consumed@ == all.take(i + 1),
                out@ == bridge.emitted@,
                forall|j: int|
                    0 <= j < out@.len() && is_data_frame(#[trigger] out@[j]) ==> 1 <= frame_data(
                        out@[j],
                    ).len() <= max_chunk,
            ensures
                bridge.wf(),
                bridge.max_chunk == max_chunk,
                !bridge.outer_gone,
                bridge.inner_done == (all[i as int] is End),
                bridge.buf@.len() == 0,
                bridge.consumed@ == all.take(i + 1),
                out@ == bridge.emitted@,
                forall|j: int|
                    0 <= j < out@.len() && is_data_frame(#[trigger] out@[j]) ==> 1 <= frame_data(
                        out@[j],
                    ).len() <= max_chunk,
            decreases bridge.buf@.len(),
        {
            match bridge.next_chunk() {
                Option::Some(ch) => {
                    out.push(StreamFrame::Data(ch));
                },
                Option::None => {
                    break;
                },
            }
        }
        i = i + 1;
    }
    proof {
        assert(all.take(n as int) =~= all);
        lemma_bridge_round_trip(&bridge);
    }
    out
}

} // verus!
