//! Normalized request/response envelopes and the frames that flow through a
//! body stream.
//!
//! A body stream is a sequence of [`StreamFrame`]s: binary data chunks,
//! followed by an optional trailer carrying the final status, followed by an
//! explicit end marker. The spec functions here give every stream its byte
//! content ([`stream_bytes`]) and its non-data skeleton ([`non_data_frames`]);
//! the bridging and logging layers state their contracts over these.

use vstd::prelude::*;
use crate::status::RpcStatus;

verus! {

/// Ordered metadata entries (header or trailer pairs).
///
/// Insertion appends; lookup sees the most recent entry for a name. The
/// adapter never needs to forget an entry, so earlier entries for the same
/// name merely stay shadowed.
#[derive(Clone, Debug)]
pub struct MetadataMap {
    entries: Vec<(String, String)>,
}

impl View for MetadataMap {
    type V = Seq<(Seq<char>, Seq<char>)>;

    closed spec fn view(&self) -> Seq<(Seq<char>, Seq<char>)> {
        Seq::new(self.entries@.len(), |i: int| (self.entries@[i].0@, self.entries@[i].1@))
    }
}

/// The value the most recent entry for `name` holds, if any.
pub open spec fn spec_meta_get(s: Seq<(Seq<char>, Seq<char>)>, name: Seq<char>) -> Option<
    Seq<char>,
>
    decreases s.len(),
{
    if s.len() == 0 {
        None
    } else if s.last().0 == name {
        Some(s.last().1)
    } else {
        spec_meta_get(s.drop_last(), name)
    }
}

impl MetadataMap {
    /// An empty metadata map.
    pub fn new() -> (r: MetadataMap)
        ensures
            r@ == Seq::<(Seq<char>, Seq<char>)>::empty(),
    {
        let r = MetadataMap { entries: Vec::new() };
        proof {
            assert(r@ =~= Seq::<(Seq<char>, Seq<char>)>::empty());
        }
        r
    }

    /// How many entries the map holds.
    pub fn len(&self) -> (n: usize)
        ensures
            n == self@.len(),
    {
        self.entries.len()
    }

    /// Appends an entry; it shadows any earlier entry for the same name.
    pub fn insert(&mut self, name: String, value: String)
        ensures
            final(self)@ == old(self)@.push((name@, value@)),
    {
        let ghost before = self@;
        self.entries.push((name, value));
        proof {
            assert(final(self)@ =~= before.push((name@, value@)));
        }
    }

    /// Looks the most recent entry for `name` up.
    pub fn get(&self, name: &str) -> (r: Option<&String>)
        ensures
            r is Some <==> spec_meta_get(self@, name@) is Some,
            r matches Some(v) ==> spec_meta_get(self@, name@) == Some(v@),
    {
        let mut i: usize = self.entries.len();
        proof {
            assert(self@.take(i as int) =~= self@);
        }
        while i > 0
            invariant
                i <= self.entries.len(),
                spec_meta_get(self@, name@) == spec_meta_get(self@.take(i as int), name@),
            decreases i,
        {
            proof {
                assert(self@.take(i as int).drop_last() =~= self@.take(i - 1));
                assert(self@.take(i as int).last() == self@[i - 1]);
            }
            i = i - 1;
            if str_eq(self.entries[i].0.as_str(), name) {
                return Some(&self.entries[i].1);
            }
        }
        proof {
            assert(self@.take(0) =~= Seq::<(Seq<char>, Seq<char>)>::empty());
        }
        None
    }
}

/// Relies on str's PartialEq: equality of two string slices is equality of
/// their character sequences.
#[verifier::external_body]
pub(crate) fn str_eq(a: &str, b: &str) -> (r: bool)
    ensures
        r == (a@ == b@),
{
    a == b
}

/// One unit flowing through a body stream.
#[derive(Debug)]
pub enum StreamFrame {
    /// A chunk of payload bytes.
    Data(Vec<u8>),
    /// Final metadata carrying the stream's status, delivered after all data.
    Trailer(RpcStatus),
    /// The explicit end of the stream.
    End,
}

/// The payload a frame contributes to the stream's byte content.
pub open spec fn frame_data(f: StreamFrame) -> Seq<u8> {
    match f {
        StreamFrame::Data(d) => d@,
        _ => Seq::<u8>::empty(),
    }
}

/// Whether a frame is a data chunk.
pub open spec fn is_data_frame(f: StreamFrame) -> bool {
    f is Data
}

/// The total ordered byte content of a stream: the concatenation of its data
/// chunks.
pub open spec fn stream_bytes(s: Seq<StreamFrame>) -> Seq<u8>
    decreases s.len(),
{
    if s.len() == 0 {
        Seq::<u8>::empty()
    } else {
        stream_bytes(s.drop_last()) + frame_data(s.last())
    }
}

/// The subsequence of frames that are not data chunks (trailers and end
/// markers), in order.
pub open spec fn non_data_frames(s: Seq<StreamFrame>) -> Seq<StreamFrame>
    decreases s.len(),
{
    if s.len() == 0 {
        Seq::<StreamFrame>::empty()
    } else if is_data_frame(s.last()) {
        non_data_frames(s.drop_last())
    } else {
        non_data_frames(s.drop_last()).push(s.last())
    }
}

/// Appending a frame appends its payload to the stream's byte content.
pub proof fn lemma_stream_bytes_push(s: Seq<StreamFrame>, f: StreamFrame)
    ensures
        stream_bytes(s.push(f)) == stream_bytes(s) + frame_data(f),
{
    assert(s.push(f).drop_last() =~= s);
    assert(s.push(f).last() == f);
}

/// Appending a data frame leaves the non-data skeleton unchanged; appending
/// any other frame appends it to the skeleton.
pub proof fn lemma_non_data_frames_push(s: Seq<StreamFrame>, f: StreamFrame)
    ensures
        is_data_frame(f) ==> non_data_frames(s.push(f)) == non_data_frames(s),
        !is_data_frame(f) ==> non_data_frames(s.push(f)) == non_data_frames(s).push(f),
{
    assert(s.push(f).drop_last() =~= s);
    assert(s.push(f).last() == f);
}

/// A well-formed stream: an explicit end marker can only stand last, so
/// every frame of the stream precedes its terminator.
pub open spec fn spec_wf_stream(s: Seq<StreamFrame>) -> bool {
    forall|j: int| 0 <= j < s.len() - 1 ==> !((#[trigger] s[j]) is End)
}

/// The subsequence of frames that are data chunks, in order.
pub open spec fn data_frames(s: Seq<StreamFrame>) -> Seq<StreamFrame>
    decreases s.len(),
{
    if s.len() == 0 {
        Seq::<StreamFrame>::empty()
    } else if is_data_frame(s.last()) {
        data_frames(s.drop_last()).push(s.last())
    } else {
        data_frames(s.drop_last())
    }
}

/// Appending a data frame appends it to the data subsequence; appending any
/// other frame leaves it unchanged.
pub proof fn lemma_data_frames_push(s: Seq<StreamFrame>, f: StreamFrame)
    ensures
        is_data_frame(f) ==> data_frames(s.push(f)) == data_frames(s).push(f),
        !is_data_frame(f) ==> data_frames(s.push(f)) == data_frames(s),
{
    assert(s.push(f).drop_last() =~= s);
    assert(s.push(f).last() == f);
}

/// Copies a byte buffer, preserving its content exactly.
pub fn copy_bytes(v: &Vec<u8>) -> (r: Vec<u8>)
    ensures
        r@ == v@,
{
    let mut r: Vec<u8> = Vec::new();
    let mut i: usize = 0;
    while i < v.len()
        invariant
            i <= v@.len(),
            r@ == v@.take(i as int),
        decreases v@.len() - i,
    {
        r.push(v[i]);
        proof {
            assert(v@.take(i + 1) =~= v@.take(i as int).push(v@[i as int]));
        }
        i = i + 1;
    }
    proof {
        assert(v@.take(v@.len() as int) =~= v@);
    }
    r
}

/// Seals a stream that ended abnormally mid-flight: every byte already
/// flushed stands, chunk for chunk, and the stream is terminated by a
/// trailer carrying the given status and the end marker. Any trailer the
/// producer had in flight is discarded in the forced one's favor.
pub fn seal_with_status(flushed: &Vec<StreamFrame>, st: RpcStatus) -> (out: Vec<StreamFrame>)
    ensures
        out@.len() == data_frames(flushed@).len() + 2,
        forall|j: int|
            0 <= j < data_frames(flushed@).len() ==> is_data_frame(#[trigger] out@[j])
                && frame_data(out@[j]) == frame_data(data_frames(flushed@)[j]),
        (out@[out@.len() - 2] matches StreamFrame::Trailer(t) && t.code == st.code && t.message@
            == st.message@),
        out@.last() is End,
        stream_bytes(out@) == stream_bytes(flushed@),
{
    let mut out: Vec<StreamFrame> = Vec::new();
    let mut i: usize = 0;
    while i < flushed.len()
        invariant
            i <= flushed@.len(),
            out@.len() == data_frames(flushed@.take(i as int)).len(),
            forall|j: int|
                0 <= j < out@.len() ==> is_data_frame(#[trigger] out@[j]) && frame_data(out@[j])
                    == frame_data(data_frames(flushed@.take(i as int))[j]),
            stream_bytes(out@) == stream_bytes(flushed@.take(i as int)),
        decreases flushed@.len() - i,
    {
        let ghost prefix = flushed@.take(i as int);
        proof {
            assert(flushed@.take(i + 1) =~= prefix.push(flushed@[i as int]));
            lemma_data_frames_push(prefix, flushed@[i as int]);
            lemma_stream_bytes_push(prefix, flushed@[i as int]);
        }
        match &flushed[i] {
            StreamFrame::Data(d) => {
                let copied = copy_bytes(d);
                proof {
                    lemma_stream_bytes_push(out@, StreamFrame::Data(copied));
                }
                out.push(StreamFrame::Data(copied));
            },
            _ => {},
        }
        i = i + 1;
    }
    proof {
        assert(flushed@.take(flushed@.len() as int) =~= flushed@);
        lemma_stream_bytes_push(out@, StreamFrame::Trailer(st));
        assert(stream_bytes(out@) + Seq::<u8>::empty() =~= stream_bytes(out@));
    }
    out.push(StreamFrame::Trailer(st));
    proof {
        lemma_stream_bytes_push(out@, StreamFrame::End);
        assert(stream_bytes(out@) + Seq::<u8>::empty() =~= stream_bytes(out@));
    }
    out.push(StreamFrame::End);
    out
}

/// A normalized request: metadata together with its body stream.
#[derive(Debug)]
pub struct RequestEnvelope {
    pub metadata: MetadataMap,
    pub frames: Vec<StreamFrame>,
}

/// A normalized response: metadata together with its body stream.
#[derive(Debug)]
pub struct ResponseEnvelope {
    pub metadata: MetadataMap,
    pub frames: Vec<StreamFrame>,
}

} // verus!
