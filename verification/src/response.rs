use vstd::prelude::*;

use crate::classify::{grpc_marker, grpc_marker_bytes};
use crate::envelope::{IntoTransport, TransportModel, TransportResponse};

verus! {

/// The bytes of `text/plain`, the content type the default backend's
/// responses declare.
pub open spec fn text_plain() -> Seq<u8> {
    seq![116u8, 101u8, 120u8, 116u8, 47u8, 112u8, 108u8, 97u8, 105u8, 110u8]
}

/// The `text/plain` content type as bytes.
pub fn text_plain_bytes() -> (v: Vec<u8>)
    ensures
        v@ == text_plain(),
{
    let mut v: Vec<u8> = Vec::new();
    v.push(116u8);
    v.push(101u8);
    v.push(120u8);
    v.push(116u8);
    v.push(47u8);
    v.push(112u8);
    v.push(108u8);
    v.push(97u8);
    v.push(105u8);
    v.push(110u8);
    proof {
        assert(v@ =~= text_plain());
    }
    v
}

/// The default backend's native response shape: a status code and one body
/// of text bytes.
#[derive(Debug, Clone, PartialEq, Eq)]
pub struct TextResponse {
    pub status: u16,
    pub body: Vec<u8>,
}

/// The RPC backend's native response shape: a status code and a body
/// delivered as a sequence of frames.
#[derive(Debug, Clone, PartialEq, Eq)]
pub struct FramedResponse {
    pub status: u16,
    pub frames: Vec<Vec<u8>>,
}

/// The byte sequences of a sequence of frames.
pub open spec fn chunk_views(frames: Seq<Vec<u8>>) -> Seq<Seq<u8>> {
    frames.map_values(|f: Vec<u8>| f@)
}

/// All chunks joined in order into one byte sequence.
pub open spec fn concat_chunks(chunks: Seq<Seq<u8>>) -> Seq<u8>
    decreases chunks.len(),
{
    if chunks.len() == 0 {
        Seq::empty()
    } else {
        chunks.first() + concat_chunks(chunks.drop_first())
    }
}

/// Joining one more chunk at the end appends its bytes at the end.
pub proof fn lemma_concat_chunks_push(chunks: Seq<Seq<u8>>, x: Seq<u8>)
    ensures
        concat_chunks(chunks.push(x)) == concat_chunks(chunks) + x,
    decreases chunks.len(),
{
    if chunks.len() == 0 {
        assert(chunks.push(x).first() == x);
        assert(chunks.push(x).drop_first() =~= Seq::<Seq<u8>>::empty());
        assert(concat_chunks(Seq::<Seq<u8>>::empty()) =~= Seq::<u8>::empty());
        assert(concat_chunks(chunks.push(x)) =~= x + Seq::<u8>::empty());
        assert(x + Seq::<u8>::empty() =~= concat_chunks(chunks) + x);
    } else {
        assert(chunks.push(x).first() == chunks.first());
        assert(chunks.push(x).drop_first() =~= chunks.drop_first().push(x));
        lemma_concat_chunks_push(chunks.drop_first(), x);
        assert(concat_chunks(chunks.push(x)) =~= chunks.first() + (concat_chunks(
            chunks.drop_first(),
        ) + x));
        assert(chunks.first() + (concat_chunks(chunks.drop_first()) + x) =~= concat_chunks(chunks)
            + x);
    }
}

/// Join the frames, in order, into one body of bytes.
pub fn concat_frames(frames: &Vec<Vec<u8>>) -> (out: Vec<u8>)
    ensures
        out@ == concat_chunks(chunk_views(frames@)),
{
    let mut out: Vec<u8> = Vec::new();
    let mut i: usize = 0;
    proof {
        assert(chunk_views(frames@).subrange(0, 0) =~= Seq::<Seq<u8>>::empty());
    }
    while i < frames.len()
        invariant
            i <= frames@.len(),
            out@ == concat_chunks(chunk_views(frames@).subrange(0, i as int)),
        decreases frames@.len() - i,
    {
        let frame: &Vec<u8> = &frames[i];
        let mut j: usize = 0;
        while j < frame.len()
            invariant
                i < frames@.len(),
                frame@ == frames@[i as int]@,
                j <= frame@.len(),
                out@ == concat_chunks(chunk_views(frames@).subrange(0, i as int)) + frame@
                    .subrange(0, j as int),
            decreases frame@.len() - j,
        {
            out.push(frame[j]);
            proof {
                assert(frame@.subrange(0, j + 1) =~= frame@.subrange(0, j as int).push(
                    frame@[j as int],
                ));
                assert(out@ =~= concat_chunks(chunk_views(frames@).subrange(0, i as int))
                    + frame@.subrange(0, j + 1));
            }
            j += 1;
        }
        proof {
            assert(frame@.subrange(0, frame@.len() as int) =~= frame@);
            assert(chunk_views(frames@).subrange(0, i + 1) =~= chunk_views(frames@).subrange(
                0,
                i as int,
            ).push(frames@[i as int]@));
            lemma_concat_chunks_push(
                chunk_views(frames@).subrange(0, i as int),
                frames@[i as int]@,
            );
        }
        i += 1;
    }
    proof {
        assert(chunk_views(frames@).subrange(0, frames@.len() as int) =~= chunk_views(frames@));
    }
    out
}

impl IntoTransport for TextResponse {
    /// A text response reaches the transport as it is, declared `text/plain`.
    open spec fn transport_spec(&self) -> TransportModel {
        TransportModel { status: self.status, content_type: text_plain(), body: self.body@ }
    }

    fn into_transport(self) -> (t: TransportResponse) {
        TransportResponse { status: self.status, content_type: text_plain_bytes(), body: self.body }
    }
}

impl IntoTransport for FramedResponse {
    /// A framed response reaches the transport with its frames joined in
    /// order into one body, declared with the RPC content type.
    open spec fn transport_spec(&self) -> TransportModel {
        TransportModel {
            status: self.status,
            content_type: grpc_marker(),
            body: concat_chunks(chunk_views(self.frames@)),
        }
    }

    fn into_transport(self) -> (t: TransportResponse) {
        let body = concat_frames(&self.frames);
        TransportResponse { status: self.status, content_type: grpc_marker_bytes(), body }
    }
}

} // verus!
