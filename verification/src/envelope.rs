use vstd::prelude::*;

verus! {

/// The minimal response shape the transport layer consumes: a status code,
/// a content type, and a body of bytes.
pub struct TransportResponse {
    pub status: u16,
    pub content_type: Vec<u8>,
    pub body: Vec<u8>,
}

/// The mathematical value of a transport response.
pub struct TransportModel {
    pub status: u16,
    pub content_type: Seq<u8>,
    pub body: Seq<u8>,
}

impl View for TransportResponse {
    type V = TransportModel;

    open spec fn view(&self) -> TransportModel {
        TransportModel {
            status: self.status,
            content_type: self.content_type@,
            body: self.body@,
        }
    }
}

/// The capability of being adapted to the transport's response contract.
/// Each backend's native response shape carries it; the envelope demands no
/// more of a response than this.
pub trait IntoTransport: Sized {
    /// The transport-level value this response adapts to.
    spec fn transport_spec(&self) -> TransportModel;

    /// Adapt the response for the transport layer.
    fn into_transport(self) -> (t: TransportResponse)
        ensures
            t@ == self.transport_spec(),
    ;
}

/// The closed tagged union unifying the two backends' distinct response
/// shapes under one type: a response is either the first backend's or the
/// second's, and nothing else.
pub enum Envelope<RA, RB> {
    FromA(RA),
    FromB(RB),
}

impl<RA, RB> Envelope<RA, RB> {
    /// Inject the first backend's native response.
    pub fn from_a(r: RA) -> (e: Self)
        ensures
            e == Envelope::<RA, RB>::FromA(r),
    {
        Envelope::FromA(r)
    }

    /// Inject the second backend's native response.
    pub fn from_b(r: RB) -> (e: Self)
        ensures
            e == Envelope::<RA, RB>::FromB(r),
    {
        Envelope::FromB(r)
    }
}

impl<RA: IntoTransport, RB: IntoTransport> Envelope<RA, RB> {
    /// The transport-level value of whichever response is stored.
    pub open spec fn transport_spec(&self) -> TransportModel {
        match self {
            Envelope::FromA(a) => a.transport_spec(),
            Envelope::FromB(b) => b.transport_spec(),
        }
    }

    /// Expose the stored response through the transport's contract, the same
    /// interface whichever backend produced it.
    pub fn into_transport(self) -> (t: TransportResponse)
        ensures
            t@ == self.transport_spec(),
    {
        match self {
            Envelope::FromA(a) => a.into_transport(),
            Envelope::FromB(b) => b.into_transport(),
        }
    }
}

} // verus!
