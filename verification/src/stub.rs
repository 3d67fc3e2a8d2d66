use vstd::prelude::*;

use crate::classify::{spec_classify, Route};
use crate::envelope::Envelope;
use crate::handler::Handler;
use crate::multiplex::Multiplexer;
use crate::request::Request;
use crate::response::{FramedResponse, TextResponse};

verus! {

/// Copy a byte vector.
fn copy_bytes(src: &Vec<u8>) -> (out: Vec<u8>)
    ensures
        out@ == src@,
{
    let mut out: Vec<u8> = Vec::new();
    let mut i: usize = 0;
    while i < src.len()
        invariant
            i <= src@.len(),
            out@ == src@.subrange(0, i as int),
        decreases src@.len() - i,
    {
        out.push(src[i]);
        proof {
            assert(src@.subrange(0, i + 1) =~= src@.subrange(0, i as int).push(src@[i as int]));
        }
        i += 1;
    }
    proof {
        assert(src@.subrange(0, src@.len() as int) =~= src@);
    }
    out
}

/// An instrumented backend for the default route: it echoes a fixed marker
/// body in a text response and counts how often it was invoked. The counter
/// stops at its maximum rather than wrap.
pub struct StubHandlerA {
    /// The fixed body every response carries.
    pub marker: Vec<u8>,
    /// Whether the backend reports itself ready.
    pub accepting: bool,
    /// How many requests this backend has served.
    pub calls: u64,
}

impl Handler for StubHandlerA {
    type Resp = TextResponse;

    open spec fn ready_spec(&self) -> bool {
        self.accepting
    }

    open spec fn handle_post(&self, req: Request, new_self: Self, resp: TextResponse) -> bool {
        &&& resp.status == 200
        &&& resp.body@ == self.marker@
        &&& new_self.marker@ == self.marker@
        &&& new_self.accepting == self.accepting
        &&& new_self.calls == if self.calls < u64::MAX {
            (self.calls + 1) as u64
        } else {
            self.calls
        }
    }

    fn ready(&self) -> (r: bool) {
        self.accepting
    }

    fn handle(&mut self, req: Request) -> (resp: TextResponse) {
        if self.calls < u64::MAX {
            self.calls = self.calls + 1;
        }
        TextResponse { status: 200, body: copy_bytes(&self.marker) }
    }
}

/// An instrumented backend for the RPC route: it echoes a fixed marker as
/// the single frame of a framed response and counts how often it was
/// invoked. The counter stops at its maximum rather than wrap.
pub struct StubHandlerB {
    /// The fixed frame every response carries.
    pub marker: Vec<u8>,
    /// Whether the backend reports itself ready.
    pub accepting: bool,
    /// How many requests this backend has served.
    pub calls: u64,
}

impl Handler for StubHandlerB {
    type Resp = FramedResponse;

    open spec fn ready_spec(&self) -> bool {
        self.accepting
    }

    open spec fn handle_post(&self, req: Request, new_self: Self, resp: FramedResponse) -> bool {
        &&& resp.status == 200
        &&& resp.frames@.len() == 1
        &&& resp.frames@[0]@ == self.marker@
        &&& new_self.marker@ == self.marker@
        &&& new_self.accepting == self.accepting
        &&& new_self.calls == if self.calls < u64::MAX {
            (self.calls + 1) as u64
        } else {
            self.calls
        }
    }

    fn ready(&self) -> (r: bool) {
        self.accepting
    }

    fn handle(&mut self, req: Request) -> (resp: FramedResponse) {
        if self.calls < u64::MAX {
            self.calls = self.calls + 1;
        }
        let mut frames: Vec<Vec<u8>> = Vec::new();
        frames.push(copy_bytes(&self.marker));
        FramedResponse { status: 200, frames }
    }
}

/// Forwarding transparency: with a stub backend that echoes a fixed marker
/// response, a request classified to the default route comes back through
/// the multiplexer as exactly that marker response, unmodified — and the
/// RPC backend is untouched.
pub proof fn lemma_forwarding_transparency(
    pre: Multiplexer<StubHandlerA, StubHandlerB>,
    post: Multiplexer<StubHandlerA, StubHandlerB>,
    req: Request,
    resp: Envelope<TextResponse, FramedResponse>,
)
    requires
        spec_classify(req.meta) == Route::RouteA,
        Multiplexer::dispatch_post(pre, post, req, resp),
    ensures
        resp matches Envelope::FromA(r) && r.status == 200 && r.body@ == pre.handler_a.marker@,
        post.handler_b == pre.handler_b,
{
}

/// Isolation, observed through the call counters: a request classified to
/// the RPC route invokes the RPC backend exactly once and the default
/// backend not at all — and the other way round.
pub proof fn lemma_stub_isolation_counts(
    pre: Multiplexer<StubHandlerA, StubHandlerB>,
    post: Multiplexer<StubHandlerA, StubHandlerB>,
    req: Request,
    resp: Envelope<TextResponse, FramedResponse>,
)
    requires
        Multiplexer::dispatch_post(pre, post, req, resp),
        pre.handler_a.calls < u64::MAX,
        pre.handler_b.calls < u64::MAX,
    ensures
        spec_classify(req.meta) == Route::RouteA ==> post.handler_a.calls == pre.handler_a.calls
            + 1 && post.handler_b.calls == pre.handler_b.calls,
        spec_classify(req.meta) == Route::RouteB ==> post.handler_b.calls == pre.handler_b.calls
            + 1 && post.handler_a.calls == pre.handler_a.calls,
{
}

} // verus!
