use vstd::prelude::*;

use crate::classify::{classify, spec_classify, Route};
use crate::envelope::Envelope;
use crate::handler::Handler;
use crate::request::Request;

verus! {

/// The multiplexer: owns the two injected backends and exposes one
/// handler-shaped interface over both. It is stateless across requests —
/// each dispatch is classified independently, with no connection affinity.
pub struct Multiplexer<A, B> {
    /// The backend serving the default route.
    pub handler_a: A,
    /// The backend serving the RPC route.
    pub handler_b: B,
}

impl<A: Handler, B: Handler> Multiplexer<A, B> {
    /// The multiplexer is ready exactly when both backends are: one
    /// conservative readiness signal for the single logical service.
    pub open spec fn ready_spec(&self) -> bool {
        self.handler_a.ready_spec() && self.handler_b.ready_spec()
    }

    /// Everything one dispatch does. The route is computed by the classifier
    /// alone; the selected backend sees the request unchanged, and its own
    /// contract relates its response to it; the other backend is untouched.
    pub open spec fn dispatch_post(
        pre: Self,
        post: Self,
        req: Request,
        resp: Envelope<A::Resp, B::Resp>,
    ) -> bool {
        match spec_classify(req.meta) {
            Route::RouteA => {
                &&& resp matches Envelope::FromA(ra) && pre.handler_a.handle_post(
                    req,
                    post.handler_a,
                    ra,
                )
                &&& post.handler_b == pre.handler_b
            },
            Route::RouteB => {
                &&& resp matches Envelope::FromB(rb) && pre.handler_b.handle_post(
                    req,
                    post.handler_b,
                    rb,
                )
                &&& post.handler_a == pre.handler_a
            },
        }
    }

    /// Compose the two injected backends into one service.
    pub fn new(handler_a: A, handler_b: B) -> (m: Self)
        ensures
            m == (Multiplexer { handler_a, handler_b }),
    {
        Multiplexer { handler_a, handler_b }
    }

    /// Report ready only when both backends report ready; if either backend
    /// is not ready, the multiplexer is not ready.
    pub fn ready(&self) -> (r: bool)
        ensures
            r == self.ready_spec(),
    {
        self.handler_a.ready() && self.handler_b.ready()
    }

    /// Serve one request: classify it once, forward it unchanged to the
    /// selected backend, and wrap whatever that backend returns. No retry,
    /// no timeout, no request mutation. Callers dispatch only while ready.
    pub fn dispatch(&mut self, req: Request) -> (resp: Envelope<A::Resp, B::Resp>)
        requires
            old(self).ready_spec(),
        ensures
            Self::dispatch_post(*old(self), *final(self), req, resp),
    {
        match classify(&req.meta) {
            Route::RouteA => Envelope::FromA(self.handler_a.handle(req)),
            Route::RouteB => Envelope::FromB(self.handler_b.handle(req)),
        }
    }

    /// Readiness conjunction: the multiplexer reports ready iff both
    /// injected backends report ready.
    pub proof fn lemma_ready_conjunction(m: Self)
        ensures
            m.ready_spec() <==> (m.handler_a.ready_spec() && m.handler_b.ready_spec()),
    {
    }

    /// Isolation: a dispatch invokes only the backend its request classifies
    /// to; the other backend keeps its state untouched.
    pub proof fn lemma_dispatch_isolation(
        pre: Self,
        post: Self,
        req: Request,
        resp: Envelope<A::Resp, B::Resp>,
    )
        requires
            Self::dispatch_post(pre, post, req, resp),
        ensures
            spec_classify(req.meta) == Route::RouteA ==> post.handler_b == pre.handler_b,
            spec_classify(req.meta) == Route::RouteB ==> post.handler_a == pre.handler_a,
    {
    }
}

} // verus!
