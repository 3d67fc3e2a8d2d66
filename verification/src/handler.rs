use vstd::prelude::*;

use crate::request::Request;

verus! {

/// The narrow contract through which the multiplexer consumes a backend:
/// a readiness check and a dispatch operation. Each backend is a complete,
/// independently constructed service satisfying this trait; the multiplexer
/// never looks past it.
pub trait Handler: Sized {
    /// The backend's native response shape.
    type Resp;

    /// Whether the backend can currently accept a dispatch.
    spec fn ready_spec(&self) -> bool;

    /// The backend's own dispatch contract: how the response and the state
    /// after the call relate to the request and the state before it.
    spec fn handle_post(&self, req: Request, new_self: Self, resp: Self::Resp) -> bool;

    /// Report whether the backend can currently accept a dispatch.
    fn ready(&self) -> (r: bool)
        ensures
            r == self.ready_spec(),
    ;

    /// Process one request. Callers dispatch only while the backend is
    /// ready.
    fn handle(&mut self, req: Request) -> (resp: Self::Resp)
        requires
            old(self).ready_spec(),
        ensures
            old(self).handle_post(req, *final(self), resp),
    ;
}

} // verus!
