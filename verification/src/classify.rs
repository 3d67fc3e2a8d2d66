use vstd::prelude::*;

use crate::request::RequestMeta;

verus! {

/// The two routes a request can classify to.
#[derive(Clone, Copy, Debug, PartialEq, Eq, Structural)]
pub enum Route {
    /// The default backend: plain request/response traffic.
    RouteA,
    /// The multiplexed-RPC backend.
    RouteB,
}

/// The content-type marker whose presence as a prefix names the RPC
/// protocol: the bytes of `application/grpc`.
pub open spec fn grpc_marker() -> Seq<u8> {
    seq![
        97u8, 112u8, 112u8, 108u8, 105u8, 99u8, 97u8, 116u8, 105u8, 111u8, 110u8, 47u8, 103u8,
        114u8, 112u8, 99u8,
    ]
}

/// The generic signature: every request is syntactically acceptable to the
/// default backend, so this holds of all metadata.
pub open spec fn matches_route_a(m: RequestMeta) -> bool {
    true
}

/// The specific signature: the multiplexed framing version together with the
/// RPC content-type marker. It refines the generic signature, so a request
/// may satisfy both.
pub open spec fn matches_route_b(m: RequestMeta) -> bool {
    m.version == 2 && grpc_marker().is_prefix_of(m.content_type@)
}

/// What classification decides: the RPC route exactly when the specific
/// signature holds, and the default route otherwise. Total, and a function
/// of the metadata alone.
pub open spec fn spec_classify(m: RequestMeta) -> Route {
    if matches_route_b(m) {
        Route::RouteB
    } else {
        Route::RouteA
    }
}

/// The RPC content-type marker as bytes.
pub fn grpc_marker_bytes() -> (v: Vec<u8>)
    ensures
        v@ == grpc_marker(),
{
    let mut v: Vec<u8> = Vec::new();
    v.push(97u8);
    v.push(112u8);
    v.push(112u8);
    v.push(108u8);
    v.push(105u8);
    v.push(99u8);
    v.push(97u8);
    v.push(116u8);
    v.push(105u8);
    v.push(111u8);
    v.push(110u8);
    v.push(47u8);
    v.push(103u8);
    v.push(114u8);
    v.push(112u8);
    v.push(99u8);
    proof {
        assert(v@ =~= grpc_marker());
    }
    v
}

/// Whether the declared content type carries the RPC marker as a prefix.
pub fn has_grpc_prefix(content_type: &Vec<u8>) -> (r: bool)
    ensures
        r == grpc_marker().is_prefix_of(content_type@),
{
    let marker = grpc_marker_bytes();
    if content_type.len() < marker.len() {
        return false;
    }
    let mut i: usize = 0;
    while i < marker.len()
        invariant
            marker@ == grpc_marker(),
            i <= marker@.len(),
            marker@.len() <= content_type@.len(),
            forall|j: int| 0 <= j < i ==> content_type@[j] == marker@[j],
        decreases marker@.len() - i,
    {
        if content_type[i] != marker[i] {
            proof {
                if grpc_marker().is_prefix_of(content_type@) {
                    assert(content_type@.subrange(0, grpc_marker().len() as int)[i as int]
                        == content_type@[i as int]);
                }
            }
            return false;
        }
        i += 1;
    }
    proof {
        assert(grpc_marker() =~= content_type@.subrange(0, grpc_marker().len() as int));
    }
    true
}

/// Decide which backend serves a request, from its metadata alone. Pure and
/// total: unrecognized metadata resolves to the default route, never to an
/// error.
pub fn classify(m: &RequestMeta) -> (r: Route)
    ensures
        r == spec_classify(*m),
{
    if m.version == 2 && has_grpc_prefix(&m.content_type) {
        Route::RouteB
    } else {
        Route::RouteA
    }
}

/// Classification is deterministic: identical metadata classifies to the
/// same route on every call.
pub proof fn lemma_classify_deterministic(m1: RequestMeta, m2: RequestMeta)
    requires
        m1 == m2,
    ensures
        spec_classify(m1) == spec_classify(m2),
{
}

/// Classification is total: every metadata value maps to exactly one of the
/// two routes — never to an error — and it is the RPC route exactly when the
/// specific signature holds.
pub proof fn lemma_classify_total(m: RequestMeta)
    ensures
        spec_classify(m) == Route::RouteA || spec_classify(m) == Route::RouteB,
        !(spec_classify(m) == Route::RouteA && spec_classify(m) == Route::RouteB),
        spec_classify(m) == Route::RouteB <==> matches_route_b(m),
{
}

/// Priority: metadata that satisfies both the generic and the specific
/// signature classifies to the RPC route — the more specific signature
/// overrides the default.
pub proof fn lemma_specific_signature_wins(m: RequestMeta)
    requires
        matches_route_a(m),
        matches_route_b(m),
    ensures
        spec_classify(m) == Route::RouteB,
{
}

} // verus!
