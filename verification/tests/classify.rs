use multiplex::classify::{classify, Route};
use multiplex::request::RequestMeta;

fn meta(version: u8, content_type: &[u8]) -> RequestMeta {
    RequestMeta {
        version,
        content_type: content_type.to_vec(),
        path: String::from("/"),
        method: String::from("GET"),
    }
}

#[test]
fn grpc_version_and_marker_route_b() {
    assert_eq!(classify(&meta(2, b"application/grpc")), Route::RouteB);
}

#[test]
fn plain_text_on_version_one_routes_a() {
    assert_eq!(classify(&meta(1, b"text/plain")), Route::RouteA);
}

#[test]
fn version_alone_is_not_enough() {
    assert_eq!(classify(&meta(2, b"text/plain")), Route::RouteA);
}

#[test]
fn marker_without_matching_version_routes_a() {
    assert_eq!(classify(&meta(1, b"application/grpc")), Route::RouteA);
}

#[test]
fn marker_prefix_extension_routes_b() {
    assert_eq!(classify(&meta(2, b"application/grpc+proto")), Route::RouteB);
}

#[test]
fn empty_content_type_routes_a() {
    assert_eq!(classify(&meta(2, b"")), Route::RouteA);
}

#[test]
fn truncated_marker_routes_a() {
    assert_eq!(classify(&meta(2, b"application/grp")), Route::RouteA);
}

#[test]
fn unrelated_version_routes_a() {
    assert_eq!(classify(&meta(0, b"application/grpc")), Route::RouteA);
    assert_eq!(classify(&meta(3, b"application/grpc")), Route::RouteA);
}

#[test]
fn classification_is_deterministic() {
    let cases: [(u8, &[u8]); 4] = [
        (2, b"application/grpc"),
        (1, b"text/plain"),
        (2, b"text/plain"),
        (1, b"application/grpc"),
    ];
    for (version, content_type) in cases {
        let first = classify(&meta(version, content_type));
        for _ in 0..5 {
            assert_eq!(classify(&meta(version, content_type)), first);
        }
    }
}

#[test]
fn classification_is_total() {
    let content_types: [&[u8]; 5] = [
        b"",
        b"text/plain",
        b"application/grpc",
        b"application/grpc-web",
        b"application/json",
    ];
    for version in 0..=4u8 {
        for content_type in content_types {
            let route = classify(&meta(version, content_type));
            assert!(matches!(route, Route::RouteA | Route::RouteB));
        }
    }
}
