use multiplex::demo::{greeting, hello_world_body};
use multiplex::envelope::{Envelope, IntoTransport};
use multiplex::response::{concat_frames, text_plain_bytes, FramedResponse, TextResponse};

#[test]
fn text_response_through_the_envelope() {
    let e: Envelope<TextResponse, FramedResponse> =
        Envelope::from_a(TextResponse { status: 200, body: b"Hello, World!".to_vec() });
    let t = e.into_transport();
    assert_eq!(t.status, 200);
    assert_eq!(t.content_type, b"text/plain".to_vec());
    assert_eq!(t.body, b"Hello, World!".to_vec());
}

#[test]
fn framed_response_through_the_envelope() {
    let frames = vec![b"ab".to_vec(), b"cde".to_vec(), b"".to_vec(), b"f".to_vec()];
    let e: Envelope<TextResponse, FramedResponse> =
        Envelope::from_b(FramedResponse { status: 200, frames });
    let t = e.into_transport();
    assert_eq!(t.status, 200);
    assert_eq!(t.content_type, b"application/grpc".to_vec());
    assert_eq!(t.body, b"abcdef".to_vec());
}

#[test]
fn injections_keep_their_variant() {
    let a: Envelope<TextResponse, FramedResponse> =
        Envelope::from_a(TextResponse { status: 204, body: Vec::new() });
    assert!(matches!(a, Envelope::FromA(_)));
    let b: Envelope<TextResponse, FramedResponse> =
        Envelope::from_b(FramedResponse { status: 204, frames: Vec::new() });
    assert!(matches!(b, Envelope::FromB(_)));
}

#[test]
fn failure_responses_pass_through_unchanged() {
    let e: Envelope<TextResponse, FramedResponse> =
        Envelope::from_a(TextResponse { status: 500, body: b"backend fault".to_vec() });
    let t = e.into_transport();
    assert_eq!(t.status, 500);
    assert_eq!(t.body, b"backend fault".to_vec());
}

#[test]
fn concat_frames_exact_value() {
    let frames = vec![b"one".to_vec(), b"two".to_vec()];
    assert_eq!(concat_frames(&frames), b"onetwo".to_vec());
    let empty: Vec<Vec<u8>> = Vec::new();
    assert_eq!(concat_frames(&empty), Vec::<u8>::new());
}

#[test]
fn text_plain_bytes_exact_value() {
    assert_eq!(text_plain_bytes(), b"text/plain".to_vec());
}

#[test]
fn direct_text_adaptation_matches_envelope_adaptation() {
    let t = TextResponse { status: 200, body: b"x".to_vec() }.into_transport();
    assert_eq!(t.content_type, b"text/plain".to_vec());
    assert_eq!(t.body, b"x".to_vec());
}

#[test]
fn greeting_exact_value() {
    assert_eq!(greeting(&b"World".to_vec()), b"Hello World!".to_vec());
    assert_eq!(greeting(&Vec::new()), b"Hello !".to_vec());
}

#[test]
fn hello_world_body_exact_value() {
    assert_eq!(hello_world_body(), b"Hello, World!".to_vec());
}
