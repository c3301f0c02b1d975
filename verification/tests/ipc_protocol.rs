use webview_bridge::codec::{decode_bytes, decode_string, encode_bytes, encode_string, roundtrip_bytes, roundtrip_string};
use webview_bridge::ipc::{classify_request, fetch_response, interpret_poll, new_ipc_channel, Endpoint, HttpMethod, IpcRequest, Polled};
use webview_bridge::{WebViewHandle, WebViewPlugin};
use webview_bridge::ipc::FetchEvent;

fn get(uri: &str) -> IpcRequest {
    IpcRequest {
        method: HttpMethod::Get,
        uri: uri.to_owned(),
        body: Vec::new(),
    }
}

fn post(uri: &str, body: Vec<u8>) -> IpcRequest {
    IpcRequest {
        method: HttpMethod::Post,
        uri: uri.to_owned(),
        body,
    }
}

#[test]
fn text_payloads_round_trip() {
    for text in ["", "hello", "√ unicode — payload", "{\"count\":3}"] {
        let value = text.to_owned();
        assert_eq!(roundtrip_string(&value), Some(value.clone()));
        let encoded = encode_string(&value);
        assert_eq!(decode_string(&encoded), Some(value));
    }
}

#[test]
fn byte_payloads_round_trip() {
    for bytes in [vec![], vec![1u8, 2, 3], vec![0u8; 300]] {
        assert_eq!(roundtrip_bytes(&bytes), Some(bytes.clone()));
        let encoded = encode_bytes(&bytes);
        assert_eq!(decode_bytes(&encoded), Some(bytes));
    }
}

#[test]
fn encoding_matches_the_serialization_library() {
    let value = "hi".to_owned();
    let expected = rmp_serde::to_vec(&value).expect("string serialization cannot fail");
    assert_eq!(encode_string(&value), expected);
    assert_ne!(encode_string(&value), value.clone().into_bytes());
    let raw = vec![1u8, 2, 3];
    let expected = rmp_serde::to_vec(&raw).expect("byte serialization cannot fail");
    assert_eq!(encode_bytes(&raw), expected);
    assert_ne!(encode_bytes(&raw), raw);
    // Even an empty payload encodes to at least its marker byte, so an
    // encoded payload is never confused with the empty not-found marker.
    assert!(encode_string(&String::new()).len() >= 1);
    assert!(encode_bytes(&Vec::new()).len() >= 1);
}

#[test]
fn malformed_buffers_decode_to_nothing() {
    // 0xc1 is never a valid first byte of the encoding.
    assert_eq!(decode_string(&vec![0xc1]), None);
    assert_eq!(decode_bytes(&vec![0xc1]), None);
}

#[test]
fn endpoints_are_classified_by_method_and_path() {
    assert_eq!(
        classify_request(HttpMethod::Post, &"bridge://send".to_owned()),
        Endpoint::SendMessage
    );
    assert_eq!(
        classify_request(HttpMethod::Post, &"bridge://send/".to_owned()),
        Endpoint::SendMessage
    );
    assert_eq!(
        classify_request(HttpMethod::Get, &"bridge://fetch".to_owned()),
        Endpoint::FetchMessage
    );
    assert_eq!(
        classify_request(HttpMethod::Get, &"bridge://fetch/".to_owned()),
        Endpoint::FetchMessage
    );
    assert_eq!(
        classify_request(HttpMethod::Get, &"bridge://send".to_owned()),
        Endpoint::Unknown
    );
    assert_eq!(
        classify_request(HttpMethod::Post, &"bridge://fetch".to_owned()),
        Endpoint::Unknown
    );
    assert_eq!(
        classify_request(HttpMethod::Other, &"bridge://send".to_owned()),
        Endpoint::Unknown
    );
}

#[test]
fn fetch_response_passes_bytes_through_verbatim() {
    let hit = fetch_response(Some(vec![1, 2, 3]));
    assert_eq!(hit.status, 200);
    assert_eq!(hit.body, vec![1, 2, 3]);
    let closed = fetch_response(None);
    assert_eq!(closed.status, 404);
    assert!(closed.body.is_empty());
    let empty_marker = fetch_response(Some(Vec::new()));
    assert_eq!(empty_marker.status, 404);
    assert!(empty_marker.body.is_empty());
}

#[test]
fn outgoing_messages_are_fetched_in_send_order() {
    let (sender, _queue, store) = new_ipc_channel();
    let protocol = store.make_async_protocol();
    let handle = WebViewHandle(Some(0));
    let e1 = sender.send_raw(handle, vec![1]);
    let e2 = sender.send_raw(handle, vec![2]);
    let e3 = sender.send_raw(handle, vec![3]);
    assert_eq!(e1.0, handle);
    assert_eq!(e2.0, handle);
    assert_eq!(e3.0, handle);
    for expected in [vec![1u8], vec![2], vec![3]] {
        let r = protocol.handle(get("bridge://fetch"));
        assert_eq!(r.status, 200);
        assert_eq!(r.body, expected);
    }
    drop(sender);
    let after = protocol.handle(get("bridge://fetch"));
    assert_eq!(after.status, 404);
    assert!(after.body.is_empty());
}

#[test]
fn fetch_without_any_send_is_not_found() {
    // One surface with inline markup content at (0,0,400,400): its protocol
    // thread's fetch blocks until the outgoing queue yields; once the
    // host-side sender is gone without ever sending, the pull reports
    // not-found instead of blocking forever.
    let mut bundle = webview_bridge::UiWebViewBundle::new();
    bundle.node = webview_bridge::reactivity::NodeGeometry {
        center_x: 200,
        center_y: 200,
        width: 400,
        height: 400,
    };
    bundle.location = webview_bridge::WebViewLocation::Html("<h1>inline</h1>".to_owned());
    let plan = WebViewPlugin::on_webview_spawn(bundle.handle, bundle.node, bundle.location.clone())
        .expect("a fresh node gets a spawn plan");
    assert_eq!(plan.position, (0, 0));
    assert_eq!(plan.size, (400, 400));
    let protocol = bundle
        .take_temporary_store()
        .expect("a fresh bundle still carries its store")
        .make_async_protocol();
    drop(bundle.ipc_sender);
    let r = protocol.handle(get("bridge://fetch"));
    assert_eq!(r.status, 404);
    assert!(r.body.is_empty());
}

#[test]
fn one_send_feeds_exactly_one_fetch() {
    let (sender, _queue, store) = new_ipc_channel();
    let protocol = store.make_async_protocol();
    let event = sender.send_raw(WebViewHandle(Some(0)), vec![1, 2, 3]);
    let targets = WebViewPlugin::handle_fetch(&vec![event], 1);
    assert_eq!(targets, vec![0]);
    let first = protocol.handle(get("bridge://fetch"));
    assert_eq!(first.status, 200);
    assert_eq!(first.body, vec![1, 2, 3]);
    drop(sender);
    let second = protocol.handle(get("bridge://fetch"));
    assert_eq!(second.status, 404);
    assert!(second.body.is_empty());
}

#[test]
fn send_endpoint_copies_the_body_onto_the_incoming_queue() {
    let (_sender, queue, store) = new_ipc_channel();
    let protocol = store.make_async_protocol();
    let payload = encode_string(&"ping".to_owned());
    let ack = protocol.handle(post("bridge://send", payload.clone()));
    assert_eq!(ack.status, 200);
    assert!(ack.body.is_empty());
    assert_eq!(queue.next_raw(), Some(payload));
    assert_eq!(queue.next_raw(), None);
}

#[test]
fn typed_send_and_poll_round_trip_through_the_protocol() {
    let (sender, queue, store) = new_ipc_channel();
    let protocol = store.make_async_protocol();
    sender.send(WebViewHandle(Some(0)), &"counted".to_owned());
    let fetched = protocol.handle(get("bridge://fetch"));
    assert_eq!(fetched.status, 200);
    // Hand the fetched bytes back in through the send endpoint, as the
    // embedded content would, and poll them off the incoming queue.
    let ack = protocol.handle(post("bridge://send/", fetched.body));
    assert_eq!(ack.status, 200);
    match queue.next() {
        Polled::Message(m) => assert_eq!(m, "counted"),
        other => panic!("expected the decoded message, got {:?}", other),
    }
    assert!(matches!(queue.next(), Polled::Empty));
}

#[test]
fn malformed_incoming_buffers_are_fatal_for_that_message() {
    let (_sender, queue, store) = new_ipc_channel();
    let protocol = store.make_async_protocol();
    protocol.handle(post("bridge://send", vec![0xc1]));
    assert!(matches!(queue.next(), Polled::Malformed));
    assert!(matches!(queue.next(), Polled::Empty));
    assert!(matches!(interpret_poll(None), Polled::Empty));
}

#[test]
fn unknown_requests_are_not_found() {
    let (_sender, _queue, store) = new_ipc_channel();
    let protocol = store.make_async_protocol();
    for request in [
        get("bridge://send"),
        post("bridge://fetch", vec![1]),
        get("bridge://other"),
        post("bridge://send/extra", vec![1]),
    ] {
        let r = protocol.handle(request);
        assert_eq!(r.status, 404);
        assert!(r.body.is_empty());
    }
}

#[test]
fn string_transport_delivers_utf8_bytes_inband() {
    let (_sender, queue, store) = new_ipc_channel();
    let handler = store.make_ipc_handler();
    assert!(handler.handle_message("plain text"));
    assert_eq!(queue.next_raw(), Some("plain text".as_bytes().to_vec()));
}

#[test]
fn fetch_trigger_skips_unassigned_and_stale_handles() {
    let events = vec![
        FetchEvent(WebViewHandle(Some(0))),
        FetchEvent(WebViewHandle(None)),
        FetchEvent(WebViewHandle(Some(7))),
        FetchEvent(WebViewHandle(Some(1))),
        FetchEvent(WebViewHandle(Some(0))),
    ];
    let targets = WebViewPlugin::handle_fetch(&events, 2);
    assert_eq!(targets, vec![0, 1, 0]);
    assert!(WebViewPlugin::handle_fetch(&Vec::new(), 2).is_empty());
}
